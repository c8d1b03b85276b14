# Monk3i

The logic of a desktop download manager, verified with Verus, and the
application around it.

- `src/` is the verified library. It reads URLs and response headers, names
  files, keeps track of the downloads under way, reads what yt-dlp prints, and
  holds the courses of file and media downloads as state machines. Its
  functions state their results exactly. How a path with backslashes, drive marks
  or a server name is parted is left to the platform, and what is made of its
  answer is stated. The functions
  named `law_...` are proofs of what holds of the library as a whole.
- `src/outside.rs` holds what is taken on trust from other crates and from the
  path functions of the standard library. `String::push` is specified in
  `src/text.rs`.
- `app/` is the Tauri application: commands, network, files, processes, and the
  percentages and speeds, which are floating-point numbers.
- `tests/` runs the library on concrete values.
