//! The logic of the Monk3i download manager.
//!
//! A URL is read and inspected ([`location`], [`inspect`], [`resource`]), then
//! its download is started ([`start`]), as a file over HTTP ([`file_run`]) or by
//! the outside program yt-dlp ([`media`], [`media_run`], [`progress`]). What is
//! downloaded gets a name that is safe to write and not taken ([`filename`],
//! [`naming`]). Each download can be paused, resumed and cancelled
//! ([`control`]), and what is reported of it is in [`report`].
//!
//! The library performs no input and output. A download is a state machine: it
//! says what it needs done and takes in what came of it. What holds of every
//! course that it can take is proved in [`file_laws`] and [`media_laws`]. The
//! other modules of laws say what the functions give, of the texts and figures
//! that they are given.

pub mod control;
pub mod file_laws;
pub mod file_run;
pub mod filename;
pub mod filename_laws;
pub mod inspect;
pub mod inspect_laws;
pub mod location;
pub mod location_laws;
pub mod media;
pub mod media_laws;
pub mod media_run;
pub mod naming;
pub mod naming_laws;
pub mod number;
pub mod outside;
pub mod progress;
pub mod progress_laws;
pub mod report;
pub mod resource;
pub mod start;
pub mod text;
pub mod text_laws;
