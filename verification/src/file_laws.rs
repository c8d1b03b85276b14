//! What holds of every file download, from its start to its end.

use vstd::prelude::*;

use crate::control::Control;
use crate::file_run::{
    after_answer, expects, file_next, file_start, is_page_kind, page_message, stored_name,
    FileActionView, FileEventView, FileView, Stage,
};
use crate::filename::{cleaned, is_safe_name, law_sanitized_is_safe, replaced};
use crate::location::kind;
use crate::location_laws::{declares, law_declared_type_is_read};
use crate::naming::{
    law_extended_name_is_safe, law_response_name_is_safe, response_name, type_extension,
};
use crate::naming_laws::{is_type_of, lemma_types_differ};
use crate::outside::name_extension;
use crate::report::{PercentView, ReportView, SpeedView, Status};
use crate::resource::{
    head_filename, header_text, or_empty, resource_of_head, total_size, HeadView,
};
use crate::text::{before_first, first_index, lemma_first_index, lower, trimmed, upper};

verus! {

/// Whether each of `events` is what a download waits for when it happens, the
/// download standing at `s` before the first.
pub open spec fn is_file_course(s: FileView, events: Seq<FileEventView>) -> bool
    decreases events.len(),
{
    events.len() == 0 || expects(s, events.first()) && is_file_course(
        file_next(s, events.first()).0,
        events.drop_first(),
    )
}

/// How a download that stood at `s` stands after `events`.
pub open spec fn file_after(s: FileView, events: Seq<FileEventView>) -> FileView
    decreases events.len(),
{
    if events.len() == 0 {
        s
    } else {
        file_after(file_next(s, events.first()).0, events.drop_first())
    }
}

/// What a download that stood at `s` needed done after each of `events`.
pub open spec fn file_actions(s: FileView, events: Seq<FileEventView>) -> Seq<FileActionView>
    decreases events.len(),
{
    if events.len() == 0 {
        seq![]
    } else {
        seq![file_next(s, events.first()).1] + file_actions(
            file_next(s, events.first()).0,
            events.drop_first(),
        )
    }
}

/// The bytes that the chunks of `events` wrote, all together.
pub open spec fn written(events: Seq<FileEventView>) -> nat
    decreases events.len(),
{
    if events.len() == 0 {
        0
    } else {
        written(events.drop_first()) + match events.first() {
            FileEventView::Written(bytes) => bytes as nat,
            _ => 0,
        }
    }
}

/// Whether an action ends a download.
pub open spec fn is_end(action: FileActionView) -> bool {
    action is Finish || action is Fail
}

/// A download has one end: what it needs done last, and nothing before that, is
/// to finish or to fail, and then it waits for nothing.
pub proof fn law_file_has_one_end(s: FileView, events: Seq<FileEventView>, i: int)
    requires
        is_file_course(s, events),
        0 <= i < events.len(),
    ensures
        file_actions(s, events).len() == events.len(),
        is_end(file_actions(s, events)[i]) ==> i == events.len() - 1 && file_after(s, events).stage
            == Stage::Done,
        file_after(s, events).stage == Stage::Done ==> is_end(file_actions(s, events).last()),
    decreases events.len(),
{
    let next = file_next(s, events.first()).0;
    let rest = events.drop_first();
    if rest.len() == 0 {
        assert(file_actions(next, rest) =~= seq![]);
        assert(file_after(next, rest) == next);
    } else {
        assert(is_file_course(next, rest));
        assert(expects(next, rest.first()));
        law_file_has_one_end(next, rest, if i > 0 { i - 1 } else { 0 });
        assert(file_actions(s, events).last() == file_actions(next, rest).last());
        if i > 0 {
            assert(file_actions(s, events)[i] == file_actions(next, rest)[i - 1]);
        }
    }
}

/// The bytes that a download counts are the bytes that were written.
pub proof fn law_downloaded_is_written(s: FileView, events: Seq<FileEventView>)
    requires
        is_file_course(s, events),
    ensures
        file_after(s, events).downloaded == s.downloaded + written(events),
    decreases events.len(),
{
    if events.len() > 0 {
        law_downloaded_is_written(file_next(s, events.first()).0, events.drop_first());
    }
}

/// Once a download has a place, its name, its place and its size stay, whatever
/// happens.
pub proof fn law_place_is_kept(s: FileView, event: FileEventView)
    requires
        expects(s, event),
        s.stage != Stage::Requesting,
        s.stage != Stage::Housing,
    ensures
        file_next(s, event).0.filename == s.filename,
        file_next(s, event).0.path == s.path,
        file_next(s, event).0.total == s.total,
{
}

/// A download is reported complete exactly when its file is written out, and
/// then its file stays, in the place that the report tells.
pub proof fn law_file_completed_is_flushed(s: FileView, event: FileEventView)
    requires
        expects(s, event),
    ensures
        (file_next(s, event).1 matches FileActionView::Finish { report, .. } && report.status
            == Status::Completed) <==> event == FileEventView::Flushed(None),
        file_next(s, event).1 matches FileActionView::Finish { discard, report } ==> (
        report.status == Status::Completed ==> {
            &&& !discard
            &&& report.path == Some(s.path)
            &&& report.downloaded == s.downloaded
            &&& report.total == s.total
            &&& report.percent == PercentView::Full
        }),
{
}

/// A download that finishes is either complete or cancelled, and exactly the
/// cancelled one has its file removed.
pub proof fn law_only_cancelled_is_discarded(s: FileView, event: FileEventView)
    requires
        expects(s, event),
    ensures
        file_next(s, event).1 matches FileActionView::Finish { discard, report } ==> {
            &&& report.status == Status::Cancelled || report.status == Status::Completed
            &&& discard == (report.status == Status::Cancelled)
            &&& discard ==> report.path is None
        },
{
}

/// The report that an action makes.
pub open spec fn made_file_report(action: FileActionView) -> Option<ReportView> {
    match action {
        FileActionView::Create(report) => Some(report),
        FileActionView::Receive(report) => report,
        FileActionView::Wait(report) => Some(report),
        FileActionView::Finish { report, .. } => Some(report),
        _ => None,
    }
}

/// A report on a file never reports an error, says where the file is unless the
/// download is cancelled, and shows the name, the size and the bytes so far.
pub proof fn law_file_reports_are_consistent(s: FileView, event: FileEventView)
    requires
        expects(s, event),
    ensures
        made_file_report(file_next(s, event).1) matches Some(report) ==> {
            let t = file_next(s, event).0;
            &&& report.error is None
            &&& report.status != Status::Error
            &&& report.path == if report.status == Status::Cancelled {
                None
            } else {
                Some(t.path)
            }
            &&& report.filename == t.filename
            &&& report.total == t.total
            &&& report.downloaded == t.downloaded
        },
{
}

/// A page is never stored: a response whose kind is that of a page ends the
/// download with a message and takes it off those under way, and no other
/// failure takes it off.
pub proof fn law_page_is_refused(s: FileView, event: FileEventView)
    requires
        expects(s, event),
    ensures
        event matches FileEventView::Answered(head) ==> (file_next(s, event).1 == (
        FileActionView::Fail { message: page_message(), forget: true }) <==> is_page_kind(
            kind(Some(or_empty(header_text(head.content_type))), head.location),
        )),
        file_next(s, event).1 matches FileActionView::Fail { forget, .. } ==> forget == (event
            is Answered),
{
}

/// A chunk is written only where the download was neither paused nor cancelled
/// when it came, or went on after a pause.
pub proof fn law_write_is_allowed(s: FileView, event: FileEventView)
    requires
        expects(s, event),
    ensures
        file_next(s, event).1 is Write ==> event == FileEventView::Arrived(
            Control { paused: false, cancelled: false },
        ) || event == (FileEventView::Waited { goes_on: true }),
        file_next(s, event).1 is Wait <==> event == FileEventView::Arrived(
            Control { paused: true, cancelled: false },
        ),
        file_next(s, event).1 matches FileActionView::Wait(report) ==> report.status
            == Status::Paused && report.path == Some(s.path),
{
}

/// A download that is found cancelled when a chunk comes, or at the end of a
/// pause, is done at once: its file is removed and it is reported as cancelled.
pub proof fn law_cancelled_file_is_removed(s: FileView, event: FileEventView)
    requires
        expects(s, event),
        event matches FileEventView::Arrived(control) && control.cancelled || event == (
        FileEventView::Waited { goes_on: false }),
    ensures
        file_next(s, event).0.stage == Stage::Done,
        file_next(s, event).1 matches FileActionView::Finish { discard, report } && discard
            && report.status == Status::Cancelled && report.downloaded == s.downloaded,
{
}

/// A download that runs to its end is reported complete with all the bytes of
/// its response, and the place that it was given.
pub proof fn law_complete_course(events: Seq<FileEventView>)
    requires
        is_file_course(file_start(), events),
        events.len() > 0,
        events.last() == FileEventView::Flushed(None),
    ensures
        file_actions(file_start(), events).last() matches FileActionView::Finish {
            discard,
            report,
        } && !discard && report.status == Status::Completed && report.downloaded == written(events),
        file_actions(file_start(), events).last() matches FileActionView::Finish { report, .. }
            ==> exists|k: int|
            0 <= k < events.len() && (#[trigger] events[k] matches FileEventView::Housed { path }
                && report.path == Some(path)),
{
    lemma_last_action(file_start(), events);
    law_downloaded_is_written(file_start(), events.drop_last());
    lemma_written_last(events);
    lemma_place_was_given(file_start(), events.drop_last());
    let path = file_after(file_start(), events.drop_last()).path;
    let k = choose|k: int|
        0 <= k < events.len() - 1 && #[trigger] events.drop_last()[k] == (FileEventView::Housed {
            path,
        });
    assert(events[k] == (FileEventView::Housed { path }));
}

/// The last event of a course is met by the download as it stands then.
proof fn lemma_last_action(s: FileView, events: Seq<FileEventView>)
    requires
        is_file_course(s, events),
        events.len() > 0,
    ensures
        is_file_course(s, events.drop_last()),
        expects(file_after(s, events.drop_last()), events.last()),
        file_actions(s, events).len() > 0,
        file_actions(s, events).last() == file_next(
            file_after(s, events.drop_last()),
            events.last(),
        ).1,
    decreases events.len(),
{
    let next = file_next(s, events.first()).0;
    let rest = events.drop_first();
    if rest.len() == 0 {
        assert(file_actions(next, rest) =~= seq![]);
        assert(events.drop_last() =~= seq![]);
        assert(events.first() == events.last());
    } else {
        assert(is_file_course(next, rest));
        lemma_last_action(next, rest);
        assert(events.drop_last().drop_first() =~= rest.drop_last());
        assert(events.drop_last().first() == events.first());
        assert(file_actions(s, events).last() == file_actions(next, rest).last());
    }
}

/// A last event that writes nothing adds nothing.
proof fn lemma_written_last(events: Seq<FileEventView>)
    requires
        events.len() > 0,
        !(events.last() is Written),
    ensures
        written(events) == written(events.drop_last()),
    decreases events.len(),
{
    if events.len() == 1 {
        assert(events.drop_first() =~= seq![]);
        assert(events.drop_last() =~= seq![]);
        assert(written(events.drop_first()) == 0);
    } else {
        lemma_written_last(events.drop_first());
        assert(events.drop_last().drop_first() =~= events.drop_first().drop_last());
        assert(events.drop_last().first() == events.first());
    }
}

/// Whether a download that waits for `stage` has been given a place.
pub open spec fn has_place(stage: Stage) -> bool {
    ||| stage == Stage::Creating
    ||| stage == Stage::Receiving
    ||| stage == Stage::Waiting
    ||| stage == Stage::Writing
    ||| stage == Stage::Flushing
}

/// A download that has a place was given it on the way.
proof fn lemma_place_was_given(s: FileView, events: Seq<FileEventView>)
    requires
        is_file_course(s, events),
    ensures
        has_place(file_after(s, events).stage) ==> {
            ||| has_place(s.stage) && file_after(s, events).path == s.path
            ||| exists|k: int|
                0 <= k < events.len() && #[trigger] events[k] == (FileEventView::Housed {
                    path: file_after(s, events).path,
                })
        },
    decreases events.len(),
{
    if events.len() > 0 {
        let next = file_next(s, events.first()).0;
        let rest = events.drop_first();
        let path = file_after(s, events).path;
        lemma_place_was_given(next, rest);
        if has_place(file_after(s, events).stage) {
            if has_place(next.stage) && path == next.path {
                if !has_place(s.stage) {
                    assert(events[0] == (FileEventView::Housed { path }));
                }
            } else {
                let k = choose|k: int|
                    0 <= k < rest.len() && #[trigger] rest[k] == (FileEventView::Housed { path });
                assert(events[k + 1] == (FileEventView::Housed { path }));
            }
        }
    }
}

/// Whatever a server sends, its file is stored under a safe name.
pub proof fn law_stored_name_is_safe(head: HeadView)
    ensures
        is_safe_name(stored_name(head)),
{
    let content_type = or_empty(header_text(head.content_type));
    let disposition = header_text(head.content_disposition);
    law_response_name_is_safe(disposition, head.location.text);
    if let Some(name) = response_name(disposition, head.location.text) {
        law_extended_name_is_safe(name, name_extension(name) is Some, content_type);
    } else {
        reveal_strlit("download");
        reveal_strlit("download.");
        reveal_strlit("download.bin");
        reveal_strlit(".");
        lemma_download_is_safe();
        law_extended_name_is_safe("download"@, false, content_type);
        assert("download."@ =~= "download"@ + "."@);
        lemma_stand_in_is_safe();
    }
}

/// The name for what has none is safe.
proof fn lemma_download_is_safe()
    ensures
        is_safe_name("download"@),
{
    reveal_strlit("download");
    law_sanitized_is_safe(seq![]);
    assert(replaced(seq![]) =~= seq![]);
    assert(trimmed(seq![]) =~= seq![]);
    assert(cleaned(seq![]) =~= seq![]);
    assert(before_first(seq![], '.') =~= seq![]);
    assert(upper(seq![]) =~= seq![]);
    reveal_strlit("CON");
    reveal_strlit("PRN");
    reveal_strlit("AUX");
    reveal_strlit("NUL");
}

/// The name of last resort is safe.
proof fn lemma_stand_in_is_safe()
    ensures
        is_safe_name("download.bin"@),
{
    reveal_strlit("download.bin");
    let name = "download.bin"@;
    lemma_first_index(name, '.');
    assert(name[8] == '.');
    assert(first_index(name, '.') == 8);
    assert(upper(before_first(name, '.')).len() == 8);
    reveal_strlit("CON");
    reveal_strlit("PRN");
    reveal_strlit("AUX");
    reveal_strlit("NUL");
}

/// An inspection tells what a download does: of the same response it gives the
/// same name, the same size, and the kind of a page exactly where the download
/// is refused.
pub proof fn law_inspection_foretells(url: Seq<char>, s: FileView, head: HeadView)
    ensures
        ({
            let info = resource_of_head(url, head);
            let (t, action) = after_answer(s, head);
            &&& is_page_kind(info.kind) <==> action is Fail
            &&& !is_page_kind(info.kind) ==> t.total == info.size && t.filename == stored_name(head)
                && action == (FileActionView::House { filename: stored_name(head) })
            &&& info.filename matches Some(name) ==> stored_name(head) == name
        }),
{
}

/// A percentage is always that of all bytes so far: a share that is reported is
/// of the bytes that the report counts and of the size that it tells. A report
/// that follows a chunk has a share exactly where the size is known, and counts
/// the speed by all bytes too.
pub proof fn law_share_is_of_all_bytes(s: FileView, event: FileEventView)
    requires
        expects(s, event),
    ensures
        made_file_report(file_next(s, event).1) matches Some(report) ==> {
            &&& report.percent matches PercentView::Share { done, of } ==> done == report.downloaded
                && report.total == Some(of)
            &&& report.percent is Full <==> report.status == Status::Completed
            &&& report.percent is Unknown ==> report.total is None
            &&& report.percent is Zero ==> event is Housed
            &&& !(report.percent is Written)
            &&& report.total is None ==> report.percent is Unknown || report.percent is Full
        },
        event matches FileEventView::Written(bytes) ==> {
            &&& made_file_report(file_next(s, event).1) matches Some(report)
            &&& report.downloaded == s.downloaded + bytes
            &&& report.total is Some ==> report.percent is Share
            &&& report.speed == SpeedView::SinceStart(report.downloaded)
            &&& report.status == Status::Downloading
        },
        made_file_report(file_next(s, event).1) matches Some(report) ==> (!(event is Written)
            ==> report.speed is Zero),
{
}

/// After a chunk was written, the report on it counts the bytes of all chunks
/// of the course, and where the size is known its share is of these.
pub proof fn law_report_counts_the_course(events: Seq<FileEventView>)
    requires
        is_file_course(file_start(), events),
        events.len() > 0,
        events.last() is Written,
    ensures
        made_file_report(file_actions(file_start(), events).last()) matches Some(report) && {
            &&& report.downloaded == written(events)
            &&& report.percent matches PercentView::Share { done, .. } ==> done == written(events)
            &&& report.speed matches SpeedView::SinceStart(bytes) ==> bytes == written(events)
        },
{
    let s = file_start();
    lemma_last_action(s, events);
    law_downloaded_is_written(s, events.drop_last());
    lemma_written_adds(events);
    law_share_is_of_all_bytes(file_after(s, events.drop_last()), events.last());
}

/// A last chunk adds its bytes.
proof fn lemma_written_adds(events: Seq<FileEventView>)
    requires
        events.len() > 0,
        events.last() is Written,
    ensures
        written(events) == written(events.drop_last()) + events.last()->Written_0,
    decreases events.len(),
{
    if events.len() == 1 {
        assert(events.drop_first() =~= seq![]);
        assert(events.drop_last() =~= seq![]);
        assert(written(events.drop_first()) == 0);
        assert(written(events.drop_last()) == 0);
    } else {
        lemma_written_adds(events.drop_first());
        assert(events.drop_last().drop_first() =~= events.drop_first().drop_last());
        assert(events.drop_last().first() == events.first());
    }
}

/// The first report, before anything is there, shows nothing of something: zero
/// where the size is known, and no percentage where it is not.
pub proof fn law_first_report_shows_nothing(s: FileView, path: Seq<char>)
    requires
        s.stage == Stage::Housing,
    ensures
        file_next(s, FileEventView::Housed { path }).1 matches FileActionView::Create(report) && {
            &&& report.downloaded == s.downloaded
            &&& report.total == s.total
            &&& report.percent is Zero <==> s.total is Some
            &&& report.percent is Unknown <==> s.total is None
            &&& report.path == Some(path)
            &&& report.filename == s.filename
            &&& report.status == Status::Downloading
        },
        file_next(s, FileEventView::Housed { path }).0.path == path,
        file_next(s, FileEventView::Housed { path }).0.stage == Stage::Creating,
{
}

/// Whatever goes wrong ends the download at once, with the reason that was given
/// for it, and nothing else than that and a page ends it with a message.
pub proof fn law_reason_is_passed_on(s: FileView, event: FileEventView, reason: Seq<char>)
    requires
        expects(s, event),
    ensures
        (event == FileEventView::Unanswered(reason) || event == FileEventView::Unhoused(reason)
            || event == FileEventView::Unwritten(reason) || event == FileEventView::Created(
            Some(reason),
        ) || event == FileEventView::Flushed(Some(reason))) ==> {
            &&& file_next(s, event).1 == (FileActionView::Fail { message: reason, forget: false })
            &&& file_next(s, event).0.stage == Stage::Done
        },
        file_next(s, event).1 is Fail ==> {
            ||| event is Answered
            ||| event is Unanswered
            ||| event is Unhoused
            ||| event is Unwritten
            ||| event == FileEventView::Created(Some(event->Created_0->0))
            ||| event == FileEventView::Flushed(Some(event->Flushed_0->0))
        },
{
}

/// Where nothing goes wrong, a download goes its way: from the file to its
/// chunks, each of which is written, and from the last one to the end.
pub proof fn law_download_goes_on(s: FileView, event: FileEventView)
    requires
        expects(s, event),
    ensures
        event == FileEventView::Created(None) ==> file_next(s, event).0.stage == Stage::Receiving
            && file_next(s, event).1 == FileActionView::Receive(None),
        event == FileEventView::Arrived(Control { paused: false, cancelled: false }) ==> file_next(
            s,
            event,
        ).0.stage == Stage::Writing && file_next(s, event).1 == FileActionView::Write,
        event == FileEventView::Arrived(Control { paused: true, cancelled: false }) ==> file_next(
            s,
            event,
        ).0.stage == Stage::Waiting && file_next(s, event).1 is Wait,
        event == (FileEventView::Waited { goes_on: true }) ==> file_next(s, event).0.stage
            == Stage::Writing && file_next(s, event).1 == FileActionView::Write,
        event is Written ==> file_next(s, event).0.stage == Stage::Receiving && file_next(
            s,
            event,
        ).1 is Receive,
        event == FileEventView::Ended ==> file_next(s, event).0.stage == Stage::Flushing
            && file_next(s, event).1 == FileActionView::Flush,
        event == FileEventView::Flushed(None) ==> file_next(s, event).0.stage == Stage::Done,
        !(event is Written) ==> file_next(s, event).0.downloaded == s.downloaded,
{
}

/// A response is stored exactly where its kind is neither that of a page nor
/// that of a media page, and then its size and its name are those that it gives.
pub proof fn law_what_is_stored(s: FileView, head: HeadView)
    requires
        s.stage == Stage::Requesting,
    ensures
        ({
            let (t, action) = file_next(s, FileEventView::Answered(head));
            let told = kind(Some(or_empty(header_text(head.content_type))), head.location);
            &&& told == "webpage"@ || told == "media_page"@ ==> action == (FileActionView::Fail {
                message: "This URL points to a webpage, not a direct file."@,
                forget: true,
            }) && t.stage == Stage::Done
            &&& told != "webpage"@ && told != "media_page"@ ==> {
                &&& action == (FileActionView::House { filename: t.filename })
                &&& t.stage == Stage::Housing
                &&& t.total == total_size(header_text(head.content_range), head.content_length)
                &&& t.filename == stored_name(head)
                &&& t.downloaded == s.downloaded
            }
        }),
{
}

/// A file is stored under the name that its response gives, and without one
/// under `download` with the extension of the declared type, or `bin`.
pub proof fn law_name_to_store_under(head: HeadView, t: Seq<char>, e: Seq<char>)
    requires
        declares(or_empty(header_text(head.content_type)), t),
    ensures
        head_filename(head) matches Some(name) ==> stored_name(head) == name,
        head_filename(head) is None && is_type_of(lower(t), e) ==> stored_name(head)
            == "download."@ + e,
        head_filename(head) is None && (forall|x: Seq<char>| !#[trigger] is_type_of(lower(t), x))
            ==> stored_name(head) == "download.bin"@,
{
    let content_type = or_empty(header_text(head.content_type));
    law_declared_type_is_read(content_type, t);
    if is_type_of(lower(t), e) {
        lemma_types_differ(lower(t), e);
    }
    if let Some(x) = type_extension(lower(t)) {
        assert(is_type_of(lower(t), x));
    }
}

/// What a download waits for: each event in its own stage, and none at the end.
pub proof fn law_file_waits(s: FileView, event: FileEventView)
    requires
        expects(s, event),
    ensures
        s.stage != Stage::Done,
        s.stage == Stage::Requesting <==> event is Answered || event is Unanswered,
        s.stage == Stage::Housing <==> event is Housed || event is Unhoused,
        s.stage == Stage::Creating <==> event is Created,
        s.stage == Stage::Receiving <==> event is Arrived || event is Ended,
        s.stage == Stage::Waiting <==> event is Waited,
        s.stage == Stage::Writing <==> event is Written || event is Unwritten,
        s.stage == Stage::Flushing <==> event is Flushed,
        file_start().stage == Stage::Requesting,
        file_start().downloaded == 0,
{
}

/// Nothing more is asked of an event than that its stage has come, and of
/// written bytes that they can be counted along with those before.
pub proof fn law_file_takes_what_comes(
    s: FileView,
    head: HeadView,
    text: Seq<char>,
    error: Option<Seq<char>>,
    control: Control,
    goes_on: bool,
    bytes: u64,
)
    ensures
        s.stage == Stage::Requesting ==> expects(s, FileEventView::Answered(head)) && expects(
            s,
            FileEventView::Unanswered(text),
        ),
        s.stage == Stage::Housing ==> expects(s, FileEventView::Housed { path: text }) && expects(
            s,
            FileEventView::Unhoused(text),
        ),
        s.stage == Stage::Creating ==> expects(s, FileEventView::Created(error)),
        s.stage == Stage::Receiving ==> expects(s, FileEventView::Arrived(control)) && expects(
            s,
            FileEventView::Ended,
        ),
        s.stage == Stage::Waiting ==> expects(s, FileEventView::Waited { goes_on }),
        s.stage == Stage::Writing ==> expects(s, FileEventView::Unwritten(text)),
        s.stage == Stage::Writing ==> (expects(s, FileEventView::Written(bytes)) <==> s.downloaded
            + bytes <= 0xffff_ffff_ffff_ffff),
        s.stage == Stage::Flushing ==> expects(s, FileEventView::Flushed(error)),
{
}

} // verus!
