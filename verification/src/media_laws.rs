//! What holds of every media download, from its start to its end.

use vstd::prelude::*;

use crate::control::Control;
use crate::filename::media_name;
use crate::media::{
    fetch_arguments, listed_filename, resource_of_media, InfoView, InspectionView,
};
use crate::media_run::{
    awaits, final_name, media_next, media_start, MediaActionView, MediaEventView, MediaView, Phase,
    SourceView,
};
use crate::outside::lossy_text;
use crate::progress::progress;
use crate::progress_laws::law_other_lines_say_nothing;
use crate::report::{PercentView, ReportView, SpeedView, Status};
use crate::text::trimmed;
use crate::text_laws::{holds_text, is_blank, law_search_finds, law_trimmed_of_blank};

verus! {

/// Whether each of `events` is what a download waits for when it happens, the
/// download standing at `s` before the first.
pub open spec fn is_course(s: MediaView, events: Seq<MediaEventView>) -> bool
    decreases events.len(),
{
    events.len() == 0 || awaits(s.phase, events.first()) && is_course(
        media_next(s, events.first()).0,
        events.drop_first(),
    )
}

/// How a download that stood at `s` stands after `events`.
pub open spec fn after(s: MediaView, events: Seq<MediaEventView>) -> MediaView
    decreases events.len(),
{
    if events.len() == 0 {
        s
    } else {
        after(media_next(s, events.first()).0, events.drop_first())
    }
}

/// What a download that stood at `s` needed done after each of `events`.
pub open spec fn actions(s: MediaView, events: Seq<MediaEventView>) -> Seq<MediaActionView>
    decreases events.len(),
{
    if events.len() == 0 {
        seq![]
    } else {
        seq![media_next(s, events.first()).1] + actions(
            media_next(s, events.first()).0,
            events.drop_first(),
        )
    }
}

/// What holds of a download wherever it stands: its file is searched for and
/// moved only once the downloader has ended well without being stopped, and the
/// downloader is waited for only once it has nothing more to say.
pub open spec fn is_sound(s: MediaView) -> bool {
    &&& (s.phase == Phase::Locating || s.phase == Phase::Placing) ==> s.success && !s.killed
    &&& (s.phase == Phase::Reaping || s.phase == Phase::Settling || s.phase == Phase::WaitingAgain
        || s.phase == Phase::Locating || s.phase == Phase::Placing) ==> !s.output_open
        && !s.errors_open
}

/// Every media download stands soundly at every point of its course.
pub proof fn law_every_course_is_sound(
    id: Seq<char>,
    template: Seq<char>,
    url: Seq<char>,
    events: Seq<MediaEventView>,
)
    requires
        is_course(media_start(id, template, url), events),
    ensures
        is_sound(after(media_start(id, template, url), events)),
{
    lemma_soundness_is_kept(media_start(id, template, url), events);
}

proof fn lemma_soundness_is_kept(s: MediaView, events: Seq<MediaEventView>)
    requires
        is_sound(s),
        is_course(s, events),
    ensures
        is_sound(after(s, events)),
    decreases events.len(),
{
    if events.len() > 0 {
        lemma_soundness_is_kept(media_next(s, events.first()).0, events.drop_first());
    }
}

/// A download has one end: what it needs done last, and nothing before that, is
/// to finish, and then it waits for nothing.
pub proof fn law_finish_is_the_end(s: MediaView, events: Seq<MediaEventView>, i: int)
    requires
        is_course(s, events),
        0 <= i < events.len(),
    ensures
        actions(s, events).len() == events.len(),
        actions(s, events)[i] is Finish ==> i == events.len() - 1 && after(s, events).phase
            == Phase::Done,
        after(s, events).phase == Phase::Done ==> actions(s, events).last() is Finish,
    decreases events.len(),
{
    let next = media_next(s, events.first()).0;
    let rest = events.drop_first();
    if rest.len() == 0 {
        assert(actions(next, rest) =~= seq![]);
        assert(after(next, rest) == next);
    } else {
        assert(is_course(next, rest));
        assert(awaits(next.phase, rest.first()));
        law_finish_is_the_end(next, rest, if i > 0 { i - 1 } else { 0 });
        assert(actions(s, events).last() == actions(next, rest).last());
        if i > 0 {
            assert(actions(s, events)[i] == actions(next, rest)[i - 1]);
        }
    }
}

/// The title reaches the file system only after success: a file is moved to a
/// name made of the title only where the downloader has ended well without
/// being stopped, and its streams have ended.
pub proof fn law_title_only_after_success(
    id: Seq<char>,
    template: Seq<char>,
    url: Seq<char>,
    events: Seq<MediaEventView>,
    event: MediaEventView,
)
    requires
        is_course(media_start(id, template, url), events),
        awaits(after(media_start(id, template, url), events).phase, event),
    ensures
        ({
            let s = after(media_start(id, template, url), events);
            media_next(s, event).1 matches MediaActionView::Place { source, filename } ==> {
                &&& s.success
                &&& !s.killed
                &&& !s.output_open
                &&& !s.errors_open
                &&& exists|found: SourceView|
                    found.path == source && #[trigger] final_name(s.info, found) == filename
            }
        }),
{
    law_every_course_is_sound(id, template, url, events);
    let s = after(media_start(id, template, url), events);
    if media_next(s, event).1 is Place {
        let found = match event {
            MediaEventView::Located(source) => source->0,
            _ => s.printed->0,
        };
        assert(media_next(s, event).1 == (MediaActionView::Place {
            source: found.path,
            filename: final_name(s.info, found),
        }));
    }
}

/// A download is reported complete only once its file is in its place, which
/// takes a downloader that has ended well without being stopped.
pub proof fn law_completed_is_in_place(
    id: Seq<char>,
    template: Seq<char>,
    url: Seq<char>,
    events: Seq<MediaEventView>,
    event: MediaEventView,
)
    requires
        is_course(media_start(id, template, url), events),
        awaits(after(media_start(id, template, url), events).phase, event),
    ensures
        ({
            let s = after(media_start(id, template, url), events);
            media_next(s, event).1 matches MediaActionView::Finish { report, .. } ==> (
            report.status == Status::Completed ==> {
                &&& event matches MediaEventView::Placed { path, .. }
                &&& report.path == Some(path)
                &&& s.success
                &&& !s.killed
            })
        }),
{
    law_every_course_is_sound(id, template, url, events);
}

/// However a download ends once its folder was made, the folder is removed.
pub proof fn law_folder_is_removed(s: MediaView, event: MediaEventView)
    requires
        awaits(s.phase, event),
    ensures
        media_next(s, event).1 matches MediaActionView::Finish { clear, .. } ==> clear == (s.phase
            != Phase::Inspecting && s.phase != Phase::MakingFolder),
{
}

/// The downloader is stopped as soon as a pause or a cancellation is seen while
/// it runs. A run that was stopped stays so until the downloader is started
/// again, and its file is never put in place.
pub proof fn law_stopped_run_is_not_used(s: MediaView, event: MediaEventView)
    requires
        awaits(s.phase, event),
        is_sound(s),
    ensures
        s.phase == Phase::Polling ==> (event matches MediaEventView::Asked(control) && (
        control.paused || control.cancelled) ==> media_next(s, event).0.killed && (media_next(
            s,
            event,
        ).1 == (MediaActionView::Read { kill: true }) || media_next(s, event).1 == (
        MediaActionView::Reap { kill: true }))),
        s.killed && !(event is Started) ==> media_next(s, event).0.killed,
        s.killed ==> !(media_next(s, event).1 is Place) && !(media_next(s, event).1 is Locate),
        s.killed && s.phase == Phase::Settling && event == MediaEventView::Asked(
            Control { paused: false, cancelled: false },
        ) ==> media_next(s, event).0.phase == Phase::Checking,
{
}

/// Whether a download is on its way to start the downloader again, or for the
/// first time: the run that there was, if any, was stopped.
pub open spec fn is_starting_over(s: MediaView) -> bool {
    ||| s.killed && (s.phase == Phase::Polling || s.phase == Phase::Reading || s.phase
        == Phase::Reaping || s.phase == Phase::Settling)
    ||| s.phase == Phase::WaitingAgain
    ||| s.phase == Phase::Checking
    ||| s.phase == Phase::Waiting
}

/// Whether `event` is what happens to a download that is not cancelled.
pub open spec fn is_of_uncancelled(event: MediaEventView) -> bool {
    &&& event matches MediaEventView::Asked(control) ==> !control.cancelled
    &&& event matches MediaEventView::Waited { goes_on } ==> goes_on
}

/// Pausing and resuming lead to a restart: once a run was stopped, even where
/// the downloader's bad end is the first that is learnt of it, and as long as the
/// download is not cancelled, it does not end, its folder is not removed, no
/// error is reported and no file is put in place before the downloader is
/// started again.
pub proof fn law_stopped_run_starts_over(s: MediaView, events: Seq<MediaEventView>, i: int)
    requires
        is_course(s, events),
        0 <= i < events.len(),
        is_starting_over(s) || events[0] == (MediaEventView::Exited {
            success: false,
            stopped: true,
        }),
        forall|j: int| 0 <= j < events.len() ==> is_of_uncancelled(#[trigger] events[j]),
        forall|k: int| 0 <= k < i ==> !(#[trigger] actions(s, events)[k] is Start),
    ensures
        ({
            let action = actions(s, events)[i];
            &&& !(action is Finish)
            &&& !(action is Place)
            &&& !(action is Locate)
            &&& made_report(action) matches Some(report) ==> report.status == Status::Paused
                || report.status == Status::Downloading
        }),
    decreases events.len(),
{
    let next = media_next(s, events.first()).0;
    let rest = events.drop_first();
    assert(is_of_uncancelled(events[0]));
    if i > 0 {
        law_finish_is_the_end(s, events, 0);
        assert(!(actions(s, events)[0] is Start));
        assert(is_course(next, rest));
        assert(awaits(next.phase, rest.first()));
        assert(is_starting_over(next));
        assert forall|j: int| 0 <= j < rest.len() implies is_of_uncancelled(#[trigger] rest[j]) by {
            assert(rest[j] == events[j + 1]);
        }
        assert forall|k: int| 0 <= k < i - 1 implies !(#[trigger] actions(
            next,
            rest,
        )[k] is Start) by {
            assert(actions(s, events)[k + 1] == actions(next, rest)[k]);
        }
        law_stopped_run_starts_over(next, rest, i - 1);
        assert(actions(s, events)[i] == actions(next, rest)[i - 1]);
    }
}

/// A run that was stopped is started again, with the same arguments, as soon as
/// nothing is asked of the download any more: whatever its end looked like where
/// the stop was seen, and after a bad end where it was not.
pub proof fn law_resumed_run_is_restarted(s: MediaView, success: bool, stopped: bool)
    requires
        s.phase == Phase::Reaping,
        s.killed || stopped && !success,
    ensures
        ({
            let fresh = MediaEventView::Asked(Control { paused: false, cancelled: false });
            let events = seq![
                MediaEventView::Exited { success, stopped },
                fresh,
                fresh,
            ];
            &&& is_course(s, events)
            &&& actions(s, events) == seq![
                MediaActionView::Check(None),
                MediaActionView::Check(None),
                MediaActionView::Start { arguments: fetch_arguments(s.template, s.url) },
            ]
            &&& after(s, events).info == s.info
        }),
{
    let fresh = MediaEventView::Asked(Control { paused: false, cancelled: false });
    let ended = MediaEventView::Exited { success, stopped };
    let events = seq![ended, fresh, fresh];
    assert(events.drop_first() =~= seq![fresh, fresh]);
    assert(events.drop_first().drop_first() =~= seq![fresh]);
    assert(events.drop_first().drop_first().drop_first() =~= seq![]);
    reveal_with_fuel(is_course, 4);
    reveal_with_fuel(actions, 4);
    reveal_with_fuel(after, 4);
    assert(actions(s, events) =~= seq![
        MediaActionView::Check(None),
        MediaActionView::Check(None),
        MediaActionView::Start { arguments: fetch_arguments(s.template, s.url) },
    ]);
}

/// A stop that nobody saw and that came too late makes no difference: a run that
/// ended well goes on as if there had been none.
pub proof fn law_late_stop_is_ignored(s: MediaView)
    requires
        s.phase == Phase::Reaping,
    ensures
        media_next(s, MediaEventView::Exited { success: true, stopped: true }) == media_next(
            s,
            MediaEventView::Exited { success: true, stopped: false },
        ),
{
}

/// A download that is paused says so and waits, and waits for nothing else.
pub proof fn law_wait_is_a_reported_pause(s: MediaView, event: MediaEventView)
    requires
        awaits(s.phase, event),
    ensures
        media_next(s, event).1 matches MediaActionView::Wait(report) ==> {
            &&& event matches MediaEventView::Asked(control)
            &&& control.paused
            &&& !control.cancelled
            &&& report.status == Status::Paused
        },
{
}

/// A pause changes nothing of where the media goes: what is known of it, and so
/// the name that it gets, stays from the inspection on, however often the
/// downloader is stopped and started again, and it is always started with the
/// same arguments.
pub proof fn law_destination_is_kept(s: MediaView, event: MediaEventView, source: SourceView)
    requires
        awaits(s.phase, event),
        s.phase != Phase::Inspecting,
    ensures
        media_next(s, event).0.info == s.info,
        media_next(s, event).0.id == s.id,
        media_next(s, event).0.template == s.template,
        media_next(s, event).0.url == s.url,
        media_next(s, event).1 matches MediaActionView::Start { arguments } ==> arguments
            == fetch_arguments(s.template, s.url),
        final_name(media_next(s, event).0.info, source) == final_name(s.info, source),
{
}

/// The name that an inspection tells is the one that the media gets, where it
/// has a title and the file has the extension that was told.
pub proof fn law_listed_name_is_final(info: InfoView, source: SourceView)
    requires
        info.title is Some,
        info.ext is Some,
        source.extension == info.ext || source.extension is None,
    ensures
        listed_filename(info) == Some(final_name(info, source)),
{
}

/// What went wrong is never forgotten, not even where the downloader is started
/// again.
pub proof fn law_errors_are_kept(s: MediaView, event: MediaEventView)
    ensures
        s.error_text.is_prefix_of(media_next(s, event).0.error_text),
{
    let t = media_next(s, event).0.error_text;
    assert(t.subrange(0, s.error_text.len() as int) =~= s.error_text);
}

/// The report that an action makes.
pub open spec fn made_report(action: MediaActionView) -> Option<ReportView> {
    match action {
        MediaActionView::Check(report) => report,
        MediaActionView::Wait(report) => Some(report),
        MediaActionView::Finish { report, .. } => Some(report),
        _ => None,
    }
}

/// A report says what went wrong exactly where it reports an error, and where
/// the media is exactly where it reports completion.
pub proof fn law_reports_are_consistent(s: MediaView, event: MediaEventView)
    requires
        awaits(s.phase, event),
    ensures
        made_report(media_next(s, event).1) matches Some(report) ==> {
            &&& report.error is Some <==> report.status == Status::Error
            &&& report.path is Some <==> report.status == Status::Completed
        },
{
}

/// Whether a download stands where it looks to what was asked of it before it
/// can end.
pub open spec fn is_under_control(phase: Phase) -> bool {
    ||| phase == Phase::Checking
    ||| phase == Phase::Waiting
    ||| phase == Phase::Polling
    ||| phase == Phase::Reading
    ||| phase == Phase::Reaping
    ||| phase == Phase::Settling
    ||| phase == Phase::WaitingAgain
}

/// Whether `event` is what happens to a cancelled download.
pub open spec fn is_of_cancelled(event: MediaEventView) -> bool {
    &&& event matches MediaEventView::Asked(control) ==> control.cancelled
    &&& event matches MediaEventView::Waited { goes_on } ==> !goes_on
}

/// A cancelled download ends as cancelled: its end, once the cancellation is
/// there to be seen, is never a failure and never a success.
pub proof fn law_cancelled_ends_as_cancelled(s: MediaView, events: Seq<MediaEventView>, i: int)
    requires
        is_under_control(s.phase),
        is_course(s, events),
        forall|j: int| 0 <= j < events.len() ==> is_of_cancelled(#[trigger] events[j]),
        0 <= i < events.len(),
    ensures
        actions(s, events)[i] matches MediaActionView::Finish { report, clear, .. }
            ==> report.status == Status::Cancelled && clear,
        !(actions(s, events)[i] is Start) && !(actions(s, events)[i] is Place),
    decreases events.len(),
{
    assert(is_of_cancelled(events[0]));
    let next = media_next(s, events.first()).0;
    let rest = events.drop_first();
    if i > 0 {
        assert forall|j: int| 0 <= j < rest.len() implies is_of_cancelled(#[trigger] rest[j]) by {
            assert(rest[j] == events[j + 1]);
        }
        law_finish_is_the_end(s, events, 0);
        assert(is_course(next, rest));
        assert(awaits(next.phase, rest.first()));
        assert(is_under_control(next.phase));
        law_cancelled_ends_as_cancelled(next, rest, i - 1);
        assert(actions(s, events)[i] == actions(next, rest)[i - 1]);
    }
}

/// The report of a completed download tells the size that an inspection of the
/// media tells: the exact one, else the approximate one. That many bytes are
/// there, or none that could be counted, and the media is complete.
pub proof fn law_completed_report_tells_the_size(
    s: MediaView,
    name: Option<Seq<char>>,
    path: Seq<char>,
    url: Seq<char>,
)
    requires
        s.phase == Phase::Placing,
    ensures
        media_next(s, MediaEventView::Placed { name, path }).1 matches MediaActionView::Finish {
            report,
            ..
        } && {
            &&& report.total == resource_of_media(url, s.info).size
            &&& s.info.filesize is Some ==> report.total == s.info.filesize
            &&& s.info.filesize is None ==> report.total == s.info.filesize_approx
            &&& report.total matches Some(size) ==> report.downloaded == size
            &&& report.total is None ==> report.downloaded == 0
            &&& report.percent is Full
            &&& report.speed is Zero
            &&& report.status == Status::Completed
            &&& report.path == Some(path)
            &&& name matches Some(shown) ==> report.filename == shown
            &&& name is None ==> report.filename == "Downloaded media"@
        },
{
}

/// Media that cannot be put in its place is reported as an error under the name
/// that it was to get.
pub proof fn law_unplaced_media_is_an_error(s: MediaView, reason: Seq<char>)
    requires
        s.phase == Phase::Placing,
    ensures
        media_next(s, MediaEventView::NotPlaced(reason)).1 matches MediaActionView::Finish {
            kill,
            clear,
            report,
        } && {
            &&& !kill
            &&& clear
            &&& report.filename == s.filename
            &&& report.status == Status::Error
            &&& report.error == Some("Could not finalize downloaded media: "@ + reason)
            &&& report.path is None
        },
{
}

/// Every failure has its own message, and the report on it shows no figures.
pub proof fn law_failures_are_explained(s: MediaView, event: MediaEventView, reason: Seq<char>)
    requires
        awaits(s.phase, event),
    ensures
        ({
            let action = media_next(s, event).1;
            let told = failure_of(action);
            &&& event == MediaEventView::Inspected(InspectionView::Missing) ==> told == Some(
                "YouTube/media extraction requires yt-dlp. Install yt-dlp, restart Monk3i, and try again."@,
            )
            &&& event == MediaEventView::Inspected(InspectionView::NotStarted(reason)) ==> told
                == Some("Could not start yt-dlp: "@ + reason)
            &&& event == MediaEventView::Inspected(InspectionView::Unreadable(reason)) ==> told
                == Some("Could not read media information: "@ + reason)
            &&& event == MediaEventView::FolderMade(Some(reason)) ==> told == Some(
                "Could not create temporary download folder: "@ + reason,
            )
            &&& event == MediaEventView::Started(Some(reason)) ==> told == Some(
                "Could not start yt-dlp: "@ + reason,
            )
            &&& event == MediaEventView::Located(None) ==> told == Some(
                "yt-dlp completed, but Monk3i could not locate the downloaded media file."@,
            )
        }),
        media_next(s, event).1 matches MediaActionView::Finish { report, .. } ==> (report.status
            != Status::Completed ==> {
            &&& report.downloaded == 0
            &&& report.total is None
            &&& report.percent is Unknown
            &&& report.speed is Zero
            &&& !(event is NotPlaced) ==> report.filename == "Media download"@
        }),
{
}

/// The message of an action that ends a download with an error.
pub open spec fn failure_of(action: MediaActionView) -> Option<Seq<char>> {
    match action {
        MediaActionView::Finish { report, .. } => report.error,
        _ => None,
    }
}

/// A failed inspection is explained by what the downloader wrote, or by a fixed
/// sentence where it wrote nothing. An inspection that was answered is kept, and
/// the folder is made next.
pub proof fn law_inspection_decides(s: MediaView, errors: Seq<u8>, info: InfoView)
    requires
        s.phase == Phase::Inspecting,
    ensures
        ({
            let (t, action) = media_next(
                s,
                MediaEventView::Inspected(InspectionView::Failed(errors)),
            );
            &&& t.phase == Phase::Done
            &&& is_blank(lossy_text(errors)) ==> failure_of(action) == Some(
                "yt-dlp could not inspect this media URL."@,
            )
            &&& !is_blank(lossy_text(errors)) ==> failure_of(action) == Some(
                trimmed(lossy_text(errors)),
            )
        }),
        ({
            let (t, action) = media_next(
                s,
                MediaEventView::Inspected(InspectionView::Answered(info)),
            );
            &&& t.phase == Phase::MakingFolder
            &&& t.info == info
            &&& action is MakeFolder
        }),
        ({
            let t = media_next(
                MediaView { phase: Phase::MakingFolder, ..s },
                MediaEventView::FolderMade(None),
            ).0;
            t.phase == Phase::Checking
        }),
{
    law_trimmed_of_blank(lossy_text(errors));
}

/// What is asked of a download before the downloader runs decides whether it is
/// started: a cancelled one is stopped and removed, a paused one waits, and any
/// other starts.
pub proof fn law_asked_before_a_run(s: MediaView, control: Control)
    requires
        s.phase == Phase::Checking,
    ensures
        ({
            let (t, action) = media_next(s, MediaEventView::Asked(control));
            &&& control.cancelled ==> t.phase == Phase::Done && (
            action matches MediaActionView::Finish { kill, clear, report } && kill && clear
                && report.status == Status::Cancelled)
            &&& !control.cancelled && control.paused ==> t.phase == Phase::Waiting && action is Wait
            &&& !control.cancelled && !control.paused ==> t.phase == Phase::Starting
                && action is Start
        }),
        media_next(MediaView { phase: Phase::Waiting, ..s }, MediaEventView::Waited {
            goes_on: true,
        }).1 is Start,
        media_next(MediaView { phase: Phase::WaitingAgain, ..s }, MediaEventView::Waited {
            goes_on: true,
        }).0.phase == Phase::Checking,
{
}

/// While the downloader runs, its lines are read as long as there may be any,
/// and only then its end is waited for. It is stopped exactly where a pause or a
/// cancellation is seen.
pub proof fn law_asked_during_a_run(s: MediaView, control: Control)
    requires
        s.phase == Phase::Polling,
    ensures
        ({
            let (t, action) = media_next(s, MediaEventView::Asked(control));
            let stop = control.paused || control.cancelled;
            &&& s.output_open || s.errors_open ==> t.phase == Phase::Reading && action == (
            MediaActionView::Read { kill: stop })
            &&& !s.output_open && !s.errors_open ==> t.phase == Phase::Reaping && action == (
            MediaActionView::Reap { kill: stop })
            &&& t.killed <==> s.killed || stop
        }),
{
}

/// After a run, a cancelled download is removed and a paused one waits. Of any
/// other, a run that was stopped is started over, one that failed is explained by
/// what the runs wrote, or by a fixed sentence where they wrote nothing, and one
/// that ended well has its file put in place, or searched for by the identifier
/// of the media, else of the download.
pub proof fn law_asked_after_a_run(s: MediaView, control: Control)
    requires
        s.phase == Phase::Settling,
    ensures
        ({
            let (t, action) = media_next(s, MediaEventView::Asked(control));
            let free = !control.cancelled && !control.paused;
            &&& control.cancelled ==> t.phase == Phase::Done && (
            action matches MediaActionView::Finish { clear, report, .. } && clear && report.status
                == Status::Cancelled)
            &&& !control.cancelled && control.paused ==> t.phase == Phase::WaitingAgain
                && action is Wait
            &&& free && s.killed ==> t.phase == Phase::Checking && action is Check
            &&& free && !s.killed && !s.success ==> {
                &&& t.phase == Phase::Done
                &&& is_blank(s.error_text) ==> failure_of(action) == Some(
                    "Media download failed."@,
                )
                &&& !is_blank(s.error_text) ==> failure_of(action) == Some(trimmed(s.error_text))
            }
            &&& free && !s.killed && s.success ==> (s.printed matches Some(source) ==> (
            action matches MediaActionView::Place { source: path, .. } && path == source.path))
            &&& free && !s.killed && s.success && s.printed is None ==> {
                &&& t.phase == Phase::Locating
                &&& action matches MediaActionView::Locate { media_id }
                &&& s.info.id matches Some(id) ==> media_id == id
                &&& s.info.id is None ==> media_id == s.id
            }
        }),
{
    law_trimmed_of_blank(s.error_text);
}

/// The file of the media gets the title as its name, with the extension that the
/// file has, else the one that was told, else that of MP4, whether its path was
/// printed or it was searched for.
pub proof fn law_file_gets_the_title(s: MediaView, source: SourceView, event: MediaEventView)
    requires
        s.phase == Phase::Locating && event == MediaEventView::Located(Some(source)) || s.phase
            == Phase::Settling && s.success && !s.killed && s.printed == Some(source) && event
            == MediaEventView::Asked(Control { paused: false, cancelled: false }),
    ensures
        media_next(s, event).0.phase == Phase::Placing,
        media_next(s, event).1 matches MediaActionView::Place { source: path, filename } && {
            let title = match s.info.title {
                Some(title) => title,
                None => "Downloaded media"@,
            };
            &&& path == source.path
            &&& filename == media_next(s, event).0.filename
            &&& source.extension matches Some(extension) ==> filename == media_name(
                title,
                extension,
            )
            &&& source.extension is None ==> (s.info.ext matches Some(ext) ==> filename
                == media_name(title, ext))
            &&& source.extension is None && s.info.ext is None ==> filename == media_name(
                title,
                "mp4"@,
            )
        },
{
}

/// A line of progress on either stream is reported as what it says, and no other
/// line is.
pub proof fn law_progress_is_reported(s: MediaView, line: Seq<char>, printed: Option<SourceView>)
    requires
        s.phase == Phase::Reading,
    ensures
        ({
            let output = media_next(s, MediaEventView::Output { line, printed });
            let errors = media_next(s, MediaEventView::Errors(line));
            &&& output.0.phase == Phase::Polling
            &&& errors.0.phase == Phase::Polling
            &&& output.1 == errors.1
            &&& progress(line) is None ==> output.1 == MediaActionView::Check(None)
            &&& progress(line) matches Some(said) ==> {
                &&& output.1 matches MediaActionView::Check(Some(report))
                &&& report.filename == "Downloading media..."@
                &&& report.downloaded == said.downloaded
                &&& report.total == said.total
                &&& report.percent == PercentView::Written(said.percent)
                &&& report.speed == SpeedView::Written(said.speed)
                &&& report.status == Status::Downloading
                &&& report.path is None
                &&& report.error is None
            }
        }),
{
}

/// A line of the error stream is kept, with a line break behind it, where it is
/// not blank, holds no `[download]` and says nothing of progress, and no other
/// line is. Lines of the output are never kept.
pub proof fn law_error_lines_are_kept(s: MediaView, line: Seq<char>, printed: Option<SourceView>)
    requires
        s.phase == Phase::Reading,
    ensures
        ({
            let text = media_next(s, MediaEventView::Errors(line)).0.error_text;
            &&& !is_blank(line) && !holds_text(line, "[download]"@) && !holds_text(
                line,
                "download:"@,
            ) ==> text == s.error_text + line + "\n"@
            &&& !is_blank(line) && !holds_text(line, "[download]"@) && progress(line) is None
                ==> text == s.error_text + line + "\n"@
            &&& is_blank(line) || holds_text(line, "[download]"@) || progress(line) is Some
                ==> text == s.error_text
        }),
        media_next(s, MediaEventView::Output { line, printed }).0.error_text == s.error_text,
{
    law_trimmed_of_blank(line);
    law_search_finds(line, "[download]"@);
    law_other_lines_say_nothing(line, seq![], seq![]);
}

/// The path that was printed last counts, and a line without one leaves it. A
/// run starts without one, with both streams open and not stopped.
pub proof fn law_printed_file_of_the_run(
    s: MediaView,
    line: Seq<char>,
    printed: Option<SourceView>,
)
    requires
        s.phase == Phase::Reading,
    ensures
        ({
            let t = media_next(s, MediaEventView::Output { line, printed }).0;
            &&& printed is Some ==> t.printed == printed
            &&& printed is None ==> t.printed == s.printed
        }),
        ({
            let t = media_next(
                MediaView { phase: Phase::Starting, ..s },
                MediaEventView::Started(None),
            ).0;
            &&& t.phase == Phase::Polling
            &&& t.printed is None
            &&& t.output_open && t.errors_open
            &&& !t.killed
        }),
        ({
            let t = media_next(s, MediaEventView::OutputEnded).0;
            t.phase == Phase::Polling && !t.output_open && t.errors_open == s.errors_open
        }),
        ({
            let t = media_next(s, MediaEventView::ErrorsEnded).0;
            t.phase == Phase::Polling && !t.errors_open && t.output_open == s.output_open
        }),
{
}

/// What an event leaves as it was: what is known of the media but by the
/// inspection, what was written but by the error stream, the printed file but by
/// the output and the start of a run, how the run ended but by its end, and
/// whether there may be more of a stream but by its end and the start of a run.
pub proof fn law_events_change_only_their_own(s: MediaView, event: MediaEventView)
    requires
        awaits(s.phase, event),
    ensures
        ({
            let t = media_next(s, event).0;
            &&& t.id == s.id && t.template == s.template && t.url == s.url
            &&& !(event is Inspected) ==> t.info == s.info
            &&& !(event is Errors) ==> t.error_text == s.error_text
            &&& !(event is Output) && !(event is Started) ==> t.printed == s.printed
            &&& event matches MediaEventView::Exited { success, .. } ==> t.success == success
            &&& !(event is Exited) ==> t.success == s.success
            &&& !(event is OutputEnded) && !(event is Started) ==> t.output_open == s.output_open
            &&& !(event is ErrorsEnded) && !(event is Started) ==> t.errors_open == s.errors_open
            &&& !(event is Started) && s.killed ==> t.killed
            &&& !(event is Started) && !(event is Exited) && !(event is Asked) ==> t.killed
                == s.killed
            &&& event matches MediaEventView::Exited { success, stopped } ==> (t.killed
                <==> s.killed || stopped && !success)
            &&& event is Exited ==> t.phase == Phase::Settling
        }),
{
}

/// What a download waits for: each event in its own phases, and none at the end.
/// It begins with the inspection, knowing nothing.
pub proof fn law_media_waits(
    s: MediaView,
    event: MediaEventView,
    id: Seq<char>,
    template: Seq<char>,
    url: Seq<char>,
)
    requires
        awaits(s.phase, event),
    ensures
        s.phase != Phase::Done,
        s.phase == Phase::Inspecting <==> event is Inspected,
        s.phase == Phase::MakingFolder <==> event is FolderMade,
        s.phase == Phase::Checking || s.phase == Phase::Polling || s.phase == Phase::Settling
            <==> event is Asked,
        s.phase == Phase::Waiting || s.phase == Phase::WaitingAgain <==> event is Waited,
        s.phase == Phase::Starting <==> event is Started,
        s.phase == Phase::Reading <==> event is Output || event is OutputEnded || event is Errors
            || event is ErrorsEnded,
        s.phase == Phase::Reaping <==> event is Exited,
        s.phase == Phase::Locating <==> event is Located,
        s.phase == Phase::Placing <==> event is Placed || event is NotPlaced,
        ({
            let first = media_start(id, template, url);
            &&& first.phase == Phase::Inspecting
            &&& first.id == id && first.template == template && first.url == url
            &&& first.error_text.len() == 0
            &&& first.printed is None
            &&& !first.killed && !first.success
        }),
{
    reveal_strlit("");
}

/// Nothing more is asked of an event than that its phase has come.
pub proof fn law_media_takes_what_comes(
    phase: Phase,
    inspection: InspectionView,
    text: Seq<char>,
    error: Option<Seq<char>>,
    control: Control,
    source: Option<SourceView>,
    name: Option<Seq<char>>,
    flag: bool,
    stopped: bool,
)
    ensures
        phase == Phase::Inspecting ==> awaits(phase, MediaEventView::Inspected(inspection)),
        phase == Phase::MakingFolder ==> awaits(phase, MediaEventView::FolderMade(error)),
        phase == Phase::Checking || phase == Phase::Polling || phase == Phase::Settling ==> awaits(
            phase,
            MediaEventView::Asked(control),
        ),
        phase == Phase::Waiting || phase == Phase::WaitingAgain ==> awaits(
            phase,
            MediaEventView::Waited { goes_on: flag },
        ),
        phase == Phase::Starting ==> awaits(phase, MediaEventView::Started(error)),
        phase == Phase::Reading ==> awaits(
            phase,
            MediaEventView::Output { line: text, printed: source },
        ) && awaits(phase, MediaEventView::OutputEnded) && awaits(
            phase,
            MediaEventView::Errors(text),
        ) && awaits(phase, MediaEventView::ErrorsEnded),
        phase == Phase::Reaping ==> awaits(
            phase,
            MediaEventView::Exited { success: flag, stopped },
        ),
        phase == Phase::Locating ==> awaits(phase, MediaEventView::Located(source)),
        phase == Phase::Placing ==> awaits(phase, MediaEventView::Placed { name, path: text })
            && awaits(phase, MediaEventView::NotPlaced(text)),
{
}

/// A report that a download waits shows no figures, only lines of the downloader
/// are reported while it runs, and the downloader is stopped at the end only of
/// a download that has not started it.
pub proof fn law_what_is_reported_and_stopped(s: MediaView, event: MediaEventView)
    requires
        awaits(s.phase, event),
    ensures
        media_next(s, event).1 matches MediaActionView::Wait(report) ==> {
            &&& report.filename == "Media download"@
            &&& report.downloaded == 0
            &&& report.total is None
            &&& report.percent is Unknown
            &&& report.speed is Zero
            &&& report.path is None
            &&& report.error is None
        },
        media_next(s, event).1 matches MediaActionView::Check(report) ==> (report is Some
            ==> event is Output || event is Errors),
        media_next(s, event).1 matches MediaActionView::Finish { kill, .. } ==> (kill <==> s.phase
            == Phase::Checking),
        event == (MediaEventView::Waited { goes_on: false }) ==> (media_next(
            s,
            event,
        ).1 matches MediaActionView::Finish { clear, report, .. } && clear && report.status
            == Status::Cancelled),
{
}

} // verus!
