//! The downloads that are under way, and the requests to pause, resume and
//! cancel them.

use vstd::hash_map::StringHashMap;
use vstd::prelude::*;
use vstd::string::*;

use crate::number::{
    decimal, law_decimal_injective, law_number_of_decimal, number, write_number,
};

verus! {

/// What was asked of a download.
#[derive(Clone, Copy, Debug, PartialEq, Eq, Structural)]
pub struct Control {
    /// It is to wait.
    pub paused: bool,
    /// It is to stop for good.
    pub cancelled: bool,
}

/// A download under way.
#[derive(Clone, Copy)]
struct Entry {
    control: Control,
    stopped: bool,
}

/// The downloads under way, each under its identifier.
pub struct Controls {
    next: u64,
    entries: StringHashMap<Entry>,
}

/// What a request does: the controls that it leaves, and why it was refused,
/// if it was.
#[verifier::ext_equal]
pub struct Effect {
    pub controls: Map<Seq<char>, Control>,
    pub refusal: Option<Seq<char>>,
}

/// The message of a refused request.
pub open spec fn refusal(r: Result<(), String>) -> Option<Seq<char>> {
    match r {
        Ok(()) => None,
        Err(message) => Some(message@),
    }
}

/// The identifier with the given number.
pub open spec fn id_text(n: u64) -> Seq<char> {
    "download-"@ + decimal(n as nat)
}

/// A request that is refused changes nothing.
pub open spec fn refused(controls: Map<Seq<char>, Control>, message: Seq<char>) -> Effect {
    Effect { controls, refusal: Some(message) }
}

/// A request that sets the control of `id`.
pub open spec fn granted(
    controls: Map<Seq<char>, Control>,
    id: Seq<char>,
    control: Control,
) -> Effect {
    Effect { controls: controls.insert(id, control), refusal: None }
}

/// What a request to pause `id` does.
pub open spec fn pause_effect(controls: Map<Seq<char>, Control>, id: Seq<char>) -> Effect {
    if !controls.contains_key(id) {
        refused(controls, "Download not found."@)
    } else if controls[id].cancelled {
        refused(controls, "Download is being cancelled."@)
    } else {
        granted(controls, id, Control { paused: true, cancelled: false })
    }
}

/// What a request to resume `id` does.
pub open spec fn resume_effect(controls: Map<Seq<char>, Control>, id: Seq<char>) -> Effect {
    if !controls.contains_key(id) {
        refused(controls, "Download not found."@)
    } else if controls[id].cancelled {
        refused(controls, "Download has been cancelled."@)
    } else {
        granted(controls, id, Control { paused: false, cancelled: false })
    }
}

/// What a request to cancel `id` does.
pub open spec fn cancel_effect(controls: Map<Seq<char>, Control>, id: Seq<char>) -> Effect {
    if !controls.contains_key(id) {
        refused(controls, "Download not found."@)
    } else {
        granted(controls, id, Control { paused: false, cancelled: true })
    }
}

/// The downloads that were stopped, given those that were before a request to
/// pause `id`: a request that is granted adds `id`.
pub open spec fn stopped_by_pause(
    controls: Map<Seq<char>, Control>,
    stopped: Set<Seq<char>>,
    id: Seq<char>,
) -> Set<Seq<char>> {
    if pause_effect(controls, id).refusal is None {
        stopped.insert(id)
    } else {
        stopped
    }
}

impl Controls {
    /// The number of the next identifier.
    pub closed spec fn next_number(self) -> u64 {
        self.next
    }

    /// The downloads that were asked to wait since they were put under way, or
    /// since [`Controls::take_stopped`] was last asked of them. To ask a
    /// download to go on does not undo this: its downloader was stopped.
    pub closed spec fn stopped(self) -> Set<Seq<char>> {
        Set::new(|id: Seq<char>| self.entries@.contains_key(id) && self.entries@[id].stopped)
    }
}

impl View for Controls {
    type V = Map<Seq<char>, Control>;

    closed spec fn view(&self) -> Map<Seq<char>, Control> {
        Map::new(
            |id: Seq<char>| self.entries@.contains_key(id),
            |id: Seq<char>| self.entries@[id].control,
        )
    }
}

impl Controls {
    /// No downloads, and the first identifier to come is number one.
    pub fn new() -> (r: Controls)
        ensures
            r@ == Map::<Seq<char>, Control>::empty(),
            r.stopped() == Set::<Seq<char>>::empty(),
            r.next_number() == 1,
    {
        let r = Controls { next: 1, entries: StringHashMap::new() };
        assert(r@ =~= Map::<Seq<char>, Control>::empty());
        assert(r.stopped() =~= Set::<Seq<char>>::empty());
        r
    }

    /// A new identifier. The numbers start over after the last `u64`.
    pub fn new_id(&mut self) -> (r: String)
        ensures
            final(self)@ == old(self)@,
            final(self).stopped() == old(self).stopped(),
            r@ == id_text(old(self).next_number()),
            final(self).next_number() == old(self).next_number().wrapping_add(1),
    {
        let n = self.next;
        self.next = n.wrapping_add(1);
        let mut r = "download-".to_owned();
        r.append(write_number(n).as_str());
        r
    }

    /// The control of `id`, while it is under way.
    pub fn get_control(&self, id: &str) -> (r: Option<Control>)
        ensures
            r == if self@.contains_key(id@) {
                Some(self@[id@])
            } else {
                None
            },
    {
        match self.entries.get(id) {
            Some(entry) => Some(entry.control),
            None => None,
        }
    }

    /// Sets what is held of `id`.
    fn set(&mut self, id: String, control: Control, stopped: bool)
        ensures
            final(self)@ == old(self)@.insert(id@, control),
            final(self).stopped() == if stopped {
                old(self).stopped().insert(id@)
            } else {
                old(self).stopped().remove(id@)
            },
            final(self).next_number() == old(self).next_number(),
    {
        let ghost key = id@;
        self.entries.insert(id, Entry { control, stopped });
        assert(self@ =~= old(self)@.insert(key, control));
        assert(self.stopped() =~= if stopped {
            old(self).stopped().insert(key)
        } else {
            old(self).stopped().remove(key)
        });
    }

    /// Puts `id` under way with the given control.
    pub fn insert(&mut self, id: String, control: Control)
        ensures
            final(self)@ == old(self)@.insert(id@, control),
            final(self).stopped() == old(self).stopped().remove(id@),
            final(self).next_number() == old(self).next_number(),
    {
        self.set(id, control, false);
    }

    /// Takes `id` off the downloads under way.
    pub fn remove_control(&mut self, id: &str)
        ensures
            final(self)@ == old(self)@.remove(id@),
            final(self).stopped() == old(self).stopped().remove(id@),
            final(self).next_number() == old(self).next_number(),
    {
        self.entries.remove(id);
        assert(self@ =~= old(self)@.remove(id@));
        assert(self.stopped() =~= old(self).stopped().remove(id@));
    }

    /// Whether the download `id` was asked to wait since this was last asked
    /// of it. Whoever runs a downloader asks before it is started and again
    /// when it has ended, and so learns whether that run was stopped.
    pub fn take_stopped(&mut self, id: &str) -> (r: bool)
        ensures
            r == old(self).stopped().contains(id@),
            final(self)@ == old(self)@,
            final(self).stopped() == old(self).stopped().remove(id@),
            final(self).next_number() == old(self).next_number(),
    {
        let entry = match self.entries.get(id) {
            Some(entry) => *entry,
            None => {
                assert(self.stopped() =~= self.stopped().remove(id@));
                return false;
            },
        };
        self.set(id.to_owned(), entry.control, false);
        assert(self@ =~= old(self)@);
        entry.stopped
    }

    /// Asks the download `id` to wait. Refused of one that is not under way or
    /// is cancelled.
    pub fn pause_download(&mut self, id: &str) -> (r: Result<(), String>)
        ensures
            final(self)@ == pause_effect(old(self)@, id@).controls,
            refusal(r) == pause_effect(old(self)@, id@).refusal,
            final(self).stopped() == stopped_by_pause(old(self)@, old(self).stopped(), id@),
            final(self).next_number() == old(self).next_number(),
    {
        let entry = match self.entries.get(id) {
            Some(entry) => *entry,
            None => {
                return Err("Download not found.".to_owned());
            },
        };
        if entry.control.cancelled {
            return Err("Download is being cancelled.".to_owned());
        }
        self.set(id.to_owned(), Control { paused: true, cancelled: false }, true);
        Ok(())
    }

    /// Asks the download `id` to go on. Refused of one that is not under way or
    /// is cancelled.
    pub fn resume_download(&mut self, id: &str) -> (r: Result<(), String>)
        ensures
            final(self)@ == resume_effect(old(self)@, id@).controls,
            refusal(r) == resume_effect(old(self)@, id@).refusal,
            final(self).stopped() == old(self).stopped(),
            final(self).next_number() == old(self).next_number(),
    {
        let entry = match self.entries.get(id) {
            Some(entry) => *entry,
            None => {
                return Err("Download not found.".to_owned());
            },
        };
        if entry.control.cancelled {
            return Err("Download has been cancelled.".to_owned());
        }
        self.set(id.to_owned(), Control { paused: false, cancelled: false }, entry.stopped);
        assert(self.stopped() =~= old(self).stopped());
        Ok(())
    }

    /// Asks the download `id` to stop for good. Refused only of one that is not
    /// under way.
    pub fn cancel_download(&mut self, id: &str) -> (r: Result<(), String>)
        ensures
            final(self)@ == cancel_effect(old(self)@, id@).controls,
            refusal(r) == cancel_effect(old(self)@, id@).refusal,
            final(self).stopped() == old(self).stopped(),
            final(self).next_number() == old(self).next_number(),
    {
        let entry = match self.entries.get(id) {
            Some(entry) => *entry,
            None => {
                return Err("Download not found.".to_owned());
            },
        };
        self.set(id.to_owned(), Control { paused: false, cancelled: true }, entry.stopped);
        assert(self.stopped() =~= old(self).stopped());
        Ok(())
    }
}

/// What a download that may have to wait does next.
#[derive(Clone, Copy, Debug, PartialEq, Eq, Structural)]
pub enum WaitStep {
    /// Wait a while, then look again.
    Sleep,
    /// Go on.
    Proceed,
    /// Stop: it was cancelled.
    Stop,
}

/// How long a paused download waits before it looks again.
pub const PAUSE_POLL_MILLIS: u64 = 200;

/// What a download does, given its control: wait while it is paused, unless it
/// is cancelled.
pub fn wait_if_paused(control: Control) -> (r: WaitStep)
    ensures
        r == if control.cancelled {
            WaitStep::Stop
        } else if control.paused {
            WaitStep::Sleep
        } else {
            WaitStep::Proceed
        },
{
    if control.paused && !control.cancelled {
        WaitStep::Sleep
    } else if control.cancelled {
        WaitStep::Stop
    } else {
        WaitStep::Proceed
    }
}

/// Whether no download is both paused and cancelled.
pub open spec fn is_settled(controls: Map<Seq<char>, Control>) -> bool {
    forall|id: Seq<char>| #[trigger]
        controls.contains_key(id) ==> !(controls[id].paused && controls[id].cancelled)
}

/// No request leaves a download both paused and cancelled where none was, and
/// neither does putting a fresh one under way or taking one off.
pub proof fn law_never_paused_and_cancelled(controls: Map<Seq<char>, Control>, id: Seq<char>)
    requires
        is_settled(controls),
    ensures
        is_settled(pause_effect(controls, id).controls),
        is_settled(resume_effect(controls, id).controls),
        is_settled(cancel_effect(controls, id).controls),
        is_settled(controls.insert(id, Control { paused: false, cancelled: false })),
        is_settled(controls.remove(id)),
{
}

/// A cancelled download stays cancelled whatever is asked of it or of others.
pub proof fn law_cancellation_is_final(
    controls: Map<Seq<char>, Control>,
    id: Seq<char>,
    other: Seq<char>,
)
    requires
        controls.contains_key(id),
        controls[id].cancelled,
    ensures
        pause_effect(controls, other).controls.contains_key(id),
        pause_effect(controls, other).controls[id].cancelled,
        resume_effect(controls, other).controls.contains_key(id),
        resume_effect(controls, other).controls[id].cancelled,
        cancel_effect(controls, other).controls.contains_key(id),
        cancel_effect(controls, other).controls[id].cancelled,
        pause_effect(controls, id) == refused(controls, "Download is being cancelled."@),
        resume_effect(controls, id) == refused(controls, "Download has been cancelled."@),
{
}

/// What is asked of one download changes no other.
pub proof fn law_others_are_untouched(
    controls: Map<Seq<char>, Control>,
    id: Seq<char>,
    other: Seq<char>,
)
    requires
        id != other,
    ensures
        pause_effect(controls, id).controls.contains_key(other) == controls.contains_key(other),
        pause_effect(controls, id).controls[other] == controls[other],
        resume_effect(controls, id).controls.contains_key(other) == controls.contains_key(other),
        resume_effect(controls, id).controls[other] == controls[other],
        cancel_effect(controls, id).controls.contains_key(other) == controls.contains_key(other),
        cancel_effect(controls, id).controls[other] == controls[other],
        controls.remove(id).contains_key(other) == controls.contains_key(other),
        controls.contains_key(other) ==> controls.remove(id)[other] == controls[other],
{
}

/// Resuming undoes pausing.
pub proof fn law_resume_undoes_pause(controls: Map<Seq<char>, Control>, id: Seq<char>)
    requires
        controls.contains_key(id),
        controls[id] == (Control { paused: false, cancelled: false }),
    ensures
        pause_effect(controls, id).refusal is None,
        resume_effect(pause_effect(controls, id).controls, id).refusal is None,
        resume_effect(pause_effect(controls, id).controls, id).controls == controls,
{
    assert(resume_effect(pause_effect(controls, id).controls, id).controls =~= controls);
}

/// Resuming undoes what was asked, but a pause that was granted is remembered,
/// whatever is asked later: the download is still among the stopped ones, though
/// nothing is asked of it any more.
pub proof fn law_granted_pause_is_remembered(
    controls: Map<Seq<char>, Control>,
    stopped: Set<Seq<char>>,
    id: Seq<char>,
    later: Map<Seq<char>, Control>,
    other: Seq<char>,
)
    requires
        pause_effect(controls, id).refusal is None,
    ensures
        stopped_by_pause(controls, stopped, id).contains(id),
        stopped_by_pause(later, stopped_by_pause(controls, stopped, id), other).contains(id),
        resume_effect(pause_effect(controls, id).controls, id).refusal is None,
        resume_effect(pause_effect(controls, id).controls, id).controls[id] == (Control {
            paused: false,
            cancelled: false,
        }),
{
}

/// A download that was taken off is no longer found.
pub proof fn law_removed_is_not_found(controls: Map<Seq<char>, Control>, id: Seq<char>)
    ensures
        pause_effect(controls.remove(id), id) == refused(
            controls.remove(id),
            "Download not found."@,
        ),
        resume_effect(controls.remove(id), id) == refused(
            controls.remove(id),
            "Download not found."@,
        ),
        cancel_effect(controls.remove(id), id) == refused(
            controls.remove(id),
            "Download not found."@,
        ),
{
}

/// Whether every download under way has an identifier with a number below `n`.
pub open spec fn is_numbered_below(controls: Map<Seq<char>, Control>, n: u64) -> bool {
    forall|id: Seq<char>| #[trigger]
        controls.contains_key(id) ==> exists|m: u64| 1 <= m < n && id == #[trigger] id_text(m)
}

/// A new identifier is not under way already: where all numbers under way are
/// below the next, its identifier is not among them. To put it under way and to
/// take it off again leaves the downloads as they were.
pub proof fn law_new_id_is_unused(controls: Map<Seq<char>, Control>, n: u64, control: Control)
    requires
        is_numbered_below(controls, n),
    ensures
        !controls.contains_key(id_text(n)),
        controls.insert(id_text(n), control).remove(id_text(n)) == controls,
{
    if controls.contains_key(id_text(n)) {
        let m = choose|m: u64| 1 <= m < n && id_text(n) == #[trigger] id_text(m);
        law_ids_differ(m, n);
    }
    assert(controls.insert(id_text(n), control).remove(id_text(n)) =~= controls);
}

/// The numbers under way stay below the next one: there are none at first, each
/// new one is the next, and no request adds any.
pub proof fn law_numbers_stay_below(
    controls: Map<Seq<char>, Control>,
    n: u64,
    control: Control,
    id: Seq<char>,
)
    requires
        is_numbered_below(controls, n),
        1 <= n < u64::MAX,
    ensures
        is_numbered_below(Map::<Seq<char>, Control>::empty(), 1),
        is_numbered_below(controls.insert(id_text(n), control), n.wrapping_add(1)),
        is_numbered_below(pause_effect(controls, id).controls, n),
        is_numbered_below(resume_effect(controls, id).controls, n),
        is_numbered_below(cancel_effect(controls, id).controls, n),
        is_numbered_below(controls.remove(id), n),
{
    let more = controls.insert(id_text(n), control);
    let next = n.wrapping_add(1);
    assert forall|key: Seq<char>| #[trigger] more.contains_key(key) implies exists|m: u64|
        1 <= m < next && key == #[trigger] id_text(m) by {
        if key != id_text(n) {
            assert(controls.contains_key(key));
            let m = choose|m: u64| 1 <= m < n && key == #[trigger] id_text(m);
            assert(1 <= m < next && key == id_text(m));
        }
    }
}

/// Identifiers with different numbers differ.
pub proof fn law_ids_differ(a: u64, b: u64)
    requires
        a != b,
    ensures
        id_text(a) != id_text(b),
{
    if id_text(a) == id_text(b) {
        let n = "download-"@.len() as int;
        assert(id_text(a).skip(n) =~= decimal(a as nat));
        assert(id_text(b).skip(n) =~= decimal(b as nat));
        law_decimal_injective(a as nat, b as nat);
    }
}

/// A download under way that is not cancelled is paused and resumed when asked
/// to, one that is under way is cancelled when asked to, and nothing else is
/// changed by that.
pub proof fn law_requests_are_granted(controls: Map<Seq<char>, Control>, id: Seq<char>)
    requires
        controls.contains_key(id),
    ensures
        !controls[id].cancelled ==> pause_effect(controls, id).refusal is None && pause_effect(
            controls,
            id,
        ).controls == controls.insert(id, Control { paused: true, cancelled: false }),
        !controls[id].cancelled ==> resume_effect(controls, id).refusal is None && resume_effect(
            controls,
            id,
        ).controls == controls.insert(id, Control { paused: false, cancelled: false }),
        cancel_effect(controls, id).refusal is None,
        cancel_effect(controls, id).controls == controls.insert(
            id,
            Control { paused: false, cancelled: true },
        ),
{
}

/// A download waits exactly while it is paused and not cancelled, stops exactly
/// where it is cancelled, and goes on otherwise.
pub proof fn law_waiting(control: Control, r: WaitStep)
    requires
        call_ensures(wait_if_paused, (control,), r),
    ensures
        r == WaitStep::Sleep <==> control.paused && !control.cancelled,
        r == WaitStep::Stop <==> control.cancelled,
        r == WaitStep::Proceed <==> !control.paused && !control.cancelled,
{
}

/// An identifier is the word for a download with its number.
pub proof fn law_id_is_numbered(n: u64)
    ensures
        "download-"@.is_prefix_of(id_text(n)),
        number(id_text(n).skip(9)) == Some(n),
{
    reveal_strlit("download-");
    law_number_of_decimal(n);
    assert(id_text(n).subrange(0, 9) =~= "download-"@);
    assert(id_text(n).skip(9) =~= decimal(n as nat));
}

/// Only a pause that is granted stops a download, and only that one.
pub proof fn law_pause_stops_one(
    controls: Map<Seq<char>, Control>,
    stopped: Set<Seq<char>>,
    id: Seq<char>,
    other: Seq<char>,
)
    ensures
        other != id ==> stopped_by_pause(controls, stopped, id).contains(other)
            == stopped.contains(other),
        !controls.contains_key(id) || controls[id].cancelled ==> stopped_by_pause(
            controls,
            stopped,
            id,
        ) == stopped,
        controls.contains_key(id) && !controls[id].cancelled ==> stopped_by_pause(
            controls,
            stopped,
            id,
        ).contains(id),
{
}

} // verus!
