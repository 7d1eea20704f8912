//! The counting protocol that both backends follow, apart from any storage.
//!
//! A guard owns a count of the handles derived from it. A handle adds one when
//! it is lifted or duplicated and takes one away when it is dropped. When the
//! guard goes away it looks at the count once and either proceeds or reports a
//! safety violation. This module states those rules over plain integers and
//! proves what they promise for every history of handle events.
//!
//! The laws here are proved of a model of the count. The backends keep their
//! counts inside the standard library's reference-counted cell and atomic
//! integer, whose contents no contract can speak of, so nothing proved here is
//! tied to those by proof: the tie is that the backends hand the number they
//! read to the decision functions of this module, which are exact.
use vstd::arithmetic::div_mod::{
    lemma_add_mod_noop, lemma_mod_add_multiples_vanish, lemma_mod_self_0, lemma_small_mod,
    lemma_sub_mod_noop, lemma_sub_mod_noop_right,
};
use vstd::prelude::*;

verus! {

/// Whether a guard keeps count of its handles.
#[derive(Clone, Copy, Debug, PartialEq, Eq, Structural)]
pub enum Mode {
    /// The count is kept, and a guard that goes away early is reported.
    Checked,
    /// No count is consulted: a guard that goes away early goes unnoticed.
    Unchecked,
}

/// What a guard finds when it looks at its count.
#[derive(Clone, Copy, Debug, PartialEq, Eq, Structural)]
pub enum Verdict {
    /// No handle is outstanding.
    Clean,
    /// At least one handle would outlive the guard.
    Violation,
}

/// What the destructor of a guard has to do about a verdict.
#[derive(Clone, Copy, Debug, PartialEq, Eq, Structural)]
pub enum Reaction {
    /// Finish the destruction normally.
    Proceed,
    /// Report and end the whole process; nothing can catch this.
    Terminate,
    /// Report as a failure of the current thread that a harness can catch.
    Unwind,
}

/// One step in the life of the handles of a single guard.
#[derive(Clone, Copy, Debug, PartialEq, Eq, Structural)]
pub enum HandleEvent {
    /// A handle was derived from the guard.
    Lifted,
    /// An existing handle was duplicated.
    Duplicated,
    /// A handle was destroyed.
    Dropped,
}

/// The mode that a build selects: the count is left out only by an optimized
/// build that did not ask for checking.
pub open spec fn selected_mode(debug_build: bool, checked_flag: bool) -> Mode {
    if debug_build || checked_flag {
        Mode::Checked
    } else {
        Mode::Unchecked
    }
}

/// The verdict of a guard of the shared backend that reads `strong_count`
/// holders of its cell, its own hold included.
pub open spec fn shared_verdict(mode: Mode, strong_count: int) -> Verdict {
    if mode == Mode::Checked && strong_count != 1 {
        Verdict::Violation
    } else {
        Verdict::Clean
    }
}

/// How many handles stand behind a count of holders that includes the guard.
pub open spec fn shared_handles(strong_count: int) -> int {
    if strong_count >= 1 {
        strong_count - 1
    } else {
        0
    }
}

/// The verdict of a guard of the pinned backend that reads `counter`.
pub open spec fn pinned_verdict(mode: Mode, counter: int) -> Verdict {
    if mode == Mode::Checked && counter != 0 {
        Verdict::Violation
    } else {
        Verdict::Clean
    }
}

/// The reaction that a verdict calls for.
pub open spec fn reaction_to(verdict: Verdict, harness: bool) -> Reaction {
    match verdict {
        Verdict::Clean => Reaction::Proceed,
        Verdict::Violation => if harness {
            Reaction::Unwind
        } else {
            Reaction::Terminate
        },
    }
}

impl Mode {
    /// Selects the mode of a build from its two switches.
    pub fn select(debug_build: bool, checked_flag: bool) -> (mode: Mode)
        ensures
            mode == selected_mode(debug_build, checked_flag),
    {
        if debug_build || checked_flag {
            Mode::Checked
        } else {
            Mode::Unchecked
        }
    }

    /// Whether the count is kept in this mode.
    pub fn is_checked(self) -> (checked: bool)
        ensures
            checked <==> self == Mode::Checked,
    {
        match self {
            Mode::Checked => true,
            Mode::Unchecked => false,
        }
    }
}

/// Tells how many handles stand behind the number of holders that a guard of
/// the shared backend read from its cell.
pub fn handles_among(strong_count: usize) -> (count: usize)
    ensures
        count == shared_handles(strong_count as int),
{
    if strong_count >= 1 {
        strong_count - 1
    } else {
        0
    }
}

impl Verdict {
    /// Judges a guard of the shared backend by the number of holders it read.
    pub fn of_shared_count(mode: Mode, strong_count: usize) -> (verdict: Verdict)
        ensures
            verdict == shared_verdict(mode, strong_count as int),
    {
        if mode.is_checked() && strong_count != 1 {
            Verdict::Violation
        } else {
            Verdict::Clean
        }
    }

    /// Judges a guard of the pinned backend by the counter value it read.
    pub fn of_pinned_counter(mode: Mode, counter: usize) -> (verdict: Verdict)
        ensures
            verdict == pinned_verdict(mode, counter as int),
    {
        if mode.is_checked() && counter != 0 {
            Verdict::Violation
        } else {
            Verdict::Clean
        }
    }

    /// Says what the destructor does next. In a harness a violation is raised
    /// so that a test can observe it; everywhere else it ends the process.
    pub fn reaction(self, harness: bool) -> (reaction: Reaction)
        ensures
            reaction == reaction_to(self, harness),
    {
        match self {
            Verdict::Clean => Reaction::Proceed,
            Verdict::Violation => if harness {
                Reaction::Unwind
            } else {
                Reaction::Terminate
            },
        }
    }
}

impl HandleEvent {
    /// Whether the event brings a new handle into being.
    pub open spec fn creates(self) -> bool {
        self != HandleEvent::Dropped
    }
}

/// How many handles `history` brought into being.
pub open spec fn created(history: Seq<HandleEvent>) -> nat
    decreases history.len(),
{
    if history.len() == 0 {
        0
    } else {
        created(history.drop_last()) + if history.last().creates() {
            1nat
        } else {
            0nat
        }
    }
}

/// How many handles `history` destroyed.
pub open spec fn destroyed(history: Seq<HandleEvent>) -> nat
    decreases history.len(),
{
    if history.len() == 0 {
        0
    } else {
        destroyed(history.drop_last()) + if history.last().creates() {
            0nat
        } else {
            1nat
        }
    }
}

/// The live count: how many handles are outstanding after `history`.
pub open spec fn live(history: Seq<HandleEvent>) -> int {
    created(history) - destroyed(history)
}

/// `count` handle drops in a row.
pub open spec fn drops(count: nat) -> Seq<HandleEvent> {
    Seq::new(count, |i: int| HandleEvent::Dropped)
}

/// The counter one increment later. The machine counter wraps around.
pub open spec fn counter_up(counter: usize) -> usize {
    if counter == usize::MAX {
        0
    } else {
        (counter + 1) as usize
    }
}

/// The counter one decrement later. The machine counter wraps around.
pub open spec fn counter_down(counter: usize) -> usize {
    if counter == 0 {
        usize::MAX
    } else {
        (counter - 1) as usize
    }
}

/// What the counter of a pinned guard holds after `history`. It starts at
/// zero; in checked mode every new handle increments it and every dropped
/// handle decrements it, and in unchecked mode nothing touches it.
pub open spec fn pinned_counter(mode: Mode, history: Seq<HandleEvent>) -> usize
    decreases history.len(),
{
    if history.len() == 0 || mode == Mode::Unchecked {
        0
    } else if history.last().creates() {
        counter_up(pinned_counter(mode, history.drop_last()))
    } else {
        counter_down(pinned_counter(mode, history.drop_last()))
    }
}

/// How many holders the cell of a shared guard has after `history`: the
/// guard itself and every outstanding handle.
pub open spec fn shared_count(history: Seq<HandleEvent>) -> int {
    1 + live(history)
}

/// The number of values that the machine counter can hold.
pub open spec fn counter_span() -> int {
    usize::MAX + 1
}

/// One more event changes the live count by one, up or down.
pub proof fn lemma_live_push(history: Seq<HandleEvent>, event: HandleEvent)
    ensures
        created(history.push(event)) == created(history) + if event.creates() {
            1nat
        } else {
            0nat
        },
        destroyed(history.push(event)) == destroyed(history) + if event.creates() {
            0nat
        } else {
            1nat
        },
        live(history.push(event)) == live(history) + if event.creates() {
            1int
        } else {
            -1int
        },
{
    assert(history.push(event).drop_last() =~= history);
}

/// `count` drops after `history` destroy `count` handles more and create none.
pub proof fn lemma_drops_destroy(history: Seq<HandleEvent>, count: nat)
    ensures
        created(history + drops(count)) == created(history),
        destroyed(history + drops(count)) == destroyed(history) + count,
    decreases count,
{
    if count == 0 {
        assert(history + drops(count) =~= history);
    } else {
        let fewer = (count - 1) as nat;
        lemma_drops_destroy(history, fewer);
        lemma_live_push(history + drops(fewer), HandleEvent::Dropped);
        assert(history + drops(count) =~= (history + drops(fewer)).push(HandleEvent::Dropped));
    }
}

/// The counter of a pinned guard in checked mode is the live count, reduced
/// into the range of the machine counter.
pub proof fn lemma_counter_follows_live(history: Seq<HandleEvent>)
    ensures
        pinned_counter(Mode::Checked, history) == live(history) % counter_span(),
    decreases history.len(),
{
    let span = counter_span();
    if history.len() == 0 {
        lemma_small_mod(0, span as nat);
    } else {
        let before = history.drop_last();
        let held = pinned_counter(Mode::Checked, before) as int;
        lemma_counter_follows_live(before);
        lemma_live_push(before, history.last());
        assert(before.push(history.last()) =~= history);
        lemma_small_mod(1, span as nat);
        if history.last().creates() {
            lemma_add_mod_noop(live(before), 1, span);
            if held == usize::MAX {
                lemma_mod_self_0(span);
            } else {
                lemma_small_mod((held + 1) as nat, span as nat);
            }
        } else {
            lemma_sub_mod_noop(live(before), 1, span);
            if held == 0 {
                lemma_mod_add_multiples_vanish(-1, span);
                lemma_small_mod((span - 1) as nat, span as nat);
            } else {
                lemma_small_mod((held - 1) as nat, span as nat);
            }
        }
    }
}

/// While the live count fits the machine counter, the counter of a pinned
/// guard in checked mode holds exactly the live count.
pub proof fn lemma_counter_is_live(history: Seq<HandleEvent>)
    requires
        0 <= live(history) <= usize::MAX,
    ensures
        pinned_counter(Mode::Checked, history) == live(history),
{
    lemma_counter_follows_live(history);
    lemma_small_mod(live(history) as nat, counter_span() as nat);
}

/// No false positive: once every handle that was created has been destroyed,
/// the guard's verdict is clean and its destruction proceeds, in both
/// backends and in both modes, however many handles there were.
pub proof fn law_no_false_positive(mode: Mode, harness: bool, history: Seq<HandleEvent>)
    requires
        created(history) == destroyed(history),
    ensures
        pinned_verdict(mode, pinned_counter(mode, history) as int) == Verdict::Clean,
        shared_verdict(mode, shared_count(history)) == Verdict::Clean,
        reaction_to(Verdict::Clean, harness) == Reaction::Proceed,
{
    if mode == Mode::Checked {
        lemma_counter_is_live(history);
    }
}

/// Detection: in checked mode a guard that goes away while handles are
/// outstanding gets the verdict of a violation, and its destruction does not
/// proceed. The shared backend sees every outstanding handle. The pinned
/// backend sees them unless their number is a multiple of the span of the
/// machine counter, which no number from one up to the largest counter value is.
pub proof fn law_detection(harness: bool, history: Seq<HandleEvent>)
    requires
        live(history) >= 1,
    ensures
        shared_verdict(Mode::Checked, shared_count(history)) == Verdict::Violation,
        pinned_verdict(Mode::Checked, pinned_counter(Mode::Checked, history) as int)
            == Verdict::Violation <==> live(history) % counter_span() != 0,
        live(history) <= usize::MAX ==> pinned_verdict(
            Mode::Checked,
            pinned_counter(Mode::Checked, history) as int,
        ) == Verdict::Violation,
        reaction_to(Verdict::Violation, harness) != Reaction::Proceed,
{
    lemma_counter_follows_live(history);
    if live(history) <= usize::MAX {
        lemma_small_mod(live(history) as nat, counter_span() as nat);
    }
}

/// The outcome of a guard's destruction is decided by the mode, the harness
/// and the number of handles left, and by nothing else: it proceeds exactly
/// when checking is off or no handle is left, and otherwise it ends the
/// process, or unwinds in a harness. The pinned backend is exact for every
/// number that its counter can hold.
pub proof fn law_destruction_outcome(mode: Mode, harness: bool, handles_left: nat)
    ensures
        reaction_to(shared_verdict(mode, 1 + handles_left as int), harness) == Reaction::Proceed
            <==> (mode == Mode::Unchecked || handles_left == 0),
        reaction_to(pinned_verdict(mode, handles_left as int), harness) == Reaction::Proceed <==> (
        mode == Mode::Unchecked || handles_left == 0),
        reaction_to(shared_verdict(mode, 1 + handles_left as int), harness) == reaction_to(
            pinned_verdict(mode, handles_left as int),
            harness,
        ),
        mode == Mode::Checked && handles_left > 0 ==> reaction_to(
            shared_verdict(mode, 1 + handles_left as int),
            harness,
        ) == if harness {
            Reaction::Unwind
        } else {
            Reaction::Terminate
        },
{
}

/// Every handle counts once: a handle made by duplication raises the live
/// count, and what either backend reads, by one, exactly as a lifted handle
/// does, and dropping a handle of either origin lowers them by one.
pub proof fn law_every_handle_counts_once(history: Seq<HandleEvent>)
    ensures
        live(history.push(HandleEvent::Lifted)) == live(history) + 1,
        live(history.push(HandleEvent::Duplicated)) == live(history) + 1,
        live(history.push(HandleEvent::Dropped)) == live(history) - 1,
        shared_count(history.push(HandleEvent::Lifted)) == shared_count(history) + 1,
        shared_count(history.push(HandleEvent::Duplicated)) == shared_count(history) + 1,
        shared_count(history.push(HandleEvent::Dropped)) == shared_count(history) - 1,
        pinned_counter(Mode::Checked, history.push(HandleEvent::Lifted)) == counter_up(
            pinned_counter(Mode::Checked, history),
        ),
        pinned_counter(Mode::Checked, history.push(HandleEvent::Duplicated)) == counter_up(
            pinned_counter(Mode::Checked, history),
        ),
        pinned_counter(Mode::Checked, history.push(HandleEvent::Dropped)) == counter_down(
            pinned_counter(Mode::Checked, history),
        ),
{
    lemma_live_push(history, HandleEvent::Lifted);
    lemma_live_push(history, HandleEvent::Duplicated);
    lemma_live_push(history, HandleEvent::Dropped);
    assert(history.push(HandleEvent::Lifted).drop_last() =~= history);
    assert(history.push(HandleEvent::Duplicated).drop_last() =~= history);
    assert(history.push(HandleEvent::Dropped).drop_last() =~= history);
}

/// Count symmetry: destroying `count` of the outstanding handles lowers the
/// live count, and what either backend reads, by exactly `count`; destroying
/// all of them leaves the pinned counter at zero and the shared cell with the
/// guard as its only holder. The pinned counter wraps around, so it is exact
/// while the live count fits it.
pub proof fn law_count_symmetry(history: Seq<HandleEvent>, count: nat)
    requires
        count <= live(history),
    ensures
        live(history + drops(count)) == live(history) - count,
        shared_count(history + drops(count)) == shared_count(history) - count,
        shared_handles(shared_count(history + drops(count))) == shared_handles(
            shared_count(history),
        ) - count,
        pinned_counter(Mode::Checked, history + drops(count)) == (pinned_counter(
            Mode::Checked,
            history,
        ) - count) % counter_span(),
        live(history) <= usize::MAX ==> pinned_counter(Mode::Checked, history + drops(count))
            == pinned_counter(Mode::Checked, history) - count,
        count == live(history) ==> pinned_counter(Mode::Checked, history + drops(count)) == 0
            && shared_count(history + drops(count)) == 1,
{
    let span = counter_span();
    let after = history + drops(count);
    lemma_drops_destroy(history, count);
    lemma_counter_follows_live(history);
    lemma_counter_follows_live(after);
    lemma_sub_mod_noop(live(history), count as int, span);
    lemma_sub_mod_noop_right(live(history) % span, count as int, span);
    if live(history) <= usize::MAX {
        lemma_small_mod(live(history) as nat, span as nat);
        lemma_small_mod(live(after) as nat, span as nat);
    }
    if count == live(history) {
        lemma_small_mod(0, span as nat);
    }
}

/// Unchecked mode: whatever the handles did and whatever the guard would
/// read, its verdict is clean and its destruction proceeds. A guard that goes
/// away early is not detected.
pub proof fn law_unchecked_is_silent(
    harness: bool,
    history: Seq<HandleEvent>,
    strong_count: int,
    counter: int,
)
    ensures
        pinned_counter(Mode::Unchecked, history) == 0,
        pinned_verdict(Mode::Unchecked, counter) == Verdict::Clean,
        shared_verdict(Mode::Unchecked, strong_count) == Verdict::Clean,
        reaction_to(shared_verdict(Mode::Unchecked, strong_count), harness) == Reaction::Proceed,
        reaction_to(pinned_verdict(Mode::Unchecked, counter), harness) == Reaction::Proceed,
{
}

} // verus!
