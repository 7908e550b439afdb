//! What a run of the controller looks like from outside: the events the host
//! fed it, the phase it reached, and the effects the host performed for it.

use vstd::prelude::*;
use crate::controller::{after_event, expects, pending_effect, ControllerView};
use crate::effect::{Effect, EventView};

verus! {

/// The controller after the first `count` of `events` were fed to `start`.
pub open spec fn reached(start: ControllerView, events: Seq<EventView>, count: nat) -> ControllerView
    decreases count,
{
    if count == 0 {
        start
    } else {
        after_event(reached(start, events, (count - 1) as nat), events[count - 1])
    }
}

/// The controller after all of `events` were fed to `start`.
pub open spec fn run(start: ControllerView, events: Seq<EventView>) -> ControllerView {
    reached(start, events, events.len())
}

/// The effects performed for the first `count` of `events`, in order: for
/// each event that was taken, the effect it answered.
pub open spec fn performed_by(
    start: ControllerView,
    events: Seq<EventView>,
    count: nat,
) -> Seq<Effect>
    decreases count,
{
    if count == 0 {
        Seq::empty()
    } else {
        let before = reached(start, events, (count - 1) as nat);
        let earlier = performed_by(start, events, (count - 1) as nat);
        if expects(before.phase, events[count - 1]) {
            earlier.push(pending_effect(before.phase))
        } else {
            earlier
        }
    }
}

/// The effects performed while all of `events` were fed to `start`.
pub open spec fn performed(start: ControllerView, events: Seq<EventView>) -> Seq<Effect> {
    performed_by(start, events, events.len())
}

/// The events among the first `count` of `events` that were taken, in order:
/// the answers to `performed_by`, position by position.
pub open spec fn taken_by(
    start: ControllerView,
    events: Seq<EventView>,
    count: nat,
) -> Seq<EventView>
    decreases count,
{
    if count == 0 {
        Seq::empty()
    } else {
        let before = reached(start, events, (count - 1) as nat);
        let earlier = taken_by(start, events, (count - 1) as nat);
        if expects(before.phase, events[count - 1]) {
            earlier.push(events[count - 1])
        } else {
            earlier
        }
    }
}

/// The events among `events` that were taken.
pub open spec fn taken(start: ControllerView, events: Seq<EventView>) -> Seq<EventView> {
    taken_by(start, events, events.len())
}

/// How many of the first `count` of `effects` are `wanted`.
pub open spec fn occurrences_within(effects: Seq<Effect>, wanted: Effect, count: nat) -> nat
    decreases count,
{
    if count == 0 {
        0
    } else {
        occurrences_within(effects, wanted, (count - 1) as nat) + if effects[count - 1] == wanted {
            1nat
        } else {
            0nat
        }
    }
}

/// How many times `wanted` occurs in `effects`.
pub open spec fn occurrences(effects: Seq<Effect>, wanted: Effect) -> nat {
    occurrences_within(effects, wanted, effects.len())
}

/// Counting in a prefix does not look past the prefix.
pub proof fn lemma_occurrences_prefix(
    effects: Seq<Effect>,
    longer: Seq<Effect>,
    wanted: Effect,
    count: nat,
)
    requires
        count <= effects.len() <= longer.len(),
        forall|i: int| 0 <= i < effects.len() ==> effects[i] == longer[i],
    ensures
        occurrences_within(longer, wanted, count) == occurrences_within(effects, wanted, count),
    decreases count,
{
    if count > 0 {
        lemma_occurrences_prefix(effects, longer, wanted, (count - 1) as nat);
    }
}

/// Appending one effect adds one occurrence of it and none of any other.
pub proof fn lemma_occurrences_push(effects: Seq<Effect>, added: Effect, wanted: Effect)
    ensures
        occurrences(effects.push(added), wanted) == occurrences(effects, wanted) + if added
            == wanted {
            1nat
        } else {
            0nat
        },
{
    lemma_occurrences_prefix(effects, effects.push(added), wanted, effects.len());
}

/// Occurrences in a concatenation are those of its parts together.
pub proof fn lemma_occurrences_add(first: Seq<Effect>, second: Seq<Effect>, wanted: Effect)
    ensures
        occurrences(first + second, wanted) == occurrences(first, wanted) + occurrences(
            second,
            wanted,
        ),
    decreases second.len(),
{
    if second.len() == 0 {
        assert(first + second =~= first);
    } else {
        let shorter = second.drop_last();
        lemma_occurrences_add(first, shorter, wanted);
        assert(first + second =~= (first + shorter).push(second.last()));
        assert(second =~= shorter.push(second.last()));
        lemma_occurrences_push(first + shorter, second.last(), wanted);
        lemma_occurrences_push(shorter, second.last(), wanted);
    }
}

/// Events that come later do not change what happened before them.
pub proof fn lemma_prefix_decides(
    start: ControllerView,
    events: Seq<EventView>,
    longer: Seq<EventView>,
    count: nat,
)
    requires
        count <= events.len() <= longer.len(),
        forall|i: int| 0 <= i < events.len() ==> events[i] == longer[i],
    ensures
        reached(start, longer, count) == reached(start, events, count),
        performed_by(start, longer, count) == performed_by(start, events, count),
    decreases count,
{
    if count > 0 {
        lemma_prefix_decides(start, events, longer, (count - 1) as nat);
    }
}

/// Feeding `first` and then `second` is feeding their concatenation.
pub proof fn lemma_run_in_two_parts(
    start: ControllerView,
    first: Seq<EventView>,
    second: Seq<EventView>,
    count: nat,
)
    requires
        count <= second.len(),
    ensures
        reached(start, first + second, first.len() + count) == reached(
            run(start, first),
            second,
            count,
        ),
        performed_by(start, first + second, first.len() + count) == performed(start, first)
            + performed_by(run(start, first), second, count),
    decreases count,
{
    let both = first + second;
    if count == 0 {
        lemma_prefix_decides(start, first, both, first.len());
        assert(performed(start, first) + Seq::<Effect>::empty() =~= performed(start, first));
    } else {
        lemma_run_in_two_parts(start, first, second, (count - 1) as nat);
        assert(both[first.len() + count - 1] == second[count - 1]);
        let middle = run(start, first);
        let before = reached(middle, second, (count - 1) as nat);
        let earlier = performed_by(middle, second, (count - 1) as nat);
        if expects(before.phase, second[count - 1]) {
            assert((performed(start, first) + earlier).push(pending_effect(before.phase))
                =~= performed(start, first) + earlier.push(pending_effect(before.phase)));
        }
    }
}

} // verus!
