//! What holds of every run of the controller, whatever the host answers and
//! whenever triggers arrive.

use vstd::prelude::*;
use crate::bus::{Command, DISPLAY, OWN_ADDRESS};
use crate::controller::{expects, pending_effect, ControllerView, Phase, POLL_INTERVAL_SECS};
use crate::effect::{Effect, EventView};
use crate::trace::{
    lemma_occurrences_push, occurrences, performed, performed_by, reached, run, taken, taken_by,
};
use crate::trigger::Trigger;

verus! {

/// A stopped controller stays stopped: it takes no event and nothing more is
/// performed for it, so no bus command follows the exit.
pub proof fn law_stopped_is_final(start: ControllerView, events: Seq<EventView>)
    requires
        start.phase is Stopped,
    ensures
        run(start, events) == start,
        performed(start, events) == Seq::<Effect>::empty(),
{
    lemma_stopped_stays(start, events, events.len());
}

proof fn lemma_stopped_stays(start: ControllerView, events: Seq<EventView>, count: nat)
    requires
        start.phase is Stopped,
        count <= events.len(),
    ensures
        reached(start, events, count) == start,
        performed_by(start, events, count) == Seq::<Effect>::empty(),
    decreases count,
{
    if count > 0 {
        lemma_stopped_stays(start, events, (count - 1) as nat);
    }
}

/// Power-on commands that can still be sent before the loop sleeps next.
pub open spec fn power_on_ahead(phase: Phase) -> nat {
    match phase {
        Phase::PollingPowerOff
        | Phase::AnnouncingPowerOff
        | Phase::ClearingPowerOff
        | Phase::QueryingSource
        | Phase::SendingStandby
        | Phase::ReportingStandbyFailure
        | Phase::AnnouncingIgnored
        | Phase::PollingTerminate
        | Phase::AnnouncingTermination
        | Phase::ReportingPowerOnFailure
        | Phase::Sleeping
        | Phase::Stopped(_) => 0,
        _ => 1,
    }
}

/// Standby commands that can still be sent before the loop sleeps next.
pub open spec fn standby_ahead(phase: Phase) -> nat {
    match phase {
        Phase::ReportingStandbyFailure
        | Phase::AnnouncingIgnored
        | Phase::PollingTerminate
        | Phase::AnnouncingTermination
        | Phase::Sleeping
        | Phase::Stopped(_) => 0,
        _ => 1,
    }
}

/// Sleeps the loop may perform before it reads the terminate flag again.
pub open spec fn sleeps_ahead(phase: Phase) -> nat {
    match phase {
        Phase::Sleeping => 1,
        _ => 0,
    }
}

proof fn lemma_paced(start: ControllerView, events: Seq<EventView>, count: nat)
    requires
        count <= events.len(),
    ensures
        ({
            let now = reached(start, events, count).phase;
            let done = performed_by(start, events, count);
            let sleeps = occurrences(done, Effect::Sleep(POLL_INTERVAL_SECS));
            &&& occurrences(done, Effect::Send(Command::PowerOn(DISPLAY))) + power_on_ahead(now)
                <= sleeps + power_on_ahead(start.phase)
            &&& occurrences(done, Effect::Send(Command::Standby(DISPLAY))) + standby_ahead(now)
                <= sleeps + standby_ahead(start.phase)
            &&& sleeps + sleeps_ahead(now) <= occurrences(
                done,
                Effect::ReadFlag(Trigger::Terminate),
            ) + sleeps_ahead(start.phase)
        }),
    decreases count,
{
    if count > 0 {
        lemma_paced(start, events, (count - 1) as nat);
        let before = reached(start, events, (count - 1) as nat).phase;
        let earlier = performed_by(start, events, (count - 1) as nat);
        if expects(before, events[count - 1]) {
            let effect = pending_effect(before);
            lemma_occurrences_push(earlier, effect, Effect::Sleep(POLL_INTERVAL_SECS));
            lemma_occurrences_push(earlier, effect, Effect::Send(Command::PowerOn(DISPLAY)));
            lemma_occurrences_push(earlier, effect, Effect::Send(Command::Standby(DISPLAY)));
            lemma_occurrences_push(earlier, effect, Effect::ReadFlag(Trigger::Terminate));
        }
    }
}

/// In every run, from whatever phase and whatever the events, each kind of
/// command is sent at most once per pass: between two power-on commands the
/// loop has slept, and likewise between two standby commands.
pub proof fn law_commands_are_paced(start: ControllerView, events: Seq<EventView>)
    ensures
        occurrences(performed(start, events), Effect::Send(Command::PowerOn(DISPLAY)))
            <= occurrences(performed(start, events), Effect::Sleep(POLL_INTERVAL_SECS)) + 1,
        occurrences(performed(start, events), Effect::Send(Command::Standby(DISPLAY)))
            <= occurrences(performed(start, events), Effect::Sleep(POLL_INTERVAL_SECS)) + 1,
{
    lemma_paced(start, events, events.len());
}

/// In every run the loop reads the terminate flag before each sleep: it never
/// sleeps twice without a read in between, so a terminate trigger waits for at
/// most one interval.
pub proof fn law_terminate_is_polled_every_interval(
    start: ControllerView,
    events: Seq<EventView>,
)
    ensures
        occurrences(performed(start, events), Effect::Sleep(POLL_INTERVAL_SECS)) <= occurrences(
            performed(start, events),
            Effect::ReadFlag(Trigger::Terminate),
        ) + 1,
        start.phase != Phase::Sleeping ==> occurrences(
            performed(start, events),
            Effect::Sleep(POLL_INTERVAL_SECS),
        ) <= occurrences(performed(start, events), Effect::ReadFlag(Trigger::Terminate)),
{
    lemma_paced(start, events, events.len());
}

proof fn lemma_standby_is_licensed(start: ControllerView, events: Seq<EventView>, count: nat)
    requires
        start.phase != Phase::SendingStandby,
        count <= events.len(),
    ensures
        ({
            let now = reached(start, events, count).phase;
            let done = performed_by(start, events, count);
            let heard = taken_by(start, events, count);
            &&& done.len() == heard.len()
            &&& now == Phase::SendingStandby ==> done.len() > 0 && done.last()
                == Effect::QueryActiveSource && heard.last() == EventView::ActiveSource(
                OWN_ADDRESS,
            )
            &&& forall|i: int|
                0 <= i < done.len() && #[trigger] done[i] == Effect::Send(
                    Command::Standby(DISPLAY),
                ) ==> i > 0 && done[i - 1] == Effect::QueryActiveSource && heard[i - 1]
                    == EventView::ActiveSource(OWN_ADDRESS)
        }),
    decreases count,
{
    if count > 0 {
        lemma_standby_is_licensed(start, events, (count - 1) as nat);
    }
}

/// In every run a standby command is sent only as the next thing after the
/// bus named this device as active source. A display that shows another
/// source is never sent to standby.
pub proof fn law_standby_needs_active_source(start: ControllerView, events: Seq<EventView>)
    requires
        start.phase != Phase::SendingStandby,
    ensures
        performed(start, events).len() == taken(start, events).len(),
        forall|i: int|
            0 <= i < performed(start, events).len() && #[trigger] performed(start, events)[i]
                == Effect::Send(Command::Standby(DISPLAY)) ==> i > 0 && performed(
                start,
                events,
            )[i - 1] == Effect::QueryActiveSource && taken(start, events)[i - 1]
                == EventView::ActiveSource(OWN_ADDRESS),
{
    lemma_standby_is_licensed(start, events, events.len());
}

/// Whether the controller stands between the read of a raised power flag
/// and the command that answers it.
pub open spec fn serving_trigger(phase: Phase) -> bool {
    match phase {
        Phase::AnnouncingPowerOn
        | Phase::ClearingPowerOn
        | Phase::SendingPowerOn
        | Phase::AnnouncingPowerOff
        | Phase::ClearingPowerOff
        | Phase::QueryingSource
        | Phase::SendingStandby => true,
        _ => false,
    }
}

/// Whether position `at` of a run is the read of the flag of `trigger`,
/// answered with "raised".
pub open spec fn read_raised(
    done: Seq<Effect>,
    heard: Seq<EventView>,
    at: int,
    trigger: Trigger,
) -> bool {
    0 <= at < done.len() && done[at] == Effect::ReadFlag(trigger) && heard[at] == EventView::Flag(
        true,
    )
}

proof fn lemma_commands_are_asked_for(start: ControllerView, events: Seq<EventView>, count: nat)
    requires
        !serving_trigger(start.phase),
        count <= events.len(),
    ensures
        ({
            let now = reached(start, events, count).phase;
            let done = performed_by(start, events, count);
            let heard = taken_by(start, events, count);
            let length = done.len() as int;
            &&& done.len() == heard.len()
            &&& now == Phase::AnnouncingPowerOn ==> read_raised(
                done,
                heard,
                length - 1,
                Trigger::PowerOn,
            )
            &&& now == Phase::ClearingPowerOn ==> read_raised(
                done,
                heard,
                length - 2,
                Trigger::PowerOn,
            )
            &&& now == Phase::SendingPowerOn ==> read_raised(
                done,
                heard,
                length - 3,
                Trigger::PowerOn,
            ) && done[length - 1] == Effect::ClearFlag(Trigger::PowerOn)
            &&& now == Phase::AnnouncingPowerOff ==> read_raised(
                done,
                heard,
                length - 1,
                Trigger::PowerOff,
            )
            &&& now == Phase::ClearingPowerOff ==> read_raised(
                done,
                heard,
                length - 2,
                Trigger::PowerOff,
            )
            &&& now == Phase::QueryingSource ==> read_raised(
                done,
                heard,
                length - 3,
                Trigger::PowerOff,
            ) && done[length - 1] == Effect::ClearFlag(Trigger::PowerOff)
            &&& now == Phase::SendingStandby ==> read_raised(
                done,
                heard,
                length - 4,
                Trigger::PowerOff,
            ) && done[length - 2] == Effect::ClearFlag(Trigger::PowerOff)
            &&& forall|i: int|
                0 <= i < done.len() && #[trigger] done[i] == Effect::Send(
                    Command::PowerOn(DISPLAY),
                ) ==> read_raised(done, heard, i - 3, Trigger::PowerOn) && done[i - 1]
                    == Effect::ClearFlag(Trigger::PowerOn)
            &&& forall|i: int|
                0 <= i < done.len() && #[trigger] done[i] == Effect::Send(
                    Command::Standby(DISPLAY),
                ) ==> read_raised(done, heard, i - 4, Trigger::PowerOff) && done[i - 2]
                    == Effect::ClearFlag(Trigger::PowerOff)
        }),
    decreases count,
{
    if count > 0 {
        lemma_commands_are_asked_for(start, events, (count - 1) as nat);
    }
}

/// In every run each command answers a trigger: a power-on command is sent
/// only after the power-on flag was read as raised, a standby command only
/// after the power-off flag was, and by the time the command is sent the flag
/// has been reset, so that a refused command is not sent again by itself.
pub proof fn law_commands_answer_triggers(start: ControllerView, events: Seq<EventView>)
    requires
        !serving_trigger(start.phase),
    ensures
        ({
            let done = performed(start, events);
            let heard = taken(start, events);
            &&& forall|i: int|
                0 <= i < done.len() && #[trigger] done[i] == Effect::Send(
                    Command::PowerOn(DISPLAY),
                ) ==> read_raised(done, heard, i - 3, Trigger::PowerOn) && done[i - 1]
                    == Effect::ClearFlag(Trigger::PowerOn)
            &&& forall|i: int|
                0 <= i < done.len() && #[trigger] done[i] == Effect::Send(
                    Command::Standby(DISPLAY),
                ) ==> read_raised(done, heard, i - 4, Trigger::PowerOff) && done[i - 2]
                    == Effect::ClearFlag(Trigger::PowerOff)
        }),
{
    lemma_commands_are_asked_for(start, events, events.len());
}

/// Every command the controller sends is addressed to the display, and every
/// sleep lasts one polling interval.
pub proof fn law_only_the_display_is_commanded(phase: Phase)
    ensures
        match pending_effect(phase) {
            Effect::Send(command) => command == Command::PowerOn(DISPLAY) || command
                == Command::Standby(DISPLAY),
            Effect::Sleep(seconds) => seconds == POLL_INTERVAL_SECS,
            _ => true,
        },
{
}

} // verus!
