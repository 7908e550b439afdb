//! One pass of the polling loop, described from outside.
//!
//! A pass starts with the read of the power-on flag and ends with the sleep,
//! or with the stop of the controller. What happens in between is decided by
//! what the host answers; `PassAnswers` collects those answers.

use vstd::prelude::*;
use crate::bus::{Command, LogicalAddress, DISPLAY, OWN_ADDRESS};
use crate::controller::{moved_to, ControllerView, Phase, POLL_INTERVAL_SECS};
use crate::effect::{Effect, EventView, Notice, Outcome};
use crate::trace::{
    lemma_occurrences_add, lemma_run_in_two_parts, occurrences, occurrences_within, performed,
    performed_by, reached, run,
};
use crate::trigger::{law_deliveries_collapse, PendingFlags, Trigger};

verus! {

/// What the host answers in the course of one pass. An answer that the pass
/// does not ask for is not looked at.
pub struct PassAnswers {
    /// The power-on flag is raised.
    pub power_on: bool,
    /// The bus accepts the power-on command.
    pub power_on_accepted: bool,
    /// The power-off flag is raised.
    pub power_off: bool,
    /// The participant the bus names as active source.
    pub active_source: LogicalAddress,
    /// The bus accepts the standby command.
    pub standby_accepted: bool,
    /// The terminate flag is raised.
    pub terminate: bool,
}

/// The events of the part of a pass that deals with the power-on flag.
pub open spec fn power_on_events(answers: PassAnswers) -> Seq<EventView> {
    if !answers.power_on {
        seq![EventView::Flag(false)]
    } else if answers.power_on_accepted {
        seq![EventView::Flag(true), EventView::Done, EventView::Done, EventView::Sent(true)]
    } else {
        seq![
            EventView::Flag(true),
            EventView::Done,
            EventView::Done,
            EventView::Sent(false),
            EventView::Done,
        ]
    }
}

/// The effects of the part of a pass that deals with the power-on flag: the
/// flag is read; if it is raised, it is reset and the display is told to power
/// on, and a refusal of the bus is reported.
pub open spec fn power_on_effects(answers: PassAnswers) -> Seq<Effect> {
    if !answers.power_on {
        seq![Effect::ReadFlag(Trigger::PowerOn)]
    } else if answers.power_on_accepted {
        seq![
            Effect::ReadFlag(Trigger::PowerOn),
            Effect::Note(Notice::PoweringOn),
            Effect::ClearFlag(Trigger::PowerOn),
            Effect::Send(Command::PowerOn(DISPLAY)),
        ]
    } else {
        seq![
            Effect::ReadFlag(Trigger::PowerOn),
            Effect::Note(Notice::PoweringOn),
            Effect::ClearFlag(Trigger::PowerOn),
            Effect::Send(Command::PowerOn(DISPLAY)),
            Effect::Note(Notice::CommandFailed(Command::PowerOn(DISPLAY))),
        ]
    }
}

/// From the read of the power-on flag the controller performs exactly
/// `power_on_effects` and then stands at the read of the power-off flag.
pub proof fn law_power_on_part(start: ControllerView, answers: PassAnswers)
    requires
        start.phase == Phase::PollingPowerOn,
    ensures
        performed(start, power_on_events(answers)) == power_on_effects(answers),
        run(start, power_on_events(answers)) == moved_to(start, Phase::PollingPowerOff),
{
    reveal_with_fuel(reached, 6);
    reveal_with_fuel(performed_by, 6);
    assert(performed(start, power_on_events(answers)) =~= power_on_effects(answers));
}

/// The events of the part of a pass that deals with the power-off flag.
pub open spec fn power_off_events(answers: PassAnswers) -> Seq<EventView> {
    if !answers.power_off {
        seq![EventView::Flag(false)]
    } else if answers.active_source != OWN_ADDRESS {
        seq![
            EventView::Flag(true),
            EventView::Done,
            EventView::Done,
            EventView::ActiveSource(answers.active_source),
            EventView::Done,
        ]
    } else if answers.standby_accepted {
        seq![
            EventView::Flag(true),
            EventView::Done,
            EventView::Done,
            EventView::ActiveSource(answers.active_source),
            EventView::Sent(true),
        ]
    } else {
        seq![
            EventView::Flag(true),
            EventView::Done,
            EventView::Done,
            EventView::ActiveSource(answers.active_source),
            EventView::Sent(false),
            EventView::Done,
        ]
    }
}

/// The effects of the part of a pass that deals with the power-off flag: the
/// flag is read; if it is raised, it is reset and the bus is asked for the
/// active source. Only if that is this device is the display told to go to
/// standby; otherwise the trigger is reported as ignored.
pub open spec fn power_off_effects(answers: PassAnswers) -> Seq<Effect> {
    if !answers.power_off {
        seq![Effect::ReadFlag(Trigger::PowerOff)]
    } else if answers.active_source != OWN_ADDRESS {
        seq![
            Effect::ReadFlag(Trigger::PowerOff),
            Effect::Note(Notice::PoweringOff),
            Effect::ClearFlag(Trigger::PowerOff),
            Effect::QueryActiveSource,
            Effect::Note(Notice::Ignored),
        ]
    } else if answers.standby_accepted {
        seq![
            Effect::ReadFlag(Trigger::PowerOff),
            Effect::Note(Notice::PoweringOff),
            Effect::ClearFlag(Trigger::PowerOff),
            Effect::QueryActiveSource,
            Effect::Send(Command::Standby(DISPLAY)),
        ]
    } else {
        seq![
            Effect::ReadFlag(Trigger::PowerOff),
            Effect::Note(Notice::PoweringOff),
            Effect::ClearFlag(Trigger::PowerOff),
            Effect::QueryActiveSource,
            Effect::Send(Command::Standby(DISPLAY)),
            Effect::Note(Notice::CommandFailed(Command::Standby(DISPLAY))),
        ]
    }
}

/// From the read of the power-off flag the controller performs exactly
/// `power_off_effects` and then stands at the read of the terminate flag.
pub proof fn law_power_off_part(start: ControllerView, answers: PassAnswers)
    requires
        start.phase == Phase::PollingPowerOff,
    ensures
        performed(start, power_off_events(answers)) == power_off_effects(answers),
        run(start, power_off_events(answers)) == moved_to(start, Phase::PollingTerminate),
{
    reveal_with_fuel(reached, 7);
    reveal_with_fuel(performed_by, 7);
    assert(performed(start, power_off_events(answers)) =~= power_off_effects(answers));
}

/// The events of the part of a pass that deals with the terminate flag.
pub open spec fn terminate_events(answers: PassAnswers) -> Seq<EventView> {
    if answers.terminate {
        seq![EventView::Flag(true), EventView::Done]
    } else {
        seq![EventView::Flag(false), EventView::Done]
    }
}

/// The effects of the part of a pass that deals with the terminate flag: the
/// flag is read and left as it is; if it is raised the end is announced,
/// otherwise the loop sleeps for one interval.
pub open spec fn terminate_effects(answers: PassAnswers) -> Seq<Effect> {
    if answers.terminate {
        seq![Effect::ReadFlag(Trigger::Terminate), Effect::Note(Notice::Terminating)]
    } else {
        seq![Effect::ReadFlag(Trigger::Terminate), Effect::Sleep(POLL_INTERVAL_SECS)]
    }
}

/// The phase at which a pass leaves the controller: stopped with success if
/// the terminate flag was raised, at the start of the next pass otherwise.
pub open spec fn phase_after_pass(answers: PassAnswers) -> Phase {
    if answers.terminate {
        Phase::Stopped(Outcome::Clean)
    } else {
        Phase::PollingPowerOn
    }
}

/// From the read of the terminate flag the controller performs exactly
/// `terminate_effects` and is then stopped or back at the start of a pass.
pub proof fn law_terminate_part(start: ControllerView, answers: PassAnswers)
    requires
        start.phase == Phase::PollingTerminate,
    ensures
        performed(start, terminate_events(answers)) == terminate_effects(answers),
        run(start, terminate_events(answers)) == moved_to(start, phase_after_pass(answers)),
{
    reveal_with_fuel(reached, 3);
    reveal_with_fuel(performed_by, 3);
    assert(performed(start, terminate_events(answers)) =~= terminate_effects(answers));
}

/// The events of a whole pass: power-on, then power-off, then terminate.
pub open spec fn pass_events(answers: PassAnswers) -> Seq<EventView> {
    power_on_events(answers) + (power_off_events(answers) + terminate_events(answers))
}

/// The effects of a whole pass, in the order in which they are performed.
pub open spec fn pass_effects(answers: PassAnswers) -> Seq<Effect> {
    power_on_effects(answers) + (power_off_effects(answers) + terminate_effects(answers))
}

/// A pass performs exactly `pass_effects`: every raised flag is acted upon in
/// the same pass, in the order power-on, power-off, terminate. The pass
/// changes nothing of the controller but its phase.
pub proof fn law_pass(start: ControllerView, answers: PassAnswers)
    requires
        start.phase == Phase::PollingPowerOn,
    ensures
        performed(start, pass_events(answers)) == pass_effects(answers),
        run(start, pass_events(answers)) == moved_to(start, phase_after_pass(answers)),
{
    let on = power_on_events(answers);
    let off = power_off_events(answers);
    let term = terminate_events(answers);
    law_power_on_part(start, answers);
    let after_on = run(start, on);
    law_power_off_part(after_on, answers);
    let after_off = run(after_on, off);
    law_terminate_part(after_off, answers);
    lemma_run_in_two_parts(after_on, off, term, term.len());
    lemma_run_in_two_parts(start, on, off + term, (off + term).len());
}

/// One if `condition` holds, zero otherwise.
pub open spec fn one_if(condition: bool) -> nat {
    if condition {
        1
    } else {
        0
    }
}

/// Whether `effects` holds `wanted` at position `at`, as a number.
spec fn hit(effects: Seq<Effect>, wanted: Effect, at: int) -> nat {
    one_if(0 <= at < effects.len() && effects[at] == wanted)
}

/// The occurrences in a sequence of at most six effects, position by position.
proof fn lemma_occurrences_short(effects: Seq<Effect>, wanted: Effect)
    requires
        effects.len() <= 6,
    ensures
        occurrences(effects, wanted) == hit(effects, wanted, 0) + hit(effects, wanted, 1) + hit(
            effects,
            wanted,
            2,
        ) + hit(effects, wanted, 3) + hit(effects, wanted, 4) + hit(effects, wanted, 5),
{
    reveal_with_fuel(occurrences_within, 7);
}

/// Occurrences in a pass are those of its three parts together, and those of
/// each part are found position by position.
proof fn lemma_tally(answers: PassAnswers, wanted: Effect)
    ensures
        occurrences(pass_effects(answers), wanted) == occurrences(
            power_on_effects(answers),
            wanted,
        ) + occurrences(power_off_effects(answers), wanted) + occurrences(
            terminate_effects(answers),
            wanted,
        ),
        occurrences(power_on_effects(answers), wanted) == one_if(
            wanted == Effect::ReadFlag(Trigger::PowerOn),
        ) + one_if(
            answers.power_on && (wanted == Effect::Note(Notice::PoweringOn) || wanted
                == Effect::ClearFlag(Trigger::PowerOn) || wanted == Effect::Send(
                Command::PowerOn(DISPLAY),
            )),
        ) + one_if(
            answers.power_on && !answers.power_on_accepted && wanted == Effect::Note(
                Notice::CommandFailed(Command::PowerOn(DISPLAY)),
            ),
        ),
        occurrences(power_off_effects(answers), wanted) == one_if(
            wanted == Effect::ReadFlag(Trigger::PowerOff),
        ) + one_if(
            answers.power_off && (wanted == Effect::Note(Notice::PoweringOff) || wanted
                == Effect::ClearFlag(Trigger::PowerOff) || wanted == Effect::QueryActiveSource),
        ) + one_if(
            answers.power_off && answers.active_source != OWN_ADDRESS && wanted == Effect::Note(
                Notice::Ignored,
            ),
        ) + one_if(
            answers.power_off && answers.active_source == OWN_ADDRESS && wanted == Effect::Send(
                Command::Standby(DISPLAY),
            ),
        ) + one_if(
            answers.power_off && answers.active_source == OWN_ADDRESS && !answers.standby_accepted
                && wanted == Effect::Note(Notice::CommandFailed(Command::Standby(DISPLAY))),
        ),
        occurrences(terminate_effects(answers), wanted) == one_if(
            wanted == Effect::ReadFlag(Trigger::Terminate),
        ) + one_if(answers.terminate && wanted == Effect::Note(Notice::Terminating)) + one_if(
            !answers.terminate && wanted == Effect::Sleep(POLL_INTERVAL_SECS),
        ),
{
    lemma_occurrences_add(power_off_effects(answers), terminate_effects(answers), wanted);
    lemma_occurrences_add(
        power_on_effects(answers),
        power_off_effects(answers) + terminate_effects(answers),
        wanted,
    );
    lemma_occurrences_short(power_on_effects(answers), wanted);
    lemma_occurrences_short(power_off_effects(answers), wanted);
    lemma_occurrences_short(terminate_effects(answers), wanted);
}

/// The answers of a pass that reads its flags from `flags`, with `bus` giving
/// the answers of the bus.
pub open spec fn answers_from(flags: PendingFlags, bus: PassAnswers) -> PassAnswers {
    PassAnswers {
        power_on: flags.power_on,
        power_off: flags.power_off,
        terminate: flags.terminate,
        ..bus
    }
}

/// However many triggers arrived while the loop slept, and in whatever order,
/// the next pass acts once on each kind that is pending and not at all on the
/// others: it resets the power-on flag once and sends one power-on command if
/// a power-on trigger is pending; it resets the power-off flag once and asks
/// the bus once if a power-off trigger is pending; it announces the end once
/// if a terminate trigger is pending, and never resets that flag.
pub proof fn law_deliveries_act_once(
    before: PendingFlags,
    deliveries: Seq<Trigger>,
    bus: PassAnswers,
)
    ensures
        ({
            let flags = before.after_deliveries(deliveries);
            let effects = pass_effects(answers_from(flags, bus));
            let power_on = before.power_on || deliveries.contains(Trigger::PowerOn);
            let power_off = before.power_off || deliveries.contains(Trigger::PowerOff);
            let terminate = before.terminate || deliveries.contains(Trigger::Terminate);
            &&& occurrences(effects, Effect::ClearFlag(Trigger::PowerOn)) == one_if(power_on)
            &&& occurrences(effects, Effect::Send(Command::PowerOn(DISPLAY))) == one_if(power_on)
            &&& occurrences(effects, Effect::ClearFlag(Trigger::PowerOff)) == one_if(power_off)
            &&& occurrences(effects, Effect::QueryActiveSource) == one_if(power_off)
            &&& occurrences(effects, Effect::Note(Notice::Terminating)) == one_if(terminate)
            &&& occurrences(effects, Effect::ClearFlag(Trigger::Terminate)) == 0
        }),
{
    let flags = before.after_deliveries(deliveries);
    law_deliveries_collapse(before, deliveries, Trigger::PowerOn);
    law_deliveries_collapse(before, deliveries, Trigger::PowerOff);
    law_deliveries_collapse(before, deliveries, Trigger::Terminate);
    let answers = answers_from(flags, bus);
    lemma_tally(answers, Effect::ClearFlag(Trigger::PowerOn));
    lemma_tally(answers, Effect::Send(Command::PowerOn(DISPLAY)));
    lemma_tally(answers, Effect::ClearFlag(Trigger::PowerOff));
    lemma_tally(answers, Effect::QueryActiveSource);
    lemma_tally(answers, Effect::Note(Notice::Terminating));
    lemma_tally(answers, Effect::ClearFlag(Trigger::Terminate));
}

/// A raised power-on flag makes the pass send exactly one power-on command,
/// addressed to the display, whatever the bus names as active source and
/// whatever else is pending. Without the flag no power-on command is sent.
pub proof fn law_power_on_is_unconditional(answers: PassAnswers)
    ensures
        occurrences(pass_effects(answers), Effect::Send(Command::PowerOn(DISPLAY))) == one_if(
            answers.power_on,
        ),
        forall|target: LogicalAddress|
            target != DISPLAY ==> #[trigger] occurrences(
                pass_effects(answers),
                Effect::Send(Command::PowerOn(target)),
            ) == 0,
{
    lemma_tally(answers, Effect::Send(Command::PowerOn(DISPLAY)));
    assert forall|target: LogicalAddress| target != DISPLAY implies #[trigger] occurrences(
        pass_effects(answers),
        Effect::Send(Command::PowerOn(target)),
    ) == 0 by {
        lemma_tally(answers, Effect::Send(Command::PowerOn(target)));
    }
}

/// A raised power-off flag makes the pass send exactly one standby command,
/// addressed to the display, if the bus names this device as active source.
/// If it names any other participant, the power-off part of the pass sends no
/// command at all and reports once that the trigger was ignored.
pub proof fn law_power_off_defers_to_active_source(answers: PassAnswers)
    requires
        answers.power_off,
    ensures
        ({
            let pass = pass_effects(answers);
            let standby = Effect::Send(Command::Standby(DISPLAY));
            let ignored = Effect::Note(Notice::Ignored);
            if answers.active_source == OWN_ADDRESS {
                &&& occurrences(pass, standby) == 1
                &&& occurrences(pass, ignored) == 0
            } else {
                &&& occurrences(pass, standby) == 0
                &&& occurrences(pass, ignored) == 1
                &&& forall|command: Command|
                    #[trigger] occurrences(power_off_effects(answers), Effect::Send(command)) == 0
            }
        }),
{
    lemma_tally(answers, Effect::Send(Command::Standby(DISPLAY)));
    lemma_tally(answers, Effect::Note(Notice::Ignored));
    if answers.active_source != OWN_ADDRESS {
        assert forall|command: Command|
            #[trigger] occurrences(power_off_effects(answers), Effect::Send(command)) == 0 by {
            lemma_tally(answers, Effect::Send(command));
        }
    }
}

/// A raised terminate flag ends the loop in the pass that reads it: the pass
/// does not sleep again, and the controller stops with success. Every pass
/// reads the terminate flag once and sleeps at most once, so a trigger is seen
/// at most one interval after it arrived.
pub proof fn law_terminate_stops_the_loop(start: ControllerView, answers: PassAnswers)
    requires
        start.phase == Phase::PollingPowerOn,
    ensures
        occurrences(pass_effects(answers), Effect::ReadFlag(Trigger::Terminate)) == 1,
        occurrences(pass_effects(answers), Effect::Sleep(POLL_INTERVAL_SECS)) == one_if(
            !answers.terminate,
        ),
        run(start, pass_events(answers)).phase == if answers.terminate {
            Phase::Stopped(Outcome::Clean)
        } else {
            Phase::PollingPowerOn
        },
{
    law_pass(start, answers);
    lemma_tally(answers, Effect::ReadFlag(Trigger::Terminate));
    lemma_tally(answers, Effect::Sleep(POLL_INTERVAL_SECS));
}

} // verus!
