//! Startup, described from outside: what the controller has performed, and
//! where it stands, once the host has answered everything startup asks.

use vstd::prelude::*;
use crate::bus::LogicalAddress;
use crate::controller::{initial, moved_to, ControllerView, Phase};
use crate::effect::{Effect, EventView, Failure, Notice, Outcome};
use crate::identity::{advertised_name, fallback_name, HostLookupView};
use crate::trace::{lemma_run_in_two_parts, performed, performed_by, reached, run};
use crate::trigger::Signal;

verus! {

/// What the host answers in the course of startup. An answer that startup
/// does not get to ask for is not looked at.
pub struct StartupAnswers {
    /// The name to advertise; `None` if the host's name is not Unicode.
    pub identity: Option<Seq<char>>,
    /// The bus connection opens.
    pub opened: bool,
    /// The first signal that cannot be bound, if there is one.
    pub refused: Option<Signal>,
    /// The participant the bus names as active source.
    pub active_source: LogicalAddress,
}

/// The events up to the answer of the identity lookup.
pub open spec fn identity_events(answers: StartupAnswers) -> Seq<EventView> {
    seq![EventView::Done, EventView::Identity(answers.identity)]
}

/// The effects up to the identity lookup.
pub open spec fn identity_effects() -> Seq<Effect> {
    seq![Effect::Note(Notice::Starting), Effect::ResolveIdentity]
}

/// The events from the known identity to the answer of the open.
pub open spec fn opening_events(answers: StartupAnswers) -> Seq<EventView> {
    seq![EventView::Done, EventView::Opened(answers.opened)]
}

/// The effects from the known identity to the open.
pub open spec fn opening_effects() -> Seq<Effect> {
    seq![Effect::Note(Notice::Identity), Effect::Open]
}

/// The answers to the bindings: success up to the refused signal.
pub open spec fn binding_events(answers: StartupAnswers) -> Seq<EventView> {
    match answers.refused {
        Some(Signal::Usr1) => seq![EventView::Registered(false)],
        Some(Signal::Usr2) => seq![EventView::Registered(true), EventView::Registered(false)],
        Some(Signal::Term) => seq![
            EventView::Registered(true),
            EventView::Registered(true),
            EventView::Registered(false),
        ],
        Some(Signal::Int) => seq![
            EventView::Registered(true),
            EventView::Registered(true),
            EventView::Registered(true),
            EventView::Registered(false),
        ],
        None => seq![
            EventView::Registered(true),
            EventView::Registered(true),
            EventView::Registered(true),
            EventView::Registered(true),
        ],
    }
}

/// The bindings attempted: the signals in binding order, up to and including
/// the refused one.
pub open spec fn binding_effects(answers: StartupAnswers) -> Seq<Effect> {
    match answers.refused {
        Some(Signal::Usr1) => seq![Effect::Register(Signal::Usr1)],
        Some(Signal::Usr2) => seq![Effect::Register(Signal::Usr1), Effect::Register(Signal::Usr2)],
        Some(Signal::Term) => seq![
            Effect::Register(Signal::Usr1),
            Effect::Register(Signal::Usr2),
            Effect::Register(Signal::Term),
        ],
        _ => seq![
            Effect::Register(Signal::Usr1),
            Effect::Register(Signal::Usr2),
            Effect::Register(Signal::Term),
            Effect::Register(Signal::Int),
        ],
    }
}

/// The events from the last binding to the start of the loop.
pub open spec fn ready_events(answers: StartupAnswers) -> Seq<EventView> {
    seq![EventView::ActiveSource(answers.active_source), EventView::Done, EventView::Done]
}

/// The effects from the last binding to the start of the loop.
pub open spec fn ready_effects(answers: StartupAnswers) -> Seq<Effect> {
    seq![
        Effect::QueryActiveSource,
        Effect::Note(Notice::ActiveSource(answers.active_source)),
        Effect::Note(Notice::Waiting),
    ]
}

/// The events of startup, as far as startup gets.
pub open spec fn startup_events(answers: StartupAnswers) -> Seq<EventView> {
    if answers.identity is None {
        identity_events(answers)
    } else if !answers.opened {
        identity_events(answers) + opening_events(answers)
    } else if answers.refused is Some {
        identity_events(answers) + (opening_events(answers) + binding_events(answers))
    } else {
        identity_events(answers) + (opening_events(answers) + (binding_events(answers)
            + ready_events(answers)))
    }
}

/// The effects of startup, in order: the identity is resolved first, the
/// connection is opened with it, the signals are bound only on an open
/// connection, and the loop is entered only with all of them bound.
pub open spec fn startup_effects(answers: StartupAnswers) -> Seq<Effect> {
    if answers.identity is None {
        identity_effects()
    } else if !answers.opened {
        identity_effects() + opening_effects()
    } else if answers.refused is Some {
        identity_effects() + (opening_effects() + binding_effects(answers))
    } else {
        identity_effects() + (opening_effects() + (binding_effects(answers) + ready_effects(
            answers,
        )))
    }
}

/// Where startup leaves the controller: at the first read of the loop, or
/// stopped with the first failure.
pub open spec fn phase_after_startup(answers: StartupAnswers) -> Phase {
    if answers.identity is None {
        Phase::Stopped(Outcome::Failed(Failure::IdentityNotUnicode))
    } else if !answers.opened {
        Phase::Stopped(Outcome::Failed(Failure::ConnectionFailed))
    } else {
        match answers.refused {
            Some(signal) => Phase::Stopped(Outcome::Failed(Failure::RegistrationFailed(signal))),
            None => Phase::PollingPowerOn,
        }
    }
}

/// The controller as startup leaves it: the advertised name is the resolved
/// identity, unshortened, and the port is the one it was made for.
pub open spec fn controller_after_startup(port: Seq<char>, answers: StartupAnswers) -> ControllerView {
    ControllerView {
        phase: phase_after_startup(answers),
        port,
        device_name: match answers.identity {
            Some(name) => name,
            None => Seq::empty(),
        },
    }
}

proof fn lemma_identity_part(start: ControllerView, answers: StartupAnswers)
    requires
        start.phase == Phase::AnnouncingStart,
    ensures
        performed(start, identity_events(answers)) == identity_effects(),
        run(start, identity_events(answers)) == match answers.identity {
            Some(name) => ControllerView {
                phase: Phase::AnnouncingIdentity,
                device_name: name,
                ..start
            },
            None => moved_to(start, Phase::Stopped(Outcome::Failed(Failure::IdentityNotUnicode))),
        },
{
    reveal_with_fuel(reached, 3);
    reveal_with_fuel(performed_by, 3);
    assert(performed(start, identity_events(answers)) =~= identity_effects());
}

proof fn lemma_opening_part(start: ControllerView, answers: StartupAnswers)
    requires
        start.phase == Phase::AnnouncingIdentity,
    ensures
        performed(start, opening_events(answers)) == opening_effects(),
        run(start, opening_events(answers)) == moved_to(
            start,
            if answers.opened {
                Phase::Registering(Signal::Usr1)
            } else {
                Phase::Stopped(Outcome::Failed(Failure::ConnectionFailed))
            },
        ),
{
    reveal_with_fuel(reached, 3);
    reveal_with_fuel(performed_by, 3);
    assert(performed(start, opening_events(answers)) =~= opening_effects());
}

proof fn lemma_binding_part(start: ControllerView, answers: StartupAnswers)
    requires
        start.phase == Phase::Registering(Signal::Usr1),
    ensures
        performed(start, binding_events(answers)) == binding_effects(answers),
        run(start, binding_events(answers)) == moved_to(
            start,
            match answers.refused {
                Some(signal) => Phase::Stopped(
                    Outcome::Failed(Failure::RegistrationFailed(signal)),
                ),
                None => Phase::ReadingInitialSource,
            },
        ),
{
    reveal_with_fuel(reached, 5);
    reveal_with_fuel(performed_by, 5);
    assert(performed(start, binding_events(answers)) =~= binding_effects(answers));
}

proof fn lemma_ready_part(start: ControllerView, answers: StartupAnswers)
    requires
        start.phase == Phase::ReadingInitialSource,
    ensures
        performed(start, ready_events(answers)) == ready_effects(answers),
        run(start, ready_events(answers)) == moved_to(start, Phase::PollingPowerOn),
{
    reveal_with_fuel(reached, 4);
    reveal_with_fuel(performed_by, 4);
    assert(performed(start, ready_events(answers)) =~= ready_effects(answers));
}

/// Startup performs exactly `startup_effects` and leaves the controller as
/// `controller_after_startup` says.
pub proof fn law_startup(port: Seq<char>, answers: StartupAnswers)
    ensures
        performed(initial(port), startup_events(answers)) == startup_effects(answers),
        run(initial(port), startup_events(answers)) == controller_after_startup(port, answers),
{
    let start = initial(port);
    let identity = identity_events(answers);
    let opening = opening_events(answers);
    let binding = binding_events(answers);
    let ready = ready_events(answers);
    lemma_identity_part(start, answers);
    if answers.identity is Some {
        let named = run(start, identity);
        lemma_opening_part(named, answers);
        if !answers.opened {
            lemma_run_in_two_parts(start, identity, opening, opening.len());
        } else {
            let open = run(named, opening);
            lemma_binding_part(open, answers);
            if answers.refused is Some {
                lemma_run_in_two_parts(named, opening, binding, binding.len());
                lemma_run_in_two_parts(start, identity, opening + binding, (opening + binding).len());
            } else {
                let bound = run(open, binding);
                lemma_ready_part(bound, answers);
                lemma_run_in_two_parts(open, binding, ready, ready.len());
                lemma_run_in_two_parts(named, opening, binding + ready, (binding + ready).len());
                lemma_run_in_two_parts(
                    start,
                    identity,
                    opening + (binding + ready),
                    (opening + (binding + ready)).len(),
                );
            }
        }
    }
}

/// Failing to learn the host's name does not stop startup: the fallback name
/// is advertised and startup goes on to open the connection. Only a name that
/// is not Unicode stops it.
pub proof fn law_startup_survives_lookup_failure(
    port: Seq<char>,
    lookup: HostLookupView,
    answers: StartupAnswers,
)
    requires
        answers.identity == advertised_name(lookup),
    ensures
        lookup is NotUnicode <==> phase_after_startup(answers) == Phase::Stopped(
            Outcome::Failed(Failure::IdentityNotUnicode),
        ),
        lookup is Unavailable ==> run(initial(port), startup_events(answers)).device_name
            == fallback_name(),
        lookup matches HostLookupView::Name(name) ==> run(
            initial(port),
            startup_events(answers),
        ).device_name == name,
{
    law_startup(port, answers);
}

/// Without an open connection nothing else is attempted: no signal is bound,
/// no flag is read and the controller stops with `ConnectionFailed`.
pub proof fn law_failed_open_stops_startup(port: Seq<char>, answers: StartupAnswers)
    requires
        answers.identity is Some,
        !answers.opened,
    ensures
        run(initial(port), startup_events(answers)).phase == Phase::Stopped(
            Outcome::Failed(Failure::ConnectionFailed),
        ),
        performed(initial(port), startup_events(answers)) == seq![
            Effect::Note(Notice::Starting),
            Effect::ResolveIdentity,
            Effect::Note(Notice::Identity),
            Effect::Open,
        ],
{
    law_startup(port, answers);
    assert(identity_effects() + opening_effects() =~= seq![
        Effect::Note(Notice::Starting),
        Effect::ResolveIdentity,
        Effect::Note(Notice::Identity),
        Effect::Open,
    ]);
}

} // verus!
