//! The power-state controller.
//!
//! The controller is a resumable program: at every moment it stands at one
//! phase, the phase names the one effect the host has to perform next, and the
//! host's answer decides the phase that follows. Startup runs once; the
//! polling loop then repeats pass after pass until the terminate flag is seen.

use vstd::prelude::*;
use vstd::string::StringExecFns;
use crate::bus::{Command, DeviceType, LogicalAddress, DEVICE_ROLE, DISPLAY, OWN_ADDRESS};
use crate::effect::{answers, Effect, Event, EventView, Failure, Notice, Outcome};
use crate::trigger::{signal_after, Signal, Trigger};

verus! {

/// Seconds the loop sleeps between two passes.
pub const POLL_INTERVAL_SECS: u64 = 1;

/// Where the controller stands. Each phase waits for the answer to one
/// effect, the one `pending_effect` gives for it.
#[derive(Clone, Copy, Debug, PartialEq, Eq, Structural)]
pub enum Phase {
    /// Startup: the start is being reported.
    AnnouncingStart,
    /// Startup: the name to advertise is being resolved.
    ResolvingIdentity,
    /// Startup: the name is being reported.
    AnnouncingIdentity,
    /// Startup: the bus connection is being opened.
    Opening,
    /// Startup: this signal is being bound to its flag.
    Registering(Signal),
    /// Startup: the bus is being asked for the active source.
    ReadingInitialSource,
    /// Startup: the active source is being reported.
    AnnouncingSource(LogicalAddress),
    /// Startup: the end of startup is being reported.
    AnnouncingReady,
    /// Loop: the power-on flag is being read. Every pass starts here.
    PollingPowerOn,
    /// Loop: the power-on trigger is being reported.
    AnnouncingPowerOn,
    /// Loop: the power-on flag is being reset.
    ClearingPowerOn,
    /// Loop: the power-on command is being sent.
    SendingPowerOn,
    /// Loop: the refusal of the power-on command is being reported.
    ReportingPowerOnFailure,
    /// Loop: the power-off flag is being read.
    PollingPowerOff,
    /// Loop: the power-off trigger is being reported.
    AnnouncingPowerOff,
    /// Loop: the power-off flag is being reset.
    ClearingPowerOff,
    /// Loop: the bus is being asked for the active source.
    QueryingSource,
    /// Loop: the standby command is being sent.
    SendingStandby,
    /// Loop: the refusal of the standby command is being reported.
    ReportingStandbyFailure,
    /// Loop: the dropped power-off trigger is being reported.
    AnnouncingIgnored,
    /// Loop: the terminate flag is being read.
    PollingTerminate,
    /// Loop: the end of the loop is being reported.
    AnnouncingTermination,
    /// Loop: the pass is over and the loop sleeps.
    Sleeping,
    /// The controller is done; the process ends with this outcome.
    Stopped(Outcome),
}

/// The effect the host has to perform while the controller stands at `phase`.
pub open spec fn pending_effect(phase: Phase) -> Effect {
    match phase {
        Phase::AnnouncingStart => Effect::Note(Notice::Starting),
        Phase::ResolvingIdentity => Effect::ResolveIdentity,
        Phase::AnnouncingIdentity => Effect::Note(Notice::Identity),
        Phase::Opening => Effect::Open,
        Phase::Registering(signal) => Effect::Register(signal),
        Phase::ReadingInitialSource => Effect::QueryActiveSource,
        Phase::AnnouncingSource(address) => Effect::Note(Notice::ActiveSource(address)),
        Phase::AnnouncingReady => Effect::Note(Notice::Waiting),
        Phase::PollingPowerOn => Effect::ReadFlag(Trigger::PowerOn),
        Phase::AnnouncingPowerOn => Effect::Note(Notice::PoweringOn),
        Phase::ClearingPowerOn => Effect::ClearFlag(Trigger::PowerOn),
        Phase::SendingPowerOn => Effect::Send(Command::PowerOn(DISPLAY)),
        Phase::ReportingPowerOnFailure => Effect::Note(
            Notice::CommandFailed(Command::PowerOn(DISPLAY)),
        ),
        Phase::PollingPowerOff => Effect::ReadFlag(Trigger::PowerOff),
        Phase::AnnouncingPowerOff => Effect::Note(Notice::PoweringOff),
        Phase::ClearingPowerOff => Effect::ClearFlag(Trigger::PowerOff),
        Phase::QueryingSource => Effect::QueryActiveSource,
        Phase::SendingStandby => Effect::Send(Command::Standby(DISPLAY)),
        Phase::ReportingStandbyFailure => Effect::Note(
            Notice::CommandFailed(Command::Standby(DISPLAY)),
        ),
        Phase::AnnouncingIgnored => Effect::Note(Notice::Ignored),
        Phase::PollingTerminate => Effect::ReadFlag(Trigger::Terminate),
        Phase::AnnouncingTermination => Effect::Note(Notice::Terminating),
        Phase::Sleeping => Effect::Sleep(POLL_INTERVAL_SECS),
        Phase::Stopped(outcome) => Effect::Exit(outcome),
    }
}

/// Whether `event` answers the effect pending at `phase`.
pub open spec fn expects(phase: Phase, event: EventView) -> bool {
    answers(pending_effect(phase), event)
}

/// The phase that follows `phase` once `event` has answered its effect. An
/// event that does not answer the effect leaves the phase as it is.
pub open spec fn next_phase(phase: Phase, event: EventView) -> Phase {
    match (phase, event) {
        (Phase::AnnouncingStart, EventView::Done) => Phase::ResolvingIdentity,
        (Phase::ResolvingIdentity, EventView::Identity(Some(_))) => Phase::AnnouncingIdentity,
        (Phase::ResolvingIdentity, EventView::Identity(None)) => Phase::Stopped(
            Outcome::Failed(Failure::IdentityNotUnicode),
        ),
        (Phase::AnnouncingIdentity, EventView::Done) => Phase::Opening,
        (Phase::Opening, EventView::Opened(true)) => Phase::Registering(Signal::Usr1),
        (Phase::Opening, EventView::Opened(false)) => Phase::Stopped(
            Outcome::Failed(Failure::ConnectionFailed),
        ),
        (Phase::Registering(signal), EventView::Registered(true)) => match signal_after(signal) {
            Some(following) => Phase::Registering(following),
            None => Phase::ReadingInitialSource,
        },
        (Phase::Registering(signal), EventView::Registered(false)) => Phase::Stopped(
            Outcome::Failed(Failure::RegistrationFailed(signal)),
        ),
        (Phase::ReadingInitialSource, EventView::ActiveSource(address)) => Phase::AnnouncingSource(
            address,
        ),
        (Phase::AnnouncingSource(_), EventView::Done) => Phase::AnnouncingReady,
        (Phase::AnnouncingReady, EventView::Done) => Phase::PollingPowerOn,
        (Phase::PollingPowerOn, EventView::Flag(true)) => Phase::AnnouncingPowerOn,
        (Phase::PollingPowerOn, EventView::Flag(false)) => Phase::PollingPowerOff,
        (Phase::AnnouncingPowerOn, EventView::Done) => Phase::ClearingPowerOn,
        (Phase::ClearingPowerOn, EventView::Done) => Phase::SendingPowerOn,
        (Phase::SendingPowerOn, EventView::Sent(true)) => Phase::PollingPowerOff,
        (Phase::SendingPowerOn, EventView::Sent(false)) => Phase::ReportingPowerOnFailure,
        (Phase::ReportingPowerOnFailure, EventView::Done) => Phase::PollingPowerOff,
        (Phase::PollingPowerOff, EventView::Flag(true)) => Phase::AnnouncingPowerOff,
        (Phase::PollingPowerOff, EventView::Flag(false)) => Phase::PollingTerminate,
        (Phase::AnnouncingPowerOff, EventView::Done) => Phase::ClearingPowerOff,
        (Phase::ClearingPowerOff, EventView::Done) => Phase::QueryingSource,
        (Phase::QueryingSource, EventView::ActiveSource(address)) => if address == OWN_ADDRESS {
            Phase::SendingStandby
        } else {
            Phase::AnnouncingIgnored
        },
        (Phase::SendingStandby, EventView::Sent(true)) => Phase::PollingTerminate,
        (Phase::SendingStandby, EventView::Sent(false)) => Phase::ReportingStandbyFailure,
        (Phase::ReportingStandbyFailure, EventView::Done) => Phase::PollingTerminate,
        (Phase::AnnouncingIgnored, EventView::Done) => Phase::PollingTerminate,
        (Phase::PollingTerminate, EventView::Flag(true)) => Phase::AnnouncingTermination,
        (Phase::PollingTerminate, EventView::Flag(false)) => Phase::Sleeping,
        (Phase::AnnouncingTermination, EventView::Done) => Phase::Stopped(Outcome::Clean),
        (Phase::Sleeping, EventView::Done) => Phase::PollingPowerOn,
        _ => phase,
    }
}

/// Settings the bus connection is opened with.
#[derive(Debug, PartialEq, Eq)]
pub struct ConnectionSettings {
    /// Path or name of the CEC adapter.
    pub port: String,
    /// Name advertised on the bus, not shortened by the controller.
    pub device_name: String,
    /// Role announced on the bus.
    pub device_type: DeviceType,
}

/// The controller as contracts see it.
pub struct ControllerView {
    pub phase: Phase,
    pub port: Seq<char>,
    pub device_name: Seq<char>,
}

/// The controller after `event` answered its pending effect: the phase moves
/// on, and the answer to the identity lookup becomes the advertised name.
pub open spec fn after_event(controller: ControllerView, event: EventView) -> ControllerView {
    ControllerView {
        phase: next_phase(controller.phase, event),
        port: controller.port,
        device_name: match (controller.phase, event) {
            (Phase::ResolvingIdentity, EventView::Identity(Some(name))) => name,
            _ => controller.device_name,
        },
    }
}

/// The controller `start` moved to `phase`, all else unchanged.
pub open spec fn moved_to(start: ControllerView, phase: Phase) -> ControllerView {
    ControllerView { phase, ..start }
}

/// The controller before anything has happened, for the adapter at `port`.
pub open spec fn initial(port: Seq<char>) -> ControllerView {
    ControllerView { phase: Phase::AnnouncingStart, port, device_name: Seq::empty() }
}

/// The power-state controller of one process.
pub struct Controller {
    phase: Phase,
    port: String,
    device_name: String,
}

impl View for Controller {
    type V = ControllerView;

    closed spec fn view(&self) -> ControllerView {
        ControllerView { phase: self.phase, port: self.port@, device_name: self.device_name@ }
    }
}

impl Controller {
    /// A controller that has not started yet, for the adapter at `port`.
    pub fn new(port: String) -> (controller: Controller)
        ensures
            controller@ == initial(port@),
    {
        Controller { phase: Phase::AnnouncingStart, port, device_name: String::new() }
    }

    /// The phase the controller stands at.
    pub fn phase(&self) -> (phase: Phase)
        ensures
            phase == self@.phase,
    {
        self.phase
    }

    /// The effect the host has to perform now.
    pub fn pending(&self) -> (effect: Effect)
        ensures
            effect == pending_effect(self@.phase),
    {
        match self.phase {
            Phase::AnnouncingStart => Effect::Note(Notice::Starting),
            Phase::ResolvingIdentity => Effect::ResolveIdentity,
            Phase::AnnouncingIdentity => Effect::Note(Notice::Identity),
            Phase::Opening => Effect::Open,
            Phase::Registering(signal) => Effect::Register(signal),
            Phase::ReadingInitialSource => Effect::QueryActiveSource,
            Phase::AnnouncingSource(address) => Effect::Note(Notice::ActiveSource(address)),
            Phase::AnnouncingReady => Effect::Note(Notice::Waiting),
            Phase::PollingPowerOn => Effect::ReadFlag(Trigger::PowerOn),
            Phase::AnnouncingPowerOn => Effect::Note(Notice::PoweringOn),
            Phase::ClearingPowerOn => Effect::ClearFlag(Trigger::PowerOn),
            Phase::SendingPowerOn => Effect::Send(Command::PowerOn(DISPLAY)),
            Phase::ReportingPowerOnFailure => Effect::Note(
                Notice::CommandFailed(Command::PowerOn(DISPLAY)),
            ),
            Phase::PollingPowerOff => Effect::ReadFlag(Trigger::PowerOff),
            Phase::AnnouncingPowerOff => Effect::Note(Notice::PoweringOff),
            Phase::ClearingPowerOff => Effect::ClearFlag(Trigger::PowerOff),
            Phase::QueryingSource => Effect::QueryActiveSource,
            Phase::SendingStandby => Effect::Send(Command::Standby(DISPLAY)),
            Phase::ReportingStandbyFailure => Effect::Note(
                Notice::CommandFailed(Command::Standby(DISPLAY)),
            ),
            Phase::AnnouncingIgnored => Effect::Note(Notice::Ignored),
            Phase::PollingTerminate => Effect::ReadFlag(Trigger::Terminate),
            Phase::AnnouncingTermination => Effect::Note(Notice::Terminating),
            Phase::Sleeping => Effect::Sleep(POLL_INTERVAL_SECS),
            Phase::Stopped(outcome) => Effect::Exit(outcome),
        }
    }

    /// Whether `event` answers the pending effect, so that `step` will take it.
    pub fn expects(&self, event: &Event) -> (fits: bool)
        ensures
            fits == expects(self@.phase, event@),
    {
        self.pending().is_answered_by(event)
    }

    /// How the process ends, once the controller has stopped.
    pub fn outcome(&self) -> (outcome: Option<Outcome>)
        ensures
            outcome == match self@.phase {
                Phase::Stopped(reached) => Some(reached),
                _ => None,
            },
    {
        match self.phase {
            Phase::Stopped(reached) => Some(reached),
            _ => None,
        }
    }

    /// The settings to open the bus connection with: the adapter the
    /// controller was made for, the advertised name in full, and this
    /// device's role.
    pub fn connection_settings(&self) -> (settings: ConnectionSettings)
        ensures
            settings.port@ == self@.port,
            settings.device_name@ == self@.device_name,
            settings.device_type == DEVICE_ROLE,
    {
        ConnectionSettings {
            port: self.port.clone(),
            device_name: self.device_name.clone(),
            device_type: DEVICE_ROLE,
        }
    }

    /// Takes the host's answer to the pending effect and moves on. An event
    /// that does not answer the pending effect is not taken: the controller
    /// stays as it is and the result is `false`.
    pub fn step(&mut self, event: Event) -> (taken: bool)
        ensures
            taken == expects(old(self)@.phase, event@),
            final(self)@ == after_event(old(self)@, event@),
    {
        if !self.expects(&event) {
            return false;
        }
        match self.phase {
            Phase::AnnouncingStart => {
                self.phase = Phase::ResolvingIdentity;
            },
            Phase::ResolvingIdentity => match event {
                Event::Identity(Some(name)) => {
                    self.device_name = name;
                    self.phase = Phase::AnnouncingIdentity;
                },
                _ => {
                    self.phase = Phase::Stopped(Outcome::Failed(Failure::IdentityNotUnicode));
                },
            },
            Phase::AnnouncingIdentity => {
                self.phase = Phase::Opening;
            },
            Phase::Opening => match event {
                Event::Opened(true) => {
                    self.phase = Phase::Registering(Signal::first());
                },
                _ => {
                    self.phase = Phase::Stopped(Outcome::Failed(Failure::ConnectionFailed));
                },
            },
            Phase::Registering(signal) => match event {
                Event::Registered(true) => match signal.next() {
                    Some(following) => {
                        self.phase = Phase::Registering(following);
                    },
                    None => {
                        self.phase = Phase::ReadingInitialSource;
                    },
                },
                _ => {
                    self.phase = Phase::Stopped(
                        Outcome::Failed(Failure::RegistrationFailed(signal)),
                    );
                },
            },
            Phase::ReadingInitialSource => match event {
                Event::ActiveSource(address) => {
                    self.phase = Phase::AnnouncingSource(address);
                },
                _ => {},
            },
            Phase::AnnouncingSource(_) => {
                self.phase = Phase::AnnouncingReady;
            },
            Phase::AnnouncingReady => {
                self.phase = Phase::PollingPowerOn;
            },
            Phase::PollingPowerOn => match event {
                Event::Flag(true) => {
                    self.phase = Phase::AnnouncingPowerOn;
                },
                _ => {
                    self.phase = Phase::PollingPowerOff;
                },
            },
            Phase::AnnouncingPowerOn => {
                self.phase = Phase::ClearingPowerOn;
            },
            Phase::ClearingPowerOn => {
                self.phase = Phase::SendingPowerOn;
            },
            Phase::SendingPowerOn => match event {
                Event::Sent(true) => {
                    self.phase = Phase::PollingPowerOff;
                },
                _ => {
                    self.phase = Phase::ReportingPowerOnFailure;
                },
            },
            Phase::ReportingPowerOnFailure => {
                self.phase = Phase::PollingPowerOff;
            },
            Phase::PollingPowerOff => match event {
                Event::Flag(true) => {
                    self.phase = Phase::AnnouncingPowerOff;
                },
                _ => {
                    self.phase = Phase::PollingTerminate;
                },
            },
            Phase::AnnouncingPowerOff => {
                self.phase = Phase::ClearingPowerOff;
            },
            Phase::ClearingPowerOff => {
                self.phase = Phase::QueryingSource;
            },
            Phase::QueryingSource => match event {
                Event::ActiveSource(address) => {
                    if address.is_own() {
                        self.phase = Phase::SendingStandby;
                    } else {
                        self.phase = Phase::AnnouncingIgnored;
                    }
                },
                _ => {},
            },
            Phase::SendingStandby => match event {
                Event::Sent(true) => {
                    self.phase = Phase::PollingTerminate;
                },
                _ => {
                    self.phase = Phase::ReportingStandbyFailure;
                },
            },
            Phase::ReportingStandbyFailure => {
                self.phase = Phase::PollingTerminate;
            },
            Phase::AnnouncingIgnored => {
                self.phase = Phase::PollingTerminate;
            },
            Phase::PollingTerminate => match event {
                Event::Flag(true) => {
                    self.phase = Phase::AnnouncingTermination;
                },
                _ => {
                    self.phase = Phase::Sleeping;
                },
            },
            Phase::AnnouncingTermination => {
                self.phase = Phase::Stopped(Outcome::Clean);
            },
            Phase::Sleeping => {
                self.phase = Phase::PollingPowerOn;
            },
            Phase::Stopped(_) => {},
        }
        true
    }
}

} // verus!
