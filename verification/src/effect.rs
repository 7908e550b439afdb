//! What the controller asks its host to do, and what the host reports back.
//!
//! The controller performs no work on the outside world itself. It names one
//! effect at a time; the host performs it and answers with an event.

use vstd::prelude::*;
use crate::bus::{Command, LogicalAddress};
use crate::identity::name_view;
use crate::severity::Severity;
use crate::trigger::{Signal, Trigger};

verus! {

/// Why startup was given up.
#[derive(Clone, Copy, Debug, PartialEq, Eq, Structural)]
pub enum Failure {
    /// The host's name is not valid Unicode.
    IdentityNotUnicode,
    /// The connection to the bus could not be opened.
    ConnectionFailed,
    /// This signal could not be bound to its flag.
    RegistrationFailed(Signal),
}

/// How the process ends.
#[derive(Clone, Copy, Debug, PartialEq, Eq, Structural)]
pub enum Outcome {
    /// The terminate trigger was observed; the process ends with success.
    Clean,
    /// Startup failed; the process ends with an error.
    Failed(Failure),
}

/// A diagnostic the controller wants reported.
#[derive(Clone, Copy, Debug, PartialEq, Eq, Structural)]
pub enum Notice {
    /// The daemon started and is about to open the bus.
    Starting,
    /// The name to advertise is known.
    Identity,
    /// The bus named this participant as active source.
    ActiveSource(LogicalAddress),
    /// Startup is complete; the loop waits for triggers.
    Waiting,
    /// A power-on trigger is being acted upon.
    PoweringOn,
    /// A power-off trigger is being acted upon.
    PoweringOff,
    /// A power-off trigger was dropped: this device is not the active source.
    Ignored,
    /// The bus did not accept this command.
    CommandFailed(Command),
    /// The terminate trigger was observed.
    Terminating,
}

/// Severity at which a notice is reported: a refused command is an error,
/// everything else is information.
pub open spec fn notice_severity(notice: Notice) -> Severity {
    match notice {
        Notice::CommandFailed(_) => Severity::Error,
        _ => Severity::Info,
    }
}

impl Notice {
    /// Severity at which this notice is reported.
    pub fn severity(self) -> (severity: Severity)
        ensures
            severity == notice_severity(self),
    {
        match self {
            Notice::CommandFailed(_) => Severity::Error,
            _ => Severity::Info,
        }
    }
}

/// One piece of work for the host.
#[derive(Clone, Copy, Debug, PartialEq, Eq, Structural)]
pub enum Effect {
    /// Report a diagnostic.
    Note(Notice),
    /// Resolve the name to advertise.
    ResolveIdentity,
    /// Open the bus connection with the controller's connection settings.
    Open,
    /// Bind the signal to the flag of its trigger.
    Register(Signal),
    /// Ask the bus who the active source is.
    QueryActiveSource,
    /// Read the flag of the trigger.
    ReadFlag(Trigger),
    /// Reset the flag of the trigger.
    ClearFlag(Trigger),
    /// Send the command on the bus.
    Send(Command),
    /// Suspend for this many seconds.
    Sleep(u64),
    /// End the process.
    Exit(Outcome),
}

/// The host's answer to an effect.
#[derive(Debug, PartialEq, Eq)]
pub enum Event {
    /// The effect was performed; it has nothing to report.
    Done,
    /// The name to advertise, or `None` if the host's name is not Unicode.
    Identity(Option<String>),
    /// Whether the connection is open.
    Opened(bool),
    /// Whether the signal is bound.
    Registered(bool),
    /// The participant the bus named as active source.
    ActiveSource(LogicalAddress),
    /// Whether the flag was raised.
    Flag(bool),
    /// Whether the bus accepted the command.
    Sent(bool),
}

/// An event with its name as a sequence of characters.
pub enum EventView {
    Done,
    Identity(Option<Seq<char>>),
    Opened(bool),
    Registered(bool),
    ActiveSource(LogicalAddress),
    Flag(bool),
    Sent(bool),
}

impl View for Event {
    type V = EventView;

    open spec fn view(&self) -> EventView {
        match self {
            Event::Done => EventView::Done,
            Event::Identity(name) => EventView::Identity(name_view(*name)),
            Event::Opened(open) => EventView::Opened(*open),
            Event::Registered(bound) => EventView::Registered(*bound),
            Event::ActiveSource(address) => EventView::ActiveSource(*address),
            Event::Flag(raised) => EventView::Flag(*raised),
            Event::Sent(accepted) => EventView::Sent(*accepted),
        }
    }
}

impl Clone for Event {
    fn clone(&self) -> (copy: Event)
        ensures
            copy@ == self@,
    {
        match self {
            Event::Done => Event::Done,
            Event::Identity(Some(name)) => Event::Identity(Some(name.clone())),
            Event::Identity(None) => Event::Identity(None),
            Event::Opened(open) => Event::Opened(*open),
            Event::Registered(bound) => Event::Registered(*bound),
            Event::ActiveSource(address) => Event::ActiveSource(*address),
            Event::Flag(raised) => Event::Flag(*raised),
            Event::Sent(accepted) => Event::Sent(*accepted),
        }
    }
}

/// Whether `event` is the kind of answer that `effect` calls for. Nothing
/// answers `Exit`.
pub open spec fn answers(effect: Effect, event: EventView) -> bool {
    match effect {
        Effect::Note(_) | Effect::ClearFlag(_) | Effect::Sleep(_) => event is Done,
        Effect::ResolveIdentity => event is Identity,
        Effect::Open => event is Opened,
        Effect::Register(_) => event is Registered,
        Effect::QueryActiveSource => event is ActiveSource,
        Effect::ReadFlag(_) => event is Flag,
        Effect::Send(_) => event is Sent,
        Effect::Exit(_) => false,
    }
}

impl Effect {
    /// Whether `event` is the kind of answer this effect calls for.
    pub fn is_answered_by(&self, event: &Event) -> (fits: bool)
        ensures
            fits == answers(*self, event@),
    {
        match self {
            Effect::Note(_) | Effect::ClearFlag(_) | Effect::Sleep(_) => matches!(event, Event::Done),
            Effect::ResolveIdentity => matches!(event, Event::Identity(_)),
            Effect::Open => matches!(event, Event::Opened(_)),
            Effect::Register(_) => matches!(event, Event::Registered(_)),
            Effect::QueryActiveSource => matches!(event, Event::ActiveSource(_)),
            Effect::ReadFlag(_) => matches!(event, Event::Flag(_)),
            Effect::Send(_) => matches!(event, Event::Sent(_)),
            Effect::Exit(_) => false,
        }
    }
}

} // verus!
