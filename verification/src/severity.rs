//! Severities of the diagnostics the daemon emits.

use vstd::prelude::*;

verus! {

/// Severity of a diagnostic, from most to least urgent.
#[derive(Clone, Copy, Debug, PartialEq, Eq, Structural)]
pub enum Severity {
    Error,
    Warn,
    Info,
    Debug,
    Trace,
}

/// Log level the CEC transport attaches to the events it forwards.
#[derive(Clone, Copy, Debug, PartialEq, Eq, Structural)]
pub enum TransportLogLevel {
    Error,
    Warning,
    Notice,
    Traffic,
    Debug,
    All,
}

/// Severity at which a forwarded transport event is surfaced.
pub open spec fn transport_severity(level: TransportLogLevel) -> Severity {
    match level {
        TransportLogLevel::All => Severity::Trace,
        TransportLogLevel::Debug | TransportLogLevel::Traffic => Severity::Debug,
        TransportLogLevel::Notice => Severity::Info,
        TransportLogLevel::Warning => Severity::Warn,
        TransportLogLevel::Error => Severity::Error,
    }
}

impl TransportLogLevel {
    /// Maps the transport's level onto the daemon's own severities.
    pub fn severity(self) -> (s: Severity)
        ensures
            s == transport_severity(self),
    {
        match self {
            TransportLogLevel::All => Severity::Trace,
            TransportLogLevel::Debug => Severity::Debug,
            TransportLogLevel::Traffic => Severity::Debug,
            TransportLogLevel::Notice => Severity::Info,
            TransportLogLevel::Warning => Severity::Warn,
            TransportLogLevel::Error => Severity::Error,
        }
    }
}

/// What the transport reports to the daemon while the connection is open,
/// on threads of its own. Both are reported and otherwise without effect.
#[derive(Clone, Copy, Debug, PartialEq, Eq, Structural)]
pub enum Observation {
    /// A command from another participant arrived on the bus.
    CommandReceived,
    /// The transport logged an event of its own at this level.
    Log(TransportLogLevel),
}

/// Severity at which an observation is reported: an inbound command is
/// debugging detail, a log event keeps the urgency the transport gave it.
pub open spec fn observation_severity(observation: Observation) -> Severity {
    match observation {
        Observation::CommandReceived => Severity::Debug,
        Observation::Log(level) => transport_severity(level),
    }
}

impl Observation {
    /// Severity at which this observation is reported.
    pub fn severity(self) -> (s: Severity)
        ensures
            s == observation_severity(self),
    {
        match self {
            Observation::CommandReceived => Severity::Debug,
            Observation::Log(level) => level.severity(),
        }
    }
}

/// The least urgent severity the console shows: debugging detail only when
/// it was asked for, information otherwise.
pub open spec fn console_threshold_of(debug: bool) -> Severity {
    if debug {
        Severity::Debug
    } else {
        Severity::Info
    }
}

/// The least urgent severity the console shows for the given verbosity.
pub fn console_threshold(debug: bool) -> (threshold: Severity)
    ensures
        threshold == console_threshold_of(debug),
{
    if debug {
        Severity::Debug
    } else {
        Severity::Info
    }
}

} // verus!
