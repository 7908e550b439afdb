use cec_dpms::bus::{Command, DeviceType, LogicalAddress};
use cec_dpms::controller::{Controller, Phase, POLL_INTERVAL_SECS};
use cec_dpms::effect::{Effect, Event, Failure, Notice, Outcome};
use cec_dpms::trigger::{PendingFlags, Signal, Trigger};

/// A host made of plain values: it answers every effect from its fields and
/// keeps a record of what it was asked to do.
struct Host {
    flags: PendingFlags,
    identity: Option<String>,
    opens: bool,
    refuses: Option<Signal>,
    active_source: LogicalAddress,
    bus_accepts: bool,
    arrivals: Vec<Vec<Trigger>>,
    record: Vec<Effect>,
}

impl Host {
    fn new() -> Host {
        Host {
            flags: PendingFlags::new(),
            identity: Some("living-room".to_string()),
            opens: true,
            refuses: None,
            active_source: LogicalAddress::Tv,
            bus_accepts: true,
            arrivals: Vec::new(),
            record: Vec::new(),
        }
    }

    fn perform(&mut self, effect: Effect) -> Event {
        self.record.push(effect);
        match effect {
            Effect::Note(_) => Event::Done,
            Effect::ResolveIdentity => Event::Identity(self.identity.clone()),
            Effect::Open => Event::Opened(self.opens),
            Effect::Register(signal) => Event::Registered(self.refuses != Some(signal)),
            Effect::QueryActiveSource => Event::ActiveSource(self.active_source),
            Effect::ReadFlag(trigger) => Event::Flag(self.flags.is_raised(trigger)),
            Effect::ClearFlag(trigger) => {
                self.flags.clear(trigger);
                Event::Done
            }
            Effect::Send(_) => Event::Sent(self.bus_accepts),
            Effect::Sleep(_) => {
                if !self.arrivals.is_empty() {
                    for trigger in self.arrivals.remove(0) {
                        self.flags.raise(trigger);
                    }
                }
                Event::Done
            }
            Effect::Exit(_) => unreachable!(),
        }
    }

    /// Performs effects until the controller has stopped or `steps` effects
    /// were performed.
    fn drive(&mut self, controller: &mut Controller, steps: usize) {
        for _ in 0..steps {
            let effect = controller.pending();
            if matches!(effect, Effect::Exit(_)) {
                return;
            }
            let event = self.perform(effect);
            assert!(controller.expects(&event));
            assert!(controller.step(event));
        }
    }

    /// Performs effects until the controller stands at `phase` or has stopped.
    fn drive_to(&mut self, controller: &mut Controller, phase: Phase) {
        for _ in 0..1000 {
            if controller.phase() == phase || controller.outcome().is_some() {
                return;
            }
            self.drive(controller, 1);
        }
        panic!("the controller never reached {:?}", phase);
    }

    /// Performs one whole pass of the loop from its first read.
    fn pass(&mut self, controller: &mut Controller) {
        assert_eq!(controller.phase(), Phase::PollingPowerOn);
        self.drive(controller, 1);
        self.drive_to(controller, Phase::PollingPowerOn);
    }

    fn commands(&self) -> Vec<Command> {
        let mut sent = Vec::new();
        for effect in &self.record {
            if let Effect::Send(command) = effect {
                sent.push(*command);
            }
        }
        sent
    }

    fn count(&self, wanted: Effect) -> usize {
        self.record.iter().filter(|effect| **effect == wanted).count()
    }
}

fn started(host: &mut Host) -> Controller {
    let mut controller = Controller::new("/dev/cec0".to_string());
    host.drive_to(&mut controller, Phase::PollingPowerOn);
    assert_eq!(controller.phase(), Phase::PollingPowerOn);
    host.record.clear();
    controller
}

#[test]
fn power_on_sends_one_power_on_command() {
    let sources = [
        LogicalAddress::Unknown,
        LogicalAddress::Tv,
        LogicalAddress::Playbackdevice1,
        LogicalAddress::Audiosystem,
        LogicalAddress::Unregistered,
    ];
    for source in sources {
        let mut host = Host::new();
        host.active_source = source;
        let mut controller = started(&mut host);
        host.flags.raise(Trigger::PowerOn);
        host.pass(&mut controller);
        assert_eq!(host.commands(), vec![Command::PowerOn(LogicalAddress::Tv)]);
        assert_eq!(host.count(Effect::Send(Command::Standby(LogicalAddress::Tv))), 0);
        assert_eq!(host.count(Effect::QueryActiveSource), 0);
        assert!(!host.flags.is_raised(Trigger::PowerOn));
    }
}

#[test]
fn power_off_as_active_source_sends_one_standby() {
    let mut host = Host::new();
    host.active_source = LogicalAddress::Playbackdevice1;
    let mut controller = started(&mut host);
    host.flags.raise(Trigger::PowerOff);
    host.pass(&mut controller);
    assert_eq!(host.commands(), vec![Command::Standby(LogicalAddress::Tv)]);
    assert_eq!(host.count(Effect::Note(Notice::Ignored)), 0);
    assert!(!host.flags.is_raised(Trigger::PowerOff));
}

#[test]
fn power_off_as_bystander_is_ignored() {
    let sources = [
        LogicalAddress::Unknown,
        LogicalAddress::Tv,
        LogicalAddress::Recordingdevice1,
        LogicalAddress::Playbackdevice2,
        LogicalAddress::Playbackdevice3,
        LogicalAddress::Unregistered,
    ];
    for source in sources {
        let mut host = Host::new();
        host.active_source = source;
        let mut controller = started(&mut host);
        host.flags.raise(Trigger::PowerOff);
        host.pass(&mut controller);
        assert_eq!(host.commands(), Vec::<Command>::new());
        assert_eq!(host.count(Effect::Note(Notice::Ignored)), 1);
        assert_eq!(host.count(Effect::QueryActiveSource), 1);
        assert!(!host.flags.is_raised(Trigger::PowerOff));
    }
}

#[test]
fn terminate_exits_with_success() {
    let mut host = Host::new();
    let mut controller = started(&mut host);
    host.flags.raise(Trigger::Terminate);
    host.drive(&mut controller, 100);
    assert_eq!(controller.phase(), Phase::Stopped(Outcome::Clean));
    assert_eq!(controller.outcome(), Some(Outcome::Clean));
    assert_eq!(controller.pending(), Effect::Exit(Outcome::Clean));
    assert_eq!(
        host.record,
        vec![
            Effect::ReadFlag(Trigger::PowerOn),
            Effect::ReadFlag(Trigger::PowerOff),
            Effect::ReadFlag(Trigger::Terminate),
            Effect::Note(Notice::Terminating),
        ]
    );
    assert!(host.flags.is_raised(Trigger::Terminate));

    let answers = [
        Event::Done,
        Event::Flag(true),
        Event::Sent(true),
        Event::ActiveSource(LogicalAddress::Playbackdevice1),
        Event::Opened(true),
        Event::Registered(true),
        Event::Identity(None),
    ];
    for event in answers {
        assert!(!controller.expects(&event));
        assert!(!controller.step(event));
        assert_eq!(controller.pending(), Effect::Exit(Outcome::Clean));
    }
}

#[test]
fn failed_open_exits_before_binding() {
    let mut host = Host::new();
    host.opens = false;
    let mut controller = Controller::new("/dev/cec0".to_string());
    host.drive(&mut controller, 100);
    let failed = Outcome::Failed(Failure::ConnectionFailed);
    assert_eq!(controller.outcome(), Some(failed));
    assert_eq!(controller.pending(), Effect::Exit(failed));
    assert_eq!(
        host.record,
        vec![
            Effect::Note(Notice::Starting),
            Effect::ResolveIdentity,
            Effect::Note(Notice::Identity),
            Effect::Open,
        ]
    );
}

#[test]
fn startup_runs_in_order() {
    let mut host = Host::new();
    host.active_source = LogicalAddress::Audiosystem;
    let mut controller = Controller::new("RPI".to_string());
    assert_eq!(controller.phase(), Phase::AnnouncingStart);
    assert_eq!(controller.outcome(), None);
    host.drive_to(&mut controller, Phase::PollingPowerOn);
    assert_eq!(
        host.record,
        vec![
            Effect::Note(Notice::Starting),
            Effect::ResolveIdentity,
            Effect::Note(Notice::Identity),
            Effect::Open,
            Effect::Register(Signal::Usr1),
            Effect::Register(Signal::Usr2),
            Effect::Register(Signal::Term),
            Effect::Register(Signal::Int),
            Effect::QueryActiveSource,
            Effect::Note(Notice::ActiveSource(LogicalAddress::Audiosystem)),
            Effect::Note(Notice::Waiting),
        ]
    );
    assert_eq!(controller.pending(), Effect::ReadFlag(Trigger::PowerOn));
}

#[test]
fn connection_settings_carry_port_name_and_role() {
    let mut host = Host::new();
    host.identity = Some("a-host-name-longer-than-fourteen-bytes".to_string());
    let mut controller = Controller::new("/dev/ttyACM0".to_string());
    let before = controller.connection_settings();
    assert_eq!(before.port, "/dev/ttyACM0");
    assert_eq!(before.device_name, "");
    host.drive_to(&mut controller, Phase::Opening);
    assert_eq!(controller.pending(), Effect::Open);
    let settings = controller.connection_settings();
    assert_eq!(settings.port, "/dev/ttyACM0");
    assert_eq!(settings.device_name, "a-host-name-longer-than-fourteen-bytes");
    assert_eq!(settings.device_type, DeviceType::PlaybackDevice);
}

#[test]
fn identity_that_is_not_unicode_stops_startup() {
    let mut host = Host::new();
    host.identity = None;
    let mut controller = Controller::new("/dev/cec0".to_string());
    host.drive(&mut controller, 100);
    assert_eq!(controller.outcome(), Some(Outcome::Failed(Failure::IdentityNotUnicode)));
    assert_eq!(host.record, vec![Effect::Note(Notice::Starting), Effect::ResolveIdentity]);
}

#[test]
fn fallback_identity_does_not_stop_startup() {
    let mut host = Host::new();
    host.identity = cec_dpms::identity::osd_name(cec_dpms::identity::HostLookup::Unavailable);
    let mut controller = Controller::new("/dev/cec0".to_string());
    host.drive_to(&mut controller, Phase::PollingPowerOn);
    assert_eq!(controller.outcome(), None);
    assert_eq!(controller.phase(), Phase::PollingPowerOn);
    assert_eq!(controller.connection_settings().device_name, "dummy");
}

#[test]
fn refused_binding_stops_startup_at_that_signal() {
    let cases = [
        (Signal::Usr1, 1),
        (Signal::Usr2, 2),
        (Signal::Term, 3),
        (Signal::Int, 4),
    ];
    for (signal, attempts) in cases {
        let mut host = Host::new();
        host.refuses = Some(signal);
        let mut controller = Controller::new("/dev/cec0".to_string());
        host.drive(&mut controller, 100);
        assert_eq!(
            controller.outcome(),
            Some(Outcome::Failed(Failure::RegistrationFailed(signal)))
        );
        let bindings = host
            .record
            .iter()
            .filter(|effect| matches!(effect, Effect::Register(_)))
            .count();
        assert_eq!(bindings, attempts);
        assert_eq!(host.record.last(), Some(&Effect::Register(signal)));
        assert_eq!(host.count(Effect::QueryActiveSource), 0);
    }
}

#[test]
fn idle_pass_reads_three_flags_and_sleeps() {
    let mut host = Host::new();
    let mut controller = started(&mut host);
    host.pass(&mut controller);
    assert_eq!(
        host.record,
        vec![
            Effect::ReadFlag(Trigger::PowerOn),
            Effect::ReadFlag(Trigger::PowerOff),
            Effect::ReadFlag(Trigger::Terminate),
            Effect::Sleep(1),
        ]
    );
    assert_eq!(POLL_INTERVAL_SECS, 1);
    assert_eq!(controller.phase(), Phase::PollingPowerOn);
}

#[test]
fn all_flags_are_served_in_one_pass_in_order() {
    let mut host = Host::new();
    host.active_source = LogicalAddress::Playbackdevice1;
    let mut controller = started(&mut host);
    host.flags.raise(Trigger::Terminate);
    host.flags.raise(Trigger::PowerOff);
    host.flags.raise(Trigger::PowerOn);
    host.drive(&mut controller, 100);
    assert_eq!(
        host.record,
        vec![
            Effect::ReadFlag(Trigger::PowerOn),
            Effect::Note(Notice::PoweringOn),
            Effect::ClearFlag(Trigger::PowerOn),
            Effect::Send(Command::PowerOn(LogicalAddress::Tv)),
            Effect::ReadFlag(Trigger::PowerOff),
            Effect::Note(Notice::PoweringOff),
            Effect::ClearFlag(Trigger::PowerOff),
            Effect::QueryActiveSource,
            Effect::Send(Command::Standby(LogicalAddress::Tv)),
            Effect::ReadFlag(Trigger::Terminate),
            Effect::Note(Notice::Terminating),
        ]
    );
    assert_eq!(controller.outcome(), Some(Outcome::Clean));
}

#[test]
fn repeated_deliveries_during_sleep_act_once() {
    let mut host = Host::new();
    host.active_source = LogicalAddress::Playbackdevice1;
    host.arrivals = vec![vec![
        Trigger::PowerOn,
        Trigger::PowerOff,
        Trigger::PowerOn,
        Trigger::PowerOn,
        Trigger::PowerOff,
    ]];
    let mut controller = started(&mut host);
    host.pass(&mut controller);
    assert_eq!(host.commands(), Vec::<Command>::new());
    host.pass(&mut controller);
    assert_eq!(
        host.commands(),
        vec![Command::PowerOn(LogicalAddress::Tv), Command::Standby(LogicalAddress::Tv)]
    );
    host.pass(&mut controller);
    host.pass(&mut controller);
    assert_eq!(
        host.commands(),
        vec![Command::PowerOn(LogicalAddress::Tv), Command::Standby(LogicalAddress::Tv)]
    );
    assert_eq!(host.count(Effect::Sleep(1)), 4);
}

#[test]
fn refused_command_is_reported_and_not_retried() {
    let mut host = Host::new();
    host.bus_accepts = false;
    host.active_source = LogicalAddress::Playbackdevice1;
    let mut controller = started(&mut host);
    host.flags.raise(Trigger::PowerOn);
    host.flags.raise(Trigger::PowerOff);
    host.pass(&mut controller);
    let power_on = Command::PowerOn(LogicalAddress::Tv);
    let standby = Command::Standby(LogicalAddress::Tv);
    assert_eq!(host.commands(), vec![power_on, standby]);
    assert_eq!(host.count(Effect::Note(Notice::CommandFailed(power_on))), 1);
    assert_eq!(host.count(Effect::Note(Notice::CommandFailed(standby))), 1);
    assert_eq!(controller.phase(), Phase::PollingPowerOn);
    host.pass(&mut controller);
    assert_eq!(host.commands(), vec![power_on, standby]);
    assert_eq!(controller.outcome(), None);
}

#[test]
fn terminate_raised_during_sleep_stops_the_next_pass() {
    let mut host = Host::new();
    host.arrivals = vec![vec![], vec![Trigger::Terminate, Trigger::Terminate]];
    let mut controller = started(&mut host);
    host.drive(&mut controller, 100);
    assert_eq!(controller.outcome(), Some(Outcome::Clean));
    assert_eq!(host.count(Effect::Sleep(1)), 2);
    assert_eq!(host.count(Effect::ReadFlag(Trigger::Terminate)), 3);
    assert_eq!(host.commands(), Vec::<Command>::new());
}

#[test]
fn unexpected_event_is_not_taken() {
    let mut controller = Controller::new("/dev/cec0".to_string());
    assert_eq!(controller.pending(), Effect::Note(Notice::Starting));
    assert!(!controller.expects(&Event::Flag(true)));
    assert!(!controller.step(Event::Flag(true)));
    assert_eq!(controller.phase(), Phase::AnnouncingStart);
    assert!(controller.expects(&Event::Done));
    assert!(controller.step(Event::Done));
    assert_eq!(controller.phase(), Phase::ResolvingIdentity);
    assert!(!controller.step(Event::Done));
    assert!(!controller.step(Event::Opened(true)));
    assert_eq!(controller.phase(), Phase::ResolvingIdentity);
    assert_eq!(controller.connection_settings().device_name, "");
}

#[test]
fn every_effect_is_answered_by_its_own_kind_of_event() {
    let effects = [
        Effect::Note(Notice::Waiting),
        Effect::ResolveIdentity,
        Effect::Open,
        Effect::Register(Signal::Term),
        Effect::QueryActiveSource,
        Effect::ReadFlag(Trigger::PowerOff),
        Effect::ClearFlag(Trigger::PowerOff),
        Effect::Send(Command::Standby(LogicalAddress::Tv)),
        Effect::Sleep(1),
        Effect::Exit(Outcome::Clean),
    ];
    let events = [
        Event::Done,
        Event::Identity(Some("tv-box".to_string())),
        Event::Opened(false),
        Event::Registered(true),
        Event::ActiveSource(LogicalAddress::Tv),
        Event::Flag(false),
        Event::Sent(true),
    ];
    let fitting = [
        Some(0),
        Some(1),
        Some(2),
        Some(3),
        Some(4),
        Some(5),
        Some(0),
        Some(6),
        Some(0),
        None,
    ];
    for (effect, fit) in effects.iter().zip(fitting) {
        for (index, event) in events.iter().enumerate() {
            assert_eq!(effect.is_answered_by(event), fit == Some(index));
        }
    }
}

#[test]
fn cloned_event_equals_its_source() {
    let events = [
        Event::Done,
        Event::Identity(Some("tv-box".to_string())),
        Event::Identity(None),
        Event::Opened(true),
        Event::Registered(false),
        Event::ActiveSource(LogicalAddress::Freeuse),
        Event::Flag(true),
        Event::Sent(false),
    ];
    for event in events {
        assert_eq!(event.clone(), event);
    }
}
