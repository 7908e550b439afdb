use cec_dpms::trigger::{PendingFlags, Signal, Trigger};

#[test]
fn new_flags_have_nothing_pending() {
    let flags = PendingFlags::new();
    assert!(!flags.is_raised(Trigger::PowerOn));
    assert!(!flags.is_raised(Trigger::PowerOff));
    assert!(!flags.is_raised(Trigger::Terminate));
    assert_eq!(flags, PendingFlags { power_on: false, power_off: false, terminate: false });
}

#[test]
fn raise_sets_only_its_own_flag() {
    let mut flags = PendingFlags::new();
    flags.raise(Trigger::PowerOff);
    assert_eq!(flags, PendingFlags { power_on: false, power_off: true, terminate: false });
    flags.raise(Trigger::Terminate);
    assert_eq!(flags, PendingFlags { power_on: false, power_off: true, terminate: true });
    flags.raise(Trigger::PowerOn);
    assert_eq!(flags, PendingFlags { power_on: true, power_off: true, terminate: true });
}

#[test]
fn raising_twice_is_raising_once() {
    for trigger in [Trigger::PowerOn, Trigger::PowerOff, Trigger::Terminate] {
        let mut once = PendingFlags::new();
        once.raise(trigger);
        let mut thrice = PendingFlags::new();
        thrice.raise(trigger);
        thrice.raise(trigger);
        thrice.raise(trigger);
        assert_eq!(once, thrice);
        assert!(thrice.is_raised(trigger));
        thrice.clear(trigger);
        assert_eq!(thrice, PendingFlags::new());
    }
}

#[test]
fn clear_resets_only_its_own_flag() {
    let mut flags = PendingFlags { power_on: true, power_off: true, terminate: true };
    flags.clear(Trigger::PowerOn);
    assert_eq!(flags, PendingFlags { power_on: false, power_off: true, terminate: true });
    flags.clear(Trigger::PowerOn);
    assert_eq!(flags, PendingFlags { power_on: false, power_off: true, terminate: true });
    flags.clear(Trigger::Terminate);
    assert_eq!(flags, PendingFlags { power_on: false, power_off: true, terminate: false });
}

#[test]
fn order_of_deliveries_does_not_matter() {
    let mut first = PendingFlags::new();
    for trigger in [Trigger::PowerOn, Trigger::Terminate, Trigger::PowerOn] {
        first.raise(trigger);
    }
    let mut second = PendingFlags::new();
    for trigger in [Trigger::Terminate, Trigger::Terminate, Trigger::PowerOn] {
        second.raise(trigger);
    }
    assert_eq!(first, second);
    assert!(!first.is_raised(Trigger::PowerOff));
}

#[test]
fn signals_stand_for_their_triggers() {
    assert_eq!(Signal::Usr1.trigger(), Trigger::PowerOn);
    assert_eq!(Signal::Usr2.trigger(), Trigger::PowerOff);
    assert_eq!(Signal::Term.trigger(), Trigger::Terminate);
    assert_eq!(Signal::Int.trigger(), Trigger::Terminate);
}

#[test]
fn signals_are_bound_in_order() {
    assert_eq!(Signal::first(), Signal::Usr1);
    assert_eq!(Signal::Usr1.next(), Some(Signal::Usr2));
    assert_eq!(Signal::Usr2.next(), Some(Signal::Term));
    assert_eq!(Signal::Term.next(), Some(Signal::Int));
    assert_eq!(Signal::Int.next(), None);
}
