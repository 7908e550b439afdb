//! External triggers and the pending flags they raise.
//!
//! A trigger is delivered to the process from outside, at any time. All the
//! delivery does is raise the flag of its kind; the control loop reads and
//! clears the flags at its own pace.

use vstd::prelude::*;

verus! {

/// What an external notification asks the daemon to do.
#[derive(Clone, Copy, Debug, PartialEq, Eq, Structural)]
pub enum Trigger {
    PowerOn,
    PowerOff,
    Terminate,
}

/// The process signals the daemon listens to.
#[derive(Clone, Copy, Debug, PartialEq, Eq, Structural)]
pub enum Signal {
    Usr1,
    Usr2,
    Term,
    Int,
}

/// The trigger a signal stands for.
pub open spec fn trigger_of(signal: Signal) -> Trigger {
    match signal {
        Signal::Usr1 => Trigger::PowerOn,
        Signal::Usr2 => Trigger::PowerOff,
        Signal::Term | Signal::Int => Trigger::Terminate,
    }
}

/// The signal bound after `signal`, if any is left.
pub open spec fn signal_after(signal: Signal) -> Option<Signal> {
    match signal {
        Signal::Usr1 => Some(Signal::Usr2),
        Signal::Usr2 => Some(Signal::Term),
        Signal::Term => Some(Signal::Int),
        Signal::Int => None,
    }
}

/// The signals in the order in which they are bound at startup.
pub open spec fn binding_order() -> Seq<Signal> {
    seq![Signal::Usr1, Signal::Usr2, Signal::Term, Signal::Int]
}

impl Signal {
    /// The first signal bound at startup.
    pub fn first() -> (signal: Signal)
        ensures
            signal == binding_order()[0],
    {
        Signal::Usr1
    }

    /// The trigger this signal stands for.
    pub fn trigger(self) -> (trigger: Trigger)
        ensures
            trigger == trigger_of(self),
    {
        match self {
            Signal::Usr1 => Trigger::PowerOn,
            Signal::Usr2 => Trigger::PowerOff,
            Signal::Term => Trigger::Terminate,
            Signal::Int => Trigger::Terminate,
        }
    }

    /// The signal to bind once this one is bound; `None` after the last.
    pub fn next(self) -> (following: Option<Signal>)
        ensures
            following == signal_after(self),
    {
        match self {
            Signal::Usr1 => Some(Signal::Usr2),
            Signal::Usr2 => Some(Signal::Term),
            Signal::Term => Some(Signal::Int),
            Signal::Int => None,
        }
    }
}

/// Walking `signal_after` from the first signal visits `binding_order`, all of
/// it and nothing else; the two termination signals stand for one trigger.
pub proof fn law_binding_order_is_walked()
    ensures
        binding_order().len() == 4,
        forall|i: int|
            0 <= i < 3 ==> signal_after(#[trigger] binding_order()[i]) == Some(
                binding_order()[i + 1],
            ),
        signal_after(binding_order()[3]) is None,
        forall|s: Signal| binding_order().contains(s),
        trigger_of(Signal::Term) == trigger_of(Signal::Int),
{
    assert(binding_order()[0] == Signal::Usr1);
    assert(binding_order()[1] == Signal::Usr2);
    assert(binding_order()[2] == Signal::Term);
    assert(binding_order()[3] == Signal::Int);
    assert forall|s: Signal| binding_order().contains(s) by {
        match s {
            Signal::Usr1 => assert(binding_order()[0] == s),
            Signal::Usr2 => assert(binding_order()[1] == s),
            Signal::Term => assert(binding_order()[2] == s),
            Signal::Int => assert(binding_order()[3] == s),
        }
    }
}

/// One pending flag per trigger kind.
///
/// A flag is `true` when at least one trigger of its kind was delivered and
/// has not been drained yet. How many were delivered is not recorded.
#[derive(Clone, Copy, Debug, PartialEq, Eq, Structural)]
pub struct PendingFlags {
    pub power_on: bool,
    pub power_off: bool,
    pub terminate: bool,
}

impl PendingFlags {
    /// Whether the flag of `trigger` is raised.
    pub open spec fn holds(self, trigger: Trigger) -> bool {
        match trigger {
            Trigger::PowerOn => self.power_on,
            Trigger::PowerOff => self.power_off,
            Trigger::Terminate => self.terminate,
        }
    }

    /// The flags with no trigger pending.
    pub open spec fn none() -> PendingFlags {
        PendingFlags { power_on: false, power_off: false, terminate: false }
    }

    /// The flags after one delivery of `trigger`.
    pub open spec fn after_raise(self, trigger: Trigger) -> PendingFlags {
        match trigger {
            Trigger::PowerOn => PendingFlags { power_on: true, ..self },
            Trigger::PowerOff => PendingFlags { power_off: true, ..self },
            Trigger::Terminate => PendingFlags { terminate: true, ..self },
        }
    }

    /// The flags after the flag of `trigger` was drained.
    pub open spec fn after_clear(self, trigger: Trigger) -> PendingFlags {
        match trigger {
            Trigger::PowerOn => PendingFlags { power_on: false, ..self },
            Trigger::PowerOff => PendingFlags { power_off: false, ..self },
            Trigger::Terminate => PendingFlags { terminate: false, ..self },
        }
    }

    /// The flags after the triggers of `deliveries` arrived one after another.
    pub open spec fn after_deliveries(self, deliveries: Seq<Trigger>) -> PendingFlags
        decreases deliveries.len(),
    {
        if deliveries.len() == 0 {
            self
        } else {
            self.after_deliveries(deliveries.drop_last()).after_raise(deliveries.last())
        }
    }

    /// Flags as they are when the process starts: nothing pending.
    pub fn new() -> (flags: PendingFlags)
        ensures
            flags == PendingFlags::none(),
    {
        PendingFlags { power_on: false, power_off: false, terminate: false }
    }

    /// Reads the flag of `trigger` without changing it.
    pub fn is_raised(&self, trigger: Trigger) -> (raised: bool)
        ensures
            raised == self.holds(trigger),
    {
        match trigger {
            Trigger::PowerOn => self.power_on,
            Trigger::PowerOff => self.power_off,
            Trigger::Terminate => self.terminate,
        }
    }

    /// Records one delivery of `trigger`.
    pub fn raise(&mut self, trigger: Trigger)
        ensures
            *final(self) == old(self).after_raise(trigger),
    {
        match trigger {
            Trigger::PowerOn => { self.power_on = true; },
            Trigger::PowerOff => { self.power_off = true; },
            Trigger::Terminate => { self.terminate = true; },
        }
    }

    /// Drains the flag of `trigger`.
    pub fn clear(&mut self, trigger: Trigger)
        ensures
            *final(self) == old(self).after_clear(trigger),
    {
        match trigger {
            Trigger::PowerOn => { self.power_on = false; },
            Trigger::PowerOff => { self.power_off = false; },
            Trigger::Terminate => { self.terminate = false; },
        }
    }
}

/// Raising or draining one flag leaves the other flags as they were.
pub proof fn law_flags_are_independent(flags: PendingFlags, changed: Trigger, other: Trigger)
    requires
        changed != other,
    ensures
        flags.after_raise(changed).holds(other) == flags.holds(other),
        flags.after_clear(changed).holds(other) == flags.holds(other),
        flags.after_raise(changed).holds(changed),
        !flags.after_clear(changed).holds(changed),
{
}

/// A trigger delivered while its flag is still raised changes nothing: the
/// deliveries collapse into the one pending flag.
pub proof fn law_redelivery_changes_nothing(flags: PendingFlags, trigger: Trigger)
    ensures
        flags.after_raise(trigger).after_raise(trigger) == flags.after_raise(trigger),
        flags.holds(trigger) ==> flags.after_raise(trigger) == flags,
{
}

/// After any sequence of deliveries a flag is raised exactly if it was raised
/// before or its trigger occurs in the sequence, however often.
pub proof fn law_deliveries_collapse(
    flags: PendingFlags,
    deliveries: Seq<Trigger>,
    trigger: Trigger,
)
    ensures
        flags.after_deliveries(deliveries).holds(trigger) <==> flags.holds(trigger)
            || deliveries.contains(trigger),
    decreases deliveries.len(),
{
    if deliveries.len() > 0 {
        let earlier = deliveries.drop_last();
        law_deliveries_collapse(flags, earlier, trigger);
        if deliveries.contains(trigger) {
            let i = choose|i: int| 0 <= i < deliveries.len() && deliveries[i] == trigger;
            if i < earlier.len() {
                assert(earlier[i] == trigger);
            }
        }
        if earlier.contains(trigger) {
            let i = choose|i: int| 0 <= i < earlier.len() && earlier[i] == trigger;
            assert(deliveries[i] == trigger);
        }
        if deliveries.last() == trigger {
            assert(deliveries[deliveries.len() - 1] == trigger);
        }
    }
}

/// Two sequences of deliveries in which the same trigger kinds occur leave the
/// same flags behind.
pub proof fn law_only_kinds_matter(
    flags: PendingFlags,
    first: Seq<Trigger>,
    second: Seq<Trigger>,
)
    requires
        forall|t: Trigger| first.contains(t) <==> second.contains(t),
    ensures
        flags.after_deliveries(first) == flags.after_deliveries(second),
{
    law_deliveries_collapse(flags, first, Trigger::PowerOn);
    law_deliveries_collapse(flags, first, Trigger::PowerOff);
    law_deliveries_collapse(flags, first, Trigger::Terminate);
    law_deliveries_collapse(flags, second, Trigger::PowerOn);
    law_deliveries_collapse(flags, second, Trigger::PowerOff);
    law_deliveries_collapse(flags, second, Trigger::Terminate);
}

} // verus!
