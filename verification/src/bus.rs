//! Vocabulary of the CEC bus as far as the daemon speaks it: who is on the
//! bus, which role this device plays, and the two power commands it sends.

use vstd::prelude::*;

verus! {

/// Logical address of a participant on the CEC bus.
#[derive(Clone, Copy, Debug, PartialEq, Eq, Structural)]
pub enum LogicalAddress {
    Unknown,
    Tv,
    Recordingdevice1,
    Recordingdevice2,
    Tuner1,
    Playbackdevice1,
    Audiosystem,
    Tuner2,
    Tuner3,
    Playbackdevice2,
    Recordingdevice3,
    Tuner4,
    Playbackdevice3,
    Reserved1,
    Reserved2,
    Freeuse,
    Unregistered,
}

/// Role a device announces when it joins the bus.
#[derive(Clone, Copy, Debug, PartialEq, Eq, Structural)]
pub enum DeviceType {
    Tv,
    RecordingDevice,
    Reserved,
    Tuner,
    PlaybackDevice,
    AudioSystem,
}

/// A power command addressed to one bus participant.
#[derive(Clone, Copy, Debug, PartialEq, Eq, Structural)]
pub enum Command {
    PowerOn(LogicalAddress),
    Standby(LogicalAddress),
}

/// The display every power command is addressed to.
pub const DISPLAY: LogicalAddress = LogicalAddress::Tv;

/// The address this device holds when it is the active source.
pub const OWN_ADDRESS: LogicalAddress = LogicalAddress::Playbackdevice1;

/// The role this device takes on the bus.
pub const DEVICE_ROLE: DeviceType = DeviceType::PlaybackDevice;

impl LogicalAddress {
    /// Whether this address is the one this device holds as active source.
    pub fn is_own(self) -> (own: bool)
        ensures
            own == (self == OWN_ADDRESS),
    {
        self == OWN_ADDRESS
    }
}

} // verus!
