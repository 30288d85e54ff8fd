//! The input devices of a seat, which come and go with its capabilities.
use vstd::prelude::*;

verus! {

/// An input capability of a seat.
#[derive(Clone, Copy, Debug, PartialEq, Eq, Structural)]
pub enum Capability {
    Keyboard,
    Pointer,
    Touch,
}

/// Which input devices are held at the moment. No device is taken to be
/// there for good: each is acquired when the seat gains the capability and
/// released when the seat loses it.
#[derive(Clone, Copy, Debug, PartialEq, Eq, Structural)]
pub struct SeatDevices {
    pub keyboard: bool,
    pub pointer: bool,
    pub touch: bool,
}

impl SeatDevices {
    /// No device held.
    pub open spec fn none() -> SeatDevices {
        SeatDevices { keyboard: false, pointer: false, touch: false }
    }

    /// Whether the device of a capability is held.
    pub open spec fn holds(self, capability: Capability) -> bool {
        match capability {
            Capability::Keyboard => self.keyboard,
            Capability::Pointer => self.pointer,
            Capability::Touch => self.touch,
        }
    }

    /// The devices with the one of `capability` held or not.
    pub open spec fn with(self, capability: Capability, held: bool) -> SeatDevices {
        match capability {
            Capability::Keyboard => SeatDevices { keyboard: held, ..self },
            Capability::Pointer => SeatDevices { pointer: held, ..self },
            Capability::Touch => SeatDevices { touch: held, ..self },
        }
    }

    /// No device held.
    pub fn new() -> (devices: SeatDevices)
        ensures
            devices == SeatDevices::none(),
    {
        SeatDevices { keyboard: false, pointer: false, touch: false }
    }

    /// Whether the device of a capability is held.
    pub fn is_held(&self, capability: Capability) -> (held: bool)
        ensures
            held == self.holds(capability),
    {
        match capability {
            Capability::Keyboard => self.keyboard,
            Capability::Pointer => self.pointer,
            Capability::Touch => self.touch,
        }
    }

    /// The seat gained a capability. Returns whether its device has to be
    /// acquired now: only where none is held. The device counts as held
    /// afterwards.
    pub fn new_capability(&mut self, capability: Capability) -> (acquire: bool)
        ensures
            acquire == !old(self).holds(capability),
            *final(self) == old(self).with(capability, true),
    {
        let acquire = !self.is_held(capability);
        match capability {
            Capability::Keyboard => {
                self.keyboard = true;
            },
            Capability::Pointer => {
                self.pointer = true;
            },
            Capability::Touch => {
                self.touch = true;
            },
        }
        acquire
    }

    /// The seat lost a capability. Returns whether its device has to be
    /// released now: only where one is held. No device of the capability is
    /// held afterwards.
    pub fn remove_capability(&mut self, capability: Capability) -> (release: bool)
        ensures
            release == old(self).holds(capability),
            *final(self) == old(self).with(capability, false),
    {
        let release = self.is_held(capability);
        match capability {
            Capability::Keyboard => {
                self.keyboard = false;
            },
            Capability::Pointer => {
                self.pointer = false;
            },
            Capability::Touch => {
                self.touch = false;
            },
        }
        release
    }
}

} // verus!
