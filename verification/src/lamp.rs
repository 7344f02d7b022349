//! The lamp's business state: a brightness and a colour temperature, with a
//! change-notification hook.
//!
//! The engine core treats the lamp as an external collaborator; it lives
//! here as the canonical consumer of the GATT server.  A change callback
//! cannot be stored as a closure in verified code, so attaching the hook
//! raises a flag and every mutation returns the [`LampState`] that the
//! subscriber must be handed, or `None` when no hook is attached.
use vstd::prelude::*;

verus! {

/// A snapshot of the lamp handed to the change subscriber.
#[derive(Copy, Clone, Debug, PartialEq, Eq, Structural)]
pub struct LampState {
    pub temperature: u8,
    pub brightness: u8,
}

/// A lamp that can be controlled.
#[derive(Debug)]
pub struct Lamp {
    pub temperature: u8,
    pub brightness: u8,
    pub change_callback: bool,
}

impl Lamp {
    /// The snapshot of the current state.
    pub open spec fn spec_state(&self) -> LampState {
        LampState { temperature: self.temperature, brightness: self.brightness }
    }

    /// Create a new Lamp.
    ///
    /// Default temperature is 0, corresponding to the warmest white.
    /// Default brightness is 0, corresponding to off.
    pub fn new() -> (r: Self)
        ensures
            r.temperature == 0,
            r.brightness == 0,
            !r.change_callback,
    {
        Lamp { temperature: 0, brightness: 0, change_callback: false }
    }

    /// Set the temperature of the lamp, a value between 0 and 255.
    ///
    /// Returns the new state exactly when a change subscriber is attached;
    /// the caller delivers it to the subscriber.
    pub fn set_temperature(&mut self, temperature: u8) -> (change: Option<LampState>)
        ensures
            final(self).temperature == temperature,
            final(self).brightness == old(self).brightness,
            final(self).change_callback == old(self).change_callback,
            change == if old(self).change_callback {
                Some(final(self).spec_state())
            } else {
                None::<LampState>
            },
    {
        self.temperature = temperature;
        if self.change_callback {
            Some(LampState { temperature: self.temperature, brightness: self.brightness })
        } else {
            None
        }
    }

    /// Set the brightness of the lamp, a value between 0 and 255.
    ///
    /// Returns the new state exactly when a change subscriber is attached;
    /// the caller delivers it to the subscriber.
    pub fn set_brightness(&mut self, brightness: u8) -> (change: Option<LampState>)
        ensures
            final(self).brightness == brightness,
            final(self).temperature == old(self).temperature,
            final(self).change_callback == old(self).change_callback,
            change == if old(self).change_callback {
                Some(final(self).spec_state())
            } else {
                None::<LampState>
            },
    {
        self.brightness = brightness;
        if self.change_callback {
            Some(LampState { temperature: self.temperature, brightness: self.brightness })
        } else {
            None
        }
    }

    /// Get the temperature of the lamp, a value between 0 and 255.
    pub fn get_temperature(&self) -> (r: u8)
        ensures
            r == self.temperature,
    {
        self.temperature
    }

    /// Get the brightness of the lamp, a value between 0 and 255.
    pub fn get_brightness(&self) -> (r: u8)
        ensures
            r == self.brightness,
    {
        self.brightness
    }

    /// Attach the change subscriber: from here on every mutation returns
    /// the state that must be delivered to it.
    pub fn attach_change_callback(&mut self)
        ensures
            final(self).change_callback,
            final(self).temperature == old(self).temperature,
            final(self).brightness == old(self).brightness,
    {
        self.change_callback = true;
    }
}

} // verus!
