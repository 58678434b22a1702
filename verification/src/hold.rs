//! The auto-hold action: press a key or mouse button and keep it held until
//! released. Distinct from clicking — the target stays down.

use vstd::prelude::*;
use crate::event::{RawEvent, KEY_PRESSED, KEY_RELEASED};
use crate::keyboard::{Keycode, key_events};
use crate::mouse::{MouseButton, button_events};

verus! {

/// What the hold action holds down.
#[derive(Debug, Clone, Copy, PartialEq, Eq, Structural)]
pub enum HoldTarget {
    Mouse(MouseButton),
    Key(Keycode),
}

/// Which of the two virtual devices a hold goes through.
#[derive(Debug, Clone, Copy, PartialEq, Eq, Structural)]
pub enum HoldDevice {
    Mouse,
    Keyboard,
}

/// The device that emits the events of `t`.
pub open spec fn device_of(t: HoldTarget) -> HoldDevice {
    match t {
        HoldTarget::Mouse(_) => HoldDevice::Mouse,
        HoldTarget::Key(_) => HoldDevice::Keyboard,
    }
}

/// The events that put `t` into `state`.
pub open spec fn hold_events(t: HoldTarget, state: i32) -> Seq<RawEvent> {
    match t {
        HoldTarget::Mouse(b) => button_events(b, state),
        HoldTarget::Key(k) => key_events(k@, state),
    }
}

impl HoldTarget {
    /// Press the target down (and keep it down): the device to write to and
    /// the events to write.
    pub fn hold(self) -> (r: (HoldDevice, Vec<RawEvent>))
        ensures
            r.0 == device_of(self),
            r.1@ == hold_events(self, KEY_PRESSED),
    {
        match self {
            HoldTarget::Mouse(b) => (HoldDevice::Mouse, crate::mouse::press(b)),
            HoldTarget::Key(k) => (HoldDevice::Keyboard, crate::keyboard::press(k)),
        }
    }

    /// Release the target: the device to write to and the events to write.
    pub fn release(self) -> (r: (HoldDevice, Vec<RawEvent>))
        ensures
            r.0 == device_of(self),
            r.1@ == hold_events(self, KEY_RELEASED),
    {
        match self {
            HoldTarget::Mouse(b) => (HoldDevice::Mouse, crate::mouse::release(b)),
            HoldTarget::Key(k) => (HoldDevice::Keyboard, crate::keyboard::release(k)),
        }
    }
}

/// Holding and then releasing a target goes through one device and touches
/// one key code: the release undoes exactly what the hold pressed.
pub proof fn release_undoes_hold(t: HoldTarget)
    ensures
        hold_events(t, KEY_PRESSED).len() == hold_events(t, KEY_RELEASED).len(),
        hold_events(t, KEY_PRESSED)[0].code == hold_events(t, KEY_RELEASED)[0].code,
        hold_events(t, KEY_PRESSED)[0].kind == hold_events(t, KEY_RELEASED)[0].kind,
        hold_events(t, KEY_PRESSED)[0].value == KEY_PRESSED,
        hold_events(t, KEY_RELEASED)[0].value == KEY_RELEASED,
{
}

} // verus!
