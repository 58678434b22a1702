//! Input events in the form the kernel's `struct input_event` carries them.
//! The codes are those of the Linux input ABI (`input-event-codes.h`).

use vstd::prelude::*;

verus! {

/// Synchronization events (`EV_SYN`).
pub const EV_SYN: u16 = 0x00;
/// Key and button events (`EV_KEY`).
pub const EV_KEY: u16 = 0x01;
/// Relative axis events (`EV_REL`).
pub const EV_REL: u16 = 0x02;
/// The code of a report marker (`SYN_REPORT`).
pub const SYN_REPORT: u16 = 0;
/// The horizontal relative axis (`REL_X`).
pub const REL_X: u16 = 0x00;
/// The vertical relative axis (`REL_Y`).
pub const REL_Y: u16 = 0x01;
/// The value of a key event that releases the key.
pub const KEY_RELEASED: i32 = 0;
/// The value of a key event that presses the key.
pub const KEY_PRESSED: i32 = 1;
/// The bus type the virtual devices report (`BUS_USB`).
pub const BUS_USB: u16 = 0x03;

/// One input event without its timestamp: the kernel stamps synthetic events
/// itself, so every event is written with a zero time.
#[derive(Debug, Clone, Copy, PartialEq, Eq, Structural)]
pub struct RawEvent {
    /// The event type (`EV_*`).
    pub kind: u16,
    /// The code within that type (axis, key or report).
    pub code: u16,
    /// The payload: a motion delta, a key state, or zero.
    pub value: i32,
}

/// A relative motion of `v` along `axis`.
pub open spec fn rel_event(axis: u16, v: i32) -> RawEvent {
    RawEvent { kind: EV_REL, code: axis, value: v }
}

/// A key (or button) event putting `code` into `state`.
pub open spec fn key_event(code: u16, state: i32) -> RawEvent {
    RawEvent { kind: EV_KEY, code: code, value: state }
}

/// The report marker that ends a group of events.
pub open spec fn syn_event() -> RawEvent {
    RawEvent { kind: EV_SYN, code: SYN_REPORT, value: 0 }
}

/// A relative motion event.
pub fn rel(axis: u16, v: i32) -> (r: RawEvent)
    ensures
        r == rel_event(axis, v),
{
    RawEvent { kind: EV_REL, code: axis, value: v }
}

/// A key or button event.
pub fn key(code: u16, state: i32) -> (r: RawEvent)
    ensures
        r == key_event(code, state),
{
    RawEvent { kind: EV_KEY, code: code, value: state }
}

/// A report marker.
pub fn syn() -> (r: RawEvent)
    ensures
        r == syn_event(),
{
    RawEvent { kind: EV_SYN, code: SYN_REPORT, value: 0 }
}

/// Absolute axis events (`EV_ABS`).
pub const EV_ABS: u16 = 0x03;

/// An absolute axis position event.
pub open spec fn abs_event(axis: u16, v: i32) -> RawEvent {
    RawEvent { kind: EV_ABS, code: axis, value: v }
}

/// An absolute axis position event.
pub fn abs(axis: u16, v: i32) -> (r: RawEvent)
    ensures
        r == abs_event(axis, v),
{
    RawEvent { kind: EV_ABS, code: axis, value: v }
}

/// The range and resolution an absolute axis is declared with (its minimum
/// is zero).
#[derive(Debug, Clone, Copy)]
pub struct AbsAxisSpec {
    pub axis: u16,
    pub maximum: i32,
    pub resolution: i32,
}

/// What a virtual device declares when it is created: its identity and the
/// event types, relative axes and keys it can emit. A device can only emit
/// what it declared.
pub struct DeviceSpec {
    /// The device name the kernel reports.
    pub name: &'static str,
    /// The bus type (`BUS_*`).
    pub bustype: u16,
    pub vendor: u16,
    pub product: u16,
    pub version: u16,
    /// The event types (`EV_*`) it emits.
    pub event_kinds: Vec<u16>,
    /// The relative axes (`REL_*`) it emits.
    pub rel_axes: Vec<u16>,
    /// The key and button codes it emits.
    pub keys: Vec<u16>,
    /// The absolute axes (`ABS_*`) it emits, with their ranges.
    pub abs_axes: Vec<AbsAxisSpec>,
    /// The input properties (`INPUT_PROP_*`) it sets.
    pub properties: Vec<u16>,
}

} // verus!
