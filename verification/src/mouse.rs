//! The relative virtual mouse: which buttons it has, what it declares, and the
//! events each of its actions writes.

use vstd::prelude::*;
use crate::event::{
    DeviceSpec, RawEvent, BUS_USB, EV_KEY, EV_REL, EV_SYN, KEY_PRESSED, KEY_RELEASED, REL_X,
    REL_Y, rel, rel_event, key, key_event, syn, syn_event,
};

verus! {

/// The left button (`BTN_LEFT`).
pub const BTN_LEFT: u16 = 0x110;
/// The right button (`BTN_RIGHT`).
pub const BTN_RIGHT: u16 = 0x111;
/// The middle button (`BTN_MIDDLE`).
pub const BTN_MIDDLE: u16 = 0x112;

/// Which mouse button a click uses.
#[derive(Debug, Clone, Copy, PartialEq, Eq, Structural)]
pub enum MouseButton {
    Left,
    Right,
    Middle,
}

/// The key code of a button.
pub open spec fn button_code(b: MouseButton) -> u16 {
    match b {
        MouseButton::Left => BTN_LEFT,
        MouseButton::Right => BTN_RIGHT,
        MouseButton::Middle => BTN_MIDDLE,
    }
}

impl MouseButton {
    /// The key code the button's events carry.
    pub fn key(self) -> (r: u16)
        ensures
            r == button_code(self),
    {
        match self {
            MouseButton::Left => BTN_LEFT,
            MouseButton::Right => BTN_RIGHT,
            MouseButton::Middle => BTN_MIDDLE,
        }
    }
}

/// The events of a relative motion by `(dx, dy)`: a motion event for each
/// axis that moves, then a report; nothing at all where neither axis moves.
pub open spec fn motion_events(dx: i32, dy: i32) -> Seq<RawEvent> {
    let xs = if dx != 0 { seq![rel_event(REL_X, dx)] } else { Seq::empty() };
    let ys = if dy != 0 { seq![rel_event(REL_Y, dy)] } else { Seq::empty() };
    if dx == 0 && dy == 0 {
        Seq::empty()
    } else {
        xs + ys + seq![syn_event()]
    }
}

/// The events of putting a button into `state`: the key event, then a report.
pub open spec fn button_events(b: MouseButton, state: i32) -> Seq<RawEvent> {
    seq![key_event(button_code(b), state), syn_event()]
}

/// The events that move the pointer by `(dx, dy)` device units. The compositor
/// applies pointer acceleration, so the on-screen delta is not 1:1.
pub fn move_relative(dx: i32, dy: i32) -> (r: Vec<RawEvent>)
    ensures
        r@ == motion_events(dx, dy),
{
    let mut evs: Vec<RawEvent> = Vec::with_capacity(3);
    if dx != 0 {
        evs.push(rel(REL_X, dx));
    }
    if dy != 0 {
        evs.push(rel(REL_Y, dy));
    }
    if evs.len() == 0 {
        return evs;
    }
    evs.push(syn());
    proof {
        let xs = if dx != 0 { seq![rel_event(REL_X, dx)] } else { Seq::<RawEvent>::empty() };
        let ys = if dy != 0 { seq![rel_event(REL_Y, dy)] } else { Seq::<RawEvent>::empty() };
        assert(evs@ =~= xs + ys + seq![syn_event()]);
    }
    evs
}

/// The events that press and hold `button` (no release).
pub fn press(button: MouseButton) -> (r: Vec<RawEvent>)
    ensures
        r@ == button_events(button, KEY_PRESSED),
{
    let r = vec![key(button.key(), KEY_PRESSED), syn()];
    assert(r@ =~= button_events(button, KEY_PRESSED));
    r
}

/// The events that release `button`.
pub fn release(button: MouseButton) -> (r: Vec<RawEvent>)
    ensures
        r@ == button_events(button, KEY_RELEASED),
{
    let r = vec![key(button.key(), KEY_RELEASED), syn()];
    assert(r@ =~= button_events(button, KEY_RELEASED));
    r
}

/// What the virtual mouse declares: relative X/Y motion and the left, right
/// and middle buttons.
pub fn mouse_device() -> (r: DeviceSpec)
    ensures
        r.name == "wayclick-virtual-mouse",
        r.bustype == BUS_USB,
        r.vendor == 0x3232,
        r.product == 0x567a,
        r.version == 1,
        r.event_kinds@ == seq![EV_REL, EV_KEY, EV_SYN],
        r.rel_axes@ == seq![REL_X, REL_Y],
        r.keys@ == seq![BTN_LEFT, BTN_RIGHT, BTN_MIDDLE],
        r.abs_axes@.len() == 0,
        r.properties@.len() == 0,
{
    let r = DeviceSpec {
        name: "wayclick-virtual-mouse",
        bustype: BUS_USB,
        vendor: 0x3232,
        product: 0x567a,
        version: 1,
        event_kinds: vec![EV_REL, EV_KEY, EV_SYN],
        rel_axes: vec![REL_X, REL_Y],
        keys: vec![BTN_LEFT, BTN_RIGHT, BTN_MIDDLE],
        abs_axes: Vec::new(),
        properties: Vec::new(),
    };
    assert(r.event_kinds@ =~= seq![EV_REL, EV_KEY, EV_SYN]);
    assert(r.rel_axes@ =~= seq![REL_X, REL_Y]);
    assert(r.keys@ =~= seq![BTN_LEFT, BTN_RIGHT, BTN_MIDDLE]);
    r
}

} // verus!
