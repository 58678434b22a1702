//! A virtual graphics tablet (Wacom-Intuos-style): an experiment in true
//! absolute positioning. An indirect tablet maps its whole area onto the
//! desktop; these are its descriptor, the mapping of desktop pixels onto its
//! axes, and the events of each pen action.

use vstd::prelude::*;
use crate::event::{
    AbsAxisSpec, DeviceSpec, RawEvent, BUS_USB, EV_ABS, EV_KEY, EV_SYN, KEY_PRESSED, KEY_RELEASED,
    abs, abs_event, key, key_event, syn, syn_event,
};

verus! {

/// The horizontal absolute axis (`ABS_X`).
pub const ABS_X: u16 = 0x00;
/// The vertical absolute axis (`ABS_Y`).
pub const ABS_Y: u16 = 0x01;
/// The pen pressure axis (`ABS_PRESSURE`).
pub const ABS_PRESSURE: u16 = 0x18;
/// The pen tool, whose press means proximity (`BTN_TOOL_PEN`).
pub const BTN_TOOL_PEN: u16 = 0x140;
/// Tip contact (`BTN_TOUCH`).
pub const BTN_TOUCH: u16 = 0x14a;
/// The first stylus button (`BTN_STYLUS`).
pub const BTN_STYLUS: u16 = 0x14b;
/// The second stylus button (`BTN_STYLUS2`).
pub const BTN_STYLUS2: u16 = 0x14c;
/// An indirect device: its area maps onto the whole desktop (`INPUT_PROP_POINTER`).
pub const INPUT_PROP_POINTER: u16 = 0x00;
/// The largest position on either axis.
pub const ABS_MAX: i32 = 32767;
/// The largest pressure.
pub const PRESSURE_MAX: i32 = 4096;

/// Integer division rounding toward zero, as Rust divides signed integers.
pub open spec fn trunc_div(a: int, b: int) -> int {
    if a >= 0 { a / b } else { -((-a) / b) }
}

/// The tablet position of desktop coordinate `v` on a desktop `extent`
/// pixels wide (or high): `v * ABS_MAX / max(extent, 1)`, truncated to `i32`.
pub open spec fn axis_position(v: i32, extent: i32) -> i32 {
    trunc_div(v * ABS_MAX, if extent < 1 { 1 } else { extent as int }) as i32
}

/// A tablet spanning a desktop of `dw` × `dh` pixels.
#[derive(Debug, Clone, Copy)]
pub struct TabletMap {
    pub dw: i32,
    pub dh: i32,
}

impl TabletMap {
    /// The tablet X position of desktop column `x`.
    pub fn ax(&self, x: i32) -> (r: i32)
        ensures
            r == axis_position(x, self.dw),
    {
        let d: i64 = if self.dw < 1 { 1 } else { self.dw as i64 };
        ((x as i64 * ABS_MAX as i64) / d) as i32
    }

    /// The tablet Y position of desktop row `y`.
    pub fn ay(&self, y: i32) -> (r: i32)
        ensures
            r == axis_position(y, self.dh),
    {
        let d: i64 = if self.dh < 1 { 1 } else { self.dh as i64 };
        ((y as i64 * ABS_MAX as i64) / d) as i32
    }

    /// Enter proximity and position the pen at `(x, y)`, hovering without
    /// tip contact.
    pub fn proximity_in(&self, x: i32, y: i32) -> (r: Vec<RawEvent>)
        ensures
            r@ == seq![
                key_event(BTN_TOOL_PEN, KEY_PRESSED),
                abs_event(ABS_X, axis_position(x, self.dw)),
                abs_event(ABS_Y, axis_position(y, self.dh)),
                abs_event(ABS_PRESSURE, 0),
                syn_event(),
            ],
    {
        let r = vec![
            key(BTN_TOOL_PEN, KEY_PRESSED),
            abs(ABS_X, self.ax(x)),
            abs(ABS_Y, self.ay(y)),
            abs(ABS_PRESSURE, 0),
            syn(),
        ];
        assert(r@ =~= seq![
            key_event(BTN_TOOL_PEN, KEY_PRESSED),
            abs_event(ABS_X, axis_position(x, self.dw)),
            abs_event(ABS_Y, axis_position(y, self.dh)),
            abs_event(ABS_PRESSURE, 0),
            syn_event(),
        ]);
        r
    }

    /// Move the hovering pen to `(x, y)`.
    pub fn move_to(&self, x: i32, y: i32) -> (r: Vec<RawEvent>)
        ensures
            r@ == seq![
                abs_event(ABS_X, axis_position(x, self.dw)),
                abs_event(ABS_Y, axis_position(y, self.dh)),
                syn_event(),
            ],
    {
        let r = vec![abs(ABS_X, self.ax(x)), abs(ABS_Y, self.ay(y)), syn()];
        assert(r@ =~= seq![
            abs_event(ABS_X, axis_position(x, self.dw)),
            abs_event(ABS_Y, axis_position(y, self.dh)),
            syn_event(),
        ]);
        r
    }
}

/// Leave proximity: no pressure, tip and tool released.
pub fn proximity_out() -> (r: Vec<RawEvent>)
    ensures
        r@ == seq![
            abs_event(ABS_PRESSURE, 0),
            key_event(BTN_TOUCH, KEY_RELEASED),
            key_event(BTN_TOOL_PEN, KEY_RELEASED),
            syn_event(),
        ],
{
    let r = vec![abs(ABS_PRESSURE, 0), key(BTN_TOUCH, KEY_RELEASED), key(BTN_TOOL_PEN, KEY_RELEASED), syn()];
    assert(r@ =~= seq![
        abs_event(ABS_PRESSURE, 0),
        key_event(BTN_TOUCH, KEY_RELEASED),
        key_event(BTN_TOOL_PEN, KEY_RELEASED),
        syn_event(),
    ]);
    r
}

/// Put the tip down at full pressure.
pub fn tip_down() -> (r: Vec<RawEvent>)
    ensures
        r@ == seq![abs_event(ABS_PRESSURE, PRESSURE_MAX), key_event(BTN_TOUCH, KEY_PRESSED), syn_event()],
{
    let r = vec![abs(ABS_PRESSURE, PRESSURE_MAX), key(BTN_TOUCH, KEY_PRESSED), syn()];
    assert(r@ =~= seq![abs_event(ABS_PRESSURE, PRESSURE_MAX), key_event(BTN_TOUCH, KEY_PRESSED), syn_event()]);
    r
}

/// Lift the tip.
pub fn tip_up() -> (r: Vec<RawEvent>)
    ensures
        r@ == seq![key_event(BTN_TOUCH, KEY_RELEASED), abs_event(ABS_PRESSURE, 0), syn_event()],
{
    let r = vec![key(BTN_TOUCH, KEY_RELEASED), abs(ABS_PRESSURE, 0), syn()];
    assert(r@ =~= seq![key_event(BTN_TOUCH, KEY_RELEASED), abs_event(ABS_PRESSURE, 0), syn_event()]);
    r
}

/// Press (`down`) or release a stylus button.
pub fn stylus(button: u16, down: bool) -> (r: Vec<RawEvent>)
    ensures
        r@ == seq![key_event(button, if down { KEY_PRESSED } else { KEY_RELEASED }), syn_event()],
{
    let state = if down { KEY_PRESSED } else { KEY_RELEASED };
    let r = vec![key(button, state), syn()];
    assert(r@ =~= seq![key_event(button, state), syn_event()]);
    r
}

/// The complete indirect tablet descriptor: absolute X/Y with resolution,
/// pressure, pen proximity, tip and two stylus buttons.
pub fn tablet_device() -> (r: DeviceSpec)
    ensures
        r.name == "wayclick-virtual-tablet",
        r.bustype == BUS_USB,
        r.vendor == 0x056a,
        r.product == 0x00de,
        r.version == 0x0100,
        r.event_kinds@ == seq![EV_KEY, EV_ABS, EV_SYN],
        r.rel_axes@.len() == 0,
        r.keys@ == seq![BTN_TOOL_PEN, BTN_TOUCH, BTN_STYLUS, BTN_STYLUS2],
        r.properties@ == seq![INPUT_PROP_POINTER],
        r.abs_axes@.len() == 3,
        r.abs_axes@[0].axis == ABS_X && r.abs_axes@[0].maximum == ABS_MAX && r.abs_axes@[0].resolution == 100,
        r.abs_axes@[1].axis == ABS_Y && r.abs_axes@[1].maximum == ABS_MAX && r.abs_axes@[1].resolution == 100,
        r.abs_axes@[2].axis == ABS_PRESSURE && r.abs_axes@[2].maximum == PRESSURE_MAX
            && r.abs_axes@[2].resolution == 0,
{
    let r = DeviceSpec {
        name: "wayclick-virtual-tablet",
        bustype: BUS_USB,
        vendor: 0x056a,
        product: 0x00de,
        version: 0x0100,
        event_kinds: vec![EV_KEY, EV_ABS, EV_SYN],
        rel_axes: Vec::new(),
        keys: vec![BTN_TOOL_PEN, BTN_TOUCH, BTN_STYLUS, BTN_STYLUS2],
        abs_axes: vec![
            AbsAxisSpec { axis: ABS_X, maximum: ABS_MAX, resolution: 100 },
            AbsAxisSpec { axis: ABS_Y, maximum: ABS_MAX, resolution: 100 },
            AbsAxisSpec { axis: ABS_PRESSURE, maximum: PRESSURE_MAX, resolution: 0 },
        ],
        properties: vec![INPUT_PROP_POINTER],
    };
    assert(r.event_kinds@ =~= seq![EV_KEY, EV_ABS, EV_SYN]);
    assert(r.keys@ =~= seq![BTN_TOOL_PEN, BTN_TOUCH, BTN_STYLUS, BTN_STYLUS2]);
    assert(r.properties@ =~= seq![INPUT_PROP_POINTER]);
    r
}

/// Desktop coordinates inside the desktop land inside the tablet's range:
/// for `0 <= v <= extent` the position lies in `[0, ABS_MAX]`.
pub proof fn positions_in_range(v: i32, extent: i32)
    requires
        0 <= v <= extent,
        extent >= 1,
    ensures
        0 <= axis_position(v, extent) <= ABS_MAX,
{
    let n = v * ABS_MAX;
    assert(0 <= n <= extent * ABS_MAX) by (nonlinear_arith)
        requires 0 <= v <= extent, n == v * ABS_MAX;
    assert(n / (extent as int) <= ABS_MAX) by (nonlinear_arith)
        requires 0 <= n <= extent * ABS_MAX, extent >= 1;
    assert(n / (extent as int) >= 0) by (nonlinear_arith)
        requires 0 <= n, extent >= 1;
}

} // verus!
