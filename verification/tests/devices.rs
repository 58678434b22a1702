use input_linux::{sys, Key};
use wayclick_input::event::{RawEvent, EV_KEY, EV_REL, EV_SYN, KEY_PRESSED, KEY_RELEASED, REL_X, REL_Y};
use wayclick_input::hold::{HoldDevice, HoldTarget};
use wayclick_input::keyboard::Keycode;
use wayclick_input::mouse::{mouse_device, move_relative, press, release, MouseButton, BTN_LEFT, BTN_MIDDLE, BTN_RIGHT};

const SYN: RawEvent = RawEvent { kind: EV_SYN, code: 0, value: 0 };

#[test]
fn button_codes_match_linux_input() {
    assert_eq!(MouseButton::Left.key(), Key::ButtonLeft as u16);
    assert_eq!(MouseButton::Right.key(), Key::ButtonRight as u16);
    assert_eq!(MouseButton::Middle.key(), Key::ButtonMiddle as u16);
    assert_eq!((BTN_LEFT, BTN_RIGHT, BTN_MIDDLE), (0x110, 0x111, 0x112));
}

#[test]
fn event_codes_match_linux_input() {
    assert_eq!(EV_SYN as i32, sys::EV_SYN);
    assert_eq!(EV_KEY as i32, sys::EV_KEY);
    assert_eq!(EV_REL as i32, sys::EV_REL);
    assert_eq!(REL_X as i32, sys::REL_X);
    assert_eq!(REL_Y as i32, sys::REL_Y);
    assert_eq!(KEY_PRESSED, input_linux::KeyState::PRESSED.value);
    assert_eq!(KEY_RELEASED, input_linux::KeyState::RELEASED.value);
}

#[test]
fn motion_events() {
    assert!(move_relative(0, 0).is_empty());
    assert_eq!(move_relative(5, 0), vec![RawEvent { kind: EV_REL, code: REL_X, value: 5 }, SYN]);
    assert_eq!(move_relative(0, -3), vec![RawEvent { kind: EV_REL, code: REL_Y, value: -3 }, SYN]);
    assert_eq!(
        move_relative(2, 7),
        vec![
            RawEvent { kind: EV_REL, code: REL_X, value: 2 },
            RawEvent { kind: EV_REL, code: REL_Y, value: 7 },
            SYN
        ]
    );
}

#[test]
fn button_events() {
    assert_eq!(press(MouseButton::Right), vec![RawEvent { kind: EV_KEY, code: BTN_RIGHT, value: 1 }, SYN]);
    assert_eq!(release(MouseButton::Middle), vec![RawEvent { kind: EV_KEY, code: BTN_MIDDLE, value: 0 }, SYN]);
}

#[test]
fn mouse_declares_motion_and_buttons() {
    let d = mouse_device();
    assert_eq!(d.name, "wayclick-virtual-mouse");
    assert_eq!(d.event_kinds, vec![EV_REL, EV_KEY, EV_SYN]);
    assert_eq!(d.rel_axes, vec![REL_X, REL_Y]);
    assert_eq!(d.keys, vec![BTN_LEFT, BTN_RIGHT, BTN_MIDDLE]);
    assert_eq!((d.vendor, d.product, d.version), (0x3232, 0x567a, 1));
}

#[test]
fn hold_dispatches_to_the_right_device() {
    let (dev, evs) = HoldTarget::Mouse(MouseButton::Left).hold();
    assert_eq!(dev, HoldDevice::Mouse);
    assert_eq!(evs, press(MouseButton::Left));
    let w = Keycode::from_name("w").unwrap();
    let (dev, evs) = HoldTarget::Key(w).hold();
    assert_eq!(dev, HoldDevice::Keyboard);
    assert_eq!(evs, vec![RawEvent { kind: EV_KEY, code: 17, value: 1 }, SYN]);
    let (dev, evs) = HoldTarget::Key(w).release();
    assert_eq!(dev, HoldDevice::Keyboard);
    assert_eq!(evs, vec![RawEvent { kind: EV_KEY, code: 17, value: 0 }, SYN]);
    let (dev, evs) = HoldTarget::Mouse(MouseButton::Middle).release();
    assert_eq!(dev, HoldDevice::Mouse);
    assert_eq!(evs, release(MouseButton::Middle));
}
