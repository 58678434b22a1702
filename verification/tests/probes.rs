use input_linux::{AbsoluteAxis, Key};
use std::time::Duration;

use wayclick_input::engine::{delay_fits, pace_fits, Rng};
use wayclick_input::event::{RawEvent, EV_ABS, EV_KEY, EV_REL, EV_SYN, REL_X, REL_Y};
use wayclick_input::libei::{bind_mask, drag_on_resume, interfaces, offers_absolute, use_device, DragTest};
use wayclick_input::mouse::{BTN_LEFT, BTN_MIDDLE, BTN_RIGHT};
use wayclick_input::rel_probe::{parse_command, probe_motion, ProbeCommand};
use wayclick_input::tablet::{
    proximity_out, stylus, tablet_device, tip_down, tip_up, TabletMap,
    ABS_MAX, ABS_PRESSURE, ABS_X, ABS_Y, BTN_STYLUS, BTN_TOOL_PEN, BTN_TOUCH,
};
use wayclick_input::text::{parse_i32, split_words};

const SYN: RawEvent = RawEvent { kind: EV_SYN, code: 0, value: 0 };

#[test]
fn integers_parse_like_std() {
    for s in ["0", "42", "-7", "+13", "2147483647", "-2147483648", "007", "", "+", "-", "2147483648",
              "-2147483649", "1 2", " 1", "x", "99999999999999999999", "-0", "12a"] {
        assert_eq!(parse_i32(s), s.parse::<i32>().ok(), "parsing {s:?}");
    }
}

#[test]
fn words_split_like_std() {
    for s in ["", "  ", "m 1 2", "  a\tb\n c  ", "x", "a\u{3000}b"] {
        let ours: Vec<&str> = split_words(s);
        let std: Vec<&str> = s.split_whitespace().collect();
        assert_eq!(ours, std, "splitting {s:?}");
    }
}

#[test]
fn probe_commands() {
    assert_eq!(parse_command("m 10 -5"), ProbeCommand::Move { dx: 10, dy: -5 });
    assert_eq!(parse_command("  m 3"), ProbeCommand::Move { dx: 3, dy: 0 });
    assert_eq!(parse_command("m x 4"), ProbeCommand::Move { dx: 0, dy: 4 });
    assert_eq!(parse_command("l"), ProbeCommand::Click(BTN_LEFT));
    assert_eq!(parse_command("r extra"), ProbeCommand::Click(BTN_RIGHT));
    assert_eq!(parse_command("c"), ProbeCommand::Click(BTN_MIDDLE));
    assert_eq!(parse_command("q"), ProbeCommand::Quit);
    assert_eq!(parse_command(""), ProbeCommand::Quit);
    assert_eq!(parse_command("   "), ProbeCommand::Quit);
    assert_eq!(parse_command("z"), ProbeCommand::Unknown);
}

#[test]
fn probe_motion_always_reports() {
    assert_eq!(probe_motion(0, 0), vec![SYN]);
    assert_eq!(
        probe_motion(1, -1),
        vec![
            RawEvent { kind: EV_REL, code: REL_X, value: 1 },
            RawEvent { kind: EV_REL, code: REL_Y, value: -1 },
            SYN
        ]
    );
}

#[test]
fn tablet_mapping() {
    let t = TabletMap { dw: 6880, dh: 1440 };
    assert_eq!(t.ax(0), 0);
    assert_eq!(t.ax(6880), ABS_MAX);
    assert_eq!(t.ax(3440), (3440i64 * 32767 / 6880) as i32);
    assert_eq!(t.ay(720), (720i64 * 32767 / 1440) as i32);
    assert_eq!(t.ax(-10), (-10i64 * 32767 / 6880) as i32);
    let degenerate = TabletMap { dw: 0, dh: -5 };
    assert_eq!(degenerate.ax(2), 2 * ABS_MAX);
    assert_eq!(degenerate.ay(1), ABS_MAX);
}

#[test]
fn tablet_events() {
    let t = TabletMap { dw: 100, dh: 100 };
    assert_eq!(
        t.proximity_in(50, 100),
        vec![
            RawEvent { kind: EV_KEY, code: BTN_TOOL_PEN, value: 1 },
            RawEvent { kind: EV_ABS, code: ABS_X, value: 16383 },
            RawEvent { kind: EV_ABS, code: ABS_Y, value: 32767 },
            RawEvent { kind: EV_ABS, code: ABS_PRESSURE, value: 0 },
            SYN
        ]
    );
    assert_eq!(t.move_to(0, 0).len(), 3);
    assert_eq!(proximity_out().len(), 4);
    assert_eq!(tip_down()[0], RawEvent { kind: EV_ABS, code: ABS_PRESSURE, value: 4096 });
    assert_eq!(tip_up()[0], RawEvent { kind: EV_KEY, code: BTN_TOUCH, value: 0 });
    assert_eq!(stylus(BTN_STYLUS, true), vec![RawEvent { kind: EV_KEY, code: BTN_STYLUS, value: 1 }, SYN]);
    let d = tablet_device();
    assert_eq!(d.abs_axes.len(), 3);
    assert_eq!(d.properties, vec![0]);
    assert_eq!(d.name, "wayclick-virtual-tablet");
}

#[test]
fn tablet_codes_match_linux_input() {
    assert_eq!(ABS_X, AbsoluteAxis::X as u16);
    assert_eq!(ABS_Y, AbsoluteAxis::Y as u16);
    assert_eq!(ABS_PRESSURE, AbsoluteAxis::Pressure as u16);
    assert_eq!(BTN_TOOL_PEN, Key::ButtonToolPen as u16);
    assert_eq!(BTN_TOUCH, Key::ButtonTouch as u16);
    assert_eq!(BTN_STYLUS, Key::ButtonStylus as u16);
    assert_eq!(EV_ABS as i32, input_linux::sys::EV_ABS);
}

#[test]
fn libei_binding() {
    let caps = vec![
        ("ei_pointer".to_string(), 0b0001u64),
        ("ei_keyboard".to_string(), 0b0010),
        ("ei_button".to_string(), 0b0100),
        ("ei_pointer_absolute".to_string(), 0b1000),
    ];
    assert_eq!(bind_mask(&caps), 0b1101);
    assert!(offers_absolute(&caps));
    assert!(!offers_absolute(&caps[..2].to_vec()));
    assert_eq!(bind_mask(&vec![]), 0);
    assert_eq!(interfaces().len(), 9);
    assert!(interfaces().iter().all(|(_, v)| *v == 1));
    assert!(drag_on_resume(false, true));
    assert!(!drag_on_resume(true, true));
    assert!(!drag_on_resume(false, false));
}

#[test]
fn delay_limits() {
    let rng = Rng::new(4);
    assert!(delay_fits(Duration::from_millis(100), Duration::ZERO, &rng));
    assert!(delay_fits(Duration::from_millis(100), Duration::from_millis(50), &rng));
    assert!(delay_fits(Duration::MAX, Duration::ZERO, &rng));
    assert!(!delay_fits(Duration::ZERO, Duration::from_micros(u64::MAX), &rng));
    // At the very top of the range only a zero draw fits.
    for seed in 0..20 {
        let rng = Rng::new(seed);
        let mut probe = Rng::new(seed);
        let zero_draw = probe.in_range(2) == 0;
        assert_eq!(delay_fits(Duration::MAX, Duration::from_micros(1), &rng), zero_draw);
        assert_eq!(rng.peek_range(2), Rng::new(seed).in_range(2));
    }
}

#[test]
fn pace_limits() {
    assert!(pace_fits(Duration::from_secs(1), Duration::from_secs(1)));
    assert!(pace_fits(Duration::MAX, Duration::ZERO));
    assert!(!pace_fits(Duration::MAX, Duration::from_nanos(1)));
}

#[test]
fn drag_runs_once() {
    let mut d = DragTest::new();
    assert!(!d.on_resume(false));
    assert!(d.on_resume(true));
    assert!(!d.on_resume(true));
    assert!(!d.on_resume(false));
    assert!(use_device(true, true));
    assert!(!use_device(true, false));
    assert!(!use_device(false, true));
}
