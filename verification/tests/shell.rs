use std::time::Duration;

use wayclick_input::desktop::{entry_facts, program};
use wayclick_input::text::trim_text;
use wayclick_input::engine::{ClickKind, Repeat, Target};
use wayclick_input::mouse::MouseButton;
use wayclick_input::shell::{
    bound_trigger, button_from, decide_start, desktop_entry, exec_bits_missing, in_input_group,
    is_running, monitors_bounds, plan_run, seed, seed_from, setup_script, MonitorRect, RunConfig,
    RunPlan, StartDecision,
};
use wayclick_input::text::{contains_word, same_text};

fn run_config() -> RunConfig {
    RunConfig {
        interval_ms: 250,
        button: "right".to_string(),
        action: "click".to_string(),
        click_kind: "double".to_string(),
        hold_key: None,
        repeat: Some(7),
        position: Some([10, 20]),
        jitter_ms: 15,
        reposition_each_click: true,
    }
}

#[test]
fn button_names() {
    assert_eq!(button_from("right"), MouseButton::Right);
    assert_eq!(button_from("middle"), MouseButton::Middle);
    assert_eq!(button_from("left"), MouseButton::Left);
    assert_eq!(button_from("Right"), MouseButton::Left);
    assert_eq!(button_from(""), MouseButton::Left);
}

#[test]
fn click_run_plan() {
    match plan_run(&run_config(), false) {
        RunPlan::Click(c) => {
            assert_eq!(c.button, MouseButton::Right);
            assert_eq!(c.kind, ClickKind::Double);
            assert_eq!(c.interval, Duration::from_millis(250));
            assert_eq!(c.jitter, Duration::from_millis(15));
            assert_eq!(c.repeat, Repeat::Count(7));
            assert_eq!(c.target, Target::Fixed { x: 10, y: 20 });
            assert_eq!(c.hold, Duration::from_millis(40));
            assert_eq!(c.double_gap, Duration::from_millis(40));
            assert!(c.reposition_each_click);
        }
        other => panic!("expected a click run, got {other:?}"),
    }
    let cfg = RunConfig { click_kind: "single".into(), repeat: None, position: None, ..run_config() };
    match plan_run(&cfg, true) {
        RunPlan::Click(c) => {
            assert_eq!(c.kind, ClickKind::Single);
            assert_eq!(c.repeat, Repeat::Infinite);
            assert_eq!(c.target, Target::FollowCursor);
        }
        other => panic!("expected a click run, got {other:?}"),
    }
}

#[test]
fn hold_run_plans() {
    let hold = RunConfig { action: "hold".into(), hold_key: Some("space".into()), ..run_config() };
    match plan_run(&hold, false) {
        RunPlan::HoldKey(k) => assert_eq!(k.code(), 57),
        other => panic!("expected a key hold, got {other:?}"),
    }
    let unknown = RunConfig { hold_key: Some("nope".into()), ..hold.clone() };
    assert!(matches!(
        plan_run(&unknown, false),
        RunPlan::HoldButton { button: MouseButton::Right, warm_up: true }
    ));
    let none = RunConfig { hold_key: None, ..hold };
    assert!(matches!(
        plan_run(&none, true),
        RunPlan::HoldButton { button: MouseButton::Right, warm_up: false }
    ));
}

#[test]
fn seeds_are_odd() {
    assert_eq!(seed_from(None), 0x9E3779B97F4A7C15 | 1);
    assert_eq!(seed_from(Some(Duration::from_nanos(10))), 11);
    assert_eq!(seed_from(Some(Duration::from_nanos(7))), 7);
    assert_eq!(seed() & 1, 1);
}

#[test]
fn start_bookkeeping() {
    assert_eq!(decide_start(None), StartDecision::Spawn { reap: false });
    assert_eq!(decide_start(Some(true)), StartDecision::Spawn { reap: true });
    assert_eq!(decide_start(Some(false)), StartDecision::AlreadyRunning);
    assert!(is_running(Some(false)));
    assert!(!is_running(Some(true)));
    assert!(!is_running(None));
}

#[test]
fn exec_bits() {
    assert!(!exec_bits_missing(0o755));
    assert!(!exec_bits_missing(0o111));
    assert!(exec_bits_missing(0o644));
    assert!(exec_bits_missing(0o754));
}

#[test]
fn monitor_bounding_box() {
    assert_eq!(monitors_bounds(&vec![]), None);
    let ms = vec![
        MonitorRect { x: 0, y: 0, width: 1920, height: 1080 },
        MonitorRect { x: 1920, y: -200, width: 2560, height: 1440 },
    ];
    assert_eq!(monitors_bounds(&ms), Some((0, -200, 4480, 1240)));
    let odd = vec![MonitorRect { x: i32::MAX, y: 0, width: 0, height: 10 }];
    assert_eq!(monitors_bounds(&odd), None);
}

#[test]
fn hotkey_trigger_shown_only_when_bound() {
    assert_eq!(bound_trigger(Some("F6".into())), Some("F6".to_string()));
    assert_eq!(bound_trigger(Some(String::new())), None);
    assert_eq!(bound_trigger(None), None);
}

#[test]
fn input_group_membership() {
    assert!(in_input_group("wheel input video\n"));
    assert!(in_input_group("input"));
    assert!(!in_input_group("inputs wheel"));
    assert!(!in_input_group("wheel\tuinput"));
    assert!(in_input_group("a\u{3000}input\u{a0}b"));
    assert!(contains_word("x y", "y"));
    assert!(same_text("abc", "abc"));
    assert!(!same_text("abc", "abd"));
}

#[test]
fn desktop_entry_text() {
    assert_eq!(
        desktop_entry("/opt/wayclick.AppImage", false),
        "[Desktop Entry]\nName=wayclick\nComment=A sleek, minimal autoclicker for Wayland\nExec=/opt/wayclick.AppImage\nIcon=com.darkharasho.wayclick\nType=Application\nCategories=Utility;\nStartupNotify=false\nStartupWMClass=wayclick\nNoDisplay=false\n"
    );
    assert!(desktop_entry("x", true).ends_with("NoDisplay=true\n"));
}

#[test]
fn setup_script_adds_user() {
    let s = setup_script("alice");
    assert!(s.starts_with("set -e\nmodprobe uinput || true\n"));
    assert!(s.contains("KERNEL==\"uinput\", GROUP=\"input\", MODE=\"0660\", OPTIONS+=\"static_node=uinput\"\nRULE\n"));
    assert!(s.ends_with("usermod -aG input alice\n"));
}

#[test]
fn desktop_entry_parsing() {
    let text = "[Desktop Entry]\r\nName=x\n  Exec=\"/apps/Way Click.AppImage\" --flag\nExec=/usr/bin/first\n\n[Desktop Action New]\nExec=/other\nHidden=true\n";
    let f = entry_facts(text);
    assert_eq!(f.exec_program.as_deref(), Some("/usr/bin/first"));
    assert!(!f.hidden);
    let hidden = entry_facts("Exec=/a b\nNoDisplay=true");
    assert_eq!(hidden.exec_program.as_deref(), Some("/a"));
    assert!(hidden.hidden);
    let none = entry_facts("");
    assert_eq!(none.exec_program, None);
    assert!(!none.hidden);
    assert_eq!(program("\"\"/x/y\" z"), "/x/y");
    assert_eq!(program("/x/y z"), "/x/y");
    assert_eq!(trim_text("  a b \t"), "a b");
}
