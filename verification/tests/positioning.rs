use std::time::Duration;

use wayclick_input::cursor::{
    answer_for, plugin_name, read_tag, reader_tag, script_file_name, script_source, service_name,
};
use wayclick_input::error::InputError;
use wayclick_input::positioner::{clamp, keep_direction, motion_step, Approach, LoopConfig, PositionLoop};

#[test]
fn default_loop_config() {
    let c = LoopConfig::default();
    assert_eq!((c.tolerance, c.max_step, c.max_iters, c.settle_polls), (1, 150, 40, 6));
    assert_eq!(c.settle, Duration::from_millis(8));
    assert_eq!(c.polls(), 6);
    assert_eq!(LoopConfig { settle_polls: 0, ..c }.polls(), 1);
}

#[test]
fn clamping() {
    assert_eq!(clamp(500, 150), 150);
    assert_eq!(clamp(-500, 150), -150);
    assert_eq!(clamp(7, 150), 7);
    assert_eq!(clamp(i32::MIN, 0), 0);
}

#[test]
fn direction_is_kept() {
    assert_eq!(keep_direction(0, 0), 0);
    assert_eq!(keep_direction(3, 0), 1);
    assert_eq!(keep_direction(-3, 0), -1);
    assert_eq!(keep_direction(10, 5), 5);
    assert_eq!(motion_step(1000, 400, 150), 150);
    assert_eq!(motion_step(-1, 0, 150), -1);
}

#[test]
fn loop_arrives_within_tolerance() {
    let mut l = PositionLoop::new(LoopConfig::default(), 100, 100);
    assert!(matches!(l.observe(0, 0), Approach::Nudge { dx: 100, dy: 100 }));
    assert!(matches!(l.observe(99, 101), Approach::Arrived));
}

#[test]
fn loop_gives_up_after_max_iters() {
    let cfg = LoopConfig { max_iters: 3, ..LoopConfig::default() };
    let mut l = PositionLoop::new(cfg, 50, -50);
    for _ in 0..3 {
        assert!(matches!(l.observe(0, 0), Approach::Nudge { dx: 50, dy: -50 }));
    }
    match l.observe(1, 2) {
        Approach::GiveUp(InputError::NotConverged { tx, ty, x, y, steps }) => {
            assert_eq!((tx, ty, x, y, steps), (50, -50, 1, 2, 3));
        }
        other => panic!("expected to give up, got {other:?}"),
    }
}

#[test]
fn zero_iterations_give_up_at_once_unless_on_target() {
    let cfg = LoopConfig { max_iters: 0, ..LoopConfig::default() };
    let mut l = PositionLoop::new(cfg, 0, 0);
    assert!(matches!(l.observe(0, 0), Approach::Arrived));
    assert!(matches!(l.observe(1, -1), Approach::Arrived));
    assert!(matches!(l.observe(5, 5), Approach::GiveUp(_)));
}

#[test]
fn last_nudge_landing_on_target_arrives() {
    let cfg = LoopConfig { max_iters: 2, ..LoopConfig::default() };
    let mut l = PositionLoop::new(cfg, 100, 100);
    assert!(matches!(l.observe(0, 0), Approach::Nudge { .. }));
    assert!(matches!(l.observe(50, 50), Approach::Nudge { .. }));
    assert_eq!(l.sent(), 2);
    assert!(matches!(l.observe(100, 101), Approach::Arrived));
}

#[test]
fn read_tags_and_stale_callbacks() {
    assert_eq!(read_tag(0), 0);
    assert_eq!(read_tag(5), 5);
    assert_eq!(read_tag(i32::MAX as u64), 0);
    assert_eq!(read_tag(i32::MAX as u64 + 3), 3);
    assert_eq!(answer_for(4, (4, 10, 20)), Some((10, 20)));
    assert_eq!(answer_for(4, (3, 10, 20)), None);
}

#[test]
fn kwin_script_names_and_text() {
    let tag = reader_tag(1234, 0);
    assert_eq!(tag, "p1234r0");
    assert_ne!(reader_tag(12, 34), reader_tag(123, 4));
    assert_ne!(reader_tag(1, 10), reader_tag(11, 0));
    assert_ne!(reader_tag(7, 1), reader_tag(7, 2));
    assert_eq!(service_name(&tag), "org.wayclick.spy.p1234r0");
    assert_eq!(script_file_name(&tag), "wayclick-curpos-p1234r0.js");
    assert_eq!(plugin_name(&tag, 17), "wayclick_curpos_p1234r0_17");
    assert_eq!(plugin_name(&tag, -2), "wayclick_curpos_p1234r0_-2");
    assert_eq!(
        script_source("org.wayclick.spy.p1r0", 3),
        "var p = workspace.cursorPos;\ncallDBus(\"org.wayclick.spy.p1r0\", \"/c\", \"org.wayclick.spy\", \"Cursor\", 3, Math.round(p.x), Math.round(p.y));\n"
    );
}
