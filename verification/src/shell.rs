//! The decisions of the desktop shell around the engine: turning the UI's run
//! request into an engine plan, seeding the jitter generator, and bookkeeping
//! of the worker that runs the engine.

use std::time::{Duration, SystemTime};
use vstd::prelude::*;
use crate::duration::duration_nanos;
use crate::engine::{ClickConfig, ClickKind, Repeat, Target};
use crate::keyboard::{Keycode, lookup_name};
use crate::mouse::MouseButton;
use crate::text::{contains_word, has_word, same_text};

verus! {

/// The button a UI button name selects: "right", "middle", anything else left.
pub open spec fn button_named(s: Seq<char>) -> MouseButton {
    if s == "right"@ {
        MouseButton::Right
    } else if s == "middle"@ {
        MouseButton::Middle
    } else {
        MouseButton::Left
    }
}

/// The mouse button a UI button name selects.
pub fn button_from(s: &str) -> (r: MouseButton)
    ensures
        r == button_named(s@),
{
    if same_text(s, "right") {
        MouseButton::Right
    } else if same_text(s, "middle") {
        MouseButton::Middle
    } else {
        MouseButton::Left
    }
}

/// Configuration sent from the UI for one run.
#[derive(Debug, Clone)]
pub struct RunConfig {
    pub interval_ms: u64,
    pub button: String,
    /// "click" or "hold".
    pub action: String,
    /// "single" or "double".
    pub click_kind: String,
    pub hold_key: Option<String>,
    /// `None` runs until stopped.
    pub repeat: Option<u64>,
    /// `None` follows the cursor.
    pub position: Option<[i32; 2]>,
    pub jitter_ms: u64,
    pub reposition_each_click: bool,
}

/// How many priming clicks a cold mouse gets before a press-and-hold: KWin
/// ignores a hold from a mouse that has never clicked (one is not enough,
/// three or more work).
pub const WARM_UP_CLICKS: u32 = 5;
/// The hold of each priming click, in milliseconds.
pub const WARM_UP_HOLD_MS: u64 = 40;
/// The pause after each priming click, in milliseconds.
pub const WARM_UP_GAP_MS: u64 = 60;
/// The press-to-release time of every click a run makes, in milliseconds
/// (at least ~30ms, or KWin drops clicks while the pointer moves).
pub const CLICK_HOLD_MS: u64 = 40;
/// The gap between the two presses of a double click, in milliseconds.
pub const DOUBLE_GAP_MS: u64 = 40;
/// How often a hold re-checks the stop flag, in milliseconds.
pub const HOLD_POLL_MS: u64 = 40;

/// What a run does.
#[derive(Debug)]
pub enum RunPlan {
    /// Press and hold a mouse button until stopped, after priming clicks
    /// where `warm_up` is set.
    HoldButton { button: MouseButton, warm_up: bool },
    /// Press and hold a key until stopped.
    HoldKey(Keycode),
    /// Run the click engine with this configuration.
    Click(ClickConfig),
}

/// The key a hold run asks for: its name looked up in the key table.
pub open spec fn hold_key_of(cfg: RunConfig) -> Option<u16> {
    match cfg.hold_key {
        Some(n) => lookup_name(n@),
        None => None,
    }
}

/// The click configuration a click run asks for, apart from its durations.
pub open spec fn click_plan_matches(cfg: RunConfig, c: ClickConfig) -> bool {
    &&& c.button == button_named(cfg.button@)
    &&& c.kind == if cfg.click_kind@ == "double"@ { ClickKind::Double } else { ClickKind::Single }
    &&& duration_nanos(c.interval) == cfg.interval_ms * 1_000_000
    &&& duration_nanos(c.jitter) == cfg.jitter_ms * 1_000_000
    &&& c.repeat == match cfg.repeat {
        Some(n) => Repeat::Count(n),
        None => Repeat::Infinite,
    }
    &&& c.target == match cfg.position {
        Some(p) => Target::Fixed { x: p[0], y: p[1] },
        None => Target::FollowCursor,
    }
    &&& duration_nanos(c.hold) == CLICK_HOLD_MS * 1_000_000
    &&& duration_nanos(c.double_gap) == DOUBLE_GAP_MS * 1_000_000
    &&& c.reposition_each_click == cfg.reposition_each_click
}

/// Decide what a run of `cfg` does. `warmed` tells whether the mouse has
/// already delivered real click cycles this session.
pub fn plan_run(cfg: &RunConfig, warmed: bool) -> (r: RunPlan)
    ensures
        cfg.action@ == "hold"@ ==> match hold_key_of(*cfg) {
            Some(code) => (r matches RunPlan::HoldKey(k) && k@ == code),
            None => r == (RunPlan::HoldButton { button: button_named(cfg.button@), warm_up: !warmed }),
        },
        cfg.action@ != "hold"@ ==> (r matches RunPlan::Click(c) && click_plan_matches(*cfg, c)),
        cfg.action@ != "hold"@ ==> (r matches RunPlan::Click(c)
            && c.reposition_each_click == cfg.reposition_each_click),
{
    if same_text(cfg.action.as_str(), "hold") {
        let key = match &cfg.hold_key {
            Some(n) => Keycode::from_name(n.as_str()),
            None => None,
        };
        return match key {
            Some(k) => RunPlan::HoldKey(k),
            None => RunPlan::HoldButton { button: button_from(cfg.button.as_str()), warm_up: !warmed },
        };
    }
    let kind = if same_text(cfg.click_kind.as_str(), "double") {
        ClickKind::Double
    } else {
        ClickKind::Single
    };
    let repeat = match cfg.repeat {
        Some(n) => Repeat::Count(n),
        None => Repeat::Infinite,
    };
    let target = match cfg.position {
        Some(p) => Target::Fixed { x: p[0], y: p[1] },
        None => Target::FollowCursor,
    };
    RunPlan::Click(
        ClickConfig {
            button: button_from(cfg.button.as_str()),
            kind,
            interval: crate::duration::from_millis(cfg.interval_ms),
            jitter: crate::duration::from_millis(cfg.jitter_ms),
            repeat,
            target,
            hold: crate::duration::from_millis(CLICK_HOLD_MS),
            double_gap: crate::duration::from_millis(DOUBLE_GAP_MS),
            reposition_each_click: cfg.reposition_each_click,
        },
    )
}

/// `std::time::SystemTime`, the wall clock the seed is taken from.
#[verifier::external_type_specification]
#[verifier::external_body]
pub struct ExSystemTime(SystemTime);

/// `SystemTime::now`: the current wall-clock time. Nothing is known of it.
#[verifier::external_body]
fn wall_clock_now() -> SystemTime {
    SystemTime::now()
}

/// `SystemTime::duration_since(UNIX_EPOCH)`: the time elapsed since the Unix
/// epoch, or `None` for a clock set before it. Nothing is known of it.
#[verifier::external_body]
fn since_unix_epoch(t: SystemTime) -> Option<Duration> {
    t.duration_since(SystemTime::UNIX_EPOCH).ok()
}

/// The fallback seed for a clock set before the Unix epoch.
pub const FALLBACK_SEED: u64 = 0x9E3779B97F4A7C15;

/// The seed taken from the time elapsed since the epoch: its nanoseconds
/// truncated to 64 bits, or the fallback; the low bit always set.
pub open spec fn seed_of(elapsed: Option<Duration>) -> u64 {
    match elapsed {
        Some(d) => (duration_nanos(d) as u64) | 1,
        None => FALLBACK_SEED | 1,
    }
}

/// The seed for the time elapsed since the epoch, `None` for a clock set
/// before it.
pub fn seed_from(elapsed: Option<Duration>) -> (r: u64)
    ensures
        r == seed_of(elapsed),
        r & 1 == 1,
{
    let v = match elapsed {
        Some(d) => crate::duration::nanos(d) as u64,
        None => FALLBACK_SEED,
    };
    let r = v | 1;
    assert(r & 1 == 1) by (bit_vector)
        requires r == v | 1;
    r
}

/// A time-derived seed for the jitter generator; always odd.
pub fn seed() -> (r: u64)
    ensures
        r & 1 == 1,
{
    seed_from(since_unix_epoch(wall_clock_now()))
}

/// What to do on a start request, given the worker handle left from the
/// last start (`Some(finished)`), if any.
#[derive(Debug, Clone, Copy, PartialEq, Eq, Structural)]
pub enum StartDecision {
    /// Start a worker; `reap` asks to join the finished previous one first.
    Spawn { reap: bool },
    /// A worker is still running: ignore the request.
    AlreadyRunning,
}

/// Decide a start request. A worker that ended on its own (finite count,
/// engine error) leaves its handle behind; it is reaped so that start works
/// again instead of silently doing nothing.
pub fn decide_start(previous: Option<bool>) -> (r: StartDecision)
    ensures
        r == match previous {
            None => StartDecision::Spawn { reap: false },
            Some(true) => StartDecision::Spawn { reap: true },
            Some(false) => StartDecision::AlreadyRunning,
        },
{
    match previous {
        None => StartDecision::Spawn { reap: false },
        Some(finished) => if finished {
            StartDecision::Spawn { reap: true }
        } else {
            StartDecision::AlreadyRunning
        },
    }
}

/// Whether the clicker is running, given the worker handle (`Some(finished)`).
pub fn is_running(previous: Option<bool>) -> (r: bool)
    ensures
        r == (previous == Some(false)),
{
    match previous {
        Some(finished) => !finished,
        None => false,
    }
}

/// The three execute permission bits.
pub const EXEC_BITS: u32 = 0o111;
/// The mode restored where an execute bit is missing.
pub const RESTORED_MODE: u32 = 0o755;

/// Whether a file mode misses one of the execute bits.
pub fn exec_bits_missing(mode: u32) -> (r: bool)
    ensures
        r == (mode & EXEC_BITS != EXEC_BITS),
{
    mode & EXEC_BITS != EXEC_BITS
}

/// The position and size of one monitor, in desktop pixels.
#[derive(Debug, Clone, Copy)]
pub struct MonitorRect {
    pub x: i32,
    pub y: i32,
    pub width: u32,
    pub height: u32,
}

/// The right or bottom edge of a monitor: its position plus its size cast to
/// `i32`, which wraps sizes above `i32::MAX` as the cast does.
pub open spec fn far_edge(pos: i32, size: u32) -> int {
    pos + (size as i32)
}

/// Whether the edges of every monitor fit an `i32` (otherwise the sum
/// overflows).
pub open spec fn edges_fit(ms: Seq<MonitorRect>) -> bool {
    forall|i: int| 0 <= i < ms.len() ==> {
        &&& i32::MIN <= far_edge((#[trigger] ms[i]).x, ms[i].width) <= i32::MAX
        &&& i32::MIN <= far_edge(ms[i].y, ms[i].height) <= i32::MAX
    }
}

/// The bounding box `(min x, min y, max right, max bottom)` of the monitors,
/// starting from the empty box `(i32::MAX, i32::MAX, i32::MIN, i32::MIN)`.
pub open spec fn bounds_of(ms: Seq<MonitorRect>) -> (int, int, int, int)
    decreases ms.len(),
{
    if ms.len() == 0 {
        (i32::MAX as int, i32::MAX as int, i32::MIN as int, i32::MIN as int)
    } else {
        let b = bounds_of(ms.drop_last());
        let m = ms.last();
        (
            if m.x < b.0 { m.x as int } else { b.0 },
            if m.y < b.1 { m.y as int } else { b.1 },
            if far_edge(m.x, m.width) > b.2 { far_edge(m.x, m.width) } else { b.2 },
            if far_edge(m.y, m.height) > b.3 { far_edge(m.y, m.height) } else { b.3 },
        )
    }
}

/// The box spanning all monitors, so that any pixel of the desktop is
/// reachable: `None` when the smallest x is still `i32::MAX`, as with no
/// monitors at all.
pub fn monitors_bounds(monitors: &Vec<MonitorRect>) -> (r: Option<(i32, i32, i32, i32)>)
    requires
        edges_fit(monitors@),
    ensures
        r is None <==> bounds_of(monitors@).0 == i32::MAX,
        r matches Some(b) ==> (b.0 as int, b.1 as int, b.2 as int, b.3 as int) == bounds_of(monitors@),
        r matches Some(b) ==> forall|i: int| 0 <= i < monitors@.len() ==> {
            &&& b.0 <= (#[trigger] monitors@[i]).x
            &&& b.1 <= monitors@[i].y
            &&& monitors@[i].x + (monitors@[i].width as i32) <= b.2
            &&& monitors@[i].y + (monitors@[i].height as i32) <= b.3
        },
        r matches Some(b) ==> {
            &&& exists|i: int| 0 <= i < monitors@.len() && b.0 == (#[trigger] monitors@[i]).x
            &&& exists|i: int| 0 <= i < monitors@.len() && b.1 == (#[trigger] monitors@[i]).y
            &&& exists|i: int| 0 <= i < monitors@.len()
                && b.2 == (#[trigger] monitors@[i]).x + (monitors@[i].width as i32)
            &&& exists|i: int| 0 <= i < monitors@.len()
                && b.3 == (#[trigger] monitors@[i]).y + (monitors@[i].height as i32)
        },
{
    let mut minx: i32 = i32::MAX;
    let mut miny: i32 = i32::MAX;
    let mut maxx: i32 = i32::MIN;
    let mut maxy: i32 = i32::MIN;
    let mut i: usize = 0;
    while i < monitors.len()
        invariant
            i <= monitors@.len(),
            edges_fit(monitors@),
            (minx as int, miny as int, maxx as int, maxy as int) == bounds_of(monitors@.take(i as int)),
        decreases monitors@.len() - i,
    {
        let m = monitors[i];
        assert(monitors@.take(i as int + 1).drop_last() =~= monitors@.take(i as int));
        let right = m.x + m.width as i32;
        let bottom = m.y + m.height as i32;
        if m.x < minx {
            minx = m.x;
        }
        if m.y < miny {
            miny = m.y;
        }
        if right > maxx {
            maxx = right;
        }
        if bottom > maxy {
            maxy = bottom;
        }
        i = i + 1;
    }
    assert(monitors@.take(i as int) =~= monitors@);
    proof {
        bounding_box_spans_all(monitors@);
    }
    if minx == i32::MAX {
        return None;
    }
    Some((minx, miny, maxx, maxy))
}

/// The hotkey trigger to show: the one the portal bound, unless it is empty.
pub fn bound_trigger(bound: Option<String>) -> (r: Option<String>)
    ensures
        r == match bound {
            Some(t) => if t@.len() == 0 { None::<String> } else { Some(t) },
            None => None::<String>,
        },
{
    match bound {
        Some(t) => if t.unicode_len() == 0 { None } else { Some(t) },
        None => None,
    }
}

/// Whether the group list printed by `id -nG` names the `input` group.
pub fn in_input_group(groups: &str) -> (r: bool)
    ensures
        r == has_word(groups@, "input"@),
{
    proof {
        reveal_strlit("input");
    }
    contains_word(groups, "input")
}

/// The user `.desktop` entry that gives the portal a stable app id for the
/// executable at `exec`; `no_display` hides it from menus.
pub open spec fn desktop_entry_text(exec: Seq<char>, no_display: bool) -> Seq<char> {
    "[Desktop Entry]\nName=wayclick\nComment=A sleek, minimal autoclicker for Wayland\nExec="@
        + exec
        + "\nIcon=com.darkharasho.wayclick\nType=Application\nCategories=Utility;\nStartupNotify=false\nStartupWMClass=wayclick\nNoDisplay="@
        + (if no_display { "true"@ } else { "false"@ })
        + "\n"@
}

/// The text of the user `.desktop` entry for the executable at `exec`.
pub fn desktop_entry(exec: &str, no_display: bool) -> (r: String)
    ensures
        r@ == desktop_entry_text(exec@, no_display),
{
    let mut r = String::from_str(
        "[Desktop Entry]\nName=wayclick\nComment=A sleek, minimal autoclicker for Wayland\nExec=",
    );
    r.append(exec);
    r.append(
        "\nIcon=com.darkharasho.wayclick\nType=Application\nCategories=Utility;\nStartupNotify=false\nStartupWMClass=wayclick\nNoDisplay=",
    );
    if no_display {
        r.append("true");
    } else {
        r.append("false");
    }
    r.append("\n");
    r
}

/// The one-time privileged setup run through `pkexec`: load `uinput`,
/// install a udev rule granting the `input` group access, and add `user` to
/// that group.
pub open spec fn setup_script_text(user: Seq<char>) -> Seq<char> {
    "set -e\nmodprobe uinput || true\necho uinput > /etc/modules-load.d/uinput.conf\n"@
        + "cat > /etc/udev/rules.d/99-wayclick.rules <<'RULE'\nKERNEL==\"uinput\", GROUP=\"input\", MODE=\"0660\", OPTIONS+=\"static_node=uinput\"\nRULE\n"@
        + "udevadm control --reload-rules\nudevadm trigger /dev/uinput || udevadm trigger\nusermod -aG input "@
        + user
        + "\n"@
}

/// The setup script for `user`.
pub fn setup_script(user: &str) -> (r: String)
    ensures
        r@ == setup_script_text(user@),
        exists|k: int|
            0 <= k && k + "cat > /etc/udev/rules.d/99-wayclick.rules <<'RULE'\nKERNEL==\"uinput\", GROUP=\"input\", MODE=\"0660\", OPTIONS+=\"static_node=uinput\"\nRULE\n"@.len() <= r@.len()
            && (#[trigger] r@.subrange(k, k + "cat > /etc/udev/rules.d/99-wayclick.rules <<'RULE'\nKERNEL==\"uinput\", GROUP=\"input\", MODE=\"0660\", OPTIONS+=\"static_node=uinput\"\nRULE\n"@.len())) == "cat > /etc/udev/rules.d/99-wayclick.rules <<'RULE'\nKERNEL==\"uinput\", GROUP=\"input\", MODE=\"0660\", OPTIONS+=\"static_node=uinput\"\nRULE\n"@,
{
    let mut r = String::from_str("set -e\nmodprobe uinput || true\necho uinput > /etc/modules-load.d/uinput.conf\n");
    r.append("cat > /etc/udev/rules.d/99-wayclick.rules <<'RULE'\nKERNEL==\"uinput\", GROUP=\"input\", MODE=\"0660\", OPTIONS+=\"static_node=uinput\"\nRULE\n");
    r.append("udevadm control --reload-rules\nudevadm trigger /dev/uinput || udevadm trigger\nusermod -aG input ");
    r.append(user);
    r.append("\n");
    proof {
        setup_script_installs_rule(user@);
    }
    r
}

/// The setup script writes the udev rule granting the `input` group access
/// to `/dev/uinput` to `/etc/udev/rules.d/99-wayclick.rules` (the path the
/// access check looks at), and ends by adding `user` to the `input` group.
pub proof fn setup_script_installs_rule(user: Seq<char>)
    ensures
        exists|k: int|
            0 <= k && k + "cat > /etc/udev/rules.d/99-wayclick.rules <<'RULE'\nKERNEL==\"uinput\", GROUP=\"input\", MODE=\"0660\", OPTIONS+=\"static_node=uinput\"\nRULE\n"@.len() <= setup_script_text(user).len()
            && (#[trigger] setup_script_text(user).subrange(k, k + "cat > /etc/udev/rules.d/99-wayclick.rules <<'RULE'\nKERNEL==\"uinput\", GROUP=\"input\", MODE=\"0660\", OPTIONS+=\"static_node=uinput\"\nRULE\n"@.len())) == "cat > /etc/udev/rules.d/99-wayclick.rules <<'RULE'\nKERNEL==\"uinput\", GROUP=\"input\", MODE=\"0660\", OPTIONS+=\"static_node=uinput\"\nRULE\n"@,
        setup_script_text(user).len() >= "usermod -aG input "@.len() + user.len() + 1,
        setup_script_text(user).subrange(
            setup_script_text(user).len() - ("usermod -aG input "@.len() + user.len() + 1),
            setup_script_text(user).len() as int,
        ) == "usermod -aG input "@ + user + "\n"@,
{
    reveal_strlit("usermod -aG input ");
    reveal_strlit("\n");
    reveal_strlit("udevadm control --reload-rules\nudevadm trigger /dev/uinput || udevadm trigger\nusermod -aG input ");
    let a = "set -e\nmodprobe uinput || true\necho uinput > /etc/modules-load.d/uinput.conf\n"@;
    let b = "cat > /etc/udev/rules.d/99-wayclick.rules <<'RULE'\nKERNEL==\"uinput\", GROUP=\"input\", MODE=\"0660\", OPTIONS+=\"static_node=uinput\"\nRULE\n"@;
    let c = "udevadm control --reload-rules\nudevadm trigger /dev/uinput || udevadm trigger\nusermod -aG input "@;
    let t = setup_script_text(user);
    assert(t == a + b + c + user + "\n"@);
    assert(t.subrange(a.len() as int, (a.len() + b.len()) as int) =~= b);
    let tail = "usermod -aG input "@ + user + "\n"@;
    let p = "usermod -aG input "@;
    assert(c.subrange(c.len() - p.len(), c.len() as int) =~= p);
    assert(c =~= c.subrange(0, c.len() - p.len()) + p);
    let pre = a + b + c.subrange(0, c.len() - p.len());
    assert(t =~= pre + tail);
    assert(t.subrange(t.len() - tail.len(), t.len() as int) =~= tail);
}

/// The bounding box spans every monitor and is tight: each monitor lies
/// inside it, and each of its four edges is an edge of some monitor. With no
/// monitors it is the empty box `(i32::MAX, i32::MAX, i32::MIN, i32::MIN)`.
pub proof fn bounding_box_spans_all(ms: Seq<MonitorRect>)
    requires
        edges_fit(ms),
    ensures
        ({
            let b = bounds_of(ms);
            &&& forall|i: int| 0 <= i < ms.len() ==> {
                &&& b.0 <= (#[trigger] ms[i]).x
                &&& b.1 <= ms[i].y
                &&& ms[i].x + (ms[i].width as i32) <= b.2
                &&& ms[i].y + (ms[i].height as i32) <= b.3
            }
            &&& ms.len() == 0 ==> b == (i32::MAX as int, i32::MAX as int, i32::MIN as int, i32::MIN as int)
            &&& ms.len() > 0 ==> {
                &&& exists|i: int| 0 <= i < ms.len() && b.0 == (#[trigger] ms[i]).x
                &&& exists|i: int| 0 <= i < ms.len() && b.1 == (#[trigger] ms[i]).y
                &&& exists|i: int| 0 <= i < ms.len() && b.2 == (#[trigger] ms[i]).x + (ms[i].width as i32)
                &&& exists|i: int| 0 <= i < ms.len() && b.3 == (#[trigger] ms[i]).y + (ms[i].height as i32)
            }
        }),
    decreases ms.len(),
{
    if ms.len() > 0 {
        let rest = ms.drop_last();
        assert(edges_fit(rest)) by {
            assert forall|i: int| 0 <= i < rest.len() implies {
                &&& i32::MIN <= far_edge((#[trigger] rest[i]).x, rest[i].width) <= i32::MAX
                &&& i32::MIN <= far_edge(rest[i].y, rest[i].height) <= i32::MAX
            } by {
                assert(rest[i] == ms[i]);
            }
        }
        bounding_box_spans_all(rest);
        let b = bounds_of(ms);
        let c = bounds_of(rest);
        let last = ms.len() - 1;
        let m = ms[last];
        assert forall|i: int| 0 <= i < ms.len() implies {
            &&& b.0 <= (#[trigger] ms[i]).x
            &&& b.1 <= ms[i].y
            &&& ms[i].x + (ms[i].width as i32) <= b.2
            &&& ms[i].y + (ms[i].height as i32) <= b.3
        } by {
            if i < last {
                assert(ms[i] == rest[i]);
            }
        }
        if rest.len() == 0 {
            assert(ms[last].x == m.x);
            assert(b.0 == ms[last].x);
            assert(b.1 == ms[last].y);
            assert(b.2 == ms[last].x + (ms[last].width as i32));
            assert(b.3 == ms[last].y + (ms[last].height as i32));
        } else {
            if m.x < c.0 {
                assert(b.0 == ms[last].x);
            } else {
                let k = choose|k: int| 0 <= k < rest.len() && c.0 == (#[trigger] rest[k]).x;
                assert(b.0 == ms[k].x);
            }
            if m.y < c.1 {
                assert(b.1 == ms[last].y);
            } else {
                let k = choose|k: int| 0 <= k < rest.len() && c.1 == (#[trigger] rest[k]).y;
                assert(b.1 == ms[k].y);
            }
            if far_edge(m.x, m.width) > c.2 {
                assert(b.2 == ms[last].x + (ms[last].width as i32));
            } else {
                let k = choose|k: int| 0 <= k < rest.len() && c.2 == (#[trigger] rest[k]).x + (rest[k].width as i32);
                assert(b.2 == ms[k].x + (ms[k].width as i32));
            }
            if far_edge(m.y, m.height) > c.3 {
                assert(b.3 == ms[last].y + (ms[last].height as i32));
            } else {
                let k = choose|k: int| 0 <= k < rest.len() && c.3 == (#[trigger] rest[k]).y + (rest[k].height as i32);
                assert(b.3 == ms[k].y + (ms[k].height as i32));
            }
        }
    }
}

/// A click run does what the request asks, field by field: re-positioning
/// before each click exactly when the request asks for it (whether or not a
/// position is given), a fixed target exactly at the requested position and
/// following the cursor otherwise, a count exactly when one is given, and
/// the requested interval and jitter.
pub proof fn click_plan_follows_request(cfg: RunConfig, c: ClickConfig)
    requires
        click_plan_matches(cfg, c),
    ensures
        c.reposition_each_click == cfg.reposition_each_click,
        cfg.position is None ==> c.target == Target::FollowCursor,
        cfg.position matches Some(p) ==> c.target == (Target::Fixed { x: p[0], y: p[1] }),
        cfg.repeat is None ==> c.repeat == Repeat::Infinite,
        cfg.repeat matches Some(n) ==> c.repeat == Repeat::Count(n),
        duration_nanos(c.interval) == cfg.interval_ms * 1_000_000,
        duration_nanos(c.jitter) == cfg.jitter_ms * 1_000_000,
        duration_nanos(c.hold) == 40_000_000,
        duration_nanos(c.double_gap) == 40_000_000,
{
}

} // verus!
