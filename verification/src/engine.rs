//! The autoclicker's decisions: how many clicks, the jittered delay between
//! them, and a deterministic generator for that jitter.

use std::time::Duration;
use vstd::prelude::*;
use crate::duration::{duration_nanos, max_nanos};
use crate::mouse::MouseButton;

verus! {

/// The multiplier of the xorshift64* output scramble.
pub const SCRAMBLE: u64 = 0x2545F4914F6CDD1D;

/// One xorshift64 step of the generator's state.
pub open spec fn xorshift(x: u64) -> u64 {
    let a = x ^ (x >> 12u64);
    let b = a ^ (a << 25u64);
    b ^ (b >> 27u64)
}

/// The value the generator hands out after moving to state `x`.
pub open spec fn scramble(x: u64) -> u64 {
    x.wrapping_mul(SCRAMBLE)
}

/// Deterministic, dependency-free PRNG (xorshift64*) for interval jitter.
pub struct Rng(u64);

impl View for Rng {
    type V = u64;

    closed spec fn view(&self) -> u64 {
        self.0
    }
}

impl Rng {
    /// The generator's state is never zero (xorshift would stay at zero forever).
    #[verifier::type_invariant]
    spec fn nonzero(&self) -> bool {
        self.0 != 0
    }

    /// A generator seeded with `seed`; the low bit is forced on so the state
    /// is never zero.
    pub fn new(seed: u64) -> (r: Self)
        ensures
            r@ == seed | 1,
    {
        let s = seed | 1;
        assert(s != 0) by (bit_vector)
            requires s == seed | 1;
        Rng(s)
    }

    /// Advance the state one xorshift step and return the scrambled state.
    pub fn next_u64(&mut self) -> (r: u64)
        ensures
            final(self)@ == xorshift(old(self)@),
            r == scramble(xorshift(old(self)@)),
    {
        proof { use_type_invariant(&*self); }
        let mut x = self.0;
        proof { lemma_xorshift_nonzero(x); }
        x = x ^ (x >> 12);
        x = x ^ (x << 25);
        x = x ^ (x >> 27);
        self.0 = x;
        x.wrapping_mul(SCRAMBLE)
    }

    /// Uniform value in `[0, max]` (inclusive); `max == u64::MAX` would
    /// overflow `max + 1`, so it is left out.
    pub fn in_range(&mut self, max: u64) -> (r: u64)
        requires
            max < u64::MAX,
        ensures
            r == draw(old(self)@, max),
            final(self)@ == draw_state(old(self)@, max),
            r <= max,
    {
        if max == 0 {
            0
        } else {
            self.next_u64() % (max + 1)
        }
    }
}

impl Rng {
    /// The value `in_range(max)` would draw next, without drawing it.
    pub fn peek_range(&self, max: u64) -> (r: u64)
        requires
            max < u64::MAX,
        ensures
            r == draw(self@, max),
    {
        proof { use_type_invariant(self); }
        let mut probe = Rng(self.0);
        probe.in_range(max)
    }
}

/// The value `Rng::in_range(max)` draws from state `state`.
pub open spec fn draw(state: u64, max: u64) -> u64 {
    if max == 0 {
        0
    } else {
        (scramble(xorshift(state)) % (max + 1) as u64) as u64
    }
}

/// The state `Rng::in_range(max)` leaves behind from state `state`.
pub open spec fn draw_state(state: u64, max: u64) -> u64 {
    if max == 0 {
        state
    } else {
        xorshift(state)
    }
}

/// The jitter in whole microseconds, truncated to 64 bits as the delay
/// computation does.
pub open spec fn jitter_micros(jitter: Duration) -> u64 {
    (duration_nanos(jitter) / 1_000) as u64
}

/// The inputs on which `next_delay`, drawing from generator state `state`,
/// neither overflows `2 * jitter` in microseconds nor overflows
/// `interval + offset` for the offset it draws.
pub open spec fn delay_in_range(interval: Duration, jitter: Duration, state: u64) -> bool {
    duration_nanos(jitter) != 0 ==> {
        &&& jitter_micros(jitter) <= u64::MAX / 2
        &&& duration_nanos(interval) + draw(state, (2 * jitter_micros(jitter)) as u64) * 1_000
            <= max_nanos()
    }
}

/// Whether `next_delay` can compute the delay for `interval` and `jitter`
/// from the generator `rng` without overflowing (the generator is left as
/// it is).
pub fn delay_fits(interval: Duration, jitter: Duration, rng: &Rng) -> (r: bool)
    ensures
        r == delay_in_range(interval, jitter, rng@),
{
    if crate::duration::is_zero(jitter) {
        return true;
    }
    let j = crate::duration::micros(jitter) as u64;
    if j > u64::MAX / 2 {
        return false;
    }
    let drawn = rng.peek_range(2 * j) as u128;
    let offset: u128 = drawn * 1_000;
    let n = crate::duration::nanos(interval);
    n <= 18_446_744_073_709_551_615_999_999_999u128 - offset
}

/// The length of the delay `next_delay` computes from generator state `state`.
pub open spec fn delay_nanos(interval: Duration, jitter: Duration, state: u64) -> nat {
    if duration_nanos(jitter) == 0 {
        duration_nanos(interval)
    } else {
        let offset = draw(state, (2 * jitter_micros(jitter)) as u64) * 1_000;
        if duration_nanos(interval) + offset >= duration_nanos(jitter) {
            (duration_nanos(interval) + offset - duration_nanos(jitter)) as nat
        } else {
            0nat
        }
    }
}

/// The generator state `next_delay` leaves behind.
pub open spec fn delay_state(jitter: Duration, state: u64) -> u64 {
    if duration_nanos(jitter) == 0 {
        state
    } else {
        draw_state(state, (2 * jitter_micros(jitter)) as u64)
    }
}

/// Compute the delay before the next click: uniform in `[interval - jitter,
/// interval + jitter]` (jitter is "±"), saturating at zero.
pub fn next_delay(interval: Duration, jitter: Duration, rng: &mut Rng) -> (r: Duration)
    requires
        delay_in_range(interval, jitter, old(rng)@),
    ensures
        duration_nanos(r) == delay_nanos(interval, jitter, old(rng)@),
        final(rng)@ == delay_state(jitter, old(rng)@),
        duration_nanos(jitter) == 0 ==> r == interval,
        duration_nanos(interval) <= duration_nanos(jitter) + duration_nanos(r),
        duration_nanos(jitter) / 1_000 <= u64::MAX ==> duration_nanos(r) <= duration_nanos(interval)
            + duration_nanos(jitter),
{
    if crate::duration::is_zero(jitter) {
        return interval;
    }
    let j = crate::duration::micros(jitter) as u64;
    let bound = 2 * j;
    let offset = crate::duration::from_micros(rng.in_range(bound));
    let total = crate::duration::sum(interval, offset);
    let r = crate::duration::saturating_sub(total, jitter);
    proof {
        let n = duration_nanos(jitter);
        let m = duration_nanos(offset);
        if n / 1_000 <= u64::MAX {
            assert(j == n / 1_000);
            assert(m <= 2 * (n / 1_000) * 1_000);
            assert((n / 1_000) * 1_000 <= n) by (nonlinear_arith)
                requires n >= 0;
        }
    }
    r
}

/// Whether the loop should continue given how many clicks have happened.
pub fn should_continue(repeat: Repeat, done: u64) -> (r: bool)
    ensures
        r == continues(repeat, done),
{
    match repeat {
        Repeat::Infinite => true,
        Repeat::Count(n) => done < n,
    }
}

/// Whether a run with `repeat` goes on after `done` clicks.
pub open spec fn continues(repeat: Repeat, done: u64) -> bool {
    match repeat {
        Repeat::Infinite => true,
        Repeat::Count(n) => done < n,
    }
}

/// How many clicks to perform.
#[derive(Debug, Clone, Copy, PartialEq, Eq)]
pub enum Repeat {
    Infinite,
    Count(u64),
}

/// xorshift maps a nonzero state to a nonzero state.
pub proof fn lemma_xorshift_nonzero(x: u64)
    requires
        x != 0,
    ensures
        xorshift(x) != 0,
{
    let a = x ^ (x >> 12u64);
    let b = a ^ (a << 25u64);
    assert(a != 0) by (bit_vector)
        requires x != 0, a == x ^ (x >> 12u64);
    assert(b != 0) by (bit_vector)
        requires a != 0, b == a ^ (a << 25u64);
    assert(b ^ (b >> 27u64) != 0) by (bit_vector)
        requires b != 0;
}

} // verus!

verus! {

/// Single or double click per tick.
#[derive(Debug, Clone, Copy, PartialEq, Eq, Structural)]
pub enum ClickKind {
    Single,
    Double,
}

/// Where each click lands.
#[derive(Debug, Clone, Copy, PartialEq, Eq, Structural)]
pub enum Target {
    /// Click wherever the pointer currently is.
    FollowCursor,
    /// Click at a fixed desktop pixel.
    Fixed { x: i32, y: i32 },
}

/// Full autoclicker configuration.
#[derive(Debug, Clone, Copy)]
pub struct ClickConfig {
    pub button: MouseButton,
    pub kind: ClickKind,
    /// Base delay between ticks.
    pub interval: Duration,
    /// Random jitter applied to the interval, in `[-jitter, +jitter]`. Zero = fixed.
    pub jitter: Duration,
    pub repeat: Repeat,
    pub target: Target,
    /// Button hold time within a single click. Must stay above ~30ms or KWin
    /// drops the click while the pointer is moving.
    pub hold: Duration,
    /// Gap between the two presses of a double click.
    pub double_gap: Duration,
    /// Re-assert the fixed position before every click (slower, drift-proof).
    pub reposition_each_click: bool,
}

impl Default for ClickConfig {
    /// Left single clicks every 100ms without jitter, until stopped, wherever
    /// the pointer is, with a 40ms hold and a 40ms double-click gap.
    fn default() -> (r: Self)
        ensures
            r.button == MouseButton::Left,
            r.kind == ClickKind::Single,
            duration_nanos(r.interval) == 100_000_000,
            duration_nanos(r.jitter) == 0,
            r.repeat == Repeat::Infinite,
            r.target == Target::FollowCursor,
            duration_nanos(r.hold) == 40_000_000,
            duration_nanos(r.double_gap) == 40_000_000,
            !r.reposition_each_click,
    {
        ClickConfig {
            button: MouseButton::Left,
            kind: ClickKind::Single,
            interval: crate::duration::from_millis(100),
            jitter: crate::duration::from_millis(0),
            repeat: Repeat::Infinite,
            target: Target::FollowCursor,
            hold: crate::duration::from_millis(40),
            double_gap: crate::duration::from_millis(40),
            reposition_each_click: false,
        }
    }
}

/// One thing the click loop does within a tick.
#[derive(Debug, Clone, Copy)]
pub enum ClickStep {
    /// Position the pointer at a desktop pixel.
    MoveTo { x: i32, y: i32 },
    /// Press `button`, hold it for `hold`, release it.
    Click { button: MouseButton, hold: Duration },
    /// Wait (the gap between the presses of a double click).
    Pause(Duration),
}

/// The steps of one tick under `cfg`: re-positioning where asked for and the
/// target is fixed, one click, and for a double click a pause and a second
/// click.
pub open spec fn tick_steps(cfg: ClickConfig) -> Seq<ClickStep> {
    let click = ClickStep::Click { button: cfg.button, hold: cfg.hold };
    let reposition = match cfg.target {
        Target::Fixed { x, y } => if cfg.reposition_each_click {
            seq![ClickStep::MoveTo { x, y }]
        } else {
            Seq::empty()
        },
        Target::FollowCursor => Seq::empty(),
    };
    let clicks = match cfg.kind {
        ClickKind::Single => seq![click],
        ClickKind::Double => seq![click, ClickStep::Pause(cfg.double_gap), click],
    };
    reposition + clicks
}

/// The decisions of one autoclicker run, apart from the clicking, waiting and
/// positioning that the caller performs: which steps make up a tick, whether
/// another tick follows, and how long to wait before it.
pub struct ClickSession {
    cfg: ClickConfig,
    rng: Rng,
    done: u64,
}

impl ClickSession {
    /// The configuration the run uses.
    pub closed spec fn config(&self) -> ClickConfig {
        self.cfg
    }

    /// How many ticks have completed.
    pub closed spec fn ticks(&self) -> u64 {
        self.done
    }

    /// The state of the jitter generator.
    pub closed spec fn rng_state(&self) -> u64 {
        self.rng@
    }

    /// A run of `cfg` whose jitter generator is seeded with `seed` (pass a
    /// time-derived value).
    pub fn new(cfg: ClickConfig, seed: u64) -> (r: Self)
        ensures
            r.config() == cfg,
            r.ticks() == 0,
            r.rng_state() == seed | 1,
    {
        ClickSession { cfg, rng: Rng::new(seed), done: 0 }
    }

    /// Where to position the pointer once, before the first tick: the fixed
    /// target, if any (clicks do not move the pointer, so it stays put).
    pub fn initial_position(&self) -> (r: Option<(i32, i32)>)
        ensures
            r == match self.config().target {
                Target::Fixed { x, y } => Some((x, y)),
                Target::FollowCursor => None::<(i32, i32)>,
            },
    {
        match self.cfg.target {
            Target::Fixed { x, y } => Some((x, y)),
            Target::FollowCursor => None,
        }
    }

    /// Whether another tick runs: the count is not exhausted and no stop was
    /// requested.
    pub fn running(&self, stopped: bool) -> (r: bool)
        ensures
            r == (continues(self.config().repeat, self.ticks()) && !stopped),
    {
        should_continue(self.cfg.repeat, self.done) && !stopped
    }

    /// The steps of the next tick.
    pub fn tick(&self) -> (r: Vec<ClickStep>)
        ensures
            r@ == tick_steps(self.config()),
    {
        let cfg = self.cfg;
        let click = ClickStep::Click { button: cfg.button, hold: cfg.hold };
        let mut steps: Vec<ClickStep> = Vec::new();
        if cfg.reposition_each_click {
            if let Target::Fixed { x, y } = cfg.target {
                steps.push(ClickStep::MoveTo { x, y });
            }
        }
        steps.push(click);
        if let ClickKind::Double = cfg.kind {
            steps.push(ClickStep::Pause(cfg.double_gap));
            steps.push(click);
        }
        assert(steps@ =~= tick_steps(cfg));
        steps
    }

    /// Record a finished tick. `None` when the count is now exhausted;
    /// otherwise the delay until the next tick, drawn from the generator.
    pub fn complete_tick(&mut self) -> (r: Option<Duration>)
        requires
            old(self).ticks() < u64::MAX,
            continues(old(self).config().repeat, (old(self).ticks() + 1) as u64) ==> delay_in_range(
                old(self).config().interval,
                old(self).config().jitter,
                old(self).rng_state(),
            ),
        ensures
            final(self).config() == old(self).config(),
            final(self).ticks() == old(self).ticks() + 1,
            r is None <==> !continues(old(self).config().repeat, final(self).ticks()),
            r is None ==> final(self).rng_state() == old(self).rng_state(),
            r matches Some(d) ==> {
                &&& duration_nanos(d) == delay_nanos(
                    old(self).config().interval,
                    old(self).config().jitter,
                    old(self).rng_state(),
                )
                &&& final(self).rng_state() == delay_state(
                    old(self).config().jitter,
                    old(self).rng_state(),
                )
            },
    {
        self.done = self.done + 1;
        if !should_continue(self.cfg.repeat, self.done) {
            return None;
        }
        Some(next_delay(self.cfg.interval, self.cfg.jitter, &mut self.rng))
    }

    /// Whether the delay after the next tick can be drawn without
    /// overflowing (see `delay_fits`).
    pub fn next_delay_fits(&self) -> (r: bool)
        ensures
            r == delay_in_range(self.config().interval, self.config().jitter, self.rng_state()),
    {
        delay_fits(self.cfg.interval, self.cfg.jitter, &self.rng)
    }

    /// How many ticks have completed.
    pub fn done(&self) -> (r: u64)
        ensures
            r == self.ticks(),
    {
        self.done
    }
}

/// Whether `pace` can add `delay` to `deadline` without overflowing.
pub fn pace_fits(deadline: Duration, delay: Duration) -> (r: bool)
    ensures
        r == (duration_nanos(deadline) + duration_nanos(delay) <= max_nanos()),
{
    let a = crate::duration::nanos(deadline);
    let b = crate::duration::nanos(delay);
    a <= 18_446_744_073_709_551_615_999_999_999u128 - b
}

/// The deadline of the next tick and how long to sleep until it, given the
/// previous deadline, the delay drawn for this tick and the current time (all
/// measured from the start of the run). Each tick is scheduled `delay` after
/// the previous deadline, so time spent inside a click does not stretch the
/// period; a deadline already in the past is moved up to now, so overdue ticks
/// do not pile up.
pub fn pace(deadline: Duration, delay: Duration, now: Duration) -> (r: (Duration, Duration))
    requires
        duration_nanos(deadline) + duration_nanos(delay) <= max_nanos(),
    ensures
        duration_nanos(r.0) == if duration_nanos(deadline) + duration_nanos(delay) < duration_nanos(now) {
            duration_nanos(now)
        } else {
            duration_nanos(deadline) + duration_nanos(delay)
        },
        duration_nanos(r.1) == duration_nanos(r.0) - duration_nanos(now),
{
    let mut next = crate::duration::sum(deadline, delay);
    if crate::duration::shorter(next, now) {
        next = now;
    }
    (next, crate::duration::saturating_sub(next, now))
}

/// How long one slice of an interruptible sleep lasts at most: the stop flag
/// is checked between slices.
pub open spec fn slice_nanos() -> nat {
    10_000_000
}

/// The next slice of an interruptible sleep with `left` still to go, and what
/// is left after it; `None` once nothing is left.
pub fn sleep_slice(left: Duration) -> (r: Option<(Duration, Duration)>)
    ensures
        r is None <==> duration_nanos(left) == 0,
        r matches Some((s, rest)) ==> {
            &&& duration_nanos(s) == if duration_nanos(left) < slice_nanos() {
                duration_nanos(left)
            } else {
                slice_nanos()
            }
            &&& duration_nanos(s) > 0
            &&& duration_nanos(rest) + duration_nanos(s) == duration_nanos(left)
        },
{
    if crate::duration::is_zero(left) {
        return None;
    }
    let slice = crate::duration::from_millis(10);
    let s = if crate::duration::shorter(left, slice) { left } else { slice };
    Some((s, crate::duration::saturating_sub(left, s)))
}

/// Once a counted run stops, it stays stopped: no later count of clicks
/// continues it.
pub proof fn count_stops_for_good(n: u64, done: u64, later: u64)
    requires
        !continues(Repeat::Count(n), done),
        done <= later,
    ensures
        !continues(Repeat::Count(n), later),
{
}

/// A counted run of `n` continues after exactly the first `n` clicks: it
/// continues after each of `0..n` clicks and not after `n`.
pub proof fn count_runs_exactly(n: u64, done: u64)
    ensures
        continues(Repeat::Count(n), done) <==> done < n,
        !continues(Repeat::Count(n), n),
{
}

/// An unbounded run never stops on its own.
pub proof fn infinite_never_stops(done: u64)
    ensures
        continues(Repeat::Infinite, done),
{
}

/// Two generators in the same state hand out the same next value and move to
/// the same next state: the jitter sequence is a function of the seed.
pub proof fn same_state_same_stream(a: u64, b: u64, max: u64)
    requires
        a == b,
    ensures
        draw(a, max) == draw(b, max),
        draw_state(a, max) == draw_state(b, max),
        scramble(xorshift(a)) == scramble(xorshift(b)),
{
}

/// What a tick does, whatever the target and the re-positioning flag: a
/// single click is one `Click` of the configured button and hold; a double
/// click ends with `Click`, `Pause(double_gap)`, `Click` and has exactly two
/// `Click` steps; before the clicks stands at most one `MoveTo`, to the
/// fixed target, exactly when re-positioning each click was asked for.
pub proof fn tick_shape(cfg: ClickConfig)
    ensures
        ({
            let s = tick_steps(cfg);
            let click = ClickStep::Click { button: cfg.button, hold: cfg.hold };
            let moves: int = match cfg.target {
                Target::Fixed { x, y } => if cfg.reposition_each_click { 1 } else { 0 },
                Target::FollowCursor => 0,
            };
            &&& cfg.kind == ClickKind::Single ==> {
                &&& s.len() == moves + 1
                &&& s[s.len() - 1] == click
            }
            &&& cfg.kind == ClickKind::Double ==> {
                &&& s.len() == moves + 3
                &&& s[s.len() - 1] == click
                &&& s[s.len() - 2] == ClickStep::Pause(cfg.double_gap)
                &&& s[s.len() - 3] == click
            }
            &&& forall|i: int| 0 <= i < moves ==> !(#[trigger] s[i] is Click)
            &&& moves == 1 ==> (cfg.target matches Target::Fixed { x, y } && s[0] == (ClickStep::MoveTo { x, y }))
        }),
{
    let s = tick_steps(cfg);
    let click = ClickStep::Click { button: cfg.button, hold: cfg.hold };
    match cfg.target {
        Target::Fixed { x, y } => {
            if cfg.reposition_each_click {
                match cfg.kind {
                    ClickKind::Single => assert(s =~= seq![ClickStep::MoveTo { x, y }, click]),
                    ClickKind::Double => assert(s =~= seq![
                        ClickStep::MoveTo { x, y },
                        click,
                        ClickStep::Pause(cfg.double_gap),
                        click,
                    ]),
                }
            } else {
                match cfg.kind {
                    ClickKind::Single => assert(s =~= seq![click]),
                    ClickKind::Double => assert(s =~= seq![click, ClickStep::Pause(cfg.double_gap), click]),
                }
            }
        },
        Target::FollowCursor => {
            match cfg.kind {
                ClickKind::Single => assert(s =~= seq![click]),
                ClickKind::Double => assert(s =~= seq![click, ClickStep::Pause(cfg.double_gap), click]),
            }
        },
    }
}

} // verus!
