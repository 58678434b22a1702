//! Absolute pointer positioning by a closed loop: read the true cursor
//! position, emit a relative nudge toward the target, repeat until converged.
//! These are the loop's decisions; reading, moving, waiting and the
//! pointer-acceleration estimate stay with the caller.

use std::time::Duration;
use vstd::prelude::*;
use crate::duration::duration_nanos;
use crate::error::InputError;

verus! {

/// Moves the pointer to an absolute desktop pixel.
pub trait PointerPositioner {
    fn move_to(&self, x: i32, y: i32) -> Result<(), InputError>;
}

/// Tuning for the closed-loop positioner.
#[derive(Debug, Clone, Copy)]
pub struct LoopConfig {
    /// Convergence tolerance in pixels (per axis).
    pub tolerance: i32,
    /// Max relative step per iteration. Small steps keep pointer acceleration
    /// near-linear so the loop converges instead of overshooting.
    pub max_step: i32,
    /// Max iterations before giving up (a pointer-grabbing fullscreen app can
    /// make convergence impossible).
    pub max_iters: u32,
    /// Poll interval while waiting for the compositor to apply a move.
    pub settle: Duration,
    /// How many settle-polls to wait for a move to become visible before
    /// concluding it was dropped and letting the outer loop retry.
    pub settle_polls: u32,
}

impl Default for LoopConfig {
    /// Tolerance 1px, steps of at most 150, 40 iterations, 6 polls 8ms apart.
    fn default() -> (r: Self)
        ensures
            r.tolerance == 1,
            r.max_step == 150,
            r.max_iters == 40,
            duration_nanos(r.settle) == 8_000_000,
            r.settle_polls == 6,
    {
        LoopConfig {
            tolerance: 1,
            max_step: 150,
            max_iters: 40,
            settle: crate::duration::from_millis(8),
            settle_polls: 6,
        }
    }
}

impl LoopConfig {
    /// How many polls to wait for a move to show: `settle_polls`, but at
    /// least one.
    pub fn polls(&self) -> (r: u32)
        ensures
            r == if self.settle_polls < 1 { 1 } else { self.settle_polls },
    {
        if self.settle_polls < 1 { 1 } else { self.settle_polls }
    }
}

/// `v` limited to `[-max, max]`.
pub open spec fn clamped(v: int, max: int) -> int {
    if v < -max {
        -max
    } else if v > max {
        max
    } else {
        v
    }
}

/// Limit `v` to `[-max, max]`; a negative `max` makes `i32::clamp` panic, so
/// it is left out.
pub fn clamp(v: i32, max: i32) -> (r: i32)
    requires
        max >= 0,
    ensures
        r == clamped(v as int, max as int),
        -max <= r <= max,
{
    if v < -max {
        -max
    } else if v > max {
        max
    } else {
        v
    }
}

/// The sign of `v`: -1, 0 or 1.
pub open spec fn sign(v: int) -> int {
    if v < 0 {
        -1
    } else if v > 0 {
        1
    } else {
        0
    }
}

/// A wanted on-screen delta `v` after dividing it by the gain estimate
/// (`scaled`, rounded): at least one unit of motion in the right direction
/// is kept, and no motion where none is wanted.
pub open spec fn kept_direction(v: int, scaled: int) -> int {
    if v == 0 {
        0
    } else if scaled == 0 {
        sign(v)
    } else {
        scaled
    }
}

/// Keep at least one unit of motion in the direction of `v` after scaling it
/// to `scaled`.
pub fn keep_direction(v: i32, scaled: i32) -> (r: i32)
    ensures
        r == kept_direction(v as int, scaled as int),
        v != 0 ==> r != 0,
        v == 0 ==> r == 0,
{
    if v == 0 {
        0
    } else if scaled == 0 {
        if v < 0 { -1 } else { 1 }
    } else {
        scaled
    }
}

/// The relative step sent for a wanted delta `v` scaled to `scaled`: the
/// direction kept, the size limited to `max_step`.
pub fn motion_step(v: i32, scaled: i32, max_step: i32) -> (r: i32)
    requires
        max_step >= 0,
    ensures
        r == clamped(kept_direction(v as int, scaled as int), max_step as int),
        max_step > 0 && v != 0 ==> r != 0,
        v == 0 ==> r == 0,
{
    clamp(keep_direction(v, scaled), max_step)
}

/// What the loop does after reading the cursor.
#[derive(Debug)]
pub enum Approach {
    /// The cursor is within tolerance of the target on both axes.
    Arrived,
    /// Send a nudge toward the target; `(dx, dy)` is the remaining on-screen
    /// delta, to be scaled by the gain estimate and passed to `motion_step`.
    Nudge { dx: i32, dy: i32 },
    /// The iterations are used up.
    GiveUp(InputError),
}

/// The decisions of one positioning run toward `(tx, ty)`.
pub struct PositionLoop {
    cfg: LoopConfig,
    tx: i32,
    ty: i32,
    iters: u32,
}

/// Whether `(cx, cy)` is within `tol` of `(tx, ty)` on both axes.
pub open spec fn within(tx: int, ty: int, cx: int, cy: int, tol: int) -> bool {
    &&& -tol <= tx - cx <= tol
    &&& -tol <= ty - cy <= tol
}

/// Whether the remaining delta from `(cx, cy)` to `(tx, ty)` fits an `i32`
/// whose absolute value fits too (otherwise the delta overflows).
pub open spec fn delta_fits(tx: i32, ty: i32, cx: i32, cy: i32) -> bool {
    &&& i32::MIN < tx - cx <= i32::MAX
    &&& i32::MIN < ty - cy <= i32::MAX
}

impl PositionLoop {
    /// The tuning of the run.
    pub closed spec fn config(&self) -> LoopConfig {
        self.cfg
    }

    /// The target pixel.
    pub closed spec fn target(&self) -> (i32, i32) {
        (self.tx, self.ty)
    }

    /// How many nudges have been sent.
    pub closed spec fn nudges(&self) -> u32 {
        self.iters
    }

    /// A run toward `(tx, ty)` under `cfg`, before the first read.
    pub fn new(cfg: LoopConfig, tx: i32, ty: i32) -> (r: Self)
        ensures
            r.config() == cfg,
            r.target() == (tx, ty),
            r.nudges() == 0,
    {
        PositionLoop { cfg, tx, ty, iters: 0 }
    }

    /// How many nudges have been sent.
    pub fn sent(&self) -> (r: u32)
        ensures
            r == self.nudges(),
    {
        self.iters
    }

    /// Decide on the cursor read at `(cx, cy)`: stop when within tolerance;
    /// otherwise give up once `max_iters` nudges were sent, and nudge while
    /// they were not.
    pub fn observe(&mut self, cx: i32, cy: i32) -> (r: Approach)
        requires
            delta_fits(old(self).target().0, old(self).target().1, cx, cy),
        ensures
            final(self).config() == old(self).config(),
            final(self).target() == old(self).target(),
            r is Arrived ==> {
                &&& -old(self).config().tolerance <= old(self).target().0 - cx <= old(self).config().tolerance
                &&& -old(self).config().tolerance <= old(self).target().1 - cy <= old(self).config().tolerance
            },
            r is GiveUp ==> !within(old(self).target().0 as int, old(self).target().1 as int, cx as int,
                cy as int, old(self).config().tolerance as int),
            within(old(self).target().0 as int, old(self).target().1 as int, cx as int, cy as int,
                old(self).config().tolerance as int) ==> {
                &&& r is Arrived
                &&& final(self).nudges() == old(self).nudges()
            },
            !within(old(self).target().0 as int, old(self).target().1 as int, cx as int, cy as int,
                old(self).config().tolerance as int) ==> if old(self).nudges() >= old(self).config().max_iters {
                &&& r matches Approach::GiveUp(InputError::NotConverged { tx, ty, x, y, steps })
                &&& tx == old(self).target().0 && ty == old(self).target().1
                &&& x == cx && y == cy
                &&& steps == old(self).config().max_iters
                &&& final(self).nudges() == old(self).nudges()
            } else {
                &&& r matches Approach::Nudge { dx, dy }
                &&& dx == old(self).target().0 - cx
                &&& dy == old(self).target().1 - cy
                &&& final(self).nudges() == old(self).nudges() + 1
            },
    {
        let dx = self.tx - cx;
        let dy = self.ty - cy;
        let adx = if dx < 0 { -dx } else { dx };
        let ady = if dy < 0 { -dy } else { dy };
        if adx <= self.cfg.tolerance && ady <= self.cfg.tolerance {
            return Approach::Arrived;
        }
        if self.iters >= self.cfg.max_iters {
            return Approach::GiveUp(
                InputError::NotConverged {
                    tx: self.tx,
                    ty: self.ty,
                    x: cx,
                    y: cy,
                    steps: self.cfg.max_iters,
                },
            );
        }
        self.iters = self.iters + 1;
        Approach::Nudge { dx, dy }
    }
}

/// Arrival is per axis: a read is within tolerance exactly when it is at
/// most `tol` off on the x axis and at most `tol` off on the y axis; a read
/// further off on either axis is not.
pub proof fn within_is_per_axis(tx: int, ty: int, cx: int, cy: int, tol: int)
    ensures
        within(tx, ty, cx, cy, tol) <==> (-tol <= tx - cx <= tol && -tol <= ty - cy <= tol),
        tx - cx > tol || cx - tx > tol ==> !within(tx, ty, cx, cy, tol),
        ty - cy > tol || cy - ty > tol ==> !within(tx, ty, cx, cy, tol),
{
}

} // verus!
