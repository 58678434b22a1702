//! The decisions of the libei feasibility probe: which protocol interfaces
//! it announces, which seat capabilities it binds, and when it runs its
//! self-contained drag test.

use vstd::prelude::*;
use crate::text::same_text;

verus! {

/// The protocol interfaces the probe announces in its handshake, each at
/// version 1.
pub open spec fn announced_interfaces() -> Seq<&'static str> {
    seq![
        "ei_callback",
        "ei_connection",
        "ei_seat",
        "ei_device",
        "ei_pingpong",
        "ei_pointer",
        "ei_pointer_absolute",
        "ei_button",
        "ei_scroll",
    ]
}

/// The interfaces the probe announces, with their versions.
pub fn interfaces() -> (r: Vec<(&'static str, u32)>)
    ensures
        r@.len() == announced_interfaces().len(),
        forall|i: int| 0 <= i < r@.len() ==> (#[trigger] r@[i]).0 == announced_interfaces()[i]
            && r@[i].1 == 1,
{
    vec![
        ("ei_callback", 1),
        ("ei_connection", 1),
        ("ei_seat", 1),
        ("ei_device", 1),
        ("ei_pingpong", 1),
        ("ei_pointer", 1),
        ("ei_pointer_absolute", 1),
        ("ei_button", 1),
        ("ei_scroll", 1),
    ]
}

/// Whether a seat capability is one the probe binds: relative and absolute
/// pointer, buttons, scrolling.
pub open spec fn bound_capability(name: Seq<char>) -> bool {
    name == "ei_pointer"@ || name == "ei_pointer_absolute"@ || name == "ei_button"@
        || name == "ei_scroll"@
}

/// The bind mask of the capabilities `caps`: the union of the masks of the
/// bound ones.
pub open spec fn bind_mask_of(caps: Seq<(Seq<char>, u64)>) -> u64
    decreases caps.len(),
{
    if caps.len() == 0 {
        0
    } else {
        let rest = bind_mask_of(caps.drop_last());
        if bound_capability(caps.last().0) { rest | caps.last().1 } else { rest }
    }
}

/// The mask to bind a seat with, given the capabilities it advertised as
/// `(interface, mask)` pairs. The caller passes the entries of the seat's
/// capability map (one per interface); the result is the union over every
/// pair given.
pub fn bind_mask(caps: &Vec<(String, u64)>) -> (r: u64)
    ensures
        r == bind_mask_of(caps@.map_values(|c: (String, u64)| (c.0@, c.1))),
{
    let ghost view = caps@.map_values(|c: (String, u64)| (c.0@, c.1));
    let mut mask: u64 = 0;
    let mut i: usize = 0;
    while i < caps.len()
        invariant
            i <= caps@.len(),
            view == caps@.map_values(|c: (String, u64)| (c.0@, c.1)),
            mask == bind_mask_of(view.take(i as int)),
        decreases caps@.len() - i,
    {
        let name = caps[i].0.as_str();
        assert(view.take(i as int + 1).drop_last() =~= view.take(i as int));
        if same_text(name, "ei_pointer") || same_text(name, "ei_pointer_absolute")
            || same_text(name, "ei_button") || same_text(name, "ei_scroll") {
            mask = mask | caps[i].1;
        }
        i = i + 1;
    }
    assert(view.take(i as int) =~= view);
    mask
}

/// Whether a seat offers an absolute pointer.
pub fn offers_absolute(caps: &Vec<(String, u64)>) -> (r: bool)
    ensures
        r == exists|i: int| 0 <= i < caps@.len() && (#[trigger] caps@[i]).0@ == "ei_pointer_absolute"@,
{
    let mut i: usize = 0;
    while i < caps.len()
        invariant
            i <= caps@.len(),
            forall|k: int| 0 <= k < i ==> (#[trigger] caps@[k]).0@ != "ei_pointer_absolute"@,
        decreases caps@.len() - i,
    {
        if same_text(caps[i].0.as_str(), "ei_pointer_absolute") {
            return true;
        }
        i = i + 1;
    }
    false
}

/// Whether a device that resumed starts the drag test: only once, and only
/// with an absolute pointer at hand.
pub fn drag_on_resume(tested: bool, has_absolute: bool) -> (r: bool)
    ensures
        r == (!tested && has_absolute),
{
    !tested && has_absolute
}

/// Whether the probe drives a device that announced its interfaces: only one
/// with both buttons and an absolute pointer.
pub fn use_device(has_button: bool, has_absolute: bool) -> (r: bool)
    ensures
        r == (has_button && has_absolute),
{
    has_button && has_absolute
}

/// The once-only drag test of the probe: whether it has run.
pub struct DragTest {
    tested: bool,
}

impl DragTest {
    /// Whether the drag has been started.
    pub closed spec fn started(&self) -> bool {
        self.tested
    }

    /// A probe that has not run its drag yet.
    pub fn new() -> (r: Self)
        ensures
            !r.started(),
    {
        DragTest { tested: false }
    }

    /// A device resumed: whether to run the drag now. It runs on the first
    /// resume with an absolute pointer at hand, and never again.
    pub fn on_resume(&mut self, has_absolute: bool) -> (r: bool)
        ensures
            r == (!old(self).started() && has_absolute),
            final(self).started() == (old(self).started() || r),
    {
        let r = drag_on_resume(self.tested, has_absolute);
        if r {
            self.tested = true;
        }
        r
    }
}

/// The result of a sequence of resumes, each given by whether an absolute
/// pointer was at hand, applied as `DragTest::on_resume` does from the state
/// `started`: whether the drag has started afterwards, and how many resumes
/// ran it.
pub open spec fn resumes(started: bool, has_absolute: Seq<bool>) -> (bool, nat)
    decreases has_absolute.len(),
{
    if has_absolute.len() == 0 {
        (started, 0)
    } else {
        let (st, n) = resumes(started, has_absolute.drop_last());
        let ran = !st && has_absolute.last();
        (st || ran, if ran { n + 1 } else { n })
    }
}

/// The drag runs at most once over any sequence of resumes, and not at all
/// once it has started.
pub proof fn drag_runs_at_most_once(started: bool, has_absolute: Seq<bool>)
    ensures
        resumes(started, has_absolute).1 <= 1,
        started ==> resumes(started, has_absolute).1 == 0,
        started ==> resumes(started, has_absolute).0,
        resumes(started, has_absolute).1 == 1 ==> resumes(started, has_absolute).0,
    decreases has_absolute.len(),
{
    if has_absolute.len() > 0 {
        drag_runs_at_most_once(started, has_absolute.drop_last());
    }
}

} // verus!
