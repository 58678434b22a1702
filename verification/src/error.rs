//! Errors produced by the input engine.

use vstd::prelude::*;

verus! {

/// `std::io::Error`, carried through from the device writes that failed.
#[verifier::external_type_specification]
#[verifier::external_body]
pub struct ExIoError(std::io::Error);

/// Errors produced by the input engine.
#[derive(Debug)]
pub enum InputError {
    /// Opening `/dev/uinput` failed (it needs read/write access via the udev
    /// rule and group, or a uaccess ACL).
    OpenUinput(std::io::Error),
    /// Writing to the virtual device failed.
    Write(std::io::Error),
    /// Creating the virtual device failed.
    Create(std::io::Error),
    /// Reading the cursor position from the compositor failed.
    CursorRead(String),
    /// The pointer could not be positioned: target `(tx, ty)`, reached
    /// `(x, y)` after `steps` steps. A focused fullscreen app holding a
    /// pointer grab can block positioning.
    NotConverged { tx: i32, ty: i32, x: i32, y: i32, steps: u32 },
}

} // verus!
