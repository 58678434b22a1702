//! Input engine of an autoclicker for Linux/Wayland: the decisions and event
//! encodings behind a relative virtual mouse, a virtual keyboard, a click loop
//! with jittered pacing, and a closed-loop pointer positioner.

pub mod duration;
pub mod error;
pub mod positioner;
pub mod engine;
pub mod event;
pub mod mouse;
pub mod stop;
pub mod keyboard;
pub mod hold;
pub mod cursor;
pub mod text;
pub mod shell;
pub mod desktop;
pub mod tablet;
pub mod rel_probe;
pub mod libei;
