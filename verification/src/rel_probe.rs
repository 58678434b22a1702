//! The relative-mouse probe: one persistent relative mouse driven by line
//! commands on standard input, so that an outside controller can close the
//! positioning loop without paying device registration on every step.
//!   `m <dx> <dy>`  emit a relative motion
//!   `l` / `r` / `c` click the left / right / middle button
//!   `q` (or an empty line) quit

use vstd::prelude::*;
use crate::event::{RawEvent, REL_X, REL_Y, rel, rel_event, syn, syn_event};
use crate::mouse::{BTN_LEFT, BTN_MIDDLE, BTN_RIGHT};
use crate::text::{parse_i32, parsed_i32, same_text, split_words, words_of};

verus! {

/// One probe command.
#[derive(Debug, Clone, Copy, PartialEq, Eq, Structural)]
pub enum ProbeCommand {
    /// Emit a relative motion.
    Move { dx: i32, dy: i32 },
    /// Click the button with this key code.
    Click(u16),
    /// Stop reading commands.
    Quit,
    /// Anything else.
    Unknown,
}

/// The motion delta a word gives: its value, or 0 where it is missing or not
/// a number.
pub open spec fn delta_of(words: Seq<Seq<char>>, i: int) -> i32 {
    if i < words.len() {
        match parsed_i32(words[i]) {
            Some(v) => v,
            None => 0,
        }
    } else {
        0
    }
}

/// The command a line holds, by its first word.
pub open spec fn command_of(line: Seq<char>) -> ProbeCommand {
    let w = words_of(line);
    if w.len() == 0 || w[0] == "q"@ {
        ProbeCommand::Quit
    } else if w[0] == "m"@ {
        ProbeCommand::Move { dx: delta_of(w, 1), dy: delta_of(w, 2) }
    } else if w[0] == "l"@ {
        ProbeCommand::Click(BTN_LEFT)
    } else if w[0] == "r"@ {
        ProbeCommand::Click(BTN_RIGHT)
    } else if w[0] == "c"@ {
        ProbeCommand::Click(BTN_MIDDLE)
    } else {
        ProbeCommand::Unknown
    }
}

/// The delta word `i` gives.
fn delta(words: &Vec<&str>, i: usize) -> (r: i32)
    ensures
        r == delta_of(words@.map_values(|w: &str| w@), i as int),
{
    if i < words.len() {
        match parse_i32(words[i]) {
            Some(v) => v,
            None => 0,
        }
    } else {
        0
    }
}

/// Read one command line.
pub fn parse_command(line: &str) -> (r: ProbeCommand)
    ensures
        r == command_of(line@),
{
    let words = split_words(line);
    let ghost ws = words@.map_values(|w: &str| w@);
    assert(ws =~= words_of(line@));
    if words.len() == 0 || same_text(words[0], "q") {
        ProbeCommand::Quit
    } else if same_text(words[0], "m") {
        ProbeCommand::Move { dx: delta(&words, 1), dy: delta(&words, 2) }
    } else if same_text(words[0], "l") {
        ProbeCommand::Click(BTN_LEFT)
    } else if same_text(words[0], "r") {
        ProbeCommand::Click(BTN_RIGHT)
    } else if same_text(words[0], "c") {
        ProbeCommand::Click(BTN_MIDDLE)
    } else {
        ProbeCommand::Unknown
    }
}

/// The events of a probe motion: a motion event per moving axis, then a
/// report (always, even for a zero motion).
pub open spec fn probe_motion_events(dx: i32, dy: i32) -> Seq<RawEvent> {
    (if dx != 0 { seq![rel_event(REL_X, dx)] } else { Seq::empty() })
        + (if dy != 0 { seq![rel_event(REL_Y, dy)] } else { Seq::empty() })
        + seq![syn_event()]
}

/// The events of a probe motion by `(dx, dy)`.
pub fn probe_motion(dx: i32, dy: i32) -> (r: Vec<RawEvent>)
    ensures
        r@ == probe_motion_events(dx, dy),
{
    let mut evs: Vec<RawEvent> = Vec::new();
    if dx != 0 {
        evs.push(rel(REL_X, dx));
    }
    if dy != 0 {
        evs.push(rel(REL_Y, dy));
    }
    evs.push(syn());
    assert(evs@ =~= probe_motion_events(dx, dy));
    evs
}

} // verus!
