//! Reading the true pointer position from the compositor. Wayland hides the
//! global pointer position from clients, so this is compositor-specific; on
//! KWin a one-line script reports it over D-Bus. Here: the reader interface,
//! and how callbacks are matched to the read that asked for them.

use vstd::prelude::*;
use crate::error::InputError;
use crate::text::{decimal, lemma_decimal_digits, lemma_decimal_injective, push_decimal, push_signed_decimal, signed_decimal};

verus! {

/// Reads the global pointer position in desktop pixels.
pub trait CursorReader {
    fn position(&self) -> Result<(i32, i32), InputError>;
}

/// Full load→start→wait cycles to attempt before giving up.
pub const READ_ATTEMPTS: u32 = 2;

/// The tag of read number `counter` that its callback carries back: the
/// counter reduced below `i32::MAX`, so it travels as an `int32`.
pub fn read_tag(counter: u64) -> (r: i32)
    ensures
        r == counter % 2147483647,
        0 <= r < i32::MAX,
{
    (counter % 2147483647u64) as i32
}

/// The position a callback `(tag, x, y)` answers for the read tagged `tag`:
/// a callback with another tag is a stale answer to an earlier, slow read and
/// answers nothing.
pub fn answer_for(tag: i32, callback: (i32, i32, i32)) -> (r: Option<(i32, i32)>)
    ensures
        r == if callback.0 == tag { Some((callback.1, callback.2)) } else { None::<(i32, i32)> },
{
    if callback.0 == tag {
        Some((callback.1, callback.2))
    } else {
        None
    }
}

/// The tag that tells readers of one process apart: `p<pid>r<reader number>`.
pub open spec fn reader_tag_text(pid: u32, reader: u64) -> Seq<char> {
    seq!['p'] + decimal(pid as nat) + seq!['r'] + decimal(reader as nat)
}

/// The tag of reader number `reader` in process `pid`, used in its bus name,
/// script file and plugin names so that concurrent readers never collide.
pub fn reader_tag(pid: u32, reader: u64) -> (r: String)
    ensures
        r@ == reader_tag_text(pid, reader),
{
    proof {
        reveal_strlit("p");
        reveal_strlit("r");
    }
    let mut r = String::from_str("p");
    push_decimal(&mut r, pid as u64);
    r.append("r");
    push_decimal(&mut r, reader);
    assert(r@ =~= reader_tag_text(pid, reader));
    r
}

/// The unique bus name the KWin script calls back to.
pub fn service_name(tag: &str) -> (r: String)
    ensures
        r@ == "org.wayclick.spy."@ + tag@,
{
    let mut r = String::from_str("org.wayclick.spy.");
    r.append(tag);
    r
}

/// The file name of the reader's KWin script (in the temporary directory).
pub fn script_file_name(tag: &str) -> (r: String)
    ensures
        r@ == "wayclick-curpos-"@ + tag@ + ".js"@,
{
    let mut r = String::from_str("wayclick-curpos-");
    r.append(tag);
    r.append(".js");
    r
}

/// The KWin plugin name of read `seq`, fresh for every read.
pub fn plugin_name(tag: &str, seq: i32) -> (r: String)
    ensures
        r@ == "wayclick_curpos_"@ + tag@ + "_"@ + signed_decimal(seq as int),
{
    let mut r = String::from_str("wayclick_curpos_");
    r.append(tag);
    r.append("_");
    push_signed_decimal(&mut r, seq as i64);
    r
}

/// The one-line KWin script of read `seq`: it reads `workspace.cursorPos` and
/// calls `Cursor(seq, x, y)` back on `service`.
pub open spec fn script_text(service: Seq<char>, seq: i32) -> Seq<char> {
    "var p = workspace.cursorPos;\ncallDBus(\""@ + service
        + "\", \"/c\", \"org.wayclick.spy\", \"Cursor\", "@ + signed_decimal(seq as int)
        + ", Math.round(p.x), Math.round(p.y));\n"@
}

/// The script text of read `seq` calling back on `service`.
pub fn script_source(service: &str, seq: i32) -> (r: String)
    ensures
        r@ == script_text(service@, seq),
{
    let mut r = String::from_str("var p = workspace.cursorPos;\ncallDBus(\"");
    r.append(service);
    r.append("\", \"/c\", \"org.wayclick.spy\", \"Cursor\", ");
    push_signed_decimal(&mut r, seq as i64);
    r.append(", Math.round(p.x), Math.round(p.y));\n");
    r
}

/// Readers with different process ids or reader numbers get different tags,
/// so their bus names, script files and plugin names never collide.
pub proof fn reader_tags_distinct(pid1: u32, reader1: u64, pid2: u32, reader2: u64)
    requires
        pid1 != pid2 || reader1 != reader2,
    ensures
        reader_tag_text(pid1, reader1) != reader_tag_text(pid2, reader2),
{
    let d1 = decimal(pid1 as nat);
    let d2 = decimal(pid2 as nat);
    let e1 = decimal(reader1 as nat);
    let e2 = decimal(reader2 as nat);
    let t1 = reader_tag_text(pid1, reader1);
    let t2 = reader_tag_text(pid2, reader2);
    lemma_decimal_digits(pid1 as nat);
    lemma_decimal_digits(pid2 as nat);
    if t1 == t2 {
        assert(t1 =~= seq!['p'] + d1 + seq!['r'] + e1);
        assert(t2 =~= seq!['p'] + d2 + seq!['r'] + e2);
        if d1.len() < d2.len() {
            assert(t1[(1 + d1.len()) as int] == 'r');
            assert(t2[(1 + d1.len()) as int] == d2[d1.len() as int]);
            assert('0' <= d2[d1.len() as int]);
        } else if d2.len() < d1.len() {
            assert(t2[(1 + d2.len()) as int] == 'r');
            assert(t1[(1 + d2.len()) as int] == d1[d2.len() as int]);
            assert('0' <= d1[d2.len() as int]);
        } else {
            assert(t1.subrange(1, (1 + d1.len()) as int) =~= d1);
            assert(t2.subrange(1, (1 + d2.len()) as int) =~= d2);
            lemma_decimal_injective(pid1 as nat, pid2 as nat);
            assert(t1.skip((2 + d1.len()) as int) =~= e1);
            assert(t2.skip((2 + d2.len()) as int) =~= e2);
            lemma_decimal_injective(reader1 as nat, reader2 as nat);
        }
    }
}

} // verus!
