//! Reading a `.desktop` entry: which program its `Exec=` line launches and
//! whether the entry is hidden. The shell uses this to stay out of menus
//! where an AppImage manager already lists the same binary.

use vstd::prelude::*;
use crate::text::{same_text, trim, trim_text};

verus! {

/// The length of the first line of `s`: the characters before the first
/// `'\n'`, or all of them.
pub open spec fn line_len(s: Seq<char>) -> nat
    decreases s.len(),
{
    if s.len() == 0 || s[0] == '\n' {
        0
    } else {
        1 + line_len(s.drop_first())
    }
}

/// `s` without its leading double quotes.
pub open spec fn skip_quotes(s: Seq<char>) -> Seq<char>
    decreases s.len(),
{
    if s.len() > 0 && s[0] == '"' {
        skip_quotes(s.drop_first())
    } else {
        s
    }
}

/// The length of the first token of `s`: the characters before the first
/// double quote or space.
pub open spec fn token_len(s: Seq<char>) -> nat
    decreases s.len(),
{
    if s.len() == 0 || s[0] == '"' || s[0] == ' ' {
        0
    } else {
        1 + token_len(s.drop_first())
    }
}

/// The program an `Exec=` command runs: the command without its leading
/// quotes, up to the first quote or space.
pub open spec fn program_of(cmd: Seq<char>) -> Seq<char> {
    skip_quotes(cmd).take(token_len(skip_quotes(cmd)) as int)
}

/// What a scan of an entry has found so far: the program of the last `Exec=`
/// line, whether a `NoDisplay=true` or `Hidden=true` line was seen, and
/// whether a group other than `[Desktop Entry]` has begun (which ends the
/// scan: `[Desktop Action ...]` groups have `Exec=` lines of their own).
pub struct EntryScan {
    pub program: Option<Seq<char>>,
    pub hidden: bool,
    pub closed: bool,
}

/// The scan before the first line.
pub open spec fn scan_start() -> EntryScan {
    EntryScan { program: None, hidden: false, closed: false }
}

/// The scan after the trimmed line `line`.
pub open spec fn scan_line(st: EntryScan, line: Seq<char>) -> EntryScan {
    if st.closed {
        st
    } else if line.len() > 0 && line[0] == '[' && line != "[Desktop Entry]"@ {
        EntryScan { closed: true, ..st }
    } else if line.len() >= 5 && line.take(5) == "Exec="@ {
        EntryScan { program: Some(program_of(line.skip(5))), ..st }
    } else if line == "NoDisplay=true"@ || line == "Hidden=true"@ {
        EntryScan { hidden: true, ..st }
    } else {
        st
    }
}

/// The scan after every line of `s`, each trimmed, starting from `st`.
pub open spec fn scan_text(st: EntryScan, s: Seq<char>) -> EntryScan
    decreases s.len(),
{
    let k = line_len(s);
    let st2 = scan_line(st, trim(s.take(k as int)));
    if k >= s.len() {
        st2
    } else {
        scan_text(st2, s.skip(k as int + 1))
    }
}

/// What an entry says about itself.
pub struct EntryFacts {
    /// The program its last `Exec=` line (in `[Desktop Entry]`) launches.
    pub exec_program: Option<String>,
    /// Whether it is hidden (`NoDisplay=true` or `Hidden=true`).
    pub hidden: bool,
}

proof fn lemma_line_len(s: Seq<char>, m: int)
    requires
        0 <= m <= s.len(),
        forall|k: int| 0 <= k < m ==> s[k] != '\n',
        m == s.len() || s[m] == '\n',
    ensures
        line_len(s) == m,
    decreases m,
{
    if m > 0 {
        lemma_line_len(s.drop_first(), m - 1);
    }
}

proof fn lemma_skip_quotes(s: Seq<char>, q: int)
    requires
        0 <= q <= s.len(),
        forall|k: int| 0 <= k < q ==> #[trigger] s[k] == '"',
        q == s.len() || s[q] != '"',
    ensures
        skip_quotes(s) == s.skip(q),
    decreases q,
{
    if q > 0 {
        lemma_skip_quotes(s.drop_first(), q - 1);
        assert(s.drop_first().skip(q - 1) =~= s.skip(q));
    } else {
        assert(s.skip(0) =~= s);
    }
}

proof fn lemma_token_len(s: Seq<char>, m: int)
    requires
        0 <= m <= s.len(),
        forall|k: int| 0 <= k < m ==> #[trigger] s[k] != '"' && s[k] != ' ',
        m == s.len() || s[m] == '"' || s[m] == ' ',
    ensures
        token_len(s) == m,
    decreases m,
{
    if m > 0 {
        lemma_token_len(s.drop_first(), m - 1);
    }
}

proof fn lemma_closed_scan(st: EntryScan, s: Seq<char>)
    requires
        st.closed,
    ensures
        scan_text(st, s) == st,
    decreases s.len(),
{
    let k = line_len(s);
    if k < s.len() {
        lemma_closed_scan(st, s.skip(k as int + 1));
    }
}

/// The program an `Exec=` command runs.
pub fn program(cmd: &str) -> (r: String)
    ensures
        r@ == program_of(cmd@),
{
    let n = cmd.unicode_len();
    let mut q: usize = 0;
    while q < n && cmd.get_char(q) == '"'
        invariant
            n == cmd@.len(),
            q <= n,
            forall|k: int| 0 <= k < q ==> #[trigger] cmd@[k] == '"',
        decreases n - q,
    {
        q = q + 1;
    }
    let mut j: usize = q;
    while j < n && cmd.get_char(j) != '"' && cmd.get_char(j) != ' '
        invariant
            n == cmd@.len(),
            q <= j <= n,
            forall|k: int| q <= k < j ==> #[trigger] cmd@[k] != '"' && cmd@[k] != ' ',
        decreases n - j,
    {
        j = j + 1;
    }
    proof {
        lemma_skip_quotes(cmd@, q as int);
        let t = cmd@.skip(q as int);
        assert forall|k: int| 0 <= k < j - q implies #[trigger] t[k] != '"' && t[k] != ' ' by {
            assert(t[k] == cmd@[q + k]);
        }
        if j < n {
            assert(t[j - q] == cmd@[j as int]);
        }
        lemma_token_len(t, (j - q) as int);
        assert(t.take((j - q) as int) =~= cmd@.subrange(q as int, j as int));
    }
    String::from_str(cmd.substring_char(q, j))
}

/// Scan the lines of a `.desktop` entry, each trimmed, up to the first group
/// other than `[Desktop Entry]`: the program of the last `Exec=` line and
/// whether a `NoDisplay=true` or `Hidden=true` line hides the entry.
pub fn entry_facts(text: &str) -> (r: EntryFacts)
    ensures
        r.hidden == scan_text(scan_start(), text@).hidden,
        match r.exec_program {
            Some(p) => scan_text(scan_start(), text@).program == Some(p@),
            None => scan_text(scan_start(), text@).program is None,
        },
{
    proof {
        reveal_strlit("Exec=");
    }
    let n = text.unicode_len();
    let mut start: usize = 0;
    let mut prog: Option<String> = None;
    let mut hidden = false;
    let ghost mut st = scan_start();
    assert(text@.skip(0) =~= text@);
    loop
        invariant
            n == text@.len(),
            start <= n,
            !st.closed,
            st.hidden == hidden,
            match prog {
                Some(p) => st.program == Some(p@),
                None => st.program is None,
            },
            scan_text(scan_start(), text@) == scan_text(st, text@.skip(start as int)),
        ensures
            scan_text(scan_start(), text@).hidden == hidden,
            match prog {
                Some(p) => scan_text(scan_start(), text@).program == Some(p@),
                None => scan_text(scan_start(), text@).program is None,
            },
        decreases n - start,
    {
        let mut i: usize = start;
        while i < n && text.get_char(i) != '\n'
            invariant
                n == text@.len(),
                start <= i <= n,
                forall|k: int| start <= k < i ==> #[trigger] text@[k] != '\n',
            decreases n - i,
        {
            i = i + 1;
        }
        let ghost rest = text@.skip(start as int);
        proof {
            assert forall|k: int| 0 <= k < i - start implies #[trigger] rest[k] != '\n' by {
                assert(rest[k] == text@[start + k]);
            }
            if i < n {
                assert(rest[i - start] == text@[i as int]);
            }
            lemma_line_len(rest, (i - start) as int);
            assert(rest.take((i - start) as int) =~= text@.subrange(start as int, i as int));
        }
        let line = trim_text(text.substring_char(start, i));
        let ghost next = scan_line(st, line@);
        let m = line.unicode_len();
        if m > 0 && line.get_char(0) == '[' && !same_text(line, "[Desktop Entry]") {
            proof {
                if i < n {
                    assert(rest.skip((i - start) as int + 1) =~= text@.skip(i as int + 1));
                    lemma_closed_scan(next, text@.skip(i as int + 1));
                }
            }
            break;
        }
        if m >= 5 && same_text(line.substring_char(0, 5), "Exec=") {
            prog = Some(program(line.substring_char(5, m)));
            assert(line@.skip(5) =~= line@.subrange(5, m as int));
        } else if same_text(line, "NoDisplay=true") || same_text(line, "Hidden=true") {
            hidden = true;
        }
        proof {
            st = next;
        }
        if i >= n {
            break;
        }
        proof {
            assert(rest.skip((i - start) as int + 1) =~= text@.skip(i as int + 1));
        }
        start = i + 1;
    }
    EntryFacts { exec_program: prog, hidden }
}

} // verus!
