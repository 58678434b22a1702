//! Small verified string helpers the engine and its shell share.

use vstd::prelude::*;

verus! {

/// Whether two strings hold the same characters.
pub fn same_text(a: &str, b: &str) -> (r: bool)
    ensures
        r == (a@ == b@),
{
    let n = a.unicode_len();
    if n != b.unicode_len() {
        return false;
    }
    let mut i: usize = 0;
    while i < n
        invariant
            n == a@.len(),
            n == b@.len(),
            i <= n,
            forall|k: int| 0 <= k < i ==> #[trigger] a@[k] == b@[k],
        decreases n - i,
    {
        if a.get_char(i) != b.get_char(i) {
            return false;
        }
        i = i + 1;
    }
    assert(a@ =~= b@);
    true
}

/// Unicode `White_Space`: the characters `char::is_whitespace` accepts.
pub open spec fn is_white_space(c: char) -> bool {
    ||| c == ' '
    ||| ('\t' <= c && c <= '\r')
    ||| c == '\u{85}'
    ||| c == '\u{A0}'
    ||| c == '\u{1680}'
    ||| ('\u{2000}' <= c && c <= '\u{200A}')
    ||| c == '\u{2028}'
    ||| c == '\u{2029}'
    ||| c == '\u{202F}'
    ||| c == '\u{205F}'
    ||| c == '\u{3000}'
}

/// Whether `c` is Unicode white space.
pub fn white_space(c: char) -> (r: bool)
    ensures
        r == is_white_space(c),
{
    c == ' ' || ('\t' <= c && c <= '\r') || c == '\u{85}' || c == '\u{A0}' || c == '\u{1680}'
        || ('\u{2000}' <= c && c <= '\u{200A}') || c == '\u{2028}' || c == '\u{2029}'
        || c == '\u{202F}' || c == '\u{205F}' || c == '\u{3000}'
}

/// Whether `w` stands in `s` at position `i` as a whole white-space-separated
/// word.
pub open spec fn word_at(s: Seq<char>, w: Seq<char>, i: int) -> bool {
    &&& 0 <= i
    &&& i + w.len() <= s.len()
    &&& s.subrange(i, i + w.len()) == w
    &&& (i == 0 || is_white_space(s[i - 1]))
    &&& (i + w.len() == s.len() || is_white_space(s[i + w.len()]))
}

/// Whether one of the white-space-separated words of `s` is `w`
/// (`s.split_whitespace().any(|g| g == w)` for a word `w`).
pub open spec fn has_word(s: Seq<char>, w: Seq<char>) -> bool {
    exists|i: int| word_at(s, w, i)
}

/// Whether `w` is a word: non-empty and free of white space.
pub open spec fn is_word(w: Seq<char>) -> bool {
    &&& w.len() > 0
    &&& forall|k: int| 0 <= k < w.len() ==> !is_white_space(#[trigger] w[k])
}

/// Whether `w` matches `s` at position `i`, character by character.
fn matches_at(s: &str, w: &str, i: usize) -> (r: bool)
    requires
        i + w@.len() <= s@.len(),
        s@.len() <= usize::MAX,
    ensures
        r == (s@.subrange(i as int, i + w@.len()) == w@),
{
    let m = w.unicode_len();
    let mut k: usize = 0;
    while k < m
        invariant
            m == w@.len(),
            i + m <= s@.len(),
            s@.len() <= usize::MAX,
            k <= m,
            forall|j: int| 0 <= j < k ==> #[trigger] w@[j] == s@[i + j],
        decreases m - k,
    {
        if s.get_char(i + k) != w.get_char(k) {
            assert(s@.subrange(i as int, i + w@.len())[k as int] != w@[k as int]);
            return false;
        }
        k = k + 1;
    }
    assert(s@.subrange(i as int, i + w@.len()) =~= w@);
    true
}

/// Whether the word `w` is one of the white-space-separated words of `s`.
pub fn contains_word(s: &str, w: &str) -> (r: bool)
    requires
        is_word(w@),
    ensures
        r == has_word(s@, w@),
{
    let n = s.unicode_len();
    let m = w.unicode_len();
    if m > n {
        return false;
    }
    let mut i: usize = 0;
    while i <= n - m
        invariant
            n == s@.len(),
            m == w@.len(),
            m <= n,
            is_word(w@),
            i <= n,
            forall|k: int| 0 <= k < i ==> !word_at(s@, w@, k),
        decreases n - i,
    {
        let starts = i == 0 || white_space(s.get_char(i - 1));
        if starts && matches_at(s, w, i) {
            let ends = i + m == n || white_space(s.get_char(i + m));
            if ends {
                assert(word_at(s@, w@, i as int));
                return true;
            }
        }
        i = i + 1;
    }
    assert forall|k: int| !word_at(s@, w@, k) by {
        if 0 <= k && k + w@.len() <= s@.len() {
            assert(k < i);
        }
    }
    false
}

/// The decimal digit character of `d`.
pub open spec fn digit_char(d: nat) -> char {
    if d == 0 { '0' } else if d == 1 { '1' } else if d == 2 { '2' } else if d == 3 { '3' }
    else if d == 4 { '4' } else if d == 5 { '5' } else if d == 6 { '6' } else if d == 7 { '7' }
    else if d == 8 { '8' } else { '9' }
}

/// The decimal digits of `n`, most significant first, without leading zeros
/// (`"0"` for zero), as `Display` writes an unsigned integer.
pub open spec fn decimal(n: nat) -> Seq<char>
    decreases n,
{
    if n < 10 {
        seq![digit_char(n)]
    } else {
        decimal(n / 10) + seq![digit_char(n % 10)]
    }
}

/// The decimal text of a signed integer, as `Display` writes it.
pub open spec fn signed_decimal(n: int) -> Seq<char> {
    if n < 0 {
        seq!['-'] + decimal((-n) as nat)
    } else {
        decimal(n as nat)
    }
}

/// The digit character of `d < 10`.
fn digit(d: u64) -> (r: char)
    requires
        d < 10,
    ensures
        r == digit_char(d as nat),
{
    if d == 0 { '0' } else if d == 1 { '1' } else if d == 2 { '2' } else if d == 3 { '3' }
    else if d == 4 { '4' } else if d == 5 { '5' } else if d == 6 { '6' } else if d == 7 { '7' }
    else if d == 8 { '8' } else { '9' }
}

/// The one-character string of a digit character.
fn digit_str(c: char) -> (r: &'static str)
    requires
        '0' <= c <= '9',
    ensures
        r@ == seq![c],
{
    proof {
        reveal_strlit("0");
        reveal_strlit("1");
        reveal_strlit("2");
        reveal_strlit("3");
        reveal_strlit("4");
        reveal_strlit("5");
        reveal_strlit("6");
        reveal_strlit("7");
        reveal_strlit("8");
        reveal_strlit("9");
    }
    if c == '0' { "0" } else if c == '1' { "1" } else if c == '2' { "2" } else if c == '3' { "3" }
    else if c == '4' { "4" } else if c == '5' { "5" } else if c == '6' { "6" } else if c == '7' { "7" }
    else if c == '8' { "8" } else { "9" }
}

/// Append the decimal text of `n` to `out`.
pub fn push_decimal(out: &mut String, n: u64)
    ensures
        final(out)@ == old(out)@ + decimal(n as nat),
    decreases n,
{
    if n >= 10 {
        push_decimal(out, n / 10);
    }
    let c = digit(n % 10);
    out.append(digit_str(c));
    proof {
        if n >= 10 {
            assert(old(out)@ + decimal(n as nat) =~= old(out)@ + decimal((n / 10) as nat)
                + seq![digit_char((n % 10) as nat)]);
        }
    }
}

/// Append the decimal text of `n` to `out`.
pub fn push_signed_decimal(out: &mut String, n: i64)
    requires
        n > i64::MIN,
    ensures
        final(out)@ == old(out)@ + signed_decimal(n as int),
{
    proof {
        reveal_strlit("-");
    }
    if n < 0 {
        out.append("-");
        push_decimal(out, (-n) as u64);
        assert(final(out)@ =~= old(out)@ + signed_decimal(n as int));
    } else {
        push_decimal(out, n as u64);
    }
}

/// The value of a string of decimal digits.
pub open spec fn digits_value(s: Seq<char>) -> int
    decreases s.len(),
{
    if s.len() == 0 {
        0
    } else {
        digits_value(s.drop_last()) * 10 + (s.last() as int - '0' as int)
    }
}

/// Whether every character of `s` is an ASCII digit.
pub open spec fn all_digits(s: Seq<char>) -> bool {
    forall|i: int| 0 <= i < s.len() ==> '0' <= #[trigger] s[i] && s[i] <= '9'
}

/// What `<i32 as FromStr>::from_str` makes of `s`: an optional `+` or `-`,
/// then one or more ASCII digits whose value fits an `i32`.
pub open spec fn parsed_i32(s: Seq<char>) -> Option<i32> {
    let neg = s.len() > 0 && s[0] == '-';
    let body = if s.len() > 0 && (s[0] == '-' || s[0] == '+') { s.drop_first() } else { s };
    let v = if neg { -digits_value(body) } else { digits_value(body) };
    if body.len() == 0 || !all_digits(body) || v < i32::MIN || v > i32::MAX {
        None
    } else {
        Some(v as i32)
    }
}

/// A cap above every magnitude an `i32` can have.
pub open spec fn digits_cap() -> int {
    2_147_483_649
}

proof fn lemma_digits_value_nonneg(s: Seq<char>)
    requires
        all_digits(s),
    ensures
        digits_value(s) >= 0,
    decreases s.len(),
{
    if s.len() > 0 {
        lemma_digits_value_nonneg(s.drop_last());
    }
}

/// Parse a decimal `i32` as `str::parse::<i32>` does.
pub fn parse_i32(s: &str) -> (r: Option<i32>)
    ensures
        r == parsed_i32(s@),
{
    let n = s.unicode_len();
    let mut k: usize = 0;
    let mut neg = false;
    if n > 0 && (s.get_char(0) == '-' || s.get_char(0) == '+') {
        neg = s.get_char(0) == '-';
        k = 1;
    }
    let ghost body = if s@.len() > 0 && (s@[0] == '-' || s@[0] == '+') { s@.drop_first() } else { s@ };
    if k == n {
        return None;
    }
    let start = k;
    let mut acc: i64 = 0;
    while k < n
        invariant
            n == s@.len(),
            start <= k <= n,
            start == s@.len() - body.len(),
            body == s@.skip(start as int),
            body == if s@.len() > 0 && (s@[0] == '-' || s@[0] == '+') { s@.drop_first() } else { s@ },
            all_digits(body.take(k - start)),
            acc == if digits_value(body.take(k - start)) < digits_cap() {
                digits_value(body.take(k - start))
            } else {
                digits_cap()
            },
        decreases n - k,
    {
        let c = s.get_char(k);
        if c < '0' || c > '9' {
            assert(body[k - start] == c);
            assert(!all_digits(body));
            return None;
        }
        let d = (c as u32 - '0' as u32) as i64;
        proof {
            let p = body.take(k - start);
            let q = body.take(k - start + 1);
            assert(q.drop_last() =~= p);
            assert(q.last() == c);
            lemma_digits_value_nonneg(p);
        }
        acc = acc * 10 + d;
        if acc > 2_147_483_649 {
            acc = 2_147_483_649;
        }
        k = k + 1;
    }
    assert(body.take(k - start) =~= body);
    proof {
        lemma_digits_value_nonneg(body);
    }
    if neg {
        if acc > 2_147_483_648 {
            return None;
        }
        Some((-acc) as i32)
    } else {
        if acc > 2_147_483_647 {
            return None;
        }
        Some(acc as i32)
    }
}

/// `s` without its leading white space.
pub open spec fn trim_start(s: Seq<char>) -> Seq<char>
    decreases s.len(),
{
    if s.len() > 0 && is_white_space(s[0]) {
        trim_start(s.drop_first())
    } else {
        s
    }
}

/// `s` without its trailing white space.
pub open spec fn trim_end(s: Seq<char>) -> Seq<char>
    decreases s.len(),
{
    if s.len() > 0 && is_white_space(s.last()) {
        trim_end(s.drop_last())
    } else {
        s
    }
}

/// `s` without leading and trailing white space (`str::trim`).
pub open spec fn trim(s: Seq<char>) -> Seq<char> {
    trim_end(trim_start(s))
}

proof fn lemma_trim_start(s: Seq<char>, a: int)
    requires
        0 <= a <= s.len(),
        forall|k: int| 0 <= k < a ==> is_white_space(#[trigger] s[k]),
        a == s.len() || !is_white_space(s[a]),
    ensures
        trim_start(s) == s.skip(a),
    decreases a,
{
    if a > 0 {
        lemma_trim_start(s.drop_first(), a - 1);
        assert(s.drop_first().skip(a - 1) =~= s.skip(a));
    } else {
        assert(s.skip(0) =~= s);
    }
}

proof fn lemma_trim_end(s: Seq<char>, m: int)
    requires
        0 <= m <= s.len(),
        forall|k: int| m <= k < s.len() ==> is_white_space(#[trigger] s[k]),
        m == 0 || !is_white_space(s[m - 1]),
    ensures
        trim_end(s) == s.take(m),
    decreases s.len() - m,
{
    if m < s.len() {
        lemma_trim_end(s.drop_last(), m);
        assert(s.drop_last().take(m) =~= s.take(m));
    } else {
        assert(s.take(m) =~= s);
    }
}

/// `s` without leading and trailing white space.
pub fn trim_text(s: &str) -> (r: &str)
    ensures
        r@ == trim(s@),
{
    let n = s.unicode_len();
    let mut a: usize = 0;
    while a < n && white_space(s.get_char(a))
        invariant
            n == s@.len(),
            a <= n,
            forall|k: int| 0 <= k < a ==> is_white_space(#[trigger] s@[k]),
        decreases n - a,
    {
        a = a + 1;
    }
    let mut b: usize = n;
    while b > a && white_space(s.get_char(b - 1))
        invariant
            n == s@.len(),
            a <= b <= n,
            forall|k: int| b <= k < n ==> is_white_space(#[trigger] s@[k]),
        decreases b,
    {
        b = b - 1;
    }
    proof {
        lemma_trim_start(s@, a as int);
        let t = s@.skip(a as int);
        assert forall|k: int| (b - a) <= k < t.len() implies is_white_space(#[trigger] t[k]) by {
            assert(t[k] == s@[a + k]);
        }
        if b > a {
            assert(t[b - a - 1] == s@[b - 1]);
        }
        lemma_trim_end(t, (b - a) as int);
        assert(t.take((b - a) as int) =~= s@.subrange(a as int, b as int));
    }
    s.substring_char(a, b)
}

/// The length of the word `s` starts with: the characters before the first
/// white space.
pub open spec fn word_len(s: Seq<char>) -> nat
    decreases s.len(),
{
    if s.len() == 0 || is_white_space(s[0]) {
        0
    } else {
        1 + word_len(s.drop_first())
    }
}

/// Trimming the start never lengthens a string, and what remains does not
/// start with white space.
pub proof fn lemma_trim_start_shape(s: Seq<char>)
    ensures
        trim_start(s).len() <= s.len(),
        trim_start(s).len() > 0 ==> !is_white_space(trim_start(s)[0]),
    decreases s.len(),
{
    if s.len() > 0 && is_white_space(s[0]) {
        lemma_trim_start_shape(s.drop_first());
    }
}

/// A word is no longer than its string, and a string that starts outside
/// white space starts with a word of at least one character.
pub proof fn lemma_word_len_shape(s: Seq<char>)
    ensures
        word_len(s) <= s.len(),
        s.len() > 0 && !is_white_space(s[0]) ==> word_len(s) >= 1,
    decreases s.len(),
{
    if s.len() > 0 && !is_white_space(s[0]) {
        lemma_word_len_shape(s.drop_first());
    }
}

/// The white-space-separated words of `s`, in order (`str::split_whitespace`).
pub open spec fn words_of(s: Seq<char>) -> Seq<Seq<char>>
    decreases s.len(),
{
    let t = trim_start(s);
    if t.len() == 0 {
        Seq::empty()
    } else {
        proof {
            lemma_trim_start_shape(s);
            lemma_word_len_shape(t);
        }
        seq![t.take(word_len(t) as int)] + words_of(t.skip(word_len(t) as int))
    }
}

proof fn lemma_word_len(s: Seq<char>, m: int)
    requires
        0 <= m <= s.len(),
        forall|k: int| 0 <= k < m ==> !is_white_space(#[trigger] s[k]),
        m == s.len() || is_white_space(s[m]),
    ensures
        word_len(s) == m,
    decreases m,
{
    if m > 0 {
        lemma_word_len(s.drop_first(), m - 1);
    }
}

/// The white-space-separated words of `s`, in order.
pub fn split_words(s: &str) -> (r: Vec<&str>)
    ensures
        r@.len() == words_of(s@).len(),
        forall|i: int| 0 <= i < r@.len() ==> (#[trigger] r@[i])@ == words_of(s@)[i],
{
    let n = s.unicode_len();
    let mut r: Vec<&str> = Vec::new();
    let mut pos: usize = 0;
    let ghost mut seen: Seq<Seq<char>> = Seq::empty();
    assert(s@.skip(0) =~= s@);
    loop
        invariant
            n == s@.len(),
            pos <= n,
            r@.len() == seen.len(),
            forall|i: int| 0 <= i < r@.len() ==> (#[trigger] r@[i])@ == seen[i],
            words_of(s@) == seen + words_of(s@.skip(pos as int)),
        ensures
            r@.len() == words_of(s@).len(),
            forall|i: int| 0 <= i < r@.len() ==> (#[trigger] r@[i])@ == words_of(s@)[i],
        decreases n - pos,
    {
        let mut a: usize = pos;
        while a < n && white_space(s.get_char(a))
            invariant
                n == s@.len(),
                pos <= a <= n,
                forall|k: int| pos <= k < a ==> is_white_space(#[trigger] s@[k]),
            decreases n - a,
        {
            a = a + 1;
        }
        let ghost rest = s@.skip(pos as int);
        proof {
            assert forall|k: int| 0 <= k < a - pos implies is_white_space(#[trigger] rest[k]) by {
                assert(rest[k] == s@[pos + k]);
            }
            if a < n {
                assert(rest[a - pos] == s@[a as int]);
            }
            lemma_trim_start(rest, (a - pos) as int);
            assert(rest.skip((a - pos) as int) =~= s@.skip(a as int));
        }
        if a == n {
            assert(seen + Seq::<Seq<char>>::empty() =~= seen);
            break;
        }
        let mut b: usize = a;
        while b < n && !white_space(s.get_char(b))
            invariant
                n == s@.len(),
                a <= b <= n,
                forall|k: int| a <= k < b ==> !is_white_space(#[trigger] s@[k]),
            decreases n - b,
        {
            b = b + 1;
        }
        let ghost t = s@.skip(a as int);
        proof {
            assert forall|k: int| 0 <= k < b - a implies !is_white_space(#[trigger] t[k]) by {
                assert(t[k] == s@[a + k]);
            }
            if b < n {
                assert(t[b - a] == s@[b as int]);
            }
            lemma_word_len(t, (b - a) as int);
            assert(t.take((b - a) as int) =~= s@.subrange(a as int, b as int));
            assert(t.skip((b - a) as int) =~= s@.skip(b as int));
            assert(seen + words_of(rest) =~= seen.push(s@.subrange(a as int, b as int)) + words_of(s@.skip(b as int)));
        }
        r.push(s.substring_char(a, b));
        proof {
            seen = seen.push(s@.subrange(a as int, b as int));
        }
        pos = b;
    }
    r
}

/// Every character of a decimal text is an ASCII digit, and there is at
/// least one.
pub proof fn lemma_decimal_digits(n: nat)
    ensures
        decimal(n).len() >= 1,
        n >= 10 ==> decimal(n).len() >= 2,
        forall|i: int| 0 <= i < decimal(n).len() ==> '0' <= #[trigger] decimal(n)[i] && decimal(n)[i] <= '9',
    decreases n,
{
    if n >= 10 {
        lemma_decimal_digits(n / 10);
        let d = decimal(n / 10) + seq![digit_char(n % 10)];
        assert(decimal(n) == d);
        assert forall|i: int| 0 <= i < d.len() implies '0' <= #[trigger] d[i] && d[i] <= '9' by {
            if i < d.len() - 1 {
                assert(d[i] == decimal(n / 10)[i]);
            }
        }
    }
}

/// Different numbers have different decimal texts.
pub proof fn lemma_decimal_injective(a: nat, b: nat)
    requires
        decimal(a) == decimal(b),
    ensures
        a == b,
    decreases a,
{
    lemma_decimal_digits(a);
    lemma_decimal_digits(b);
    if a < 10 && b < 10 {
        assert(decimal(a)[0] == digit_char(a));
        assert(decimal(b)[0] == digit_char(b));
    } else if a >= 10 && b >= 10 {
        let da = decimal(a / 10) + seq![digit_char(a % 10)];
        let db = decimal(b / 10) + seq![digit_char(b % 10)];
        assert(da.drop_last() =~= decimal(a / 10));
        assert(db.drop_last() =~= decimal(b / 10));
        assert(da.last() == digit_char(a % 10));
        assert(db.last() == digit_char(b % 10));
        lemma_decimal_injective(a / 10, b / 10);
    } else {
        assert(decimal(a).len() != decimal(b).len()) by {
            if a < 10 {
                assert(decimal(a).len() == 1);
            } else {
                assert(decimal(b).len() == 1);
            }
        }
    }
}

} // verus!
