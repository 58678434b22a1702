//! The virtual keyboard: the keys it offers, their names, and the events of
//! pressing and releasing them.

use vstd::prelude::*;
use crate::event::{DeviceSpec, RawEvent, BUS_USB, EV_KEY, EV_SYN, KEY_PRESSED, KEY_RELEASED, key, key_event, syn, syn_event};

verus! {

/// A keyboard key the engine can press, by its Linux key code.
#[derive(Debug, Clone, Copy, PartialEq, Eq, Structural)]
pub struct Keycode(u16);

impl View for Keycode {
    type V = u16;

    closed spec fn view(&self) -> u16 {
        self.0
    }
}

/// The keys the virtual keyboard declares and the UI can offer, with their
/// display names, in display order. A device can only emit keys it declared
/// at creation, so this is the full pickable set.
pub open spec fn key_table() -> Seq<(&'static str, u16)> {
    seq![
        ("A", 30u16),
        ("B", 48u16),
        ("C", 46u16),
        ("D", 32u16),
        ("E", 18u16),
        ("F", 33u16),
        ("G", 34u16),
        ("H", 35u16),
        ("I", 23u16),
        ("J", 36u16),
        ("K", 37u16),
        ("L", 38u16),
        ("M", 50u16),
        ("N", 49u16),
        ("O", 24u16),
        ("P", 25u16),
        ("Q", 16u16),
        ("R", 19u16),
        ("S", 31u16),
        ("T", 20u16),
        ("U", 22u16),
        ("V", 47u16),
        ("W", 17u16),
        ("X", 45u16),
        ("Y", 21u16),
        ("Z", 44u16),
        ("0", 11u16),
        ("1", 2u16),
        ("2", 3u16),
        ("3", 4u16),
        ("4", 5u16),
        ("5", 6u16),
        ("6", 7u16),
        ("7", 8u16),
        ("8", 9u16),
        ("9", 10u16),
        ("Space", 57u16),
        ("Enter", 28u16),
        ("Tab", 15u16),
        ("Esc", 1u16),
        ("Backspace", 14u16),
        ("CapsLock", 58u16),
        ("LeftShift", 42u16),
        ("RightShift", 54u16),
        ("LeftCtrl", 29u16),
        ("RightCtrl", 97u16),
        ("LeftAlt", 56u16),
        ("RightAlt", 100u16),
        ("LeftMeta", 125u16),
        ("RightMeta", 126u16),
        ("Up", 103u16),
        ("Down", 108u16),
        ("Left", 105u16),
        ("Right", 106u16),
        ("F1", 59u16),
        ("F2", 60u16),
        ("F3", 61u16),
        ("F4", 62u16),
        ("F5", 63u16),
        ("F6", 64u16),
        ("F7", 65u16),
        ("F8", 66u16),
        ("F9", 67u16),
        ("F10", 68u16),
        ("F11", 87u16),
        ("F12", 88u16)
    ]
}

/// `c` with ASCII upper-case letters mapped to lower case, as a code point.
pub open spec fn ascii_lower(c: char) -> u32 {
    if 'A' <= c && c <= 'Z' {
        (c as u32 + 32) as u32
    } else {
        c as u32
    }
}

/// Whether two strings are equal up to ASCII case (`str::eq_ignore_ascii_case`).
pub open spec fn same_ignoring_ascii_case(a: Seq<char>, b: Seq<char>) -> bool {
    &&& a.len() == b.len()
    &&& forall|i: int| 0 <= i < a.len() ==> #[trigger] ascii_lower(a[i]) == ascii_lower(b[i])
}

/// Whether entry `i` of the key table is named `name`, up to ASCII case.
pub open spec fn entry_named(i: int, name: Seq<char>) -> bool {
    same_ignoring_ascii_case(key_table()[i].0@, name)
}

/// The first entry of the key table named `name` (up to ASCII case), if any.
pub open spec fn lookup_name(name: Seq<char>) -> Option<u16> {
    if exists|i: int| 0 <= i < key_table().len() && entry_named(i, name) {
        let i = choose|i: int| 0 <= i < key_table().len() && entry_named(i, name)
            && forall|j: int| 0 <= j < i ==> !entry_named(j, name);
        Some(key_table()[i].1)
    } else {
        None
    }
}

/// The first entry of the key table with code `code`, if any.
pub open spec fn lookup_code(code: u16) -> Option<&'static str> {
    if exists|i: int| 0 <= i < key_table().len() && key_table()[i].1 == code {
        let i = choose|i: int| 0 <= i < key_table().len() && key_table()[i].1 == code
            && forall|j: int| 0 <= j < i ==> key_table()[j].1 != code;
        Some(key_table()[i].0)
    } else {
        None
    }
}

/// The key table as the executable code holds it.
pub fn common_keys() -> (r: Vec<(&'static str, Keycode)>)
    ensures
        r@.len() == key_table().len(),
        forall|i: int| 0 <= i < r@.len() ==> (#[trigger] r@[i]).0 == key_table()[i].0
            && r@[i].1@ == key_table()[i].1,
{
    let r = vec![
        ("A", Keycode(30)),
        ("B", Keycode(48)),
        ("C", Keycode(46)),
        ("D", Keycode(32)),
        ("E", Keycode(18)),
        ("F", Keycode(33)),
        ("G", Keycode(34)),
        ("H", Keycode(35)),
        ("I", Keycode(23)),
        ("J", Keycode(36)),
        ("K", Keycode(37)),
        ("L", Keycode(38)),
        ("M", Keycode(50)),
        ("N", Keycode(49)),
        ("O", Keycode(24)),
        ("P", Keycode(25)),
        ("Q", Keycode(16)),
        ("R", Keycode(19)),
        ("S", Keycode(31)),
        ("T", Keycode(20)),
        ("U", Keycode(22)),
        ("V", Keycode(47)),
        ("W", Keycode(17)),
        ("X", Keycode(45)),
        ("Y", Keycode(21)),
        ("Z", Keycode(44)),
        ("0", Keycode(11)),
        ("1", Keycode(2)),
        ("2", Keycode(3)),
        ("3", Keycode(4)),
        ("4", Keycode(5)),
        ("5", Keycode(6)),
        ("6", Keycode(7)),
        ("7", Keycode(8)),
        ("8", Keycode(9)),
        ("9", Keycode(10)),
        ("Space", Keycode(57)),
        ("Enter", Keycode(28)),
        ("Tab", Keycode(15)),
        ("Esc", Keycode(1)),
        ("Backspace", Keycode(14)),
        ("CapsLock", Keycode(58)),
        ("LeftShift", Keycode(42)),
        ("RightShift", Keycode(54)),
        ("LeftCtrl", Keycode(29)),
        ("RightCtrl", Keycode(97)),
        ("LeftAlt", Keycode(56)),
        ("RightAlt", Keycode(100)),
        ("LeftMeta", Keycode(125)),
        ("RightMeta", Keycode(126)),
        ("Up", Keycode(103)),
        ("Down", Keycode(108)),
        ("Left", Keycode(105)),
        ("Right", Keycode(106)),
        ("F1", Keycode(59)),
        ("F2", Keycode(60)),
        ("F3", Keycode(61)),
        ("F4", Keycode(62)),
        ("F5", Keycode(63)),
        ("F6", Keycode(64)),
        ("F7", Keycode(65)),
        ("F8", Keycode(66)),
        ("F9", Keycode(67)),
        ("F10", Keycode(68)),
        ("F11", Keycode(87)),
        ("F12", Keycode(88))
    ];
    assert(r@.len() == key_table().len());
    r
}

/// Compare two characters up to ASCII case.
fn chars_match(a: char, b: char) -> (r: bool)
    ensures
        r == (ascii_lower(a) == ascii_lower(b)),
{
    let x = a as u32;
    let y = b as u32;
    let lx = if 65 <= x && x <= 90 { x + 32 } else { x };
    let ly = if 65 <= y && y <= 90 { y + 32 } else { y };
    lx == ly
}

/// Whether two strings are equal up to ASCII case.
pub fn eq_ignore_ascii_case(a: &str, b: &str) -> (r: bool)
    ensures
        r == same_ignoring_ascii_case(a@, b@),
{
    let n = a.unicode_len();
    if n != b.unicode_len() {
        return false;
    }
    let mut i: usize = 0;
    while i < n
        invariant
            n == a@.len(),
            n == b@.len(),
            i <= n,
            forall|k: int| 0 <= k < i ==> #[trigger] ascii_lower(a@[k]) == ascii_lower(b@[k]),
        decreases n - i,
    {
        if !chars_match(a.get_char(i), b.get_char(i)) {
            return false;
        }
        i = i + 1;
    }
    true
}

impl Keycode {
    /// The key's Linux key code.
    pub fn code(self) -> (r: u16)
        ensures
            r == self@,
    {
        self.0
    }

    /// Look up a key by its display name, ignoring ASCII case (see
    /// [`common_keys`]).
    pub fn from_name(name: &str) -> (r: Option<Keycode>)
        ensures
            r matches Some(k) ==> lookup_name(name@) == Some(k@),
            r is None ==> lookup_name(name@) is None,
    {
        let keys = common_keys();
        let mut i: usize = 0;
        while i < keys.len()
            invariant
                keys@.len() == key_table().len(),
                forall|k: int| 0 <= k < keys@.len() ==> (#[trigger] keys@[k]).0 == key_table()[k].0
                    && keys@[k].1@ == key_table()[k].1,
                i <= keys@.len(),
                forall|j: int| 0 <= j < i ==> !entry_named(j, name@),
            decreases keys@.len() - i,
        {
            let (n, k) = keys[i];
            if eq_ignore_ascii_case(n, name) {
                assert(entry_named(i as int, name@));
                proof {
                    let w = choose|w: int| 0 <= w < key_table().len() && entry_named(w, name@)
                        && forall|j: int| 0 <= j < w ==> !entry_named(j, name@);
                    assert(0 <= w < key_table().len() && entry_named(w, name@)
                        && forall|j: int| 0 <= j < w ==> !entry_named(j, name@));
                    assert(w == i);
                }
                return Some(k);
            }
            i = i + 1;
        }
        None
    }

    /// The display name for this key, if it is in the common set.
    pub fn name(self) -> (r: Option<&'static str>)
        ensures
            r == lookup_code(self@),
    {
        let keys = common_keys();
        let mut i: usize = 0;
        while i < keys.len()
            invariant
                keys@.len() == key_table().len(),
                forall|k: int| 0 <= k < keys@.len() ==> (#[trigger] keys@[k]).0 == key_table()[k].0
                    && keys@[k].1@ == key_table()[k].1,
                i <= keys@.len(),
                forall|j: int| 0 <= j < i ==> key_table()[j].1 != self@,
            decreases keys@.len() - i,
        {
            let (n, k) = keys[i];
            if k.0 == self.0 {
                proof {
                    let w = choose|w: int| 0 <= w < key_table().len() && key_table()[w].1 == self@
                        && forall|j: int| 0 <= j < w ==> key_table()[j].1 != self@;
                    assert(0 <= w < key_table().len() && key_table()[w].1 == self@
                        && forall|j: int| 0 <= j < w ==> key_table()[j].1 != self@);
                    assert(w == i);
                }
                return Some(n);
            }
            i = i + 1;
        }
        None
    }
}

/// No two keys of the table share a key code.
pub proof fn key_codes_unique()
    ensures
        forall|i: int, j: int|
            0 <= i < j < key_table().len() ==> #[trigger] key_table()[i].1 != #[trigger] key_table()[j].1,
{
}

/// A summary of a name that two names equal up to ASCII case share: its
/// length and its first and last characters, lower-cased.
pub open spec fn fingerprint(s: Seq<char>) -> (nat, u32, u32) {
    (s.len(), ascii_lower(s[0]), ascii_lower(s[s.len() - 1]))
}

/// The fingerprints of the names of the key table, entry by entry.
spec fn name_fingerprints() -> Seq<(nat, u32, u32)> {
    seq![
        (1nat, 97u32, 97u32),
        (1nat, 98u32, 98u32),
        (1nat, 99u32, 99u32),
        (1nat, 100u32, 100u32),
        (1nat, 101u32, 101u32),
        (1nat, 102u32, 102u32),
        (1nat, 103u32, 103u32),
        (1nat, 104u32, 104u32),
        (1nat, 105u32, 105u32),
        (1nat, 106u32, 106u32),
        (1nat, 107u32, 107u32),
        (1nat, 108u32, 108u32),
        (1nat, 109u32, 109u32),
        (1nat, 110u32, 110u32),
        (1nat, 111u32, 111u32),
        (1nat, 112u32, 112u32),
        (1nat, 113u32, 113u32),
        (1nat, 114u32, 114u32),
        (1nat, 115u32, 115u32),
        (1nat, 116u32, 116u32),
        (1nat, 117u32, 117u32),
        (1nat, 118u32, 118u32),
        (1nat, 119u32, 119u32),
        (1nat, 120u32, 120u32),
        (1nat, 121u32, 121u32),
        (1nat, 122u32, 122u32),
        (1nat, 48u32, 48u32),
        (1nat, 49u32, 49u32),
        (1nat, 50u32, 50u32),
        (1nat, 51u32, 51u32),
        (1nat, 52u32, 52u32),
        (1nat, 53u32, 53u32),
        (1nat, 54u32, 54u32),
        (1nat, 55u32, 55u32),
        (1nat, 56u32, 56u32),
        (1nat, 57u32, 57u32),
        (5nat, 115u32, 101u32),
        (5nat, 101u32, 114u32),
        (3nat, 116u32, 98u32),
        (3nat, 101u32, 99u32),
        (9nat, 98u32, 101u32),
        (8nat, 99u32, 107u32),
        (9nat, 108u32, 116u32),
        (10nat, 114u32, 116u32),
        (8nat, 108u32, 108u32),
        (9nat, 114u32, 108u32),
        (7nat, 108u32, 116u32),
        (8nat, 114u32, 116u32),
        (8nat, 108u32, 97u32),
        (9nat, 114u32, 97u32),
        (2nat, 117u32, 112u32),
        (4nat, 100u32, 110u32),
        (4nat, 108u32, 116u32),
        (5nat, 114u32, 116u32),
        (2nat, 102u32, 49u32),
        (2nat, 102u32, 50u32),
        (2nat, 102u32, 51u32),
        (2nat, 102u32, 52u32),
        (2nat, 102u32, 53u32),
        (2nat, 102u32, 54u32),
        (2nat, 102u32, 55u32),
        (2nat, 102u32, 56u32),
        (2nat, 102u32, 57u32),
        (3nat, 102u32, 48u32),
        (3nat, 102u32, 49u32),
        (3nat, 102u32, 50u32)
    ]
}

/// Names equal up to ASCII case have equal fingerprints.
proof fn lemma_fingerprint(a: Seq<char>, b: Seq<char>)
    requires
        same_ignoring_ascii_case(a, b),
        a.len() > 0,
    ensures
        fingerprint(a) == fingerprint(b),
{
    assert(ascii_lower(a[0]) == ascii_lower(b[0]));
    assert(ascii_lower(a[a.len() - 1]) == ascii_lower(b[b.len() - 1]));
}

/// Each name of the key table is non-empty and has the listed fingerprint.
proof fn lemma_table_fingerprints()
    ensures
        forall|i: int| 0 <= i < key_table().len() ==> (#[trigger] key_table()[i]).0@.len() > 0
            && fingerprint(key_table()[i].0@) == name_fingerprints()[i],
{
    reveal_strlit("A");
    reveal_strlit("B");
    reveal_strlit("C");
    reveal_strlit("D");
    reveal_strlit("E");
    reveal_strlit("F");
    reveal_strlit("G");
    reveal_strlit("H");
    reveal_strlit("I");
    reveal_strlit("J");
    reveal_strlit("K");
    reveal_strlit("L");
    reveal_strlit("M");
    reveal_strlit("N");
    reveal_strlit("O");
    reveal_strlit("P");
    reveal_strlit("Q");
    reveal_strlit("R");
    reveal_strlit("S");
    reveal_strlit("T");
    reveal_strlit("U");
    reveal_strlit("V");
    reveal_strlit("W");
    reveal_strlit("X");
    reveal_strlit("Y");
    reveal_strlit("Z");
    reveal_strlit("0");
    reveal_strlit("1");
    reveal_strlit("2");
    reveal_strlit("3");
    reveal_strlit("4");
    reveal_strlit("5");
    reveal_strlit("6");
    reveal_strlit("7");
    reveal_strlit("8");
    reveal_strlit("9");
    reveal_strlit("Space");
    reveal_strlit("Enter");
    reveal_strlit("Tab");
    reveal_strlit("Esc");
    reveal_strlit("Backspace");
    reveal_strlit("CapsLock");
    reveal_strlit("LeftShift");
    reveal_strlit("RightShift");
    reveal_strlit("LeftCtrl");
    reveal_strlit("RightCtrl");
    reveal_strlit("LeftAlt");
    reveal_strlit("RightAlt");
    reveal_strlit("LeftMeta");
    reveal_strlit("RightMeta");
    reveal_strlit("Up");
    reveal_strlit("Down");
    reveal_strlit("Left");
    reveal_strlit("Right");
    reveal_strlit("F1");
    reveal_strlit("F2");
    reveal_strlit("F3");
    reveal_strlit("F4");
    reveal_strlit("F5");
    reveal_strlit("F6");
    reveal_strlit("F7");
    reveal_strlit("F8");
    reveal_strlit("F9");
    reveal_strlit("F10");
    reveal_strlit("F11");
    reveal_strlit("F12");
}

/// No two keys of the table have names equal up to ASCII case, so a name
/// picks out at most one key.
pub proof fn key_names_unique()
    ensures
        forall|i: int, j: int|
            0 <= i < j < key_table().len() ==> !same_ignoring_ascii_case(
                #[trigger] key_table()[i].0@,
                #[trigger] key_table()[j].0@,
            ),
{
    lemma_table_fingerprints();
    assert(forall|i: int, j: int|
        0 <= i < j < key_table().len() ==> #[trigger] name_fingerprints()[i] != #[trigger] name_fingerprints()[j]);
    assert forall|i: int, j: int|
        0 <= i < j < key_table().len() implies !same_ignoring_ascii_case(
            #[trigger] key_table()[i].0@,
            #[trigger] key_table()[j].0@,
        ) by {
        if same_ignoring_ascii_case(key_table()[i].0@, key_table()[j].0@) {
            lemma_fingerprint(key_table()[i].0@, key_table()[j].0@);
        }
    }
}

/// Every key of the table is found by its own name (in any ASCII case) and
/// names itself by that name.
pub proof fn key_names_round_trip(i: int, name: Seq<char>)
    requires
        0 <= i < key_table().len(),
        same_ignoring_ascii_case(key_table()[i].0@, name),
    ensures
        lookup_name(name) == Some(key_table()[i].1),
        lookup_code(key_table()[i].1) == Some(key_table()[i].0),
{
    key_names_unique();
    key_codes_unique();
    assert(entry_named(i, name));
    let w = choose|w: int| 0 <= w < key_table().len() && entry_named(w, name)
        && forall|j: int| 0 <= j < w ==> !entry_named(j, name);
    assert(0 <= w < key_table().len() && entry_named(w, name)
        && forall|j: int| 0 <= j < w ==> !entry_named(j, name));
    if w != i {
        let (lo, hi) = if w < i { (w, i) } else { (i, w) };
        assert(same_ignoring_ascii_case(key_table()[lo].0@, key_table()[hi].0@)) by {
            assert forall|k: int| 0 <= k < key_table()[lo].0@.len() implies
                #[trigger] ascii_lower(key_table()[lo].0@[k]) == ascii_lower(key_table()[hi].0@[k]) by {
                assert(ascii_lower(key_table()[w].0@[k]) == ascii_lower(name[k]));
                assert(ascii_lower(key_table()[i].0@[k]) == ascii_lower(name[k]));
            }
        }
    }
    let c = key_table()[i].1;
    assert(exists|v: int| 0 <= v < key_table().len() && key_table()[v].1 == c) by {
        assert(key_table()[i].1 == c);
    }
    let v = choose|v: int| 0 <= v < key_table().len() && key_table()[v].1 == c
        && forall|j: int| 0 <= j < v ==> key_table()[j].1 != c;
    assert(0 <= v < key_table().len() && key_table()[v].1 == c
        && forall|j: int| 0 <= j < v ==> key_table()[j].1 != c);
    assert(v == i);
}

/// A key found by a name gives back a name equal to it up to ASCII case.
pub proof fn found_key_names_itself(name: Seq<char>, k: u16)
    requires
        lookup_name(name) == Some(k),
    ensures
        lookup_code(k) matches Some(n) && same_ignoring_ascii_case(n@, name),
{
    assert(exists|i: int| 0 <= i < key_table().len() && entry_named(i, name));
    let i = choose|i: int| 0 <= i < key_table().len() && entry_named(i, name);
    key_names_round_trip(i, name);
}

/// The events of putting key `code` into `state`: the key event, then a report.
pub open spec fn key_events(code: u16, state: i32) -> Seq<RawEvent> {
    seq![key_event(code, state), syn_event()]
}

/// The events that press and hold `k`.
pub fn press(k: Keycode) -> (r: Vec<RawEvent>)
    ensures
        r@ == key_events(k@, KEY_PRESSED),
{
    let r = vec![key(k.0, KEY_PRESSED), syn()];
    assert(r@ =~= key_events(k@, KEY_PRESSED));
    r
}

/// The events that release `k`.
pub fn release(k: Keycode) -> (r: Vec<RawEvent>)
    ensures
        r@ == key_events(k@, KEY_RELEASED),
{
    let r = vec![key(k.0, KEY_RELEASED), syn()];
    assert(r@ =~= key_events(k@, KEY_RELEASED));
    r
}

/// What the virtual keyboard declares: key and report events, and every key
/// of the table, in table order.
pub fn keyboard_device() -> (r: DeviceSpec)
    ensures
        r.name == "wayclick-virtual-keyboard",
        r.bustype == BUS_USB,
        r.vendor == 0x3232,
        r.product == 0x567b,
        r.version == 1,
        r.event_kinds@ == seq![EV_KEY, EV_SYN],
        r.rel_axes@.len() == 0,
        r.keys@ == key_table().map_values(|e: (&'static str, u16)| e.1),
        r.abs_axes@.len() == 0,
        r.properties@.len() == 0,
{
    let table = common_keys();
    let mut keys: Vec<u16> = Vec::new();
    let mut i: usize = 0;
    while i < table.len()
        invariant
            table@.len() == key_table().len(),
            forall|k: int| 0 <= k < table@.len() ==> (#[trigger] table@[k]).0 == key_table()[k].0
                && table@[k].1@ == key_table()[k].1,
            i <= table@.len(),
            keys@ == key_table().take(i as int).map_values(|e: (&'static str, u16)| e.1),
        decreases table@.len() - i,
    {
        let (_, k) = table[i];
        keys.push(k.0);
        assert(key_table().take(i as int + 1) =~= key_table().take(i as int).push(key_table()[i as int]));
        i = i + 1;
    }
    assert(key_table().take(i as int) =~= key_table());
    let kinds = vec![EV_KEY, EV_SYN];
    let rels: Vec<u16> = Vec::new();
    assert(kinds@ =~= seq![EV_KEY, EV_SYN]);
    DeviceSpec {
        name: "wayclick-virtual-keyboard",
        bustype: BUS_USB,
        vendor: 0x3232,
        product: 0x567b,
        version: 1,
        event_kinds: kinds,
        rel_axes: rels,
        keys: keys,
        abs_axes: Vec::new(),
        properties: Vec::new(),
    }
}

} // verus!
