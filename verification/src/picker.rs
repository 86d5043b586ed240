//! The color picker: what it edits, its hex field, and the event that it posts.

use crate::text;
use vstd::prelude::*;

verus! {

/// What the picker edits and which color it starts from.
#[derive(Clone, Copy, Debug)]
pub enum PickerRequest {
    Slot(u8, [u8; 3]),
    Audio(Option<[u8; 3]>),
}

/// The picker's target: 0 is the Audio Sync color, 1..=4 a static slot.
pub open spec fn target_of(request: PickerRequest) -> u8 {
    match request {
        PickerRequest::Slot(slot, _) => slot,
        PickerRequest::Audio(_) => 0u8,
    }
}

/// The contents of the color that the picker starts from: white when none is
/// set.
pub open spec fn initial_of(request: PickerRequest) -> Seq<u8> {
    match request {
        PickerRequest::Slot(_, rgb) => rgb@,
        PickerRequest::Audio(Some(rgb)) => rgb@,
        PickerRequest::Audio(None) => seq![255u8, 255u8, 255u8],
    }
}

/// What a request means to the picker window: its target and first color.
pub fn resolve(request: PickerRequest) -> (out: (u8, [u8; 3]))
    ensures
        out.0 == target_of(request),
        out.1@ == initial_of(request),
{
    match request {
        PickerRequest::Slot(slot, rgb) => (slot, rgb),
        PickerRequest::Audio(Some(rgb)) => (0, rgb),
        PickerRequest::Audio(None) => {
            let white: [u8; 3] = [255, 255, 255];
            assert(white@ =~= seq![255u8, 255u8, 255u8]);
            (0, white)
        },
    }
}

/// Is the picker on screen?
#[derive(Clone, Copy, PartialEq, Eq, Debug, Structural)]
pub struct PickerWindow {
    pub open: bool,
    /// What it edits.
    pub target: u8,
}

/// Must a window be created to show the picker?
pub open spec fn creates_window(w: PickerWindow) -> bool {
    !w.open
}

/// The picker once it is torn down.
pub open spec fn torn_down(w: PickerWindow) -> PickerWindow {
    PickerWindow { open: false, ..w }
}

impl PickerWindow {
    pub fn new() -> (w: PickerWindow)
        ensures
            w == (PickerWindow { open: false, target: 0 }),
    {
        PickerWindow { open: false, target: 0 }
    }

    /// Shows the picker for a target. True: a window must be created; false: the
    /// one that is there is retargeted.
    pub fn show(&mut self, target: u8) -> (create: bool)
        ensures
            create == creates_window(*old(self)),
            *final(self) == (PickerWindow { open: true, target }),
    {
        let create = !self.open;
        self.open = true;
        self.target = target;
        create
    }

    /// Tears the picker down, whichever way it was closed: accepted, cancelled,
    /// or by the window's own close button.
    pub fn close(&mut self)
        ensures
            *final(self) == torn_down(*old(self)),
    {
        self.open = false;
    }
}

pub open spec fn hex_char(d: int) -> char {
    if d < 10 {
        ('0' as int + d) as char
    } else {
        ('A' as int + d - 10) as char
    }
}

/// A byte as two hex digits.
pub open spec fn hex_pair(v: u8) -> Seq<char> {
    seq![hex_char(v as int / 16), hex_char(v as int % 16)]
}

/// The hex label of a color: `#RRGGBB`.
pub open spec fn hex_label(r: u8, g: u8, b: u8) -> Seq<char> {
    seq!['#'] + hex_pair(r) + hex_pair(g) + hex_pair(b)
}

fn hex_digit(d: u8) -> (s: &'static str)
    requires
        d < 16,
    ensures
        s@ == seq![hex_char(d as int)],
{
    proof {
        reveal_strlit("0");
        reveal_strlit("1");
        reveal_strlit("2");
        reveal_strlit("3");
        reveal_strlit("4");
        reveal_strlit("5");
        reveal_strlit("6");
        reveal_strlit("7");
        reveal_strlit("8");
        reveal_strlit("9");
        reveal_strlit("A");
        reveal_strlit("B");
        reveal_strlit("C");
        reveal_strlit("D");
        reveal_strlit("E");
        reveal_strlit("F");
    }
    let s = match d {
        0 => "0",
        1 => "1",
        2 => "2",
        3 => "3",
        4 => "4",
        5 => "5",
        6 => "6",
        7 => "7",
        8 => "8",
        9 => "9",
        10 => "A",
        11 => "B",
        12 => "C",
        13 => "D",
        14 => "E",
        _ => "F",
    };
    assert(s@ =~= seq![hex_char(d as int)]);
    s
}

/// Hex label of a color (`#RRGGBB`).
pub fn hex_text(rgb: [u8; 3]) -> (s: String)
    ensures
        s@ == hex_label(rgb@[0], rgb@[1], rgb@[2]),
{
    proof {
        reveal_strlit("#");
        assert("#"@ =~= seq!['#']);
    }
    let mut s = String::from_str("#");
    s.append(hex_digit(rgb[0] / 16));
    s.append(hex_digit(rgb[0] % 16));
    s.append(hex_digit(rgb[1] / 16));
    s.append(hex_digit(rgb[1] % 16));
    s.append(hex_digit(rgb[2] / 16));
    s.append(hex_digit(rgb[2] % 16));
    assert(s@ =~= hex_label(rgb@[0], rgb@[1], rgb@[2]));
    s
}

pub open spec fn is_hex(c: char) -> bool {
    '0' <= c <= '9' || 'A' <= c <= 'F' || 'a' <= c <= 'f'
}

pub open spec fn hex_digit_value(c: char) -> int {
    if '0' <= c <= '9' {
        c as int - '0' as int
    } else if 'A' <= c <= 'F' {
        c as int - 'A' as int + 10
    } else {
        c as int - 'a' as int + 10
    }
}

/// How many hex digits a text holds.
pub open spec fn hex_count(s: Seq<char>) -> int
    decreases s.len(),
{
    if s.len() == 0 {
        0
    } else {
        hex_count(s.drop_last()) + (if is_hex(s.last()) {
            1int
        } else {
            0
        })
    }
}

/// The number that the hex digits of a text write; other characters are skipped.
pub open spec fn hex_value(s: Seq<char>) -> int
    decreases s.len(),
{
    if s.len() == 0 {
        0
    } else if is_hex(s.last()) {
        16 * hex_value(s.drop_last()) + hex_digit_value(s.last())
    } else {
        hex_value(s.drop_last())
    }
}

proof fn lemma_hex_nonnegative(s: Seq<char>)
    ensures
        hex_value(s) >= 0,
        hex_count(s) >= 0,
    decreases s.len(),
{
    if s.len() > 0 {
        lemma_hex_nonnegative(s.drop_last());
    }
}

fn digit_of(c: char) -> (d: Option<u32>)
    ensures
        d is Some <==> is_hex(c),
        d matches Some(v) ==> v == hex_digit_value(c) && v < 16,
{
    if '0' <= c && c <= '9' {
        Some(c as u32 - '0' as u32)
    } else if 'A' <= c && c <= 'F' {
        Some(c as u32 - 'A' as u32 + 10)
    } else if 'a' <= c && c <= 'f' {
        Some(c as u32 - 'a' as u32 + 10)
    } else {
        None
    }
}

/// The 32-bit number that the hex digits of a text write: none without digits,
/// and none beyond 32 bits. Second result: whether there are exactly six digits.
fn read_hex(s: &str) -> (out: (Option<u32>, bool))
    ensures
        out.0 == (if hex_count(s@) > 0 && hex_value(s@) <= u32::MAX {
            Some(hex_value(s@) as u32)
        } else {
            None
        }),
        out.1 == (hex_count(s@) == 6),
{
    let n: usize = s.unicode_len();
    let mut count: usize = 0;
    let mut value: u64 = 0;
    let mut over = false;
    let mut i: usize = 0;
    assert(s@.take(0) =~= Seq::<char>::empty());
    while i < n
        invariant
            i <= n,
            n == s@.len(),
            count <= i,
            count == hex_count(s@.take(i as int)),
            over ==> hex_value(s@.take(i as int)) > u32::MAX,
            !over ==> value == hex_value(s@.take(i as int)) && value <= u32::MAX,
        decreases n - i,
    {
        assert(s@.take(i + 1).drop_last() =~= s@.take(i as int));
        proof {
            lemma_hex_nonnegative(s@.take(i as int));
        }
        match digit_of(s.get_char(i)) {
            Some(d) => {
                count = count + 1;
                if !over {
                    value = value * 16 + d as u64;
                    if value > u32::MAX as u64 {
                        over = true;
                    }
                }
            },
            None => {},
        }
        i = i + 1;
    }
    assert(s@.take(n as int) =~= s@);
    if over || count == 0 {
        (None, count == 6)
    } else {
        (Some(value as u32), count == 6)
    }
}

/// A color from the low 24 bits of a number.
pub open spec fn is_rgb_of(rgb: Seq<u8>, v: int) -> bool {
    rgb == seq![((v / 0x10000) % 0x100) as u8, ((v / 0x100) % 0x100) as u8, (v % 0x100) as u8]
}

fn rgb_of(v: u32) -> (rgb: [u8; 3])
    ensures
        is_rgb_of(rgb@, v as int),
{
    let rgb: [u8; 3] = [
        ((v / 0x10000) % 0x100) as u8,
        ((v / 0x100) % 0x100) as u8,
        (v % 0x100) as u8,
    ];
    assert(rgb@ =~= seq![
        ((v as int / 0x10000) % 0x100) as u8,
        ((v as int / 0x100) % 0x100) as u8,
        (v as int % 0x100) as u8,
    ]);
    rgb
}

/// The color that a confirmed hex field sets: exactly six digits count, whatever
/// stands between them.
pub fn entered_color(hex: &str) -> (color: Option<[u8; 3]>)
    ensures
        color is Some <==> hex_count(hex@) == 6,
        color matches Some(rgb) ==> is_rgb_of(rgb@, hex_value(hex@)),
{
    let (value, six) = read_hex(hex);
    proof {
        lemma_hex_nonnegative(hex@);
        if hex_count(hex@) == 6 {
            lemma_bounded_digits(hex@);
        }
    }
    match value {
        Some(v) if six => Some(rgb_of(v)),
        _ => None,
    }
}

/// Six hex digits write less than 24 bits, five less than 20, and so on.
proof fn lemma_bounded_digits(s: Seq<char>)
    ensures
        hex_count(s) <= 0 ==> hex_value(s) < 0x1,
        hex_count(s) <= 1 ==> hex_value(s) < 0x10,
        hex_count(s) <= 2 ==> hex_value(s) < 0x100,
        hex_count(s) <= 3 ==> hex_value(s) < 0x1000,
        hex_count(s) <= 4 ==> hex_value(s) < 0x10000,
        hex_count(s) <= 5 ==> hex_value(s) < 0x100000,
        hex_count(s) <= 6 ==> hex_value(s) < 0x1000000,
    decreases s.len(),
{
    lemma_hex_nonnegative(s);
    if s.len() > 0 {
        lemma_hex_nonnegative(s.drop_last());
        lemma_bounded_digits(s.drop_last());
    }
}

/// The number that the accepted hex field stands for: white when it cannot be
/// read.
pub open spec fn accepted_value(hex: Seq<char>) -> int {
    if hex_count(hex) > 0 && hex_value(hex) <= u32::MAX {
        hex_value(hex)
    } else {
        0xFFFFFF
    }
}

/// The color that the picker reports when it is accepted.
pub fn accepted_color(hex: &str) -> (rgb: [u8; 3])
    ensures
        is_rgb_of(rgb@, accepted_value(hex@)),
{
    proof {
        lemma_hex_nonnegative(hex@);
    }
    match read_hex(hex).0 {
        Some(v) => rgb_of(v),
        None => rgb_of(0xFFFFFF),
    }
}

/// The numbers of a color, separated by commas.
pub open spec fn triple_text(r: int, g: int, b: int) -> Seq<char> {
    text::decimal_text(r) + ","@ + text::decimal_text(g) + ","@ + text::decimal_text(b)
}

/// The event that reports a picked color.
pub open spec fn result_text(target: u8, rgb: Seq<u8>) -> Seq<char> {
    (if target == 0 {
        "__picker_audio:"@
    } else {
        "__picker_slot_"@ + text::decimal_text(target as int) + ":"@
    }) + triple_text(rgb[0] as int, rgb[1] as int, rgb[2] as int)
}

/// The event that reports a picked color.
pub fn result_id(target: u8, rgb: [u8; 3]) -> (id: String)
    ensures
        id@ == result_text(target, rgb@),
{
    let mut id = if target == 0 {
        String::from_str("__picker_audio:")
    } else {
        let number = text::decimal(target as u32);
        let mut head = text::join("__picker_slot_", number.as_str());
        head.append(":");
        head
    };
    let ghost head = id@;
    let r = text::decimal(rgb[0] as u32);
    let g = text::decimal(rgb[1] as u32);
    let b = text::decimal(rgb[2] as u32);
    id.append(r.as_str());
    id.append(",");
    id.append(g.as_str());
    id.append(",");
    id.append(b.as_str());
    assert(id@ =~= head + triple_text(rgb@[0] as int, rgb@[1] as int, rgb@[2] as int));
    id
}

/// The color that a list of three numbers writes: each up to 255, separated by
/// the first two commas.
pub open spec fn parsed_triple(s: Seq<char>) -> Option<(int, int, int)> {
    match text::first_of(s, ',') {
        Some(i) => {
            let rest = s.skip(i + 1);
            match text::first_of(rest, ',') {
                Some(j) => match (
                    text::parsed(s.take(i), 255),
                    text::parsed(rest.take(j), 255),
                    text::parsed(rest.skip(j + 1), 255),
                ) {
                    (Some(r), Some(g), Some(b)) => Some((r, g, b)),
                    _ => None,
                },
                None => None,
            }
        },
        None => None,
    }
}

/// Reads three numbers separated by commas.
pub fn parse_triple(s: &str) -> (rgb: Option<[u8; 3]>)
    ensures
        match parsed_triple(s@) {
            Some((r, g, b)) => rgb matches Some(c) && c@[0] == r && c@[1] == g && c@[2] == b,
            None => rgb is None,
        },
{
    let (head, rest) = match text::split_once(s, ',') {
        Some(parts) => parts,
        None => return None,
    };
    let (middle, tail) = match text::split_once(rest, ',') {
        Some(parts) => parts,
        None => return None,
    };
    match (
        text::parse_number(head, 255),
        text::parse_number(middle, 255),
        text::parse_number(tail, 255),
    ) {
        (Some(r), Some(g), Some(b)) => Some([r as u8, g as u8, b as u8]),
        _ => None,
    }
}

/// A picked color reads back from the list of its numbers.
pub proof fn triples_read_back(r: int, g: int, b: int)
    requires
        0 <= r <= 255,
        0 <= g <= 255,
        0 <= b <= 255,
    ensures
        parsed_triple(triple_text(r, g, b)) == Some((r, g, b)),
{
    reveal_strlit(",");
    let s = triple_text(r, g, b);
    let x = text::decimal_text(r);
    let y = text::decimal_text(g);
    let z = text::decimal_text(b);
    text::lemma_decimal(r);
    text::lemma_decimal(g);
    let i = x.len() as int;
    assert(s[i] == ',');
    assert forall|k: int| 0 <= k < i implies s[k] != ',' by {
        assert(s[k] == x[k] && text::is_digit(x[k]));
    }
    text::lemma_first_of(s, ',', i);
    let rest = s.skip(i + 1);
    assert(rest =~= y + ","@ + z);
    let j = y.len() as int;
    assert(rest[j] == ',');
    assert forall|k: int| 0 <= k < j implies rest[k] != ',' by {
        assert(rest[k] == y[k] && text::is_digit(y[k]));
    }
    text::lemma_first_of(rest, ',', j);
    assert(s.take(i) =~= x);
    assert(rest.take(j) =~= y);
    assert(rest.skip(j + 1) =~= z);
    text::decimal_reads_back(r, 255);
    text::decimal_reads_back(g, 255);
    text::decimal_reads_back(b, 255);
}

proof fn lemma_hex_char(d: int)
    requires
        0 <= d < 16,
    ensures
        is_hex(hex_char(d)),
        hex_digit_value(hex_char(d)) == d,
{
}

/// One more hex digit.
proof fn lemma_hex_push(s: Seq<char>, d: int)
    requires
        0 <= d < 16,
    ensures
        hex_count(s.push(hex_char(d))) == hex_count(s) + 1,
        hex_value(s.push(hex_char(d))) == 16 * hex_value(s) + d,
{
    lemma_hex_char(d);
    assert(s.push(hex_char(d)).drop_last() =~= s);
}

/// One more byte in hex.
proof fn lemma_hex_add(s: Seq<char>, v: u8)
    ensures
        hex_count(s + hex_pair(v)) == hex_count(s) + 2,
        hex_value(s + hex_pair(v)) == 256 * hex_value(s) + v,
{
    let high = v as int / 16;
    let low = v as int % 16;
    lemma_hex_push(s, high);
    lemma_hex_push(s.push(hex_char(high)), low);
    assert(s + hex_pair(v) =~= s.push(hex_char(high)).push(hex_char(low)));
}

/// The number that a hex label writes.
proof fn lemma_label_value(r: u8, g: u8, b: u8)
    ensures
        hex_count(hex_label(r, g, b)) == 6,
        hex_value(hex_label(r, g, b)) == 0x10000 * r + 0x100 * g + b,
{
    let mark = seq!['#'];
    assert(mark.drop_last() =~= Seq::<char>::empty());
    assert(hex_value(mark.drop_last()) == 0 && hex_count(mark.drop_last()) == 0);
    assert(hex_value(mark) == 0 && hex_count(mark) == 0);
    lemma_hex_add(mark, r);
    lemma_hex_add(mark + hex_pair(r), g);
    lemma_hex_add(mark + hex_pair(r) + hex_pair(g), b);
}

/// Three bytes come apart again.
proof fn lemma_bytes(r: int, g: int, b: int)
    requires
        0 <= r < 0x100,
        0 <= g < 0x100,
        0 <= b < 0x100,
    ensures
        ({
            let v = 0x10000 * r + 0x100 * g + b;
            &&& (v / 0x10000) % 0x100 == r
            &&& (v / 0x100) % 0x100 == g
            &&& v % 0x100 == b
            &&& 0 <= v <= 0xFFFFFF
        }),
{
}

/// The hex label of a color reads back as the color, both when the field is
/// confirmed and when the picker is accepted.
pub proof fn hex_labels_read_back(r: u8, g: u8, b: u8)
    ensures
        hex_count(hex_label(r, g, b)) == 6,
        is_rgb_of(seq![r, g, b], hex_value(hex_label(r, g, b))),
        accepted_value(hex_label(r, g, b)) == hex_value(hex_label(r, g, b)),
{
    lemma_label_value(r, g, b);
    lemma_bytes(r as int, g as int, b as int);
}

/// However the picker was closed, the next request creates a window again.
pub proof fn a_closed_picker_opens_again(w: PickerWindow)
    ensures
        creates_window(torn_down(w)),
{
}

} // verus!
