//! Desktop capture: which output carries the strip, what a frame tells, and the
//! protocol of acquiring one.

use crate::compute::Block;
use crate::settings;
use crate::stats::FrameStats;
use crate::text;
use vstd::prelude::*;

verus! {

/// A desktop output (monitor).
#[derive(Clone, Debug)]
pub struct OutputInfo {
    /// Device name, which keys the screen selection.
    pub name: String,
    /// Does the output hold the desktop's origin?
    pub is_primary: bool,
}

/// What `str::to_lowercase` returns.
pub uninterp spec fn lowercased(s: Seq<char>) -> Seq<char>;

/// Is the text ASCII?
pub open spec fn is_ascii_text(s: Seq<char>) -> bool {
    forall|i: int| 0 <= i < s.len() ==> (#[trigger] s[i] as int) < 0x80
}

/// The small letter of an ASCII capital; other characters as they are.
pub open spec fn small_letter(c: char) -> char {
    if 'A' <= c <= 'Z' {
        (c as int + 0x20) as char
    } else {
        c
    }
}

/// A text with small letters in place of the ASCII capitals.
pub open spec fn small_letters(s: Seq<char>) -> Seq<char> {
    Seq::new(s.len(), |i: int| small_letter(s[i]))
}

/// `str::to_lowercase`. Claims that the result depends on the text alone, and
/// that in an ASCII text each capital becomes its small letter; the Unicode case
/// mapping of other texts is left unsaid.
#[verifier::external_body]
fn to_lowercase(s: &str) -> (lower: String)
    ensures
        lower@ == lowercased(s@),
        is_ascii_text(s@) ==> lower@ == small_letters(s@),
{
    s.to_lowercase()
}

/// Is the unit half of a surrogate pair?
pub open spec fn is_surrogate(unit: u16) -> bool {
    0xD800 <= unit <= 0xDFFF
}

/// Do the first two units make a pair: a high half and a low one?
pub open spec fn starts_with_pair(units: Seq<u16>) -> bool {
    units.len() >= 2 && 0xD800 <= units[0] < 0xDC00 && 0xDC00 <= units[1] <= 0xDFFF
}

/// The character of a surrogate pair.
pub open spec fn pair_char(high: u16, low: u16) -> char {
    (0x10000 + (high - 0xD800) * 0x400 + (low - 0xDC00)) as char
}

/// The text of some UTF-16 units: a surrogate pair is one character, a half
/// without its other half is replaced by U+FFFD, and any other unit is the
/// character of its number.
pub open spec fn utf16_text(units: Seq<u16>) -> Seq<char>
    decreases units.len(),
{
    if units.len() == 0 {
        Seq::empty()
    } else if starts_with_pair(units) {
        seq![pair_char(units[0], units[1])] + utf16_text(units.skip(2))
    } else if is_surrogate(units[0]) {
        seq!['\u{FFFD}'] + utf16_text(units.skip(1))
    } else {
        seq![units[0] as char] + utf16_text(units.skip(1))
    }
}

/// `String::from_utf16_lossy`. Claims that it decodes UTF-16, with U+FFFD in
/// place of every half of a surrogate pair that stands alone.
#[verifier::external_body]
fn from_utf16_lossy(units: &[u16]) -> (s: String)
    ensures
        s@ == utf16_text(units@),
{
    String::from_utf16_lossy(units)
}

/// What a character encodes to decodes to it, whatever follows.
proof fn lemma_decodes_one(c: char, rest: Seq<u16>)
    ensures
        utf16_text(settings::utf16_of(c) + rest) == seq![c] + utf16_text(rest),
{
    let units = settings::utf16_of(c) + rest;
    let v = c as int;
    if v < 0x10000 {
        assert(units[0] == v);
        assert(units.skip(1) =~= rest);
    } else {
        assert(starts_with_pair(units));
        assert(pair_char(units[0], units[1]) == c);
        assert(units.skip(2) =~= rest);
    }
}

/// What a text encodes to decodes to it, whatever follows.
proof fn lemma_decodes_all(s: Seq<char>, rest: Seq<u16>)
    ensures
        utf16_text(settings::utf16(s) + rest) == s + utf16_text(rest),
    decreases s.len(),
{
    if s.len() == 0 {
        assert(settings::utf16(s) + rest =~= rest);
        assert(s + utf16_text(rest) =~= utf16_text(rest));
    } else {
        let tail = settings::utf16_of(s.last()) + rest;
        lemma_decodes_all(s.drop_last(), tail);
        lemma_decodes_one(s.last(), rest);
        assert(settings::utf16(s) + rest =~= settings::utf16(s.drop_last()) + tail);
        assert(s.drop_last() + (seq![s.last()] + utf16_text(rest)) =~= s + utf16_text(rest));
    }
}

/// Every text survives being written as UTF-16 and read again.
pub proof fn texts_survive_utf16(s: Seq<char>)
    ensures
        utf16_text(settings::utf16(s)) == s,
{
    lemma_decodes_all(s, Seq::empty());
    assert(settings::utf16(s) + Seq::<u16>::empty() =~= settings::utf16(s));
    assert(s + utf16_text(Seq::empty()) =~= s);
}

/// Units outside the surrogate range are one character each.
pub proof fn plain_units_are_characters(units: Seq<u16>)
    requires
        forall|i: int| 0 <= i < units.len() ==> !is_surrogate(#[trigger] units[i]),
    ensures
        utf16_text(units) == Seq::new(units.len(), |i: int| units[i] as char),
    decreases units.len(),
{
    if units.len() > 0 {
        assert(!is_surrogate(units[0]));
        plain_units_are_characters(units.skip(1));
        assert(utf16_text(units) =~= Seq::new(units.len(), |i: int| units[i] as char));
    }
}

/// How many units stand before the first NUL.
pub open spec fn nul_position(field: Seq<u16>) -> int
    decreases field.len(),
{
    if field.len() == 0 || field[0] == 0 {
        0
    } else {
        1 + nul_position(field.skip(1))
    }
}

proof fn lemma_nul_position(field: Seq<u16>, i: int)
    requires
        0 <= i <= field.len(),
        forall|j: int| 0 <= j < i ==> field[j] != 0,
        i == field.len() || field[i] == 0,
    ensures
        nul_position(field) == i,
    decreases field.len(),
{
    if i > 0 {
        assert(field[0] != 0);
        lemma_nul_position(field.skip(1), i - 1);
    }
}

/// How many units of a NUL-terminated field are text.
pub fn text_len(field: &[u16]) -> (n: usize)
    ensures
        n == nul_position(field@),
        n <= field@.len(),
{
    let mut i: usize = 0;
    while i < field.len() && field[i] != 0
        invariant
            i <= field@.len(),
            forall|j: int| 0 <= j < i ==> field@[j] != 0,
        decreases field@.len() - i,
    {
        i = i + 1;
    }
    proof {
        lemma_nul_position(field@, i as int);
    }
    i
}

/// The text of a fixed-size NUL-terminated wide field.
pub open spec fn wide_text(field: Seq<u16>) -> Seq<char> {
    utf16_text(field.take(nul_position(field)))
}

/// String from a fixed-size NUL-terminated wide field.
pub fn wide_str(field: &[u16]) -> (s: String)
    ensures
        s@ == wide_text(field@),
{
    let n: usize = text_len(field);
    let units = vstd::slice::slice_subrange(field, 0, n);
    assert(units@ =~= field@.take(n as int));
    from_utf16_lossy(units)
}

/// What an output's descriptor says of it: nothing when it is not attached to
/// the desktop; primary when its corner is the desktop's origin.
pub fn output_info(attached: bool, device_name: &[u16], left: i32, top: i32) -> (info: Option<
    OutputInfo,
>)
    ensures
        info is Some <==> attached,
        info matches Some(o) ==> o.name@ == wide_text(device_name@) && o.is_primary == (left == 0
            && top == 0),
{
    if !attached {
        return None;
    }
    Some(OutputInfo { name: wide_str(device_name), is_primary: left == 0 && top == 0 })
}

/// The model name of a monitor: none when it could not be read or is empty.
pub fn model_name(read: bool, field: &[u16]) -> (model: Option<String>)
    ensures
        model is Some <==> read && wide_text(field@).len() > 0,
        model matches Some(m) ==> m@ == wide_text(field@),
{
    if !read {
        return None;
    }
    let model = wide_str(field);
    if model.as_str().unicode_len() == 0 {
        None
    } else {
        Some(model)
    }
}

/// Is a lowercase model name one of a monitor that carries the RGB strip?
pub open spec fn is_rgb_text(lower: Seq<char>) -> bool {
    ||| text::occurs(lower, "27gn950"@)
    ||| text::occurs(lower, "38gn950"@)
    ||| text::occurs(lower, "38gl950g"@)
}

/// Is a lowercase model name one of a monitor that carries the RGB strip?
pub fn is_rgb_model(lower: &str) -> (yes: bool)
    ensures
        yes == is_rgb_text(lower@),
{
    text::contains(lower, "27gn950") || text::contains(lower, "38gn950") || text::contains(
        lower,
        "38gl950g",
    )
}

/// Is a monitor model one of those that carry the RGB strip, in capital or small
/// letters?
pub fn is_rgb_monitor(model: &str) -> (yes: bool)
    ensures
        yes == is_rgb_text(lowercased(model@)),
        is_ascii_text(model@) ==> yes == is_rgb_text(small_letters(model@)),
{
    let lower = to_lowercase(model);
    is_rgb_model(lower.as_str())
}

/// The model of the first entry with that device name.
pub open spec fn model_of(models: Seq<(String, Option<String>)>, name: Seq<char>) -> Option<
    Seq<char>,
>
    decreases models.len(),
{
    if models.len() == 0 {
        None
    } else if models[0].0@ == name {
        match models[0].1 {
            Some(model) => Some(model@),
            None => None,
        }
    } else {
        model_of(models.skip(1), name)
    }
}

/// The model of the monitor behind a device name, in the table of every active
/// output's device name and model.
pub fn monitor_model(device_name: &str, models: &Vec<(String, Option<String>)>) -> (model: Option<
    String,
>)
    ensures
        match model_of(models@, device_name@) {
            Some(m) => model matches Some(s) && s@ == m,
            None => model is None,
        },
{
    let mut i: usize = 0;
    assert(models@.skip(0) =~= models@);
    while i < models.len()
        invariant
            i <= models@.len(),
            model_of(models@.skip(i as int), device_name@) == model_of(models@, device_name@),
        decreases models@.len() - i,
    {
        assert(models@.skip(i as int)[0] == models@[i as int]);
        assert(models@.skip(i as int).skip(1) =~= models@.skip(i + 1));
        if text::same(models[i].0.as_str(), device_name) {
            return match &models[i].1 {
                Some(model) => Some(model.clone()),
                None => None,
            };
        }
        i = i + 1;
    }
    None
}

/// Does the output belong to a monitor that carries the strip?
pub open spec fn carries_strip(output: OutputInfo, models: Seq<(String, Option<String>)>) -> bool {
    model_of(models, output.name@) matches Some(m) && is_rgb_text(lowercased(m))
}

/// Which outputs belong to a monitor that carries the strip.
pub open spec fn strip_flags(
    outputs: Seq<OutputInfo>,
    models: Seq<(String, Option<String>)>,
) -> spec_fn(int) -> bool {
    |j: int| carries_strip(outputs[j], models)
}

/// Is `i` the output to sample? Among those flagged, the first primary one wins,
/// else the first.
pub open spec fn is_pick(outputs: Seq<OutputInfo>, flagged: spec_fn(int) -> bool, i: int) -> bool {
    &&& 0 <= i < outputs.len()
    &&& flagged(i)
    &&& outputs[i].is_primary ==> forall|j: int|
        0 <= j < i ==> !(#[trigger] flagged(j) && outputs[j].is_primary)
    &&& !outputs[i].is_primary ==> {
        &&& forall|j: int| 0 <= j < i ==> !#[trigger] flagged(j)
        &&& forall|j: int|
            0 <= j < outputs.len() ==> !(#[trigger] flagged(j) && outputs[j].is_primary)
    }
}

/// Picks the output to sample among those flagged.
pub fn pick_output(outputs: &Vec<OutputInfo>, flags: &Vec<bool>) -> (pick: Option<usize>)
    requires
        flags@.len() == outputs@.len(),
    ensures
        match pick {
            Some(i) => is_pick(outputs@, |j: int| flags@[j], i as int),
            None => forall|j: int| 0 <= j < flags@.len() ==> !#[trigger] flags@[j],
        },
{
    let mut first: Option<usize> = None;
    let mut i: usize = 0;
    while i < outputs.len()
        invariant
            i <= outputs@.len(),
            flags@.len() == outputs@.len(),
            forall|j: int| 0 <= j < i ==> !(#[trigger] flags@[j] && outputs@[j].is_primary),
            match first {
                Some(f) => f < i && flags@[f as int] && forall|j: int|
                    0 <= j < f ==> !#[trigger] flags@[j],
                None => forall|j: int| 0 <= j < i ==> !#[trigger] flags@[j],
            },
        decreases outputs@.len() - i,
    {
        if flags[i] {
            if outputs[i].is_primary {
                return Some(i);
            }
            if first.is_none() {
                first = Some(i);
            }
        }
        i = i + 1;
    }
    first
}

/// The desktop output of the monitor that carries the RGB strip, matched by
/// model. Among several, the primary wins. `None`: the strip monitor has no
/// desktop right now.
pub fn find_lg_output(
    outputs: &Vec<OutputInfo>,
    models: &Vec<(String, Option<String>)>,
) -> (found: Option<OutputInfo>)
    ensures
        match found {
            Some(o) => exists|i: int|
                #[trigger] is_pick(outputs@, strip_flags(outputs@, models@), i) && o
                    == outputs@[i],
            None => forall|j: int|
                0 <= j < outputs@.len() ==> !carries_strip(#[trigger] outputs@[j], models@),
        },
{
    let mut flags: Vec<bool> = Vec::new();
    let mut i: usize = 0;
    while i < outputs.len()
        invariant
            i <= outputs@.len(),
            flags@.len() == i,
            forall|j: int|
                0 <= j < i ==> #[trigger] flags@[j] == carries_strip(outputs@[j], models@),
        decreases outputs@.len() - i,
    {
        let flag = match monitor_model(outputs[i].name.as_str(), models) {
            Some(model) => is_rgb_monitor(model.as_str()),
            None => false,
        };
        flags.push(flag);
        i = i + 1;
    }
    let pick = pick_output(outputs, &flags);
    proof {
        let carries = strip_flags(outputs@, models@);
        let flagged = |j: int| flags@[j];
        assert forall|j: int| 0 <= j < outputs@.len() implies #[trigger] carries(j) == flagged(
            j,
        ) by {
            assert(flags@[j] == carries_strip(outputs@[j], models@));
        }
        match pick {
            Some(k) => {
                assert(is_pick(outputs@, flagged, k as int));
                assert(flagged(k as int));
                assert(carries(k as int));
                assert forall|j: int|
                    0 <= j < outputs@.len() && !outputs@[k as int].is_primary implies !(
                #[trigger] carries(j) && outputs@[j].is_primary) by {
                    assert(!(flagged(j) && outputs@[j].is_primary));
                }
                assert forall|j: int| 0 <= j < k && outputs@[k as int].is_primary implies !(
                #[trigger] carries(j) && outputs@[j].is_primary) by {
                    assert(!(flagged(j) && outputs@[j].is_primary));
                }
                assert forall|j: int|
                    0 <= j < k && !outputs@[k as int].is_primary implies !#[trigger] carries(
                    j,
                ) by {
                    assert(!flagged(j));
                }
                assert(is_pick(outputs@, carries, k as int));
            },
            None => {
                assert forall|j: int| 0 <= j < outputs@.len() implies !carries_strip(
                    #[trigger] outputs@[j],
                    models@,
                ) by {
                    assert(!flags@[j]);
                }
            },
        }
    }
    match pick {
        Some(k) => Some(
            OutputInfo { name: outputs[k].name.clone(), is_primary: outputs[k].is_primary },
        ),
        None => None,
    }
}

/// A new frame: color sums per block and the dirty-rect verdict.
#[derive(Clone, Copy, Debug)]
pub struct FrameData {
    /// Integer (R, G, B) sums over each block's sampling grid.
    pub sums: [[u32; 3]; 48],
    pub counts: [u32; 48],
    /// Did the desktop change where it is sampled?
    pub dirty_hit: bool,
    /// Stage timings, when the instrumentation is on.
    pub stats: Option<FrameStats>,
}

#[derive(Debug)]
pub enum CaptureError {
    /// The duplication became invalid and must be created anew.
    AccessLost,
    /// The desktop changed mode under a duplication that survived it.
    ModeChanged,
    /// This machine cannot run Image Sync at all.
    Gpu(String),
    Other(String),
}

/// An error in words.
pub open spec fn error_text(e: CaptureError) -> Seq<char> {
    match e {
        CaptureError::AccessLost => "duplication access lost"@,
        CaptureError::ModeChanged => "desktop mode changed under the duplication"@,
        CaptureError::Gpu(msg) => msg@,
        CaptureError::Other(msg) => msg@,
    }
}

impl CaptureError {
    /// The error in words.
    pub fn message(&self) -> (s: String)
        ensures
            s@ == error_text(*self),
    {
        match self {
            CaptureError::AccessLost => String::from_str("duplication access lost"),
            CaptureError::ModeChanged => String::from_str(
                "desktop mode changed under the duplication",
            ),
            CaptureError::Gpu(msg) => msg.clone(),
            CaptureError::Other(msg) => msg.clone(),
        }
    }
}

/// A failed call, with what it was for.
pub fn other_err(context: &str, e: &str) -> (err: CaptureError)
    ensures
        err matches CaptureError::Other(msg) && msg@ == context@ + ": "@ + e@,
{
    let mut msg = text::join(context, ": ");
    msg.append(e);
    CaptureError::Other(msg)
}

pub const DXGI_ERROR_INVALID_CALL: u32 = 0x887A0001;

pub const DXGI_ERROR_MORE_DATA: u32 = 0x887A0003;

pub const DXGI_ERROR_ACCESS_LOST: u32 = 0x887A0026;

pub const DXGI_ERROR_WAIT_TIMEOUT: u32 = 0x887A0027;

/// Can a new duplication cure the failure?
pub open spec fn is_curable(code: u32) -> bool {
    code == DXGI_ERROR_ACCESS_LOST || code == DXGI_ERROR_INVALID_CALL
}

/// Classifies a failed call by its code: whatever a new duplication can cure is
/// `AccessLost`.
pub fn classify(code: u32, e: &str) -> (err: CaptureError)
    ensures
        is_curable(code) ==> err is AccessLost,
        !is_curable(code) ==> (err matches CaptureError::Other(msg) && msg@ == "DXGI error: "@
            + e@),
{
    if code == DXGI_ERROR_ACCESS_LOST || code == DXGI_ERROR_INVALID_CALL {
        CaptureError::AccessLost
    } else {
        CaptureError::Other(text::join("DXGI error: ", e))
    }
}

pub const FORMAT_FP16: u32 = 10;

pub const FORMAT_BGRA8: u32 = 87;

/// A pixel format's number, which is signed.
pub open spec fn format_text(format: u32) -> Seq<char> {
    if format <= i32::MAX {
        text::decimal_text(format as int)
    } else {
        "-"@ + text::decimal_text(0x1_0000_0000 - format)
    }
}

fn format_number(format: u32) -> (s: String)
    ensures
        s@ == format_text(format),
{
    if format <= i32::MAX as u32 {
        text::decimal(format)
    } else {
        let number = text::decimal(u32::MAX - format + 1);
        text::join("-", number.as_str())
    }
}

/// Is the desktop HDR? Its pixel format tells: BGRA8 is not, FP16 is, and no
/// other is supported.
pub fn hdr_of_format(format: u32) -> (hdr: Result<bool, CaptureError>)
    ensures
        format == FORMAT_BGRA8 ==> hdr == Ok::<bool, CaptureError>(false),
        format == FORMAT_FP16 ==> hdr == Ok::<bool, CaptureError>(true),
        format != FORMAT_BGRA8 && format != FORMAT_FP16 ==> (hdr matches Err(
            CaptureError::Other(msg),
        ) && msg@ == "unsupported desktop format DXGI_FORMAT("@ + format_text(format) + ")"@),
{
    if format == FORMAT_BGRA8 {
        Ok(false)
    } else if format == FORMAT_FP16 {
        Ok(true)
    } else {
        let number = format_number(format);
        let mut msg = text::join("unsupported desktop format DXGI_FORMAT(", number.as_str());
        msg.append(")");
        Err(CaptureError::Other(msg))
    }
}

/// A rectangle of the desktop: right and bottom are exclusive.
#[derive(Clone, Copy, PartialEq, Eq, Debug, Structural)]
pub struct Rect {
    pub left: i32,
    pub top: i32,
    pub right: i32,
    pub bottom: i32,
}

/// Do a dirty rectangle and a block overlap?
pub open spec fn touches(d: Rect, b: Block) -> bool {
    b.0 < d.right && b.2 > d.left && b.1 < d.bottom && b.3 > d.top
}

/// Does a dirty rectangle touch any block?
pub open spec fn touches_any(d: Rect, blocks: Seq<Block>) -> bool {
    exists|j: int| 0 <= j < blocks.len() && touches(d, #[trigger] blocks[j])
}

/// Do any dirty rectangles touch any block?
pub open spec fn overlaps(dirty: Seq<Rect>, blocks: Seq<Block>) -> bool {
    exists|i: int| 0 <= i < dirty.len() && touches_any(#[trigger] dirty[i], blocks)
}

fn hits_block(d: &Rect, blocks: &[Block]) -> (hit: bool)
    ensures
        hit == touches_any(*d, blocks@),
{
    let mut j: usize = 0;
    while j < blocks.len()
        invariant
            j <= blocks@.len(),
            forall|k: int| 0 <= k < j ==> !touches(*d, #[trigger] blocks@[k]),
        decreases blocks@.len() - j,
    {
        let (x0, y0, x1, y1) = blocks[j];
        if (x0 as i32) < d.right && (x1 as i32) > d.left && (y0 as i32) < d.bottom && (y1 as i32)
            > d.top {
            assert(touches(*d, blocks@[j as int]));
            return true;
        }
        j = j + 1;
    }
    false
}

/// Do any of the frame's dirty rectangles touch any sampled block?
pub fn dirty_overlaps_blocks(dirty: &[Rect], blocks: &[Block]) -> (hit: bool)
    ensures
        hit == overlaps(dirty@, blocks@),
        hit == exists|i: int| 0 <= i < dirty@.len() && touches_any(#[trigger] dirty@[i], blocks@),
{
    let mut i: usize = 0;
    while i < dirty.len()
        invariant
            i <= dirty@.len(),
            forall|k: int| 0 <= k < i ==> !touches_any(#[trigger] dirty@[k], blocks@),
        decreases dirty@.len() - i,
    {
        if hits_block(&dirty[i], blocks) {
            assert(touches_any(dirty@[i as int], blocks@));
            return true;
        }
        i = i + 1;
    }
    false
}

/// A rectangle touches a block exactly when they share a pixel.
pub proof fn touching_is_sharing_a_pixel(d: Rect, b: Block)
    requires
        d.left < d.right,
        d.top < d.bottom,
        b.0 < b.2,
        b.1 < b.3,
    ensures
        touches(d, b) <==> exists|x: int, y: int|
            #![trigger in_rect(d, x, y), in_block(b, x, y)]
            in_rect(d, x, y) && in_block(b, x, y),
{
    if touches(d, b) {
        let x = if b.0 >= d.left {
            b.0 as int
        } else {
            d.left as int
        };
        let y = if b.1 >= d.top {
            b.1 as int
        } else {
            d.top as int
        };
        assert(in_rect(d, x, y) && in_block(b, x, y));
    }
}

pub open spec fn in_rect(d: Rect, x: int, y: int) -> bool {
    d.left <= x < d.right && d.top <= y < d.bottom
}

pub open spec fn in_block(b: Block, x: int, y: int) -> bool {
    b.0 <= x < b.2 && b.1 <= y < b.3
}

/// The desktop mode of a duplication.
#[derive(Clone, Copy, PartialEq, Eq, Debug, Structural)]
pub struct DesktopMode {
    pub width: u32,
    pub height: u32,
    pub format: u32,
}

/// Where the grabbing of a frame stands.
#[derive(Clone, Copy, PartialEq, Eq, Debug, Structural)]
pub enum GrabPhase {
    Idle,
    /// Reading the duplication's descriptor.
    Describing,
    /// Releasing a frame that an earlier grab left held.
    Releasing,
    Acquiring,
    /// Releasing a frame whose desktop image did not change.
    Skipping,
    /// Reading the dirty rectangles.
    Querying,
    /// Reading them again, with room enough.
    Requerying,
    /// Averaging the blocks.
    Averaging { dirty_hit: bool },
    /// Releasing the averaged frame.
    Finishing { dirty_hit: bool },
}

/// What happened to the last action.
#[derive(Clone, Copy, PartialEq, Eq, Debug, Structural)]
pub enum GrabEvent {
    /// A frame is wanted.
    Begin,
    Described(DesktopMode),
    Released,
    /// The acquire failed with this code.
    AcquireFailed(u32),
    /// A frame was acquired. A present time of 0 marks a cursor-only frame.
    Acquired { present_time: i64, has_resource: bool },
    /// The dirty rectangles were read; do they touch the sampled blocks?
    DirtyRects(bool),
    /// They could not be read, with this code.
    DirtyFailed(u32),
    /// The blocks were averaged, or not.
    Averaged(bool),
}

/// What to do next.
#[derive(Clone, Copy, PartialEq, Eq, Debug, Structural)]
pub enum GrabAction {
    Describe,
    Release,
    Acquire,
    QueryDirtyRects,
    /// Query again with as much room as the first query asked for.
    QueryAgain,
    Average,
    /// New content, and whether it touches the sampled blocks.
    NewFrame { dirty_hit: bool },
    /// The desktop image is unchanged.
    NoFrame,
    /// The duplication must be created anew.
    AccessLost,
    ModeChanged,
    /// The frame came without an image.
    NoResource,
    /// Another failure; its cause is that of the last call.
    Failed,
}

/// The grabbing of frames from one duplication.
#[derive(Clone, Copy, PartialEq, Eq, Debug, Structural)]
pub struct Grabber {
    /// The mode that the duplication was created in.
    pub mode: DesktopMode,
    /// Is a frame acquired and not released?
    pub held: bool,
    pub phase: GrabPhase,
}

pub open spec fn at(g: Grabber, phase: GrabPhase) -> Grabber {
    Grabber { phase, ..g }
}

/// The grabber once its frame is released.
pub open spec fn let_go(g: Grabber, phase: GrabPhase) -> Grabber {
    Grabber { held: false, phase, ..g }
}

/// What an acquire failure comes to: a timeout is no frame.
pub open spec fn acquire_failure(code: u32) -> GrabAction {
    if code == DXGI_ERROR_WAIT_TIMEOUT {
        GrabAction::NoFrame
    } else if is_curable(code) {
        GrabAction::AccessLost
    } else {
        GrabAction::Failed
    }
}

/// One step of a grab, and what to do next.
pub open spec fn grabbed(g: Grabber, event: GrabEvent) -> (Grabber, GrabAction) {
    match (g.phase, event) {
        (GrabPhase::Idle, GrabEvent::Begin) => (at(g, GrabPhase::Describing), GrabAction::Describe),
        (GrabPhase::Describing, GrabEvent::Described(mode)) => if mode != g.mode {
            (at(g, GrabPhase::Idle), GrabAction::ModeChanged)
        } else if g.held {
            (at(g, GrabPhase::Releasing), GrabAction::Release)
        } else {
            (at(g, GrabPhase::Acquiring), GrabAction::Acquire)
        },
        (GrabPhase::Releasing, GrabEvent::Released) => (
            let_go(g, GrabPhase::Acquiring),
            GrabAction::Acquire,
        ),
        (GrabPhase::Acquiring, GrabEvent::AcquireFailed(code)) => (
            at(g, GrabPhase::Idle),
            acquire_failure(code),
        ),
        (GrabPhase::Acquiring, GrabEvent::Acquired { present_time, has_resource }) => {
            let g = Grabber { held: true, ..g };
            if present_time == 0 {
                (at(g, GrabPhase::Skipping), GrabAction::Release)
            } else if !has_resource {
                (at(g, GrabPhase::Idle), GrabAction::NoResource)
            } else {
                (at(g, GrabPhase::Querying), GrabAction::QueryDirtyRects)
            }
        },
        (GrabPhase::Skipping, GrabEvent::Released) => (
            let_go(g, GrabPhase::Idle),
            GrabAction::NoFrame,
        ),
        (GrabPhase::Querying, GrabEvent::DirtyFailed(code)) if code == DXGI_ERROR_MORE_DATA => (
            at(g, GrabPhase::Requerying),
            GrabAction::QueryAgain,
        ),
        (
            GrabPhase::Querying | GrabPhase::Requerying,
            GrabEvent::DirtyRects(hit),
        ) => (at(g, GrabPhase::Averaging { dirty_hit: hit }), GrabAction::Average),
        (
            GrabPhase::Querying | GrabPhase::Requerying,
            GrabEvent::DirtyFailed(_),
        ) => (at(g, GrabPhase::Averaging { dirty_hit: true }), GrabAction::Average),
        (GrabPhase::Averaging { dirty_hit }, GrabEvent::Averaged(ok)) => if ok {
            (at(g, GrabPhase::Finishing { dirty_hit }), GrabAction::Release)
        } else {
            (at(g, GrabPhase::Idle), GrabAction::Failed)
        },
        (GrabPhase::Finishing { dirty_hit }, GrabEvent::Released) => (
            let_go(g, GrabPhase::Idle),
            GrabAction::NewFrame { dirty_hit },
        ),
        _ => (at(g, GrabPhase::Idle), GrabAction::Failed),
    }
}

impl Grabber {
    /// Phases that work on a frame hold one; the acquire finds none held.
    pub open spec fn wf(&self) -> bool {
        match self.phase {
            GrabPhase::Idle | GrabPhase::Describing => true,
            GrabPhase::Acquiring => !self.held,
            _ => self.held,
        }
    }

    /// The grabber of a new duplication.
    pub fn new(mode: DesktopMode) -> (g: Grabber)
        ensures
            g == (Grabber { mode, held: false, phase: GrabPhase::Idle }),
            g.wf(),
    {
        Grabber { mode, held: false, phase: GrabPhase::Idle }
    }

    /// One step of a grab, and what to do next. An event out of order fails the
    /// grab.
    pub fn frame(&mut self, event: GrabEvent) -> (action: GrabAction)
        requires
            old(self).wf(),
        ensures
            final(self).wf(),
            (*final(self), action) == grabbed(*old(self), event),
    {
        let phase = self.phase;
        match (phase, event) {
            (GrabPhase::Idle, GrabEvent::Begin) => {
                self.phase = GrabPhase::Describing;
                GrabAction::Describe
            },
            (GrabPhase::Describing, GrabEvent::Described(mode)) => {
                if mode != self.mode {
                    self.phase = GrabPhase::Idle;
                    GrabAction::ModeChanged
                } else if self.held {
                    self.phase = GrabPhase::Releasing;
                    GrabAction::Release
                } else {
                    self.phase = GrabPhase::Acquiring;
                    GrabAction::Acquire
                }
            },
            (GrabPhase::Releasing, GrabEvent::Released) => {
                self.held = false;
                self.phase = GrabPhase::Acquiring;
                GrabAction::Acquire
            },
            (GrabPhase::Acquiring, GrabEvent::AcquireFailed(code)) => {
                self.phase = GrabPhase::Idle;
                if code == DXGI_ERROR_WAIT_TIMEOUT {
                    GrabAction::NoFrame
                } else if code == DXGI_ERROR_ACCESS_LOST || code == DXGI_ERROR_INVALID_CALL {
                    GrabAction::AccessLost
                } else {
                    GrabAction::Failed
                }
            },
            (GrabPhase::Acquiring, GrabEvent::Acquired { present_time, has_resource }) => {
                self.held = true;
                if present_time == 0 {
                    self.phase = GrabPhase::Skipping;
                    GrabAction::Release
                } else if !has_resource {
                    self.phase = GrabPhase::Idle;
                    GrabAction::NoResource
                } else {
                    self.phase = GrabPhase::Querying;
                    GrabAction::QueryDirtyRects
                }
            },
            (GrabPhase::Skipping, GrabEvent::Released) => {
                self.held = false;
                self.phase = GrabPhase::Idle;
                GrabAction::NoFrame
            },
            (GrabPhase::Querying, GrabEvent::DirtyFailed(code)) => {
                if code == DXGI_ERROR_MORE_DATA {
                    self.phase = GrabPhase::Requerying;
                    GrabAction::QueryAgain
                } else {
                    self.phase = GrabPhase::Averaging { dirty_hit: true };
                    GrabAction::Average
                }
            },
            (
                GrabPhase::Querying | GrabPhase::Requerying,
                GrabEvent::DirtyRects(dirty_hit),
            ) => {
                self.phase = GrabPhase::Averaging { dirty_hit };
                GrabAction::Average
            },
            (GrabPhase::Requerying, GrabEvent::DirtyFailed(_)) => {
                self.phase = GrabPhase::Averaging { dirty_hit: true };
                GrabAction::Average
            },
            (GrabPhase::Averaging { dirty_hit }, GrabEvent::Averaged(ok)) => {
                if ok {
                    self.phase = GrabPhase::Finishing { dirty_hit };
                    GrabAction::Release
                } else {
                    self.phase = GrabPhase::Idle;
                    GrabAction::Failed
                }
            },
            (GrabPhase::Finishing { dirty_hit }, GrabEvent::Released) => {
                self.held = false;
                self.phase = GrabPhase::Idle;
                GrabAction::NewFrame { dirty_hit }
            },
            _ => {
                self.phase = GrabPhase::Idle;
                GrabAction::Failed
            },
        }
    }
}

/// Does the action end a grab?
pub open spec fn is_verdict(action: GrabAction) -> bool {
    match action {
        GrabAction::NewFrame { .. }
        | GrabAction::NoFrame
        | GrabAction::AccessLost
        | GrabAction::ModeChanged
        | GrabAction::NoResource
        | GrabAction::Failed => true,
        _ => false,
    }
}

/// A frame is released only while one is held, and acquired only while none is.
/// Whatever ended a grab, another can begin.
pub proof fn frames_are_held_one_at_a_time(g: Grabber, event: GrabEvent)
    requires
        g.wf(),
    ensures
        grabbed(g, event).0.wf(),
        grabbed(g, event).1 is Release ==> grabbed(g, event).0.held,
        grabbed(g, event).1 is Acquire ==> !grabbed(g, event).0.held,
        grabbed(g, event).1 is NewFrame ==> !grabbed(g, event).0.held,
        is_verdict(grabbed(g, event).1) <==> grabbed(g, event).0.phase is Idle,
{
}

/// A desktop that changed its mode under the duplication is noticed before a
/// frame of the old mode is waited for.
pub proof fn a_new_mode_is_noticed(g: Grabber, mode: DesktopMode)
    requires
        g.phase is Idle,
        mode != g.mode,
    ensures
        ({
            let (begun, first) = grabbed(g, GrabEvent::Begin);
            let (_, second) = grabbed(begun, GrabEvent::Described(mode));
            first is Describe && second is ModeChanged
        }),
{
}

/// A frame that only moves the cursor is given back at once and lights nothing.
pub proof fn cursor_frames_are_no_frames(g: Grabber, has_resource: bool)
    requires
        g.phase is Acquiring,
    ensures
        ({
            let (got, first) = grabbed(
                g,
                GrabEvent::Acquired { present_time: 0, has_resource },
            );
            let (done, second) = grabbed(got, GrabEvent::Released);
            first is Release && second is NoFrame && !done.held
        }),
{
}

/// A frame whose dirty rectangles cannot be read counts as touching the sampled
/// blocks.
pub proof fn unread_rects_count_as_a_hit(g: Grabber, code: u32)
    requires
        g.phase == GrabPhase::Requerying || (g.phase == GrabPhase::Querying && code
            != DXGI_ERROR_MORE_DATA),
    ensures
        grabbed(g, GrabEvent::DirtyFailed(code)).0.phase == (GrabPhase::Averaging {
            dirty_hit: true,
        }),
{
}

} // verus!
