//! Pure sampling math of image sync: which rectangle of the screen each LED
//! averages, on which grid, and how averages become LED colors.

use crate::usb_protocol::RGBColor;
use vstd::prelude::*;

verus! {

/// Which part of the screen each LED samples.
#[derive(Clone, Copy, PartialEq, Eq, Debug, Structural)]
pub enum SamplingMode {
    /// Perimeter ring at 5% inset.
    Border5,
    /// Perimeter ring at 15% inset: reacts to windows closer to the center.
    Border15,
    /// Full screen: each LED averages a strip of its half of the screen.
    Full,
}

/// Is `r` the integer square root of `n`?
pub open spec fn is_isqrt(r: int, n: int) -> bool {
    r >= 0 && r * r <= n < (r + 1) * (r + 1)
}

/// The integer square root.
pub open spec fn isqrt(n: int) -> int {
    choose|r: int| is_isqrt(r, n)
}

/// The unit in the last place of a number's single-precision form.
pub open spec fn single_unit(n: int) -> int
    decreases n,
{
    if n < 0x1000000 {
        1
    } else {
        2 * single_unit(n / 2)
    }
}

/// A number in single precision: rounded to 24 significant bits, halves to even.
pub open spec fn single(n: int) -> int {
    let unit = single_unit(n);
    let q = n / unit;
    let r = n % unit;
    if 2 * r < unit || (2 * r == unit && q % 2 == 0) {
        q * unit
    } else {
        (q + 1) * unit
    }
}

/// The power of two that widens a root to 24 significant bits.
pub open spec fn widening(n: int) -> int
    decreases 0x1_0000_0000_0000 - n,
{
    if n < 1 || n >= 0x4000_0000_0000 {
        1
    } else {
        2 * widening(4 * n)
    }
}

/// The number whose root is the widened root of `n`: `n` times the square of its
/// widening.
pub open spec fn widened(n: int) -> int
    decreases 0x1_0000_0000_0000 - n,
{
    if n < 1 || n >= 0x4000_0000_0000 {
        n
    } else {
        widened(4 * n)
    }
}

/// The square root in single precision, without its fraction: the root is
/// rounded to 24 significant bits first. The integer nearest to the root of `m`
/// is half of the root of `4 * m`, rounded up; large roots are rounded to a
/// multiple of 2 or 4.
pub open spec fn single_root(n: int) -> int {
    if n < 0x1_0000_0000_0000 {
        ((isqrt(4 * widened(n)) + 1) / 2) / widening(n)
    } else if n < 0x4_0000_0000_0000 {
        2 * ((isqrt(n) + 1) / 2)
    } else {
        4 * ((isqrt(n) + 2) / 4)
    }
}

/// The stride of a block's sampling grid: one sample in `stride` x `stride`
/// pixels, which makes about 4096 samples of a large block and reads a small one
/// pixel by pixel. It is the root of the area in units of 4096 pixels, computed
/// in single precision.
pub open spec fn stride_of(area: int) -> int {
    at_least_one(single_root(single(area / 4096)))
}

pub open spec fn at_least_one(n: int) -> int {
    if n >= 1 {
        n
    } else {
        1
    }
}

/// A number has one integer square root.
pub proof fn lemma_isqrt_unique(r: int, s: int, n: int)
    requires
        is_isqrt(r, n),
        is_isqrt(s, n),
    ensures
        r == s,
{
    assert(r < s ==> (r + 1) * (r + 1) <= s * s) by (nonlinear_arith)
        requires
            r >= 0,
    ;
    assert(s < r ==> (s + 1) * (s + 1) <= r * r) by (nonlinear_arith)
        requires
            s >= 0,
    ;
}

proof fn lemma_isqrt_exists(n: int) -> (r: int)
    requires
        n >= 0,
    ensures
        is_isqrt(r, n),
    decreases n,
{
    if n == 0 {
        assert(is_isqrt(0, 0)) by (nonlinear_arith);
        0
    } else {
        let s = lemma_isqrt_exists(n - 1);
        let r = if (s + 1) * (s + 1) <= n {
            s + 1
        } else {
            s
        };
        assert((s + 2) * (s + 2) > (s + 1) * (s + 1)) by (nonlinear_arith)
            requires
                s >= 0,
        ;
        assert(is_isqrt(r, n));
        r
    }
}

/// Every number has an integer square root.
pub proof fn lemma_isqrt(n: int)
    requires
        n >= 0,
    ensures
        is_isqrt(isqrt(n), n),
{
    let r = lemma_isqrt_exists(n);
}

/// What widening does to a number.
pub proof fn lemma_widened(n: int)
    requires
        n >= 1,
    ensures
        widening(n) >= 1,
        widened(n) == n * (widening(n) * widening(n)),
    decreases 0x1_0000_0000_0000 - n,
{
    if n < 0x4000_0000_0000 {
        lemma_widened(4 * n);
        let p = widening(4 * n);
        assert((4 * n) * (p * p) == n * ((2 * p) * (2 * p))) by (nonlinear_arith);
    } else {
        assert(n * (1 * 1) == n) by (nonlinear_arith);
    }
}

/// Roots of up to 12 bits are widened by at least as many.
proof fn lemma_small_roots_widen(n: int)
    requires
        1 <= n < 0x1000000,
    ensures
        widening(n) >= 0x1000,
{
    reveal_with_fuel(widening, 13);
    lemma_widened(0x1000000 * n);
}

/// A number below 2^24 is its own single-precision form, and the fraction of its
/// root never rounds up to the next integer.
proof fn lemma_small_roots_are_exact(n: int)
    requires
        0 <= n < 0x1000000,
    ensures
        single(n) == n,
        single_root(n) == isqrt(n),
{
    lemma_isqrt(n);
    let s = isqrt(n);
    if n == 0 {
        assert(s == 0) by (nonlinear_arith)
            requires
                s >= 0,
                s * s <= 0,
        ;
        lemma_isqrt(0);
    } else {
        let p = widening(n);
        let m = widened(n);
        lemma_widened(n);
        lemma_small_roots_widen(n);
        assert(m >= 0) by (nonlinear_arith)
            requires
                m == n * (p * p),
                n >= 1,
        ;
        lemma_isqrt(4 * m);
        let r = isqrt(4 * m);
        assert(s < 0x1000) by (nonlinear_arith)
            requires
                s >= 0,
                s * s <= n,
                n < 0x1000000,
        ;
        assert(r >= 2 * (s * p)) by (nonlinear_arith)
            requires
                s * s <= n,
                s >= 0,
                p >= 1,
                m == n * (p * p),
                r >= 0,
                4 * m < (r + 1) * (r + 1),
        ;
        assert(r < 2 * ((s + 1) * p) - 1) by {
            let t = 2 * ((s + 1) * p) - 1;
            assert(t >= 0) by (nonlinear_arith)
                requires
                    t == 2 * ((s + 1) * p) - 1,
                    s >= 0,
                    p >= 1,
            ;
            assert(4 * m < t * t) by {
                assert(t * t == 4 * ((s + 1) * (s + 1)) * (p * p) - 4 * ((s + 1) * p) + 1)
                    by (nonlinear_arith)
                    requires
                        t == 2 * ((s + 1) * p) - 1,
                ;
                assert(n * (p * p) <= ((s + 1) * (s + 1)) * (p * p) - p * p) by (nonlinear_arith)
                    requires
                        n <= (s + 1) * (s + 1) - 1,
                ;
                assert((s + 1) * p <= p * p) by (nonlinear_arith)
                    requires
                        s + 1 <= p,
                        p >= 1,
                ;
                assert(4 * ((s + 1) * (s + 1)) * (p * p) == 4 * (((s + 1) * (s + 1)) * (p * p)))
                    by (nonlinear_arith);
            }
            assert(r < t) by (nonlinear_arith)
                requires
                    r >= 0,
                    t >= 0,
                    r * r <= 4 * m,
                    4 * m < t * t,
            ;
        }
        let half = (r + 1) / 2;
        assert(s * p <= half < (s + 1) * p);
        assert(half / p == s) by (nonlinear_arith)
            requires
                s * p <= half < (s + 1) * p,
                p >= 1,
        ;
    }
}

/// What the stride of a grid is. Up to an area of 2^36 the single-precision root
/// is the integer square root.
pub proof fn lemma_stride(area: int)
    requires
        0 <= area < 0x10_0000_0000,
    ensures
        stride_of(area) >= 1,
        area < 4096 ==> stride_of(area) == 1,
        area >= 4096 ==> is_isqrt(stride_of(area), area / 4096),
{
    let n = area / 4096;
    lemma_small_roots_are_exact(n);
    lemma_isqrt(n);
    let s = isqrt(n);
    if n == 0 {
        assert(s == 0) by (nonlinear_arith)
            requires
                s >= 0,
                s * s <= 0,
        ;
    } else {
        assert(s >= 1) by (nonlinear_arith)
            requires
                s >= 0,
                (s + 1) * (s + 1) > 1,
        ;
    }
}

fn isqrt_of(n: u64) -> (r: u64)
    requires
        n <= 0x20_0000_0000_0000,
    ensures
        r == isqrt(n as int),
        r < 0x800_0000,
{
    let mut lo: u64 = 0;
    let mut hi: u64 = 0x800_0000;
    while hi - lo > 1
        invariant
            lo < hi <= 0x800_0000,
            lo * lo <= n < hi * hi,
        decreases hi - lo,
    {
        let mid: u64 = lo + (hi - lo) / 2;
        assert(mid * mid <= 0x800_0000 * 0x800_0000) by (nonlinear_arith)
            requires
                mid <= 0x800_0000,
        ;
        if mid * mid <= n {
            lo = mid;
        } else {
            hi = mid;
        }
    }
    proof {
        assert((lo + 1) * (lo + 1) == hi * hi);
        lemma_isqrt(n as int);
        lemma_isqrt_unique(lo as int, isqrt(n as int), n as int);
    }
    lo
}

fn single_of(n: u64) -> (x: u64)
    requires
        n < 0x10_0000_0000_0000,
    ensures
        x == single(n as int),
        x <= 0x20_0000_0000_0000,
{
    let mut q: u64 = n;
    let mut unit: u64 = 1;
    let mut r: u64 = 0;
    while q >= 0x1000000
        invariant
            n < 0x10_0000_0000_0000,
            n == q * unit + r,
            r < unit <= 0x2000_0000,
            unit * single_unit(q as int) == single_unit(n as int),
        decreases q,
    {
        assert(unit < 0x1000_0000) by (nonlinear_arith)
            requires
                q * unit <= 0x10_0000_0000_0000 - 1,
                q >= 0x1000000,
        ;
        let ghost whole = q as int;
        let odd: u64 = q % 2;
        proof {
            let h = whole / 2;
            assert(whole * unit == h * (2 * unit) + odd * unit) by (nonlinear_arith)
                requires
                    whole == 2 * h + odd,
            ;
            assert(odd * unit <= unit) by (nonlinear_arith)
                requires
                    odd <= 1,
            ;
            let u = single_unit(h);
            assert(unit * (2 * u) == (2 * unit) * u) by (nonlinear_arith);
        }
        r = r + odd * unit;
        q = q / 2;
        unit = 2 * unit;
    }
    proof {
        assert(q * unit <= n);
        vstd::arithmetic::div_mod::lemma_fundamental_div_mod_converse(
            n as int,
            unit as int,
            q as int,
            r as int,
        );
        assert((q + 1) * unit == q * unit + unit) by (nonlinear_arith);
    }
    if 2 * r < unit || (2 * r == unit && q % 2 == 0) {
        q * unit
    } else {
        (q + 1) * unit
    }
}

fn single_root_of(n: u64) -> (root: u64)
    requires
        n <= 0x20_0000_0000_0000,
    ensures
        root == single_root(n as int),
        root < 0x1000_0000,
{
    if n == 0 {
        proof {
            lemma_small_roots_are_exact(0);
            lemma_isqrt(0);
            lemma_isqrt_unique(0, isqrt(0), 0);
        }
        return 0;
    }
    if n < 0x1_0000_0000_0000 {
        let mut m: u64 = n;
        let mut p: u64 = 1;
        while m < 0x4000_0000_0000
            invariant
                1 <= m < 0x1_0000_0000_0000,
                1 <= p <= m,
                widened(m as int) == widened(n as int),
                p * widening(m as int) == widening(n as int),
            decreases 0x1_0000_0000_0000 - m,
        {
            proof {
                let w = widening(4 * m);
                assert(p * (2 * w) == (2 * p) * w) by (nonlinear_arith);
            }
            m = 4 * m;
            p = 2 * p;
        }
        let r: u64 = isqrt_of(4 * m);
        let half: u64 = (r + 1) / 2;
        assert(half / p <= half) by (nonlinear_arith)
            requires
                p >= 1,
        ;
        half / p
    } else if n < 0x4_0000_0000_0000 {
        2 * ((isqrt_of(n) + 1) / 2)
    } else {
        4 * ((isqrt_of(n) + 2) / 4)
    }
}

/// Adaptive stride of the sampling grid: large blocks are sampled on a coarse
/// grid of about 4096 samples, small ones pixel by pixel.
pub fn block_stride(area: usize) -> (stride: usize)
    ensures
        stride == stride_of(area as int),
        area < 4096 ==> stride == 1,
        4096 <= area < 0x10_0000_0000 ==> is_isqrt(stride as int, area as int / 4096),
        stride >= 1,
{
    let n: u64 = area as u64 / 4096;
    let root: u64 = single_root_of(single_of(n));
    proof {
        if area < 0x10_0000_0000 {
            lemma_stride(area as int);
        }
    }
    if root >= 1 {
        root as usize
    } else {
        1
    }
}

/// The color that a block shows and the envelope state that it leaves: the
/// boosted average, or on later frames its mix with the envelope.
pub open spec fn settled(
    count: u32,
    first_frame: bool,
    boosted: [u8; 3],
    mixed: [u8; 3],
    prev: [u8; 3],
) -> [u8; 3] {
    if count == 0 {
        prev
    } else if first_frame {
        boosted
    } else {
        mixed
    }
}

/// The color of a block's LED: black without samples.
pub open spec fn led_color(
    count: u32,
    first_frame: bool,
    boosted: [u8; 3],
    mixed: [u8; 3],
) -> RGBColor {
    let shown = settled(count, first_frame, boosted, mixed, [0u8, 0u8, 0u8]);
    RGBColor { r: shown@[0], g: shown@[1], b: shown@[2] }
}

/// Turns per-block averages into LED colors. `boosted` holds each block's
/// average after the color boost, `mixed` the same blended with the envelope
/// state `prev` by the smoothing factor. The first frame skips the smoothing,
/// so the LEDs snap to the real colors instead of fading in from black. Blocks
/// with a zero count are skipped: black, and their envelope state untouched.
pub fn finalize(
    boosted: &[[u8; 3]; 48],
    mixed: &[[u8; 3]; 48],
    counts: &[u32; 48],
    prev: &mut [[u8; 3]; 48],
    first_frame: &mut bool,
) -> (out: [RGBColor; 48])
    ensures
        !*final(first_frame),
        forall|i: int|
            0 <= i < 48 ==> #[trigger] final(prev)@[i] == settled(
                counts@[i],
                *old(first_frame),
                boosted@[i],
                mixed@[i],
                old(prev)@[i],
            ),
        forall|i: int|
            0 <= i < 48 ==> #[trigger] out@[i] == (if counts@[i] == 0 {
                RGBColor { r: 0, g: 0, b: 0 }
            } else {
                RGBColor {
                    r: final(prev)@[i]@[0],
                    g: final(prev)@[i]@[1],
                    b: final(prev)@[i]@[2],
                }
            }),
        forall|i: int|
            0 <= i < 48 ==> #[trigger] out@[i] == led_color(
                counts@[i],
                *old(first_frame),
                boosted@[i],
                mixed@[i],
            ),
{
    let first: bool = *first_frame;
    *first_frame = false;
    let mut out: [RGBColor; 48] = [RGBColor { r: 0, g: 0, b: 0 };48];
    let mut i: usize = 0;
    while i < 48
        invariant
            i <= 48,
            first == *old(first_frame),
            forall|j: int|
                i <= j < 48 ==> #[trigger] out@[j] == (RGBColor { r: 0, g: 0, b: 0 }),
            forall|j: int| i <= j < 48 ==> #[trigger] prev@[j] == old(prev)@[j],
            forall|j: int|
                0 <= j < i ==> #[trigger] prev@[j] == settled(
                    counts@[j],
                    first,
                    boosted@[j],
                    mixed@[j],
                    old(prev)@[j],
                ),
            forall|j: int|
                0 <= j < i ==> #[trigger] out@[j] == (if counts@[j] == 0 {
                    RGBColor { r: 0, g: 0, b: 0 }
                } else {
                    RGBColor { r: prev@[j]@[0], g: prev@[j]@[1], b: prev@[j]@[2] }
                }),
        decreases 48 - i,
    {
        if counts[i] != 0 {
            let shown: [u8; 3] = if first {
                boosted[i]
            } else {
                mixed[i]
            };
            prev[i] = shown;
            out[i] = RGBColor { r: shown[0], g: shown[1], b: shown[2] };
        }
        i = i + 1;
    }
    out
}

/// How deep into the screen a ring sits: a percentage of the side, at least one
/// pixel and at most a quarter of it.
pub open spec fn inset(side: int, pct: int) -> int {
    let deep = if side * pct / 100 >= 1 {
        side * pct / 100
    } else {
        1
    };
    if deep <= side / 4 {
        deep
    } else {
        side / 4
    }
}

/// The `i`-th of 48 points along the screen perimeter: top-right (7), right
/// edge (10), bottom (14), left edge (10), top-left (7).
pub open spec fn ring_point(w: int, h: int, pct: int, i: int) -> (int, int) {
    let ox = inset(w, pct);
    let oy = inset(h, pct);
    let cx = w / 2;
    if i < 7 {
        (cx + i * (w - ox - cx) / 7, oy)
    } else if i < 17 {
        (w - ox, oy + (i - 7) * (h - 2 * oy) / 10)
    } else if i < 31 {
        (w - ox - (i - 17) * (w - 2 * ox) / 14, h - oy)
    } else if i < 41 {
        (ox, h - oy - (i - 31) * (h - 2 * oy) / 10)
    } else {
        (ox + (i - 41) * (cx - ox) / 7, oy)
    }
}

/// A rectangle: left, top, right and bottom edge, the last two exclusive.
pub struct Area {
    pub x0: int,
    pub y0: int,
    pub x1: int,
    pub y1: int,
}

/// Where an interval of length `len` around `at` starts inside `0..side`.
pub open spec fn interval_start(at: int, len: int, side: int) -> int {
    let start = if at >= len / 2 {
        at - len / 2
    } else {
        0
    };
    if start <= side - 1 {
        start
    } else {
        side - 1
    }
}

/// Where an interval of length `len` from `start` ends inside `0..side`.
pub open spec fn interval_end(start: int, len: int, side: int) -> int {
    if start + len <= side {
        start + len
    } else {
        side
    }
}

/// The block around a ring point: a 120th of the width by a 68th of the height.
pub open spec fn block_around(w: int, h: int, p: (int, int)) -> Area {
    let bw = at_least_one(w / 120);
    let bh = at_least_one(h / 68);
    let x0 = interval_start(p.0, bw, w);
    let y0 = interval_start(p.1, bh, h);
    Area { x0, y0, x1: interval_end(x0, bw, w), y1: interval_end(y0, bh, h) }
}

/// An interval that is never empty.
pub open spec fn wide(x0: int, x1: int) -> int {
    if x1 >= x0 + 1 {
        x1
    } else {
        x0 + 1
    }
}

/// The `i`-th full-screen strip, in the order of the ring points: vertical
/// strips of the top half from the center to the right, horizontal strips of
/// the right half downwards, vertical strips of the bottom half to the left,
/// horizontal strips of the left half upwards, and vertical strips of the top
/// half from the left to the center.
pub open spec fn strip(w: int, h: int, i: int) -> Area {
    let cx = w / 2;
    let cy = h / 2;
    if i < 7 {
        let x0 = cx + i * (w - cx) / 7;
        Area { x0, y0: 0, x1: wide(x0, cx + (i + 1) * (w - cx) / 7), y1: cy }
    } else if i < 17 {
        let k = i - 7;
        let y0 = k * h / 10;
        Area { x0: cx, y0, x1: w, y1: wide(y0, (k + 1) * h / 10) }
    } else if i < 31 {
        let k = i - 17;
        let x0 = w - (k + 1) * w / 14;
        Area { x0, y0: cy, x1: wide(x0, w - k * w / 14), y1: h }
    } else if i < 41 {
        let k = i - 31;
        let y0 = h - (k + 1) * h / 10;
        Area { x0: 0, y0, x1: cx, y1: wide(y0, h - k * h / 10) }
    } else {
        let k = i - 41;
        let x0 = k * cx / 7;
        Area { x0, y0: 0, x1: wide(x0, (k + 1) * cx / 7), y1: cy }
    }
}

/// A coordinate as a block stores it: its low 16 bits.
pub open spec fn low16(v: int) -> u16 {
    (v % 0x10000) as u16
}

/// A rectangle as a block stores it.
pub open spec fn stored(a: Area) -> (u16, u16, u16, u16) {
    (low16(a.x0), low16(a.y0), low16(a.x1), low16(a.y1))
}

/// The rectangle that LED `i` samples. The physical strip runs the perimeter
/// opposite to the sampling order.
pub open spec fn sample_area(w: int, h: int, mode: SamplingMode, i: int) -> Area {
    match mode {
        SamplingMode::Border5 => block_around(w, h, ring_point(w, h, 5, 47 - i)),
        SamplingMode::Border15 => block_around(w, h, ring_point(w, h, 15, 47 - i)),
        SamplingMode::Full => strip(w, h, 47 - i),
    }
}

/// Can the blocks of a `w` x `h` screen be computed? A ring needs a pixel to
/// sit on; the products must fit the machine word.
pub open spec fn has_blocks(w: int, h: int, mode: SamplingMode) -> bool {
    match mode {
        SamplingMode::Full => w * 14 <= usize::MAX && h * 10 <= usize::MAX,
        SamplingMode::Border5 => 1 <= w && 1 <= h && has_ring(w, h, 5),
        SamplingMode::Border15 => 1 <= w && 1 <= h && has_ring(w, h, 15),
    }
}

/// Do the products behind a ring fit the machine word?
pub open spec fn has_ring(w: int, h: int, pct: int) -> bool {
    w * pct <= usize::MAX && h * pct <= usize::MAX && w * 14 <= usize::MAX && h * 10 <= usize::MAX
}

/// Sample rectangle per LED, according to the chosen mode.
pub fn build_sample_blocks(w: usize, h: usize, mode: SamplingMode) -> (blocks: [(
    u16,
    u16,
    u16,
    u16,
); 48])
    requires
        has_blocks(w as int, h as int, mode),
    ensures
        forall|i: int|
            0 <= i < 48 ==> #[trigger] blocks@[i] == stored(
                sample_area(w as int, h as int, mode, i),
            ),
{
    match mode {
        SamplingMode::Border5 | SamplingMode::Border15 => {
            let pct: usize = if mode == SamplingMode::Border5 {
                5
            } else {
                15
            };
            let points = perimeter_points(w, h, pct);
            let bw: usize = if w / 120 >= 1 {
                w / 120
            } else {
                1
            };
            let bh: usize = if h / 68 >= 1 {
                h / 68
            } else {
                1
            };
            let mut blocks: [(u16, u16, u16, u16); 48] = [(0, 0, 0, 0);48];
            let mut i: usize = 0;
            while i < 48
                invariant
                    i <= 48,
                    has_blocks(w as int, h as int, mode),
                    mode != SamplingMode::Full,
                    pct == (if mode == SamplingMode::Border5 {
                        5int
                    } else {
                        15
                    }),
                    bw == at_least_one(w as int / 120),
                    bh == at_least_one(h as int / 68),
                    forall|j: int|
                        0 <= j < 48 ==> (#[trigger] points@[j]).0 == ring_point(
                            w as int,
                            h as int,
                            pct as int,
                            j,
                        ).0 && points@[j].1 == ring_point(w as int, h as int, pct as int, j).1,
                    forall|j: int|
                        0 <= j < i ==> #[trigger] blocks@[j] == stored(
                            sample_area(w as int, h as int, mode, j),
                        ),
                decreases 48 - i,
            {
                let (x, y) = points[47 - i];
                assert(points@[47 - i] == (x, y));
                let x0: usize = start_of(x, bw, w);
                let y0: usize = start_of(y, bh, h);
                blocks[i] = (
                    lower(x0),
                    lower(y0),
                    lower(end_of(x0, bw, w)),
                    lower(end_of(y0, bh, h)),
                );
                i = i + 1;
            }
            blocks
        },
        SamplingMode::Full => {
            let strips = full_screen_blocks(w, h);
            let mut blocks: [(u16, u16, u16, u16); 48] = [(0, 0, 0, 0);48];
            let mut i: usize = 0;
            while i < 48
                invariant
                    i <= 48,
                    mode == SamplingMode::Full,
                    forall|j: int|
                        0 <= j < 48 ==> #[trigger] strips@[j] == stored(
                            strip(w as int, h as int, j),
                        ),
                    forall|j: int|
                        0 <= j < i ==> #[trigger] blocks@[j] == stored(
                            sample_area(w as int, h as int, mode, j),
                        ),
                decreases 48 - i,
            {
                assert(strips@[47 - i] == stored(strip(w as int, h as int, 47 - i)));
                blocks[i] = strips[47 - i];
                i = i + 1;
            }
            blocks
        },
    }
}

fn lower(v: usize) -> (low: u16)
    ensures
        low == low16(v as int),
{
    let low: u16 = #[verifier::truncate] (v as u16);
    assert(low == v % 0x10000) by (bit_vector)
        requires
            low == v as u16,
    ;
    low
}

fn start_of(at: usize, len: usize, side: usize) -> (start: usize)
    requires
        side >= 1,
    ensures
        start == interval_start(at as int, len as int, side as int),
{
    let start: usize = if at >= len / 2 {
        at - len / 2
    } else {
        0
    };
    if start <= side - 1 {
        start
    } else {
        side - 1
    }
}

fn end_of(start: usize, len: usize, side: usize) -> (end: usize)
    requires
        start <= side,
    ensures
        end == interval_end(start as int, len as int, side as int),
{
    if len <= side - start {
        start + len
    } else {
        side
    }
}

/// `k` parts of `n` of a length.
fn part(k: usize, len: usize, n: usize) -> (at: usize)
    requires
        n >= 1,
        k <= n,
        n * len <= usize::MAX,
    ensures
        at == k * len / (n as int),
        at <= len,
{
    assert(k * len <= n * len) by (nonlinear_arith)
        requires
            k <= n,
    ;
    assert(k * len / (n as int) <= len) by (nonlinear_arith)
        requires
            k * len <= n * len,
            n >= 1,
    ;
    k * len / n
}

fn at_least(x0: usize, x1: usize) -> (x: usize)
    requires
        x0 < usize::MAX,
    ensures
        x == wide(x0 as int, x1 as int),
{
    if x1 >= x0 + 1 {
        x1
    } else {
        x0 + 1
    }
}

/// Full-screen blocks, in the same perimeter order as [`perimeter_points`].
pub fn full_screen_blocks(w: usize, h: usize) -> (blocks: [(u16, u16, u16, u16); 48])
    requires
        has_blocks(w as int, h as int, SamplingMode::Full),
    ensures
        forall|i: int|
            0 <= i < 48 ==> #[trigger] blocks@[i] == stored(strip(w as int, h as int, i)),
{
    let mut blocks: [(u16, u16, u16, u16); 48] = [(0, 0, 0, 0);48];
    let mut i: usize = 0;
    while i < 48
        invariant
            i <= 48,
            has_blocks(w as int, h as int, SamplingMode::Full),
            forall|j: int|
                0 <= j < i ==> #[trigger] blocks@[j] == stored(strip(w as int, h as int, j)),
        decreases 48 - i,
    {
        let (x0, y0, x1, y1) = full_strip(w, h, i);
        blocks[i] = (lower(x0), lower(y0), lower(x1), lower(y1));
        i = i + 1;
    }
    blocks
}

fn full_strip(w: usize, h: usize, i: usize) -> (r: (usize, usize, usize, usize))
    requires
        i < 48,
        has_blocks(w as int, h as int, SamplingMode::Full),
    ensures
        r.0 == strip(w as int, h as int, i as int).x0,
        r.1 == strip(w as int, h as int, i as int).y0,
        r.2 == strip(w as int, h as int, i as int).x1,
        r.3 == strip(w as int, h as int, i as int).y1,
{
    let cx: usize = w / 2;
    let cy: usize = h / 2;
    if i < 7 {
        let x0: usize = cx + part(i, w - cx, 7);
        let x1: usize = cx + part(i + 1, w - cx, 7);
        (x0, 0, at_least(x0, x1), cy)
    } else if i < 17 {
        let k: usize = i - 7;
        let y0: usize = part(k, h, 10);
        (cx, y0, w, at_least(y0, part(k + 1, h, 10)))
    } else if i < 31 {
        let k: usize = i - 17;
        let x0: usize = w - part(k + 1, w, 14);
        (x0, cy, at_least(x0, w - part(k, w, 14)), h)
    } else if i < 41 {
        let k: usize = i - 31;
        let y0: usize = h - part(k + 1, h, 10);
        (0, y0, cx, at_least(y0, h - part(k, h, 10)))
    } else {
        let k: usize = i - 41;
        let x0: usize = part(k, cx, 7);
        (x0, 0, at_least(x0, part(k + 1, cx, 7)), cy)
    }
}

fn inset_of(side: usize, pct: usize) -> (deep: usize)
    requires
        side * pct <= usize::MAX,
    ensures
        deep == inset(side as int, pct as int),
        deep <= side / 4,
{
    let deep: usize = if side * pct / 100 >= 1 {
        side * pct / 100
    } else {
        1
    };
    if deep <= side / 4 {
        deep
    } else {
        side / 4
    }
}

/// 48 points along the screen perimeter. The inset percentage selects how deep
/// into the screen the ring sits.
pub fn perimeter_points(w: usize, h: usize, pct: usize) -> (points: [(usize, usize); 48])
    requires
        has_ring(w as int, h as int, pct as int),
    ensures
        forall|i: int|
            0 <= i < 48 ==> (#[trigger] points@[i]).0 == ring_point(
                w as int,
                h as int,
                pct as int,
                i,
            ).0 && points@[i].1 == ring_point(w as int, h as int, pct as int, i).1,
{
    let ox: usize = inset_of(w, pct);
    let oy: usize = inset_of(h, pct);
    let cx: usize = w / 2;
    let mut points: [(usize, usize); 48] = [(0, 0);48];
    let mut i: usize = 0;
    while i < 48
        invariant
            i <= 48,
            has_ring(w as int, h as int, pct as int),
            ox == inset(w as int, pct as int),
            oy == inset(h as int, pct as int),
            ox <= w / 4,
            oy <= h / 4,
            cx == w / 2,
            forall|j: int|
                0 <= j < i ==> (#[trigger] points@[j]).0 == ring_point(
                    w as int,
                    h as int,
                    pct as int,
                    j,
                ).0 && points@[j].1 == ring_point(w as int, h as int, pct as int, j).1,
        decreases 48 - i,
    {
        points[i] =
        if i < 7 {
            (cx + part(i, w - ox - cx, 7), oy)
        } else if i < 17 {
            (w - ox, oy + part(i - 7, h - 2 * oy, 10))
        } else if i < 31 {
            (w - ox - part(i - 17, w - 2 * ox, 14), h - oy)
        } else if i < 41 {
            (ox, h - oy - part(i - 31, h - 2 * oy, 10))
        } else {
            (ox + part(i - 41, cx - ox, 7), oy)
        };
        i = i + 1;
    }
    points
}

/// Which side of the ring a point sits on: the top right of the center, the
/// right edge, the bottom, the left edge, the top left of the center.
pub open spec fn ring_side(i: int) -> int {
    if i < 7 {
        0
    } else if i < 17 {
        1
    } else if i < 31 {
        2
    } else if i < 41 {
        3
    } else {
        4
    }
}

/// The points run clockwise around the ring: each side keeps its distance from
/// the screen's edge and starts at a corner, the first one at the center, and
/// along a side the points never turn back.
pub proof fn the_ring_runs_clockwise(w: int, h: int, pct: int, i: int, j: int)
    requires
        0 <= w,
        0 <= h,
        0 <= pct,
        0 <= i <= j < 48,
        ring_side(i) == ring_side(j),
    ensures
        ({
            let ox = inset(w, pct);
            let oy = inset(h, pct);
            let a = ring_point(w, h, pct, i);
            let b = ring_point(w, h, pct, j);
            &&& ring_side(i) == 0 || ring_side(i) == 4 ==> a.1 == oy && a.0 <= b.0
            &&& ring_side(i) == 1 ==> a.0 == w - ox && a.1 <= b.1
            &&& ring_side(i) == 2 ==> a.1 == h - oy && a.0 >= b.0
            &&& ring_side(i) == 3 ==> a.0 == ox && a.1 >= b.1
            &&& i == 0 ==> a == (w / 2, oy)
            &&& i == 7 ==> a == (w - ox, oy)
            &&& i == 17 ==> a == (w - ox, h - oy)
            &&& i == 31 ==> a == (ox, h - oy)
            &&& i == 41 ==> a == (ox, oy)
        }),
{
    let ox = inset(w, pct);
    let oy = inset(h, pct);
    let cx = w / 2;
    assert(0 <= w * pct && 0 <= h * pct) by (nonlinear_arith)
        requires
            0 <= w,
            0 <= h,
            0 <= pct,
    ;
    assert(0 <= ox <= w / 4 && 0 <= oy <= h / 4);
    if i < 7 {
        lemma_part_ends(w - ox - cx, 7);
        lemma_parts_ordered(w - ox - cx, 7, i, j);
    } else if i < 17 {
        lemma_part_ends(h - 2 * oy, 10);
        lemma_parts_ordered(h - 2 * oy, 10, i - 7, j - 7);
    } else if i < 31 {
        lemma_part_ends(w - 2 * ox, 14);
        lemma_parts_ordered(w - 2 * ox, 14, i - 17, j - 17);
    } else if i < 41 {
        lemma_part_ends(h - 2 * oy, 10);
        lemma_parts_ordered(h - 2 * oy, 10, i - 31, j - 31);
    } else {
        lemma_part_ends(cx - ox, 7);
        lemma_parts_ordered(cx - ox, 7, i - 41, j - 41);
    }
}

/// Up to a quarter of the screen the ring sits as deep as asked for.
pub proof fn the_ring_sits_where_asked(side: int, pct: int)
    requires
        side >= 4,
        0 <= pct <= 25,
    ensures
        inset(side, pct) == at_least_one(side * pct / 100),
{
    assert(side * pct / 100 <= side / 4) by (nonlinear_arith)
        requires
            side >= 4,
            0 <= pct <= 25,
    ;
}

/// Does the rectangle hold pixels, all of them on the screen?
pub open spec fn on_screen(a: Area, w: int, h: int) -> bool {
    0 <= a.x0 < a.x1 <= w && 0 <= a.y0 < a.y1 <= h
}

/// Does the rectangle hold the pixel?
pub open spec fn covers(a: Area, x: int, y: int) -> bool {
    a.x0 <= x < a.x1 && a.y0 <= y < a.y1
}

proof fn lemma_parts_grow(k: int, len: int, n: int)
    requires
        n >= 1,
        0 <= k < n,
        len >= n,
    ensures
        0 <= k * len / n < (k + 1) * len / n <= len,
{
    assert((k + 1) * len == k * len + len) by (nonlinear_arith);
    assert(0 <= k * len) by (nonlinear_arith)
        requires
            0 <= k,
            len >= 0,
    ;
    assert((k + 1) * len <= n * len) by (nonlinear_arith)
        requires
            k + 1 <= n,
            len >= 0,
    ;
    assert(k * len / n < (k * len + len) / n) by (nonlinear_arith)
        requires
            n >= 1,
            len >= n,
            0 <= k * len,
    ;
    assert((k * len + len) / n <= len) by (nonlinear_arith)
        requires
            n >= 1,
            k * len + len <= n * len,
    ;
    assert(k * len / n >= 0) by (nonlinear_arith)
        requires
            n >= 1,
            0 <= k * len,
    ;
}

proof fn lemma_part_ends(len: int, n: int)
    requires
        n >= 1,
        len >= 0,
    ensures
        0 * len / n == 0,
        n * len / n == len,
{
    assert(n * len / n == len) by (nonlinear_arith)
        requires
            n >= 1,
    ;
}

/// The part of `len` that holds `x`, of `n` equal parts.
proof fn lemma_part_of(x: int, len: int, n: int, m: int) -> (k: int)
    requires
        n >= 1,
        len >= n,
        1 <= m <= n,
        0 <= x < m * len / n,
    ensures
        0 <= k < m,
        k * len / n <= x < (k + 1) * len / n,
    decreases m,
{
    lemma_part_ends(len, n);
    if m == 1 {
        0
    } else if x < (m - 1) * len / n {
        lemma_part_of(x, len, n, m - 1)
    } else {
        m - 1
    }
}

/// Two parts that hold the same `x` are the same part.
proof fn lemma_one_part(x: int, len: int, n: int, j: int, k: int)
    requires
        n >= 1,
        0 <= j < n,
        0 <= k < n,
        len >= n,
        j * len / n <= x < (j + 1) * len / n,
        k * len / n <= x < (k + 1) * len / n,
    ensures
        j == k,
{
    if j < k {
        lemma_parts_ordered(len, n, j + 1, k);
    }
    if k < j {
        lemma_parts_ordered(len, n, k + 1, j);
    }
}

proof fn lemma_parts_ordered(len: int, n: int, a: int, b: int)
    requires
        n >= 1,
        len >= 0,
        a <= b,
    ensures
        a * len / n <= b * len / n,
{
    assert(a * len <= b * len) by (nonlinear_arith)
        requires
            a <= b,
            len >= 0,
    ;
    assert(a * len / n <= b * len / n) by (nonlinear_arith)
        requires
            n >= 1,
            a * len <= b * len,
    ;
}

/// Every LED samples a non-empty rectangle of the screen, in every mode, and
/// the rectangle is stored as it is. The full-screen strips need a screen with
/// a pixel for each of them.
pub proof fn every_block_is_valid(w: int, h: int, mode: SamplingMode, i: int)
    requires
        0 <= i < 48,
        1 <= w <= 0xFFFF,
        1 <= h <= 0xFFFF,
        mode == SamplingMode::Full ==> w >= 14 && h >= 10,
    ensures
        on_screen(sample_area(w, h, mode, i), w, h),
        stored(sample_area(w, h, mode, i)).0 == sample_area(w, h, mode, i).x0,
        stored(sample_area(w, h, mode, i)).1 == sample_area(w, h, mode, i).y0,
        stored(sample_area(w, h, mode, i)).2 == sample_area(w, h, mode, i).x1,
        stored(sample_area(w, h, mode, i)).3 == sample_area(w, h, mode, i).y1,
{
    match mode {
        SamplingMode::Border5 => lemma_block_on_screen(w, h, ring_point(w, h, 5, 47 - i)),
        SamplingMode::Border15 => lemma_block_on_screen(w, h, ring_point(w, h, 15, 47 - i)),
        SamplingMode::Full => lemma_strip_on_screen(w, h, 47 - i),
    }
    lemma_stored_as_is(sample_area(w, h, mode, i), w, h);
}

proof fn lemma_block_on_screen(w: int, h: int, p: (int, int))
    requires
        w >= 1,
        h >= 1,
    ensures
        on_screen(block_around(w, h, p), w, h),
{
}

proof fn lemma_stored_as_is(a: Area, w: int, h: int)
    requires
        on_screen(a, w, h),
        w <= 0xFFFF,
        h <= 0xFFFF,
    ensures
        stored(a).0 == a.x0,
        stored(a).1 == a.y0,
        stored(a).2 == a.x1,
        stored(a).3 == a.y1,
{
}

proof fn lemma_strip_on_screen(w: int, h: int, i: int)
    requires
        0 <= i < 48,
        w >= 14,
        h >= 10,
    ensures
        on_screen(strip(w, h, i), w, h),
{
    let cx = w / 2;
    if i < 7 {
        lemma_parts_grow(i, w - cx, 7);
    } else if i < 17 {
        lemma_parts_grow(i - 7, h, 10);
    } else if i < 31 {
        lemma_parts_grow(i - 17, w, 14);
    } else if i < 41 {
        lemma_parts_grow(i - 31, h, 10);
    } else {
        lemma_parts_grow(i - 41, cx, 7);
    }
}

/// The full-screen strips form five groups, and each tiles its half of the
/// screen: a group's first strip starts at one end of the half, its last ends
/// at the other, and neighbours share an edge.
pub proof fn full_screen_groups_tile(w: int, h: int, i: int)
    requires
        w >= 14,
        h >= 10,
        0 <= i < 48,
    ensures
        i < 7 || i >= 41 ==> strip(w, h, i).y0 == 0 && strip(w, h, i).y1 == h / 2,
        7 <= i < 17 ==> strip(w, h, i).x0 == w / 2 && strip(w, h, i).x1 == w,
        17 <= i < 31 ==> strip(w, h, i).y0 == h / 2 && strip(w, h, i).y1 == h,
        31 <= i < 41 ==> strip(w, h, i).x0 == 0 && strip(w, h, i).x1 == w / 2,
        // where the groups begin and end
        strip(w, h, 0).x0 == w / 2 && strip(w, h, 6).x1 == w,
        strip(w, h, 7).y0 == 0 && strip(w, h, 16).y1 == h,
        strip(w, h, 17).x1 == w && strip(w, h, 30).x0 == 0,
        strip(w, h, 31).y1 == h && strip(w, h, 40).y0 == 0,
        strip(w, h, 41).x0 == 0 && strip(w, h, 47).x1 == w / 2,
        // neighbours
        i < 6 || 41 <= i < 47 ==> strip(w, h, i).x1 == strip(w, h, i + 1).x0,
        7 <= i < 16 ==> strip(w, h, i).y1 == strip(w, h, i + 1).y0,
        17 <= i < 30 ==> strip(w, h, i).x0 == strip(w, h, i + 1).x1,
        31 <= i < 40 ==> strip(w, h, i).y0 == strip(w, h, i + 1).y1,
{
    let cx = w / 2;
    lemma_ends(w, h);
    if i < 7 {
        lemma_parts_grow(i, w - cx, 7);
        if i < 6 {
            lemma_parts_grow(i + 1, w - cx, 7);
        }
    } else if i < 17 {
        lemma_parts_grow(i - 7, h, 10);
        if i < 16 {
            lemma_parts_grow(i - 6, h, 10);
        }
    } else if i < 31 {
        lemma_parts_grow(i - 17, w, 14);
        if i < 30 {
            lemma_parts_grow(i - 16, w, 14);
        }
    } else if i < 41 {
        lemma_parts_grow(i - 31, h, 10);
        if i < 40 {
            lemma_parts_grow(i - 30, h, 10);
        }
    } else {
        lemma_parts_grow(i - 41, cx, 7);
        if i < 47 {
            lemma_parts_grow(i - 40, cx, 7);
        }
    }
}

proof fn lemma_ends(w: int, h: int)
    requires
        w >= 14,
        h >= 10,
    ensures
        strip(w, h, 0).x0 == w / 2 && strip(w, h, 6).x1 == w,
        strip(w, h, 7).y0 == 0 && strip(w, h, 16).y1 == h,
        strip(w, h, 17).x1 == w && strip(w, h, 30).x0 == 0,
        strip(w, h, 31).y1 == h && strip(w, h, 40).y0 == 0,
        strip(w, h, 41).x0 == 0 && strip(w, h, 47).x1 == w / 2,
{
    let cx = w / 2;
    lemma_part_ends(w - cx, 7);
    lemma_part_ends(cx, 7);
    lemma_part_ends(w, 14);
    lemma_part_ends(h, 10);
    lemma_parts_grow(6, w - cx, 7);
    lemma_parts_grow(9, h, 10);
    lemma_parts_grow(0, w, 14);
    lemma_parts_grow(13, w, 14);
    lemma_parts_grow(0, h, 10);
    lemma_parts_grow(6, cx, 7);
}

/// Is the strip a vertical one, of the top or the bottom half?
pub open spec fn is_vertical(i: int) -> bool {
    i < 7 || 17 <= i < 31 || i >= 41
}

/// The vertical strip that holds a pixel.
proof fn lemma_vertical_strip_of(w: int, h: int, x: int, y: int) -> (i: int)
    requires
        w >= 14,
        h >= 10,
        0 <= x < w,
        0 <= y < h,
    ensures
        0 <= i < 48,
        is_vertical(i),
        covers(strip(w, h, i), x, y),
{
    let cx = w / 2;
    if y >= h / 2 {
        lemma_part_ends(w, 14);
        let k = lemma_part_of(w - 1 - x, w, 14, 14);
        lemma_parts_grow(k, w, 14);
        17 + k
    } else if x < cx {
        lemma_part_ends(cx, 7);
        let k = lemma_part_of(x, cx, 7, 7);
        lemma_parts_grow(k, cx, 7);
        41 + k
    } else {
        lemma_part_ends(w - cx, 7);
        let k = lemma_part_of(x - cx, w - cx, 7, 7);
        lemma_parts_grow(k, w - cx, 7);
        k
    }
}

/// The horizontal strip that holds a pixel.
proof fn lemma_horizontal_strip_of(w: int, h: int, x: int, y: int) -> (i: int)
    requires
        w >= 14,
        h >= 10,
        0 <= x < w,
        0 <= y < h,
    ensures
        0 <= i < 48,
        !is_vertical(i),
        covers(strip(w, h, i), x, y),
{
    lemma_part_ends(h, 10);
    if x >= w / 2 {
        let k = lemma_part_of(y, h, 10, 10);
        lemma_parts_grow(k, h, 10);
        7 + k
    } else {
        let k = lemma_part_of(h - 1 - y, h, 10, 10);
        lemma_parts_grow(k, h, 10);
        31 + k
    }
}

proof fn lemma_strips_of_a_kind_are_disjoint(w: int, h: int, x: int, y: int, i: int, j: int)
    requires
        w >= 14,
        h >= 10,
        0 <= x < w,
        0 <= y < h,
        0 <= i < 48,
        0 <= j < 48,
        is_vertical(i) == is_vertical(j),
        covers(strip(w, h, i), x, y),
        covers(strip(w, h, j), x, y),
    ensures
        i == j,
{
    let cx = w / 2;
    lemma_strip_reaches(w, h, i);
    lemma_strip_reaches(w, h, j);
    if i < 7 {
        lemma_one_part(x - cx, w - cx, 7, i, j);
    } else if i < 17 {
        lemma_one_part(y, h, 10, i - 7, j - 7);
    } else if i < 31 {
        lemma_one_part(w - 1 - x, w, 14, i - 17, j - 17);
    } else if i < 41 {
        lemma_one_part(h - 1 - y, h, 10, i - 31, j - 31);
    } else {
        lemma_one_part(x, cx, 7, i - 41, j - 41);
    }
}

/// A strip's edges without the widening, which no strip needs on such a screen.
proof fn lemma_strip_reaches(w: int, h: int, i: int)
    requires
        w >= 14,
        h >= 10,
        0 <= i < 48,
    ensures
        i < 7 ==> strip(w, h, i).x1 == w / 2 + (i + 1) * (w - w / 2) / 7 && strip(w, h, i).x0 >= w
            / 2,
        7 <= i < 17 ==> strip(w, h, i).y1 == (i - 6) * h / 10,
        17 <= i < 31 ==> strip(w, h, i).x1 == w - (i - 17) * w / 14,
        31 <= i < 41 ==> strip(w, h, i).y1 == h - (i - 31) * h / 10,
        41 <= i ==> strip(w, h, i).x1 == (i - 40) * (w / 2) / 7 && strip(w, h, i).x1 <= w / 2,
{
    let cx = w / 2;
    if i < 7 {
        lemma_parts_grow(i, w - cx, 7);
    } else if i < 17 {
        lemma_parts_grow(i - 7, h, 10);
    } else if i < 31 {
        lemma_parts_grow(i - 17, w, 14);
    } else if i < 41 {
        lemma_parts_grow(i - 31, h, 10);
    } else {
        lemma_parts_grow(i - 41, cx, 7);
    }
}

/// In full-screen mode every pixel of the screen influences exactly two strips:
/// one vertical and one horizontal.
pub proof fn every_pixel_lights_two_strips(w: int, h: int, x: int, y: int)
    requires
        w >= 14,
        h >= 10,
        0 <= x < w,
        0 <= y < h,
    ensures
        exists|i: int, j: int|
            0 <= i < 48 && 0 <= j < 48 && is_vertical(i) && !is_vertical(j) && covers(
                #[trigger] strip(w, h, i),
                x,
                y,
            ) && covers(#[trigger] strip(w, h, j), x, y) && forall|k: int|
                0 <= k < 48 && k != i && k != j ==> !covers(#[trigger] strip(w, h, k), x, y),
{
    let i = lemma_vertical_strip_of(w, h, x, y);
    let j = lemma_horizontal_strip_of(w, h, x, y);
    assert forall|k: int| 0 <= k < 48 && k != i && k != j implies !covers(
        #[trigger] strip(w, h, k),
        x,
        y,
    ) by {
        if covers(strip(w, h, k), x, y) {
            if is_vertical(k) {
                lemma_strips_of_a_kind_are_disjoint(w, h, x, y, i, k);
            } else {
                lemma_strips_of_a_kind_are_disjoint(w, h, x, y, j, k);
            }
        }
    }
}

} // verus!
