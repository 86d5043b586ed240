//! Where the LEDs look: what holds of the ring, of the blocks around its points
//! and of the full-screen strips on every screen.

use crate::sampling;
use crate::sampling::SamplingMode;
use vstd::prelude::*;

verus! {

/// Is `d` the whole part of `k` steps, where `n` steps make up `len`?
pub open spec fn is_share(d: int, k: int, n: int, len: int) -> bool {
    n * d <= k * len < n * (d + 1)
}

proof fn lemma_share(k: int, n: int, len: int)
    requires
        n >= 1,
        k >= 0,
        len >= 0,
    ensures
        is_share(k * len / n, k, n, len),
{
    let t = k * len;
    vstd::arithmetic::div_mod::lemma_fundamental_div_mod(t, n);
    vstd::arithmetic::div_mod::lemma_mod_bound(t, n);
    assert(n * (t / n + 1) == n * (t / n) + n) by (nonlinear_arith);
}

/// Steps between neighbouring shares are as even as whole pixels allow.
proof fn lemma_even_steps(a: int, b: int, k: int, n: int, len: int)
    requires
        n >= 1,
        0 <= k < n,
        is_share(a, k, n, len),
        is_share(b, k + 1, n, len),
    ensures
        n * (b - a) <= len + n - 1,
        n * (b - a) >= len - n + 1,
        len >= n ==> b > a,
{
    assert(n * (b - a) == n * b - n * a) by (nonlinear_arith);
    assert(n * (a + 1) == n * a + n) by (nonlinear_arith);
    assert(n * (b + 1) == n * b + n) by (nonlinear_arith);
    assert((k + 1) * len == k * len + len) by (nonlinear_arith);
    if len >= n {
        assert(b > a) by (nonlinear_arith)
            requires
                n >= 1,
                n * (b - a) >= 1,
        ;
    }
}

/// The ring is as deep as the percentage asks for, in whole pixels, but at
/// least one pixel, and never deeper than a quarter of the side.
pub proof fn the_ring_is_this_deep(side: int, pct: int)
    requires
        0 <= side,
        0 <= pct,
    ensures
        ({
            let deep = sampling::inset(side, pct);
            &&& 0 <= deep
            &&& 4 * deep <= side
            &&& side >= 4 ==> deep >= 1
            &&& 100 * deep <= side * pct || deep <= 1
            &&& side * pct < 100 * (deep + 1) || side < 4 * (deep + 1)
        }),
{
    assert(0 <= side * pct) by (nonlinear_arith)
        requires
            0 <= side,
            0 <= pct,
    ;
}

/// The points of each side are spread evenly: point `k` of a side of `n` points
/// lies `k` shares in `n` of the side's length from the corner where the side
/// starts, in whole pixels. The sides have 7, 10, 14, 10 and 7 points.
pub proof fn ring_points_are_spread_evenly(w: int, h: int, pct: int, i: int)
    requires
        0 <= w,
        0 <= h,
        0 <= pct,
        0 <= i < 48,
    ensures
        ({
            let (x, y) = sampling::ring_point(w, h, pct, i);
            let ox = sampling::inset(w, pct);
            let oy = sampling::inset(h, pct);
            &&& i < 7 ==> y == oy && is_share(x - w / 2, i, 7, w - ox - w / 2)
            &&& 7 <= i < 17 ==> x == w - ox && is_share(y - oy, i - 7, 10, h - 2 * oy)
            &&& 17 <= i < 31 ==> y == h - oy && is_share(w - ox - x, i - 17, 14, w - 2 * ox)
            &&& 31 <= i < 41 ==> x == ox && is_share(h - oy - y, i - 31, 10, h - 2 * oy)
            &&& 41 <= i ==> y == oy && is_share(x - ox, i - 41, 7, w / 2 - ox)
        }),
{
    the_ring_is_this_deep(w, pct);
    the_ring_is_this_deep(h, pct);
    let ox = sampling::inset(w, pct);
    let oy = sampling::inset(h, pct);
    if i < 7 {
        lemma_share(i, 7, w - ox - w / 2);
    } else if i < 17 {
        lemma_share(i - 7, 10, h - 2 * oy);
    } else if i < 31 {
        lemma_share(i - 17, 14, w - 2 * ox);
    } else if i < 41 {
        lemma_share(i - 31, 10, h - 2 * oy);
    } else {
        lemma_share(i - 41, 7, w / 2 - ox);
    }
}

/// From each point the next one lies straight on along its side, the last point
/// of a side leads to the next side's corner and the last of all to the first.
/// No step is longer than an even share rounded up or shorter than one rounded
/// down, and on a screen with room no two neighbours fall together.
pub proof fn ring_steps_are_even(w: int, h: int, pct: int, i: int)
    requires
        0 <= w,
        0 <= h,
        0 <= pct,
        0 <= i < 48,
    ensures
        ({
            let a = sampling::ring_point(w, h, pct, i);
            let b = sampling::ring_point(w, h, pct, (i + 1) % 48);
            let ox = sampling::inset(w, pct);
            let oy = sampling::inset(h, pct);
            let dx = b.0 - a.0;
            let dy = b.1 - a.1;
            &&& i < 7 ==> dy == 0 && w - ox - w / 2 - 6 <= 7 * dx <= w - ox - w / 2 + 6
            &&& 7 <= i < 17 ==> dx == 0 && h - 2 * oy - 9 <= 10 * dy <= h - 2 * oy + 9
            &&& 17 <= i < 31 ==> dy == 0 && w - 2 * ox - 13 <= -14 * dx <= w - 2 * ox + 13
            &&& 31 <= i < 41 ==> dx == 0 && h - 2 * oy - 9 <= -10 * dy <= h - 2 * oy + 9
            &&& 41 <= i ==> dy == 0 && w / 2 - ox - 6 <= 7 * dx <= w / 2 - ox + 6
            &&& w >= 28 && h >= 20 ==> a != b
        }),
{
    the_ring_is_this_deep(w, pct);
    the_ring_is_this_deep(h, pct);
    let ox = sampling::inset(w, pct);
    let oy = sampling::inset(h, pct);
    if i < 7 {
        lemma_side_steps(w, h, pct, i, 0, 7, w - ox - w / 2);
    } else if i < 17 {
        lemma_side_steps(w, h, pct, i, 7, 10, h - 2 * oy);
    } else if i < 31 {
        lemma_side_steps(w, h, pct, i, 17, 14, w - 2 * ox);
    } else if i < 41 {
        lemma_side_steps(w, h, pct, i, 31, 10, h - 2 * oy);
    } else {
        lemma_side_steps(w, h, pct, i, 41, 7, w / 2 - ox);
    }
}

/// How far along its side a point lies that starts at point `from`.
spec fn along(w: int, h: int, pct: int, i: int, from: int) -> int {
    let (x, y) = sampling::ring_point(w, h, pct, i);
    let ox = sampling::inset(w, pct);
    let oy = sampling::inset(h, pct);
    if from == 0 {
        x - w / 2
    } else if from == 7 {
        y - oy
    } else if from == 17 {
        w - ox - x
    } else if from == 31 {
        h - oy - y
    } else {
        x - ox
    }
}

proof fn lemma_side_steps(w: int, h: int, pct: int, i: int, from: int, n: int, len: int)
    requires
        0 <= w,
        0 <= h,
        0 <= pct,
        0 <= i < 48,
        from <= i < from + n,
        ({
            let ox = sampling::inset(w, pct);
            let oy = sampling::inset(h, pct);
            ||| from == 0 && n == 7 && len == w - ox - w / 2
            ||| from == 7 && n == 10 && len == h - 2 * oy
            ||| from == 17 && n == 14 && len == w - 2 * ox
            ||| from == 31 && n == 10 && len == h - 2 * oy
            ||| from == 41 && n == 7 && len == w / 2 - ox
        }),
    ensures
        ({
            let j = (i + 1) % 48;
            let d = along(w, h, pct, j, from) - along(w, h, pct, i, from);
            &&& len - n + 1 <= n * d <= len + n - 1
            &&& len >= n ==> d > 0
        }),
        from == 7 || from == 31 ==> sampling::ring_point(w, h, pct, (i + 1) % 48).0
            == sampling::ring_point(w, h, pct, i).0,
        from != 7 && from != 31 ==> sampling::ring_point(w, h, pct, (i + 1) % 48).1
            == sampling::ring_point(w, h, pct, i).1,
{
    let j = (i + 1) % 48;
    ring_points_are_spread_evenly(w, h, pct, i);
    let a = along(w, h, pct, i, from);
    let b = along(w, h, pct, j, from);
    assert(is_share(a, i - from, n, len));
    assert(is_share(b, i - from + 1, n, len)) by {
        if i + 1 < from + n {
            ring_points_are_spread_evenly(w, h, pct, j);
        } else {
            sampling::the_ring_runs_clockwise(w, h, pct, j, j);
            assert(b == len);
            assert(n * len < n * (len + 1)) by (nonlinear_arith)
                requires
                    n >= 1,
            ;
        }
    }
    if i + 1 < from + n {
        ring_points_are_spread_evenly(w, h, pct, j);
    } else {
        sampling::the_ring_runs_clockwise(w, h, pct, j, j);
    }
    lemma_even_steps(a, b, i - from, n, len);
}

/// The full-screen strips are even: each edge lies where an even share of the
/// half's length puts it, in whole pixels, and a strip that would be empty is
/// one pixel wide.
pub proof fn strips_are_even(w: int, h: int, i: int)
    requires
        0 <= w,
        0 <= h,
        0 <= i < 48,
    ensures
        ({
            let a = sampling::strip(w, h, i);
            let cx = w / 2;
            &&& i < 7 ==> {
                &&& a.y0 == 0 && a.y1 == h / 2
                &&& is_share(a.x0 - cx, i, 7, w - cx)
                &&& is_share(a.x1 - cx, i + 1, 7, w - cx) || a.x1 == a.x0 + 1
            }
            &&& 7 <= i < 17 ==> {
                &&& a.x0 == cx && a.x1 == w
                &&& is_share(a.y0, i - 7, 10, h)
                &&& is_share(a.y1, i - 6, 10, h) || a.y1 == a.y0 + 1
            }
            &&& 17 <= i < 31 ==> {
                &&& a.y0 == h / 2 && a.y1 == h
                &&& is_share(w - a.x0, i - 16, 14, w)
                &&& is_share(w - a.x1, i - 17, 14, w) || a.x1 == a.x0 + 1
            }
            &&& 31 <= i < 41 ==> {
                &&& a.x0 == 0 && a.x1 == cx
                &&& is_share(h - a.y0, i - 30, 10, h)
                &&& is_share(h - a.y1, i - 31, 10, h) || a.y1 == a.y0 + 1
            }
            &&& 41 <= i ==> {
                &&& a.y0 == 0 && a.y1 == h / 2
                &&& is_share(a.x0, i - 41, 7, cx)
                &&& is_share(a.x1, i - 40, 7, cx) || a.x1 == a.x0 + 1
            }
        }),
{
    let cx = w / 2;
    if i < 7 {
        lemma_share(i, 7, w - cx);
        lemma_share(i + 1, 7, w - cx);
    } else if i < 17 {
        lemma_share(i - 7, 10, h);
        lemma_share(i - 6, 10, h);
    } else if i < 31 {
        lemma_share(i - 17, 14, w);
        lemma_share(i - 16, 14, w);
    } else if i < 41 {
        lemma_share(i - 31, 10, h);
        lemma_share(i - 30, 10, h);
    } else {
        lemma_share(i - 41, 7, cx);
        lemma_share(i - 40, 7, cx);
    }
}

/// A share of the whole, at least 1: the largest `len` of which `n` fit into
/// `side`.
pub open spec fn is_nth(len: int, n: int, side: int) -> bool {
    len >= 1 && (len == 1 || n * len <= side) && side < n * (len + 1)
}

/// Is `lo..hi` the interval of length `len` around `at`, cut at the ends of
/// `0..side`?
pub open spec fn is_around(lo: int, hi: int, at: int, len: int, side: int) -> bool {
    &&& 0 <= lo < hi <= side
    &&& hi - lo == len || (hi == side && hi - lo < len)
    &&& lo == at - len / 2 || (lo == 0 && at < len / 2) || (lo == side - 1 && at - len / 2 > lo)
}

/// The block of a point is a 120th of the width by a 68th of the height, around
/// the point, cut at the screen's edges.
pub proof fn blocks_surround_their_points(w: int, h: int, p: (int, int), bw: int, bh: int)
    requires
        1 <= w,
        1 <= h,
        is_nth(bw, 120, w),
        is_nth(bh, 68, h),
    ensures
        is_around(
            sampling::block_around(w, h, p).x0,
            sampling::block_around(w, h, p).x1,
            p.0,
            bw,
            w,
        ),
        is_around(
            sampling::block_around(w, h, p).y0,
            sampling::block_around(w, h, p).y1,
            p.1,
            bh,
            h,
        ),
{
    assert(bw == sampling::at_least_one(w / 120)) by {
        if w < 120 {
            assert(w / 120 == 0);
        }
    }
    assert(bh == sampling::at_least_one(h / 68)) by {
        if h < 68 {
            assert(h / 68 == 0);
        }
    }
}

/// The LEDs run against the ring: LED 0 looks where the last point is and LED 47
/// where the first is. The two border modes differ in how deep their ring sits.
pub proof fn leds_run_against_the_ring(w: int, h: int, i: int)
    requires
        0 <= i < 48,
    ensures
        sampling::sample_area(w, h, SamplingMode::Border5, i) == sampling::block_around(
            w,
            h,
            sampling::ring_point(w, h, 5, 47 - i),
        ),
        sampling::sample_area(w, h, SamplingMode::Border15, i) == sampling::block_around(
            w,
            h,
            sampling::ring_point(w, h, 15, 47 - i),
        ),
        sampling::sample_area(w, h, SamplingMode::Full, i) == sampling::strip(w, h, 47 - i),
{
}

/// A block keeps the low 16 bits of every coordinate.
pub proof fn coordinates_keep_their_low_bits(v: int, q: int, low: int)
    requires
        v == 0x10000 * q + low,
        0 <= low < 0x10000,
    ensures
        sampling::low16(v) == low,
        sampling::stored(sampling::Area { x0: v, y0: 0, x1: 0, y1: 0 }).0 == low,
        sampling::stored(sampling::Area { x0: 0, y0: v, x1: 0, y1: 0 }).1 == low,
        sampling::stored(sampling::Area { x0: 0, y0: 0, x1: v, y1: 0 }).2 == low,
        sampling::stored(sampling::Area { x0: 0, y0: 0, x1: 0, y1: v }).3 == low,
{
    vstd::arithmetic::div_mod::lemma_fundamental_div_mod_converse(v, 0x10000, q, low);
}

/// What a block shows: nothing new without samples, the plain color on the first
/// frame, the blend on every later one.
pub proof fn first_frames_are_not_blended(
    count: u32,
    boosted: [u8; 3],
    mixed: [u8; 3],
    prev: [u8; 3],
)
    requires
        count > 0,
    ensures
        sampling::settled(count, true, boosted, mixed, prev) == boosted,
        sampling::settled(count, false, boosted, mixed, prev) == mixed,
        sampling::settled(0, true, boosted, mixed, prev) == prev,
        sampling::settled(0, false, boosted, mixed, prev) == prev,
{
}

/// An LED shows red, green and blue of its block's color in that order: the plain
/// color on the first frame, the blend later, and black without samples.
pub proof fn leds_show_their_block(count: u32, boosted: [u8; 3], mixed: [u8; 3])
    requires
        count > 0,
    ensures
        ({
            let first = sampling::led_color(count, true, boosted, mixed);
            let later = sampling::led_color(count, false, boosted, mixed);
            let dark = sampling::led_color(0, true, boosted, mixed);
            &&& first.r == boosted@[0] && first.g == boosted@[1] && first.b == boosted@[2]
            &&& later.r == mixed@[0] && later.g == mixed@[1] && later.b == mixed@[2]
            &&& dark.r == 0 && dark.g == 0 && dark.b == 0
            &&& sampling::led_color(0, false, boosted, mixed) == dark
        }),
{
}

/// In single precision a number has 24 significant bits: it becomes the nearest
/// multiple of the power of two that leaves it so many, and of two equally near
/// the even multiple.
pub proof fn single_precision_rounds_to_nearest(n: int) -> (e: nat)
    requires
        0 <= n,
    ensures
        ({
            let unit = vstd::arithmetic::power2::pow2(e) as int;
            let s = sampling::single(n);
            &&& unit >= 1
            &&& n < 0x1000000 * unit
            &&& unit == 1 || 0x800000 * unit <= n
            &&& s % unit == 0
            &&& -unit <= 2 * (s - n) <= unit
            &&& 2 * (s - n) == unit || 2 * (s - n) == -unit ==> (s / unit) % 2 == 0
        }),
{
    let e = lemma_unit(n);
    let unit = sampling::single_unit(n);
    let q = n / unit;
    let r = n % unit;
    vstd::arithmetic::div_mod::lemma_fundamental_div_mod(n, unit);
    vstd::arithmetic::div_mod::lemma_mod_bound(n, unit);
    assert(unit * q == q * unit) by (nonlinear_arith);
    assert((q + 1) * unit == q * unit + unit) by (nonlinear_arith);
    let m = if 2 * r < unit || (2 * r == unit && q % 2 == 0) {
        q
    } else {
        q + 1
    };
    assert(sampling::single(n) == m * unit);
    vstd::arithmetic::div_mod::lemma_fundamental_div_mod_converse(m * unit, unit, m, 0);
    e
}

proof fn lemma_unit(n: int) -> (e: nat)
    requires
        0 <= n,
    ensures
        sampling::single_unit(n) == vstd::arithmetic::power2::pow2(e),
        sampling::single_unit(n) >= 1,
        n < 0x1000000 * sampling::single_unit(n),
        sampling::single_unit(n) == 1 || 0x800000 * sampling::single_unit(n) <= n,
    decreases n,
{
    if n < 0x1000000 {
        vstd::arithmetic::power2::lemma2_to64();
        0
    } else {
        let e = lemma_unit(n / 2);
        vstd::arithmetic::power2::lemma_pow2_unfold(e + 1);
        e + 1
    }
}

/// The root in single precision, without its fraction: the root is rounded to
/// 24 significant bits, of which the last stands for a power of two's part of
/// one, and the whole part is kept.
pub proof fn roots_have_single_precision(n: int) -> (by: (nat, int))
    requires
        1 <= n < 0x1_0000_0000_0000,
    ensures
        ({
            let p = vstd::arithmetic::power2::pow2(by.0) as int;
            let m = n * (p * p);
            &&& 0x4000_0000_0000 <= m < 0x1_0000_0000_0000
            &&& is_rounded_root(by.1, m)
            &&& p * sampling::single_root(n) <= by.1 < p * (sampling::single_root(n) + 1)
        }),
{
    let e = lemma_widening(n);
    sampling::lemma_widened(n);
    let p = sampling::widening(n);
    let m = sampling::widened(n);
    sampling::lemma_isqrt(4 * m);
    let r = sampling::isqrt(4 * m);
    let t = (r + 1) / 2;
    assert(is_rounded_root(t, m)) by {
        if r % 2 == 0 {
            assert(2 * t == r);
            assert(r >= 1) by (nonlinear_arith)
                requires
                    r >= 0,
                    4 * m < (r + 1) * (r + 1),
                    m >= 1,
            ;
            assert((2 * t - 1) * (2 * t - 1) <= 4 * m) by (nonlinear_arith)
                requires
                    2 * t == r,
                    r * r <= 4 * m,
                    r >= 1,
            ;
        } else {
            assert(2 * t == r + 1);
            assert(4 * m < (2 * t + 1) * (2 * t + 1)) by (nonlinear_arith)
                requires
                    2 * t == r + 1,
                    4 * m < (r + 1) * (r + 1),
                    r >= 0,
            ;
        }
    }
    vstd::arithmetic::div_mod::lemma_fundamental_div_mod(t, p);
    vstd::arithmetic::div_mod::lemma_mod_bound(t, p);
    assert(p * (t / p + 1) == p * (t / p) + p) by (nonlinear_arith);
    (e, t)
}

/// Is `t` the whole number nearest to the root of `m`?
pub open spec fn is_rounded_root(t: int, m: int) -> bool {
    t >= 0 && (2 * t - 1) * (2 * t - 1) <= 4 * m < (2 * t + 1) * (2 * t + 1)
}

proof fn lemma_widening(n: int) -> (e: nat)
    requires
        1 <= n < 0x1_0000_0000_0000,
    ensures
        sampling::widening(n) == vstd::arithmetic::power2::pow2(e),
        0x4000_0000_0000 <= sampling::widened(n) < 0x1_0000_0000_0000,
    decreases 0x1_0000_0000_0000 - n,
{
    if n >= 0x4000_0000_0000 {
        vstd::arithmetic::power2::lemma2_to64();
        0
    } else {
        let e = lemma_widening(4 * n);
        vstd::arithmetic::power2::lemma_pow2_unfold(e + 1);
        e + 1
    }
}

/// Roots of 25 and 26 bits are the nearest multiple of 2 or 4.
pub proof fn large_roots_lose_their_last_bits(n: int)
    requires
        0x1_0000_0000_0000 <= n,
    ensures
        ({
            let r = sampling::single_root(n);
            &&& n < 0x4_0000_0000_0000 ==> r % 2 == 0 && (r - 1) * (r - 1) <= n < (r + 1) * (r
                + 1)
            &&& n >= 0x4_0000_0000_0000 ==> r % 4 == 0 && (r - 2) * (r - 2) <= n < (r + 2) * (r
                + 2)
        }),
{
    sampling::lemma_isqrt(n);
    let s = sampling::isqrt(n);
    let r = sampling::single_root(n);
    assert(s >= 2) by (nonlinear_arith)
        requires
            s >= 0,
            n < (s + 1) * (s + 1),
            n >= 9,
    ;
    if n < 0x4_0000_0000_0000 {
        assert(r - 1 <= s <= r);
        assert((r - 1) * (r - 1) <= s * s) by (nonlinear_arith)
            requires
                0 <= r - 1 <= s,
        ;
        assert((s + 1) * (s + 1) <= (r + 1) * (r + 1)) by (nonlinear_arith)
            requires
                0 <= s <= r,
        ;
    } else {
        assert(r - 2 <= s <= r + 1);
        assert((r - 2) * (r - 2) <= s * s) by (nonlinear_arith)
            requires
                0 <= r - 2 <= s,
        ;
        assert((s + 1) * (s + 1) <= (r + 2) * (r + 2)) by (nonlinear_arith)
            requires
                0 <= s <= r + 1,
        ;
    }
}

/// The grid's stride is the root of the area in units of 4096 pixels, and at
/// least 1.
pub proof fn strides_are_roots(area: int, units: int)
    requires
        0 <= 4096 * units <= area < 4096 * (units + 1),
    ensures
        ({
            let root = sampling::single_root(sampling::single(units));
            &&& root >= 1 ==> sampling::stride_of(area) == root
            &&& root < 1 ==> sampling::stride_of(area) == 1
        }),
{
    assert(area / 4096 == units);
}

} // verus!
