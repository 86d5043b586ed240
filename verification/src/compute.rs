//! The integer side of GPU block averaging: the table that tells the shader
//! which pixels of each LED's block to add up, and how many there are.

use crate::sampling;
use crate::sampling::block_stride;
use vstd::prelude::*;

verus! {

/// Lowest Direct3D feature level with compute shaders.
pub const FEATURE_LEVEL_11_0: i32 = 0xB000;

/// Can a device of this feature level average blocks?
pub fn supports_compute(feature_level: i32) -> (yes: bool)
    ensures
        yes == (feature_level >= FEATURE_LEVEL_11_0),
        yes == (feature_level >= 0xB000),
{
    feature_level >= FEATURE_LEVEL_11_0
}

/// Left, top, right and bottom edge of an LED's block, the last two exclusive.
pub type Block = (u16, u16, u16, u16);

pub open spec fn width(b: Block) -> int {
    b.2 - b.0
}

pub open spec fn height(b: Block) -> int {
    b.3 - b.1
}

/// `n` in units of `d`, rounded up.
pub open spec fn ceil_div(n: int, d: int) -> int {
    (n + d - 1) / d
}

/// The stride of a block's grid.
pub open spec fn grid_stride(b: Block) -> int {
    sampling::stride_of(width(b) * height(b))
}

/// Samples per row of a block's grid.
pub open spec fn grid_columns(b: Block) -> int {
    ceil_div(width(b), grid_stride(b))
}

/// Rows of a block's grid.
pub open spec fn grid_rows(b: Block) -> int {
    ceil_div(height(b), grid_stride(b))
}

/// Is the block's end not before its start?
pub open spec fn ordered(b: Block) -> bool {
    b.0 <= b.2 && b.1 <= b.3
}

fn div_up(n: u32, d: u32) -> (q: u32)
    requires
        n <= 0xFFFF,
        d >= 1,
    ensures
        q == ceil_div(n as int, d as int),
        q <= n,
{
    let q: u32 = n / d;
    proof {
        lemma_ceil(n as int, d as int);
    }
    if q * d < n {
        q + 1
    } else {
        q
    }
}

proof fn lemma_ceil(n: int, d: int)
    requires
        n >= 0,
        d >= 1,
    ensures
        (n / d) * d <= n,
        (n / d) * d < n ==> ceil_div(n, d) == n / d + 1,
        (n / d) * d == n ==> ceil_div(n, d) == n / d,
        0 <= ceil_div(n, d) <= n,
        ceil_div(n, d) * d >= n,
        n >= 1 ==> ceil_div(n, d) >= 1,
{
    let q = n / d;
    assert(n == q * d + n % d && 0 <= n % d < d) by (nonlinear_arith)
        requires
            n >= 0,
            d >= 1,
            q == n / d,
    ;
    let r = n % d;
    assert(q >= 0) by (nonlinear_arith)
        requires
            n >= 0,
            d >= 1,
            q == n / d,
    ;
    if r > 0 {
        assert((q * d + r + d - 1) / d == q + 1) by (nonlinear_arith)
            requires
                d >= 1,
                1 <= r < d,
        ;
        assert((q + 1) * d >= q * d + r) by (nonlinear_arith)
            requires
                r <= d,
        ;
        assert(q + 1 <= q * d + r) by (nonlinear_arith)
            requires
                d >= 1,
                r >= 1,
                q >= 0,
        ;
    } else {
        assert((q * d + d - 1) / d == q) by (nonlinear_arith)
            requires
                d >= 1,
        ;
        assert(q <= q * d) by (nonlinear_arith)
            requires
                d >= 1,
                q >= 0,
        ;
        assert(n >= 1 ==> q >= 1) by (nonlinear_arith)
            requires
                n == q * d,
                q >= 0,
        ;
    }
}

/// Do the two rows and the count describe the block? Its corner; so many columns
/// and rows that they span it and one fewer would not; the stride; and their
/// product.
pub open spec fn describes(b: Block, head: Seq<u32>, tail: Seq<u32>, samples: int) -> bool {
    &&& head.len() == 4 && tail.len() == 4
    &&& head[0] == b.0 && head[1] == b.1
    &&& tail[0] >= 1
    &&& spans(head[2] as int, tail[0] as int, b.2 - b.0)
    &&& spans(head[3] as int, tail[0] as int, b.3 - b.1)
    &&& samples == head[2] * head[3]
    &&& tail[1] == 0 && tail[2] == 0 && tail[3] == 0
}

/// Do `n` samples, `stride` apart from the first pixel on, span `len` pixels, and
/// one fewer would not?
pub open spec fn spans(n: int, stride: int, len: int) -> bool {
    len <= n * stride < len + stride
}

/// Sampling parameters per LED: the block table for the shader, two rows per
/// LED (left, top, columns, rows; stride), and the per-LED sample counts.
pub fn block_dispatch(blocks: &[Block; 48]) -> (out: (Vec<[u32; 4]>, [u32; 48]))
    requires
        forall|i: int| 0 <= i < 48 ==> ordered(#[trigger] blocks@[i]),
    ensures
        out.0@.len() == 96,
        forall|i: int|
            #![trigger blocks@[i]]
            0 <= i < 48 ==> {
                let b = blocks@[i];
                &&& out.0@[2 * i]@ == seq![
                    b.0 as u32,
                    b.1 as u32,
                    grid_columns(b) as u32,
                    grid_rows(b) as u32,
                ]
                &&& out.0@[2 * i + 1]@ == seq![grid_stride(b) as u32, 0u32, 0u32, 0u32]
                &&& out.1@[i] == grid_columns(b) * grid_rows(b)
                &&& describes(b, out.0@[2 * i]@, out.0@[2 * i + 1]@, out.1@[i] as int)
            },
{
    let mut data: Vec<[u32; 4]> = Vec::with_capacity(96);
    let mut counts: [u32; 48] = [0;48];
    let mut i: usize = 0;
    while i < 48
        invariant
            i <= 48,
            data@.len() == 2 * i,
            forall|j: int| 0 <= j < 48 ==> ordered(#[trigger] blocks@[j]),
            forall|j: int|
                #![trigger blocks@[j]]
                0 <= j < i ==> {
                    let b = blocks@[j];
                    &&& data@[2 * j]@ == seq![
                        b.0 as u32,
                        b.1 as u32,
                        grid_columns(b) as u32,
                        grid_rows(b) as u32,
                    ]
                    &&& data@[2 * j + 1]@ == seq![grid_stride(b) as u32, 0u32, 0u32, 0u32]
                    &&& counts@[j] == grid_columns(b) * grid_rows(b)
                    &&& describes(b, data@[2 * j]@, data@[2 * j + 1]@, counts@[j] as int)
                },
        decreases 48 - i,
    {
        let (x0, y0, x1, y1) = blocks[i];
        assert(ordered(blocks@[i as int]));
        let w: u32 = (x1 - x0) as u32;
        let h: u32 = (y1 - y0) as u32;
        assert(w * h <= 0xFFFF * 0xFFFF) by (nonlinear_arith)
            requires
                w <= 0xFFFF,
                h <= 0xFFFF,
        ;
        let area: usize = (w * h) as usize;
        let stride: usize = block_stride(area);
        proof {
            if area >= 4096 {
                assert(stride <= area) by (nonlinear_arith)
                    requires
                        stride * stride <= area / 4096,
                        stride >= 1,
                ;
            }
        }
        let stride: u32 = stride as u32;
        let columns: u32 = div_up(w, stride);
        let rows: u32 = div_up(h, stride);
        let ghost before = data@;
        let head: [u32; 4] = [x0 as u32, y0 as u32, columns, rows];
        let tail: [u32; 4] = [stride, 0, 0, 0];
        data.push(head);
        data.push(tail);
        assert(columns * rows <= 0xFFFF * 0xFFFF) by (nonlinear_arith)
            requires
                columns <= 0xFFFF,
                rows <= 0xFFFF,
        ;
        counts[i] = columns * rows;
        proof {
            let b = blocks@[i as int];
            assert(head@ =~= seq![
                b.0 as u32,
                b.1 as u32,
                grid_columns(b) as u32,
                grid_rows(b) as u32,
            ]);
            assert(tail@ =~= seq![grid_stride(b) as u32, 0u32, 0u32, 0u32]);
            lemma_spans(width(b), grid_stride(b));
            lemma_spans(height(b), grid_stride(b));
            assert(describes(b, head@, tail@, columns * rows));
            assert forall|j: int| #![trigger data@[j]] 0 <= j < before.len() implies data@[j]
                == before[j] by {}
        }
        i = i + 1;
    }
    (data, counts)
}

proof fn lemma_spans(n: int, d: int)
    requires
        n >= 0,
        d >= 1,
    ensures
        spans(ceil_div(n, d), d, n),
{
    lemma_ceil(n, d);
    let q = n / d;
    assert((q + 1) * d == q * d + d) by (nonlinear_arith);
}

/// The color sums in the shader's result rows.
pub fn sums_of_rows(rows: &[[u32; 4]; 48]) -> (sums: [[u32; 3]; 48])
    ensures
        forall|i: int|
            #![trigger sums@[i]]
            0 <= i < 48 ==> sums@[i]@ == rows@[i]@.take(3),
{
    let mut sums: [[u32; 3]; 48] = [[0u32;3];48];
    let mut i: usize = 0;
    while i < 48
        invariant
            i <= 48,
            forall|j: int|
                #![trigger sums@[j]]
                0 <= j < i ==> sums@[j]@ == rows@[j]@.take(3),
        decreases 48 - i,
    {
        let row = rows[i];
        let sum: [u32; 3] = [row[0], row[1], row[2]];
        assert(sum@ =~= row@.take(3));
        sums[i] = sum;
        i = i + 1;
    }
    sums
}

proof fn lemma_area(b: Block)
    requires
        ordered(b),
    ensures
        0 <= width(b) * height(b) <= 0xFFFF * 0xFFFF,
{
    assert(0 <= width(b) * height(b) <= 0xFFFF * 0xFFFF) by (nonlinear_arith)
        requires
            0 <= width(b) <= 0xFFFF,
            0 <= height(b) <= 0xFFFF,
    ;
}

/// A block of fewer than 16384 pixels is read pixel by pixel.
pub proof fn small_blocks_are_read_pixel_by_pixel(b: Block)
    requires
        ordered(b),
        width(b) * height(b) < 16384,
    ensures
        grid_stride(b) == 1,
        grid_columns(b) == width(b),
        grid_rows(b) == height(b),
{
    let area = width(b) * height(b);
    lemma_area(b);
    sampling::lemma_stride(area);
    if area >= 4096 {
        assert(sampling::is_isqrt(1, area / 4096));
        sampling::lemma_isqrt_unique(1, sampling::stride_of(area), area / 4096);
    }
}

/// The grid spans its block: every pixel column and every pixel row lies within
/// a stride of a sample.
pub proof fn the_grid_spans_the_block(b: Block)
    requires
        ordered(b),
    ensures
        grid_columns(b) * grid_stride(b) >= width(b),
        grid_rows(b) * grid_stride(b) >= height(b),
        width(b) >= 1 ==> grid_columns(b) >= 1,
        height(b) >= 1 ==> grid_rows(b) >= 1,
{
    lemma_area(b);
    sampling::lemma_stride(width(b) * height(b));
    lemma_ceil(width(b), grid_stride(b));
    lemma_ceil(height(b), grid_stride(b));
}

/// A large block keeps at least 4096 samples.
pub proof fn large_blocks_keep_enough_samples(b: Block)
    requires
        ordered(b),
        width(b) * height(b) >= 4096,
    ensures
        grid_columns(b) * grid_rows(b) >= 4096,
{
    let s = grid_stride(b);
    let w = width(b);
    let h = height(b);
    let c = grid_columns(b);
    let r = grid_rows(b);
    lemma_area(b);
    sampling::lemma_stride(w * h);
    the_grid_spans_the_block(b);
    lemma_ceil(w, s);
    lemma_ceil(h, s);
    assert((c * s) * (r * s) >= w * h) by (nonlinear_arith)
        requires
            c * s >= w,
            r * s >= h,
            w >= 0,
            h >= 0,
    ;
    assert((c * s) * (r * s) == (c * r) * (s * s)) by (nonlinear_arith);
    assert(w * h >= 4096 * (s * s));
    assert(s * s >= 1) by (nonlinear_arith)
        requires
            s >= 1,
    ;
    assert(c * r >= 4096) by (nonlinear_arith)
        requires
            (c * r) * (s * s) >= 4096 * (s * s),
            s * s >= 1,
    ;
}

/// The grid starts at its block's corner and ends within it: a column or a row
/// fewer would not span the block.
pub proof fn the_grid_fits_the_block(b: Block)
    requires
        ordered(b),
    ensures
        b.2 > b.0 ==> (grid_columns(b) - 1) * grid_stride(b) < b.2 - b.0 <= grid_columns(b)
            * grid_stride(b),
        b.3 > b.1 ==> (grid_rows(b) - 1) * grid_stride(b) < b.3 - b.1 <= grid_rows(b)
            * grid_stride(b),
        b.2 == b.0 ==> grid_columns(b) == 0,
        b.3 == b.1 ==> grid_rows(b) == 0,
{
    lemma_area(b);
    sampling::lemma_stride(width(b) * height(b));
    lemma_last_sample(b.2 - b.0, grid_stride(b));
    lemma_last_sample(b.3 - b.1, grid_stride(b));
}

proof fn lemma_last_sample(n: int, d: int)
    requires
        n >= 0,
        d >= 1,
    ensures
        (ceil_div(n, d) - 1) * d < n || n == 0,
        n <= ceil_div(n, d) * d,
        n == 0 ==> ceil_div(n, d) == 0,
{
    lemma_ceil(n, d);
    let q = n / d;
    if (n / d) * d < n {
        assert((q + 1 - 1) * d == q * d) by (nonlinear_arith);
    } else {
        assert((q - 1) * d == q * d - d) by (nonlinear_arith);
    }
}

/// The grid's stride is the whole root of the block's pixels in units of 4096,
/// at least 1.
pub proof fn the_stride_follows_the_area(b: Block, area: int)
    requires
        ordered(b),
        area == (b.2 - b.0) * (b.3 - b.1),
    ensures
        ({
            let s = grid_stride(b);
            &&& s >= 1
            &&& area < 4096 ==> s == 1
            &&& area >= 4096 ==> 4096 * (s * s) <= area < 4096 * ((s + 1) * (s + 1))
        }),
{
    lemma_area(b);
    sampling::lemma_stride(area);
}

/// The samples that the rows describe lie in the block, from its corner on, and
/// another column or row would not.
pub proof fn samples_lie_in_the_block(
    b: Block,
    head: Seq<u32>,
    tail: Seq<u32>,
    samples: int,
    column: int,
    row: int,
)
    requires
        ordered(b),
        describes(b, head, tail, samples),
        0 <= column,
        0 <= row,
    ensures
        head[0] == b.0 && head[1] == b.1,
        column < head[2] <==> head[0] + column * tail[0] < b.2,
        row < head[3] <==> head[1] + row * tail[0] < b.3,
        samples == head[2] * head[3],
{
    lemma_within(column, head[2] as int, tail[0] as int, b.2 - b.0);
    lemma_within(row, head[3] as int, tail[0] as int, b.3 - b.1);
}

proof fn lemma_within(k: int, n: int, stride: int, len: int)
    requires
        spans(n, stride, len),
        stride >= 1,
        0 <= k,
    ensures
        k < n <==> k * stride < len,
{
    if k < n {
        assert(k * stride <= n * stride - stride) by (nonlinear_arith)
            requires
                k + 1 <= n,
                stride >= 1,
        ;
    } else {
        assert(k * stride >= n * stride) by (nonlinear_arith)
            requires
                k >= n,
                stride >= 1,
        ;
    }
}

} // verus!
