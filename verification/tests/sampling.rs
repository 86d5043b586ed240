use lg_ultragear_rgb_control::compute::{block_dispatch, sums_of_rows, supports_compute};
use lg_ultragear_rgb_control::sampling::{
    block_stride, build_sample_blocks, finalize, full_screen_blocks, perimeter_points, SamplingMode,
};
use lg_ultragear_rgb_control::usb_protocol::RGBColor;

/// The floating-point side of the sampler: boost the averages, blend with the
/// envelope, and hand both to the library.
fn sample(
    sums: &[[u32; 3]; 48],
    counts: &[u32; 48],
    prev: &mut [[u8; 3]; 48],
    first_frame: &mut bool,
    smoothing: f32,
    boost: f32,
) -> [RGBColor; 48] {
    let mut boosted = [[0u8; 3]; 48];
    let mut mixed = [[0u8; 3]; 48];
    for i in 0..48 {
        let n = counts[i];
        if n == 0 {
            continue;
        }
        for k in 0..3 {
            let v = (sums[i][k] as f32 * boost / n as f32).min(255.0) as u8;
            boosted[i][k] = v;
            mixed[i][k] = (smoothing * prev[i][k] as f32 + (1.0 - smoothing) * v as f32) as u8;
        }
    }
    finalize(&boosted, &mixed, counts, prev, first_frame)
}

#[test]
fn every_mode_yields_48_valid_blocks() {
    for mode in [
        SamplingMode::Border5,
        SamplingMode::Border15,
        SamplingMode::Full,
    ] {
        let blocks = build_sample_blocks(1920, 1080, mode);
        assert_eq!(blocks.len(), 48);
        for (x0, y0, x1, y1) in blocks {
            assert!(
                x1 > x0 && y1 > y0,
                "degenerate block {mode:?} {x0},{y0},{x1},{y1}"
            );
            assert!(x1 <= 1920 && y1 <= 1080, "out of bounds {mode:?}");
        }
    }
}

#[test]
fn full_screen_blocks_tile_the_screen() {
    // (w, h, cx, cy) = (1920, 1080, 960, 540). The five groups tile the
    // screen: sums of widths/heights per group must add up exactly.
    let (w, h) = (1920usize, 1080usize);
    let (cx, cy) = (w / 2, h / 2);
    let blocks = full_screen_blocks(w, h);
    let (mut tr, mut right, mut bottom, mut left, mut tl) = (0, 0, 0, 0, 0);
    for (i, &(x0, y0, x1, y1)) in blocks.iter().enumerate() {
        match i {
            0..7 => {
                assert_eq!((y0, y1), (0, cy as u16));
                tr += (x1 - x0) as usize;
            }
            7..17 => {
                assert_eq!((x0, x1), (cx as u16, w as u16));
                right += (y1 - y0) as usize;
            }
            17..31 => {
                assert_eq!((y0, y1), (cy as u16, h as u16));
                bottom += (x1 - x0) as usize;
            }
            31..41 => {
                assert_eq!((x0, x1), (0, cx as u16));
                left += (y1 - y0) as usize;
            }
            41..48 => {
                assert_eq!((y0, y1), (0, cy as u16));
                tl += (x1 - x0) as usize;
            }
            _ => unreachable!(),
        }
    }
    assert_eq!(tr, w - cx);
    assert_eq!(tl, cx);
    assert_eq!(bottom, w);
    assert_eq!(right, h);
    assert_eq!(left, h);
}

#[test]
fn finalize_average_boost_and_smoothing() {
    let mut prev = [[0u8; 3]; 48];
    let mut first = true;
    let counts = [4u32; 48];

    // First frame, no smoothing, 1.0x boost: exact average of 4 samples
    // of (30, 20, 10).
    let sums = [[(30 * 4) as u32, (20 * 4) as u32, (10 * 4) as u32]; 48];
    let out = sample(&sums, &counts, &mut prev, &mut first, 0.0, 1.0);
    assert!(out.iter().all(|c| (c.r, c.g, c.b) == (30, 20, 10)));

    // Second frame of pure red (100, 0, 0) with smoothing 0.5:
    // mix = 0.5*prev + 0.5*new per channel.
    let red = [[(100 * 4) as u32, 0, 0]; 48];
    let out = sample(&red, &counts, &mut prev, &mut first, 0.5, 1.0);
    assert!(out.iter().all(|c| (c.r, c.g, c.b) == (65, 10, 5)));

    // Boost 2.0x: average 100 -> 200 (no clamp needed here).
    let out = sample(&red, &counts, &mut prev, &mut first, 0.0, 2.0);
    assert!(out.iter().all(|c| (c.r, c.g, c.b) == (200, 0, 0)));
}

#[test]
fn finalize_skips_zero_count_blocks() {
    let mut counts = [4u32; 48];
    counts[7] = 0;
    let mut prev = [[9u8; 3]; 48];
    let mut first = true;
    let sums = [[120u32, 0, 0]; 48];
    let out = sample(&sums, &counts, &mut prev, &mut first, 0.0, 1.0);
    assert_eq!((out[7].r, out[7].g, out[7].b), (0, 0, 0)); // skipped
    assert_eq!(prev[7], [9, 9, 9]); // envelope state untouched
    assert_eq!((out[0].r, out[0].g, out[0].b), (30, 0, 0)); // 120/4
}

#[test]
fn the_stride_is_a_single_precision_root() {
    assert_eq!(block_stride(0), 1);
    assert_eq!(block_stride(4095), 1);
    assert_eq!(block_stride(4096), 1);
    assert_eq!(block_stride(4 * 4096 - 1), 1);
    assert_eq!(block_stride(4 * 4096), 2);
    assert_eq!(block_stride(9 * 4096), 3);
    assert_eq!(block_stride(1920 * 1080), 22);
    assert_eq!(block_stride(68_753_031_168), 4097);
    assert_eq!(block_stride(usize::MAX), 1 << 26);
    let float = |area: usize| (((area / 4096) as f32).sqrt() as usize).max(1);
    for area in [5000usize, 70_000, 518_400, 2_073_600, 8_294_400, 33_177_600] {
        assert_eq!(block_stride(area), float(area));
    }
    // Around perfect squares of every size, and around every power of two.
    for bits in 0..26 {
        for step in 0..64usize {
            let root = (1usize << bits) + step * ((1usize << bits) / 64 + 1);
            for near in [root * root - 1, root * root, root * root + 1] {
                if near < 1 << 52 {
                    assert_eq!(block_stride(near * 4096), float(near * 4096), "{near}");
                    assert_eq!(block_stride(near * 4096 + 4095), float(near * 4096 + 4095));
                }
            }
        }
    }
    for bits in 0..64 {
        let power = 1usize << bits;
        for near in [power - 1, power, power + power / 3, power + power / 2, power + 12345] {
            assert_eq!(block_stride(near), float(near), "{near}");
        }
    }
}

#[test]
fn the_ring_sits_at_its_inset() {
    let points = perimeter_points(1000, 500, 5);
    // Inset 50 x 25: the walk starts at the top center and runs clockwise.
    assert_eq!(points[0], (500, 25));
    assert_eq!(points[7], (950, 25));
    assert_eq!(points[17], (950, 475));
    assert_eq!(points[31], (50, 475));
    assert_eq!(points[41], (50, 25));
    // A tiny screen keeps the ring inside.
    assert_eq!(perimeter_points(4, 4, 5)[0], (2, 1));
}

#[test]
fn border_blocks_run_opposite_to_the_walk() {
    let points = perimeter_points(1200, 680, 15);
    let blocks = build_sample_blocks(1200, 680, SamplingMode::Border15);
    // 10 x 10 pixels around each point, in reverse order.
    let (x, y) = points[47];
    assert_eq!(blocks[0], (x as u16 - 5, y as u16 - 5, x as u16 + 5, y as u16 + 5));
    let (x, y) = points[0];
    assert_eq!(blocks[47], (x as u16 - 5, y as u16 - 5, x as u16 + 5, y as u16 + 5));
}

#[test]
fn a_screen_of_one_pixel_still_has_border_blocks() {
    for block in build_sample_blocks(1, 1, SamplingMode::Border5) {
        assert_eq!(block, (0, 0, 1, 1));
    }
}

#[test]
fn tiny_screens_break_the_full_screen_strips() {
    let blocks = full_screen_blocks(5, 5);
    assert!(blocks.iter().any(|&(_, _, x1, y1)| x1 > 5 || y1 > 5));
    let enough = full_screen_blocks(14, 10);
    assert!(enough
        .iter()
        .all(|&(x0, y0, x1, y1)| x0 < x1 && y0 < y1 && x1 <= 14 && y1 <= 10));
}

#[test]
fn every_pixel_is_in_one_vertical_and_one_horizontal_strip() {
    let blocks = full_screen_blocks(47, 31);
    for y in 0..31u16 {
        for x in 0..47u16 {
            let hits: Vec<usize> = (0..48)
                .filter(|&i| {
                    let (x0, y0, x1, y1) = blocks[i];
                    x0 <= x && x < x1 && y0 <= y && y < y1
                })
                .collect();
            assert_eq!(hits.len(), 2);
            let vertical = |i: usize| i < 7 || (17..31).contains(&i) || i >= 41;
            assert_eq!(hits.iter().filter(|&&i| vertical(i)).count(), 1);
        }
    }
}

#[test]
fn dispatch_tables_describe_the_grid() {
    let mut blocks = [(0u16, 0u16, 10u16, 10u16); 48];
    blocks[1] = (100, 50, 1060, 590);
    let (data, counts) = block_dispatch(&blocks);
    assert_eq!(data.len(), 96);
    // Small: pixel by pixel.
    assert_eq!(data[0], [0, 0, 10, 10]);
    assert_eq!(data[1], [1, 0, 0, 0]);
    assert_eq!(counts[0], 100);
    // 960 x 540 = 518400: stride 11, 88 x 50 samples.
    assert_eq!(data[2], [100, 50, 88, 50]);
    assert_eq!(data[3], [11, 0, 0, 0]);
    assert_eq!(counts[1], 4400);
}

#[test]
fn result_rows_hold_the_sums() {
    let mut rows = [[0u32; 4]; 48];
    rows[3] = [1, 2, 3, 4];
    let sums = sums_of_rows(&rows);
    assert_eq!(sums[3], [1, 2, 3]);
    assert_eq!(sums[0], [0, 0, 0]);
    assert!(supports_compute(0xB000));
    assert!(!supports_compute(0xA100));
}

#[test]
fn the_ring_goes_as_deep_as_a_quarter() {
    let points = perimeter_points(1000, 400, 25);
    assert_eq!(points[0], (500, 100));
    assert_eq!(points[7], (750, 100));
    assert_eq!(points[17], (750, 300));
    assert_eq!(points[31], (250, 300));
    assert_eq!(points[41], (250, 100));
    assert_eq!(perimeter_points(1000, 400, 20)[7], (800, 80));
    // Deeper than a quarter is a quarter.
    assert_eq!(perimeter_points(1000, 400, 90), points);
    for i in 1..7 {
        assert!(points[i].0 >= points[i - 1].0 && points[41 + i].0 >= points[40 + i].0);
    }
    for i in 18..31 {
        assert!(points[i].0 <= points[i - 1].0 && points[i].1 == 300);
    }
}
