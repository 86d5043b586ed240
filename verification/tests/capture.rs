use lg_ultragear_rgb_control::capture::{
    classify, dirty_overlaps_blocks, find_lg_output, hdr_of_format, is_rgb_model, is_rgb_monitor,
    model_name, monitor_model, other_err, output_info, pick_output, text_len, wide_str,
    CaptureError, DesktopMode, GrabAction, GrabEvent, Grabber, OutputInfo, Rect,
    DXGI_ERROR_ACCESS_LOST, DXGI_ERROR_INVALID_CALL, DXGI_ERROR_MORE_DATA,
    DXGI_ERROR_WAIT_TIMEOUT,
};

fn output(name: &str, is_primary: bool) -> OutputInfo {
    OutputInfo { name: name.to_string(), is_primary }
}

fn wide(s: &str, len: usize) -> Vec<u16> {
    let mut units: Vec<u16> = s.encode_utf16().collect();
    units.resize(len, 0);
    units
}

#[test]
fn models_are_matched_without_case() {
    assert!(is_rgb_monitor("LG ULTRAGEAR 27GN950-B"));
    assert!(is_rgb_monitor("38GL950G"));
    assert!(is_rgb_monitor("38gn950"));
    assert!(!is_rgb_monitor("LG ULTRAGEAR 27GP850"));
    assert!(is_rgb_model("xx27gn950yy"));
    assert!(!is_rgb_model("27GN950"));
    assert!(!is_rgb_model(""));
}

#[test]
fn wide_fields_end_at_the_nul() {
    let field = wide("\\\\.\\DISPLAY1", 32);
    assert_eq!(text_len(&field), 12);
    assert_eq!(wide_str(&field), "\\\\.\\DISPLAY1");
    assert_eq!(wide_str(&[65, 66]), "AB");
    assert_eq!(wide_str(&[0, 65]), "");
    assert_eq!(wide_str(&[0xD83D, 0xDE00, 0]), "\u{1F600}");
    assert_eq!(wide_str(&[0xD83D, 65]), "\u{FFFD}A");
    // Every half that stands alone is replaced, and only that.
    assert_eq!(wide_str(&[0xDE00, 65]), "\u{FFFD}A");
    assert_eq!(wide_str(&[65, 0xD83D]), "A\u{FFFD}");
    assert_eq!(wide_str(&[0xD83D, 0xD83D]), "\u{FFFD}\u{FFFD}");
    assert_eq!(wide_str(&[0xD83D, 0xD83D, 0xDE00]), "\u{FFFD}\u{1F600}");
    assert_eq!(wide_str(&[0xDE00, 0xD83D, 0xDE00, 0xDE00]), "\u{FFFD}\u{1F600}\u{FFFD}");
    assert_eq!(wide_str(&[0xD800, 0xDC00]), "\u{10000}");
    assert_eq!(wide_str(&[0xDBFF, 0xDFFF]), "\u{10FFFF}");
    assert_eq!(wide_str(&[0xD7FF, 0xE000, 0xFFFF]), "\u{D7FF}\u{E000}\u{FFFF}");
    for text in ["", "LG UltraGear", "\u{e9}\u{1F600}\u{10FFFF}z"] {
        assert_eq!(wide_str(&wide(text, 40)), text);
    }
}

#[test]
fn descriptors_become_outputs() {
    let field = wide("D1", 8);
    assert!(output_info(false, &field, 0, 0).is_none());
    let primary = output_info(true, &field, 0, 0).unwrap();
    assert_eq!((primary.name.as_str(), primary.is_primary), ("D1", true));
    assert!(!output_info(true, &field, 1920, 0).unwrap().is_primary);
    assert!(!output_info(true, &field, 0, -5).unwrap().is_primary);
    assert_eq!(model_name(true, &wide("M", 4)), Some("M".to_string()));
    assert_eq!(model_name(true, &[0, 0]), None);
    assert_eq!(model_name(false, &wide("M", 4)), None);
}

#[test]
fn the_first_entry_of_a_name_gives_its_model() {
    let models = vec![
        ("A".to_string(), None),
        ("B".to_string(), Some("first".to_string())),
        ("B".to_string(), Some("second".to_string())),
    ];
    assert_eq!(monitor_model("B", &models), Some("first".to_string()));
    assert_eq!(monitor_model("A", &models), None);
    assert_eq!(monitor_model("C", &models), None);
}

#[test]
fn the_strip_monitor_is_found_and_the_primary_wins() {
    let models = vec![
        ("A".to_string(), Some("Dell".to_string())),
        ("B".to_string(), Some("LG 27GN950".to_string())),
        ("C".to_string(), Some("LG 38GN950".to_string())),
    ];
    let outputs = vec![output("A", false), output("B", false), output("C", true)];
    assert_eq!(find_lg_output(&outputs, &models).unwrap().name, "C");
    let outputs = vec![output("A", true), output("B", false), output("C", false)];
    assert_eq!(find_lg_output(&outputs, &models).unwrap().name, "B");
    assert!(find_lg_output(&vec![output("A", true)], &models).is_none());
    assert!(find_lg_output(&Vec::new(), &models).is_none());
    assert_eq!(
        pick_output(&vec![output("A", true), output("B", false)], &vec![false, true]),
        Some(1)
    );
}

#[test]
fn failures_are_classified() {
    assert!(matches!(classify(DXGI_ERROR_ACCESS_LOST, "x"), CaptureError::AccessLost));
    assert!(matches!(classify(DXGI_ERROR_INVALID_CALL, "x"), CaptureError::AccessLost));
    let other = classify(0x80004005, "boom");
    assert!(matches!(other, CaptureError::Other(_)));
    assert_eq!(other.message(), "DXGI error: boom");
    assert_eq!(other_err("cast", "bad").message(), "cast: bad");
    assert_eq!(CaptureError::AccessLost.message(), "duplication access lost");
    assert_eq!(
        CaptureError::ModeChanged.message(),
        "desktop mode changed under the duplication"
    );
    assert_eq!(CaptureError::Gpu("no".to_string()).message(), "no");
}

#[test]
fn formats_tell_hdr() {
    assert!(matches!(hdr_of_format(87), Ok(false)));
    assert!(matches!(hdr_of_format(10), Ok(true)));
    match hdr_of_format(24) {
        Err(e) => assert_eq!(e.message(), "unsupported desktop format DXGI_FORMAT(24)"),
        Ok(_) => panic!("format 24 accepted"),
    }
    for (format, text) in [
        (0x7FFF_FFFFu32, "2147483647"),
        (0x8000_0000, "-2147483648"),
        (0xFFFF_FFFF, "-1"),
    ] {
        let message = hdr_of_format(format).err().map(|e| e.message());
        assert_eq!(message, Some(format!("unsupported desktop format DXGI_FORMAT({text})")));
    }
}

fn rect(left: i32, top: i32, right: i32, bottom: i32) -> Rect {
    Rect { left, top, right, bottom }
}

#[test]
fn dirty_rects_hit_blocks_they_overlap() {
    let blocks = [(10u16, 10u16, 20u16, 20u16), (100, 100, 110, 110)];
    assert!(dirty_overlaps_blocks(&[rect(0, 0, 11, 11)], &blocks));
    assert!(!dirty_overlaps_blocks(&[rect(0, 0, 10, 10)], &blocks));
    assert!(!dirty_overlaps_blocks(&[rect(20, 10, 30, 20)], &blocks));
    assert!(dirty_overlaps_blocks(&[rect(0, 0, 1, 1), rect(-5, 105, 500, 106)], &blocks));
    assert!(!dirty_overlaps_blocks(&[], &blocks));
    assert!(!dirty_overlaps_blocks(&[rect(0, 0, 500, 500)], &[]));
}

const MODE: DesktopMode = DesktopMode { width: 3840, height: 2160, format: 87 };

fn acquire(g: &mut Grabber) {
    assert_eq!(g.frame(GrabEvent::Begin), GrabAction::Describe);
    assert_eq!(g.frame(GrabEvent::Described(MODE)), GrabAction::Acquire);
}

#[test]
fn a_new_frame_is_inspected_averaged_and_released() {
    let mut g = Grabber::new(MODE);
    acquire(&mut g);
    let got = GrabEvent::Acquired { present_time: 7, has_resource: true };
    assert_eq!(g.frame(got), GrabAction::QueryDirtyRects);
    assert!(g.held);
    assert_eq!(g.frame(GrabEvent::DirtyRects(false)), GrabAction::Average);
    assert_eq!(g.frame(GrabEvent::Averaged(true)), GrabAction::Release);
    assert_eq!(g.frame(GrabEvent::Released), GrabAction::NewFrame { dirty_hit: false });
    assert!(!g.held);
}

#[test]
fn unreadable_dirty_rects_count_as_a_hit() {
    let mut g = Grabber::new(MODE);
    acquire(&mut g);
    g.frame(GrabEvent::Acquired { present_time: 7, has_resource: true });
    assert_eq!(g.frame(GrabEvent::DirtyFailed(DXGI_ERROR_MORE_DATA)), GrabAction::QueryAgain);
    assert_eq!(g.frame(GrabEvent::DirtyFailed(DXGI_ERROR_MORE_DATA)), GrabAction::Average);
    g.frame(GrabEvent::Averaged(true));
    assert_eq!(g.frame(GrabEvent::Released), GrabAction::NewFrame { dirty_hit: true });
    acquire(&mut g);
    g.frame(GrabEvent::Acquired { present_time: 7, has_resource: true });
    assert_eq!(g.frame(GrabEvent::DirtyFailed(1)), GrabAction::Average);
}

#[test]
fn cursor_frames_and_timeouts_are_no_frames() {
    let mut g = Grabber::new(MODE);
    acquire(&mut g);
    let cursor = GrabEvent::Acquired { present_time: 0, has_resource: true };
    assert_eq!(g.frame(cursor), GrabAction::Release);
    assert_eq!(g.frame(GrabEvent::Released), GrabAction::NoFrame);
    acquire(&mut g);
    assert_eq!(g.frame(GrabEvent::AcquireFailed(DXGI_ERROR_WAIT_TIMEOUT)), GrabAction::NoFrame);
    acquire(&mut g);
    assert_eq!(
        g.frame(GrabEvent::AcquireFailed(DXGI_ERROR_ACCESS_LOST)),
        GrabAction::AccessLost
    );
    acquire(&mut g);
    assert_eq!(g.frame(GrabEvent::AcquireFailed(5)), GrabAction::Failed);
}

#[test]
fn a_frame_left_held_is_released_first() {
    let mut g = Grabber::new(MODE);
    acquire(&mut g);
    let empty = GrabEvent::Acquired { present_time: 7, has_resource: false };
    assert_eq!(g.frame(empty), GrabAction::NoResource);
    assert!(g.held);
    g.frame(GrabEvent::Begin);
    assert_eq!(g.frame(GrabEvent::Described(MODE)), GrabAction::Release);
    assert_eq!(g.frame(GrabEvent::Released), GrabAction::Acquire);
    assert!(!g.held);
    g.frame(GrabEvent::Acquired { present_time: 7, has_resource: true });
    g.frame(GrabEvent::DirtyRects(true));
    assert_eq!(g.frame(GrabEvent::Averaged(false)), GrabAction::Failed);
    assert!(g.held);
}

#[test]
fn a_new_desktop_mode_is_noticed() {
    let mut g = Grabber::new(MODE);
    for mode in [
        DesktopMode { width: 1920, ..MODE },
        DesktopMode { height: 1080, ..MODE },
        DesktopMode { format: 10, ..MODE },
    ] {
        g.frame(GrabEvent::Begin);
        assert_eq!(g.frame(GrabEvent::Described(mode)), GrabAction::ModeChanged);
    }
}

#[test]
fn grab_events_out_of_order_fail_the_grab() {
    let mut g = Grabber::new(MODE);
    assert_eq!(g.frame(GrabEvent::Released), GrabAction::Failed);
    acquire(&mut g);
}
