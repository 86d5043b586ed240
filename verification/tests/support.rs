use lg_ultragear_rgb_control::color_dialog::{pack, pick_custom_color, unpack};
use lg_ultragear_rgb_control::events::{
    drain, keeps_pumping, notice_of, EventQueue, Notice, CHANGED_EVENT, DBT_DEVICEARRIVAL,
    DBT_DEVICEREMOVECOMPLETE, DBT_DEVTYP_DEVICEINTERFACE, PBT_APMRESUMEAUTOMATIC,
    PBT_APMRESUMESUSPEND, RESUME_EVENT, WM_DEVICECHANGE, WM_DISPLAYCHANGE, WM_POWERBROADCAST,
};
use lg_ultragear_rgb_control::factor;
use lg_ultragear_rgb_control::i18n::{language_at, language_index, Language};
use lg_ultragear_rgb_control::picker::{
    accepted_color, entered_color, hex_text, parse_triple, resolve, result_id, PickerRequest,
    PickerWindow,
};
use lg_ultragear_rgb_control::settings::{
    autostart_command, autostart_value, load, SaveLog, SaveSchedule, Settings,
};
use lg_ultragear_rgb_control::stats::{map_percentiles, saturated, FrameStats, Ring, Stage};
use lg_ultragear_rgb_control::text;

#[test]
fn factors_are_the_numbers_they_are_named_after() {
    for (bits, v) in [
        (factor::ZERO, 0.0f32),
        (factor::F_0_04, 0.04),
        (factor::F_0_15, 0.15),
        (factor::F_0_2, 0.2),
        (factor::F_0_35, 0.35),
        (factor::F_0_4, 0.4),
        (factor::F_0_5, 0.5),
        (factor::F_0_55, 0.55),
        (factor::F_0_6, 0.6),
        (factor::F_0_9, 0.9),
        (factor::F_1_0, 1.0),
        (factor::F_1_2, 1.2),
        (factor::F_1_5, 1.5),
        (factor::F_2_0, 2.0),
        (factor::F_2_2, 2.2),
        (factor::F_2_4, 2.4),
        (factor::F_3_0, 3.0),
        (factor::F_3_5, 3.5),
    ] {
        assert_eq!(bits, v.to_bits());
    }
}

#[test]
fn dialog_colors_are_packed_blue_first() {
    assert_eq!(pack(Some([0x12, 0x34, 0x56])), 0x563412);
    assert_eq!(pack(None), 0xFFFFFF);
    assert_eq!(unpack(0x563412), [0x12, 0x34, 0x56]);
    assert_eq!(unpack(0xFF563412), [0x12, 0x34, 0x56]);
    assert_eq!(pick_custom_color(true, 0x0000FF), Some([255, 0, 0]));
    assert_eq!(pick_custom_color(false, 0x0000FF), None);
}

#[test]
fn events_are_drained_in_order() {
    let mut queue = EventQueue::new();
    queue.send(CHANGED_EVENT.to_string());
    queue.send(RESUME_EVENT.to_string());
    assert_eq!(drain(&mut queue), vec!["__display_changed", "__resumed"]);
    assert!(drain(&mut queue).is_empty());
}

#[test]
fn window_messages_are_told_apart() {
    let hid = Some(DBT_DEVTYP_DEVICEINTERFACE);
    assert_eq!(notice_of(WM_DISPLAYCHANGE, 0, None), Notice::DisplayChanged);
    assert_eq!(notice_of(WM_DEVICECHANGE, DBT_DEVICEARRIVAL, hid), Notice::DeviceChanged);
    assert_eq!(
        notice_of(WM_DEVICECHANGE, DBT_DEVICEREMOVECOMPLETE, hid),
        Notice::DeviceChanged
    );
    assert_eq!(notice_of(WM_DEVICECHANGE, DBT_DEVICEARRIVAL, Some(2)), Notice::Handled);
    assert_eq!(notice_of(WM_DEVICECHANGE, DBT_DEVICEARRIVAL, None), Notice::Handled);
    assert_eq!(notice_of(WM_DEVICECHANGE, 7, hid), Notice::Handled);
    assert_eq!(notice_of(WM_POWERBROADCAST, PBT_APMRESUMEAUTOMATIC, None), Notice::Resumed);
    assert_eq!(notice_of(WM_POWERBROADCAST, PBT_APMRESUMESUSPEND, None), Notice::Resumed);
    assert_eq!(notice_of(WM_POWERBROADCAST, 4, None), Notice::Handled);
    assert_eq!(notice_of(0x000F, 0, None), Notice::Default);
    assert!(keeps_pumping(1));
    assert!(!keeps_pumping(0));
    assert!(!keeps_pumping(-1));
}

#[test]
fn languages_keep_their_positions() {
    for i in 0..11 {
        assert_eq!(language_index(language_at(i)), i);
    }
    assert_eq!(language_at(0), Language::System);
    assert_eq!(language_at(10), Language::Ko);
}

#[test]
fn missing_settings_are_the_defaults() {
    let defaults = load(None);
    assert_eq!(defaults, Settings::default());
    assert_eq!(defaults.slot_colors, [None; 4]);
    assert!(defaults.brightness.is_none() && !defaults.audio_running);
    let stored = Settings { brightness: Some(7), ..Settings::default() };
    assert_eq!(load(Some(stored)), stored);
}

#[test]
fn only_new_text_is_saved_and_failures_are_retried() {
    let mut log = SaveLog::new();
    assert!(log.needs_save("{}"));
    log.saved("{}".to_string(), false);
    assert!(log.needs_save("{}"));
    log.saved("{}".to_string(), true);
    assert!(!log.needs_save("{}"));
    assert!(log.needs_save("{ }"));
}

#[test]
fn a_drag_is_written_once() {
    let mut schedule = SaveSchedule::new();
    // Time is looked at between the changes, which are less than the delay apart.
    assert!(!schedule.changed(true, 100));
    assert!(!schedule.tick(849));
    assert!(!schedule.changed(true, 849));
    assert!(!schedule.tick(1100));
    assert!(!schedule.changed(true, 1500));
    assert!(!schedule.tick(2249));
    assert!(schedule.tick(2250));
    assert!(!schedule.tick(9000));
    assert!(!schedule.changed(true, 10_000));
    assert!(schedule.changed(false, 10_001));
    assert!(!schedule.tick(20_000));
    assert!(!schedule.flush());
    schedule.changed(true, 30_000);
    assert!(schedule.flush());
    assert!(!schedule.flush());
    schedule.changed(true, u64::MAX);
    assert_eq!(schedule.due, Some(u64::MAX));
}

#[test]
fn the_autostart_entry_quotes_its_path() {
    assert_eq!(autostart_command("C:\\a b\\x.exe"), "\"C:\\a b\\x.exe\"");
    let mut want = Vec::new();
    for unit in "\"a\u{1F600}\u{e9}\"\0".encode_utf16() {
        want.extend_from_slice(&unit.to_le_bytes());
    }
    assert_eq!(autostart_value("a\u{1F600}\u{e9}"), want);
}

#[test]
fn texts_are_taken_apart() {
    assert!(text::same("a", "a") && !text::same("a", "b") && !text::same("a", "ab"));
    assert_eq!(text::strip_prefix("mode_3", "mode_"), Some("3"));
    assert_eq!(text::strip_prefix("mod", "mode_"), None);
    assert!(text::contains("lg 27gn950", "27gn950"));
    assert!(!text::contains("27gn95", "27gn950"));
    assert!(text::contains("x", ""));
    assert_eq!(text::split_once("a:b:c", ':'), Some(("a", "b:c")));
    assert_eq!(text::split_once("abc", ':'), None);
    assert_eq!(text::join("a", "b"), "ab");
    assert_eq!(text::fill("x {0} y {0}", "z"), "x z y z".to_string());
    assert_eq!(text::fill("none", "z"), "none");
}

#[test]
fn numbers_are_read_as_unsigned_decimals() {
    for (s, max, want) in [
        ("0", 255u32, Some(0u32)),
        ("255", 255, Some(255)),
        ("256", 255, None),
        ("+7", 255, Some(7)),
        ("007", 255, Some(7)),
        ("-1", 255, None),
        ("", 255, None),
        ("+", 255, None),
        ("1a", 255, None),
        (" 1", 255, None),
        ("99999999999999999999", 255, None),
        ("4294967295", u32::MAX, Some(u32::MAX)),
    ] {
        assert_eq!(text::parse_number(s, max), want, "{s:?}");
    }
    for n in [0u32, 9, 10, 255, 1000, u32::MAX] {
        assert_eq!(text::decimal(n), n.to_string());
        assert_eq!(text::parse_number(&text::decimal(n), u32::MAX), Some(n));
    }
}

#[test]
fn picker_requests_resolve_to_target_and_color() {
    assert_eq!(resolve(PickerRequest::Slot(3, [1, 2, 3])), (3, [1, 2, 3]));
    assert_eq!(resolve(PickerRequest::Audio(Some([4, 5, 6]))), (0, [4, 5, 6]));
    assert_eq!(resolve(PickerRequest::Audio(None)), (0, [255, 255, 255]));
}

#[test]
fn a_picker_closed_by_its_window_opens_again() {
    let mut w = PickerWindow::new();
    assert!(w.show(2));
    assert!(!w.show(0));
    assert_eq!(w.target, 0);
    w.close();
    assert!(w.show(1));
}

#[test]
fn hex_fields_are_read() {
    assert_eq!(hex_text([0, 0x0A, 0xFF]), "#000AFF");
    assert_eq!(entered_color("#00fF7f"), Some([0, 255, 127]));
    assert_eq!(entered_color("12 34 56"), Some([0x12, 0x34, 0x56]));
    assert_eq!(entered_color("#12345"), None);
    assert_eq!(entered_color("#1234567"), None);
    assert_eq!(entered_color(""), None);
    assert_eq!(accepted_color("#102030"), [0x10, 0x20, 0x30]);
    assert_eq!(accepted_color("#ff"), [0, 0, 255]);
    assert_eq!(accepted_color("zz"), [255, 255, 255]);
    assert_eq!(accepted_color("123456789"), [255, 255, 255]);
    assert_eq!(accepted_color("FF123456"), [0x12, 0x34, 0x56]);
    for rgb in [[0u8, 0, 0], [1, 22, 133], [255, 255, 255]] {
        assert_eq!(entered_color(&hex_text(rgb)), Some(rgb));
    }
}

#[test]
fn picked_colors_are_posted_as_lists() {
    assert_eq!(result_id(0, [1, 20, 255]), "__picker_audio:1,20,255");
    assert_eq!(result_id(4, [0, 0, 9]), "__picker_slot_4:0,0,9");
    assert_eq!(parse_triple("1,20,255"), Some([1, 20, 255]));
    assert_eq!(parse_triple("1,20"), None);
    assert_eq!(parse_triple("1,20,256"), None);
    assert_eq!(parse_triple("1,2,3,4"), None);
}

#[test]
fn stages_cost_nothing_when_off() {
    assert_eq!(Stage::start(false).us(), 0);
    let on = Stage::start(true);
    let first = on.us();
    assert!(on.us() >= first);
    assert_eq!(saturated(7), 7);
    assert_eq!(saturated(u32::MAX as u128 + 1), u32::MAX);
    assert_eq!(FrameStats::default().acquire_us, 0);
}

#[test]
fn the_ring_keeps_the_last_samples() {
    let mut ring = Ring::new();
    for i in 0..130u32 {
        ring.push(i);
    }
    assert_eq!((ring.count, ring.next), (128, 2));
    assert_eq!(&ring.samples[..3], &[128, 129, 2]);
}

#[test]
fn percentiles_of_the_samples() {
    let mut ring = [0u32; 128];
    assert_eq!(map_percentiles(&ring, 0), (0, 0, 0));
    ring[0] = 9;
    assert_eq!(map_percentiles(&ring, 1), (9, 9, 9));
    for i in 0..100 {
        ring[i] = 100 - i as u32;
    }
    assert_eq!(map_percentiles(&ring, 100), (50, 95, 100));
    ring[2] = 1000;
    assert_eq!(map_percentiles(&ring, 3), (100, 100, 1000));
}
