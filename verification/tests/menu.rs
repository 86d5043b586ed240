use lg_ultragear_rgb_control::audio::{AudioColor, Blink, DynamicRange};
use lg_ultragear_rgb_control::capture::Rect;
use lg_ultragear_rgb_control::engine::{Engine, Source};
use lg_ultragear_rgb_control::event_ids::{failure_id, parse_event, parse_reason};
use lg_ultragear_rgb_control::i18n::{language_label, Lang, Language};
use lg_ultragear_rgb_control::menu::{
    build_ui, current_settings, handle_event, session_of, Effect, Event, FailureKind, Status,
    SyncActive, Tray,
};
use lg_ultragear_rgb_control::menu_items::{
    build_menu, item_id, item_label, mode_label, static_mode_name, status_text, swatch,
    swatch_icon, sync_menu, tooltip_text, Item, Section,
};
use lg_ultragear_rgb_control::panel::{
    callback_id, cursor_monitor_center, forces_repaint, is_radio_checked, language_labels,
    language_position, snapshot_from, Hints, Labels, PanelInput, PanelView, PanelWindow, Radio,
    WM_PAINT, WM_SIZE,
};
use lg_ultragear_rgb_control::picker::PickerRequest;
use lg_ultragear_rgb_control::sampling::SamplingMode;
use lg_ultragear_rgb_control::settings::Settings;
use lg_ultragear_rgb_control::usb::{command_bus, recv_next, Recv, SessionGate, UsbCommand};
use lg_ultragear_rgb_control::usb_protocol::RGBColor;

const LANG: Lang = Lang {
    open_panel: "Open panel",
    on_leds: "Turn on",
    off_leds: "Turn off",
    mode: "Mode",
    static_mode: "Static",
    settings: "Settings",
    brightness: "Brightness",
    level: "Level",
    color: "Color",
    sampling: "Sampling",
    border5: "5%",
    border15: "15%",
    full_screen: "Full",
    smoothing: "Smoothing",
    smooth_instant: "Instant",
    smooth_low: "Low",
    smooth_normal: "Normal",
    smooth_high: "High",
    boost: "Boost",
    sensitivity: "Sensitivity",
    gain_low: "Gain low",
    gain_medium: "Gain medium",
    gain_high: "Gain high",
    rainbow: "Rainbow",
    solid_color: "Solid",
    blink: "Blink",
    blink_smooth: "Soft",
    blink_normal: "Plain",
    blink_fast: "Fast",
    dynamic_range: "Range",
    range_compressed: "Compressed",
    range_normal: "Ordinary",
    range_expanded: "Expanded",
    range_extreme: "Extreme",
    autostart: "Autostart",
    language: "Language",
    system: "System",
    connected: "Connected",
    disconnected: "Disconnected",
    no_screen: "No screen",
    fail_image: "Image failed: {0}",
    fail_audio: "Audio failed: {0}",
    quit: "Quit",
    no_settings: "No settings",
    select_mode: "Select a mode",
    pick_color: "Pick",
    accept: "OK",
    cancel: "Cancel",
    hint_brightness: "h1",
    hint_sampling: "h2",
    hint_smoothing: "h3",
    hint_boost: "h4",
    hint_fps: "h5",
    hint_static_color: "h6",
    hint_audio_color: "h7",
    hint_sensitivity: "h8",
    hint_blink: "h9",
    hint_range: "h10",
};

fn tray_with(settings: Settings, screen: &str, connected: bool) -> Tray {
    let (tx, rx) = command_bus();
    let mut engine = Engine::new(tx);
    engine.set_connected(connected);
    build_ui(settings, screen.to_string(), false, engine, rx)
}

/// A fresh application on a connected monitor, its start drained.
fn tray() -> Tray {
    let mut t = tray_with(Settings::default(), "DISPLAY1", true);
    posted(&mut t);
    t.out.clear();
    t
}

fn posted(t: &mut Tray) -> Vec<UsbCommand> {
    let mut out = Vec::new();
    while let Some(cmd) = t.rx.take_control() {
        out.push(cmd);
    }
    while t.rx.take_frame().is_some() {}
    out
}

fn act(t: &mut Tray, id: &str) -> Vec<UsbCommand> {
    t.out.clear();
    handle_event(id, "DISPLAY1", t);
    posted(t)
}

/// The session that the last event asked for.
fn started(t: &Tray) -> Option<(u64, bool)> {
    t.out.iter().find_map(|e| match session_of(e, &t.ui) {
        Some((token, Source::ImageSync { screen })) => {
            assert_eq!(screen, t.ui.selected_screen);
            Some((token, true))
        }
        Some((token, Source::Audio)) => Some((token, false)),
        None => None,
    })
}

fn schedules(t: &Tray) -> usize {
    t.out.iter().filter(|e| matches!(e, Effect::ScheduleRecovery)).count()
}

#[test]
fn the_toggle_starts_and_stops_image_sync() {
    let mut t = tray();
    assert_eq!(act(&mut t, "toggle_image_sync"), vec![UsbCommand::SetSession(1)]);
    assert_eq!(t.ui.state.sync, SyncActive::ImageSync);
    assert_eq!(t.ui.state.mode, Some(8));
    assert_eq!(t.ui.state.status, Status::ImageSync);
    assert_eq!(started(&t), Some((2, true)));
    assert!(t.engine.state.is_valid(2));
    assert!(sync_menu(Item::ToggleImageSync, &t.ui.state));
    let sent = act(&mut t, "toggle_image_sync");
    assert_eq!(
        sent,
        vec![
            UsbCommand::SetSession(3),
            UsbCommand::SetMode(1),
            UsbCommand::SetBrightness(12),
        ]
    );
    assert_eq!(t.ui.state.sync, SyncActive::Off);
    assert_eq!(t.ui.state.mode, Some(1));
    assert_eq!(t.ui.state.resume, None);
    assert!(!sync_menu(Item::ToggleImageSync, &t.ui.state));
}

#[test]
fn syncs_supersede_each_other() {
    let mut t = tray();
    act(&mut t, "toggle_image_sync");
    let old = started(&t).unwrap().0;
    act(&mut t, "toggle_audio");
    let (new, image) = started(&t).unwrap();
    assert!(!image && new > old);
    assert!(!t.engine.state.is_valid(old) && t.engine.state.is_valid(new));
    assert_eq!(t.ui.state.sync, SyncActive::Audio);
    assert_eq!(t.ui.state.mode, Some(7));
}

#[test]
fn without_a_screen_there_is_no_image_sync() {
    let mut t = tray_with(Settings::default(), "", true);
    posted(&mut t);
    assert_eq!(act(&mut t, "toggle_image_sync"), vec![]);
    assert_eq!(t.ui.state.status, Status::NoScreen);
    assert_eq!(t.ui.state.sync, SyncActive::Off);
    assert_eq!(item_label(Item::Status, &t.ui, &LANG), "No screen");
}

#[test]
fn manual_commands_stop_the_sync_first() {
    let mut t = tray();
    act(&mut t, "toggle_audio");
    let sent = act(&mut t, "mode_5");
    assert!(matches!(sent[0], UsbCommand::SetSession(_)));
    assert_eq!(
        &sent[1..],
        &[UsbCommand::SetBrightness(12), UsbCommand::SetMode(5)]
    );
    assert_eq!(t.ui.state.sync, SyncActive::Off);
    assert_eq!(t.ui.state.mode, Some(5));
    assert_eq!(t.ui.state.resume, None);
}

#[test]
fn frames_of_the_old_session_stay_behind_a_manual_command() {
    let mut t = tray();
    act(&mut t, "toggle_audio");
    let mine = started(&t).unwrap().0;
    let frame = [RGBColor { r: 1, g: 2, b: 3 }; 48];
    let mut gate = SessionGate::default();
    gate.register(mine);
    for _ in 0..3 {
        assert!(t.engine.tx.frame(&mut t.rx, mine, frame, true));
    }
    handle_event("mode_5", "DISPLAY1", &mut t);
    let mut serviced = false;
    let mut late = false;
    loop {
        match recv_next(&mut t.rx, true) {
            Some(Recv::Cmd(UsbCommand::SetSession(s))) => gate.register(s),
            Some(Recv::Cmd(UsbCommand::SetMode(5))) => serviced = true,
            Some(Recv::Cmd(UsbCommand::SendColors(s, _, _))) => {
                assert!(serviced && !gate.accepts(s));
            }
            Some(Recv::Cmd(_)) => {}
            Some(Recv::Tick) if !late => {
                // One more, from a session that has not noticed yet.
                late = true;
                assert!(t.engine.tx.frame(&mut t.rx, mine, frame, true));
            }
            _ => break,
        }
    }
    assert!(serviced && late);
}

#[test]
fn a_power_cycle_brings_the_sync_back() {
    let mut t = tray();
    act(&mut t, "toggle_audio");
    let sent = act(&mut t, "off");
    assert_eq!(
        &sent[1..],
        &[
            UsbCommand::SetBrightness(12),
            UsbCommand::SetMode(1),
            UsbCommand::TurnOff,
        ]
    );
    assert!(!t.ui.state.leds_on);
    assert_eq!(t.ui.state.resume, Some(SyncActive::Audio));
    act(&mut t, "on");
    assert_eq!(t.ui.state.sync, SyncActive::Audio);
    assert!(t.ui.state.leds_on);
    assert_eq!(started(&t).map(|s| s.1), Some(false));
    assert_eq!(t.ui.state.resume, None);
    // With nothing to resume the strip is just lit.
    let mut t = tray();
    assert_eq!(act(&mut t, "on")[1..], [UsbCommand::TurnOn]);
}

#[test]
fn brightness_goes_to_the_device_only_without_a_sync() {
    let mut t = tray();
    assert_eq!(act(&mut t, "bright_5"), vec![UsbCommand::SetBrightness(5)]);
    assert!(matches!(t.out[..], [Effect::Save { rapid: true }]));
    act(&mut t, "toggle_image_sync");
    assert_eq!(act(&mut t, "bright_3"), vec![]);
    assert_eq!(t.engine.brightness, 3);
    assert_eq!(t.ui.state.sync, SyncActive::ImageSync);
    // The level is restored when the sync is stopped.
    assert!(act(&mut t, "toggle_image_sync").contains(&UsbCommand::SetBrightness(3)));
}

#[test]
fn tuning_is_live_and_sampling_restarts() {
    let mut t = tray();
    act(&mut t, "toggle_image_sync");
    let mine = started(&t).unwrap().0;
    for id in ["smooth_3", "boost_0", "fps_3"] {
        act(&mut t, id);
        assert_eq!(started(&t), None);
    }
    assert_eq!(t.engine.image_params.smoothing.bits, 0.6f32.to_bits());
    assert_eq!(t.engine.image_params.boost.bits, 1.0f32.to_bits());
    assert_eq!(t.engine.image_params.fps, 60);
    assert!(t.engine.state.is_valid(mine));
    act(&mut t, "sampling_full");
    assert_eq!(t.engine.image_params.sampling, SamplingMode::Full);
    assert!(started(&t).unwrap().0 > mine);
    act(&mut t, "sampling_full");
    assert_eq!(started(&t), None);
    for (id, item) in [
        ("gain_2", Item::Gain(2)),
        ("audioblink_0", Item::Blink(0)),
        ("audiorange_3", Item::Range(3)),
    ] {
        act(&mut t, id);
        assert!(sync_menu(item, &t.ui.state));
    }
    assert_eq!(t.engine.audio_params.gain.bits, 2.0f32.to_bits());
    assert_eq!(t.engine.audio_params.blink, Blink::Smooth);
    assert_eq!(t.engine.audio_params.range, DynamicRange::Extreme);
}

#[test]
fn static_slots_take_picked_colors() {
    let mut t = tray();
    act(&mut t, "slotcolor_2");
    assert!(t
        .out
        .iter()
        .any(|e| matches!(e, Effect::OpenPicker(PickerRequest::Slot(2, [255, 255, 255])))));
    let sent = act(&mut t, "__picker_slot_2:10,20,30");
    assert_eq!(sent[1..], [UsbCommand::SetStaticColor(2, 10, 20, 30)]);
    assert_eq!(t.ui.state.slot_colors[1], Some([10, 20, 30]));
    assert_eq!(t.ui.state.mode, Some(2));
    assert_eq!(swatch(Item::SlotColor(2), &t.ui.state), Some([10, 20, 30]));
    assert_eq!(swatch(Item::SlotColor(1), &t.ui.state), None);
    act(&mut t, "slotcolor_2");
    assert!(t
        .out
        .iter()
        .any(|e| matches!(e, Effect::OpenPicker(PickerRequest::Slot(2, [10, 20, 30])))));
}

#[test]
fn the_rainbow_switch_remembers_the_solid_color() {
    let mut t = tray();
    act(&mut t, "audiocolor_solid_restore");
    assert_eq!(t.ui.state.audio.color, AudioColor::Rainbow);
    act(&mut t, "audiocolor_solid");
    assert!(matches!(t.out[0], Effect::OpenPicker(PickerRequest::Audio(None))));
    act(&mut t, "__picker_audio:1,2,3");
    assert_eq!(t.engine.audio_params.color, AudioColor::Solid([1, 2, 3]));
    act(&mut t, "pv_audiorainbow_on");
    assert!(sync_menu(Item::Rainbow, &t.ui.state));
    assert_eq!(t.ui.state.last_solid, Some([1, 2, 3]));
    act(&mut t, "audiocolor_solid_restore");
    assert_eq!(t.ui.state.audio.color, AudioColor::Solid([1, 2, 3]));
}

#[test]
fn an_engine_that_gives_up_disarms_the_monitor() {
    let mut t = tray();
    act(&mut t, "toggle_audio");
    t.engine.state.running = false;
    let sent = act(&mut t, &failure_id(FailureKind::Audio, "no device"));
    assert_eq!(sent, vec![UsbCommand::SetMode(1), UsbCommand::SetBrightness(12)]);
    assert_eq!(t.ui.state.sync, SyncActive::Off);
    assert_eq!(t.ui.state.status, Status::Failed(FailureKind::Audio));
    assert_eq!(item_label(Item::Status, &t.ui, &LANG), "Audio failed: no device");
    assert_eq!(snapshot_from(&t.ui, true, &LANG).status, "Audio failed: no device");
}

#[test]
fn failures_of_a_superseded_engine_are_ignored() {
    let mut t = tray();
    act(&mut t, "toggle_audio");
    assert_eq!(act(&mut t, "__engine_failed;audio;late"), vec![]);
    assert_eq!(t.ui.state.sync, SyncActive::Audio);
    assert_eq!(t.ui.state.status, Status::AudioSync);
}

#[test]
fn quitting_restores_and_disarms() {
    let mut t = tray();
    act(&mut t, "bright_4");
    act(&mut t, "toggle_image_sync");
    let sent = act(&mut t, "quit");
    assert!(matches!(sent[0], UsbCommand::SetSession(_)));
    assert_eq!(
        sent[1..],
        [
            UsbCommand::SetBrightness(4),
            UsbCommand::SetMode(1),
            UsbCommand::Stop,
        ]
    );
    assert!(t.out.iter().any(|e| matches!(e, Effect::Quit)));
    let mut t = tray();
    act(&mut t, "mode_6");
    assert_eq!(act(&mut t, "quit")[2], UsbCommand::SetMode(6));
}

#[test]
fn a_reconnect_pushes_the_state_twice() {
    let mut t = tray();
    act(&mut t, "bright_4");
    act(&mut t, "__picker_slot_1:1,2,3");
    act(&mut t, "mode_5");
    t.engine.set_connected(false);
    assert_eq!(act(&mut t, "__connection"), vec![]);
    assert_eq!(t.ui.state.status, Status::Disconnected);
    t.engine.set_connected(true);
    let burst = vec![
        UsbCommand::SetBrightness(4),
        UsbCommand::StoreStaticColor(1, 1, 2, 3),
        UsbCommand::SetMode(5),
    ];
    assert_eq!(act(&mut t, "__connection"), burst);
    assert_eq!(schedules(&t), 1);
    assert!(!t.out.iter().any(|e| matches!(e, Effect::Save { .. })));
    assert_eq!(act(&mut t, "__restore_push"), burst);
    t.engine.set_connected(false);
    assert_eq!(act(&mut t, "__restore_push"), vec![]);
}

#[test]
fn a_restore_never_arms_a_sync_mode() {
    let mut t = tray_with(
        Settings { mode: Some(8), ..Settings::default() },
        "DISPLAY1",
        true,
    );
    assert_eq!(posted(&mut t), vec![]);
    assert_eq!(act(&mut t, "__restore_push"), vec![]);
}

#[test]
fn recovery_of_a_running_sync_is_its_own_rearm() {
    let mut t = tray();
    act(&mut t, "toggle_image_sync");
    assert_eq!(act(&mut t, "__restore_push"), vec![]);
    assert!(t.engine.state.reinit_requested);
}

#[test]
fn the_first_enumeration_schedules_one_pass() {
    let mut t = tray_with(Settings::default(), "DISPLAY1", false);
    assert_eq!(schedules(&t), 0);
    t.engine.set_connected(true);
    assert_eq!(act(&mut t, "__connection_init"), vec![]);
    assert_eq!(schedules(&t), 1);
    act(&mut t, "__connection_init");
    assert_eq!(schedules(&t), 0);
    // A monitor that was there at the start has had its pass.
    let t = tray_with(Settings::default(), "DISPLAY1", true);
    assert_eq!(schedules(&t), 1);
    assert!(t.ui.state.startup_pass);
}

#[test]
fn the_screen_is_followed() {
    let mut t = tray();
    act(&mut t, "toggle_image_sync");
    let mine = started(&t).unwrap().0;
    // The same name: the capture is dropped, the session goes on.
    act(&mut t, "__display_changed");
    assert!(t.engine.state.display_changed && t.engine.state.is_valid(mine));
    // Gone: nothing happens at once.
    t.out.clear();
    handle_event("__display_changed", "", &mut t);
    assert_eq!(t.ui.state.status, Status::NoScreen);
    assert!(t.engine.state.is_valid(mine));
    // Back under a new name: the session restarts there.
    t.out.clear();
    handle_event("__display_changed", "DISPLAY2", &mut t);
    assert!(started(&t).unwrap().0 > mine);
    assert_eq!(schedules(&t), 1);
    assert_eq!(t.ui.selected_screen, "DISPLAY2");
}

#[test]
fn a_restart_resumes_what_was_running() {
    let mut t = tray();
    act(&mut t, "bright_4");
    act(&mut t, "fps_0");
    act(&mut t, "toggle_image_sync");
    let saved = current_settings(&t.ui);
    assert!(saved.image_sync_running && !saved.audio_running);
    let t2 = tray_with(saved, "DISPLAY1", true);
    assert_eq!(t2.ui.state.sync, SyncActive::ImageSync);
    assert_eq!(t2.engine.brightness, 4);
    assert_eq!(t2.engine.image_params.fps, 10);
    assert_eq!(started(&t2).map(|s| s.1), Some(true));
    assert_eq!(current_settings(&t2.ui), saved);
}

#[test]
fn a_sync_waits_for_its_screen() {
    let saved = Settings { image_sync_running: true, ..Settings::default() };
    let mut t = tray_with(saved, "", true);
    assert_eq!(t.ui.state.sync, SyncActive::Off);
    assert_eq!(t.ui.state.pending_boot_sync, Some(SyncActive::ImageSync));
    assert_eq!(started(&t), None);
    t.out.clear();
    handle_event("__display_changed", "DISPLAY1", &mut t);
    assert_eq!(t.ui.state.sync, SyncActive::ImageSync);
    assert_eq!(t.ui.state.pending_boot_sync, None);
    // A user's choice in between wins.
    let mut t = tray_with(saved, "", true);
    act(&mut t, "__picker_slot_1:1,2,3");
    t.out.clear();
    handle_event("__display_changed", "DISPLAY1", &mut t);
    assert_eq!(t.ui.state.sync, SyncActive::Off);
}

#[test]
fn notifications_reach_the_outside() {
    let mut t = tray();
    assert_eq!(act(&mut t, "__device_event"), vec![UsbCommand::Probe]);
    act(&mut t, "__resumed");
    assert_eq!(schedules(&t), 1);
    act(&mut t, "lang_3");
    assert!(matches!(t.out[0], Effect::SwitchLanguage(Language::Fr)));
    assert_eq!(t.ui.state.language, Language::Fr);
    act(&mut t, "open_panel");
    assert!(matches!(t.out[0], Effect::OpenPanel));
    act(&mut t, "autostart");
    assert!(matches!(t.out[0], Effect::SetAutostart(true)));
    assert!(!t.ui.state.autostart);
    t.autostart_done(true, false);
    assert!(!t.ui.state.autostart);
    t.autostart_done(true, true);
    assert!(sync_menu(Item::Autostart, &t.ui.state));
    act(&mut t, "pv_autostart");
    assert!(matches!(t.out[0], Effect::SetAutostart(false)));
}

#[test]
fn unknown_ids_do_nothing() {
    for id in ["", "mode_", "mode_256", "bright_x", "smooth_4", "lang_11", "__picker_slot_1:1,2"] {
        assert!(matches!(parse_event(id), Event::Unknown), "{id}");
    }
    assert!(matches!(parse_event("mode_+3"), Event::Mode(3)));
    assert!(matches!(parse_event("__panel_ready"), Event::PanelReady));
    assert_eq!(parse_reason("mode_1"), "");
}

#[test]
fn failures_carry_their_kind() {
    assert!(matches!(
        parse_event("__engine_failed;image;a;b"),
        Event::EngineFailed(FailureKind::Image)
    ));
    assert_eq!(parse_reason("__engine_failed;image;a;b"), "a;b");
    assert!(matches!(
        parse_event("__engine_failed;odd;x"),
        Event::EngineFailed(FailureKind::Other)
    ));
    assert_eq!(parse_reason("__engine_failed;odd;x"), "odd;x");
    assert_eq!(parse_reason(&failure_id(FailureKind::Other, "plain")), "plain");
}

#[test]
fn the_menu_has_its_layout() {
    let menu = build_menu();
    assert_eq!(menu.len(), 90);
    let top: Vec<Item> = menu.iter().filter(|e| e.depth == 0).map(|e| e.item).collect();
    assert_eq!(
        top,
        vec![
            Item::OpenPanel,
            Item::On,
            Item::Off,
            Item::Separator,
            Item::Submenu(Section::Mode),
            Item::Separator,
            Item::Submenu(Section::Settings),
            Item::Separator,
            Item::Autostart,
            Item::Submenu(Section::Language),
            Item::Separator,
            Item::Status,
            Item::Separator,
            Item::Quit,
        ]
    );
    let levels: Vec<Item> = menu.iter().filter(|e| e.depth == 2).map(|e| e.item).collect();
    assert_eq!(&levels[..2], &[Item::Brightness(1), Item::Brightness(2)]);
}

#[test]
fn every_menu_item_has_a_meaning() {
    for entry in build_menu() {
        let id = item_id(entry.item);
        match entry.item {
            Item::Separator | Item::Submenu(_) => assert_eq!(id, ""),
            Item::Status => assert_eq!(id, "__status"),
            _ => assert!(!matches!(parse_event(&id), Event::Unknown), "{id}"),
        }
    }
    assert_eq!(item_id(Item::Brightness(12)), "bright_12");
    assert_eq!(item_id(Item::Sampling(1)), "sampling_15");
}

#[test]
fn labels_follow_language_and_state() {
    let mut t = tray();
    assert_eq!(item_label(Item::Brightness(7), &t.ui, &LANG), "Level 7");
    assert_eq!(item_label(Item::SlotColor(4), &t.ui, &LANG), "Slot 4");
    assert_eq!(item_label(Item::Submenu(Section::Mode), &t.ui, &LANG), "Mode");
    act(&mut t, "mode_3");
    assert_eq!(item_label(Item::Submenu(Section::Mode), &t.ui, &LANG), "Mode - Static 3");
    act(&mut t, "toggle_audio");
    assert_eq!(item_label(Item::Submenu(Section::Mode), &t.ui, &LANG), "Mode - Audio Sync");
    assert_eq!(static_mode_name(5, &LANG), "Peaceful");
    assert_eq!(static_mode_name(6, &LANG), "Dynamic");
    assert_eq!(mode_label(SyncActive::ImageSync, Some(8), &LANG), "Mode - Image Sync");
    assert_eq!(item_label(Item::Language(0), &t.ui, &LANG), "System");
    assert_eq!(language_label(Language::Ja, &LANG), "日本語");
    assert_eq!(status_text(Status::Failed(FailureKind::Other), "x", &LANG), "x");
    assert_eq!(tooltip_text(&t.ui, &LANG), "LG UltraGear RGB Control — Audio Sync");
}

#[test]
fn swatches_are_opaque_squares() {
    let icon = swatch_icon([9, 8, 7]);
    assert_eq!(icon.len(), 16 * 16 * 4);
    assert!(icon.chunks(4).all(|px| px == [9, 8, 7, 255]));
}

#[test]
fn the_panel_shows_the_state() {
    let mut t = tray();
    let s = snapshot_from(&t.ui, true, &LANG);
    assert_eq!((s.status.as_str(), s.view), ("Connected", PanelView::SelectMode));
    assert_eq!((s.brightness, s.brightness_text.as_str()), (12, "12"));
    assert_eq!((s.slot_color, s.slot_hex.as_str()), ([0x40; 3], "—"));
    assert_eq!((s.smooth_index, s.boost_index, s.fps_index), (2, 1, 2));
    assert_eq!((s.gain_index, s.blink_index, s.range_index), (1, 1, 1));
    assert!(s.rainbow && !s.solid_set && s.solid_text == "Rainbow");
    act(&mut t, "__picker_slot_3:255,0,16");
    act(&mut t, "__picker_audio:0,0,1");
    let s = snapshot_from(&t.ui, false, &LANG);
    assert_eq!((s.status.as_str(), s.view), ("Disconnected", PanelView::StaticColor(3)));
    assert_eq!((s.slot_color, s.slot_hex.as_str()), ([255, 0, 16], "#FF0010"));
    assert_eq!((s.mode, s.solid_text.as_str()), (Some(3), "#000001"));
    act(&mut t, "mode_6");
    assert_eq!(snapshot_from(&t.ui, true, &LANG).view, PanelView::NoSettings);
    act(&mut t, "toggle_image_sync");
    let s = snapshot_from(&t.ui, true, &LANG);
    assert_eq!((s.view, s.mode, s.sync_image), (PanelView::ImageSync, None, true));
    // A sync remembered for the next power-on still owns the view.
    act(&mut t, "off");
    let s = snapshot_from(&t.ui, true, &LANG);
    assert_eq!((s.view, s.leds_on), (PanelView::ImageSync, false));
}

#[test]
fn the_active_radio_posts_nothing() {
    let radio = Radio { sync_image: false, sync_audio: false, mode: Some(2) };
    let post = |which| callback_id(PanelInput::Lighting(which), Some(radio));
    assert_eq!(post(1), None);
    assert_eq!(post(0), Some("mode_1".to_string()));
    assert_eq!(post(6), Some("toggle_image_sync".to_string()));
    assert_eq!(post(7), Some("toggle_audio".to_string()));
    let syncing = Radio { sync_audio: true, ..radio };
    assert!(!is_radio_checked(syncing, 1) && is_radio_checked(syncing, 7));
    assert_eq!(callback_id(PanelInput::Lighting(7), Some(syncing)), None);
    assert_eq!(
        callback_id(PanelInput::Lighting(7), None),
        Some("toggle_audio".to_string())
    );
}

#[test]
fn panel_inputs_post_menu_ids() {
    for (input, id) in [
        (PanelInput::Power(true), "on"),
        (PanelInput::Power(false), "off"),
        (PanelInput::Brightness(9), "bright_9"),
        (PanelInput::Smoothing(3), "smooth_3"),
        (PanelInput::Boost(1), "boost_1"),
        (PanelInput::Fps(0), "fps_0"),
        (PanelInput::Gain(2), "gain_2"),
        (PanelInput::Sampling(0), "sampling_5"),
        (PanelInput::Sampling(2), "sampling_full"),
        (PanelInput::SlotPick(4), "slotcolor_4"),
        (PanelInput::Rainbow(true), "pv_audiorainbow_on"),
        (PanelInput::Rainbow(false), "audiocolor_solid_restore"),
        (PanelInput::SolidPick, "audiocolor_solid"),
        (PanelInput::Blink(1), "audioblink_1"),
        (PanelInput::Range(3), "audiorange_3"),
        (PanelInput::Autostart, "pv_autostart"),
        (PanelInput::Language(10), "lang_10"),
    ] {
        assert_eq!(callback_id(input, None).as_deref(), Some(id));
    }
}

#[test]
fn panel_texts_come_from_the_language() {
    let labels = Labels::resolve(&LANG);
    assert_eq!(
        labels.modes,
        vec!["Static 1", "Static 2", "Static 3", "Static 4", "Peaceful", "Dynamic"]
    );
    assert_eq!(labels.ranges, ["Compressed", "Ordinary", "Expanded", "Extreme"]);
    assert_eq!(Hints::resolve(&LANG).range, "h10");
    assert_eq!(language_labels(&LANG).len(), 11);
    assert_eq!(language_position("English", &LANG), Some(2));
    assert_eq!(language_position("Klingon", &LANG), None);
}

#[test]
fn the_panel_window_repaints_by_flipping() {
    let mut w = PanelWindow::new();
    assert_eq!(w.repaint(), None);
    assert!(!w.wants_snapshot());
    assert!(w.show());
    assert!(!w.show());
    assert!(w.wants_snapshot());
    assert_eq!((w.repaint(), w.repaint(), w.repaint()), (Some(false), Some(true), Some(false)));
    w.close();
    assert!(w.show());
    assert!(forces_repaint(WM_PAINT, 0, true));
    assert!(!forces_repaint(WM_PAINT, 0, false));
    assert!(forces_repaint(WM_SIZE, 0, false));
    assert!(!forces_repaint(WM_SIZE, 1, true));
    // Only the low 32 bits say how the window was resized.
    assert!(forces_repaint(WM_SIZE, 0x1_0000_0000, false));
    assert!(!forces_repaint(WM_SIZE, 0x1_0000_0001, false));
}

#[test]
fn windows_are_centered() {
    let area = Rect { left: 100, top: 0, right: 1100, bottom: 801 };
    assert_eq!(cursor_monitor_center(area, 400, 300), (400, 250));
    assert_eq!(cursor_monitor_center(area, 1201, 300), (0, 250));
    let left = Rect { left: -1920, top: 0, right: 0, bottom: 1080 };
    assert_eq!(cursor_monitor_center(left, 920, 1080), (-1420, 0));
}
