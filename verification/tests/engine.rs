use lg_ultragear_rgb_control::engine::{dim, Engine, ImageSyncParams, Source};
use lg_ultragear_rgb_control::image_sync::{
    AcquireOutcome, CreateOutcome, ImageAction, ImageEvent, ImagePhase, ImageSync,
};
use lg_ultragear_rgb_control::sampling::SamplingMode;
use lg_ultragear_rgb_control::usb::{command_bus, CommandRx, UsbCommand};
use lg_ultragear_rgb_control::usb_protocol::RGBColor;

fn colors(v: u8) -> [RGBColor; 48] {
    [RGBColor { r: v, g: v, b: v }; 48]
}

fn engine() -> (Engine, CommandRx) {
    let (tx, rx) = command_bus();
    let mut engine = Engine::new(tx);
    engine.set_connected(true);
    (engine, rx)
}

fn drain(rx: &mut CommandRx) -> (Vec<UsbCommand>, Vec<UsbCommand>) {
    let mut ctrl = Vec::new();
    while let Some(cmd) = rx.take_control() {
        ctrl.push(cmd);
    }
    let mut frames = Vec::new();
    while let Some(cmd) = rx.take_frame() {
        if cmd != UsbCommand::Wake {
            frames.push(cmd);
        }
    }
    (ctrl, frames)
}

/// A session that waits for its first frame, at time 1000.
fn acquiring() -> (ImageSync, Engine, CommandRx) {
    let (mut engine, mut rx) = engine();
    let mine = engine.start().unwrap();
    let s = ImageSync::new(mine, engine.image_params, 0);
    let (s, action) = s.step(ImageEvent::Go, &mut engine, &mut rx, 0);
    assert_eq!(action, ImageAction::Sleep(250));
    let (s, action) = s.step(ImageEvent::Go, &mut engine, &mut rx, 1000);
    assert_eq!(action, ImageAction::Again);
    let (s, action) = s.step(ImageEvent::Go, &mut engine, &mut rx, 1000);
    assert_eq!(action, ImageAction::Create(SamplingMode::Border5));
    let (s, action) = s.step(
        ImageEvent::Created(CreateOutcome::Ready),
        &mut engine,
        &mut rx,
        1000,
    );
    assert_eq!(action, ImageAction::Acquire(200));
    (s, engine, rx)
}

fn frame(v: u8, dirty_hit: bool) -> ImageEvent {
    ImageEvent::Acquired(AcquireOutcome::Frame {
        colors: colors(v),
        dirty_hit,
    })
}

/// Feeds one outcome and returns to the acquire.
fn feed(
    s: ImageSync,
    engine: &mut Engine,
    rx: &mut CommandRx,
    event: ImageEvent,
    now: u64,
) -> ImageSync {
    let (s, _) = s.step(event, engine, rx, now);
    let (s, action) = s.step(ImageEvent::Go, engine, rx, now);
    assert_eq!(action, ImageAction::Acquire(200));
    s
}

#[test]
fn defaults_are_the_documented_ones() {
    let params = ImageSyncParams::default();
    assert_eq!(params.sampling, SamplingMode::Border5);
    assert_eq!(params.smoothing.bits, 0.4f32.to_bits());
    assert_eq!(params.boost.bits, 1.2f32.to_bits());
    assert_eq!(params.fps, 30);
}

#[test]
fn brightness_is_clamped() {
    let (mut engine, _) = engine();
    for (level, want) in [(0u8, 1u8), (1, 1), (7, 7), (12, 12), (200, 12)] {
        engine.set_brightness(level);
        assert_eq!(engine.brightness, want);
    }
}

#[test]
fn tokens_grow_and_a_stop_invalidates_them() {
    let (mut engine, mut rx) = engine();
    assert_eq!(engine.start(), Some(1));
    assert_eq!(engine.start(), None);
    assert!(engine.state.is_valid(1));
    engine.stop(&mut rx);
    assert!(!engine.state.is_valid(1));
    assert_eq!(rx.take_control(), Some(UsbCommand::SetSession(2)));
    assert_eq!(engine.start(), Some(3));
    assert!(engine.state.is_valid(3));
}

#[test]
fn dimming_scales_by_twelfths() {
    let full = [RGBColor { r: 255, g: 100, b: 11 }; 48];
    assert_eq!(dim(&full, 12)[0], RGBColor { r: 255, g: 100, b: 11 });
    assert_eq!(dim(&full, 6)[0], RGBColor { r: 127, g: 50, b: 5 });
    assert_eq!(dim(&full, 1)[47], RGBColor { r: 21, g: 8, b: 0 });
}

#[test]
fn the_init_sequence_arms_the_monitor_in_order() {
    let (_, _, mut rx) = acquiring();
    let (ctrl, frames) = drain(&mut rx);
    assert_eq!(
        ctrl,
        vec![
            UsbCommand::SetSession(1),
            UsbCommand::TurnOn,
            UsbCommand::SetBrightness(12),
            UsbCommand::SetMode(8),
            UsbCommand::ArmSync(8),
        ]
    );
    assert!(frames.is_empty());
}

#[test]
fn a_session_superseded_at_birth_sends_nothing() {
    let (mut engine, mut rx) = engine();
    let mine = engine.start().unwrap();
    engine.stop(&mut rx);
    drain(&mut rx);
    let s = ImageSync::new(mine, engine.image_params, 0);
    let (s, action) = s.step(ImageEvent::Go, &mut engine, &mut rx, 0);
    assert_eq!(action, ImageAction::Finish);
    assert_eq!(s.phase, ImagePhase::Finished);
    assert_eq!(drain(&mut rx), (vec![], vec![]));
}

#[test]
fn new_colors_go_out_dimmed_and_old_ones_do_not() {
    let (s, mut engine, mut rx) = acquiring();
    drain(&mut rx);
    engine.set_brightness(6);
    let s = feed(s, &mut engine, &mut rx, frame(100, true), 1100);
    let (_, frames) = drain(&mut rx);
    assert_eq!(frames, vec![UsbCommand::SendColors(1, colors(50), false)]);
    let s = feed(s, &mut engine, &mut rx, frame(100, true), 1200);
    assert_eq!(drain(&mut rx), (vec![], vec![]));
    let s = feed(s, &mut engine, &mut rx, frame(101, true), 1300);
    let (_, frames) = drain(&mut rx);
    assert_eq!(frames, vec![UsbCommand::SendColors(1, colors(50), false)]);
    assert_eq!(s.counters.arrivals, 3);
    assert_eq!(s.counters.sends, 2);
    assert_eq!(s.counters.dedup_skips, 1);
}

#[test]
fn a_new_level_is_pushed_on_a_still_desktop() {
    let (s, mut engine, mut rx) = acquiring();
    let s = feed(s, &mut engine, &mut rx, frame(120, true), 1100);
    drain(&mut rx);
    engine.set_brightness(3);
    let s = feed(
        s,
        &mut engine,
        &mut rx,
        ImageEvent::Acquired(AcquireOutcome::Nothing),
        1300,
    );
    let (_, frames) = drain(&mut rx);
    assert_eq!(frames, vec![UsbCommand::SendColors(1, colors(30), false)]);
    assert_eq!(s.last_level, 3);
}

#[test]
fn the_keepalive_resends_on_a_static_desktop() {
    let (s, mut engine, mut rx) = acquiring();
    let s = feed(s, &mut engine, &mut rx, frame(9, true), 1100);
    drain(&mut rx);
    let nothing = ImageEvent::Acquired(AcquireOutcome::Nothing);
    let s = feed(s, &mut engine, &mut rx, nothing, 6099);
    assert_eq!(drain(&mut rx).1.len(), 0);
    let s = feed(s, &mut engine, &mut rx, nothing, 6100);
    assert_eq!(drain(&mut rx).1, vec![UsbCommand::SendColors(1, colors(9), false)]);
    assert_eq!(s.counters.keepalives, 1);
    assert_eq!(s.last_send, 6100);
}

#[test]
fn until_the_first_frame_the_keepalive_rearms() {
    let (s, mut engine, mut rx) = acquiring();
    drain(&mut rx);
    let (s, _) = s.step(
        ImageEvent::Acquired(AcquireOutcome::Nothing),
        &mut engine,
        &mut rx,
        6000,
    );
    assert!(s.reinit_needed);
    let (s, action) = s.step(ImageEvent::Go, &mut engine, &mut rx, 6000);
    assert_eq!(action, ImageAction::Sleep(250));
    assert_eq!(s.phase, ImagePhase::Rearming);
    let (ctrl, _) = drain(&mut rx);
    assert_eq!(
        ctrl,
        vec![
            UsbCommand::TurnOn,
            UsbCommand::SetBrightness(12),
            UsbCommand::SetMode(8),
        ]
    );
    let (_, action) = s.step(ImageEvent::Go, &mut engine, &mut rx, 6250);
    assert_eq!(action, ImageAction::Acquire(200));
    assert_eq!(drain(&mut rx).0, vec![UsbCommand::ArmSync(8)]);
}

#[test]
fn a_rearmed_monitor_gets_the_last_colors_again() {
    let (s, mut engine, mut rx) = acquiring();
    let s = feed(s, &mut engine, &mut rx, frame(9, true), 1100);
    engine.request_reinit();
    let (s, _) = s.step(
        ImageEvent::Acquired(AcquireOutcome::Nothing),
        &mut engine,
        &mut rx,
        1200,
    );
    let (s, _) = s.step(ImageEvent::Go, &mut engine, &mut rx, 1200);
    assert_eq!(s.phase, ImagePhase::Rearming);
    assert!(!engine.state.reinit_requested);
    let (s, _) = s.step(ImageEvent::Go, &mut engine, &mut rx, 1450);
    drain(&mut rx);
    // Still no new frame: the colors go out all the same.
    feed(
        s,
        &mut engine,
        &mut rx,
        ImageEvent::Acquired(AcquireOutcome::Nothing),
        1650,
    );
    assert_eq!(drain(&mut rx).1, vec![UsbCommand::SendColors(1, colors(9), false)]);
}

#[test]
fn the_watchdog_backs_off_and_recovers() {
    let (s, mut engine, mut rx) = acquiring();
    let mut s = feed(s, &mut engine, &mut rx, frame(9, true), 1100);
    let mut fired = Vec::new();
    let mut streak = 0;
    while fired.len() < 5 {
        streak += 1;
        let (next, _) = s.step(frame(9, true), &mut engine, &mut rx, 1100);
        s = next;
        if s.capturing {
            s = s.step(ImageEvent::Go, &mut engine, &mut rx, 1100).0;
        } else {
            fired.push(streak);
            streak = 0;
            // Pause, create, acquire again.
            s = s.step(ImageEvent::Go, &mut engine, &mut rx, 1100).0;
            s = s.step(ImageEvent::Go, &mut engine, &mut rx, 1100).0;
            s = s
                .step(ImageEvent::Created(CreateOutcome::Ready), &mut engine, &mut rx, 1100)
                .0;
        }
    }
    assert_eq!(fired, vec![60, 120, 240, 480, 480]);
    assert_eq!(s.counters.stale_recreates, 5);
    let s = feed(s, &mut engine, &mut rx, frame(10, true), 1100);
    assert_eq!(s.stale_limit, 60);
}

#[test]
fn activity_elsewhere_and_settling_displays_never_fire_the_watchdog() {
    let (s, mut engine, mut rx) = acquiring();
    let mut s = feed(s, &mut engine, &mut rx, frame(9, true), 1100);
    for _ in 0..200 {
        s = feed(s, &mut engine, &mut rx, frame(9, false), 1100);
    }
    assert_eq!(s.counters.stale_recreates, 0);
    // A display change opens a grace window of 12 s.
    engine.invalidate_capturer();
    let (next, _) = s.step(frame(9, true), &mut engine, &mut rx, 2000);
    let (next, action) = next.step(ImageEvent::Go, &mut engine, &mut rx, 2000);
    assert_eq!(action, ImageAction::Sleep(500));
    assert!(!engine.state.display_changed);
    assert_eq!(next.settle_until, Some(14_000));
    let (next, action) = next.step(ImageEvent::Go, &mut engine, &mut rx, 2500);
    assert_eq!(action, ImageAction::Create(SamplingMode::Border5));
    let (mut s, _) = next.step(
        ImageEvent::Created(CreateOutcome::Ready),
        &mut engine,
        &mut rx,
        2500,
    );
    for _ in 0..200 {
        s = feed(s, &mut engine, &mut rx, frame(9, true), 3000);
    }
    assert_eq!(s.counters.stale_recreates, 0);
    assert_eq!(s.stale_frames, 0);
}

#[test]
fn lost_captures_are_created_anew() {
    for (outcome, settles) in [
        (AcquireOutcome::AccessLost, false),
        (AcquireOutcome::ModeChanged, true),
        (AcquireOutcome::Failed, false),
    ] {
        let (s, mut engine, mut rx) = acquiring();
        let (s, action) = s.step(ImageEvent::Acquired(outcome), &mut engine, &mut rx, 1100);
        assert_eq!(action, ImageAction::Again);
        assert!(!s.capturing);
        assert_eq!(s.settle_until.is_some(), settles);
        assert_eq!(s.counters.recreates, 1);
        let (_, action) = s.step(ImageEvent::Go, &mut engine, &mut rx, 1100);
        assert_eq!(action, ImageAction::Sleep(500));
    }
}

#[test]
fn an_outage_of_the_desktop_rearms_the_monitor() {
    let (mut engine, mut rx) = engine();
    let mine = engine.start().unwrap();
    let mut s = ImageSync::new(mine, engine.image_params, 0);
    for _ in 0..3 {
        s = s.step(ImageEvent::Go, &mut engine, &mut rx, 0).0;
    }
    assert_eq!(s.phase, ImagePhase::Creating);
    let (s, action) = s.step(
        ImageEvent::Created(CreateOutcome::Failed),
        &mut engine,
        &mut rx,
        0,
    );
    assert_eq!(action, ImageAction::Again);
    assert_eq!(s.create_fails, 1);
    let s = s.step(ImageEvent::Go, &mut engine, &mut rx, 0).0;
    let s = s.step(ImageEvent::Go, &mut engine, &mut rx, 500).0;
    drain(&mut rx);
    let (s, action) = s.step(
        ImageEvent::Created(CreateOutcome::Ready),
        &mut engine,
        &mut rx,
        500,
    );
    assert_eq!(action, ImageAction::Again);
    assert!(s.reinit_needed && s.capturing);
    assert_eq!(s.create_fails, 0);
    // The monitor is re-armed before the first frame is waited for.
    let (s, action) = s.step(ImageEvent::Go, &mut engine, &mut rx, 500);
    assert_eq!(action, ImageAction::Sleep(250));
    let (_, action) = s.step(ImageEvent::Go, &mut engine, &mut rx, 750);
    assert_eq!(action, ImageAction::Acquire(200));
    assert_eq!(
        drain(&mut rx),
        (
            vec![
                UsbCommand::TurnOn,
                UsbCommand::SetBrightness(12),
                UsbCommand::SetMode(8),
                UsbCommand::ArmSync(8),
            ],
            vec![]
        )
    );
}

#[test]
fn a_machine_without_compute_gives_up() {
    let (mut engine, mut rx) = engine();
    let mine = engine.start().unwrap();
    let mut s = ImageSync::new(mine, engine.image_params, 0);
    for _ in 0..3 {
        s = s.step(ImageEvent::Go, &mut engine, &mut rx, 0).0;
    }
    let (_, action) = s.step(
        ImageEvent::Created(CreateOutcome::Unavailable),
        &mut engine,
        &mut rx,
        0,
    );
    assert_eq!(action, ImageAction::GiveUp);
    assert!(!engine.state.running);
    // Not when a newer session runs the engine by now.
    let (_, newer) = (engine.stop(&mut rx), engine.start().unwrap());
    let (_, action) = s.step(
        ImageEvent::Created(CreateOutcome::Unavailable),
        &mut engine,
        &mut rx,
        0,
    );
    assert_eq!(action, ImageAction::Finish);
    assert!(engine.state.is_valid(newer));
}

#[test]
fn an_absent_monitor_pauses_the_session() {
    let (s, mut engine, mut rx) = acquiring();
    drain(&mut rx);
    engine.set_connected(false);
    let (s, _) = s.step(
        ImageEvent::Acquired(AcquireOutcome::Nothing),
        &mut engine,
        &mut rx,
        1100,
    );
    let (s, action) = s.step(ImageEvent::Go, &mut engine, &mut rx, 1100);
    assert_eq!(action, ImageAction::Sleep(1000));
    assert!(s.reinit_needed);
    engine.set_connected(true);
    let (s, _) = s.step(ImageEvent::Go, &mut engine, &mut rx, 2100);
    assert_eq!(s.phase, ImagePhase::Rearming);
    assert_eq!(drain(&mut rx).0.len(), 3);
}

#[test]
fn a_stop_during_the_wait_silences_the_frame() {
    let (s, mut engine, mut rx) = acquiring();
    engine.stop(&mut rx);
    drain(&mut rx);
    let (s, action) = s.step(frame(200, true), &mut engine, &mut rx, 1100);
    assert_eq!(action, ImageAction::Finish);
    assert_eq!(drain(&mut rx), (vec![], vec![]));
    let (_, action) = s.step(frame(200, true), &mut engine, &mut rx, 1100);
    assert_eq!(action, ImageAction::Finish);
}

#[test]
fn pacing_follows_the_frame_rate() {
    for (fps, spent, want) in [
        (30u32, 3u64, ImageAction::Sleep(30)),
        (30, 33, ImageAction::Sleep(0)),
        (30, 34, ImageAction::Again),
        (0, 0, ImageAction::Sleep(1000)),
        (5000, 0, ImageAction::Sleep(1)),
    ] {
        let (mut s, mut engine, mut rx) = acquiring();
        s.params.fps = fps;
        let (_, action) = s.step(frame(1, true), &mut engine, &mut rx, 1000 + spent);
        assert_eq!(action, want);
    }
}

#[test]
fn a_full_queue_is_counted() {
    let (s, mut engine, mut rx) = acquiring();
    drain(&mut rx);
    let mut s = s;
    for v in 0..6 {
        s = feed(s, &mut engine, &mut rx, frame(v, true), 1100);
    }
    assert_eq!(s.counters.queue_full, 2);
    assert_eq!(drain(&mut rx).1.len(), 4);
}

#[test]
fn events_out_of_turn_change_nothing() {
    let (s, mut engine, mut rx) = acquiring();
    drain(&mut rx);
    let (s, action) = s.step(ImageEvent::Go, &mut engine, &mut rx, 1100);
    assert_eq!(action, ImageAction::Acquire(200));
    assert_eq!(s.phase, ImagePhase::Acquiring);
    assert_eq!(drain(&mut rx), (vec![], vec![]));
}

#[test]
fn sources_name_their_screen() {
    let source = Source::ImageSync { screen: "x".to_string() };
    assert!(matches!(source, Source::ImageSync { screen } if screen == "x"));
}
