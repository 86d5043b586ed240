use lg_ultragear_rgb_control::audio::{
    default_device_changed, same_color, AudioColor, AudioParams, Blink, DeviceWatch, DynamicRange,
};
use lg_ultragear_rgb_control::audio_sync::{AudioAction, AudioEvent, AudioPhase, AudioSync, Poll};
use lg_ultragear_rgb_control::engine::Engine;
use lg_ultragear_rgb_control::factor::Factor;
use lg_ultragear_rgb_control::usb::{command_bus, CommandRx, UsbCommand};
use lg_ultragear_rgb_control::usb_protocol::RGBColor;

fn f(v: f32) -> Factor {
    Factor { bits: v.to_bits() }
}

fn colors(v: u8) -> [RGBColor; 48] {
    [RGBColor { r: v, g: v, b: v }; 48]
}

fn drain(rx: &mut CommandRx) -> (Vec<UsbCommand>, Vec<UsbCommand>) {
    let mut ctrl = Vec::new();
    while let Some(cmd) = rx.take_control() {
        ctrl.push(cmd);
    }
    let mut frames = Vec::new();
    while let Some(cmd) = rx.take_frame() {
        if cmd != UsbCommand::Wake {
            frames.push(cmd);
        }
    }
    (ctrl, frames)
}

#[test]
fn envelopes_and_curves() {
    assert_eq!(Blink::Smooth.envelope(), (f(0.35), f(0.04)));
    assert_eq!(Blink::Normal.envelope(), (f(1.0), f(0.15)));
    assert_eq!(Blink::Fast.envelope(), (f(1.0), f(0.55)));
    assert_eq!(DynamicRange::Compressed.curve(), (f(3.5), f(0.6)));
    assert_eq!(DynamicRange::Normal.curve(), (f(2.4), f(0.9)));
    assert_eq!(DynamicRange::Expanded.curve(), (f(2.0), f(1.5)));
    assert_eq!(DynamicRange::Extreme.curve(), (f(3.0), f(2.2)));
    let params = AudioParams::default();
    assert_eq!(params.gain, f(1.0));
    assert_eq!(params.color, AudioColor::Rainbow);
}

#[test]
fn colors_compare_by_value() {
    assert!(same_color(AudioColor::Rainbow, AudioColor::Rainbow));
    assert!(same_color(AudioColor::Solid([1, 2, 3]), AudioColor::Solid([1, 2, 3])));
    assert!(!same_color(AudioColor::Solid([1, 2, 3]), AudioColor::Solid([1, 2, 4])));
    assert!(!same_color(AudioColor::Rainbow, AudioColor::Solid([1, 2, 3])));
}

#[test]
fn the_device_is_checked_every_thirtieth_poll() {
    let mut watch = DeviceWatch::new();
    let due: Vec<u32> = (1..=90).filter(|_| watch.poll()).collect();
    assert_eq!(due, vec![30, 60, 90]);
}

#[test]
fn devices_are_told_apart_by_endpoint() {
    assert!(!default_device_changed("{1}", Some("{1}")));
    assert!(default_device_changed("{1}", Some("{2}")));
    assert!(!default_device_changed("{1}", None));
}

/// A session that polls, with the init drained.
fn polling() -> (AudioSync, Engine, CommandRx) {
    let (tx, mut rx) = command_bus();
    let mut engine = Engine::new(tx);
    engine.set_connected(true);
    let mine = engine.start().unwrap();
    let s = AudioSync::new(mine, 0);
    let (s, action) = s.step(AudioEvent::Go, &mut engine, &mut rx, 0);
    assert_eq!(action, AudioAction::Sleep(250));
    let (s, action) = s.step(AudioEvent::Go, &mut engine, &mut rx, 250);
    assert_eq!(action, AudioAction::Open);
    let (ctrl, _) = drain(&mut rx);
    assert_eq!(
        ctrl,
        vec![
            UsbCommand::SetSession(1),
            UsbCommand::TurnOn,
            UsbCommand::SetBrightness(12),
            UsbCommand::SetMode(7),
            UsbCommand::ArmSync(7),
        ]
    );
    let (s, action) = s.step(AudioEvent::Opened(true), &mut engine, &mut rx, 1000);
    assert_eq!(action, AudioAction::Again);
    let (s, action) = s.step(AudioEvent::Go, &mut engine, &mut rx, 1000);
    assert_eq!(action, AudioAction::Poll);
    (s, engine, rx)
}

#[test]
fn a_level_is_painted_and_sent_once() {
    let (s, mut engine, mut rx) = polling();
    engine.set_brightness(6);
    let (s, action) = s.step(
        AudioEvent::Polled(Poll::Level(f(0.5))),
        &mut engine,
        &mut rx,
        1033,
    );
    assert_eq!(action, AudioAction::Paint { level: f(0.5), brightness: 6 });
    let (s, action) = s.step(AudioEvent::Painted(colors(64)), &mut engine, &mut rx, 1034);
    assert_eq!(action, AudioAction::Again);
    assert_eq!(drain(&mut rx).1, vec![UsbCommand::SendColors(1, colors(64), true)]);
    let s = s.step(AudioEvent::Go, &mut engine, &mut rx, 1034).0;
    let s = s
        .step(AudioEvent::Polled(Poll::Level(f(0.5))), &mut engine, &mut rx, 1067)
        .0;
    s.step(AudioEvent::Painted(colors(64)), &mut engine, &mut rx, 1068);
    assert_eq!(drain(&mut rx).1, vec![]);
}

#[test]
fn silence_keeps_the_monitor_armed() {
    let (mut s, mut engine, mut rx) = polling();
    s = s
        .step(AudioEvent::Polled(Poll::Level(f(0.0))), &mut engine, &mut rx, 1000)
        .0;
    s = s.step(AudioEvent::Painted(colors(0)), &mut engine, &mut rx, 1000).0;
    drain(&mut rx);
    for (now, want) in [(5999u64, 0usize), (6000, 1)] {
        s = s.step(AudioEvent::Go, &mut engine, &mut rx, now).0;
        s = s
            .step(AudioEvent::Polled(Poll::Level(f(0.0))), &mut engine, &mut rx, now)
            .0;
        s = s.step(AudioEvent::Painted(colors(0)), &mut engine, &mut rx, now).0;
        assert_eq!(drain(&mut rx).1.len(), want);
    }
}

#[test]
fn glitches_paint_the_last_level_and_long_failures_reopen() {
    let (mut s, mut engine, mut rx) = polling();
    s = s
        .step(AudioEvent::Polled(Poll::Level(f(0.25))), &mut engine, &mut rx, 1000)
        .0;
    s = s.step(AudioEvent::Painted(colors(1)), &mut engine, &mut rx, 1000).0;
    for round in 1..=100 {
        s = s.step(AudioEvent::Go, &mut engine, &mut rx, 1000).0;
        let (next, action) = s.step(
            AudioEvent::Polled(Poll::Failed),
            &mut engine,
            &mut rx,
            1000,
        );
        if round < 100 {
            assert_eq!(action, AudioAction::Paint { level: f(0.25), brightness: 12 });
            s = next.step(AudioEvent::Painted(colors(1)), &mut engine, &mut rx, 1000).0;
        } else {
            assert_eq!(action, AudioAction::Open);
            s = next;
        }
    }
    let (s, action) = s.step(AudioEvent::Opened(true), &mut engine, &mut rx, 1000);
    assert_eq!(action, AudioAction::Paint { level: f(0.0), brightness: 12 });
    assert_eq!(s.failures, 0);
}

#[test]
fn another_default_device_is_followed_at_once() {
    let (s, mut engine, mut rx) = polling();
    let (s, action) = s.step(
        AudioEvent::Polled(Poll::DeviceChanged),
        &mut engine,
        &mut rx,
        1000,
    );
    assert_eq!(action, AudioAction::Open);
    let (_, action) = s.step(AudioEvent::Opened(false), &mut engine, &mut rx, 1000);
    assert_eq!(action, AudioAction::GiveUp);
    assert!(!engine.state.running);
}

#[test]
fn no_capture_at_all_gives_up() {
    let (tx, mut rx) = command_bus();
    let mut engine = Engine::new(tx);
    engine.set_connected(true);
    let mine = engine.start().unwrap();
    let s = AudioSync::new(mine, 0);
    let s = s.step(AudioEvent::Go, &mut engine, &mut rx, 0).0;
    let s = s.step(AudioEvent::Go, &mut engine, &mut rx, 250).0;
    let (s, action) = s.step(AudioEvent::Opened(false), &mut engine, &mut rx, 251);
    assert_eq!(action, AudioAction::GiveUp);
    assert_eq!(s.phase, AudioPhase::Finished);
    assert!(!engine.state.running);
}

#[test]
fn a_rearm_forces_the_next_frame_out() {
    let (mut s, mut engine, mut rx) = polling();
    s = s
        .step(AudioEvent::Polled(Poll::Level(f(0.5))), &mut engine, &mut rx, 1000)
        .0;
    s = s.step(AudioEvent::Painted(colors(5)), &mut engine, &mut rx, 1000).0;
    drain(&mut rx);
    engine.request_reinit();
    let (next, action) = s.step(AudioEvent::Go, &mut engine, &mut rx, 1000);
    assert_eq!(action, AudioAction::Sleep(250));
    let (next, action) = next.step(AudioEvent::Go, &mut engine, &mut rx, 1250);
    assert_eq!(action, AudioAction::Poll);
    assert_eq!(
        drain(&mut rx).0,
        vec![
            UsbCommand::TurnOn,
            UsbCommand::SetBrightness(12),
            UsbCommand::SetMode(7),
            UsbCommand::ArmSync(7),
        ]
    );
    let next = next
        .step(AudioEvent::Polled(Poll::Level(f(0.5))), &mut engine, &mut rx, 1283)
        .0;
    next.step(AudioEvent::Painted(colors(5)), &mut engine, &mut rx, 1283);
    assert_eq!(drain(&mut rx).1.len(), 1);
}

#[test]
fn a_stopped_audio_session_is_silent() {
    let (s, mut engine, mut rx) = polling();
    let s = s
        .step(AudioEvent::Polled(Poll::Level(f(0.5))), &mut engine, &mut rx, 1000)
        .0;
    engine.stop(&mut rx);
    drain(&mut rx);
    let (_, action) = s.step(AudioEvent::Painted(colors(5)), &mut engine, &mut rx, 1000);
    assert_eq!(action, AudioAction::Finish);
    assert_eq!(drain(&mut rx), (vec![], vec![]));
}
