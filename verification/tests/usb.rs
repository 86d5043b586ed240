use lg_ultragear_rgb_control::usb::{
    command_bus, execute, matches_monitor, open_monitor, recv_next, CommandRx, CommandTx, HidInfo,
    Recv, SessionGate, UsbAction, UsbCommand, UsbEvent, UsbWorker, FRAME_QUEUE,
    PRESENCE_PROBE_EVERY, RECONNECT_EVERY,
};
use lg_ultragear_rgb_control::usb_protocol::RGBColor;

fn colors(v: u8) -> [RGBColor; 48] {
    [RGBColor { r: v, g: v, b: v }; 48]
}

/// The next control-plane command, asserted by value.
fn expect_ctrl(rx: &mut CommandRx, want: &UsbCommand) {
    match rx.take_control() {
        Some(cmd) => assert_eq!(&cmd, want, "wrong control command"),
        None => panic!("control plane empty"),
    }
}

#[test]
fn session_registration_is_monotonic() {
    let mut gate = SessionGate::default();
    gate.register(5);
    // A SetSession from an older stop, landing after a newer
    // registration: must never regress the active session.
    gate.register(3);
    assert_eq!(gate.active, 5);
    gate.register(9);
    assert_eq!(gate.active, 9);
}

#[test]
fn only_the_registered_sessions_frames_pass() {
    let mut gate = SessionGate::default();
    gate.register(7); // a running session
    assert!(gate.accepts(7));
    assert!(!gate.accepts(6)); // a superseded session's late frame
    gate.register(8); // stop's dead token: greater than any live session
    assert!(!gate.accepts(7)); // the stopped session's in-flight frame
    gate.register(9); // the next start
    assert!(gate.accepts(9));
}

#[test]
fn control_commands_keep_order_and_poke_the_frame_channel() {
    let (tx, mut rx) = command_bus();
    for i in 0..3u8 {
        assert!(tx.control(&mut rx, UsbCommand::SetBrightness(i)));
    }
    for i in 0..3u8 {
        expect_ctrl(&mut rx, &UsbCommand::SetBrightness(i));
    }
    // Each control enqueue left exactly one Wake on the frame channel.
    for _ in 0..3 {
        assert!(matches!(rx.take_frame(), Some(UsbCommand::Wake)));
    }
    assert!(rx.take_frame().is_none());
}

#[test]
fn frames_are_lossy_when_the_queue_is_full() {
    let (tx, mut rx) = command_bus();
    for _ in 0..FRAME_QUEUE {
        assert!(tx.frame(&mut rx, 7, colors(1), false));
    }
    // Saturated: the next frame is dropped, never blocking the producer.
    assert!(!tx.frame(&mut rx, 7, colors(2), false));
    // And control commands still go through untouched.
    assert!(tx.control(&mut rx, UsbCommand::TurnOff));
}

#[test]
fn sendcolors_routed_through_control_takes_the_lossy_path() {
    let (tx, mut rx) = command_bus();
    assert!(tx.control(&mut rx, UsbCommand::SendColors(3, colors(9), true)));
    assert!(rx.take_control().is_none());
    match rx.take_frame() {
        Some(UsbCommand::SendColors(s, c, a)) => {
            assert_eq!((s, c[0].r, a), (3, 9, true));
        }
        other => panic!("frame missing from the data plane: {other:?}"),
    }
}

#[test]
fn control_plane_is_drained_before_a_saturated_frame_queue() {
    let (tx, mut rx) = command_bus();
    for _ in 0..FRAME_QUEUE {
        assert!(tx.frame(&mut rx, 7, colors(1), false));
    }
    assert!(!tx.frame(&mut rx, 7, colors(2), false)); // saturated
    // The menu's stop + manual sequence, enqueued while saturated.
    tx.control(&mut rx, UsbCommand::SetSession(8));
    tx.control(&mut rx, UsbCommand::SetStaticColor(2, 0xAA, 0, 0));
    // Both commands are serviced before ANY frame, in order.
    match recv_next(&mut rx, false) {
        Some(Recv::Cmd(UsbCommand::SetSession(8))) => {}
        other => panic!("expected SetSession first, got {other:?}"),
    }
    match recv_next(&mut rx, false) {
        Some(Recv::Cmd(UsbCommand::SetStaticColor(2, 0xAA, 0, 0))) => {}
        other => panic!("expected the manual command second, got {other:?}"),
    }
    // Only now does a frame come through.
    match recv_next(&mut rx, false) {
        Some(Recv::Cmd(UsbCommand::SendColors(..))) => {}
        other => panic!("expected a frame, got {other:?}"),
    }
}

#[test]
fn control_enqueue_wakes_a_worker_blocked_on_frames() {
    let (tx, mut rx) = command_bus();
    // The worker's only blocking wait: nothing on either plane.
    assert!(recv_next(&mut rx, false).is_none());
    tx.control(&mut rx, UsbCommand::Probe);
    match recv_next(&mut rx, false) {
        Some(Recv::Cmd(UsbCommand::Probe)) => {}
        other => panic!("control command did not wake the waiter: {other:?}"),
    }
    // The wake token behind it is consumed silently.
    assert!(recv_next(&mut rx, false).is_none());
    assert!(rx.take_frame().is_none());
}

#[test]
fn recv_next_times_out_and_finishes_on_disconnect() {
    let (tx, mut rx) = command_bus();
    assert!(matches!(recv_next(&mut rx, true), Some(Recv::Tick)));
    tx.release(&mut rx);
    assert!(matches!(recv_next(&mut rx, true), Some(Recv::Done)));
}

#[test]
fn queued_commands_are_served_before_the_end() {
    let (tx, mut rx) = command_bus();
    let second = tx.duplicate(&mut rx);
    tx.control(&mut rx, UsbCommand::TurnOn);
    tx.release(&mut rx);
    assert!(matches!(recv_next(&mut rx, false), Some(Recv::Cmd(UsbCommand::TurnOn))));
    // One sender is left: the bus waits.
    assert!(recv_next(&mut rx, false).is_none());
    second.release(&mut rx);
    assert!(matches!(recv_next(&mut rx, false), Some(Recv::Done)));
}

#[test]
fn a_closed_bus_takes_nothing() {
    let (tx, mut rx) = command_bus();
    assert!(rx.is_open());
    rx.close();
    assert!(!rx.is_open());
    assert!(!tx.control(&mut rx, UsbCommand::TurnOn));
    assert!(!tx.frame(&mut rx, 1, colors(1), false));
    assert!(rx.take_control().is_none());
    assert!(rx.take_frame().is_none());
}

/// The scenario the bus exists for: a saturated frame queue of a running
/// session, the stop + manual click sequence, and late in-flight frames from
/// the dying session at every possible moment.
#[test]
fn stopped_sessions_late_frame_never_overtakes_the_manual_command() {
    for late_at in 0..12 {
        let (tx, mut rx) = command_bus();
        // Session 5 is running and has saturated the frame queue.
        for _ in 0..FRAME_QUEUE {
            assert!(tx.frame(&mut rx, 5, colors(1), false));
        }
        let late: CommandTx = tx.duplicate(&mut rx);
        // The menu sequence: stop() then the manual click.
        tx.control(&mut rx, UsbCommand::SetSession(6)); // stop()'s dead token
        tx.control(&mut rx, UsbCommand::SetStaticColor(2, 0xAA, 0, 0));
        tx.release(&mut rx);

        let mut gate = SessionGate::default();
        gate.register(5);
        let mut saw_manual = false;
        let mut stale_after_manual = 0;
        for step in 0..20 {
            if step == late_at {
                let _ = late.frame(&mut rx, 5, colors(2), false);
            }
            match recv_next(&mut rx, false) {
                Some(Recv::Cmd(UsbCommand::SetSession(s))) => gate.register(s),
                Some(Recv::Cmd(UsbCommand::SendColors(s, _, _))) => {
                    if gate.accepts(s) && saw_manual {
                        stale_after_manual += 1;
                    }
                }
                Some(Recv::Cmd(UsbCommand::SetStaticColor(..))) => saw_manual = true,
                Some(Recv::Cmd(_)) => {}
                Some(Recv::Tick) | Some(Recv::Done) | None => {}
            }
        }
        assert!(saw_manual, "the manual command was never serviced");
        assert_eq!(
            stale_after_manual, 0,
            "a stale frame of the stopped session executed after the manual command"
        );
    }
}

#[test]
fn stale_frames_and_bookkeeping_write_nothing() {
    let gate = SessionGate { active: 4 };
    assert_eq!(execute(&UsbCommand::SendColors(4, colors(1), false), &gate).len(), 3);
    assert!(execute(&UsbCommand::SendColors(3, colors(1), false), &gate).is_empty());
    for cmd in [
        UsbCommand::SetSession(9),
        UsbCommand::Probe,
        UsbCommand::Stop,
        UsbCommand::Wake,
    ] {
        assert!(execute(&cmd, &gate).is_empty());
    }
    assert_eq!(execute(&UsbCommand::TurnOn, &gate).len(), 1);
    assert_eq!(execute(&UsbCommand::SetMode(8), &gate).len(), 2);
    assert_eq!(execute(&UsbCommand::SetStaticColor(1, 2, 3, 4), &gate).len(), 2);
    assert_eq!(execute(&UsbCommand::StoreStaticColor(1, 2, 3, 4), &gate).len(), 1);
    assert_eq!(execute(&UsbCommand::ArmSync(8), &gate).len(), 1);
    assert_eq!(execute(&UsbCommand::SetBrightness(3), &gate).len(), 1);
    assert_eq!(execute(&UsbCommand::TurnOff, &gate).len(), 1);
}

fn info(vendor_id: u16, product_id: u16, usage_page: u16) -> HidInfo {
    HidInfo { vendor_id, product_id, usage_page }
}

#[test]
fn the_monitor_is_told_from_other_devices() {
    assert!(matches_monitor(&info(0x043E, 0x9A8A, 0xFF01)));
    assert!(matches_monitor(&info(0x043E, 0x9A8A, 0)));
    assert!(!matches_monitor(&info(0x043E, 0x9A8A, 1)));
    assert!(matches_monitor(&info(0x043E, 0x9A57, 0x1234)));
    assert!(!matches_monitor(&info(0x043E, 0x1111, 0xFF01)));
    assert!(!matches_monitor(&info(0x0001, 0x9A57, 0xFF01)));
    let list = [
        info(1, 2, 3),
        info(0x043E, 0x9A8A, 7),
        info(0x043E, 0x9A57, 7),
        info(0x043E, 0x9A8A, 0),
    ];
    assert_eq!(open_monitor(&list), Some(2));
    assert_eq!(open_monitor(&list[..2]), None);
}

fn is_receive(worker: &UsbWorker, wait: u64) -> bool {
    matches!(worker.action(), UsbAction::Receive(ms) if ms == wait)
}

#[test]
fn the_worker_writes_a_command_report_by_report() {
    let (worker, announce) = UsbWorker::start(true, true, 0);
    assert!(announce);
    assert!(worker.connected());
    assert!(is_receive(&worker, PRESENCE_PROBE_EVERY));
    let cmd = UsbCommand::SetMode(8);
    let (worker, changed) = worker.step(UsbEvent::Received(Recv::Cmd(cmd)), 1);
    assert!(!changed);
    assert!(matches!(worker.action(), UsbAction::Write(r) if r[3] == 0xC7));
    let (worker, _) = worker.step(UsbEvent::Wrote(true), 2);
    assert!(matches!(worker.action(), UsbAction::Write(r) if r[3] == 0xCA));
    let (worker, _) = worker.step(UsbEvent::Wrote(true), 3);
    assert!(is_receive(&worker, PRESENCE_PROBE_EVERY));
}

#[test]
fn five_failures_in_a_row_drop_the_device() {
    let (mut worker, _) = UsbWorker::start(true, true, 0);
    for round in 0..5 {
        assert!(worker.connected());
        let (next, _) = worker.step(UsbEvent::Received(Recv::Cmd(UsbCommand::TurnOn)), 1);
        let (next, changed) = next.step(UsbEvent::Wrote(false), 2);
        assert_eq!(changed, round == 4);
        worker = next;
    }
    assert!(!worker.connected());
    assert!(is_receive(&worker, RECONNECT_EVERY));
}

#[test]
fn a_success_between_failures_keeps_the_device() {
    let (mut worker, _) = UsbWorker::start(true, true, 0);
    for ok in [false, false, false, false, true, false, false, false, false] {
        let (next, _) = worker.step(UsbEvent::Received(Recv::Cmd(UsbCommand::TurnOn)), 1);
        let (next, changed) = next.step(UsbEvent::Wrote(ok), 2);
        assert!(!changed);
        worker = next;
    }
    assert!(worker.connected());
}

#[test]
fn a_missing_device_is_retried_on_the_cadence_only() {
    let (worker, announce) = UsbWorker::start(true, false, 1000);
    assert!(!announce);
    // Too early: the command is dropped, nothing is opened.
    let (worker, _) = worker.step(UsbEvent::Received(Recv::Cmd(UsbCommand::TurnOn)), 2999);
    assert!(is_receive(&worker, RECONNECT_EVERY));
    // Due: reopen first, then the command that waited.
    let (worker, _) = worker.step(UsbEvent::Received(Recv::Cmd(UsbCommand::TurnOn)), 3000);
    assert!(matches!(worker.action(), UsbAction::Reopen));
    let (worker, changed) = worker.step(UsbEvent::Opened(true), 3001);
    assert!(changed);
    assert!(matches!(worker.action(), UsbAction::Write(r) if r[3] == 0xCF));
}

#[test]
fn a_failed_interface_is_initialised_again() {
    let (worker, _) = UsbWorker::start(false, false, 0);
    let (worker, _) = worker.step(UsbEvent::Received(Recv::Tick), 2000);
    assert!(matches!(worker.action(), UsbAction::InitApi));
    let (worker, _) = worker.step(UsbEvent::ApiReady(false), 2001);
    assert!(is_receive(&worker, RECONNECT_EVERY));
    let (worker, _) = worker.step(UsbEvent::Received(Recv::Tick), 4000);
    assert!(matches!(worker.action(), UsbAction::InitApi));
    // An unforced success waits for the next cadence before it enumerates.
    let (worker, _) = worker.step(UsbEvent::ApiReady(true), 4001);
    assert!(is_receive(&worker, RECONNECT_EVERY));
    // A notification does not.
    let (worker, _) = worker.step(UsbEvent::Received(Recv::Cmd(UsbCommand::Probe)), 4002);
    assert!(matches!(worker.action(), UsbAction::Reopen));
}

#[test]
fn a_lost_device_is_noticed_by_the_probe() {
    let (worker, _) = UsbWorker::start(true, true, 0);
    // A tick before the cadence does nothing.
    let (worker, _) = worker.step(UsbEvent::Received(Recv::Tick), 119_999);
    assert!(is_receive(&worker, PRESENCE_PROBE_EVERY));
    let (worker, _) = worker.step(UsbEvent::Received(Recv::Tick), 120_000);
    assert!(matches!(worker.action(), UsbAction::CheckPresence));
    let (worker, changed) = worker.step(UsbEvent::Present(true), 120_001);
    assert!(!changed);
    let (worker, _) = worker.step(UsbEvent::Received(Recv::Cmd(UsbCommand::Probe)), 120_002);
    assert!(matches!(worker.action(), UsbAction::CheckPresence));
    let (worker, changed) = worker.step(UsbEvent::Present(false), 120_003);
    assert!(changed);
    assert!(!worker.connected());
}

#[test]
fn sessions_register_and_stop_works_without_a_device() {
    let (worker, _) = UsbWorker::start(true, false, 0);
    let (worker, _) = worker.step(UsbEvent::Received(Recv::Cmd(UsbCommand::SetSession(7))), 1);
    let (worker, _) = worker.step(UsbEvent::Received(Recv::Cmd(UsbCommand::Probe)), 2);
    let (worker, _) = worker.step(UsbEvent::Opened(true), 3);
    // The session registered meanwhile is in force.
    let frame = UsbCommand::SendColors(7, colors(1), false);
    let (worker, _) = worker.step(UsbEvent::Received(Recv::Cmd(frame)), 4);
    assert!(matches!(worker.action(), UsbAction::Write(_)));

    let (worker, _) = UsbWorker::start(true, false, 0);
    let (worker, _) = worker.step(UsbEvent::Received(Recv::Cmd(UsbCommand::Stop)), 1);
    assert!(matches!(worker.action(), UsbAction::Exit));
    let (worker, _) = UsbWorker::start(true, true, 0);
    let (worker, _) = worker.step(UsbEvent::Received(Recv::Done), 1);
    assert!(matches!(worker.action(), UsbAction::Exit));
}

#[test]
fn a_stale_frame_counts_as_written() {
    let (mut worker, _) = UsbWorker::start(true, true, 0);
    for _ in 0..4 {
        let (next, _) = worker.step(UsbEvent::Received(Recv::Cmd(UsbCommand::TurnOn)), 1);
        worker = next.step(UsbEvent::Wrote(false), 2).0;
    }
    // A frame of an unknown session resets the failure count.
    let stale = UsbCommand::SendColors(99, colors(1), false);
    let (next, _) = worker.step(UsbEvent::Received(Recv::Cmd(stale)), 3);
    let (next, _) = next.step(UsbEvent::Received(Recv::Cmd(UsbCommand::TurnOn)), 4);
    let (next, changed) = next.step(UsbEvent::Wrote(false), 5);
    assert!(!changed);
    assert!(next.connected());
}

#[test]
fn a_failed_report_drops_the_rest_of_its_frame() {
    let (worker, _) = UsbWorker::start(true, true, 0);
    let (worker, _) = worker.step(UsbEvent::Received(Recv::Cmd(UsbCommand::SetSession(1))), 1);
    let frame = UsbCommand::SendColors(1, colors(9), false);
    let (worker, _) = worker.step(UsbEvent::Received(Recv::Cmd(frame)), 2);
    assert!(matches!(worker.action(), UsbAction::Write(r) if r[1..4] == [0x53, 0x43, 0xC1]));
    let (worker, _) = worker.step(UsbEvent::Wrote(true), 3);
    assert!(matches!(worker.action(), UsbAction::Write(r) if r[1..4] == [9, 9, 9]));
    let (worker, changed) = worker.step(UsbEvent::Wrote(false), 4);
    assert!(!changed);
    assert!(is_receive(&worker, PRESENCE_PROBE_EVERY));
}
