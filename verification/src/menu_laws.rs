//! What holds of the tray's rules as a whole.

use crate::engine;
use crate::menu;
use crate::menu::{Desk, Effect, Event, Status, SyncActive, UiState};
use crate::settings::Settings;
use crate::usb;
use crate::usb::UsbCommand;
use vstd::prelude::*;

verus! {

/// Do the mode checks match the running sync?
pub open spec fn consistent(ui: UiState) -> bool {
    &&& ui.sync == SyncActive::ImageSync ==> ui.mode == Some(engine::VIDEO_SYNC_MODE)
    &&& ui.sync == SyncActive::Audio ==> ui.mode == Some(engine::AUDIO_SYNC_MODE)
}

/// Whatever happens, the mode that the menu shows is that of the running sync.
pub proof fn checks_match_the_sync(d: Desk, event: Event, detected: Seq<char>, reason: Seq<char>)
    requires
        consistent(d.ui),
    ensures
        consistent(menu::handled(d, event, detected, reason).ui),
{
    lemma_syncing_is_consistent(d);
    match event {
        Event::Connection => {
            lemma_restoring_keeps_the_state(menu::refreshed(d));
        },
        Event::DisplayChanged => lemma_redetection_is_consistent(d, detected),
        Event::RestorePush => lemma_recovery_is_consistent(d),
        Event::EngineFailed(kind) => {
            reveal(menu::failed);
        },
        Event::ToggleImageSync | Event::ToggleAudio => {
            reveal(menu::stopped_engine);
            lemma_syncing_is_consistent(menu::halted(d));
        },
        Event::Quit => {
            reveal(menu::quitted);
        },
        Event::SlotPicked(slot, rgb) => {
            lemma_commands_are_consistent(
                d,
                UsbCommand::SetStaticColor(slot, rgb@[0], rgb@[1], rgb@[2]),
            );
        },
        Event::On => lemma_commands_are_consistent(d, UsbCommand::TurnOn),
        Event::Off => lemma_commands_are_consistent(d, UsbCommand::TurnOff),
        Event::Mode(mode) => lemma_commands_are_consistent(d, UsbCommand::SetMode(mode)),
        _ => lemma_retuning_is_consistent(d, event),
    }
}

proof fn lemma_syncing_is_consistent(d: Desk)
    ensures
        consistent(menu::synced(d, SyncActive::ImageSync).ui),
        consistent(menu::synced(d, SyncActive::Audio).ui),
        consistent(d.ui) ==> consistent(menu::synced(d, SyncActive::Off).ui),
{
    reveal(menu::synced);
}

proof fn lemma_restoring_keeps_the_state(d: Desk)
    ensures
        menu::device_state_pushed(d).ui == d.ui,
        menu::device_state_pushed(d).screen == d.screen,
        menu::device_state_pushed(d).engine == d.engine,
        menu::device_state_pushed(d).out == d.out,
{
    reveal(menu::device_state_pushed);
}

proof fn lemma_recovery_is_consistent(d: Desk)
    requires
        consistent(d.ui),
    ensures
        consistent(menu::recovered(d).ui),
{
    reveal(menu::recovered);
    lemma_syncing_is_consistent(d);
    lemma_restoring_keeps_the_state(d);
}

proof fn lemma_redetection_is_consistent(d: Desk, detected: Seq<char>)
    requires
        consistent(d.ui),
    ensures
        consistent(menu::redetected(d, detected).ui),
{
    reveal(menu::redetected);
    let d1 = Desk {
        screen: detected,
        ui: UiState {
            status: if d.engine.connected {
                Status::Connected
            } else {
                Status::Disconnected
            },
            ..d.ui
        },
        ..d
    };
    lemma_syncing_is_consistent(menu::halted(d1));
    lemma_recovery_is_consistent(d1);
}

proof fn lemma_commands_are_consistent(d: Desk, cmd: UsbCommand)
    ensures
        consistent(menu::commanded(d, cmd).ui),
{
    reveal(menu::commanded);
    reveal(menu::stopped_engine);
    let d1 = menu::stopped_engine(d, false);
    let d2 = Desk { ui: menu::mirrored(d1.ui, cmd), ..d1 };
    assert(d2.ui.sync == SyncActive::Off);
    lemma_carrying_out_is_consistent(d2, cmd, d.ui.sync != SyncActive::Off);
}

proof fn lemma_carrying_out_is_consistent(d: Desk, cmd: UsbCommand, was_syncing: bool)
    requires
        d.ui.sync == SyncActive::Off,
    ensures
        consistent(menu::carried_out(d, cmd, was_syncing).ui),
{
    reveal(menu::carried_out);
    reveal(menu::turned_on);
    reveal(menu::turned_off);
    lemma_syncing_is_consistent(d);
    lemma_syncing_is_consistent(Desk { ui: UiState { resume: None, ..d.ui }, ..d });
}

proof fn lemma_retuning_is_consistent(d: Desk, event: Event)
    requires
        consistent(d.ui),
    ensures
        consistent(menu::retuned(d, event).ui),
{
    reveal(menu::retuned);
    reveal(menu::tuned);
    match event {
        Event::Sampling(sampling) => {
            let params = engine::ImageSyncParams { sampling, ..d.ui.params };
            let d1 = Desk {
                ui: UiState { params, ..d.ui },
                engine: engine::Engine { image_params: params, ..d.engine },
                ..d
            };
            lemma_syncing_is_consistent(menu::halted(d1));
        },
        _ => {},
    }
}

/// Changing the brightness never stops a running sync, and reaches the monitor
/// only through it: the device stays at its level.
pub proof fn brightness_never_stops_a_sync(d: Desk, level: u8)
    requires
        d.ui.sync != SyncActive::Off,
    ensures
        ({
            let after = menu::brightened(d, level);
            &&& after.ui.sync == d.ui.sync
            &&& after.engine.state == d.engine.state
            &&& after.engine.brightness == engine::clamped(level)
            &&& after.bus == d.bus
        }),
{
}

/// Tuning applies live: no tuning but the sampling mode touches the session or
/// the bus, and none of the audio sync does.
pub proof fn tuning_applies_live(d: Desk, event: Event)
    requires
        !(event is Sampling),
    ensures
        menu::retuned(d, event).engine.state == d.engine.state,
        menu::retuned(d, event).bus == d.bus,
        menu::retuned(d, event).out == d.out,
        menu::retuned(d, event).ui.sync == d.ui.sync,
{
    reveal(menu::retuned);
    reveal(menu::tuned);
}

/// Is this a manual command that leaves the monitor in a normal mode, or off?
pub open spec fn is_manual(cmd: UsbCommand) -> bool {
    cmd is SetMode || cmd is SetStaticColor || cmd is TurnOff
}

/// A manual command is posted behind the invalidation of the session that was
/// running. With the guarantee of the bus, no frame of that session reaches the
/// monitor after the command.
pub proof fn manual_commands_follow_the_stop(d: Desk, cmd: UsbCommand)
    requires
        d.bus.open,
        is_manual(cmd),
    ensures
        ({
            let ctrl = menu::commanded(d, cmd).bus.ctrl;
            let n = d.bus.ctrl.len() as int;
            &&& ctrl.len() >= n + 2
            &&& ctrl.take(n) == d.bus.ctrl
            &&& ctrl[n] == UsbCommand::SetSession(engine::next_session(d.engine.state.session))
            &&& ctrl.last() == cmd
        }),
{
    reveal(menu::commanded);
    reveal(menu::stopped_engine);
    reveal(menu::carried_out);
    reveal(menu::turned_off);
    let after = menu::commanded(d, cmd);
    assert(after.bus.ctrl.take(d.bus.ctrl.len() as int) =~= d.bus.ctrl);
}

/// Once a manual command was serviced, no frame of the session that was running,
/// or of one before it, passes the worker's session check: whatever is queued by
/// then, whatever still arrives, and however slowly the bus is drained.
pub proof fn no_old_frame_follows_a_manual_command(
    d: Desk,
    cmd: UsbCommand,
    t: usb::Trace,
    moves: Seq<usb::Move>,
    q: int,
)
    requires
        is_manual(cmd),
        d.bus.open,
        usb::sorted_planes(d.bus),
        d.engine.state.session < u64::MAX,
        t.bus == menu::commanded(d, cmd).bus,
        t.log.len() == 0,
        0 <= q < usb::run(t, moves).log.len(),
        usb::controls_served(usb::run(t, moves).log.take(q)).len() >= t.bus.ctrl.len(),
    ensures
        usb::run(t, moves).log[q].0 matches UsbCommand::SendColors(s, _, _) ==> (usb::run(
            t,
            moves,
        ).log[q].1 == s ==> s > d.engine.state.session),
{
    manual_commands_follow_the_stop(d, cmd);
    lemma_commands_keep_the_planes_sorted(d, cmd);
    let n = d.bus.ctrl.len() as int;
    let ctrl = t.bus.ctrl;
    assert((ctrl + usb::controls_posted(moves))[n] == ctrl[n]);
    usb::stopped_frames_never_follow_a_manual_command(
        t,
        moves,
        n,
        ctrl.len() - 1,
        engine::next_session(d.engine.state.session),
        q,
    );
}

proof fn lemma_commands_keep_the_planes_sorted(d: Desk, cmd: UsbCommand)
    requires
        usb::sorted_planes(d.bus),
        d.bus.open,
        is_manual(cmd),
    ensures
        usb::sorted_planes(menu::commanded(d, cmd).bus),
        menu::commanded(d, cmd).bus.open,
{
    reveal(menu::commanded);
    reveal(menu::stopped_engine);
    reveal(menu::carried_out);
    reveal(menu::turned_off);
}

/// A manual command stops the sync, and none is left to come back by itself; a
/// power-off keeps the sync in mind for the next power-on.
pub proof fn manual_commands_win(d: Desk, cmd: UsbCommand)
    requires
        is_manual(cmd),
    ensures
        ({
            let after = menu::commanded(d, cmd);
            &&& after.ui.sync == SyncActive::Off
            &&& !after.engine.state.running
            &&& after.ui.pending_boot_sync is None
            &&& !(cmd is TurnOff) ==> after.ui.resume is None
            &&& cmd is TurnOff && d.ui.sync != SyncActive::Off ==> after.ui.resume == Some(
                d.ui.sync,
            )
        }),
{
    reveal(menu::commanded);
    reveal(menu::stopped_engine);
    reveal(menu::carried_out);
    reveal(menu::turned_off);
}

/// The LEDs turned off and on again bring the running sync back, in a session of
/// its own.
pub proof fn a_power_cycle_resumes_the_sync(d: Desk)
    requires
        d.ui.sync != SyncActive::Off,
        d.ui.sync == SyncActive::ImageSync ==> d.screen.len() > 0,
    ensures
        ({
            let off = menu::commanded(d, UsbCommand::TurnOff);
            let on = menu::commanded(off, UsbCommand::TurnOn);
            &&& !off.ui.leds_on
            &&& on.ui.leds_on
            &&& on.ui.sync == d.ui.sync
            &&& on.ui.resume is None
            &&& on.engine.state.running
            &&& on.out == d.out.push(
                if d.ui.sync == SyncActive::ImageSync {
                    Effect::StartImage(on.engine.state.session)
                } else {
                    Effect::StartAudio(on.engine.state.session)
                },
            )
        }),
{
    reveal(menu::commanded);
    reveal(menu::stopped_engine);
    reveal(menu::carried_out);
    reveal(menu::turned_off);
    reveal(menu::turned_on);
    reveal(menu::synced);
}

/// A session is asked for only when none is running, and it then is the valid
/// one: at most one session runs at any time.
pub proof fn a_start_claims_the_engine(d: Desk, image: bool)
    ensures
        ({
            let after = menu::launched(d, image);
            if d.engine.state.running {
                after == d
            } else {
                let mine = after.engine.state.session;
                &&& engine::valid(after.engine.state, mine)
                &&& after.out == d.out.push(
                    if image {
                        Effect::StartImage(mine)
                    } else {
                        Effect::StartAudio(mine)
                    },
                )
            }
        }),
{
}

/// A failure that arrives after its engine was started again changes nothing.
pub proof fn stale_failures_are_ignored(d: Desk, kind: menu::FailureKind, reason: Seq<char>)
    requires
        d.engine.state.running,
    ensures
        menu::failed(d, kind, reason) == d,
{
    reveal(menu::failed);
}

/// A failed engine leaves the monitor disarmed, in Static 1 and at the user's
/// brightness, with the reason on show and no sync running.
pub proof fn failures_disarm_the_monitor(d: Desk, kind: menu::FailureKind, reason: Seq<char>)
    requires
        !d.engine.state.running,
        d.bus.open,
    ensures
        ({
            let after = menu::failed(d, kind, reason);
            &&& after.bus.ctrl == d.bus.ctrl.push(UsbCommand::SetMode(1)).push(
                UsbCommand::SetBrightness(menu::level_of(d.ui)),
            )
            &&& after.ui.status == Status::Failed(kind)
            &&& after.failure == reason
            &&& after.ui.sync == SyncActive::Off
            &&& after.ui.mode == Some(1u8)
        }),
{
    reveal(menu::failed);
    let after = menu::failed(d, kind, reason);
    assert(after.bus.ctrl =~= d.bus.ctrl.push(UsbCommand::SetMode(1)).push(
        UsbCommand::SetBrightness(menu::level_of(d.ui)),
    ));
}

/// Does the command arm a sync mode?
pub open spec fn arms(cmd: UsbCommand) -> bool {
    ||| cmd matches UsbCommand::SetMode(m) && (m == 7 || m == 8)
    ||| cmd is ArmSync
    ||| cmd is SendColors
}

/// The restore burst never arms a sync mode: that takes a running engine.
pub proof fn restores_never_arm(d: Desk, i: int)
    requires
        d.bus.ctrl.len() <= i < menu::device_state_pushed(d).bus.ctrl.len(),
    ensures
        !arms(menu::device_state_pushed(d).bus.ctrl[i]),
{
    reveal(menu::device_state_pushed);
}

/// On exit the monitor is left disarmed: in a mode of its own, at the user's
/// brightness, and the worker stops behind that.
pub proof fn quitting_disarms(d: Desk)
    requires
        d.bus.open,
    ensures
        ({
            let after = menu::quitted(d);
            &&& 1 <= menu::exit_mode(d.ui) <= 6
            &&& after.bus.ctrl == d.bus.ctrl + seq![
                UsbCommand::SetSession(engine::next_session(d.engine.state.session)),
                UsbCommand::SetBrightness(menu::level_of(d.ui)),
                UsbCommand::SetMode(menu::exit_mode(d.ui)),
                UsbCommand::Stop,
            ]
            &&& after.out.last() is Quit
        }),
{
    reveal(menu::quitted);
    let after = menu::quitted(d);
    assert(after.bus.ctrl =~= d.bus.ctrl + seq![
        UsbCommand::SetSession(engine::next_session(d.engine.state.session)),
        UsbCommand::SetBrightness(menu::level_of(d.ui)),
        UsbCommand::SetMode(menu::exit_mode(d.ui)),
        UsbCommand::Stop,
    ]);
}

/// What is saved is what a restart brings back: the tunings, the language and
/// the monitor state; and the sync that was running, or its memory while its
/// screen is not up.
pub proof fn a_restart_restores_the_state(
    ui: UiState,
    screen: Seq<char>,
    autostart: bool,
    e: engine::Engine,
    bus: usb::Bus,
)
    requires
        !e.state.running,
        consistent(ui),
    ensures
        ({
            let back = menu::built(menu::settings_of(ui), screen, autostart, e, bus).ui;
            &&& back.params == ui.params
            &&& back.audio == ui.audio
            &&& back.language == ui.language
            &&& back.brightness == ui.brightness
            &&& back.slot_colors == ui.slot_colors
            &&& back.mode == ui.mode
            &&& ui.sync == SyncActive::ImageSync && screen.len() == 0 ==> back.sync
                == SyncActive::Off && back.pending_boot_sync == Some(SyncActive::ImageSync)
            &&& !(ui.sync == SyncActive::ImageSync && screen.len() == 0) ==> back.sync == ui.sync
                && back.pending_boot_sync is None
        }),
{
    reveal(menu::device_state_pushed);
    reveal(menu::synced);
}

/// An image sync that waits for its screen starts when the screen comes up.
pub proof fn a_pending_sync_starts_with_its_screen(d: Desk, detected: Seq<char>)
    requires
        d.ui.sync == SyncActive::Off,
        d.ui.pending_boot_sync == Some(SyncActive::ImageSync),
        detected != d.screen,
        detected.len() > 0,
        !d.engine.state.running,
    ensures
        ({
            let after = menu::redetected(d, detected);
            &&& after.ui.sync == SyncActive::ImageSync
            &&& after.ui.pending_boot_sync is None
            &&& after.engine.state.running
        }),
{
    reveal(menu::redetected);
    reveal(menu::recovered);
    reveal(menu::synced);
}

/// The application starts with checks that match its sync.
pub proof fn a_start_is_consistent(
    s: Settings,
    screen: Seq<char>,
    autostart: bool,
    e: engine::Engine,
    bus: usb::Bus,
)
    ensures
        consistent(menu::built(s, screen, autostart, e, bus).ui),
{
    reveal(menu::device_state_pushed);
    reveal(menu::synced);
}

} // verus!
