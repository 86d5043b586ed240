//! The rules of the tray menu: what every event does to the application's state,
//! the engine, the command bus and the outside.
//!
//! [`Ui`] is the state that menu and panel show. Every event, of the menu, the
//! panel and other threads alike, goes through [`handle_event`].

use crate::audio::{AudioColor, AudioParams, Blink, DynamicRange};
use crate::engine;
use crate::engine::{
    Engine, EngineState, ImageSyncParams, Source, AUDIO_SYNC_MODE, VIDEO_SYNC_MODE,
};
use crate::event_ids;
use crate::factor;
use crate::factor::Factor;
use crate::i18n::Language;
use crate::picker::PickerRequest;
use crate::sampling::SamplingMode;
use crate::settings::Settings;
use crate::text;
use crate::usb;
use crate::usb::{Bus, CommandRx, UsbCommand};
use vstd::prelude::*;

verus! {

/// Delay of the second pass of monitor recovery, in milliseconds: the first
/// burst can land on a lighting controller that is still booting.
pub const RECOVERY_REPEAT_DELAY: u64 = 1000;

/// Which sync source is running.
#[derive(Clone, Copy, PartialEq, Eq, Debug, Structural)]
pub enum SyncActive {
    Off,
    ImageSync,
    Audio,
}

/// Why an engine gave up.
#[derive(Clone, Copy, PartialEq, Eq, Debug, Structural)]
pub enum FailureKind {
    Image,
    Audio,
    Other,
}

/// What the status line says.
#[derive(Clone, Copy, PartialEq, Eq, Debug, Structural)]
pub enum Status {
    Disconnected,
    Connected,
    ImageSync,
    AudioSync,
    /// The strip monitor has no desktop right now.
    NoScreen,
    /// An engine gave up; its reason is kept beside.
    Failed(FailureKind),
}

/// The state that menu and panel show.
#[derive(Clone, Copy, Debug)]
pub struct UiState {
    pub sync: SyncActive,
    /// Sync to resume on the next "turn LEDs on".
    pub resume: Option<SyncActive>,
    /// Image Sync that was running at exit but whose screen was not up yet at
    /// app start. Cleared by any explicit user choice.
    pub pending_boot_sync: Option<SyncActive>,
    pub params: ImageSyncParams,
    pub audio: AudioParams,
    /// The last solid audio color, for leaving the rainbow again.
    pub last_solid: Option<[u8; 3]>,
    pub language: Language,
    /// Monitor state as last pushed. `None`: never pushed; the protocol has no
    /// read-back.
    pub brightness: Option<u8>,
    pub mode: Option<u8>,
    pub slot_colors: [Option<[u8; 3]>; 4],
    pub status: Status,
    /// What the tray tooltip says.
    pub tooltip: Status,
    /// Is the strip lit?
    pub leds_on: bool,
    pub autostart: bool,
    /// Has the recovery pass of the first enumeration been scheduled?
    pub startup_pass: bool,
}

pub struct Ui {
    pub state: UiState,
    /// Desktop output of the strip monitor, the image sync source. Empty: its
    /// desktop is not there right now.
    pub selected_screen: String,
    /// Why the last engine gave up.
    pub failure: String,
}

/// What an event asks of the outside.
#[derive(Clone, Copy, Debug)]
pub enum Effect {
    /// Start an image sync session with this token on the selected screen.
    StartImage(u64),
    /// Start an audio sync session with this token.
    StartAudio(u64),
    /// Post the recovery event after [`RECOVERY_REPEAT_DELAY`].
    ScheduleRecovery,
    OpenPanel,
    OpenPicker(PickerRequest),
    /// Write or remove the autostart entry.
    SetAutostart(bool),
    SwitchLanguage(Language),
    /// Save the settings; rapid changes may wait.
    Save { rapid: bool },
    Quit,
}

/// Everything that an event can change.
pub struct Desk {
    pub ui: UiState,
    pub screen: Seq<char>,
    pub failure: Seq<char>,
    pub engine: Engine,
    pub bus: Bus,
    pub out: Seq<Effect>,
}

pub open spec fn sent(d: Desk, cmd: UsbCommand) -> Desk {
    Desk { bus: usb::posted(d.bus, cmd), ..d }
}

pub open spec fn asked(d: Desk, effect: Effect) -> Desk {
    Desk { out: d.out.push(effect), ..d }
}

/// The engine stopped, and its session invalidated on the bus.
pub open spec fn halted(d: Desk) -> Desk {
    Desk {
        engine: Engine { state: engine::stopped(d.engine.state), ..d.engine },
        bus: usb::posted(
            d.bus,
            UsbCommand::SetSession(engine::next_session(d.engine.state.session)),
        ),
        ..d
    }
}

/// What there is to say: the connection first, then what the app is doing.
pub open spec fn status_now(d: Desk) -> Status {
    if !d.engine.connected {
        Status::Disconnected
    } else {
        match d.ui.sync {
            SyncActive::ImageSync => Status::ImageSync,
            SyncActive::Audio => Status::AudioSync,
            SyncActive::Off => Status::Connected,
        }
    }
}

/// Status line and tooltip recomputed.
pub open spec fn refreshed(d: Desk) -> Desk {
    Desk { ui: UiState { status: status_now(d), tooltip: status_now(d), ..d.ui }, ..d }
}

/// The engine claimed for a session, whose start is asked for. An engine that is
/// already running starts nothing.
pub open spec fn launched(d: Desk, image: bool) -> Desk {
    if d.engine.state.running {
        d
    } else {
        let mine = engine::next_session(d.engine.state.session);
        asked(
            Desk { engine: Engine { state: engine::started(d.engine.state), ..d.engine }, ..d },
            if image {
                Effect::StartImage(mine)
            } else {
                Effect::StartAudio(mine)
            },
        )
    }
}

/// A sync armed and started. The state mirrors what the engine's init pushes:
/// the strip on, in the sync's own mode. Any start supersedes a sync still
/// pending from app start.
#[verifier::opaque]
pub open spec fn synced(d: Desk, which: SyncActive) -> Desk {
    refreshed(
        match which {
            SyncActive::ImageSync => launched(
                Desk {
                    ui: UiState {
                        pending_boot_sync: None,
                        sync: SyncActive::ImageSync,
                        mode: Some(VIDEO_SYNC_MODE),
                        leds_on: true,
                        ..d.ui
                    },
                    ..d
                },
                true,
            ),
            SyncActive::Audio => launched(
                Desk {
                    ui: UiState {
                        pending_boot_sync: None,
                        sync: SyncActive::Audio,
                        mode: Some(AUDIO_SYNC_MODE),
                        leds_on: true,
                        ..d.ui
                    },
                    ..d
                },
                false,
            ),
            SyncActive::Off => Desk { ui: UiState { pending_boot_sync: None, ..d.ui }, ..d },
        },
    )
}

/// The user's brightness level, or the top one.
pub open spec fn level_of(ui: UiState) -> u8 {
    match ui.brightness {
        Some(level) => level,
        None => 12u8,
    }
}

/// The engine stopped by hand. The sync that was running is remembered for "turn
/// LEDs on", unless Static 1 is restored. The mode leaves first: the device
/// brightness, which sat at the top during sync, is restored behind it.
#[verifier::opaque]
pub open spec fn stopped_engine(d: Desk, restore_static1: bool) -> Desk {
    let was = d.ui.sync;
    let d1 = halted(d);
    let d2 = if was != SyncActive::Off {
        Desk { ui: UiState { resume: Some(was), ..d1.ui }, ..d1 }
    } else {
        d1
    };
    let d3 = if restore_static1 {
        let s = sent(d2, UsbCommand::SetMode(1));
        Desk { ui: UiState { resume: None, mode: Some(1), ..s.ui }, ..s }
    } else {
        d2
    };
    let d4 = if was != SyncActive::Off {
        sent(d3, UsbCommand::SetBrightness(level_of(d3.ui)))
    } else {
        d3
    };
    refreshed(Desk { ui: UiState { sync: SyncActive::Off, ..d4.ui }, ..d4 })
}

/// The stored color of slot `i`, if any, sent to the monitor without a mode
/// switch.
pub open spec fn slot_pushed(d: Desk, i: int) -> Desk {
    match d.ui.slot_colors@[i] {
        Some(rgb) => sent(
            d,
            UsbCommand::StoreStaticColor((i + 1) as u8, rgb@[0], rgb@[1], rgb@[2]),
        ),
        None => d,
    }
}

/// The last-known monitor state sent again: brightness, unless a sync dims in
/// software; the slot colors; and the mode, unless it is a sync mode, which only
/// a running engine may arm.
#[verifier::opaque]
pub open spec fn device_state_pushed(d: Desk) -> Desk {
    let d1 = match d.ui.brightness {
        Some(level) if d.ui.sync == SyncActive::Off => sent(d, UsbCommand::SetBrightness(level)),
        _ => d,
    };
    let d2 = slot_pushed(slot_pushed(slot_pushed(slot_pushed(d1, 0), 1), 2), 3);
    match d.ui.mode {
        Some(m) if m != 7 && m != 8 => sent(d2, UsbCommand::SetMode(m)),
        _ => d2,
    }
}

/// The running session asked to re-arm the monitor.
pub open spec fn reinit_asked(d: Desk) -> Desk {
    Desk {
        engine: Engine {
            state: EngineState { reinit_requested: true, ..d.engine.state },
            ..d.engine
        },
        ..d
    }
}

/// The monitor's state re-asserted, whatever its controller rebooted into: by
/// the running session, by a sync still pending from app start, or by the
/// restore burst.
#[verifier::opaque]
pub open spec fn recovered(d: Desk) -> Desk {
    match d.ui.sync {
        SyncActive::ImageSync | SyncActive::Audio => reinit_asked(d),
        SyncActive::Off => if d.ui.pending_boot_sync == Some(SyncActive::ImageSync)
            && d.screen.len() > 0 {
            synced(d, SyncActive::ImageSync)
        } else {
            device_state_pushed(d)
        },
    }
}

/// The screen re-detected after a topology change. Under an unchanged name the
/// desktop may still have changed mode: the capture is dropped. A vanished
/// monitor changes nothing at once. A new name restarts a running image sync;
/// and as a reappearance may mean a rebooted controller, its state is recovered,
/// now and once more later.
#[verifier::opaque]
pub open spec fn redetected(d: Desk, detected: Seq<char>) -> Desk {
    if detected == d.screen {
        if d.ui.sync == SyncActive::ImageSync {
            Desk {
                engine: Engine {
                    state: EngineState { display_changed: true, ..d.engine.state },
                    ..d.engine
                },
                ..d
            }
        } else {
            d
        }
    } else if detected.len() == 0 {
        Desk { screen: detected, ui: UiState { status: Status::NoScreen, ..d.ui }, ..d }
    } else {
        let d1 = Desk {
            screen: detected,
            ui: UiState {
                status: if d.engine.connected {
                    Status::Connected
                } else {
                    Status::Disconnected
                },
                ..d.ui
            },
            ..d
        };
        let d2 = match d1.ui.sync {
            SyncActive::ImageSync => synced(halted(d1), SyncActive::ImageSync),
            SyncActive::Audio => reinit_asked(d1),
            SyncActive::Off => recovered(d1),
        };
        asked(d2, Effect::ScheduleRecovery)
    }
}

/// The slot table with one color replaced. Slot 0 counts as slot 1; others than
/// the four change nothing.
pub open spec fn with_slot(
    slots: [Option<[u8; 3]>; 4],
    slot: u8,
    color: [u8; 3],
) -> [Option<[u8; 3]>; 4] {
    if slot <= 1 {
        [Some(color), slots@[1], slots@[2], slots@[3]]
    } else if slot == 2 {
        [slots@[0], Some(color), slots@[2], slots@[3]]
    } else if slot == 3 {
        [slots@[0], slots@[1], Some(color), slots@[3]]
    } else if slot == 4 {
        [slots@[0], slots@[1], slots@[2], Some(color)]
    } else {
        slots
    }
}

/// The state after a manual command reached the monitor.
pub open spec fn mirrored(ui: UiState, cmd: UsbCommand) -> UiState {
    match cmd {
        UsbCommand::SetBrightness(level) => UiState { brightness: Some(level), ..ui },
        UsbCommand::SetMode(mode) => UiState { mode: Some(mode), ..ui },
        UsbCommand::SetStaticColor(slot, r, g, b) => UiState {
            slot_colors: with_slot(ui.slot_colors, slot, [r, g, b]),
            mode: Some(slot),
            ..ui
        },
        UsbCommand::TurnOn => UiState { leds_on: true, ..ui },
        UsbCommand::TurnOff => UiState { leds_on: false, ..ui },
        _ => ui,
    }
}

/// The sync that "turn LEDs on" brings back: the one remembered, else the one
/// still pending from app start. An image sync needs its screen.
pub open spec fn sync_to_resume(ui: UiState, screen: Seq<char>) -> Option<SyncActive> {
    match (ui.resume, ui.pending_boot_sync) {
        (Some(SyncActive::ImageSync), _) if screen.len() > 0 => Some(SyncActive::ImageSync),
        (Some(SyncActive::Audio), _) => Some(SyncActive::Audio),
        (_, Some(which)) if which != SyncActive::ImageSync || screen.len() > 0 => Some(which),
        _ => None,
    }
}

/// The LEDs turned on: the sync to resume is started, else the command is sent.
#[verifier::opaque]
pub open spec fn turned_on(d: Desk) -> Desk {
    match sync_to_resume(d.ui, d.screen) {
        Some(which) => synced(
            if d.ui.resume == Some(which) {
                Desk { ui: UiState { resume: None, ..d.ui }, ..d }
            } else {
                d
            },
            which,
        ),
        None => sent(d, UsbCommand::TurnOn),
    }
}

/// The LEDs turned off. An armed monitor ignores power commands: it leaves the
/// sync mode first.
#[verifier::opaque]
pub open spec fn turned_off(d: Desk, was_syncing: bool) -> Desk {
    let d1 = Desk { ui: UiState { pending_boot_sync: None, ..d.ui }, ..d };
    if was_syncing {
        let d2 = sent(d1, UsbCommand::SetMode(1));
        sent(Desk { ui: UiState { mode: Some(1), ..d2.ui }, ..d2 }, UsbCommand::TurnOff)
    } else {
        sent(d1, UsbCommand::TurnOff)
    }
}

/// A manual command carried out, on a stopped engine and a state that mirrors
/// it. A normal mode cancels the memory of a sync.
#[verifier::opaque]
pub open spec fn carried_out(d: Desk, cmd: UsbCommand, was_syncing: bool) -> Desk {
    match cmd {
        UsbCommand::SetMode(_) | UsbCommand::SetStaticColor(..) => sent(
            Desk { ui: UiState { resume: None, pending_boot_sync: None, ..d.ui }, ..d },
            cmd,
        ),
        UsbCommand::TurnOff => turned_off(d, was_syncing),
        UsbCommand::TurnOn => turned_on(d),
        _ => sent(d, cmd),
    }
}

/// A manual command. It stops the engine, whose session is thereby invalidated
/// on the bus ahead of the command.
#[verifier::opaque]
pub open spec fn commanded(d: Desk, cmd: UsbCommand) -> Desk {
    let d1 = stopped_engine(d, false);
    carried_out(Desk { ui: mirrored(d1.ui, cmd), ..d1 }, cmd, d.ui.sync != SyncActive::Off)
}

/// A brightness level set: during sync as software dimming, else on the device.
pub open spec fn brightened(d: Desk, level: u8) -> Desk {
    let d1 = Desk {
        ui: UiState { brightness: Some(level), ..d.ui },
        engine: Engine { brightness: engine::clamped(level), ..d.engine },
        ..d
    };
    if d.ui.sync == SyncActive::Off {
        sent(d1, UsbCommand::SetBrightness(level))
    } else {
        d1
    }
}

/// Image sync tuning set, live; only a new sampling mode restarts the session.
#[verifier::opaque]
pub open spec fn tuned(d: Desk, params: ImageSyncParams) -> Desk {
    if params == d.ui.params {
        d
    } else {
        let d1 = Desk {
            ui: UiState { params, ..d.ui },
            engine: Engine { image_params: params, ..d.engine },
            ..d
        };
        if d.ui.sync == SyncActive::ImageSync && params.sampling != d.ui.params.sampling {
            synced(halted(d1), SyncActive::ImageSync)
        } else {
            d1
        }
    }
}

/// Audio sync tuning set, live.
pub open spec fn audio_tuned(d: Desk, params: AudioParams) -> Desk {
    Desk {
        ui: UiState { audio: params, ..d.ui },
        engine: Engine { audio_params: params, ..d.engine },
        ..d
    }
}

/// The last solid color, once the audio color becomes `to`.
pub open spec fn solid_memory(ui: UiState, to: AudioColor) -> Option<[u8; 3]> {
    match (to, ui.audio.color) {
        (AudioColor::Solid(rgb), _) => Some(rgb),
        (_, AudioColor::Solid(rgb)) => Some(rgb),
        _ => ui.last_solid,
    }
}

/// The audio color chosen.
pub open spec fn audio_colored(d: Desk, color: AudioColor) -> Desk {
    audio_tuned(
        Desk { ui: UiState { last_solid: solid_memory(d.ui, color), ..d.ui }, ..d },
        AudioParams { color, ..d.ui.audio },
    )
}

/// An engine gave up on its own: its reason shows until the user acts, and the
/// monitor, still armed at full brightness, is disarmed. A failure of an engine
/// that was started again since is old news.
#[verifier::opaque]
pub open spec fn failed(d: Desk, kind: FailureKind, reason: Seq<char>) -> Desk {
    if d.engine.state.running {
        d
    } else {
        let d1 = sent(
            Desk {
                failure: reason,
                ui: UiState { status: Status::Failed(kind), resume: None, ..d.ui },
                ..d
            },
            UsbCommand::SetMode(1),
        );
        let d2 = sent(d1, UsbCommand::SetBrightness(level_of(d1.ui)));
        Desk { ui: UiState { mode: Some(1), sync: SyncActive::Off, ..d2.ui }, ..d2 }
    }
}

/// The mode to leave the monitor in on exit: an explicitly selected static mode
/// stays, everything else falls back to Static 1 to disarm.
pub open spec fn exit_mode(ui: UiState) -> u8 {
    match ui.mode {
        Some(m) if 1 <= m <= 6 => m,
        _ => 1u8,
    }
}

/// The application leaves: an ordered restore, then the worker stops.
#[verifier::opaque]
pub open spec fn quitted(d: Desk) -> Desk {
    let d1 = sent(halted(d), UsbCommand::SetBrightness(level_of(d.ui)));
    asked(sent(sent(d1, UsbCommand::SetMode(exit_mode(d.ui))), UsbCommand::Stop), Effect::Quit)
}

/// The picker asked for a static slot's color.
pub open spec fn slot_picking(d: Desk, slot: u8) -> Desk {
    let idx = if slot >= 1 {
        slot - 1
    } else {
        0
    };
    let known = if idx < 4 {
        d.ui.slot_colors@[idx]
    } else {
        None
    };
    asked(
        d,
        Effect::OpenPicker(
            PickerRequest::Slot(
                slot,
                match known {
                    Some(rgb) => rgb,
                    None => [255u8, 255u8, 255u8],
                },
            ),
        ),
    )
}

/// The picker asked for the audio color.
pub open spec fn audio_picking(d: Desk) -> Desk {
    asked(
        d,
        Effect::OpenPicker(
            PickerRequest::Audio(
                match d.ui.audio.color {
                    AudioColor::Solid(rgb) => Some(rgb),
                    AudioColor::Rainbow => None,
                },
            ),
        ),
    )
}

/// What an event id stands for.
#[derive(Clone, Copy, Debug)]
pub enum Event {
    /// The connection state changed.
    Connection,
    /// The first enumeration found the monitor.
    ConnectionInit,
    /// The display topology changed.
    DisplayChanged,
    /// The delayed recovery pass is due.
    RestorePush,
    /// The system resumed from sleep.
    Resumed,
    /// An HID device came or went.
    DeviceChanged,
    EngineFailed(FailureKind),
    ToggleImageSync,
    ToggleAudio,
    Quit,
    Sampling(SamplingMode),
    Smoothing(Factor),
    Boost(Factor),
    Fps(u32),
    Gain(Factor),
    Blink(Blink),
    Range(DynamicRange),
    Language(Language),
    /// Pick a color for a static slot.
    SlotColor(u8),
    SlotPicked(u8, [u8; 3]),
    AudioRainbow,
    /// Pick a solid audio color.
    AudioSolid,
    /// Back to the last solid audio color.
    AudioSolidRestore,
    AudioPicked([u8; 3]),
    Autostart,
    OpenPanel,
    PanelReady,
    On,
    Off,
    Brightness(u8),
    Mode(u8),
    Unknown,
}

/// The connection state changed. Restore commands sent while the monitor was
/// absent were discarded: its state is pushed again, now and once more later.
pub open spec fn reconnected(d: Desk) -> Desk {
    if d.engine.connected {
        asked(device_state_pushed(refreshed(d)), Effect::ScheduleRecovery)
    } else {
        refreshed(d)
    }
}

/// The first enumeration found the monitor: only the texts are repainted, and the
/// recovery pass scheduled unless it was before.
pub open spec fn first_found(d: Desk) -> Desk {
    let d1 = refreshed(d);
    if d.ui.startup_pass {
        d1
    } else {
        asked(Desk { ui: UiState { startup_pass: true, ..d1.ui }, ..d1 }, Effect::ScheduleRecovery)
    }
}

/// The image sync toggle: without a screen there is nothing to sample.
pub open spec fn image_toggled(d: Desk) -> Desk {
    if d.ui.sync == SyncActive::ImageSync {
        stopped_engine(d, true)
    } else if d.screen.len() == 0 {
        Desk { ui: UiState { status: Status::NoScreen, ..d.ui }, ..d }
    } else {
        synced(halted(d), SyncActive::ImageSync)
    }
}

/// The audio sync toggle.
pub open spec fn audio_toggled(d: Desk) -> Desk {
    if d.ui.sync == SyncActive::Audio {
        stopped_engine(d, true)
    } else {
        synced(halted(d), SyncActive::Audio)
    }
}

/// A tuning event, of either sync.
#[verifier::opaque]
pub open spec fn retuned(d: Desk, event: Event) -> Desk {
    match event {
        Event::Sampling(sampling) => tuned(d, ImageSyncParams { sampling, ..d.ui.params }),
        Event::Smoothing(smoothing) => tuned(d, ImageSyncParams { smoothing, ..d.ui.params }),
        Event::Boost(boost) => tuned(d, ImageSyncParams { boost, ..d.ui.params }),
        Event::Fps(fps) => tuned(d, ImageSyncParams { fps, ..d.ui.params }),
        Event::Gain(gain) => audio_tuned(d, AudioParams { gain, ..d.ui.audio }),
        Event::Blink(blink) => audio_tuned(d, AudioParams { blink, ..d.ui.audio }),
        Event::Range(range) => audio_tuned(d, AudioParams { range, ..d.ui.audio }),
        Event::AudioRainbow => audio_colored(d, AudioColor::Rainbow),
        Event::AudioPicked(rgb) => audio_colored(d, AudioColor::Solid(rgb)),
        Event::AudioSolidRestore => match d.ui.last_solid {
            Some(rgb) => audio_colored(d, AudioColor::Solid(rgb)),
            None => d,
        },
        _ => d,
    }
}

/// What an event does.
pub open spec fn acted(d: Desk, event: Event, detected: Seq<char>, reason: Seq<char>) -> Desk {
    match event {
        Event::Connection => reconnected(d),
        Event::ConnectionInit => first_found(d),
        Event::DisplayChanged => redetected(d, detected),
        Event::RestorePush => if d.engine.connected {
            recovered(d)
        } else {
            d
        },
        Event::Resumed => asked(d, Effect::ScheduleRecovery),
        Event::DeviceChanged => sent(d, UsbCommand::Probe),
        Event::EngineFailed(kind) => failed(d, kind, reason),
        Event::ToggleImageSync => image_toggled(d),
        Event::ToggleAudio => audio_toggled(d),
        Event::Quit => quitted(d),
        Event::Language(language) => asked(
            Desk { ui: UiState { language, ..d.ui }, ..d },
            Effect::SwitchLanguage(language),
        ),
        Event::SlotColor(slot) => slot_picking(d, slot),
        Event::SlotPicked(slot, rgb) => commanded(
            d,
            UsbCommand::SetStaticColor(slot, rgb@[0], rgb@[1], rgb@[2]),
        ),
        Event::AudioSolid => audio_picking(d),
        Event::Autostart => asked(d, Effect::SetAutostart(!d.ui.autostart)),
        Event::OpenPanel => asked(d, Effect::OpenPanel),
        Event::PanelReady | Event::Unknown => d,
        Event::On => commanded(d, UsbCommand::TurnOn),
        Event::Off => commanded(d, UsbCommand::TurnOff),
        Event::Brightness(level) => brightened(d, level),
        Event::Mode(mode) => commanded(d, UsbCommand::SetMode(mode)),
        _ => retuned(d, event),
    }
}

/// What an event does, its save included: a connection flap changes no state, so
/// nothing is saved for it; brightness may come from a drag.
pub open spec fn handled(d: Desk, event: Event, detected: Seq<char>, reason: Seq<char>) -> Desk {
    let done = acted(d, event, detected, reason);
    match event {
        Event::Connection => done,
        Event::Brightness(_) => asked(done, Effect::Save { rapid: true }),
        _ => asked(done, Effect::Save { rapid: false }),
    }
}

/// The application: its state, the engine, the command bus, and what it asks of
/// the outside.
pub struct Tray {
    pub ui: Ui,
    pub engine: Engine,
    pub rx: CommandRx,
    pub out: Vec<Effect>,
}

impl View for Tray {
    type V = Desk;

    open spec fn view(&self) -> Desk {
        Desk {
            ui: self.ui.state,
            screen: self.ui.selected_screen@,
            failure: self.ui.failure@,
            engine: self.engine,
            bus: self.rx@,
            out: self.out@,
        }
    }
}

impl Tray {
    pub open spec fn wf(&self) -> bool {
        self.engine.wf()
    }

    fn send(&mut self, cmd: UsbCommand)
        requires
            old(self).wf(),
        ensures
            final(self).wf(),
            final(self)@ == sent(old(self)@, cmd),
    {
        self.engine.send(&mut self.rx, cmd);
    }

    fn ask(&mut self, effect: Effect)
        requires
            old(self).wf(),
        ensures
            final(self).wf(),
            final(self)@ == asked(old(self)@, effect),
    {
        self.out.push(effect);
    }

    fn halt(&mut self)
        requires
            old(self).wf(),
        ensures
            final(self).wf(),
            final(self)@ == halted(old(self)@),
    {
        self.engine.stop(&mut self.rx);
    }

    fn launch(&mut self, image: bool)
        requires
            old(self).wf(),
        ensures
            final(self).wf(),
            final(self)@ == launched(old(self)@, image),
    {
        match self.engine.start() {
            Some(mine) => {
                if image {
                    self.out.push(Effect::StartImage(mine));
                } else {
                    self.out.push(Effect::StartAudio(mine));
                }
            },
            None => {},
        }
    }

    /// Arms a sync and asks for its session. Callers that need the old session
    /// gone stop the engine first.
    fn start_sync(&mut self, which: SyncActive)
        requires
            old(self).wf(),
        ensures
            final(self).wf(),
            final(self)@ == synced(old(self)@, which),
    {
        proof {
            reveal(synced);
        }
        self.ui.state.pending_boot_sync = None;
        match which {
            SyncActive::ImageSync => {
                self.ui.state.sync = SyncActive::ImageSync;
                self.ui.state.mode = Some(VIDEO_SYNC_MODE);
                self.ui.state.leds_on = true;
                self.launch(true);
            },
            SyncActive::Audio => {
                self.ui.state.sync = SyncActive::Audio;
                self.ui.state.mode = Some(AUDIO_SYNC_MODE);
                self.ui.state.leds_on = true;
                self.launch(false);
            },
            SyncActive::Off => {},
        }
        refresh_status(self);
    }

    /// Stops the engine, optionally restoring Static 1.
    fn stop_engine(&mut self, restore_static1: bool)
        requires
            old(self).wf(),
        ensures
            final(self).wf(),
            final(self)@ == stopped_engine(old(self)@, restore_static1),
    {
        proof {
            reveal(stopped_engine);
        }
        let was = self.ui.state.sync;
        self.halt();
        if was != SyncActive::Off {
            self.ui.state.resume = Some(was);
        }
        if restore_static1 {
            self.ui.state.resume = None;
            self.send(UsbCommand::SetMode(1));
            self.ui.state.mode = Some(1);
        }
        if was != SyncActive::Off {
            let level: u8 = self.level();
            self.send(UsbCommand::SetBrightness(level));
        }
        self.ui.state.sync = SyncActive::Off;
        refresh_status(self);
    }

    fn level(&self) -> (level: u8)
        ensures
            level == level_of(self.ui.state),
    {
        match self.ui.state.brightness {
            Some(level) => level,
            None => 12,
        }
    }

    fn push_slot(&mut self, i: usize)
        requires
            old(self).wf(),
            i < 4,
        ensures
            final(self).wf(),
            final(self)@ == slot_pushed(old(self)@, i as int),
    {
        if let Some(rgb) = self.ui.state.slot_colors[i] {
            let cmd = UsbCommand::StoreStaticColor(i as u8 + 1, rgb[0], rgb[1], rgb[2]);
            self.send(cmd);
        }
    }

    /// Sends the last-known monitor state.
    fn push_device_state(&mut self)
        requires
            old(self).wf(),
        ensures
            final(self).wf(),
            final(self)@ == device_state_pushed(old(self)@),
    {
        proof {
            reveal(device_state_pushed);
        }
        if self.ui.state.sync == SyncActive::Off {
            if let Some(level) = self.ui.state.brightness {
                self.send(UsbCommand::SetBrightness(level));
            }
        }
        self.push_slot(0);
        self.push_slot(1);
        self.push_slot(2);
        self.push_slot(3);
        if let Some(m) = self.ui.state.mode {
            if m != 7 && m != 8 {
                self.send(UsbCommand::SetMode(m));
            }
        }
    }

    fn has_screen(&self) -> (yes: bool)
        ensures
            yes == (self@.screen.len() > 0),
    {
        self.ui.selected_screen.as_str().unicode_len() > 0
    }

    /// Re-asserts the state this app last set.
    fn recover_monitor(&mut self)
        requires
            old(self).wf(),
        ensures
            final(self).wf(),
            final(self)@ == recovered(old(self)@),
    {
        proof {
            reveal(recovered);
        }
        match self.ui.state.sync {
            SyncActive::ImageSync | SyncActive::Audio => self.engine.request_reinit(),
            SyncActive::Off => {
                if self.ui.state.pending_boot_sync == Some(SyncActive::ImageSync)
                    && self.has_screen() {
                    self.start_sync(SyncActive::ImageSync);
                } else {
                    self.push_device_state();
                }
            },
        }
    }
}

impl Tray {
    /// Takes note of the detected output of the strip monitor.
    fn redetect_screen(&mut self, detected: &str)
        requires
            old(self).wf(),
        ensures
            final(self).wf(),
            final(self)@ == redetected(old(self)@, detected@),
    {
        proof {
            reveal(redetected);
        }
        if text::same(detected, self.ui.selected_screen.as_str()) {
            if self.ui.state.sync == SyncActive::ImageSync {
                self.engine.invalidate_capturer();
            }
            return;
        }
        self.ui.selected_screen = String::from_str(detected);
        if !self.has_screen() {
            self.ui.state.status = Status::NoScreen;
            return;
        }
        self.ui.state.status =
        if self.engine.connected {
            Status::Connected
        } else {
            Status::Disconnected
        };
        match self.ui.state.sync {
            SyncActive::ImageSync => {
                self.halt();
                self.start_sync(SyncActive::ImageSync);
            },
            SyncActive::Audio => self.engine.request_reinit(),
            SyncActive::Off => self.recover_monitor(),
        }
        self.ask(Effect::ScheduleRecovery);
    }

    fn set_slot(&mut self, slot: u8, color: [u8; 3])
        requires
            old(self).wf(),
        ensures
            final(self).wf(),
            final(self)@ == (Desk {
                ui: UiState {
                    slot_colors: with_slot(old(self)@.ui.slot_colors, slot, color),
                    ..old(self)@.ui
                },
                ..old(self)@
            }),
    {
        let idx: usize = if slot >= 1 {
            slot as usize - 1
        } else {
            0
        };
        let ghost before = self.ui.state.slot_colors;
        if idx < 4 {
            self.ui.state.slot_colors[idx] = Some(color);
        }
        assert(self.ui.state.slot_colors =~= with_slot(before, slot, color));
    }

    /// Mirrors a manual command's side effects into the state, so that the
    /// checks keep matching the monitor.
    fn apply_command_state(&mut self, cmd: &UsbCommand)
        requires
            old(self).wf(),
        ensures
            final(self).wf(),
            final(self)@ == (Desk { ui: mirrored(old(self)@.ui, *cmd), ..old(self)@ }),
    {
        match cmd {
            UsbCommand::SetBrightness(level) => {
                self.ui.state.brightness = Some(*level);
            },
            UsbCommand::SetMode(mode) => {
                self.ui.state.mode = Some(*mode);
            },
            UsbCommand::SetStaticColor(slot, r, g, b) => {
                self.set_slot(*slot, [*r, *g, *b]);
                self.ui.state.mode = Some(*slot);
            },
            UsbCommand::TurnOn => {
                self.ui.state.leds_on = true;
            },
            UsbCommand::TurnOff => {
                self.ui.state.leds_on = false;
            },
            _ => {},
        }
    }

    fn resumable(&self) -> (which: Option<SyncActive>)
        ensures
            which == sync_to_resume(self@.ui, self@.screen),
    {
        let screen = self.has_screen();
        match self.ui.state.resume {
            Some(SyncActive::ImageSync) if screen => return Some(SyncActive::ImageSync),
            Some(SyncActive::Audio) => return Some(SyncActive::Audio),
            _ => {},
        }
        match self.ui.state.pending_boot_sync {
            Some(which) => if which != SyncActive::ImageSync || screen {
                Some(which)
            } else {
                None
            },
            None => None,
        }
    }

    /// Carries out a manual command: it always wins over a running sync.
    fn command(&mut self, cmd: UsbCommand)
        requires
            old(self).wf(),
        ensures
            final(self).wf(),
            final(self)@ == commanded(old(self)@, cmd),
    {
        proof {
            reveal(commanded);
        }
        let was_syncing = self.ui.state.sync != SyncActive::Off;
        self.stop_engine(false);
        self.apply_command_state(&cmd);
        self.carry_out(cmd, was_syncing);
    }

    fn carry_out(&mut self, cmd: UsbCommand, was_syncing: bool)
        requires
            old(self).wf(),
        ensures
            final(self).wf(),
            final(self)@ == carried_out(old(self)@, cmd, was_syncing),
    {
        proof {
            reveal(carried_out);
            reveal(turned_off);
        }
        match cmd {
            UsbCommand::SetMode(_) | UsbCommand::SetStaticColor(..) => {
                self.ui.state.resume = None;
                self.ui.state.pending_boot_sync = None;
                self.send(cmd);
            },
            UsbCommand::TurnOff => {
                self.ui.state.pending_boot_sync = None;
                if was_syncing {
                    self.send(UsbCommand::SetMode(1));
                    self.ui.state.mode = Some(1);
                }
                self.send(UsbCommand::TurnOff);
            },
            UsbCommand::TurnOn => self.turn_on(),
            cmd => self.send(cmd),
        }
    }

    fn turn_on(&mut self)
        requires
            old(self).wf(),
        ensures
            final(self).wf(),
            final(self)@ == turned_on(old(self)@),
    {
        proof {
            reveal(turned_on);
        }
        match self.resumable() {
            Some(which) => {
                if self.ui.state.resume == Some(which) {
                    self.ui.state.resume = None;
                }
                self.start_sync(which);
            },
            None => self.send(UsbCommand::TurnOn),
        }
    }

    /// Sets the brightness level.
    fn brighten(&mut self, level: u8)
        requires
            old(self).wf(),
        ensures
            final(self).wf(),
            final(self)@ == brightened(old(self)@, level),
    {
        self.ui.state.brightness = Some(level);
        self.engine.set_brightness(level);
        if self.ui.state.sync == SyncActive::Off {
            self.send(UsbCommand::SetBrightness(level));
        }
    }

    /// Applies an Image Sync tuning.
    fn tweak(&mut self, params: ImageSyncParams)
        requires
            old(self).wf(),
        ensures
            final(self).wf(),
            final(self)@ == tuned(old(self)@, params),
    {
        proof {
            reveal(tuned);
        }
        let prev = self.ui.state.params;
        if params == prev {
            return;
        }
        self.ui.state.params = params;
        self.engine.set_image_params(params);
        if self.ui.state.sync == SyncActive::ImageSync && params.sampling != prev.sampling {
            self.halt();
            self.start_sync(SyncActive::ImageSync);
        }
    }

    fn tune_audio(&mut self, params: AudioParams)
        requires
            old(self).wf(),
        ensures
            final(self).wf(),
            final(self)@ == audio_tuned(old(self)@, params),
    {
        self.ui.state.audio = params;
        self.engine.set_audio_params(params);
    }

    /// Applies an audio color.
    fn select_audio_color(&mut self, color: AudioColor)
        requires
            old(self).wf(),
        ensures
            final(self).wf(),
            final(self)@ == audio_colored(old(self)@, color),
    {
        let memory = match (color, self.ui.state.audio.color) {
            (AudioColor::Solid(rgb), _) => Some(rgb),
            (_, AudioColor::Solid(rgb)) => Some(rgb),
            _ => self.ui.state.last_solid,
        };
        self.ui.state.last_solid = memory;
        let mut params = self.ui.state.audio;
        params.color = color;
        self.tune_audio(params);
    }

    /// An engine gave up on its own.
    fn fail(&mut self, kind: FailureKind, reason: &str)
        requires
            old(self).wf(),
        ensures
            final(self).wf(),
            final(self)@ == failed(old(self)@, kind, reason@),
    {
        proof {
            reveal(failed);
        }
        if self.engine.state.running {
            return;
        }
        self.ui.failure = String::from_str(reason);
        self.ui.state.status = Status::Failed(kind);
        self.ui.state.resume = None;
        self.send(UsbCommand::SetMode(1));
        let level: u8 = self.level();
        self.send(UsbCommand::SetBrightness(level));
        self.ui.state.mode = Some(1);
        self.ui.state.sync = SyncActive::Off;
    }

    fn quit(&mut self)
        requires
            old(self).wf(),
        ensures
            final(self).wf(),
            final(self)@ == quitted(old(self)@),
    {
        proof {
            reveal(quitted);
        }
        self.halt();
        let level: u8 = self.level();
        let mode: u8 = match self.ui.state.mode {
            Some(m) => if 1 <= m && m <= 6 {
                m
            } else {
                1
            },
            None => 1,
        };
        self.send(UsbCommand::SetBrightness(level));
        self.send(UsbCommand::SetMode(mode));
        self.send(UsbCommand::Stop);
        self.ask(Effect::Quit);
    }

    fn pick_slot_color(&mut self, slot: u8)
        requires
            old(self).wf(),
        ensures
            final(self).wf(),
            final(self)@ == slot_picking(old(self)@, slot),
    {
        let idx: usize = if slot >= 1 {
            slot as usize - 1
        } else {
            0
        };
        let known = if idx < 4 {
            self.ui.state.slot_colors[idx]
        } else {
            None
        };
        let initial: [u8; 3] = match known {
            Some(rgb) => rgb,
            None => [255, 255, 255],
        };
        self.ask(Effect::OpenPicker(PickerRequest::Slot(slot, initial)));
    }

    fn pick_audio_color(&mut self)
        requires
            old(self).wf(),
        ensures
            final(self).wf(),
            final(self)@ == audio_picking(old(self)@),
    {
        let initial = match self.ui.state.audio.color {
            AudioColor::Solid(rgb) => Some(rgb),
            AudioColor::Rainbow => None,
        };
        self.ask(Effect::OpenPicker(PickerRequest::Audio(initial)));
    }

    fn toggle_image_sync(&mut self)
        requires
            old(self).wf(),
        ensures
            final(self).wf(),
            final(self)@ == image_toggled(old(self)@),
    {
        if self.ui.state.sync == SyncActive::ImageSync {
            self.stop_engine(true);
        } else if !self.has_screen() {
            self.ui.state.status = Status::NoScreen;
        } else {
            self.halt();
            self.start_sync(SyncActive::ImageSync);
        }
    }

    fn toggle_audio(&mut self)
        requires
            old(self).wf(),
        ensures
            final(self).wf(),
            final(self)@ == audio_toggled(old(self)@),
    {
        if self.ui.state.sync == SyncActive::Audio {
            self.stop_engine(true);
        } else {
            self.halt();
            self.start_sync(SyncActive::Audio);
        }
    }

    fn on_connection(&mut self)
        requires
            old(self).wf(),
        ensures
            final(self).wf(),
            final(self)@ == reconnected(old(self)@),
    {
        refresh_status(self);
        if self.engine.connected {
            self.push_device_state();
            self.ask(Effect::ScheduleRecovery);
        }
    }

    fn on_first_found(&mut self)
        requires
            old(self).wf(),
        ensures
            final(self).wf(),
            final(self)@ == first_found(old(self)@),
    {
        refresh_status(self);
        if !self.ui.state.startup_pass {
            self.ui.state.startup_pass = true;
            self.ask(Effect::ScheduleRecovery);
        }
    }

    fn retune(&mut self, event: Event)
        requires
            old(self).wf(),
        ensures
            final(self).wf(),
            final(self)@ == retuned(old(self)@, event),
    {
        proof {
            reveal(retuned);
        }
        let mut params = self.ui.state.params;
        let mut audio = self.ui.state.audio;
        match event {
            Event::Sampling(sampling) => {
                params.sampling = sampling;
                self.tweak(params);
            },
            Event::Smoothing(smoothing) => {
                params.smoothing = smoothing;
                self.tweak(params);
            },
            Event::Boost(boost) => {
                params.boost = boost;
                self.tweak(params);
            },
            Event::Fps(fps) => {
                params.fps = fps;
                self.tweak(params);
            },
            Event::Gain(gain) => {
                audio.gain = gain;
                self.tune_audio(audio);
            },
            Event::Blink(blink) => {
                audio.blink = blink;
                self.tune_audio(audio);
            },
            Event::Range(range) => {
                audio.range = range;
                self.tune_audio(audio);
            },
            Event::AudioRainbow => self.select_audio_color(AudioColor::Rainbow),
            Event::AudioPicked(rgb) => self.select_audio_color(AudioColor::Solid(rgb)),
            Event::AudioSolidRestore => {
                if let Some(rgb) = self.ui.state.last_solid {
                    self.select_audio_color(AudioColor::Solid(rgb));
                }
            },
            _ => {},
        }
    }

    /// Does what an event asks for. `detected` is the output of the strip
    /// monitor as found after a topology change, `reason` the text of an engine
    /// failure.
    pub fn act(&mut self, event: Event, detected: &str, reason: &str)
        requires
            old(self).wf(),
        ensures
            final(self).wf(),
            final(self)@ == acted(old(self)@, event, detected@, reason@),
    {
        match event {
            Event::Connection => self.on_connection(),
            Event::ConnectionInit => self.on_first_found(),
            Event::DisplayChanged => self.redetect_screen(detected),
            Event::RestorePush => {
                if self.engine.connected {
                    self.recover_monitor();
                }
            },
            Event::Resumed => self.ask(Effect::ScheduleRecovery),
            Event::DeviceChanged => self.send(UsbCommand::Probe),
            Event::EngineFailed(kind) => self.fail(kind, reason),
            Event::ToggleImageSync => self.toggle_image_sync(),
            Event::ToggleAudio => self.toggle_audio(),
            Event::Quit => self.quit(),
            Event::Language(language) => {
                self.ui.state.language = language;
                self.ask(Effect::SwitchLanguage(language));
            },
            Event::SlotColor(slot) => self.pick_slot_color(slot),
            Event::SlotPicked(slot, rgb) => {
                self.command(UsbCommand::SetStaticColor(slot, rgb[0], rgb[1], rgb[2]));
            },
            Event::AudioSolid => self.pick_audio_color(),
            Event::Autostart => {
                let enable = !self.ui.state.autostart;
                self.ask(Effect::SetAutostart(enable));
            },
            Event::OpenPanel => self.ask(Effect::OpenPanel),
            Event::PanelReady | Event::Unknown => {},
            Event::On => self.command(UsbCommand::TurnOn),
            Event::Off => self.command(UsbCommand::TurnOff),
            Event::Brightness(level) => self.brighten(level),
            Event::Mode(mode) => self.command(UsbCommand::SetMode(mode)),
            event => self.retune(event),
        }
    }

    /// The autostart entry was written or removed, or that failed.
    pub fn autostart_done(&mut self, enable: bool, ok: bool)
        requires
            old(self).wf(),
        ensures
            final(self).wf(),
            final(self)@ == (Desk {
                ui: UiState {
                    autostart: if ok {
                        enable
                    } else {
                        old(self)@.ui.autostart
                    },
                    ..old(self)@.ui
                },
                ..old(self)@
            }),
    {
        if ok {
            self.ui.state.autostart = enable;
        }
    }
}

/// Recomputes status line and tooltip from the current state. Deliberately not
/// called after an engine failure: that text must stick until the user acts.
pub fn refresh_status(tray: &mut Tray)
    requires
        old(tray).wf(),
    ensures
        final(tray).wf(),
        final(tray)@ == refreshed(old(tray)@),
{
    let status = if !tray.engine.connected {
        Status::Disconnected
    } else {
        match tray.ui.state.sync {
            SyncActive::ImageSync => Status::ImageSync,
            SyncActive::Audio => Status::AudioSync,
            SyncActive::Off => Status::Connected,
        }
    };
    tray.ui.state.status = status;
    tray.ui.state.tooltip = status;
}

/// Handles an event: does what it asks for, and has the settings saved.
/// `detected` is the output of the strip monitor as found just now; it matters
/// after a topology change only.
pub fn handle_event(id: &str, detected: &str, tray: &mut Tray)
    requires
        old(tray).wf(),
    ensures
        final(tray).wf(),
        final(tray)@ == handled(
            old(tray)@,
            event_ids::event_of(id@),
            detected@,
            event_ids::reason_of(id@),
        ),
{
    let event = event_ids::parse_event(id);
    tray.act(event, detected, event_ids::parse_reason(id));
    match event {
        Event::Connection => {},
        Event::Brightness(_) => tray.ask(Effect::Save { rapid: true }),
        _ => tray.ask(Effect::Save { rapid: false }),
    }
}

/// The saved tuning over the defaults.
pub open spec fn saved_params(s: Settings) -> ImageSyncParams {
    let base = engine::default_image_params();
    ImageSyncParams {
        sampling: match s.sampling {
            Some(v) => v,
            None => base.sampling,
        },
        smoothing: match s.smoothing {
            Some(v) => v,
            None => base.smoothing,
        },
        boost: match s.boost {
            Some(v) => v,
            None => base.boost,
        },
        fps: match s.fps {
            Some(v) => v,
            None => base.fps,
        },
    }
}

/// The saved audio tuning over the defaults.
pub open spec fn saved_audio(s: Settings) -> AudioParams {
    AudioParams {
        gain: match s.audio_gain {
            Some(v) => v,
            None => factor::factor(factor::F_1_0),
        },
        color: match s.audio_color {
            Some(v) => v,
            None => AudioColor::Rainbow,
        },
        blink: match s.audio_blink {
            Some(v) => v,
            None => Blink::Normal,
        },
        range: match s.audio_range {
            Some(v) => v,
            None => DynamicRange::Normal,
        },
    }
}

/// The sync that was running at exit.
pub open spec fn saved_sync(s: Settings) -> SyncActive {
    if s.image_sync_running {
        SyncActive::ImageSync
    } else if s.audio_running {
        SyncActive::Audio
    } else {
        SyncActive::Off
    }
}

/// The state as the settings have it, before anything is sent.
pub open spec fn seeded(
    s: Settings,
    screen: Seq<char>,
    autostart: bool,
    engine: Engine,
    bus: Bus,
) -> Desk {
    let status = if engine.connected {
        Status::Connected
    } else {
        Status::Disconnected
    };
    Desk {
        ui: UiState {
            sync: saved_sync(s),
            resume: None,
            pending_boot_sync: None,
            params: saved_params(s),
            audio: saved_audio(s),
            last_solid: match saved_audio(s).color {
                AudioColor::Solid(rgb) => Some(rgb),
                AudioColor::Rainbow => None,
            },
            language: match s.language {
                Some(language) => language,
                None => Language::System,
            },
            brightness: s.brightness,
            mode: s.mode,
            slot_colors: s.slot_colors,
            status,
            tooltip: status,
            leds_on: true,
            autostart,
            startup_pass: engine.connected,
        },
        screen,
        failure: Seq::empty(),
        engine: Engine {
            image_params: saved_params(s),
            audio_params: saved_audio(s),
            brightness: engine::clamped(
                match s.brightness {
                    Some(level) => level,
                    None => 12u8,
                },
            ),
            ..engine
        },
        bus,
        out: Seq::empty(),
    }
}

/// The sync that was running at exit, resumed. An image sync whose screen is not
/// up yet stays pending instead of arming a monitor with no source behind it.
pub open spec fn boot_resumed(d: Desk) -> Desk {
    match d.ui.sync {
        SyncActive::ImageSync => if d.screen.len() == 0 {
            Desk {
                ui: UiState {
                    sync: SyncActive::Off,
                    pending_boot_sync: Some(SyncActive::ImageSync),
                    ..d.ui
                },
                ..d
            }
        } else {
            synced(d, SyncActive::ImageSync)
        },
        SyncActive::Audio => synced(d, SyncActive::Audio),
        SyncActive::Off => d,
    }
}

/// The application at its start: the saved monitor state is pushed, once more
/// later if the monitor is there, and the sync resumed.
pub open spec fn built(
    s: Settings,
    screen: Seq<char>,
    autostart: bool,
    engine: Engine,
    bus: Bus,
) -> Desk {
    let d1 = device_state_pushed(seeded(s, screen, autostart, engine, bus));
    boot_resumed(
        if engine.connected {
            asked(d1, Effect::ScheduleRecovery)
        } else {
            d1
        },
    )
}

/// Creates the application from the saved settings, on the detected output of
/// the strip monitor.
pub fn build_ui(
    settings: Settings,
    screen: String,
    autostart: bool,
    engine: Engine,
    rx: CommandRx,
) -> (tray: Tray)
    requires
        engine.wf(),
    ensures
        tray.wf(),
        tray@ == built(settings, screen@, autostart, engine, rx@),
{
    let mut tray = seed(settings, screen, autostart, engine, rx);
    let connected = tray.engine.connected;
    tray.push_device_state();
    if connected {
        tray.ask(Effect::ScheduleRecovery);
    }
    match tray.ui.state.sync {
        SyncActive::ImageSync => {
            if tray.has_screen() {
                tray.start_sync(SyncActive::ImageSync);
            } else {
                tray.ui.state.sync = SyncActive::Off;
                tray.ui.state.pending_boot_sync = Some(SyncActive::ImageSync);
            }
        },
        SyncActive::Audio => tray.start_sync(SyncActive::Audio),
        SyncActive::Off => {},
    }
    tray
}

fn seed(
    settings: Settings,
    screen: String,
    autostart: bool,
    engine: Engine,
    rx: CommandRx,
) -> (tray: Tray)
    requires
        engine.wf(),
    ensures
        tray.wf(),
        tray@ == seeded(settings, screen@, autostart, engine, rx@),
{
    let mut params = ImageSyncParams::default();
    if let Some(v) = settings.sampling {
        params.sampling = v;
    }
    if let Some(v) = settings.smoothing {
        params.smoothing = v;
    }
    if let Some(v) = settings.boost {
        params.boost = v;
    }
    if let Some(v) = settings.fps {
        params.fps = v;
    }
    let mut audio = AudioParams::default();
    if let Some(v) = settings.audio_gain {
        audio.gain = v;
    }
    if let Some(v) = settings.audio_color {
        audio.color = v;
    }
    if let Some(v) = settings.audio_blink {
        audio.blink = v;
    }
    if let Some(v) = settings.audio_range {
        audio.range = v;
    }
    let mut engine = engine;
    engine.set_image_params(params);
    engine.set_audio_params(audio);
    engine.set_brightness(
        match settings.brightness {
            Some(level) => level,
            None => 12,
        },
    );
    let status = if engine.connected {
        Status::Connected
    } else {
        Status::Disconnected
    };
    let state = UiState {
        sync: if settings.image_sync_running {
            SyncActive::ImageSync
        } else if settings.audio_running {
            SyncActive::Audio
        } else {
            SyncActive::Off
        },
        resume: None,
        pending_boot_sync: None,
        params,
        audio,
        last_solid: match audio.color {
            AudioColor::Solid(rgb) => Some(rgb),
            AudioColor::Rainbow => None,
        },
        language: match settings.language {
            Some(language) => language,
            None => Language::System,
        },
        brightness: settings.brightness,
        mode: settings.mode,
        slot_colors: settings.slot_colors,
        status,
        tooltip: status,
        leds_on: true,
        autostart,
        startup_pass: engine.connected,
    };
    let failure = String::new();
    assert(failure@ =~= Seq::<char>::empty());
    let out: Vec<Effect> = Vec::new();
    assert(out@ =~= Seq::<Effect>::empty());
    Tray { ui: Ui { state, selected_screen: screen, failure }, engine, rx, out }
}

/// The session that an effect asks for: its token, and what it should produce.
pub fn session_of(effect: &Effect, ui: &Ui) -> (session: Option<(u64, Source)>)
    ensures
        match *effect {
            Effect::StartImage(mine) => session matches Some((token, Source::ImageSync { screen }))
                && token == mine && screen@ == ui.selected_screen@,
            Effect::StartAudio(mine) => session matches Some((token, Source::Audio)) && token
                == mine,
            _ => session is None,
        },
{
    match effect {
        Effect::StartImage(mine) => Some(
            (*mine, Source::ImageSync { screen: ui.selected_screen.clone() }),
        ),
        Effect::StartAudio(mine) => Some((*mine, Source::Audio)),
        _ => None,
    }
}

/// The settings to save.
pub open spec fn settings_of(ui: UiState) -> Settings {
    Settings {
        sampling: Some(ui.params.sampling),
        smoothing: Some(ui.params.smoothing),
        boost: Some(ui.params.boost),
        fps: Some(ui.params.fps),
        brightness: ui.brightness,
        mode: ui.mode,
        slot_colors: ui.slot_colors,
        image_sync_running: ui.sync == SyncActive::ImageSync,
        audio_running: ui.sync == SyncActive::Audio,
        audio_gain: Some(ui.audio.gain),
        audio_color: Some(ui.audio.color),
        audio_blink: Some(ui.audio.blink),
        audio_range: Some(ui.audio.range),
        language: Some(ui.language),
    }
}

/// The settings to save.
pub fn current_settings(ui: &Ui) -> (settings: Settings)
    ensures
        settings == settings_of(ui.state),
{
    let s = ui.state;
    Settings {
        sampling: Some(s.params.sampling),
        smoothing: Some(s.params.smoothing),
        boost: Some(s.params.boost),
        fps: Some(s.params.fps),
        brightness: s.brightness,
        mode: s.mode,
        slot_colors: s.slot_colors,
        image_sync_running: s.sync == SyncActive::ImageSync,
        audio_running: s.sync == SyncActive::Audio,
        audio_gain: Some(s.audio.gain),
        audio_color: Some(s.audio.color),
        audio_blink: Some(s.audio.blink),
        audio_range: Some(s.audio.range),
        language: Some(s.language),
    }
}

} // verus!
