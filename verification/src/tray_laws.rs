//! What each event of menu, panel and system does, in terms of what is seen from
//! outside: the state on show, the commands posted, the effects asked for.

use crate::audio::{AudioColor, AudioParams, Blink, DynamicRange};
use crate::engine;
use crate::engine::{Engine, EngineState, ImageSyncParams};
use crate::factor::Factor;
use crate::i18n::Language;
use crate::image_laws;
use crate::menu;
use crate::menu::{Desk, Effect, Event, FailureKind, Status, SyncActive, UiState};
use crate::picker::PickerRequest;
use crate::sampling::SamplingMode;
use crate::settings::Settings;
use crate::usb;
use crate::usb::{Bus, UsbCommand};
use vstd::prelude::*;

verus! {

/// Did these commands, and nothing else, join the bus, if it is open?
pub open spec fn joined(before: Bus, after: Bus, cmds: Seq<UsbCommand>) -> bool {
    &&& before.open ==> image_laws::commands_joined(before, after, cmds)
    &&& !before.open ==> after == before
}

proof fn lemma_nothing_joins(bus: Bus)
    ensures
        joined(bus, bus, Seq::empty()),
{
    assert(bus.ctrl + Seq::<UsbCommand>::empty() =~= bus.ctrl);
}

proof fn lemma_one_more(before: Bus, mid: Bus, cmds: Seq<UsbCommand>, cmd: UsbCommand)
    requires
        joined(before, mid, cmds),
        !(cmd is SendColors),
    ensures
        joined(before, usb::posted(mid, cmd), cmds.push(cmd)),
{
    if before.open {
        assert(mid.ctrl.push(cmd) =~= before.ctrl + cmds.push(cmd));
    }
}

proof fn lemma_join_of(bus: Bus, a: UsbCommand)
    requires
        !(a is SendColors),
    ensures
        joined(bus, usb::posted(bus, a), seq![a]),
{
    lemma_nothing_joins(bus);
    lemma_one_more(bus, bus, Seq::empty(), a);
    assert(Seq::empty().push(a) =~= seq![a]);
}

/// The status that goes with a sync, or with none.
pub open spec fn status_for(connected: bool, sync: SyncActive) -> Status {
    if connected && sync == SyncActive::ImageSync {
        Status::ImageSync
    } else if connected && sync == SyncActive::Audio {
        Status::AudioSync
    } else if connected {
        Status::Connected
    } else {
        Status::Disconnected
    }
}

/// The next token: one up, from the top back to 0.
pub open spec fn token_after(session: u64) -> u64 {
    if session == u64::MAX {
        0
    } else {
        (session + 1) as u64
    }
}

/// The user's level, at the top before one was chosen.
pub open spec fn user_level(ui: UiState) -> u8 {
    if ui.brightness is Some {
        ui.brightness->0
    } else {
        12
    }
}

/// A command that restores the device's brightness, where a sync was running.
pub open spec fn level_back(ui: UiState) -> Seq<UsbCommand> {
    if ui.sync != SyncActive::Off {
        seq![UsbCommand::SetBrightness(user_level(ui))]
    } else {
        Seq::empty()
    }
}

/// The desk after the engine was stopped by hand, as far as it is not the bus:
/// a running sync is kept in mind.
pub open spec fn stopped_desk(d: Desk) -> Desk {
    let status = status_for(d.engine.connected, SyncActive::Off);
    Desk {
        ui: UiState {
            sync: SyncActive::Off,
            resume: if d.ui.sync != SyncActive::Off {
                Some(d.ui.sync)
            } else {
                d.ui.resume
            },
            status,
            tooltip: status,
            ..d.ui
        },
        engine: Engine {
            state: EngineState {
                running: false,
                session: token_after(d.engine.state.session),
                ..d.engine.state
            },
            ..d.engine
        },
        ..d
    }
}

proof fn lemma_stop(d: Desk)
    ensures
        ({
            let after = menu::stopped_engine(d, false);
            &&& after == (Desk { bus: after.bus, ..stopped_desk(d) })
            &&& joined(
                d.bus,
                after.bus,
                seq![UsbCommand::SetSession(token_after(d.engine.state.session))] + level_back(
                    d.ui,
                ),
            )
        }),
{
    reveal(menu::stopped_engine);
    let stop = UsbCommand::SetSession(token_after(d.engine.state.session));
    lemma_join_of(d.bus, stop);
    if d.ui.sync != SyncActive::Off {
        let level = UsbCommand::SetBrightness(user_level(d.ui));
        lemma_one_more(d.bus, usb::posted(d.bus, stop), seq![stop], level);
        assert(seq![stop].push(level) =~= seq![stop] + level_back(d.ui));
    } else {
        assert(seq![stop] + level_back(d.ui) =~= seq![stop]);
    }
}

/// Every event has the settings saved, but for a connection flap; what a drag
/// changes may be saved later.
pub proof fn events_are_saved(d: Desk, event: Event, detected: Seq<char>, reason: Seq<char>)
    ensures
        ({
            let done = menu::acted(d, event, detected, reason);
            let after = menu::handled(d, event, detected, reason);
            &&& after == (Desk { out: after.out, ..done })
            &&& event is Connection ==> after.out == done.out
            &&& event is Brightness ==> after.out == done.out.push(Effect::Save { rapid: true })
            &&& !(event is Connection) && !(event is Brightness) ==> after.out == done.out.push(
                Effect::Save { rapid: false },
            )
        }),
{
}

/// A brightness level is remembered as it is, dims the frames within 1..=12, and
/// goes to the device only while no sync runs.
pub proof fn brightness_is_set(d: Desk, level: u8, detected: Seq<char>, reason: Seq<char>)
    ensures
        ({
            let after = menu::acted(d, Event::Brightness(level), detected, reason);
            &&& after == (Desk {
                ui: UiState { brightness: Some(level), ..d.ui },
                engine: Engine { brightness: after.engine.brightness, ..d.engine },
                bus: after.bus,
                ..d
            })
            &&& 1 <= level <= 12 ==> after.engine.brightness == level
            &&& level == 0 ==> after.engine.brightness == 1
            &&& level > 12 ==> after.engine.brightness == 12
            &&& d.ui.sync == SyncActive::Off ==> joined(
                d.bus,
                after.bus,
                seq![UsbCommand::SetBrightness(level)],
            )
            &&& d.ui.sync != SyncActive::Off ==> after.bus == d.bus
        }),
{
    lemma_join_of(d.bus, UsbCommand::SetBrightness(level));
}

/// A mode stops the sync for good, restores the device's level where one ran,
/// and is sent last.
pub proof fn modes_are_set(d: Desk, mode: u8, detected: Seq<char>, reason: Seq<char>)
    ensures
        ({
            let after = menu::acted(d, Event::Mode(mode), detected, reason);
            let base = stopped_desk(d);
            &&& after == (Desk {
                ui: UiState {
                    mode: Some(mode),
                    resume: None,
                    pending_boot_sync: None,
                    ..base.ui
                },
                bus: after.bus,
                ..base
            })
            &&& joined(
                d.bus,
                after.bus,
                seq![UsbCommand::SetSession(token_after(d.engine.state.session))] + level_back(
                    d.ui,
                ) + seq![UsbCommand::SetMode(mode)],
            )
        }),
{
    reveal(menu::commanded);
    reveal(menu::carried_out);
    lemma_stop(d);
    let first = seq![UsbCommand::SetSession(token_after(d.engine.state.session))] + level_back(
        d.ui,
    );
    lemma_one_more(
        d.bus,
        menu::stopped_engine(d, false).bus,
        first,
        UsbCommand::SetMode(mode),
    );
    assert(first.push(UsbCommand::SetMode(mode)) =~= first + seq![UsbCommand::SetMode(mode)]);
}

/// A color that was picked for a slot is remembered there, shown at once, and
/// the other slots keep theirs.
pub proof fn picked_slots_are_shown(
    d: Desk,
    slot: u8,
    rgb: [u8; 3],
    detected: Seq<char>,
    reason: Seq<char>,
)
    ensures
        ({
            let after = menu::acted(d, Event::SlotPicked(slot, rgb), detected, reason);
            let base = stopped_desk(d);
            let cmd = UsbCommand::SetStaticColor(slot, rgb@[0], rgb@[1], rgb@[2]);
            &&& after == (Desk {
                ui: UiState {
                    mode: Some(slot),
                    slot_colors: after.ui.slot_colors,
                    resume: None,
                    pending_boot_sync: None,
                    ..base.ui
                },
                bus: after.bus,
                ..base
            })
            &&& joined(
                d.bus,
                after.bus,
                seq![UsbCommand::SetSession(token_after(d.engine.state.session))] + level_back(
                    d.ui,
                ) + seq![cmd],
            )
            &&& forall|i: int|
                #![trigger after.ui.slot_colors@[i]]
                0 <= i < 4 ==> {
                    &&& i + 1 == slot || (slot == 0 && i == 0) ==> {
                        &&& after.ui.slot_colors@[i] is Some
                        &&& after.ui.slot_colors@[i]->0@ == rgb@
                    }
                    &&& i + 1 != slot && (slot != 0 || i != 0) ==> after.ui.slot_colors@[i]
                        == d.ui.slot_colors@[i]
                }
        }),
{
    reveal(menu::commanded);
    reveal(menu::carried_out);
    lemma_stop(d);
    let cmd = UsbCommand::SetStaticColor(slot, rgb@[0], rgb@[1], rgb@[2]);
    let first = seq![UsbCommand::SetSession(token_after(d.engine.state.session))] + level_back(
        d.ui,
    );
    lemma_one_more(d.bus, menu::stopped_engine(d, false).bus, first, cmd);
    assert(first.push(cmd) =~= first + seq![cmd]);
    let color: [u8; 3] = [rgb@[0], rgb@[1], rgb@[2]];
    assert(color@ =~= rgb@);
}

/// Turning the LEDs off keeps a running sync in mind; its mode is left first,
/// for Static 1, and the power command is sent last.
pub proof fn leds_are_turned_off(d: Desk, detected: Seq<char>, reason: Seq<char>)
    ensures
        ({
            let after = menu::acted(d, Event::Off, detected, reason);
            let base = stopped_desk(d);
            let was = d.ui.sync != SyncActive::Off;
            let stop = UsbCommand::SetSession(token_after(d.engine.state.session));
            &&& after == (Desk {
                ui: UiState {
                    leds_on: false,
                    pending_boot_sync: None,
                    mode: if was {
                        Some(1u8)
                    } else {
                        d.ui.mode
                    },
                    ..base.ui
                },
                bus: after.bus,
                ..base
            })
            &&& was ==> joined(
                d.bus,
                after.bus,
                seq![
                    stop,
                    UsbCommand::SetBrightness(user_level(d.ui)),
                    UsbCommand::SetMode(1),
                    UsbCommand::TurnOff,
                ],
            )
            &&& !was ==> joined(d.bus, after.bus, seq![stop, UsbCommand::TurnOff])
        }),
{
    reveal(menu::commanded);
    reveal(menu::carried_out);
    reveal(menu::turned_off);
    lemma_stop(d);
    let stop = UsbCommand::SetSession(token_after(d.engine.state.session));
    let first = seq![stop] + level_back(d.ui);
    let bus = menu::stopped_engine(d, false).bus;
    if d.ui.sync != SyncActive::Off {
        let left = usb::posted(bus, UsbCommand::SetMode(1));
        lemma_one_more(d.bus, bus, first, UsbCommand::SetMode(1));
        lemma_one_more(d.bus, left, first.push(UsbCommand::SetMode(1)), UsbCommand::TurnOff);
        assert(first.push(UsbCommand::SetMode(1)).push(UsbCommand::TurnOff) =~= seq![
            stop,
            UsbCommand::SetBrightness(user_level(d.ui)),
            UsbCommand::SetMode(1),
            UsbCommand::TurnOff,
        ]);
    } else {
        lemma_one_more(d.bus, bus, first, UsbCommand::TurnOff);
        assert(first.push(UsbCommand::TurnOff) =~= seq![stop, UsbCommand::TurnOff]);
    }
}

/// Which sync comes back with the LEDs: the one kept in mind, else the one that
/// waits since the start. An image sync needs its screen.
pub proof fn syncs_come_back_in_order(ui: UiState, screen: Seq<char>)
    ensures
        ({
            let back = menu::sync_to_resume(ui, screen);
            let up = screen.len() > 0;
            let waits = ui.pending_boot_sync;
            let next = if waits == Some(SyncActive::ImageSync) && !up {
                None
            } else {
                waits
            };
            &&& ui.resume == Some(SyncActive::Audio) ==> back == Some(SyncActive::Audio)
            &&& ui.resume == Some(SyncActive::ImageSync) && up ==> back == Some(
                SyncActive::ImageSync,
            )
            &&& ui.resume == Some(SyncActive::ImageSync) && !up ==> back == next
            &&& ui.resume is None || ui.resume == Some(SyncActive::Off) ==> back == next
            &&& back == Some(SyncActive::ImageSync) ==> up
        }),
{
}

/// The desk with a sync armed and its session asked for, on a stopped engine.
pub open spec fn started_desk(d: Desk, which: SyncActive) -> Desk {
    let mine = token_after(d.engine.state.session);
    let status = status_for(d.engine.connected, which);
    Desk {
        ui: UiState {
            sync: which,
            pending_boot_sync: None,
            mode: if which == SyncActive::ImageSync {
                Some(8u8)
            } else {
                Some(7u8)
            },
            leds_on: true,
            status,
            tooltip: status,
            ..d.ui
        },
        engine: Engine {
            state: EngineState { running: true, session: mine, ..d.engine.state },
            ..d.engine
        },
        out: d.out.push(
            if which == SyncActive::ImageSync {
                Effect::StartImage(mine)
            } else {
                Effect::StartAudio(mine)
            },
        ),
        ..d
    }
}

proof fn lemma_start(d: Desk, which: SyncActive)
    requires
        which != SyncActive::Off,
        !d.engine.state.running,
    ensures
        menu::synced(d, which) == started_desk(d, which),
{
    reveal(menu::synced);
}

/// Turning the LEDs on brings back the sync that is due, in a session of its
/// own, and else sends the power command. Either way an engine that ran is
/// stopped first.
pub proof fn leds_are_turned_on(d: Desk, detected: Seq<char>, reason: Seq<char>)
    requires
        d.ui.resume != Some(SyncActive::Off),
        d.ui.pending_boot_sync != Some(SyncActive::Off),
    ensures
        ({
            let after = menu::acted(d, Event::On, detected, reason);
            let base = stopped_desk(d);
            let stop = seq![UsbCommand::SetSession(token_after(d.engine.state.session))]
                + level_back(d.ui);
            let back = menu::sync_to_resume(base.ui, d.screen);
            &&& back is None ==> {
                &&& after == (Desk {
                    ui: UiState { leds_on: true, ..base.ui },
                    bus: after.bus,
                    ..base
                })
                &&& joined(d.bus, after.bus, stop + seq![UsbCommand::TurnOn])
            }
            &&& back is Some ==> {
                let fresh = Desk {
                    ui: UiState {
                        resume: if base.ui.resume == back {
                            None
                        } else {
                            base.ui.resume
                        },
                        ..base.ui
                    },
                    bus: after.bus,
                    ..base
                };
                &&& after == started_desk(fresh, back->0)
                &&& joined(d.bus, after.bus, stop)
            }
        }),
{
    reveal(menu::commanded);
    reveal(menu::carried_out);
    reveal(menu::turned_on);
    lemma_stop(d);
    let d1 = menu::stopped_engine(d, false);
    let d2 = Desk { ui: UiState { leds_on: true, ..d1.ui }, ..d1 };
    let stop = seq![UsbCommand::SetSession(token_after(d.engine.state.session))] + level_back(
        d.ui,
    );
    lemma_one_more(d.bus, d1.bus, stop, UsbCommand::TurnOn);
    assert(stop.push(UsbCommand::TurnOn) =~= stop + seq![UsbCommand::TurnOn]);
    let d3 = Desk { ui: UiState { resume: None, ..d2.ui }, ..d2 };
    match menu::sync_to_resume(d2.ui, d2.screen) {
        Some(which) => {
            lemma_start(d2, which);
            lemma_start(d3, which);
        },
        None => {},
    }
}

/// The sync toggles. A running sync of the kind is stopped for Static 1 and is
/// not kept in mind. Otherwise whatever runs is stopped and a session of the
/// kind started; an image sync without its screen only says so.
pub proof fn syncs_are_toggled(d: Desk, image: bool, detected: Seq<char>, reason: Seq<char>)
    ensures
        ({
            let which = if image {
                SyncActive::ImageSync
            } else {
                SyncActive::Audio
            };
            let event = if image {
                Event::ToggleImageSync
            } else {
                Event::ToggleAudio
            };
            let after = menu::acted(d, event, detected, reason);
            let base = stopped_desk(d);
            let stop = UsbCommand::SetSession(token_after(d.engine.state.session));
            &&& d.ui.sync == which ==> {
                &&& after == (Desk {
                    ui: UiState { resume: None, mode: Some(1), ..base.ui },
                    bus: after.bus,
                    ..base
                })
                &&& joined(
                    d.bus,
                    after.bus,
                    seq![
                        stop,
                        UsbCommand::SetMode(1),
                        UsbCommand::SetBrightness(user_level(d.ui)),
                    ],
                )
            }
            &&& d.ui.sync != which && image && d.screen.len() == 0 ==> after == (Desk {
                ui: UiState { status: Status::NoScreen, ..d.ui },
                ..d
            })
            &&& d.ui.sync != which && !(image && d.screen.len() == 0) ==> {
                &&& after == started_desk(
                    Desk { engine: base.engine, bus: after.bus, ..d },
                    which,
                )
                &&& joined(d.bus, after.bus, seq![stop])
            }
        }),
{
    reveal(menu::stopped_engine);
    let stop = UsbCommand::SetSession(token_after(d.engine.state.session));
    lemma_join_of(d.bus, stop);
    let b1 = usb::posted(d.bus, stop);
    let b2 = usb::posted(b1, UsbCommand::SetMode(1));
    lemma_one_more(d.bus, b1, seq![stop], UsbCommand::SetMode(1));
    let back = UsbCommand::SetBrightness(user_level(d.ui));
    lemma_one_more(d.bus, b2, seq![stop].push(UsbCommand::SetMode(1)), back);
    assert(seq![stop].push(UsbCommand::SetMode(1)).push(back) =~= seq![
        stop,
        UsbCommand::SetMode(1),
        back,
    ]);
    lemma_start(menu::halted(d), SyncActive::ImageSync);
    lemma_start(menu::halted(d), SyncActive::Audio);
}

/// What restores slot `i`, if a color is known for it.
pub open spec fn slot_back(ui: UiState, i: int) -> Seq<UsbCommand> {
    if ui.slot_colors@[i] is Some {
        let rgb = ui.slot_colors@[i]->0;
        seq![UsbCommand::StoreStaticColor((i + 1) as u8, rgb@[0], rgb@[1], rgb@[2])]
    } else {
        Seq::empty()
    }
}

/// The commands that restore what is known of the monitor, in order: the level,
/// unless a sync dims the frames; the slots' colors, 1 to 4; the mode, unless it
/// is a sync's.
pub open spec fn restore(ui: UiState) -> Seq<UsbCommand> {
    let level = if ui.brightness is Some && ui.sync == SyncActive::Off {
        seq![UsbCommand::SetBrightness(ui.brightness->0)]
    } else {
        Seq::empty()
    };
    let mode = if ui.mode is Some && ui.mode != Some(7u8) && ui.mode != Some(8u8) {
        seq![UsbCommand::SetMode(ui.mode->0)]
    } else {
        Seq::empty()
    };
    level + slot_back(ui, 0) + slot_back(ui, 1) + slot_back(ui, 2) + slot_back(ui, 3) + mode
}

proof fn lemma_slot_joins(d: Desk, start: Bus, cmds: Seq<UsbCommand>, i: int)
    requires
        joined(start, d.bus, cmds),
        0 <= i < 4,
    ensures
        joined(start, menu::slot_pushed(d, i).bus, cmds + slot_back(d.ui, i)),
        menu::slot_pushed(d, i) == (Desk { bus: menu::slot_pushed(d, i).bus, ..d }),
{
    match d.ui.slot_colors@[i] {
        Some(rgb) => {
            let cmd = UsbCommand::StoreStaticColor((i + 1) as u8, rgb@[0], rgb@[1], rgb@[2]);
            lemma_one_more(start, d.bus, cmds, cmd);
            assert(cmds.push(cmd) =~= cmds + slot_back(d.ui, i));
        },
        None => {
            assert(cmds + slot_back(d.ui, i) =~= cmds);
        },
    }
}

/// The restore sends just these commands, and changes nothing else.
pub proof fn restores_send_what_is_known(d: Desk)
    ensures
        ({
            let after = menu::device_state_pushed(d);
            &&& after == (Desk { bus: after.bus, ..d })
            &&& joined(d.bus, after.bus, restore(d.ui))
        }),
{
    reveal(menu::device_state_pushed);
    lemma_nothing_joins(d.bus);
    let none = Seq::<UsbCommand>::empty();
    let level = if d.ui.brightness is Some && d.ui.sync == SyncActive::Off {
        seq![UsbCommand::SetBrightness(d.ui.brightness->0)]
    } else {
        none
    };
    let d1 = match d.ui.brightness {
        Some(l) if d.ui.sync == SyncActive::Off => menu::sent(d, UsbCommand::SetBrightness(l)),
        _ => d,
    };
    assert(joined(d.bus, d1.bus, level)) by {
        if d.ui.brightness is Some && d.ui.sync == SyncActive::Off {
            lemma_join_of(d.bus, UsbCommand::SetBrightness(d.ui.brightness->0));
        }
    }
    lemma_slot_joins(d1, d.bus, level, 0);
    let d2 = menu::slot_pushed(d1, 0);
    let c2 = level + slot_back(d.ui, 0);
    lemma_slot_joins(d2, d.bus, c2, 1);
    let d3 = menu::slot_pushed(d2, 1);
    let c3 = c2 + slot_back(d.ui, 1);
    lemma_slot_joins(d3, d.bus, c3, 2);
    let d4 = menu::slot_pushed(d3, 2);
    let c4 = c3 + slot_back(d.ui, 2);
    lemma_slot_joins(d4, d.bus, c4, 3);
    let d5 = menu::slot_pushed(d4, 3);
    let c5 = c4 + slot_back(d.ui, 3);
    match d.ui.mode {
        Some(m) if m != 7 && m != 8 => {
            lemma_one_more(d.bus, d5.bus, c5, UsbCommand::SetMode(m));
            assert(c5.push(UsbCommand::SetMode(m)) =~= restore(d.ui));
        },
        _ => {
            assert(c5 =~= restore(d.ui));
        },
    }
}

/// A connection change shows in the texts. A monitor that is there gets what is
/// known of it, now and once more a second later.
pub proof fn connections_are_followed(d: Desk, detected: Seq<char>, reason: Seq<char>)
    ensures
        ({
            let after = menu::acted(d, Event::Connection, detected, reason);
            let status = status_for(d.engine.connected, d.ui.sync);
            &&& after == (Desk {
                ui: UiState { status, tooltip: status, ..d.ui },
                bus: after.bus,
                out: after.out,
                ..d
            })
            &&& d.engine.connected ==> {
                &&& joined(d.bus, after.bus, restore(d.ui))
                &&& after.out == d.out.push(Effect::ScheduleRecovery)
            }
            &&& !d.engine.connected ==> after.bus == d.bus && after.out == d.out
        }),
{
    restores_send_what_is_known(menu::refreshed(d));
}

/// The first enumeration repaints the texts, and has one recovery pass scheduled
/// over all its reports. A resume from sleep has one scheduled too, and a device
/// notification has the monitor looked for.
pub proof fn notifications_are_followed(d: Desk, detected: Seq<char>, reason: Seq<char>)
    ensures
        ({
            let found = menu::acted(d, Event::ConnectionInit, detected, reason);
            let resumed = menu::acted(d, Event::Resumed, detected, reason);
            let device = menu::acted(d, Event::DeviceChanged, detected, reason);
            let status = status_for(d.engine.connected, d.ui.sync);
            &&& found == (Desk {
                ui: UiState { status, tooltip: status, startup_pass: true, ..d.ui },
                out: found.out,
                ..d
            })
            &&& d.ui.startup_pass ==> found.out == d.out
            &&& !d.ui.startup_pass ==> found.out == d.out.push(Effect::ScheduleRecovery)
            &&& resumed == (Desk { out: d.out.push(Effect::ScheduleRecovery), ..d })
            &&& device == (Desk { bus: device.bus, ..d })
            &&& joined(d.bus, device.bus, seq![UsbCommand::Probe])
        }),
{
    lemma_join_of(d.bus, UsbCommand::Probe);
}

/// A recovery has a running session re-arm the monitor. Without one, the image
/// sync that waits for its screen starts if the screen is there, and else what
/// is known of the monitor is restored.
pub proof fn recoveries_bring_the_monitor_back(d: Desk)
    requires
        !d.engine.state.running || d.ui.sync != SyncActive::Off,
    ensures
        ({
            let after = menu::recovered(d);
            let waits = d.ui.pending_boot_sync == Some(SyncActive::ImageSync) && d.screen.len()
                > 0;
            &&& d.ui.sync != SyncActive::Off ==> after == (Desk {
                engine: Engine {
                    state: EngineState { reinit_requested: true, ..d.engine.state },
                    ..d.engine
                },
                ..d
            })
            &&& d.ui.sync == SyncActive::Off && waits ==> after == started_desk(
                d,
                SyncActive::ImageSync,
            )
            &&& d.ui.sync == SyncActive::Off && !waits ==> {
                &&& after == (Desk { bus: after.bus, ..d })
                &&& joined(d.bus, after.bus, restore(d.ui))
            }
        }),
{
    reveal(menu::recovered);
    restores_send_what_is_known(d);
    if d.ui.sync == SyncActive::Off {
        lemma_start(d, SyncActive::ImageSync);
    }
}

/// The delayed recovery pass needs a monitor.
pub proof fn recovery_passes_need_a_monitor(d: Desk, detected: Seq<char>, reason: Seq<char>)
    ensures
        d.engine.connected ==> menu::acted(d, Event::RestorePush, detected, reason)
            == menu::recovered(d),
        !d.engine.connected ==> menu::acted(d, Event::RestorePush, detected, reason) == d,
{
}

/// A display change under an unchanged screen has a running image sync drop its
/// capture; a screen that went away is only reported. A new screen restarts a
/// running image sync, has a running audio sync re-arm the monitor, and has it
/// recovered where none runs; in each case once more a second later.
pub proof fn screens_are_followed(d: Desk, detected: Seq<char>, reason: Seq<char>)
    ensures
        ({
            let after = menu::acted(d, Event::DisplayChanged, detected, reason);
            let status = status_for(d.engine.connected, SyncActive::Off);
            let moved = Desk { screen: detected, ui: UiState { status, ..d.ui }, ..d };
            &&& detected == d.screen && d.ui.sync != SyncActive::ImageSync ==> after == d
            &&& detected == d.screen && d.ui.sync == SyncActive::ImageSync ==> after == (Desk {
                engine: Engine {
                    state: EngineState { display_changed: true, ..d.engine.state },
                    ..d.engine
                },
                ..d
            })
            &&& detected != d.screen && detected.len() == 0 ==> after == (Desk {
                screen: detected,
                ui: UiState { status: Status::NoScreen, ..d.ui },
                ..d
            })
            &&& detected != d.screen && detected.len() > 0 ==> {
                &&& after.screen == detected
                &&& after.out.last() is ScheduleRecovery
                &&& d.ui.sync == SyncActive::Off ==> after == (Desk {
                    out: menu::recovered(moved).out.push(Effect::ScheduleRecovery),
                    ..menu::recovered(moved)
                })
                &&& d.ui.sync == SyncActive::Audio ==> after == (Desk {
                    engine: Engine {
                        state: EngineState { reinit_requested: true, ..d.engine.state },
                        ..d.engine
                    },
                    out: d.out.push(Effect::ScheduleRecovery),
                    ..moved
                })
                &&& d.ui.sync == SyncActive::ImageSync ==> {
                    let restarted = started_desk(
                        Desk { engine: stopped_desk(d).engine, bus: after.bus, ..moved },
                        SyncActive::ImageSync,
                    );
                    &&& after == (Desk {
                        out: restarted.out.push(Effect::ScheduleRecovery),
                        ..restarted
                    })
                    &&& joined(
                        d.bus,
                        after.bus,
                        seq![UsbCommand::SetSession(token_after(d.engine.state.session))],
                    )
                }
            }
        }),
{
    reveal(menu::redetected);
    let status = status_for(d.engine.connected, SyncActive::Off);
    let moved = Desk { screen: detected, ui: UiState { status, ..d.ui }, ..d };
    lemma_join_of(d.bus, UsbCommand::SetSession(token_after(d.engine.state.session)));
    lemma_start(menu::halted(moved), SyncActive::ImageSync);
    assert(menu::recovered(moved).screen == detected) by {
        reveal(menu::recovered);
        reveal(menu::synced);
        restores_send_what_is_known(moved);
    }
}

/// An engine that gave up leaves the monitor in Static 1 at the user's level and
/// its reason on show; the tooltip stays, and no sync is kept in mind. An engine
/// that runs again is not disturbed.
pub proof fn failures_are_shown(
    d: Desk,
    kind: FailureKind,
    detected: Seq<char>,
    reason: Seq<char>,
)
    ensures
        ({
            let after = menu::acted(d, Event::EngineFailed(kind), detected, reason);
            &&& d.engine.state.running ==> after == d
            &&& !d.engine.state.running ==> {
                &&& after == (Desk {
                    ui: UiState {
                        status: Status::Failed(kind),
                        resume: None,
                        mode: Some(1),
                        sync: SyncActive::Off,
                        ..d.ui
                    },
                    failure: reason,
                    bus: after.bus,
                    ..d
                })
                &&& joined(
                    d.bus,
                    after.bus,
                    seq![UsbCommand::SetMode(1), UsbCommand::SetBrightness(user_level(d.ui))],
                )
            }
        }),
{
    reveal(menu::failed);
    lemma_join_of(d.bus, UsbCommand::SetMode(1));
    let back = UsbCommand::SetBrightness(user_level(d.ui));
    lemma_one_more(
        d.bus,
        usb::posted(d.bus, UsbCommand::SetMode(1)),
        seq![UsbCommand::SetMode(1)],
        back,
    );
    assert(seq![UsbCommand::SetMode(1)].push(back) =~= seq![UsbCommand::SetMode(1), back]);
}

/// On exit the engine stops, the device's level and its mode are restored, and
/// the worker stops; a mode from 1 to 6 stays, any other becomes Static 1.
pub proof fn exits_are_ordered(d: Desk, detected: Seq<char>, reason: Seq<char>)
    ensures
        ({
            let after = menu::acted(d, Event::Quit, detected, reason);
            let mode = if d.ui.mode is Some && 1 <= d.ui.mode->0 <= 6 {
                d.ui.mode->0
            } else {
                1u8
            };
            &&& after == (Desk {
                engine: stopped_desk(d).engine,
                bus: after.bus,
                out: d.out.push(Effect::Quit),
                ..d
            })
            &&& joined(
                d.bus,
                after.bus,
                seq![
                    UsbCommand::SetSession(token_after(d.engine.state.session)),
                    UsbCommand::SetBrightness(user_level(d.ui)),
                    UsbCommand::SetMode(mode),
                    UsbCommand::Stop,
                ],
            )
        }),
{
    reveal(menu::quitted);
    let stop = UsbCommand::SetSession(token_after(d.engine.state.session));
    let back = UsbCommand::SetBrightness(user_level(d.ui));
    let mode = UsbCommand::SetMode(menu::exit_mode(d.ui));
    lemma_join_of(d.bus, stop);
    let b1 = usb::posted(d.bus, stop);
    lemma_one_more(d.bus, b1, seq![stop], back);
    let b2 = usb::posted(b1, back);
    lemma_one_more(d.bus, b2, seq![stop].push(back), mode);
    let b3 = usb::posted(b2, mode);
    lemma_one_more(d.bus, b3, seq![stop].push(back).push(mode), UsbCommand::Stop);
    assert(seq![stop].push(back).push(mode).push(UsbCommand::Stop) =~= seq![
        stop,
        back,
        mode,
        UsbCommand::Stop,
    ]);
}

/// A tuning of the image sync goes to the state and to the engine alike, and
/// changes just its own value. A new sampling mode restarts a running image
/// sync; nothing else restarts anything.
pub proof fn image_tuning_is_applied(d: Desk, event: Event, detected: Seq<char>, reason: Seq<char>)
    requires
        event is Sampling || event is Smoothing || event is Boost || event is Fps,
    ensures
        ({
            let after = menu::acted(d, event, detected, reason);
            let params = match event {
                Event::Sampling(v) => ImageSyncParams { sampling: v, ..d.ui.params },
                Event::Smoothing(v) => ImageSyncParams { smoothing: v, ..d.ui.params },
                Event::Boost(v) => ImageSyncParams { boost: v, ..d.ui.params },
                Event::Fps(v) => ImageSyncParams { fps: v, ..d.ui.params },
                _ => d.ui.params,
            };
            let tuned = Desk {
                ui: UiState { params, ..d.ui },
                engine: Engine { image_params: params, ..d.engine },
                ..d
            };
            let restarts = d.ui.sync == SyncActive::ImageSync && params.sampling
                != d.ui.params.sampling;
            &&& after.ui.params == params
            &&& params == d.ui.params ==> after == d
            &&& params != d.ui.params && !restarts ==> after == tuned
            &&& restarts ==> {
                &&& after == started_desk(
                    Desk {
                        engine: Engine { image_params: params, ..stopped_desk(d).engine },
                        bus: after.bus,
                        ..tuned
                    },
                    SyncActive::ImageSync,
                )
                &&& joined(
                    d.bus,
                    after.bus,
                    seq![UsbCommand::SetSession(token_after(d.engine.state.session))],
                )
            }
        }),
{
    reveal(menu::retuned);
    reveal(menu::tuned);
    lemma_join_of(d.bus, UsbCommand::SetSession(token_after(d.engine.state.session)));
    match event {
        Event::Sampling(v) => {
            let params = ImageSyncParams { sampling: v, ..d.ui.params };
            let tuned = Desk {
                ui: UiState { params, ..d.ui },
                engine: Engine { image_params: params, ..d.engine },
                ..d
            };
            lemma_start(menu::halted(tuned), SyncActive::ImageSync);
        },
        _ => {},
    }
}

/// A tuning of the audio sync goes to the state and to the engine alike, changes
/// just its own value, and restarts nothing. A solid color is remembered when it
/// is chosen and when it is left for the rainbow, and can be chosen again.
pub proof fn audio_tuning_is_applied(d: Desk, event: Event, detected: Seq<char>, reason: Seq<char>)
    requires
        event is Gain || event is Blink || event is Range || event is AudioRainbow
            || event is AudioPicked || event is AudioSolidRestore,
    ensures
        ({
            let after = menu::acted(d, event, detected, reason);
            let params = match event {
                Event::Gain(v) => AudioParams { gain: v, ..d.ui.audio },
                Event::Blink(v) => AudioParams { blink: v, ..d.ui.audio },
                Event::Range(v) => AudioParams { range: v, ..d.ui.audio },
                Event::AudioRainbow => AudioParams { color: AudioColor::Rainbow, ..d.ui.audio },
                Event::AudioPicked(rgb) => AudioParams {
                    color: AudioColor::Solid(rgb),
                    ..d.ui.audio
                },
                _ => if d.ui.last_solid is Some {
                    AudioParams { color: AudioColor::Solid(d.ui.last_solid->0), ..d.ui.audio }
                } else {
                    d.ui.audio
                },
            };
            let solid = match event {
                Event::AudioRainbow => if d.ui.audio.color is Solid {
                    Some(d.ui.audio.color->Solid_0)
                } else {
                    d.ui.last_solid
                },
                Event::AudioPicked(rgb) => Some(rgb),
                _ => d.ui.last_solid,
            };
            &&& !(event is AudioSolidRestore && d.ui.last_solid is None) ==> after == (Desk {
                ui: UiState { audio: params, last_solid: solid, ..d.ui },
                engine: Engine { audio_params: params, ..d.engine },
                ..d
            })
            &&& event is AudioSolidRestore && d.ui.last_solid is None ==> after == d
        }),
{
    reveal(menu::retuned);
}

/// The events that only ask for something: each asks for just that.
pub proof fn requests_are_passed_on(
    d: Desk,
    slot: u8,
    language: Language,
    detected: Seq<char>,
    reason: Seq<char>,
)
    requires
        1 <= slot <= 4,
    ensures
        ({
            let known = d.ui.slot_colors@[slot - 1];
            let pick = menu::acted(d, Event::SlotColor(slot), detected, reason);
            let audio = menu::acted(d, Event::AudioSolid, detected, reason);
            &&& menu::acted(d, Event::Language(language), detected, reason) == (Desk {
                ui: UiState { language, ..d.ui },
                out: d.out.push(Effect::SwitchLanguage(language)),
                ..d
            })
            &&& menu::acted(d, Event::Autostart, detected, reason) == (Desk {
                out: d.out.push(Effect::SetAutostart(!d.ui.autostart)),
                ..d
            })
            &&& menu::acted(d, Event::OpenPanel, detected, reason) == (Desk {
                out: d.out.push(Effect::OpenPanel),
                ..d
            })
            &&& menu::acted(d, Event::PanelReady, detected, reason) == d
            &&& menu::acted(d, Event::Unknown, detected, reason) == d
            &&& pick == (Desk { out: pick.out, ..d })
            &&& pick.out.len() == d.out.len() + 1 && pick.out.drop_last() == d.out
            &&& pick.out.last() matches Effect::OpenPicker(PickerRequest::Slot(s, rgb)) && s
                == slot && (known is Some ==> rgb == known->0) && (known is None ==> rgb@
                == seq![255u8, 255u8, 255u8])
            &&& audio == (Desk {
                out: d.out.push(
                    Effect::OpenPicker(
                        PickerRequest::Audio(
                            if d.ui.audio.color is Solid {
                                Some(d.ui.audio.color->Solid_0)
                            } else {
                                None
                            },
                        ),
                    ),
                ),
                ..d
            })
        }),
{
    let pick = menu::acted(d, Event::SlotColor(slot), detected, reason);
    assert(pick.out.drop_last() =~= d.out);
    let white: [u8; 3] = [255u8, 255u8, 255u8];
    assert(white@ =~= seq![255u8, 255u8, 255u8]);
}

/// A slot beyond the four, or none, is picked from white, or as slot 1.
pub proof fn other_slots_are_picked_too(d: Desk, slot: u8)
    requires
        slot == 0 || slot > 4,
    ensures
        ({
            let after = menu::slot_picking(d, slot);
            let known = d.ui.slot_colors@[0];
            &&& after.out.last() matches Effect::OpenPicker(PickerRequest::Slot(s, rgb)) && s
                == slot && (slot == 0 && known is Some ==> rgb == known->0) && (slot > 4
                || known is None ==> rgb@ == seq![255u8, 255u8, 255u8])
        }),
{
    let white: [u8; 3] = [255u8, 255u8, 255u8];
    assert(white@ =~= seq![255u8, 255u8, 255u8]);
}

/// What is saved is what is on show, value by value.
pub proof fn settings_hold_the_state(ui: UiState)
    ensures
        ({
            let s = menu::settings_of(ui);
            &&& s.sampling == Some(ui.params.sampling) && s.smoothing == Some(ui.params.smoothing)
            &&& s.boost == Some(ui.params.boost) && s.fps == Some(ui.params.fps)
            &&& s.brightness == ui.brightness && s.mode == ui.mode
            &&& s.slot_colors == ui.slot_colors
            &&& s.image_sync_running == (ui.sync == SyncActive::ImageSync)
            &&& s.audio_running == (ui.sync == SyncActive::Audio)
            &&& s.audio_gain == Some(ui.audio.gain) && s.audio_color == Some(ui.audio.color)
            &&& s.audio_blink == Some(ui.audio.blink) && s.audio_range == Some(ui.audio.range)
            &&& s.language == Some(ui.language)
        }),
{
}

/// The application starts from its settings. A value that was never saved has
/// its default: the 5% ring, smoothing 0.4, boost 1.2, 30 frames a second; gain
/// 1, the rainbow, the normal blink and range; the system's language.
pub proof fn starts_take_the_settings_up(
    s: Settings,
    screen: Seq<char>,
    autostart: bool,
    e: Engine,
    bus: Bus,
)
    ensures
        ({
            let d = menu::seeded(s, screen, autostart, e, bus);
            let p = d.ui.params;
            let a = d.ui.audio;
            let status = status_for(e.connected, SyncActive::Off);
            &&& s.sampling is Some ==> p.sampling == s.sampling->0
            &&& s.smoothing is Some ==> p.smoothing == s.smoothing->0
            &&& s.boost is Some ==> p.boost == s.boost->0
            &&& s.fps is Some ==> p.fps == s.fps->0
            &&& s.sampling is None ==> p.sampling == SamplingMode::Border5
            &&& s.smoothing is None ==> p.smoothing == (Factor { bits: 0x3ECC_CCCD })
            &&& s.boost is None ==> p.boost == (Factor { bits: 0x3F99_999A })
            &&& s.fps is None ==> p.fps == 30
            &&& s.audio_gain is Some ==> a.gain == s.audio_gain->0
            &&& s.audio_color is Some ==> a.color == s.audio_color->0
            &&& s.audio_blink is Some ==> a.blink == s.audio_blink->0
            &&& s.audio_range is Some ==> a.range == s.audio_range->0
            &&& s.audio_gain is None ==> a.gain == (Factor { bits: 0x3F80_0000 })
            &&& s.audio_color is None ==> a.color is Rainbow
            &&& s.audio_blink is None ==> a.blink == Blink::Normal
            &&& s.audio_range is None ==> a.range == DynamicRange::Normal
            &&& s.language is Some ==> d.ui.language == s.language->0
            &&& s.language is None ==> d.ui.language == Language::System
            &&& d.ui.last_solid == (if a.color is Solid {
                Some(a.color->Solid_0)
            } else {
                None
            })
            &&& s.image_sync_running ==> d.ui.sync == SyncActive::ImageSync
            &&& !s.image_sync_running && s.audio_running ==> d.ui.sync == SyncActive::Audio
            &&& !s.image_sync_running && !s.audio_running ==> d.ui.sync == SyncActive::Off
            &&& d.ui.brightness == s.brightness && d.ui.mode == s.mode
            &&& d.ui.slot_colors == s.slot_colors
            &&& d.ui.resume is None && d.ui.pending_boot_sync is None
            &&& d.ui.status == status && d.ui.tooltip == status
            &&& d.ui.leds_on && d.ui.autostart == autostart
            &&& d.ui.startup_pass == e.connected
            &&& d.screen == screen && d.failure.len() == 0 && d.bus == bus && d.out.len() == 0
            &&& d.engine == (Engine {
                image_params: p,
                audio_params: a,
                brightness: d.engine.brightness,
                ..e
            })
            &&& s.brightness is None ==> d.engine.brightness == 12
            &&& s.brightness is Some && 1 <= s.brightness->0 <= 12 ==> d.engine.brightness
                == s.brightness->0
            &&& s.brightness == Some(0u8) ==> d.engine.brightness == 1
            &&& s.brightness is Some && s.brightness->0 > 12 ==> d.engine.brightness == 12
        }),
{
}

/// At the start what is known of the monitor is restored, once more a second
/// later if it is there. The sync that ran at the exit runs again; an image sync
/// without its screen waits for it.
pub proof fn starts_restore_and_resume(
    s: Settings,
    screen: Seq<char>,
    autostart: bool,
    e: Engine,
    bus: Bus,
)
    requires
        !e.state.running,
    ensures
        ({
            let first = menu::seeded(s, screen, autostart, e, bus);
            let after = menu::built(s, screen, autostart, e, bus);
            let asked = if e.connected {
                seq![Effect::ScheduleRecovery]
            } else {
                Seq::empty()
            };
            let base = Desk { bus: after.bus, out: asked, ..first };
            &&& joined(bus, after.bus, restore(first.ui))
            &&& first.ui.sync == SyncActive::Off ==> after == base
            &&& first.ui.sync == SyncActive::Audio ==> after == started_desk(
                base,
                SyncActive::Audio,
            )
            &&& first.ui.sync == SyncActive::ImageSync && screen.len() > 0 ==> after
                == started_desk(base, SyncActive::ImageSync)
            &&& first.ui.sync == SyncActive::ImageSync && screen.len() == 0 ==> after == (Desk {
                ui: UiState {
                    sync: SyncActive::Off,
                    pending_boot_sync: Some(SyncActive::ImageSync),
                    ..first.ui
                },
                ..base
            })
        }),
{
    let first = menu::seeded(s, screen, autostart, e, bus);
    restores_send_what_is_known(first);
    let d1 = menu::device_state_pushed(first);
    let d2 = if e.connected {
        menu::asked(d1, Effect::ScheduleRecovery)
    } else {
        d1
    };
    assert(d2.out =~= if e.connected {
        seq![Effect::ScheduleRecovery]
    } else {
        Seq::empty()
    });
    lemma_start(d2, SyncActive::Audio);
    lemma_start(d2, SyncActive::ImageSync);
}

} // verus!
