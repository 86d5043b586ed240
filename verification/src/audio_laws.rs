//! What an audio sync session does at each step, in terms of what is seen from
//! outside.

use crate::audio_sync;
use crate::audio_sync::{
    AudioAction, AudioEvent, AudioPhase, AudioSync, Outcome, Poll, Scene,
};
use crate::engine;
use crate::engine::{Colors, EngineState};
use crate::factor::Factor;
use crate::image_laws;
use crate::usb;
use crate::usb::{Bus, UsbCommand};
use vstd::prelude::*;

verus! {

/// Did one audio frame with just these colors join the data plane, or was it
/// dropped because four messages waited there?
pub open spec fn frame_joined(before: Bus, after: Bus, mine: u64, colors: Colors) -> bool {
    &&& after.ctrl == before.ctrl
    &&& after.open == before.open && after.senders == before.senders
    &&& before.open && before.frames.len() < 4 ==> after.frames == before.frames + seq![
        UsbCommand::SendColors(mine, colors, true),
    ]
    &&& !before.open || before.frames.len() >= 4 ==> after.frames == before.frames
}

proof fn lemma_offered(bus: Bus, mine: u64, colors: Colors)
    ensures
        frame_joined(
            bus,
            usb::offered(bus, UsbCommand::SendColors(mine, colors, true)),
            mine,
            colors,
        ),
{
    let cmd = UsbCommand::SendColors(mine, colors, true);
    assert(bus.frames.push(cmd) =~= bus.frames + seq![cmd]);
}

proof fn lemma_arm_joined(bus: Bus)
    requires
        bus.open,
    ensures
        image_laws::commands_joined(
            bus,
            usb::posted(bus, UsbCommand::ArmSync(7)),
            seq![UsbCommand::ArmSync(7)],
        ),
{
    let all = seq![UsbCommand::ArmSync(7)];
    engine::lemma_controls_join(bus, all);
    assert(all.drop_last() =~= Seq::<UsbCommand>::empty());
    assert(engine::posted_all(bus, Seq::<UsbCommand>::empty()) == bus);
    assert(engine::posted_all(bus, all) == usb::posted(bus, UsbCommand::ArmSync(7)));
}

/// A session that was superseded ends with the step that finds out.
pub proof fn superseded_sessions_end(s: AudioSync, e: Scene, event: AudioEvent)
    requires
        !(e.state.running && e.state.session == s.mine),
        event is Go && (s.phase == AudioPhase::Birth || s.phase == AudioPhase::Settling || s.phase
            == AudioPhase::Top || s.phase == AudioPhase::Rearming) || event is Painted && s.phase
            == AudioPhase::Painting,
    ensures
        audio_sync::stepped(s, e, event) == (Outcome {
            sync: AudioSync { phase: AudioPhase::Finished, ..s },
            state: e.state,
            bus: e.bus,
            action: AudioAction::Finish,
        }),
{
}

/// A new session registers itself, turns the strip on at full brightness in
/// audio mode, and lets the monitor settle for a quarter of a second.
pub proof fn sessions_open_with_the_init(s: AudioSync, e: Scene)
    requires
        s.phase == AudioPhase::Birth,
        engine::valid(e.state, s.mine),
    ensures
        ({
            let out = audio_sync::stepped(s, e, AudioEvent::Go);
            &&& out.state == (EngineState { reinit_requested: false, ..e.state })
            &&& e.bus.open ==> {
                &&& out.sync == (AudioSync { phase: AudioPhase::Settling, ..s })
                &&& out.action == AudioAction::Sleep(250)
                &&& image_laws::commands_joined(
                    e.bus,
                    out.bus,
                    seq![
                        UsbCommand::SetSession(s.mine),
                        UsbCommand::TurnOn,
                        UsbCommand::SetBrightness(12),
                        UsbCommand::SetMode(7),
                    ],
                )
            }
            &&& !e.bus.open ==> {
                &&& out.sync == (AudioSync { phase: AudioPhase::Finished, ..s })
                &&& out.action == AudioAction::Finish
                &&& out.bus == e.bus
            }
        }),
{
    let cmds = engine::init_commands(s.mine, 7);
    engine::lemma_controls_join(e.bus, cmds);
    assert(cmds =~= seq![
        UsbCommand::SetSession(s.mine),
        UsbCommand::TurnOn,
        UsbCommand::SetBrightness(12),
        UsbCommand::SetMode(7),
    ]);
}

/// Once the monitor has settled its chunk count is asserted; the loopback is
/// opened next.
pub proof fn settled_sessions_open_the_loopback(s: AudioSync, e: Scene)
    requires
        s.phase == AudioPhase::Settling,
        engine::valid(e.state, s.mine),
    ensures
        ({
            let out = audio_sync::stepped(s, e, AudioEvent::Go);
            &&& out.state == e.state
            &&& e.bus.open ==> {
                &&& out.sync == (AudioSync { phase: AudioPhase::Opening, ..s })
                &&& out.action == AudioAction::Open
                &&& image_laws::commands_joined(e.bus, out.bus, seq![UsbCommand::ArmSync(7)])
            }
            &&& !e.bus.open ==> {
                &&& out.sync == (AudioSync { phase: AudioPhase::Finished, ..s })
                &&& out.action == AudioAction::Finish
                &&& out.bus == e.bus
            }
        }),
{
    if e.bus.open {
        lemma_arm_joined(e.bus);
    }
}

/// An open loopback starts the loop; a failed one ends the session and stops the
/// engine, unless another session runs it. One that was opened anew starts from
/// silence.
pub proof fn loopbacks_open_or_end_the_session(s: AudioSync, e: Scene)
    requires
        s.phase == AudioPhase::Opening || s.phase == AudioPhase::Reopening,
    ensures
        ({
            let up = audio_sync::stepped(s, e, AudioEvent::Opened(true));
            let down = audio_sync::stepped(s, e, AudioEvent::Opened(false));
            &&& up.bus == e.bus && up.state == e.state && down.bus == e.bus
            &&& s.phase == AudioPhase::Opening ==> {
                &&& up.sync == (AudioSync { phase: AudioPhase::Top, last_send: e.now, ..s })
                &&& up.action == AudioAction::Again
            }
            &&& s.phase == AudioPhase::Reopening ==> {
                &&& up.sync == (AudioSync {
                    phase: AudioPhase::Painting,
                    failures: 0,
                    last_level: (Factor { bits: 0 }),
                    ..s
                })
                &&& up.action == (AudioAction::Paint {
                    level: (Factor { bits: 0 }),
                    brightness: e.level,
                })
            }
            &&& down.sync == (AudioSync { phase: AudioPhase::Finished, ..s })
            &&& engine::valid(e.state, s.mine) ==> down.action == AudioAction::GiveUp
                && down.state == (EngineState { running: false, ..e.state })
            &&& !engine::valid(e.state, s.mine) ==> down.action == AudioAction::Finish
                && down.state == e.state
        }),
{
}

/// Without a monitor the session sleeps a second, sends nothing, and will re-arm
/// it.
pub proof fn sessions_idle_without_a_monitor(s: AudioSync, e: Scene)
    requires
        s.phase == AudioPhase::Top,
        engine::valid(e.state, s.mine),
        !e.connected,
    ensures
        audio_sync::stepped(s, e, AudioEvent::Go) == (Outcome {
            sync: AudioSync { reinit_needed: true, ..s },
            state: e.state,
            bus: e.bus,
            action: AudioAction::Sleep(1000),
        }),
{
}

/// A re-arm turns the strip on at full brightness in audio mode, lets the monitor
/// settle, and forgets the last colors.
pub proof fn rearms_resend_the_init(s: AudioSync, e: Scene)
    requires
        s.phase == AudioPhase::Top,
        engine::valid(e.state, s.mine),
        e.connected,
        s.reinit_needed || e.state.reinit_requested,
    ensures
        ({
            let out = audio_sync::stepped(s, e, AudioEvent::Go);
            &&& out.state == (EngineState { reinit_requested: false, ..e.state })
            &&& e.bus.open ==> {
                &&& out.sync == (AudioSync {
                    phase: AudioPhase::Rearming,
                    reinit_needed: false,
                    last_sent: None,
                    ..s
                })
                &&& out.action == AudioAction::Sleep(250)
                &&& image_laws::commands_joined(
                    e.bus,
                    out.bus,
                    seq![
                        UsbCommand::TurnOn,
                        UsbCommand::SetBrightness(12),
                        UsbCommand::SetMode(7),
                    ],
                )
            }
            &&& !e.bus.open ==> {
                &&& out.sync == (AudioSync { phase: AudioPhase::Finished, ..s })
                &&& out.action == AudioAction::Finish
                &&& out.bus == e.bus
            }
        }),
{
    let cmds = engine::rearm_commands(7);
    engine::lemma_controls_join(e.bus, cmds);
    assert(cmds =~= seq![
        UsbCommand::TurnOn,
        UsbCommand::SetBrightness(12),
        UsbCommand::SetMode(7),
    ]);
}

/// With a monitor that needs no re-arm the loudness is polled; a re-armed one is
/// asserted its chunk count first.
pub proof fn iterations_poll_the_loudness(s: AudioSync, e: Scene)
    requires
        engine::valid(e.state, s.mine),
        s.phase == AudioPhase::Top && e.connected && !s.reinit_needed && !e.state.reinit_requested
            || s.phase == AudioPhase::Rearming,
    ensures
        ({
            let out = audio_sync::stepped(s, e, AudioEvent::Go);
            let goes_on = s.phase == AudioPhase::Top || e.bus.open;
            &&& out.state == e.state
            &&& s.phase == AudioPhase::Top || !e.bus.open ==> out.bus == e.bus
            &&& s.phase == AudioPhase::Rearming && e.bus.open ==> image_laws::commands_joined(
                e.bus,
                out.bus,
                seq![UsbCommand::ArmSync(7)],
            )
            &&& goes_on ==> {
                &&& out.sync == (AudioSync { phase: AudioPhase::Polling, ..s })
                &&& out.action == AudioAction::Poll
            }
            &&& !goes_on ==> {
                &&& out.sync == (AudioSync { phase: AudioPhase::Finished, ..s })
                &&& out.action == AudioAction::Finish
            }
        }),
{
    if e.bus.open {
        lemma_arm_joined(e.bus);
    }
}

/// A level is painted at the brightness of the moment, and ends a run of
/// failures. A failure paints the last level, the hundredth in a row opens the
/// loopback anew, and so does another default device at once.
pub proof fn polls_are_painted(s: AudioSync, e: Scene, poll: Poll)
    requires
        s.wf(),
        s.phase == AudioPhase::Polling,
    ensures
        ({
            let out = audio_sync::stepped(s, e, AudioEvent::Polled(poll));
            let reopens = poll is DeviceChanged || (poll is Failed && s.failures + 1 == 100);
            &&& s.failures < 100
            &&& out.bus == e.bus && out.state == e.state
            &&& out.sync == (AudioSync {
                phase: if reopens {
                    AudioPhase::Reopening
                } else {
                    AudioPhase::Painting
                },
                failures: out.sync.failures,
                last_level: out.sync.last_level,
                ..s
            })
            &&& poll matches Poll::Level(level) ==> out.sync.last_level == level
                && out.sync.failures == 0
            &&& !(poll is Level) ==> out.sync.last_level == s.last_level
            &&& poll is Failed ==> out.sync.failures == s.failures + 1
            &&& poll is DeviceChanged ==> out.sync.failures == s.failures
            &&& reopens ==> out.action == AudioAction::Open
            &&& !reopens ==> out.action == (AudioAction::Paint {
                level: out.sync.last_level,
                brightness: e.level,
            })
        }),
{
}

/// Painted colors go out as they are, unless they are the last ones; those go
/// out again only as the heartbeat after five seconds.
pub proof fn painted_colors_go_out(s: AudioSync, e: Scene, colors: Colors)
    requires
        s.phase == AudioPhase::Painting,
        engine::valid(e.state, s.mine),
    ensures
        ({
            let out = audio_sync::stepped(s, e, AudioEvent::Painted(colors));
            let sent = s.last_sent != Some(colors) || usb::elapsed(s.last_send, e.now) >= 5000;
            &&& sent ==> frame_joined(e.bus, out.bus, s.mine, colors)
            &&& !sent ==> out.bus == e.bus
            &&& out.sync == (AudioSync {
                phase: AudioPhase::Top,
                last_sent: Some(colors),
                last_send: if sent {
                    e.now
                } else {
                    s.last_send
                },
                ..s
            })
            &&& out.state == e.state
            &&& out.action == AudioAction::Again
        }),
{
    lemma_offered(e.bus, s.mine, colors);
}

/// An event that the session does not wait for changes nothing.
pub proof fn stray_events_change_nothing(s: AudioSync, e: Scene, event: AudioEvent)
    requires
        event is Opened ==> s.phase != AudioPhase::Opening && s.phase != AudioPhase::Reopening,
        event is Polled ==> s.phase != AudioPhase::Polling,
        event is Painted ==> s.phase != AudioPhase::Painting,
        event is Go ==> s.phase == AudioPhase::Opening || s.phase == AudioPhase::Reopening
            || s.phase == AudioPhase::Polling || s.phase == AudioPhase::Painting || s.phase
            == AudioPhase::Finished,
    ensures
        ({
            let out = audio_sync::stepped(s, e, event);
            &&& out.sync == s && out.state == e.state && out.bus == e.bus
            &&& out.action == match s.phase {
                AudioPhase::Opening | AudioPhase::Reopening => AudioAction::Open,
                AudioPhase::Polling => AudioAction::Poll,
                AudioPhase::Painting => AudioAction::Paint {
                    level: s.last_level,
                    brightness: e.level,
                },
                AudioPhase::Finished => AudioAction::Finish,
                _ => AudioAction::Again,
            }
        }),
{
}

/// A step sees the engine as it is.
pub proof fn steps_see_the_engine(engine: engine::Engine, bus: Bus, now: u64)
    ensures
        ({
            let e = audio_sync::scene(engine, bus, now);
            &&& e.state == engine.state && e.level == engine.brightness
            &&& e.connected == engine.connected && e.bus == bus && e.now == now
        }),
{
}

/// A step of the code that comes out as stated leaves the session, the action, the
/// engine's state and the bus as stated, and all else of the engine alone.
pub proof fn steps_leave_nothing_open(
    out: Outcome,
    next: (AudioSync, AudioAction),
    before: engine::Engine,
    after: engine::Engine,
    bus: Bus,
)
    requires
        audio_sync::matches_outcome(out, next, before, after, bus),
    ensures
        next.0 == out.sync && next.1 == out.action,
        bus == out.bus,
        after.state == out.state,
        after.tx == before.tx && after.image_params == before.image_params,
        after.audio_params == before.audio_params && after.brightness == before.brightness,
        after.connected == before.connected,
{
}

} // verus!
