//! The audio sync session: arms the monitor, polls the loudness of the system
//! audio, and streams the painted colors with dedup and keepalive.

use crate::engine;
use crate::engine::{
    Colors, Engine, EngineState, AUDIO_SYNC_MODE, DISCONNECTED_IDLE, INIT_SETTLE,
    MAX_CAPTURE_FAILURES, SYNC_KEEPALIVE,
};
use crate::factor;
use crate::factor::Factor;
use crate::usb;
use crate::usb::{Bus, CommandRx, UsbCommand};
use vstd::prelude::*;

verus! {

/// What the session is doing.
#[derive(Clone, Copy, PartialEq, Eq, Debug, Structural)]
pub enum AudioPhase {
    /// Just started: nothing has been sent.
    Birth,
    /// The init was sent; the monitor settles.
    Settling,
    /// Opening the loopback for the first time.
    Opening,
    /// At the head of the loop.
    Top,
    /// The init was re-sent; the monitor settles.
    Rearming,
    /// Waiting for a loudness level.
    Polling,
    /// Opening the loopback anew.
    Reopening,
    /// Waiting for the colors of a level.
    Painting,
    Finished,
}

/// What happened since the last step.
#[derive(Clone, Copy, Debug)]
pub enum AudioEvent {
    /// The last action is done.
    Go,
    /// The loopback was opened, or not.
    Opened(bool),
    Polled(Poll),
    /// The colors of the level that was asked for.
    Painted(Colors),
}

#[derive(Clone, Copy, PartialEq, Eq, Debug, Structural)]
pub enum Poll {
    /// The smoothed loudness in 0..1.
    Level(Factor),
    /// The capture read failed.
    Failed,
    /// Another device is the default now.
    DeviceChanged,
}

/// What to do next.
#[derive(Clone, Copy, PartialEq, Eq, Debug, Structural)]
pub enum AudioAction {
    /// Step again at once.
    Again,
    /// Sleep this many milliseconds.
    Sleep(u64),
    /// Open the loopback on the default device.
    Open,
    /// Poll the loudness.
    Poll,
    /// Paint the base colors at a loudness level and a brightness level.
    Paint { level: Factor, brightness: u8 },
    /// Report that the audio capture is unavailable, and end.
    GiveUp,
    Finish,
}

/// A session's state. Times are milliseconds of a monotonic clock.
#[derive(Clone, Copy, Debug)]
pub struct AudioSync {
    pub phase: AudioPhase,
    /// The session's token.
    pub mine: u64,
    /// The monitor must be re-armed before frames go on.
    pub reinit_needed: bool,
    /// Capture failures in a row.
    pub failures: u32,
    /// The level to paint while the capture fails: short glitches cause no
    /// visible change.
    pub last_level: Factor,
    pub last_sent: Option<Colors>,
    pub last_send: u64,
}

/// What a step finds around it.
pub struct Scene {
    pub state: EngineState,
    pub level: u8,
    pub connected: bool,
    pub bus: Bus,
    pub now: u64,
}

/// What a step makes of it.
pub struct Outcome {
    pub sync: AudioSync,
    pub state: EngineState,
    pub bus: Bus,
    pub action: AudioAction,
}

/// The session ends without a word.
pub open spec fn ended(s: AudioSync, e: Scene) -> Outcome {
    Outcome {
        sync: AudioSync { phase: AudioPhase::Finished, ..s },
        state: e.state,
        bus: e.bus,
        action: AudioAction::Finish,
    }
}

/// A new session sends its init sequence, unless it was superseded at birth.
pub open spec fn born(s: AudioSync, e: Scene) -> Outcome {
    if !engine::valid(e.state, s.mine) {
        ended(s, e)
    } else {
        let state = EngineState { reinit_requested: false, ..e.state };
        if !e.bus.open {
            ended(s, Scene { state, ..e })
        } else {
            Outcome {
                sync: AudioSync { phase: AudioPhase::Settling, ..s },
                state,
                bus: engine::posted_all(e.bus, engine::init_commands(s.mine, AUDIO_SYNC_MODE)),
                action: AudioAction::Sleep(INIT_SETTLE),
            }
        }
    }
}

/// The settle has passed: the chunk count, then the loopback.
pub open spec fn settled(s: AudioSync, e: Scene) -> Outcome {
    if !engine::valid(e.state, s.mine) || !e.bus.open {
        ended(s, e)
    } else {
        Outcome {
            sync: AudioSync { phase: AudioPhase::Opening, ..s },
            state: e.state,
            bus: usb::posted(e.bus, UsbCommand::ArmSync(AUDIO_SYNC_MODE)),
            action: AudioAction::Open,
        }
    }
}

/// No usable capture: stops the engine, unless a newer session runs it by now.
pub open spec fn gave_up(s: AudioSync, e: Scene) -> Outcome {
    if engine::valid(e.state, s.mine) {
        Outcome {
            sync: AudioSync { phase: AudioPhase::Finished, ..s },
            state: EngineState { running: false, ..e.state },
            bus: e.bus,
            action: AudioAction::GiveUp,
        }
    } else {
        ended(s, e)
    }
}

/// The first loopback was opened, or not.
pub open spec fn opened(s: AudioSync, e: Scene, ok: bool) -> Outcome {
    if ok {
        Outcome {
            sync: AudioSync { phase: AudioPhase::Top, last_send: e.now, ..s },
            state: e.state,
            bus: e.bus,
            action: AudioAction::Again,
        }
    } else {
        gave_up(s, e)
    }
}

pub open spec fn polling(s: AudioSync, e: Scene) -> Outcome {
    Outcome {
        sync: AudioSync { phase: AudioPhase::Polling, ..s },
        state: e.state,
        bus: e.bus,
        action: AudioAction::Poll,
    }
}

/// The head of the loop: ends when superseded, idles while the monitor is
/// absent, and re-arms it where that is needed or asked for. A re-armed monitor
/// gets the next frame even if it matches the last one.
pub open spec fn topped(s: AudioSync, e: Scene) -> Outcome {
    if !engine::valid(e.state, s.mine) {
        ended(s, e)
    } else if !e.connected {
        Outcome {
            sync: AudioSync { reinit_needed: true, phase: AudioPhase::Top, ..s },
            state: e.state,
            bus: e.bus,
            action: AudioAction::Sleep(DISCONNECTED_IDLE),
        }
    } else {
        let state = EngineState { reinit_requested: false, ..e.state };
        if s.reinit_needed || e.state.reinit_requested {
            if !e.bus.open {
                ended(s, Scene { state, ..e })
            } else {
                Outcome {
                    sync: AudioSync {
                        reinit_needed: false,
                        last_sent: None,
                        phase: AudioPhase::Rearming,
                        ..s
                    },
                    state,
                    bus: engine::posted_all(e.bus, engine::rearm_commands(AUDIO_SYNC_MODE)),
                    action: AudioAction::Sleep(INIT_SETTLE),
                }
            }
        } else {
            polling(s, Scene { state, ..e })
        }
    }
}

/// Re-armed and settled: the chunk count again, then the loudness.
pub open spec fn rearmed(s: AudioSync, e: Scene) -> Outcome {
    if !engine::valid(e.state, s.mine) || !e.bus.open {
        ended(s, e)
    } else {
        polling(
            s,
            Scene { bus: usb::posted(e.bus, UsbCommand::ArmSync(AUDIO_SYNC_MODE)), ..e },
        )
    }
}

pub open spec fn painting(s: AudioSync, e: Scene) -> Outcome {
    Outcome {
        sync: AudioSync { phase: AudioPhase::Painting, ..s },
        state: e.state,
        bus: e.bus,
        action: AudioAction::Paint { level: s.last_level, brightness: e.level },
    }
}

pub open spec fn reopening(s: AudioSync, e: Scene) -> Outcome {
    Outcome {
        sync: AudioSync { phase: AudioPhase::Reopening, ..s },
        state: e.state,
        bus: e.bus,
        action: AudioAction::Open,
    }
}

/// A poll came back. Short runs of failures paint the last level; a long one,
/// and another default device at once, reopen the loopback.
pub open spec fn polled(s: AudioSync, e: Scene, poll: Poll) -> Outcome {
    match poll {
        Poll::Level(level) => painting(AudioSync { failures: 0, last_level: level, ..s }, e),
        Poll::DeviceChanged => reopening(s, e),
        Poll::Failed => {
            let s = AudioSync { failures: (s.failures + 1) as u32, ..s };
            if s.failures >= MAX_CAPTURE_FAILURES {
                reopening(s, e)
            } else {
                painting(s, e)
            }
        },
    }
}

/// The loopback was opened anew, or not.
pub open spec fn reopened(s: AudioSync, e: Scene, ok: bool) -> Outcome {
    if ok {
        painting(AudioSync { failures: 0, last_level: factor::factor(factor::ZERO), ..s }, e)
    } else {
        gave_up(s, e)
    }
}

pub open spec fn frame_of(s: AudioSync, colors: Colors) -> UsbCommand {
    UsbCommand::SendColors(s.mine, colors, true)
}

/// Silence converges to identical colors, and resending them changes nothing.
pub open spec fn streamed(s: AudioSync, e: Scene, colors: Colors) -> (AudioSync, Bus) {
    if s.last_sent == Some(colors) {
        (s, e.bus)
    } else {
        (
            AudioSync { last_sent: Some(colors), last_send: e.now, ..s },
            usb::offered(e.bus, frame_of(s, colors)),
        )
    }
}

/// The heartbeat: when nothing went out for too long, the last colors go out
/// again.
pub open spec fn kept_alive(s: AudioSync, e: Scene) -> (AudioSync, Bus) {
    if usb::elapsed(s.last_send, e.now) < SYNC_KEEPALIVE {
        (s, e.bus)
    } else {
        (
            AudioSync { last_send: e.now, ..s },
            match s.last_sent {
                Some(colors) => usb::offered(e.bus, frame_of(s, colors)),
                None => e.bus,
            },
        )
    }
}

/// The colors are there. The session is re-validated before they go out.
pub open spec fn painted(s: AudioSync, e: Scene, colors: Colors) -> Outcome {
    if !engine::valid(e.state, s.mine) {
        ended(s, e)
    } else {
        let (s, bus) = streamed(s, e, colors);
        let (s, bus) = kept_alive(s, Scene { bus, ..e });
        Outcome {
            sync: AudioSync { phase: AudioPhase::Top, ..s },
            state: e.state,
            bus,
            action: AudioAction::Again,
        }
    }
}

/// What the phase waits for.
pub open spec fn awaited(s: AudioSync, e: Scene) -> AudioAction {
    match s.phase {
        AudioPhase::Opening | AudioPhase::Reopening => AudioAction::Open,
        AudioPhase::Polling => AudioAction::Poll,
        AudioPhase::Painting => AudioAction::Paint { level: s.last_level, brightness: e.level },
        AudioPhase::Finished => AudioAction::Finish,
        _ => AudioAction::Again,
    }
}

/// One step of the session. An event that its phase does not wait for changes
/// nothing.
pub open spec fn stepped(s: AudioSync, e: Scene, event: AudioEvent) -> Outcome {
    match (s.phase, event) {
        (AudioPhase::Birth, AudioEvent::Go) => born(s, e),
        (AudioPhase::Settling, AudioEvent::Go) => settled(s, e),
        (AudioPhase::Opening, AudioEvent::Opened(ok)) => opened(s, e, ok),
        (AudioPhase::Top, AudioEvent::Go) => topped(s, e),
        (AudioPhase::Rearming, AudioEvent::Go) => rearmed(s, e),
        (AudioPhase::Polling, AudioEvent::Polled(poll)) => polled(s, e, poll),
        (AudioPhase::Reopening, AudioEvent::Opened(ok)) => reopened(s, e, ok),
        (AudioPhase::Painting, AudioEvent::Painted(colors)) => painted(s, e, colors),
        _ => Outcome { sync: s, state: e.state, bus: e.bus, action: awaited(s, e) },
    }
}

/// What a step of the code finds around it.
pub open spec fn scene(engine: Engine, bus: Bus, now: u64) -> Scene {
    Scene {
        state: engine.state,
        level: engine.brightness,
        connected: engine.connected,
        bus,
        now,
    }
}

/// Did a step of the code come out as stated?
pub open spec fn matches_outcome(
    out: Outcome,
    next: (AudioSync, AudioAction),
    before: Engine,
    after: Engine,
    bus: Bus,
) -> bool {
    &&& next.0 == out.sync
    &&& next.1 == out.action
    &&& after == (Engine { state: out.state, ..before })
    &&& bus == out.bus
}

impl AudioSync {
    /// The failure count reaches its limit only on the way to a new loopback.
    pub open spec fn wf(&self) -> bool {
        ||| self.failures < MAX_CAPTURE_FAILURES
        ||| self.failures == MAX_CAPTURE_FAILURES && (self.phase == AudioPhase::Reopening
            || self.phase == AudioPhase::Finished)
    }

    /// A new session.
    pub fn new(mine: u64, now: u64) -> (s: AudioSync)
        ensures
            s.wf(),
            s == (AudioSync {
                phase: AudioPhase::Birth,
                mine,
                reinit_needed: false,
                failures: 0,
                last_level: factor::factor(factor::ZERO),
                last_sent: None,
                last_send: now,
            }),
    {
        AudioSync {
            phase: AudioPhase::Birth,
            mine,
            reinit_needed: false,
            failures: 0,
            last_level: Factor { bits: factor::ZERO },
            last_sent: None,
            last_send: now,
        }
    }

    /// One step of the session.
    pub fn step(
        self,
        event: AudioEvent,
        engine: &mut Engine,
        rx: &mut CommandRx,
        now: u64,
    ) -> (next: (AudioSync, AudioAction))
        requires
            self.wf(),
            old(engine).wf(),
        ensures
            next.0.wf(),
            final(engine).wf(),
            matches_outcome(
                stepped(self, scene(*old(engine), old(rx)@, now), event),
                next,
                *old(engine),
                *final(engine),
                final(rx)@,
            ),
    {
        let mut s = self;
        match (s.phase, event) {
            (AudioPhase::Birth, AudioEvent::Go) => {
                if !engine.state.is_valid(s.mine) {
                    return s.end();
                }
                engine.state.reinit_requested = false;
                if !rx.is_open() {
                    return s.end();
                }
                engine::post_init(&engine.tx, rx, s.mine, AUDIO_SYNC_MODE);
                s.phase = AudioPhase::Settling;
                (s, AudioAction::Sleep(INIT_SETTLE))
            },
            (AudioPhase::Settling, AudioEvent::Go) => {
                if !engine.state.is_valid(s.mine) || !engine.send(
                    rx,
                    UsbCommand::ArmSync(AUDIO_SYNC_MODE),
                ) {
                    return s.end();
                }
                s.phase = AudioPhase::Opening;
                (s, AudioAction::Open)
            },
            (AudioPhase::Opening, AudioEvent::Opened(ok)) => {
                if !ok {
                    return s.give_up(engine);
                }
                s.last_send = now;
                s.phase = AudioPhase::Top;
                (s, AudioAction::Again)
            },
            (AudioPhase::Top, AudioEvent::Go) => s.top(engine, rx, now),
            (AudioPhase::Rearming, AudioEvent::Go) => {
                if !engine.state.is_valid(s.mine) || !engine.send(
                    rx,
                    UsbCommand::ArmSync(AUDIO_SYNC_MODE),
                ) {
                    return s.end();
                }
                s.phase = AudioPhase::Polling;
                (s, AudioAction::Poll)
            },
            (AudioPhase::Polling, AudioEvent::Polled(poll)) => s.on_poll(engine, poll),
            (AudioPhase::Reopening, AudioEvent::Opened(ok)) => {
                if !ok {
                    return s.give_up(engine);
                }
                s.failures = 0;
                s.last_level = Factor { bits: factor::ZERO };
                s.paint(engine)
            },
            (AudioPhase::Painting, AudioEvent::Painted(colors)) => {
                s.on_painted(engine, rx, &colors, now)
            },
            _ => {
                let action = match s.phase {
                    AudioPhase::Opening | AudioPhase::Reopening => AudioAction::Open,
                    AudioPhase::Polling => AudioAction::Poll,
                    AudioPhase::Painting => AudioAction::Paint {
                        level: s.last_level,
                        brightness: engine.brightness,
                    },
                    AudioPhase::Finished => AudioAction::Finish,
                    _ => AudioAction::Again,
                };
                (s, action)
            },
        }
    }

    fn end(self) -> (next: (AudioSync, AudioAction))
        ensures
            next.0 == (AudioSync { phase: AudioPhase::Finished, ..self }),
            next.1 == AudioAction::Finish,
    {
        let mut s = self;
        s.phase = AudioPhase::Finished;
        (s, AudioAction::Finish)
    }

    fn give_up(self, engine: &mut Engine) -> (next: (AudioSync, AudioAction))
        requires
            old(engine).wf(),
        ensures
            next.0 == (AudioSync { phase: AudioPhase::Finished, ..self }),
            final(engine).wf(),
            next.1 == (if engine::valid(old(engine).state, self.mine) {
                AudioAction::GiveUp
            } else {
                AudioAction::Finish
            }),
            *final(engine) == (if engine::valid(old(engine).state, self.mine) {
                Engine {
                    state: EngineState { running: false, ..old(engine).state },
                    ..*old(engine)
                }
            } else {
                *old(engine)
            }),
    {
        let mut s = self;
        s.phase = AudioPhase::Finished;
        if engine.state.is_valid(s.mine) {
            engine.state.running = false;
            (s, AudioAction::GiveUp)
        } else {
            (s, AudioAction::Finish)
        }
    }

    fn paint(self, engine: &Engine) -> (next: (AudioSync, AudioAction))
        ensures
            next.0 == (AudioSync { phase: AudioPhase::Painting, ..self }),
            next.1 == (AudioAction::Paint {
                level: self.last_level,
                brightness: engine.brightness,
            }),
    {
        let mut s = self;
        s.phase = AudioPhase::Painting;
        (s, AudioAction::Paint { level: s.last_level, brightness: engine.brightness })
    }

    fn top(self, engine: &mut Engine, rx: &mut CommandRx, now: u64) -> (next: (
        AudioSync,
        AudioAction,
    ))
        requires
            self.failures < MAX_CAPTURE_FAILURES,
            old(engine).wf(),
        ensures
            next.0.wf(),
            final(engine).wf(),
            matches_outcome(
                topped(self, scene(*old(engine), old(rx)@, now)),
                next,
                *old(engine),
                *final(engine),
                final(rx)@,
            ),
    {
        let mut s = self;
        if !engine.state.is_valid(s.mine) {
            return s.end();
        }
        if !engine.connected {
            s.reinit_needed = true;
            s.phase = AudioPhase::Top;
            return (s, AudioAction::Sleep(DISCONNECTED_IDLE));
        }
        let asked = engine.state.reinit_requested;
        engine.state.reinit_requested = false;
        if s.reinit_needed || asked {
            if !rx.is_open() {
                return s.end();
            }
            engine::post_rearm(&engine.tx, rx, AUDIO_SYNC_MODE);
            s.reinit_needed = false;
            s.last_sent = None;
            s.phase = AudioPhase::Rearming;
            return (s, AudioAction::Sleep(INIT_SETTLE));
        }
        s.phase = AudioPhase::Polling;
        (s, AudioAction::Poll)
    }

    fn on_poll(self, engine: &Engine, poll: Poll) -> (next: (AudioSync, AudioAction))
        requires
            self.failures < MAX_CAPTURE_FAILURES,
            engine.wf(),
        ensures
            next.0.wf(),
            forall|bus: Bus, now: u64|
                #![trigger polled(self, scene(*engine, bus, now), poll)]
                next.0 == polled(self, scene(*engine, bus, now), poll).sync && next.1 == polled(
                    self,
                    scene(*engine, bus, now),
                    poll,
                ).action,
    {
        let mut s = self;
        match poll {
            Poll::Level(level) => {
                s.failures = 0;
                s.last_level = level;
                s.paint(engine)
            },
            Poll::DeviceChanged => {
                s.phase = AudioPhase::Reopening;
                (s, AudioAction::Open)
            },
            Poll::Failed => {
                s.failures = s.failures + 1;
                if s.failures >= MAX_CAPTURE_FAILURES {
                    s.phase = AudioPhase::Reopening;
                    (s, AudioAction::Open)
                } else {
                    s.paint(engine)
                }
            },
        }
    }

    fn on_painted(
        self,
        engine: &mut Engine,
        rx: &mut CommandRx,
        colors: &Colors,
        now: u64,
    ) -> (next: (AudioSync, AudioAction))
        requires
            self.failures < MAX_CAPTURE_FAILURES,
            old(engine).wf(),
        ensures
            next.0.wf(),
            final(engine).wf(),
            matches_outcome(
                painted(self, scene(*old(engine), old(rx)@, now), *colors),
                next,
                *old(engine),
                *final(engine),
                final(rx)@,
            ),
    {
        let mut s = self;
        if !engine.state.is_valid(s.mine) {
            return s.end();
        }
        let same = match &s.last_sent {
            Some(last) => engine::same_colors(last, colors),
            None => false,
        };
        if !same {
            s.last_sent = Some(*colors);
            s.last_send = now;
            engine.tx.frame(rx, s.mine, *colors, true);
        }
        let due = now >= s.last_send && now - s.last_send >= SYNC_KEEPALIVE;
        if due {
            if let Some(last) = s.last_sent {
                engine.tx.frame(rx, s.mine, last, true);
            }
            s.last_send = now;
        }
        s.phase = AudioPhase::Top;
        (s, AudioAction::Again)
    }
}

/// A session that was stopped or superseded puts nothing on the bus and changes
/// nothing of the engine.
pub proof fn superseded_sessions_are_silent(s: AudioSync, e: Scene, event: AudioEvent)
    requires
        !engine::valid(e.state, s.mine),
    ensures
        stepped(s, e, event).bus == e.bus,
        stepped(s, e, event).state == e.state,
{
}

/// Frames and commands never mix: a step puts frames on the bus only when colors
/// were painted, and then no command.
pub proof fn frames_pause_around_commands(s: AudioSync, e: Scene, event: AudioEvent)
    ensures
        s.phase == AudioPhase::Painting ==> stepped(s, e, event).bus.ctrl == e.bus.ctrl,
        s.phase != AudioPhase::Painting ==> engine::adds_no_frame(
            e.bus,
            stepped(s, e, event).bus,
        ),
{
    engine::lemma_controls_add_no_frame(
        e.bus,
        engine::init_commands(s.mine, AUDIO_SYNC_MODE),
    );
    engine::lemma_controls_add_no_frame(e.bus, engine::rearm_commands(AUDIO_SYNC_MODE));
}

/// After the init and after every re-arm, the chunk count is asserted once the
/// monitor has settled, before any frame.
pub proof fn arming_ends_with_the_chunk_count(s: AudioSync, e: Scene)
    requires
        s.phase == AudioPhase::Settling || s.phase == AudioPhase::Rearming,
        engine::valid(e.state, s.mine),
        e.bus.open,
    ensures
        stepped(s, e, AudioEvent::Go).bus.ctrl == e.bus.ctrl.push(
            UsbCommand::ArmSync(AUDIO_SYNC_MODE),
        ),
{
}

/// A re-arm that is needed or asked for happens at the head of the next iteration
/// with a monitor, and leaves no colors to compare with: the next ones go out
/// whatever they are.
pub proof fn rearmed_monitors_get_colors(s: AudioSync, e: Scene)
    requires
        s.phase == AudioPhase::Top,
        engine::valid(e.state, s.mine),
        e.connected,
        e.bus.open,
        s.reinit_needed || e.state.reinit_requested,
    ensures
        ({
            let out = stepped(s, e, AudioEvent::Go);
            &&& out.bus == engine::posted_all(e.bus, engine::rearm_commands(AUDIO_SYNC_MODE))
            &&& out.action == AudioAction::Sleep(INIT_SETTLE)
            &&& out.sync.last_sent is None
            &&& !out.sync.reinit_needed && !out.state.reinit_requested
        }),
{
}

/// While the monitor is absent the session sends nothing and idles, and it
/// re-arms the monitor once that is back.
pub proof fn absent_monitors_pause_the_session(s: AudioSync, e: Scene)
    requires
        s.phase == AudioPhase::Top,
        engine::valid(e.state, s.mine),
        !e.connected,
    ensures
        ({
            let out = stepped(s, e, AudioEvent::Go);
            &&& out.bus == e.bus
            &&& out.action == AudioAction::Sleep(DISCONNECTED_IDLE)
            &&& out.sync.reinit_needed
            &&& out.sync.phase == AudioPhase::Top
        }),
{
}

/// Identical colors are not sent again until the heartbeat is due; new ones go
/// out at once.
pub proof fn only_news_is_sent(s: AudioSync, e: Scene, colors: Colors)
    requires
        s.phase == AudioPhase::Painting,
        engine::valid(e.state, s.mine),
    ensures
        s.last_sent == Some(colors) && usb::elapsed(s.last_send, e.now) < SYNC_KEEPALIVE
            ==> stepped(s, e, AudioEvent::Painted(colors)).bus == e.bus,
        s.last_sent != Some(colors) ==> stepped(s, e, AudioEvent::Painted(colors)).bus
            == usb::offered(e.bus, frame_of(s, colors)),
{
}

/// An iteration ends less than a heartbeat after colors last went out.
pub proof fn the_heartbeat_is_kept(s: AudioSync, e: Scene, colors: Colors)
    requires
        s.phase == AudioPhase::Painting,
        engine::valid(e.state, s.mine),
    ensures
        usb::elapsed(
            stepped(s, e, AudioEvent::Painted(colors)).sync.last_send,
            e.now,
        ) < SYNC_KEEPALIVE,
{
}

/// Another default device is followed at once, and a capture that keeps failing
/// is reopened at the [`MAX_CAPTURE_FAILURES`]-th failure, not before. Until
/// then the last level is painted.
pub proof fn lost_captures_are_reopened(s: AudioSync, e: Scene)
    requires
        s.phase == AudioPhase::Polling,
        s.wf(),
    ensures
        stepped(s, e, AudioEvent::Polled(Poll::DeviceChanged)).action is Open,
        s.failures + 1 == MAX_CAPTURE_FAILURES ==> stepped(
            s,
            e,
            AudioEvent::Polled(Poll::Failed),
        ).action is Open,
        s.failures + 1 < MAX_CAPTURE_FAILURES ==> stepped(
            s,
            e,
            AudioEvent::Polled(Poll::Failed),
        ).action == (AudioAction::Paint { level: s.last_level, brightness: e.level }),
{
}

/// A session that has ended stays so.
pub proof fn ended_sessions_stay_ended(s: AudioSync, e: Scene, event: AudioEvent)
    requires
        s.phase == AudioPhase::Finished,
    ensures
        stepped(s, e, event).sync == s,
        stepped(s, e, event).bus == e.bus,
        stepped(s, e, event).action == AudioAction::Finish,
{
}

} // verus!
