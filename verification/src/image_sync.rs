//! The image sync session: arms the monitor, captures the desktop, and streams
//! the sampled colors with dedup, keepalive, pacing and a staleness watchdog.

use crate::engine;
use crate::engine::{
    dim, Colors, Engine, EngineState, ImageSyncParams, ACQUIRE_TIMEOUT_MS, DISCONNECTED_IDLE,
    DISPLAY_CHANGE_SETTLE, INIT_SETTLE, RETRY_DELAY, STALE_FRAMES_BEFORE_RECREATE,
    STALE_FRAMES_CAP, SYNC_KEEPALIVE, VIDEO_SYNC_MODE,
};
use crate::sampling::SamplingMode;
use crate::usb;
use crate::usb::{Bus, CommandRx, UsbCommand};
use vstd::prelude::*;

verus! {

/// What the session is doing.
#[derive(Clone, Copy, PartialEq, Eq, Debug, Structural)]
pub enum ImagePhase {
    /// Just started: nothing has been sent.
    Birth,
    /// The init was sent; the monitor settles.
    Settling,
    /// At the head of the loop.
    Top,
    /// The init was re-sent; the monitor settles.
    Rearming,
    /// Pausing before a capture is created anew.
    Pausing,
    /// Creating the capture.
    Creating,
    /// Waiting for a frame.
    Acquiring,
    Finished,
}

/// What happened since the last step.
#[derive(Clone, Copy, Debug)]
pub enum ImageEvent {
    /// The last action is done.
    Go,
    Created(CreateOutcome),
    Acquired(AcquireOutcome),
}

#[derive(Clone, Copy, PartialEq, Eq, Debug, Structural)]
pub enum CreateOutcome {
    Ready,
    /// This machine cannot run Image Sync at all.
    Unavailable,
    Failed,
}

#[derive(Clone, Copy, Debug)]
pub enum AcquireOutcome {
    /// A new frame: its colors before dimming, and whether the desktop changed
    /// where it is sampled.
    Frame { colors: Colors, dirty_hit: bool },
    /// The window passed without new content.
    Nothing,
    AccessLost,
    ModeChanged,
    Failed,
}

/// What to do next.
#[derive(Clone, Copy, PartialEq, Eq, Debug, Structural)]
pub enum ImageAction {
    /// Step again at once.
    Again,
    /// Sleep this many milliseconds.
    Sleep(u64),
    /// Create a capture that samples this way.
    Create(SamplingMode),
    /// Wait for a frame, at most this many milliseconds.
    Acquire(u32),
    /// Report that Image Sync is unavailable, and end.
    GiveUp,
    Finish,
}

/// Diagnostic counters of a session.
#[derive(Clone, Copy, PartialEq, Eq, Debug, Structural)]
pub struct Counters {
    pub arrivals: u64,
    pub none_wakeups: u64,
    pub dedup_skips: u64,
    pub sends: u64,
    pub keepalives: u64,
    pub queue_full: u64,
    pub recreates: u64,
    pub stale_recreates: u64,
}

/// A session's state. Times are milliseconds of a monotonic clock.
#[derive(Clone, Copy, Debug)]
pub struct ImageSync {
    pub phase: ImagePhase,
    /// The session's token.
    pub mine: u64,
    /// The tuning of this iteration.
    pub params: ImageSyncParams,
    /// The monitor must be re-armed before frames go on.
    pub reinit_needed: bool,
    pub capturing: bool,
    pub create_fails: u32,
    /// True before the very first capture creation, which needs no pause.
    pub first_creation: bool,
    /// The last colors sent, before dimming.
    pub last_sent: Option<Colors>,
    /// The brightness level they were sent at.
    pub last_level: u8,
    /// The monitor was just re-armed: the next colors go out even if they are
    /// the last ones.
    pub resend: bool,
    pub last_send: u64,
    /// Frames in a row that look frozen.
    pub stale_frames: u32,
    /// How many of them the watchdog tolerates.
    pub stale_limit: u32,
    /// End of the watchdog's grace window.
    pub settle_until: Option<u64>,
    /// When this iteration started to wait for its frame.
    pub started: u64,
    pub counters: Counters,
}

/// What a step finds around it.
pub struct Scene {
    pub state: EngineState,
    pub params: ImageSyncParams,
    pub level: u8,
    pub connected: bool,
    pub bus: Bus,
    pub now: u64,
}

/// What a step makes of it.
pub struct Outcome {
    pub sync: ImageSync,
    pub state: EngineState,
    pub bus: Bus,
    pub action: ImageAction,
}

pub open spec fn count(n: u64, more: bool) -> u64 {
    if more && n < u64::MAX {
        (n + 1) as u64
    } else {
        n
    }
}

fn bump(n: u64) -> (out: u64)
    ensures
        out == count(n, true),
{
    if n < u64::MAX {
        n + 1
    } else {
        n
    }
}

/// `now` plus a span, as far as the clock goes.
pub open spec fn later(now: u64, span: u64) -> u64 {
    if now + span <= u64::MAX {
        (now + span) as u64
    } else {
        u64::MAX
    }
}

fn after(now: u64, span: u64) -> (t: u64)
    ensures
        t == later(now, span),
{
    if now <= u64::MAX - span {
        now + span
    } else {
        u64::MAX
    }
}

fn since(then: u64, now: u64) -> (span: u64)
    ensures
        span == usb::elapsed(then, now),
{
    if now >= then {
        now - then
    } else {
        0
    }
}

/// The frame period in milliseconds.
pub open spec fn frame_period(fps: u32) -> int {
    let rate = if fps >= 1 {
        fps as int
    } else {
        1
    };
    if 1000int / rate >= 1 {
        1000int / rate
    } else {
        1
    }
}

/// Is `ms` the whole number of milliseconds in which `fps` frames fill a second,
/// at least one? No frames count as one.
pub open spec fn is_period(ms: int, fps: int) -> bool {
    &&& ms >= 1
    &&& fps <= 1 ==> ms == 1000
    &&& fps > 1 ==> (ms * fps <= 1000 || ms == 1) && 1000 < (ms + 1) * fps
}

/// A frame period is a second shared by the frames, in whole milliseconds.
pub proof fn periods_fit_the_rate(fps: u32)
    ensures
        is_period(frame_period(fps), fps as int),
        frame_period(fps) <= 1000,
{
    let rate = if fps >= 1 {
        fps as int
    } else {
        1
    };
    let q = 1000int / rate;
    vstd::arithmetic::div_mod::lemma_fundamental_div_mod(1000, rate);
    vstd::arithmetic::div_mod::lemma_mod_bound(1000, rate);
    assert(rate * q == q * rate && (q + 1) * rate == q * rate + rate) by (nonlinear_arith);
    assert(0 <= q <= 1000) by (nonlinear_arith)
        requires
            rate >= 1,
            q * rate <= 1000,
            1000 < (q + 1) * rate,
    ;
    assert(2 * rate > 1000 || q >= 1) by (nonlinear_arith)
        requires
            1000 < (q + 1) * rate,
            q >= 0,
    ;
}

/// There is one such period.
pub proof fn lemma_one_period(a: int, b: int, fps: int)
    requires
        is_period(a, fps),
        is_period(b, fps),
    ensures
        a == b,
{
    if fps > 1 {
        assert(a < b ==> (a + 1) * fps <= b * fps) by (nonlinear_arith)
            requires
                fps > 1,
        ;
        assert(b < a ==> (b + 1) * fps <= a * fps) by (nonlinear_arith)
            requires
                fps > 1,
        ;
    }
}

fn period(fps: u32) -> (ms: u64)
    ensures
        ms == frame_period(fps),
        is_period(ms as int, fps as int),
{
    proof {
        periods_fit_the_rate(fps);
    }
    let rate: u64 = if fps >= 1 {
        fps as u64
    } else {
        1
    };
    if 1000 / rate >= 1 {
        1000 / rate
    } else {
        1
    }
}

/// The session ends without a word.
pub open spec fn ended(s: ImageSync, e: Scene) -> Outcome {
    Outcome {
        sync: ImageSync { phase: ImagePhase::Finished, ..s },
        state: e.state,
        bus: e.bus,
        action: ImageAction::Finish,
    }
}

/// A new session sends its init sequence, unless it was superseded at birth. A
/// re-arm request of a previous session means nothing to it.
pub open spec fn born(s: ImageSync, e: Scene) -> Outcome {
    if !engine::valid(e.state, s.mine) {
        ended(s, e)
    } else {
        let state = EngineState { reinit_requested: false, ..e.state };
        if !e.bus.open {
            ended(s, Scene { state, ..e })
        } else {
            Outcome {
                sync: ImageSync { phase: ImagePhase::Settling, ..s },
                state,
                bus: engine::posted_all(e.bus, engine::init_commands(s.mine, VIDEO_SYNC_MODE)),
                action: ImageAction::Sleep(INIT_SETTLE),
            }
        }
    }
}

/// The settle has passed: the chunk count is asserted against a quiet monitor.
pub open spec fn settled(s: ImageSync, e: Scene) -> Outcome {
    if !engine::valid(e.state, s.mine) || !e.bus.open {
        ended(s, e)
    } else {
        Outcome {
            sync: ImageSync { phase: ImagePhase::Top, last_send: e.now, ..s },
            state: e.state,
            bus: usb::posted(e.bus, UsbCommand::ArmSync(VIDEO_SYNC_MODE)),
            action: ImageAction::Again,
        }
    }
}

/// The head of the loop: ends when superseded, idles while the monitor is
/// absent, and re-arms it where that is needed or asked for.
pub open spec fn topped(s: ImageSync, e: Scene) -> Outcome {
    if !engine::valid(e.state, s.mine) {
        ended(s, e)
    } else if !e.connected {
        Outcome {
            sync: ImageSync {
                params: e.params,
                reinit_needed: true,
                phase: ImagePhase::Top,
                ..s
            },
            state: e.state,
            bus: e.bus,
            action: ImageAction::Sleep(DISCONNECTED_IDLE),
        }
    } else {
        let state = EngineState { reinit_requested: false, ..e.state };
        let s = ImageSync { params: e.params, ..s };
        if s.reinit_needed || e.state.reinit_requested {
            if !e.bus.open {
                ended(s, Scene { state, ..e })
            } else {
                Outcome {
                    sync: ImageSync {
                        reinit_needed: false,
                        resend: true,
                        last_send: e.now,
                        phase: ImagePhase::Rearming,
                        ..s
                    },
                    state,
                    bus: engine::posted_all(e.bus, engine::rearm_commands(VIDEO_SYNC_MODE)),
                    action: ImageAction::Sleep(INIT_SETTLE),
                }
            }
        } else {
            prepared(s, Scene { state, ..e })
        }
    }
}

/// Re-armed and settled: the chunk count again, then the capture.
pub open spec fn rearmed(s: ImageSync, e: Scene) -> Outcome {
    if !engine::valid(e.state, s.mine) || !e.bus.open {
        ended(s, e)
    } else {
        prepared(
            s,
            Scene { bus: usb::posted(e.bus, UsbCommand::ArmSync(VIDEO_SYNC_MODE)), ..e },
        )
    }
}

/// The session with its capture dropped, and the watchdog's grace window open.
pub open spec fn display_dropped(s: ImageSync, now: u64) -> ImageSync {
    ImageSync {
        capturing: false,
        settle_until: Some(later(now, DISPLAY_CHANGE_SETTLE)),
        ..s
    }
}

/// Waits for a frame, with a capture: a display change drops the old one, and
/// only the first one is created without a pause.
pub open spec fn prepared(s: ImageSync, e: Scene) -> Outcome {
    let state = EngineState { display_changed: false, ..e.state };
    let s = if e.state.display_changed {
        display_dropped(s, e.now)
    } else {
        s
    };
    if s.capturing {
        acquiring(s, Scene { state, ..e })
    } else if s.first_creation {
        Outcome {
            sync: ImageSync { first_creation: false, phase: ImagePhase::Creating, ..s },
            state,
            bus: e.bus,
            action: ImageAction::Create(s.params.sampling),
        }
    } else {
        Outcome {
            sync: ImageSync { phase: ImagePhase::Pausing, ..s },
            state,
            bus: e.bus,
            action: ImageAction::Sleep(RETRY_DELAY),
        }
    }
}

pub open spec fn acquiring(s: ImageSync, e: Scene) -> Outcome {
    Outcome {
        sync: ImageSync { phase: ImagePhase::Acquiring, started: e.now, ..s },
        state: e.state,
        bus: e.bus,
        action: ImageAction::Acquire(ACQUIRE_TIMEOUT_MS),
    }
}

/// The pause before a re-creation has passed.
pub open spec fn paused(s: ImageSync, e: Scene) -> Outcome {
    if !engine::valid(e.state, s.mine) {
        ended(s, e)
    } else {
        Outcome {
            sync: ImageSync { phase: ImagePhase::Creating, ..s },
            state: e.state,
            bus: e.bus,
            action: ImageAction::Create(s.params.sampling),
        }
    }
}

/// A capture was created, or not. One that comes back after failures finds a
/// monitor that sat unarmed through its timeout: it is re-armed before the first
/// frame. A terminal failure stops the engine, unless a newer session runs it by
/// now.
pub open spec fn created(s: ImageSync, e: Scene, outcome: CreateOutcome) -> Outcome {
    match outcome {
        CreateOutcome::Ready => if s.create_fails > 0 {
            Outcome {
                sync: ImageSync {
                    reinit_needed: true,
                    create_fails: 0,
                    capturing: true,
                    phase: ImagePhase::Top,
                    ..s
                },
                state: e.state,
                bus: e.bus,
                action: ImageAction::Again,
            }
        } else {
            acquiring(ImageSync { capturing: true, ..s }, e)
        },
        CreateOutcome::Unavailable => if engine::valid(e.state, s.mine) {
            Outcome {
                sync: ImageSync { phase: ImagePhase::Finished, ..s },
                state: EngineState { running: false, ..e.state },
                bus: e.bus,
                action: ImageAction::GiveUp,
            }
        } else {
            ended(s, e)
        },
        CreateOutcome::Failed => Outcome {
            sync: ImageSync {
                create_fails: if s.create_fails < u32::MAX {
                    (s.create_fails + 1) as u32
                } else {
                    s.create_fails
                },
                phase: ImagePhase::Top,
                ..s
            },
            state: e.state,
            bus: e.bus,
            action: ImageAction::Again,
        },
    }
}

/// The sync frame of some colors, at the brightness level of the moment.
pub open spec fn frame_of(s: ImageSync, e: Scene, colors: Colors) -> UsbCommand {
    UsbCommand::SendColors(s.mine, engine::dimmed(colors, e.level), false)
}

/// Offers colors to the data plane and remembers them as the last ones.
pub open spec fn pushed(s: ImageSync, e: Scene, colors: Colors) -> (ImageSync, Bus) {
    (
        ImageSync {
            last_sent: Some(colors),
            last_level: e.level,
            last_send: e.now,
            resend: false,
            counters: Counters {
                queue_full: count(
                    s.counters.queue_full,
                    e.bus.open && e.bus.frames.len() >= usb::FRAME_QUEUE,
                ),
                ..s.counters
            },
            ..s
        },
        usb::offered(e.bus, frame_of(s, e, colors)),
    )
}

/// Must the monitor get these colors, or has it got them? A new level counts as
/// a change, and so does a monitor that was just re-armed.
pub open spec fn is_news(s: ImageSync, e: Scene, colors: Colors) -> bool {
    s.last_sent != Some(colors) || s.resend || e.level != s.last_level
}

/// Does an arrived frame look frozen? Its colors are the last ones although the
/// desktop changed where it is sampled, and no display change is settling.
pub open spec fn looks_frozen(s: ImageSync, now: u64, colors: Colors, dirty_hit: bool) -> bool {
    &&& s.last_sent == Some(colors)
    &&& dirty_hit
    &&& !(s.settle_until matches Some(t) && now < t)
}

/// The watchdog's patience for this frame: changed colors restore it.
pub open spec fn patience(s: ImageSync, colors: Colors) -> int {
    if s.last_sent == Some(colors) {
        s.stale_limit as int
    } else {
        STALE_FRAMES_BEFORE_RECREATE as int
    }
}

/// Frozen frames in a row, this one included.
pub open spec fn frozen_run(s: ImageSync, now: u64, colors: Colors, dirty_hit: bool) -> int {
    if looks_frozen(s, now, colors, dirty_hit) {
        s.stale_frames + 1
    } else {
        0
    }
}

/// Does the watchdog fire on this frame?
pub open spec fn watchdog_fires(s: ImageSync, now: u64, colors: Colors, dirty_hit: bool) -> bool {
    frozen_run(s, now, colors, dirty_hit) >= patience(s, colors)
}

/// The patience after the watchdog fired: doubled, up to the cap.
pub open spec fn more_patience(limit: int) -> int {
    if 2 * limit <= STALE_FRAMES_CAP {
        2 * limit
    } else {
        STALE_FRAMES_CAP as int
    }
}

/// The session after the watchdog has seen a frame.
pub open spec fn watched(s: ImageSync, now: u64, colors: Colors, dirty_hit: bool) -> ImageSync {
    let fires = watchdog_fires(s, now, colors, dirty_hit);
    ImageSync {
        stale_frames: if fires {
            0u32
        } else {
            frozen_run(s, now, colors, dirty_hit) as u32
        },
        stale_limit: if fires {
            more_patience(patience(s, colors)) as u32
        } else {
            patience(s, colors) as u32
        },
        counters: Counters {
            arrivals: count(s.counters.arrivals, true),
            stale_recreates: count(s.counters.stale_recreates, fires),
            ..s.counters
        },
        ..s
    }
}

/// The session after it sent, or skipped, the colors of an arrived frame.
pub open spec fn streamed(s: ImageSync, e: Scene, colors: Colors) -> (ImageSync, Bus) {
    if is_news(s, e, colors) {
        let counted = ImageSync {
            counters: Counters { sends: count(s.counters.sends, true), ..s.counters },
            ..s
        };
        pushed(counted, e, colors)
    } else {
        (
            ImageSync {
                counters: Counters {
                    dedup_skips: count(s.counters.dedup_skips, true),
                    ..s.counters
                },
                ..s
            },
            e.bus,
        )
    }
}

/// The session after a wakeup without a frame: a new brightness level, or a
/// monitor that was just re-armed, gets the last colors again.
pub open spec fn idled(s: ImageSync, e: Scene) -> (ImageSync, Bus) {
    let counted = ImageSync {
        counters: Counters { none_wakeups: count(s.counters.none_wakeups, true), ..s.counters },
        ..s
    };
    match s.last_sent {
        Some(colors) if is_news(s, e, colors) => {
            let again = ImageSync {
                counters: Counters {
                    sends: count(s.counters.sends, true),
                    ..counted.counters
                },
                ..counted
            };
            pushed(again, e, colors)
        },
        _ => (counted, e.bus),
    }
}

/// The capture is dropped and created anew.
pub open spec fn dropped(s: ImageSync, e: Scene) -> Outcome {
    Outcome {
        sync: ImageSync {
            capturing: false,
            phase: ImagePhase::Top,
            counters: Counters { recreates: count(s.counters.recreates, true), ..s.counters },
            ..s
        },
        state: e.state,
        bus: e.bus,
        action: ImageAction::Again,
    }
}

/// The session after the heartbeat: when nothing went out for too long, the
/// last colors go out again; before the first colors, the monitor is re-armed
/// instead.
pub open spec fn kept_alive(s: ImageSync, e: Scene) -> (ImageSync, Bus) {
    if usb::elapsed(s.last_send, e.now) < SYNC_KEEPALIVE {
        (s, e.bus)
    } else {
        match s.last_sent {
            Some(colors) => {
                let counted = ImageSync {
                    counters: Counters {
                        keepalives: count(s.counters.keepalives, true),
                        ..s.counters
                    },
                    ..s
                };
                pushed(counted, e, colors)
            },
            None => (ImageSync { reinit_needed: true, last_send: e.now, ..s }, e.bus),
        }
    }
}

/// The end of an iteration: heartbeat, and the pause that caps the frame rate.
pub open spec fn rested(s: ImageSync, e: Scene) -> Outcome {
    let (s, bus) = kept_alive(s, e);
    let spent = usb::elapsed(s.started, e.now);
    Outcome {
        sync: ImageSync { phase: ImagePhase::Top, ..s },
        state: e.state,
        bus,
        action: if frame_period(s.params.fps) >= spent {
            ImageAction::Sleep((frame_period(s.params.fps) - spent) as u64)
        } else {
            ImageAction::Again
        },
    }
}

/// A frame arrived, or not. The session is re-validated before anything goes
/// out: a stop may have come during the wait.
pub open spec fn acquired(s: ImageSync, e: Scene, outcome: AcquireOutcome) -> Outcome {
    if !engine::valid(e.state, s.mine) {
        ended(s, e)
    } else {
        match outcome {
            AcquireOutcome::Frame { colors, dirty_hit } => {
                let (next, bus) = streamed(watched(s, e.now, colors, dirty_hit), e, colors);
                if watchdog_fires(s, e.now, colors, dirty_hit) {
                    dropped(next, Scene { bus, ..e })
                } else {
                    rested(next, Scene { bus, ..e })
                }
            },
            AcquireOutcome::Nothing => {
                let (next, bus) = idled(s, e);
                rested(next, Scene { bus, ..e })
            },
            AcquireOutcome::ModeChanged => dropped(display_dropped(s, e.now), e),
            AcquireOutcome::AccessLost | AcquireOutcome::Failed => dropped(s, e),
        }
    }
}

/// What the phase waits for.
pub open spec fn awaited(s: ImageSync) -> ImageAction {
    match s.phase {
        ImagePhase::Creating => ImageAction::Create(s.params.sampling),
        ImagePhase::Acquiring => ImageAction::Acquire(ACQUIRE_TIMEOUT_MS),
        ImagePhase::Finished => ImageAction::Finish,
        _ => ImageAction::Again,
    }
}

/// One step of the session. An event that its phase does not wait for changes
/// nothing.
pub open spec fn stepped(s: ImageSync, e: Scene, event: ImageEvent) -> Outcome {
    match (s.phase, event) {
        (ImagePhase::Birth, ImageEvent::Go) => born(s, e),
        (ImagePhase::Settling, ImageEvent::Go) => settled(s, e),
        (ImagePhase::Top, ImageEvent::Go) => topped(s, e),
        (ImagePhase::Rearming, ImageEvent::Go) => rearmed(s, e),
        (ImagePhase::Pausing, ImageEvent::Go) => paused(s, e),
        (ImagePhase::Creating, ImageEvent::Created(outcome)) => created(s, e, outcome),
        (ImagePhase::Acquiring, ImageEvent::Acquired(outcome)) => acquired(s, e, outcome),
        _ => Outcome { sync: s, state: e.state, bus: e.bus, action: awaited(s) },
    }
}

/// What a step of the code finds around it.
pub open spec fn scene(engine: Engine, bus: Bus, now: u64) -> Scene {
    Scene {
        state: engine.state,
        params: engine.image_params,
        level: engine.brightness,
        connected: engine.connected,
        bus,
        now,
    }
}

/// Did a step of the code come out as stated?
pub open spec fn matches_outcome(
    out: Outcome,
    next: (ImageSync, ImageAction),
    before: Engine,
    after: Engine,
    bus: Bus,
) -> bool {
    &&& next.0 == out.sync
    &&& next.1 == out.action
    &&& after == (Engine { state: out.state, ..before })
    &&& bus == out.bus
}

fn same_as_last(last: &Option<Colors>, colors: &Colors) -> (yes: bool)
    ensures
        yes == (*last == Some(*colors)),
{
    match last {
        Some(c) => engine::same_colors(c, colors),
        None => false,
    }
}

impl ImageSync {
    /// The watchdog's counters are in range.
    pub open spec fn wf(&self) -> bool {
        &&& STALE_FRAMES_BEFORE_RECREATE <= self.stale_limit <= STALE_FRAMES_CAP
        &&& self.stale_frames < self.stale_limit
    }

    /// A new session.
    pub fn new(mine: u64, params: ImageSyncParams, now: u64) -> (s: ImageSync)
        ensures
            s.wf(),
            s.stale_limit == 60,
            s == (ImageSync {
                phase: ImagePhase::Birth,
                mine,
                params,
                reinit_needed: false,
                capturing: false,
                create_fails: 0,
                first_creation: true,
                last_sent: None,
                last_level: 0,
                resend: false,
                last_send: now,
                stale_frames: 0,
                stale_limit: STALE_FRAMES_BEFORE_RECREATE,
                settle_until: None,
                started: now,
                counters: Counters {
                    arrivals: 0,
                    none_wakeups: 0,
                    dedup_skips: 0,
                    sends: 0,
                    keepalives: 0,
                    queue_full: 0,
                    recreates: 0,
                    stale_recreates: 0,
                },
            }),
    {
        ImageSync {
            phase: ImagePhase::Birth,
            mine,
            params,
            reinit_needed: false,
            capturing: false,
            create_fails: 0,
            first_creation: true,
            last_sent: None,
            last_level: 0,
            resend: false,
            last_send: now,
            stale_frames: 0,
            stale_limit: STALE_FRAMES_BEFORE_RECREATE,
            settle_until: None,
            started: now,
            counters: Counters {
                arrivals: 0,
                none_wakeups: 0,
                dedup_skips: 0,
                sends: 0,
                keepalives: 0,
                queue_full: 0,
                recreates: 0,
                stale_recreates: 0,
            },
        }
    }

    /// One step of the session.
    pub fn step(
        self,
        event: ImageEvent,
        engine: &mut Engine,
        rx: &mut CommandRx,
        now: u64,
    ) -> (next: (ImageSync, ImageAction))
        requires
            self.wf(),
            old(engine).wf(),
        ensures
            next.0.wf(),
            final(engine).wf(),
            matches_outcome(
                stepped(self, scene(*old(engine), old(rx)@, now), event),
                next,
                *old(engine),
                *final(engine),
                final(rx)@,
            ),
    {
        match (self.phase, event) {
            (ImagePhase::Birth, ImageEvent::Go) => self.begin(engine, rx),
            (ImagePhase::Settling, ImageEvent::Go) => {
                if !engine.state.is_valid(self.mine) || !engine.send(
                    rx,
                    UsbCommand::ArmSync(VIDEO_SYNC_MODE),
                ) {
                    return self.end();
                }
                let mut s = self;
                s.phase = ImagePhase::Top;
                s.last_send = now;
                (s, ImageAction::Again)
            },
            (ImagePhase::Top, ImageEvent::Go) => self.top(engine, rx, now),
            (ImagePhase::Rearming, ImageEvent::Go) => {
                if !engine.state.is_valid(self.mine) || !engine.send(
                    rx,
                    UsbCommand::ArmSync(VIDEO_SYNC_MODE),
                ) {
                    return self.end();
                }
                self.prepare(engine, rx, now)
            },
            (ImagePhase::Pausing, ImageEvent::Go) => {
                if !engine.state.is_valid(self.mine) {
                    return self.end();
                }
                let mut s = self;
                s.phase = ImagePhase::Creating;
                (s, ImageAction::Create(s.params.sampling))
            },
            (ImagePhase::Creating, ImageEvent::Created(outcome)) => {
                self.on_created(engine, rx, outcome, now)
            },
            (ImagePhase::Acquiring, ImageEvent::Acquired(outcome)) => {
                self.on_acquired(engine, rx, outcome, now)
            },
            _ => {
                let action = match self.phase {
                    ImagePhase::Creating => ImageAction::Create(self.params.sampling),
                    ImagePhase::Acquiring => ImageAction::Acquire(ACQUIRE_TIMEOUT_MS),
                    ImagePhase::Finished => ImageAction::Finish,
                    _ => ImageAction::Again,
                };
                (self, action)
            },
        }
    }

    fn end(self) -> (next: (ImageSync, ImageAction))
        ensures
            next.0 == (ImageSync { phase: ImagePhase::Finished, ..self }),
            next.1 == ImageAction::Finish,
    {
        let mut s = self;
        s.phase = ImagePhase::Finished;
        (s, ImageAction::Finish)
    }

    fn begin(self, engine: &mut Engine, rx: &mut CommandRx) -> (next: (ImageSync, ImageAction))
        requires
            self.wf(),
            old(engine).wf(),
        ensures
            next.0.wf(),
            final(engine).wf(),
            forall|now: u64|
                matches_outcome(
                    #[trigger] born(self, scene(*old(engine), old(rx)@, now)),
                    next,
                    *old(engine),
                    *final(engine),
                    final(rx)@,
                ),
    {
        if !engine.state.is_valid(self.mine) {
            return self.end();
        }
        engine.state.reinit_requested = false;
        if !rx.is_open() {
            return self.end();
        }
        engine::post_init(&engine.tx, rx, self.mine, VIDEO_SYNC_MODE);
        let mut s = self;
        s.phase = ImagePhase::Settling;
        (s, ImageAction::Sleep(INIT_SETTLE))
    }

    fn top(self, engine: &mut Engine, rx: &mut CommandRx, now: u64) -> (next: (
        ImageSync,
        ImageAction,
    ))
        requires
            self.wf(),
            old(engine).wf(),
        ensures
            next.0.wf(),
            final(engine).wf(),
            matches_outcome(
                topped(self, scene(*old(engine), old(rx)@, now)),
                next,
                *old(engine),
                *final(engine),
                final(rx)@,
            ),
    {
        if !engine.state.is_valid(self.mine) {
            return self.end();
        }
        let mut s = self;
        // Tuning is read live: preset changes apply on the next frame.
        s.params = engine.image_params;
        if !engine.connected {
            s.reinit_needed = true;
            s.phase = ImagePhase::Top;
            return (s, ImageAction::Sleep(DISCONNECTED_IDLE));
        }
        let asked = engine.state.reinit_requested;
        engine.state.reinit_requested = false;
        if s.reinit_needed || asked {
            if !rx.is_open() {
                return s.end();
            }
            engine::post_rearm(&engine.tx, rx, VIDEO_SYNC_MODE);
            s.reinit_needed = false;
            s.resend = true;
            s.last_send = now;
            s.phase = ImagePhase::Rearming;
            return (s, ImageAction::Sleep(INIT_SETTLE));
        }
        s.prepare(engine, rx, now)
    }

    fn prepare(self, engine: &mut Engine, rx: &mut CommandRx, now: u64) -> (next: (
        ImageSync,
        ImageAction,
    ))
        requires
            self.wf(),
            old(engine).wf(),
        ensures
            next.0.wf(),
            final(engine).wf(),
            matches_outcome(
                prepared(self, scene(*old(engine), old(rx)@, now)),
                next,
                *old(engine),
                *final(engine),
                final(rx)@,
            ),
    {
        let mut s = self;
        if engine.state.display_changed {
            engine.state.display_changed = false;
            s = s.drop_display(now);
        }
        if s.capturing {
            return s.acquire(now);
        }
        if s.first_creation {
            s.first_creation = false;
            s.phase = ImagePhase::Creating;
            return (s, ImageAction::Create(s.params.sampling));
        }
        s.phase = ImagePhase::Pausing;
        (s, ImageAction::Sleep(RETRY_DELAY))
    }

    fn drop_display(self, now: u64) -> (s: ImageSync)
        ensures
            s == display_dropped(self, now),
    {
        let mut s = self;
        s.capturing = false;
        s.settle_until = Some(after(now, DISPLAY_CHANGE_SETTLE));
        s
    }

    fn acquire(self, now: u64) -> (next: (ImageSync, ImageAction))
        ensures
            next.0 == (ImageSync { phase: ImagePhase::Acquiring, started: now, ..self }),
            next.1 == ImageAction::Acquire(ACQUIRE_TIMEOUT_MS),
    {
        let mut s = self;
        s.phase = ImagePhase::Acquiring;
        s.started = now;
        (s, ImageAction::Acquire(ACQUIRE_TIMEOUT_MS))
    }

    fn on_created(
        self,
        engine: &mut Engine,
        rx: &mut CommandRx,
        outcome: CreateOutcome,
        now: u64,
    ) -> (next: (ImageSync, ImageAction))
        requires
            self.wf(),
            old(engine).wf(),
        ensures
            next.0.wf(),
            final(engine).wf(),
            matches_outcome(
                created(self, scene(*old(engine), old(rx)@, now), outcome),
                next,
                *old(engine),
                *final(engine),
                final(rx)@,
            ),
    {
        let mut s = self;
        match outcome {
            CreateOutcome::Ready => {
                s.capturing = true;
                if s.create_fails > 0 {
                    s.create_fails = 0;
                    s.reinit_needed = true;
                    s.phase = ImagePhase::Top;
                    return (s, ImageAction::Again);
                }
                s.acquire(now)
            },
            CreateOutcome::Unavailable => {
                if !engine.state.is_valid(s.mine) {
                    return s.end();
                }
                engine.state.running = false;
                s.phase = ImagePhase::Finished;
                (s, ImageAction::GiveUp)
            },
            CreateOutcome::Failed => {
                if s.create_fails < u32::MAX {
                    s.create_fails = s.create_fails + 1;
                }
                s.phase = ImagePhase::Top;
                (s, ImageAction::Again)
            },
        }
    }

    fn on_acquired(
        self,
        engine: &mut Engine,
        rx: &mut CommandRx,
        outcome: AcquireOutcome,
        now: u64,
    ) -> (next: (ImageSync, ImageAction))
        requires
            self.wf(),
            old(engine).wf(),
        ensures
            next.0.wf(),
            final(engine).wf(),
            matches_outcome(
                acquired(self, scene(*old(engine), old(rx)@, now), outcome),
                next,
                *old(engine),
                *final(engine),
                final(rx)@,
            ),
    {
        if !engine.state.is_valid(self.mine) {
            return self.end();
        }
        let mut s = self;
        match outcome {
            AcquireOutcome::Frame { colors, dirty_hit } => {
                let fires = s.watch(now, &colors, dirty_hit);
                s.stream(engine, rx, &colors, now);
                if fires {
                    s.recreate()
                } else {
                    s.rest(engine, rx, now)
                }
            },
            AcquireOutcome::Nothing => {
                s.idle(engine, rx, now);
                s.rest(engine, rx, now)
            },
            AcquireOutcome::ModeChanged => s.drop_display(now).recreate(),
            AcquireOutcome::AccessLost | AcquireOutcome::Failed => s.recreate(),
        }
    }

    fn recreate(self) -> (next: (ImageSync, ImageAction))
        ensures
            next.0 == (ImageSync {
                capturing: false,
                phase: ImagePhase::Top,
                counters: Counters {
                    recreates: count(self.counters.recreates, true),
                    ..self.counters
                },
                ..self
            }),
            next.1 == ImageAction::Again,
    {
        let mut s = self;
        s.capturing = false;
        s.phase = ImagePhase::Top;
        s.counters.recreates = bump(s.counters.recreates);
        (s, ImageAction::Again)
    }

    /// The staleness watchdog: frames keep arriving with frozen pixels while
    /// the real desktop moves on. Identical colors alone do not count: activity
    /// outside the sampled blocks leaves them untouched on a healthy
    /// duplication.
    fn watch(&mut self, now: u64, colors: &Colors, dirty_hit: bool) -> (fires: bool)
        requires
            old(self).wf(),
        ensures
            final(self).wf(),
            *final(self) == watched(*old(self), now, *colors, dirty_hit),
            fires == watchdog_fires(*old(self), now, *colors, dirty_hit),
    {
        self.counters.arrivals = bump(self.counters.arrivals);
        let settling = match self.settle_until {
            Some(t) => now < t,
            None => false,
        };
        if !same_as_last(&self.last_sent, colors) {
            self.stale_frames = 0;
            self.stale_limit = STALE_FRAMES_BEFORE_RECREATE;
            return false;
        }
        if dirty_hit && !settling {
            self.stale_frames = self.stale_frames + 1;
        } else {
            self.stale_frames = 0;
        }
        if self.stale_frames >= self.stale_limit {
            self.stale_frames = 0;
            self.stale_limit =
            if 2 * self.stale_limit <= STALE_FRAMES_CAP {
                2 * self.stale_limit
            } else {
                STALE_FRAMES_CAP
            };
            self.counters.stale_recreates = bump(self.counters.stale_recreates);
            return true;
        }
        false
    }

    fn push(&mut self, engine: &Engine, rx: &mut CommandRx, colors: &Colors, now: u64)
        requires
            old(self).wf(),
            engine.wf(),
        ensures
            final(self).wf(),
            (*final(self), final(rx)@) == pushed(
                *old(self),
                scene(*engine, old(rx)@, now),
                *colors,
            ),
    {
        let level: u8 = engine.brightness;
        let sent = engine.tx.frame(rx, self.mine, dim(colors, level), false);
        self.last_sent = Some(*colors);
        self.last_level = level;
        self.last_send = now;
        self.resend = false;
        if !sent && rx.is_open() {
            self.counters.queue_full = bump(self.counters.queue_full);
        }
    }

    /// An unchanged image produces identical colors, and resending them changes
    /// nothing for the monitor.
    fn stream(&mut self, engine: &Engine, rx: &mut CommandRx, colors: &Colors, now: u64)
        requires
            old(self).wf(),
            engine.wf(),
        ensures
            final(self).wf(),
            (*final(self), final(rx)@) == streamed(
                *old(self),
                scene(*engine, old(rx)@, now),
                *colors,
            ),
    {
        if !same_as_last(&self.last_sent, colors) || self.resend || engine.brightness
            != self.last_level {
            self.counters.sends = bump(self.counters.sends);
            self.push(engine, rx, colors, now);
        } else {
            self.counters.dedup_skips = bump(self.counters.dedup_skips);
        }
    }

    fn idle(&mut self, engine: &Engine, rx: &mut CommandRx, now: u64)
        requires
            old(self).wf(),
            engine.wf(),
        ensures
            final(self).wf(),
            (*final(self), final(rx)@) == idled(*old(self), scene(*engine, old(rx)@, now)),
    {
        self.counters.none_wakeups = bump(self.counters.none_wakeups);
        if let Some(colors) = self.last_sent {
            if self.resend || engine.brightness != self.last_level {
                self.counters.sends = bump(self.counters.sends);
                self.push(engine, rx, &colors, now);
            }
        }
    }

    fn rest(self, engine: &mut Engine, rx: &mut CommandRx, now: u64) -> (next: (
        ImageSync,
        ImageAction,
    ))
        requires
            self.wf(),
            old(engine).wf(),
        ensures
            next.0.wf(),
            *final(engine) == *old(engine),
            matches_outcome(
                rested(self, scene(*old(engine), old(rx)@, now)),
                next,
                *old(engine),
                *final(engine),
                final(rx)@,
            ),
    {
        let mut s = self;
        if since(s.last_send, now) >= SYNC_KEEPALIVE {
            match s.last_sent {
                Some(colors) => {
                    s.counters.keepalives = bump(s.counters.keepalives);
                    s.push(engine, rx, &colors, now);
                },
                None => {
                    s.reinit_needed = true;
                    s.last_send = now;
                },
            }
        }
        s.phase = ImagePhase::Top;
        let ms: u64 = period(s.params.fps);
        let spent: u64 = since(s.started, now);
        if ms >= spent {
            (s, ImageAction::Sleep(ms - spent))
        } else {
            (s, ImageAction::Again)
        }
    }
}

/// A session that was stopped or superseded puts nothing on the bus and changes
/// nothing of the engine: not its init, not a frame, and not a failure that
/// would stop its successor.
pub proof fn superseded_sessions_are_silent(s: ImageSync, e: Scene, event: ImageEvent)
    requires
        !engine::valid(e.state, s.mine),
    ensures
        stepped(s, e, event).bus == e.bus,
        stepped(s, e, event).state == e.state,
{
}

/// Frames and commands never mix: a step puts frames on the bus only while it
/// is acquiring, and then no command. So a re-arm never lands between the
/// reports of a frame.
pub proof fn frames_pause_around_commands(s: ImageSync, e: Scene, event: ImageEvent)
    ensures
        s.phase == ImagePhase::Acquiring ==> stepped(s, e, event).bus.ctrl == e.bus.ctrl,
        s.phase != ImagePhase::Acquiring ==> engine::adds_no_frame(
            e.bus,
            stepped(s, e, event).bus,
        ),
{
    engine::lemma_controls_add_no_frame(
        e.bus,
        engine::init_commands(s.mine, VIDEO_SYNC_MODE),
    );
    engine::lemma_controls_add_no_frame(e.bus, engine::rearm_commands(VIDEO_SYNC_MODE));
}

/// After the init and after every re-arm, the chunk count is asserted once the
/// monitor has settled, before any frame.
pub proof fn arming_ends_with_the_chunk_count(s: ImageSync, e: Scene)
    requires
        s.phase == ImagePhase::Settling || s.phase == ImagePhase::Rearming,
        engine::valid(e.state, s.mine),
        e.bus.open,
    ensures
        stepped(s, e, ImageEvent::Go).bus.ctrl == e.bus.ctrl.push(
            UsbCommand::ArmSync(VIDEO_SYNC_MODE),
        ),
{
}

/// Unchanged colors at an unchanged level are not sent again until the
/// heartbeat is due.
pub proof fn unchanged_colors_are_not_resent(
    s: ImageSync,
    e: Scene,
    colors: Colors,
    dirty_hit: bool,
)
    requires
        s.phase == ImagePhase::Acquiring,
        !is_news(s, e, colors),
        usb::elapsed(s.last_send, e.now) < SYNC_KEEPALIVE,
    ensures
        stepped(
            s,
            e,
            ImageEvent::Acquired(AcquireOutcome::Frame { colors, dirty_hit }),
        ).bus == e.bus,
{
}

/// An iteration that keeps its capture ends less than a heartbeat after colors
/// last went out or, before the first colors, after a re-arm was last asked for.
pub proof fn the_heartbeat_is_kept(s: ImageSync, e: Scene, outcome: AcquireOutcome)
    requires
        s.phase == ImagePhase::Acquiring,
        engine::valid(e.state, s.mine),
        outcome matches AcquireOutcome::Frame { colors, dirty_hit } ==> !watchdog_fires(
            s,
            e.now,
            colors,
            dirty_hit,
        ),
        outcome is Frame || outcome is Nothing,
    ensures
        usb::elapsed(
            stepped(s, e, ImageEvent::Acquired(outcome)).sync.last_send,
            e.now,
        ) < SYNC_KEEPALIVE,
{
}

/// When the heartbeat is due on a static desktop, the last colors go out at the
/// level of the moment.
pub proof fn the_heartbeat_resends_the_last_colors(s: ImageSync, e: Scene, colors: Colors)
    requires
        s.phase == ImagePhase::Acquiring,
        engine::valid(e.state, s.mine),
        s.last_sent == Some(colors),
        usb::elapsed(s.last_send, e.now) >= SYNC_KEEPALIVE,
    ensures
        stepped(s, e, ImageEvent::Acquired(AcquireOutcome::Nothing)).bus == usb::offered(
            e.bus,
            frame_of(s, e, colors),
        ),
{
}

/// Until the first frame arrives, the session re-arms the monitor on the
/// heartbeat's cadence.
pub proof fn sessions_without_a_frame_rearm(s: ImageSync, e: Scene)
    requires
        s.phase == ImagePhase::Acquiring,
        engine::valid(e.state, s.mine),
        s.last_sent is None,
        usb::elapsed(s.last_send, e.now) >= SYNC_KEEPALIVE,
    ensures
        ({
            let out = stepped(s, e, ImageEvent::Acquired(AcquireOutcome::Nothing));
            &&& out.sync.reinit_needed
            &&& out.sync.phase == ImagePhase::Top
        }),
{
}

/// A desktop that comes back after an outage gets its monitor re-armed before a
/// frame is waited for, and so before any frame goes out.
pub proof fn outages_end_with_a_rearm(s: ImageSync, e: Scene, soon: Scene)
    requires
        s.phase == ImagePhase::Creating,
        s.create_fails > 0,
        engine::valid(soon.state, s.mine),
        soon.connected,
        soon.bus.open,
    ensures
        ({
            let back = stepped(s, e, ImageEvent::Created(CreateOutcome::Ready));
            let armed = stepped(back.sync, soon, ImageEvent::Go);
            &&& back.bus == e.bus
            &&& back.action == ImageAction::Again
            &&& armed.bus == engine::posted_all(
                soon.bus,
                engine::rearm_commands(VIDEO_SYNC_MODE),
            )
            &&& armed.action == ImageAction::Sleep(INIT_SETTLE)
            &&& armed.sync.resend && armed.sync.capturing
        }),
{
}

/// While the monitor is absent the session sends nothing and idles, and it
/// re-arms the monitor once that is back.
pub proof fn absent_monitors_pause_the_session(s: ImageSync, e: Scene)
    requires
        s.phase == ImagePhase::Top,
        engine::valid(e.state, s.mine),
        !e.connected,
    ensures
        ({
            let out = stepped(s, e, ImageEvent::Go);
            &&& out.bus == e.bus
            &&& out.action == ImageAction::Sleep(DISCONNECTED_IDLE)
            &&& out.sync.reinit_needed
            &&& out.sync.phase == ImagePhase::Top
        }),
{
}

/// A needed re-arm happens at the head of the next iteration with a monitor.
pub proof fn a_needed_rearm_happens(s: ImageSync, e: Scene)
    requires
        s.phase == ImagePhase::Top,
        engine::valid(e.state, s.mine),
        e.connected,
        e.bus.open,
        s.reinit_needed || e.state.reinit_requested,
    ensures
        ({
            let out = stepped(s, e, ImageEvent::Go);
            &&& out.bus == engine::posted_all(e.bus, engine::rearm_commands(VIDEO_SYNC_MODE))
            &&& out.action == ImageAction::Sleep(INIT_SETTLE)
            &&& out.sync.resend
            &&& !out.sync.reinit_needed && !out.state.reinit_requested
        }),
{
}

/// The first colors after a re-arm go out even if they are the last ones, with
/// or without a new frame.
pub proof fn rearmed_monitors_get_colors(s: ImageSync, e: Scene, colors: Colors)
    requires
        s.phase == ImagePhase::Acquiring,
        engine::valid(e.state, s.mine),
        s.resend,
        s.last_sent == Some(colors),
    ensures
        stepped(s, e, ImageEvent::Acquired(AcquireOutcome::Nothing)).bus == usb::offered(
            e.bus,
            frame_of(s, e, colors),
        ),
{
}

/// A new brightness level reaches the monitor within one wakeup, even on a still
/// desktop.
pub proof fn brightness_applies_within_one_wakeup(s: ImageSync, e: Scene, colors: Colors)
    requires
        s.phase == ImagePhase::Acquiring,
        engine::valid(e.state, s.mine),
        s.last_sent == Some(colors),
        e.level != s.last_level,
    ensures
        ({
            let out = stepped(s, e, ImageEvent::Acquired(AcquireOutcome::Nothing));
            &&& out.bus == usb::offered(
                e.bus,
                UsbCommand::SendColors(s.mine, engine::dimmed(colors, e.level), false),
            )
            &&& out.sync.last_level == e.level
        }),
{
}

/// The watchdog fires only on a run of frozen frames as long as its patience;
/// then it doubles its patience up to the cap. Changed colors restore the
/// patience at once.
pub proof fn the_watchdog_backs_off(s: ImageSync, now: u64, colors: Colors, dirty_hit: bool)
    requires
        s.wf(),
    ensures
        watchdog_fires(s, now, colors, dirty_hit) ==> {
            &&& looks_frozen(s, now, colors, dirty_hit)
            &&& s.stale_frames + 1 == s.stale_limit
            &&& watched(s, now, colors, dirty_hit).stale_limit == more_patience(
                s.stale_limit as int,
            )
            &&& watched(s, now, colors, dirty_hit).stale_frames == 0
        },
        s.last_sent != Some(colors) ==> watched(s, now, colors, dirty_hit).stale_limit
            == STALE_FRAMES_BEFORE_RECREATE,
{
}

/// Activity outside the sampled blocks and the settling of a display change
/// never count against the duplication.
pub proof fn the_watchdog_needs_evidence(s: ImageSync, now: u64, colors: Colors, dirty_hit: bool)
    requires
        s.wf(),
        !dirty_hit || (s.settle_until matches Some(t) && now < t),
    ensures
        !watchdog_fires(s, now, colors, dirty_hit),
        watched(s, now, colors, dirty_hit).stale_frames == 0,
{
}

/// The pause after an iteration is at most a frame period, and a frame period at
/// most a second.
pub proof fn pacing_is_bounded(s: ImageSync, e: Scene, outcome: AcquireOutcome)
    requires
        s.phase == ImagePhase::Acquiring,
    ensures
        stepped(s, e, ImageEvent::Acquired(outcome)).action matches ImageAction::Sleep(ms) ==> ms
            <= frame_period(s.params.fps) <= 1000,
{
    let rate = if s.params.fps >= 1 {
        s.params.fps as int
    } else {
        1
    };
    assert(1000int / rate <= 1000) by (nonlinear_arith)
        requires
            rate >= 1,
    ;
}

/// A session that has ended stays so.
pub proof fn ended_sessions_stay_ended(s: ImageSync, e: Scene, event: ImageEvent)
    requires
        s.phase == ImagePhase::Finished,
    ensures
        stepped(s, e, event).sync == s,
        stepped(s, e, event).bus == e.bus,
        stepped(s, e, event).action == ImageAction::Finish,
{
}

} // verus!
