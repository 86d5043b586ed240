//! What an image sync session does at each step, in terms of what is seen from
//! outside: the commands it posts, how long it sleeps, what it remembers.

use crate::engine;
use crate::engine::{Colors, EngineState};
use crate::image_sync;
use crate::image_sync::{
    AcquireOutcome, Counters, CreateOutcome, ImageAction, ImageEvent, ImagePhase, ImageSync,
    Outcome, Scene,
};
use crate::usb;
use crate::usb::{Bus, UsbCommand};
use vstd::prelude::*;

verus! {

/// Did the commands, and nothing else, join the control plane?
pub open spec fn commands_joined(before: Bus, after: Bus, cmds: Seq<UsbCommand>) -> bool {
    &&& after.ctrl == before.ctrl + cmds
    &&& after.open == before.open && after.senders == before.senders
    &&& engine::adds_no_frame(before, after)
}

/// Are these the colors at a brightness level, LED by LED?
pub open spec fn at_level(shown: Colors, colors: Colors, level: u8) -> bool {
    forall|i: int|
        #![trigger shown@[i]]
        0 <= i < 48 ==> {
            &&& engine::is_dimmed(shown@[i].r as int, colors@[i].r as int, level as int)
            &&& engine::is_dimmed(shown@[i].g as int, colors@[i].g as int, level as int)
            &&& engine::is_dimmed(shown@[i].b as int, colors@[i].b as int, level as int)
        }
}

/// Did one frame of a session, with these colors at this level, join the data
/// plane, or was it dropped because four messages waited there?
pub open spec fn frame_joined(
    before: Bus,
    after: Bus,
    mine: u64,
    colors: Colors,
    level: u8,
    audio: bool,
) -> bool {
    &&& after.ctrl == before.ctrl
    &&& after.open == before.open && after.senders == before.senders
    &&& before.open && before.frames.len() < 4 ==> {
        &&& after.frames.len() == before.frames.len() + 1
        &&& forall|i: int|
            0 <= i < before.frames.len() ==> #[trigger] after.frames[i] == before.frames[i]
        &&& after.frames.last() matches UsbCommand::SendColors(s, shown, a) && s == mine && a
            == audio && at_level(shown, colors, level)
    }
    &&& !before.open || before.frames.len() >= 4 ==> after.frames == before.frames
}

/// A frame that is offered joins the data plane, dimmed LED by LED.
pub proof fn offered_frames_join(bus: Bus, mine: u64, colors: Colors, level: u8, audio: bool)
    requires
        level <= 12,
    ensures
        frame_joined(
            bus,
            usb::offered(
                bus,
                UsbCommand::SendColors(mine, engine::dimmed(colors, level), audio),
            ),
            mine,
            colors,
            level,
            audio,
        ),
{
    let shown = engine::dimmed(colors, level);
    assert forall|i: int| #![trigger shown@[i]] 0 <= i < 48 implies {
        &&& engine::is_dimmed(shown@[i].r as int, colors@[i].r as int, level as int)
        &&& engine::is_dimmed(shown@[i].g as int, colors@[i].g as int, level as int)
        &&& engine::is_dimmed(shown@[i].b as int, colors@[i].b as int, level as int)
    } by {
        engine::strips_are_dimmed_in_place(colors, level, i);
    }
}

proof fn lemma_arm_joined(bus: Bus, mode: u8)
    requires
        bus.open,
    ensures
        commands_joined(
            bus,
            usb::posted(bus, UsbCommand::ArmSync(mode)),
            seq![UsbCommand::ArmSync(mode)],
        ),
{
    let all = seq![UsbCommand::ArmSync(mode)];
    engine::lemma_controls_join(bus, all);
    assert(all.drop_last() =~= Seq::<UsbCommand>::empty());
    assert(engine::posted_all(bus, Seq::<UsbCommand>::empty()) == bus);
    assert(engine::posted_all(bus, all) == usb::posted(bus, UsbCommand::ArmSync(mode)));
}

/// A session takes the tuning of the moment up at the head of its loop, with or
/// without a monitor, and nowhere else; its token never changes.
pub proof fn tuning_is_live(s: ImageSync, e: Scene, event: ImageEvent)
    requires
        engine::valid(e.state, s.mine),
    ensures
        s.phase == ImagePhase::Top && event is Go ==> image_sync::stepped(
            s,
            e,
            event,
        ).sync.params == e.params,
        s.phase != ImagePhase::Top ==> image_sync::stepped(s, e, event).sync.params == s.params,
        image_sync::stepped(s, e, event).sync.mine == s.mine,
{
}

/// A capture samples the way the session's tuning says.
pub proof fn captures_sample_as_tuned(s: ImageSync, e: Scene, event: ImageEvent)
    ensures
        image_sync::stepped(s, e, event).action matches ImageAction::Create(sampling) ==> sampling
            == image_sync::stepped(s, e, event).sync.params.sampling,
        image_sync::stepped(s, e, event).action is Create <==> image_sync::stepped(
            s,
            e,
            event,
        ).sync.phase == ImagePhase::Creating,
        image_sync::stepped(s, e, event).action is Acquire <==> image_sync::stepped(
            s,
            e,
            event,
        ).sync.phase == ImagePhase::Acquiring,
        image_sync::stepped(s, e, event).action matches ImageAction::Acquire(ms) ==> ms == 200,
{
}

/// A session that was superseded ends with the step that finds out: every one
/// but the creation of a capture.
pub proof fn superseded_sessions_end(s: ImageSync, e: Scene, event: ImageEvent)
    requires
        !(e.state.running && e.state.session == s.mine),
        event is Go && (s.phase == ImagePhase::Birth || s.phase == ImagePhase::Settling || s.phase
            == ImagePhase::Top || s.phase == ImagePhase::Rearming || s.phase
            == ImagePhase::Pausing) || event is Acquired && s.phase == ImagePhase::Acquiring,
    ensures
        image_sync::stepped(s, e, event) == (Outcome {
            sync: ImageSync { phase: ImagePhase::Finished, ..s },
            state: e.state,
            bus: e.bus,
            action: ImageAction::Finish,
        }),
{
}

/// A new session registers itself, turns the strip on at full brightness in
/// video mode, and lets the monitor settle for a quarter of a second. A re-arm
/// that was asked of its predecessor is forgotten.
pub proof fn sessions_open_with_the_init(s: ImageSync, e: Scene)
    requires
        s.phase == ImagePhase::Birth,
        engine::valid(e.state, s.mine),
    ensures
        ({
            let out = image_sync::stepped(s, e, ImageEvent::Go);
            &&& out.state == (EngineState { reinit_requested: false, ..e.state })
            &&& e.bus.open ==> {
                &&& out.sync == (ImageSync { phase: ImagePhase::Settling, ..s })
                &&& out.action == ImageAction::Sleep(250)
                &&& commands_joined(
                    e.bus,
                    out.bus,
                    seq![
                        UsbCommand::SetSession(s.mine),
                        UsbCommand::TurnOn,
                        UsbCommand::SetBrightness(12),
                        UsbCommand::SetMode(8),
                    ],
                )
            }
            &&& !e.bus.open ==> {
                &&& out.sync == (ImageSync { phase: ImagePhase::Finished, ..s })
                &&& out.action == ImageAction::Finish
                &&& out.bus == e.bus
            }
        }),
{
    let cmds = engine::init_commands(s.mine, 8);
    engine::lemma_controls_join(e.bus, cmds);
    assert(cmds =~= seq![
        UsbCommand::SetSession(s.mine),
        UsbCommand::TurnOn,
        UsbCommand::SetBrightness(12),
        UsbCommand::SetMode(8),
    ]);
}

/// Once the monitor has settled its chunk count is asserted and the loop begins,
/// with the heartbeat counting from that moment.
pub proof fn settled_sessions_begin(s: ImageSync, e: Scene)
    requires
        s.phase == ImagePhase::Settling,
        engine::valid(e.state, s.mine),
    ensures
        ({
            let out = image_sync::stepped(s, e, ImageEvent::Go);
            &&& out.state == e.state
            &&& e.bus.open ==> {
                &&& out.sync == (ImageSync { phase: ImagePhase::Top, last_send: e.now, ..s })
                &&& out.action == ImageAction::Again
                &&& commands_joined(e.bus, out.bus, seq![UsbCommand::ArmSync(8)])
            }
            &&& !e.bus.open ==> {
                &&& out.sync == (ImageSync { phase: ImagePhase::Finished, ..s })
                &&& out.action == ImageAction::Finish
                &&& out.bus == e.bus
            }
        }),
{
    if e.bus.open {
        lemma_arm_joined(e.bus, 8);
    }
}

/// Without a monitor the session sleeps a second, sends nothing, and will re-arm
/// it; a re-arm or a display change that is asked for meanwhile stays asked for.
pub proof fn sessions_idle_without_a_monitor(s: ImageSync, e: Scene)
    requires
        s.phase == ImagePhase::Top,
        engine::valid(e.state, s.mine),
        !e.connected,
    ensures
        image_sync::stepped(s, e, ImageEvent::Go) == (Outcome {
            sync: ImageSync { params: e.params, reinit_needed: true, ..s },
            state: e.state,
            bus: e.bus,
            action: ImageAction::Sleep(1000),
        }),
{
}

/// A re-arm turns the strip on at full brightness in video mode and lets the
/// monitor settle; a display change is left for afterwards.
pub proof fn rearms_resend_the_init(s: ImageSync, e: Scene)
    requires
        s.phase == ImagePhase::Top,
        engine::valid(e.state, s.mine),
        e.connected,
        s.reinit_needed || e.state.reinit_requested,
    ensures
        ({
            let out = image_sync::stepped(s, e, ImageEvent::Go);
            &&& out.state == (EngineState { reinit_requested: false, ..e.state })
            &&& e.bus.open ==> {
                &&& out.sync == (ImageSync {
                    phase: ImagePhase::Rearming,
                    params: e.params,
                    reinit_needed: false,
                    resend: true,
                    last_send: e.now,
                    ..s
                })
                &&& out.action == ImageAction::Sleep(250)
                &&& commands_joined(
                    e.bus,
                    out.bus,
                    seq![
                        UsbCommand::TurnOn,
                        UsbCommand::SetBrightness(12),
                        UsbCommand::SetMode(8),
                    ],
                )
            }
            &&& !e.bus.open ==> {
                &&& out.sync == (ImageSync {
                    phase: ImagePhase::Finished,
                    params: e.params,
                    ..s
                })
                &&& out.action == ImageAction::Finish
                &&& out.bus == e.bus
            }
        }),
{
    let cmds = engine::rearm_commands(8);
    engine::lemma_controls_join(e.bus, cmds);
    assert(cmds =~= seq![
        UsbCommand::TurnOn,
        UsbCommand::SetBrightness(12),
        UsbCommand::SetMode(8),
    ]);
}

/// Does the session go on to its capture? With one it waits up to 200 ms for a
/// frame. The first one is created at once, a later one after half a second. A
/// display change drops the capture, and starts twelve seconds of grace.
pub open spec fn goes_on(s: ImageSync, e: Scene, out: Outcome) -> bool {
    let changed = e.state.display_changed;
    let grace = if changed {
        Some(image_sync::later(e.now, 12000))
    } else {
        s.settle_until
    };
    &&& !out.state.display_changed
    &&& s.capturing && !changed ==> {
        &&& out.sync == (ImageSync { phase: ImagePhase::Acquiring, started: e.now, ..s })
        &&& out.action == ImageAction::Acquire(200)
    }
    &&& (!s.capturing || changed) && s.first_creation ==> {
        &&& out.sync == (ImageSync {
            phase: ImagePhase::Creating,
            capturing: false,
            first_creation: false,
            settle_until: grace,
            ..s
        })
        &&& out.action == ImageAction::Create(s.params.sampling)
    }
    &&& (!s.capturing || changed) && !s.first_creation ==> {
        &&& out.sync == (ImageSync {
            phase: ImagePhase::Pausing,
            capturing: false,
            settle_until: grace,
            ..s
        })
        &&& out.action == ImageAction::Sleep(500)
    }
}

/// With a monitor that needs no re-arm, the session goes on to its capture with
/// the tuning of the moment.
pub proof fn iterations_go_on_to_the_capture(s: ImageSync, e: Scene)
    requires
        s.phase == ImagePhase::Top,
        engine::valid(e.state, s.mine),
        e.connected,
        !s.reinit_needed,
        !e.state.reinit_requested,
    ensures
        ({
            let out = image_sync::stepped(s, e, ImageEvent::Go);
            &&& goes_on(ImageSync { params: e.params, ..s }, e, out)
            &&& out.bus == e.bus
            &&& out.state == (EngineState { display_changed: false, ..e.state })
        }),
{
}

/// Once a re-armed monitor has settled its chunk count is asserted and the
/// session goes on to its capture.
pub proof fn rearmed_sessions_go_on(s: ImageSync, e: Scene)
    requires
        s.phase == ImagePhase::Rearming,
        engine::valid(e.state, s.mine),
    ensures
        ({
            let out = image_sync::stepped(s, e, ImageEvent::Go);
            &&& e.bus.open ==> {
                &&& goes_on(s, e, out)
                &&& commands_joined(e.bus, out.bus, seq![UsbCommand::ArmSync(8)])
                &&& out.state == (EngineState { display_changed: false, ..e.state })
            }
            &&& !e.bus.open ==> out == (Outcome {
                sync: ImageSync { phase: ImagePhase::Finished, ..s },
                state: e.state,
                bus: e.bus,
                action: ImageAction::Finish,
            })
        }),
{
    if e.bus.open {
        lemma_arm_joined(e.bus, 8);
    }
}

/// Half a second later the capture is created.
pub proof fn pauses_end_with_a_creation(s: ImageSync, e: Scene)
    requires
        s.phase == ImagePhase::Pausing,
        engine::valid(e.state, s.mine),
    ensures
        image_sync::stepped(s, e, ImageEvent::Go) == (Outcome {
            sync: ImageSync { phase: ImagePhase::Creating, ..s },
            state: e.state,
            bus: e.bus,
            action: ImageAction::Create(s.params.sampling),
        }),
{
}

/// A capture that is ready at the first try is used at once; one that is ready
/// after failures only once the monitor was re-armed. Failures are counted, and
/// tried again. A machine without the means ends the session and stops the
/// engine, unless another session runs it.
pub proof fn creations_come_out(s: ImageSync, e: Scene)
    requires
        s.phase == ImagePhase::Creating,
    ensures
        ({
            let ready = image_sync::stepped(s, e, ImageEvent::Created(CreateOutcome::Ready));
            let failed = image_sync::stepped(s, e, ImageEvent::Created(CreateOutcome::Failed));
            let never = image_sync::stepped(
                s,
                e,
                ImageEvent::Created(CreateOutcome::Unavailable),
            );
            &&& ready.bus == e.bus && failed.bus == e.bus && never.bus == e.bus
            &&& ready.state == e.state && failed.state == e.state
            &&& s.create_fails == 0 ==> {
                &&& ready.sync == (ImageSync {
                    phase: ImagePhase::Acquiring,
                    capturing: true,
                    started: e.now,
                    ..s
                })
                &&& ready.action == ImageAction::Acquire(200)
            }
            &&& s.create_fails > 0 ==> {
                &&& ready.sync == (ImageSync {
                    phase: ImagePhase::Top,
                    capturing: true,
                    create_fails: 0,
                    reinit_needed: true,
                    ..s
                })
                &&& ready.action == ImageAction::Again
            }
            &&& failed.sync == (ImageSync {
                phase: ImagePhase::Top,
                create_fails: failed.sync.create_fails,
                ..s
            })
            &&& s.create_fails < u32::MAX ==> failed.sync.create_fails == s.create_fails + 1
            &&& s.create_fails == u32::MAX ==> failed.sync.create_fails == u32::MAX
            &&& failed.action == ImageAction::Again
            &&& never.sync == (ImageSync { phase: ImagePhase::Finished, ..s })
            &&& engine::valid(e.state, s.mine) ==> never.action == ImageAction::GiveUp
                && never.state == (EngineState { running: false, ..e.state })
            &&& !engine::valid(e.state, s.mine) ==> never.action == ImageAction::Finish
                && never.state == e.state
        }),
{
}

/// Is this frame evidence of a frozen duplication? Its colors are the last ones,
/// the desktop changed where it is sampled, and no grace window is open.
pub open spec fn is_evidence(s: ImageSync, now: u64, colors: Colors, dirty_hit: bool) -> bool {
    &&& s.last_sent == Some(colors)
    &&& dirty_hit
    &&& s.settle_until is None || s.settle_until->0 <= now
}

/// The watchdog: evidence counts frame by frame, anything else starts the count
/// anew. When the count reaches the limit the capture is dropped and created
/// anew, and the limit doubles up to 480. New colors set it back to 60.
pub proof fn the_watchdog_counts_evidence(s: ImageSync, e: Scene, colors: Colors, dirty_hit: bool)
    requires
        s.wf(),
        s.phase == ImagePhase::Acquiring,
        engine::valid(e.state, s.mine),
    ensures
        ({
            let out = image_sync::stepped(
                s,
                e,
                ImageEvent::Acquired(AcquireOutcome::Frame { colors, dirty_hit }),
            );
            let evidence = is_evidence(s, e.now, colors, dirty_hit);
            let fires = evidence && s.stale_frames + 1 == s.stale_limit;
            &&& 60 <= s.stale_limit <= 480
            &&& out.sync.wf()
            &&& !evidence ==> out.sync.stale_frames == 0
            &&& evidence && !fires ==> out.sync.stale_frames == s.stale_frames + 1
            &&& s.last_sent != Some(colors) ==> out.sync.stale_limit == 60
            &&& s.last_sent == Some(colors) && !fires ==> out.sync.stale_limit == s.stale_limit
            &&& !fires ==> out.sync.capturing == s.capturing
                && out.sync.counters.stale_recreates == s.counters.stale_recreates
                && out.sync.counters.recreates == s.counters.recreates
            &&& fires ==> {
                &&& !out.sync.capturing && out.sync.stale_frames == 0
                &&& out.action == ImageAction::Again
                &&& s.stale_limit <= 240 ==> out.sync.stale_limit == 2 * s.stale_limit
                &&& s.stale_limit > 240 ==> out.sync.stale_limit == 480
                &&& counted(s.counters.stale_recreates, out.sync.counters.stale_recreates)
                &&& counted(s.counters.recreates, out.sync.counters.recreates)
            }
            &&& out.sync.settle_until == s.settle_until
            &&& out.sync.phase == ImagePhase::Top
            &&& out.state == e.state
        }),
{
}

/// Did a counter go up by one, or was it full?
pub open spec fn counted(before: u64, after: u64) -> bool {
    before < u64::MAX && after == before + 1 || before == u64::MAX && after == u64::MAX
}

/// A frame with new colors, at a new level or after a re-arm is sent, and
/// remembered as the last one.
pub proof fn news_is_sent(s: ImageSync, e: Scene, colors: Colors, dirty_hit: bool)
    requires
        s.wf(),
        s.phase == ImagePhase::Acquiring,
        engine::valid(e.state, s.mine),
        e.level <= 12,
        s.last_sent != Some(colors) || s.resend || s.last_level != e.level,
    ensures
        ({
            let out = image_sync::stepped(
                s,
                e,
                ImageEvent::Acquired(AcquireOutcome::Frame { colors, dirty_hit }),
            );
            let full = e.bus.open && e.bus.frames.len() >= 4;
            &&& frame_joined(e.bus, out.bus, s.mine, colors, e.level, false)
            &&& out.sync == (ImageSync {
                phase: ImagePhase::Top,
                capturing: out.sync.capturing,
                last_sent: Some(colors),
                last_level: e.level,
                last_send: e.now,
                resend: false,
                stale_frames: out.sync.stale_frames,
                stale_limit: out.sync.stale_limit,
                counters: out.sync.counters,
                ..s
            })
            &&& counted(s.counters.arrivals, out.sync.counters.arrivals)
            &&& counted(s.counters.sends, out.sync.counters.sends)
            &&& full ==> counted(s.counters.queue_full, out.sync.counters.queue_full)
            &&& out.sync.counters == (Counters {
                arrivals: out.sync.counters.arrivals,
                sends: out.sync.counters.sends,
                queue_full: if full {
                    out.sync.counters.queue_full
                } else {
                    s.counters.queue_full
                },
                recreates: out.sync.counters.recreates,
                stale_recreates: out.sync.counters.stale_recreates,
                ..s.counters
            })
        }),
{
    offered_frames_join(e.bus, s.mine, colors, e.level, false);
}

/// A frame that is no news is skipped. If nothing went out for five seconds, its
/// colors go out as the heartbeat, unless the watchdog drops the capture first.
pub proof fn repeats_are_skipped(s: ImageSync, e: Scene, colors: Colors, dirty_hit: bool)
    requires
        s.wf(),
        s.phase == ImagePhase::Acquiring,
        engine::valid(e.state, s.mine),
        e.level <= 12,
        s.last_sent == Some(colors),
        !s.resend,
        s.last_level == e.level,
    ensures
        ({
            let out = image_sync::stepped(
                s,
                e,
                ImageEvent::Acquired(AcquireOutcome::Frame { colors, dirty_hit }),
            );
            let fires = is_evidence(s, e.now, colors, dirty_hit) && s.stale_frames + 1
                == s.stale_limit;
            let due = usb::elapsed(s.last_send, e.now) >= 5000 && !fires;
            let full = e.bus.open && e.bus.frames.len() >= 4;
            &&& due ==> frame_joined(e.bus, out.bus, s.mine, colors, e.level, false)
            &&& !due ==> out.bus == e.bus
            &&& out.sync == (ImageSync {
                phase: ImagePhase::Top,
                capturing: out.sync.capturing,
                last_send: if due {
                    e.now
                } else {
                    s.last_send
                },
                stale_frames: out.sync.stale_frames,
                stale_limit: out.sync.stale_limit,
                counters: out.sync.counters,
                ..s
            })
            &&& counted(s.counters.arrivals, out.sync.counters.arrivals)
            &&& counted(s.counters.dedup_skips, out.sync.counters.dedup_skips)
            &&& due ==> counted(s.counters.keepalives, out.sync.counters.keepalives)
            &&& due && full ==> counted(s.counters.queue_full, out.sync.counters.queue_full)
            &&& out.sync.counters == (Counters {
                arrivals: out.sync.counters.arrivals,
                dedup_skips: out.sync.counters.dedup_skips,
                keepalives: if due {
                    out.sync.counters.keepalives
                } else {
                    s.counters.keepalives
                },
                queue_full: if due && full {
                    out.sync.counters.queue_full
                } else {
                    s.counters.queue_full
                },
                recreates: out.sync.counters.recreates,
                stale_recreates: out.sync.counters.stale_recreates,
                ..s.counters
            })
        }),
{
    offered_frames_join(e.bus, s.mine, colors, e.level, false);
}

/// A wakeup without a frame resends the last colors at a new level, after a
/// re-arm or as the heartbeat after five seconds, and else sends nothing. Before
/// the first colors the heartbeat asks for a re-arm instead.
pub proof fn quiet_wakeups_resend_where_due(s: ImageSync, e: Scene)
    requires
        s.phase == ImagePhase::Acquiring,
        engine::valid(e.state, s.mine),
        e.level <= 12,
    ensures
        ({
            let out = image_sync::stepped(s, e, ImageEvent::Acquired(AcquireOutcome::Nothing));
            let some = s.last_sent is Some;
            let news = some && (s.resend || s.last_level != e.level);
            let late = usb::elapsed(s.last_send, e.now) >= 5000;
            let full = e.bus.open && e.bus.frames.len() >= 4;
            let sent = news || (some && late);
            &&& sent ==> frame_joined(e.bus, out.bus, s.mine, s.last_sent->0, e.level, false)
            &&& !sent ==> out.bus == e.bus
            &&& out.sync == (ImageSync {
                phase: ImagePhase::Top,
                last_level: if sent {
                    e.level
                } else {
                    s.last_level
                },
                last_send: if sent || late {
                    e.now
                } else {
                    s.last_send
                },
                resend: s.resend && !sent,
                reinit_needed: s.reinit_needed || (late && !some),
                counters: out.sync.counters,
                ..s
            })
            &&& counted(s.counters.none_wakeups, out.sync.counters.none_wakeups)
            &&& news ==> counted(s.counters.sends, out.sync.counters.sends)
            &&& sent && !news ==> counted(s.counters.keepalives, out.sync.counters.keepalives)
            &&& sent && full ==> counted(s.counters.queue_full, out.sync.counters.queue_full)
            &&& out.sync.counters == (Counters {
                none_wakeups: out.sync.counters.none_wakeups,
                sends: if news {
                    out.sync.counters.sends
                } else {
                    s.counters.sends
                },
                keepalives: if sent && !news {
                    out.sync.counters.keepalives
                } else {
                    s.counters.keepalives
                },
                queue_full: if sent && full {
                    out.sync.counters.queue_full
                } else {
                    s.counters.queue_full
                },
                ..s.counters
            })
            &&& out.state == e.state
        }),
{
    if let Some(colors) = s.last_sent {
        offered_frames_join(e.bus, s.mine, colors, e.level, false);
    }
}

/// An iteration that keeps its capture lasts a frame period from the moment it
/// began to wait: the session sleeps for what is left of it, and not at all when
/// nothing is left.
pub proof fn iterations_last_a_period(s: ImageSync, e: Scene, outcome: AcquireOutcome, ms: int)
    requires
        s.wf(),
        s.phase == ImagePhase::Acquiring,
        engine::valid(e.state, s.mine),
        outcome is Frame || outcome is Nothing,
        outcome matches AcquireOutcome::Frame { colors, dirty_hit } ==> !(is_evidence(
            s,
            e.now,
            colors,
            dirty_hit,
        ) && s.stale_frames + 1 == s.stale_limit),
        image_sync::is_period(ms, s.params.fps as int),
    ensures
        ({
            let out = image_sync::stepped(s, e, ImageEvent::Acquired(outcome));
            let spent = usb::elapsed(s.started, e.now);
            &&& spent <= ms ==> (out.action matches ImageAction::Sleep(rest) && rest + spent == ms)
            &&& spent > ms ==> out.action == ImageAction::Again
        }),
{
    image_sync::periods_fit_the_rate(s.params.fps);
    image_sync::lemma_one_period(ms, image_sync::frame_period(s.params.fps), s.params.fps as int);
}

/// A capture that fails is dropped and created anew, without a frame going out.
/// One that fails for a changed mode starts twelve seconds of grace.
pub proof fn failed_captures_are_replaced(s: ImageSync, e: Scene, outcome: AcquireOutcome)
    requires
        s.phase == ImagePhase::Acquiring,
        engine::valid(e.state, s.mine),
        outcome is AccessLost || outcome is Failed || outcome is ModeChanged,
    ensures
        ({
            let out = image_sync::stepped(s, e, ImageEvent::Acquired(outcome));
            &&& out.sync == (ImageSync {
                phase: ImagePhase::Top,
                capturing: false,
                settle_until: if outcome is ModeChanged {
                    Some(image_sync::later(e.now, 12000))
                } else {
                    s.settle_until
                },
                counters: Counters { recreates: out.sync.counters.recreates, ..s.counters },
                ..s
            })
            &&& counted(s.counters.recreates, out.sync.counters.recreates)
            &&& out.bus == e.bus && out.state == e.state
            &&& out.action == ImageAction::Again
        }),
{
}

/// The end of a span, as far as the clock goes.
pub proof fn spans_end_later(now: u64, span: u64)
    ensures
        now + span <= u64::MAX ==> image_sync::later(now, span) == now + span,
        now + span > u64::MAX ==> image_sync::later(now, span) == u64::MAX,
{
}

/// An event that the session does not wait for changes nothing.
pub proof fn stray_events_change_nothing(s: ImageSync, e: Scene, event: ImageEvent)
    requires
        event is Created ==> s.phase != ImagePhase::Creating,
        event is Acquired ==> s.phase != ImagePhase::Acquiring,
        event is Go ==> s.phase == ImagePhase::Creating || s.phase == ImagePhase::Acquiring
            || s.phase == ImagePhase::Finished,
    ensures
        ({
            let out = image_sync::stepped(s, e, event);
            &&& out.sync == s && out.state == e.state && out.bus == e.bus
            &&& out.action == match s.phase {
                ImagePhase::Creating => ImageAction::Create(s.params.sampling),
                ImagePhase::Acquiring => ImageAction::Acquire(200),
                ImagePhase::Finished => ImageAction::Finish,
                _ => ImageAction::Again,
            }
        }),
{
}

/// A step sees the engine as it is.
pub proof fn steps_see_the_engine(engine: engine::Engine, bus: Bus, now: u64)
    ensures
        ({
            let e = image_sync::scene(engine, bus, now);
            &&& e.state == engine.state && e.params == engine.image_params
            &&& e.level == engine.brightness && e.connected == engine.connected
            &&& e.bus == bus && e.now == now
        }),
{
}

/// A step of the code that comes out as stated leaves the session, the action, the
/// engine's state and the bus as stated, and all else of the engine alone.
pub proof fn steps_leave_nothing_open(
    out: Outcome,
    next: (ImageSync, ImageAction),
    before: engine::Engine,
    after: engine::Engine,
    bus: Bus,
)
    requires
        image_sync::matches_outcome(out, next, before, after, bus),
    ensures
        next.0 == out.sync && next.1 == out.action,
        bus == out.bus,
        after.state == out.state,
        after.tx == before.tx && after.image_params == before.image_params,
        after.audio_params == before.audio_params && after.brightness == before.brightness,
        after.connected == before.connected,
{
}

} // verus!
