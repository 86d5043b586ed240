//! The USB worker: the two-plane command bus, the session gate that discards
//! stale sync frames, and the worker that keeps the device present and turns
//! commands into reports.
//!
//! - The **control plane** carries everything except sync frames, reliably and
//!   in order. It is drained to exhaustion before any frame is serviced, so a
//!   manual command is never overtaken by a sync frame nor waits behind a
//!   backlog, and a stop's `SetSession` invalidates old frames before they
//!   could overwrite what the user just set.
//! - The **data plane** is a tiny bounded frame queue. Frames that it cannot
//!   take are dropped: only the freshest colors matter.
//!
//! The worker is a state machine: it is told what happened ([`UsbEvent`]) and
//! says what to do next ([`UsbAction`]).

use crate::usb_protocol;
use crate::usb_protocol::{RGBColor, Report, Transfer};
use std::collections::VecDeque;
use vstd::prelude::*;

verus! {

/// Depth of the bounded frame queue: about 130 ms of headroom at 30 fps against
/// a transiently busy writer. Beyond that the frames are stale anyway.
pub const FRAME_QUEUE: usize = 4;

#[derive(Debug, PartialEq)]
pub enum UsbCommand {
    /// Registers the active sync session: frames of other sessions are
    /// discarded.
    SetSession(u64),
    TurnOn,
    TurnOff,
    SetBrightness(u8),
    SetMode(u8),
    /// The chunk-count arm command alone, without a mode switch: re-asserted
    /// after the arming settle, right before frames resume.
    ArmSync(u8),
    SetStaticColor(u8, u8, u8, u8),
    /// Stores a slot color without switching modes.
    StoreStaticColor(u8, u8, u8, u8),
    /// A 48-color sync frame of a session; the flag selects the audio marker
    /// instead of the video one.
    SendColors(u64, [RGBColor; 48], bool),
    /// Immediate presence check: a device notification arrived.
    Probe,
    Stop,
    /// Wake token of the data plane: a control enqueue pushes one so that a
    /// worker waiting for frames drains the command immediately.
    Wake,
}

/// The worker's session bookkeeping. Registration is monotonic: a late
/// `SetSession` of a superseded stop can never regress the active session.
/// Only the registered session's frames pass.
#[derive(Clone, Copy, Debug, PartialEq, Eq, Structural)]
pub struct SessionGate {
    pub active: u64,
}

impl Default for SessionGate {
    fn default() -> (gate: Self)
        ensures
            gate.active == 0,
    {
        SessionGate { active: 0 }
    }
}

/// The session in force after registering `s`.
pub open spec fn registered(active: u64, s: u64) -> u64 {
    if s > active {
        s
    } else {
        active
    }
}

impl SessionGate {
    pub fn register(&mut self, s: u64)
        ensures
            final(self).active == registered(old(self).active, s),
    {
        if s > self.active {
            self.active = s;
        }
    }

    pub fn accepts(&self, frame_session: u64) -> (pass: bool)
        ensures
            pass == (frame_session == self.active),
    {
        frame_session == self.active
    }
}

/// What the command bus holds.
pub struct Bus {
    /// The control plane, oldest command first.
    pub ctrl: Seq<UsbCommand>,
    /// The data plane, oldest first: frames and wake tokens.
    pub frames: Seq<UsbCommand>,
    /// How many sending halves there are.
    pub senders: nat,
    /// Does the receiving half still take commands?
    pub open: bool,
}

/// Is `cmd` for the data plane?
pub open spec fn is_frame(cmd: UsbCommand) -> bool {
    cmd is SendColors
}

/// The bus after offering `cmd` to the data plane: dropped when it is full.
pub open spec fn offered(bus: Bus, cmd: UsbCommand) -> Bus {
    if bus.open && bus.frames.len() < FRAME_QUEUE {
        Bus { frames: bus.frames.push(cmd), ..bus }
    } else {
        bus
    }
}

/// The bus after a control command: queued behind all others, with a wake token
/// on the data plane where there is room for it.
pub open spec fn queued(bus: Bus, cmd: UsbCommand) -> Bus {
    offered(
        if bus.open {
            Bus { ctrl: bus.ctrl.push(cmd), ..bus }
        } else {
            bus
        },
        UsbCommand::Wake,
    )
}

/// The bus after handing it `cmd`: a frame goes to the lossy data plane,
/// everything else to the control plane.
pub open spec fn posted(bus: Bus, cmd: UsbCommand) -> Bus {
    if is_frame(cmd) {
        offered(bus, cmd)
    } else {
        queued(bus, cmd)
    }
}

/// The data plane behind its leading wake tokens.
pub open spec fn past_wakes(frames: Seq<UsbCommand>) -> Seq<UsbCommand>
    decreases frames.len(),
{
    if frames.len() > 0 && frames[0] is Wake {
        past_wakes(frames.skip(1))
    } else {
        frames
    }
}

/// What the worker services next, and the bus without it: the oldest control
/// command; `Done` when there is none and no sender is left; else the oldest
/// frame. With nothing to service, a cadence tick when the wait for it is over.
pub open spec fn received(bus: Bus, timed_out: bool) -> (Bus, Option<Recv>) {
    let frames = past_wakes(bus.frames);
    if bus.ctrl.len() > 0 {
        (Bus { ctrl: bus.ctrl.skip(1), ..bus }, Some(Recv::Cmd(bus.ctrl[0])))
    } else if bus.senders == 0 {
        (bus, Some(Recv::Done))
    } else if frames.len() > 0 {
        (Bus { frames: frames.skip(1), ..bus }, Some(Recv::Cmd(frames[0])))
    } else if timed_out {
        (Bus { frames, ..bus }, Some(Recv::Tick))
    } else {
        (Bus { frames, ..bus }, None)
    }
}

/// A sending half of the command bus. Any number of them send into the same
/// [`CommandRx`].
pub struct CommandTx {
    depth: usize,
}

/// The receiving half, which holds both planes.
pub struct CommandRx {
    ctrl: VecDeque<UsbCommand>,
    frames: VecDeque<UsbCommand>,
    senders: usize,
    open: bool,
}

impl View for CommandRx {
    type V = Bus;

    closed spec fn view(&self) -> Bus {
        Bus {
            ctrl: self.ctrl@,
            frames: self.frames@,
            senders: self.senders as nat,
            open: self.open,
        }
    }
}

impl CommandTx {
    /// A sending half of a bus with the queue depth above.
    pub closed spec fn wf(&self) -> bool {
        self.depth == FRAME_QUEUE
    }
}

/// Creates the command bus: an empty control plane, an empty data plane and one
/// sending half.
pub fn command_bus() -> (bus: (CommandTx, CommandRx))
    ensures
        bus.0.wf(),
        bus.1@ == (Bus { ctrl: Seq::empty(), frames: Seq::empty(), senders: 1, open: true }),
{
    (
        CommandTx { depth: FRAME_QUEUE },
        CommandRx { ctrl: VecDeque::new(), frames: VecDeque::new(), senders: 1, open: true },
    )
}

impl CommandTx {
    /// Enqueues a control command, in order and without blocking. A frame
    /// handed here goes to the lossy data plane. Returns false only when the
    /// command was not queued because the receiving half is closed.
    pub fn control(&self, rx: &mut CommandRx, cmd: UsbCommand) -> (sent: bool)
        requires
            self.wf(),
        ensures
            final(rx)@ == posted(old(rx)@, cmd),
            sent == (is_frame(cmd) || old(rx)@.open),
    {
        match cmd {
            UsbCommand::SendColors(session, colors, audio) => {
                self.frame(rx, session, colors, audio);
                true
            },
            cmd => {
                if rx.open {
                    rx.ctrl.push_back(cmd);
                }
                self.offer(rx, UsbCommand::Wake);
                rx.open
            },
        }
    }

    /// Offers one sync frame to the data plane: dropped when the writer is
    /// backed up. Returns whether the frame was queued.
    pub fn frame(
        &self,
        rx: &mut CommandRx,
        session: u64,
        colors: [RGBColor; 48],
        audio: bool,
    ) -> (sent: bool)
        requires
            self.wf(),
        ensures
            final(rx)@ == offered(old(rx)@, UsbCommand::SendColors(session, colors, audio)),
            sent == (old(rx)@.open && old(rx)@.frames.len() < FRAME_QUEUE),
    {
        self.offer(rx, UsbCommand::SendColors(session, colors, audio))
    }

    fn offer(&self, rx: &mut CommandRx, cmd: UsbCommand) -> (sent: bool)
        requires
            self.wf(),
        ensures
            final(rx)@ == offered(old(rx)@, cmd),
            sent == (old(rx)@.open && old(rx)@.frames.len() < FRAME_QUEUE),
    {
        if rx.open && rx.frames.len() < self.depth {
            rx.frames.push_back(cmd);
            true
        } else {
            false
        }
    }

    /// Another sending half of the same bus.
    pub fn duplicate(&self, rx: &mut CommandRx) -> (tx: CommandTx)
        requires
            self.wf(),
            old(rx)@.senders < usize::MAX,
        ensures
            tx.wf(),
            final(rx)@ == (Bus { senders: old(rx)@.senders + 1, ..old(rx)@ }),
    {
        rx.senders = rx.senders + 1;
        CommandTx { depth: self.depth }
    }

    /// Gives a sending half up.
    pub fn release(self, rx: &mut CommandRx)
        requires
            old(rx)@.senders > 0,
        ensures
            final(rx)@ == (Bus { senders: (old(rx)@.senders - 1) as nat, ..old(rx)@ }),
    {
        rx.senders = rx.senders - 1;
    }
}

/// What the worker should service.
#[derive(Debug, PartialEq)]
pub enum Recv {
    /// A command of either plane.
    Cmd(UsbCommand),
    /// Nothing arrived for one cadence tick: run the periodic maintenance.
    Tick,
    /// Every sender is gone: the process is shutting down.
    Done,
}

impl CommandRx {
    /// Takes the oldest command off the control plane.
    pub fn take_control(&mut self) -> (cmd: Option<UsbCommand>)
        ensures
            cmd == (if old(self)@.ctrl.len() > 0 {
                Some(old(self)@.ctrl[0])
            } else {
                None
            }),
            final(self)@ == (if old(self)@.ctrl.len() > 0 {
                Bus { ctrl: old(self)@.ctrl.skip(1), ..old(self)@ }
            } else {
                old(self)@
            }),
    {
        let cmd = self.ctrl.pop_front();
        assert(old(self)@.ctrl.len() > 0 ==> self@.ctrl =~= old(self)@.ctrl.skip(1));
        cmd
    }

    /// Takes the oldest message off the data plane.
    pub fn take_frame(&mut self) -> (cmd: Option<UsbCommand>)
        ensures
            cmd == (if old(self)@.frames.len() > 0 {
                Some(old(self)@.frames[0])
            } else {
                None
            }),
            final(self)@ == (if old(self)@.frames.len() > 0 {
                Bus { frames: old(self)@.frames.skip(1), ..old(self)@ }
            } else {
                old(self)@
            }),
    {
        let cmd = self.frames.pop_front();
        assert(old(self)@.frames.len() > 0 ==> self@.frames =~= old(self)@.frames.skip(1));
        cmd
    }

    /// Does the bus still take commands?
    pub fn is_open(&self) -> (yes: bool)
        ensures
            yes == self@.open,
    {
        self.open
    }

    /// Takes no more commands: the worker is gone.
    pub fn close(&mut self)
        ensures
            final(self)@ == (Bus { open: false, ..old(self)@ }),
    {
        self.open = false;
    }
}

/// The worker's receive step, the whole scheduling policy of the bus: the
/// control plane first, whatever the data plane holds. `None` asks to wait, for
/// a command to arrive or for the cadence to pass; `timed_out` says that the
/// cadence has passed.
pub fn recv_next(rx: &mut CommandRx, timed_out: bool) -> (next: Option<Recv>)
    ensures
        (final(rx)@, next) == received(old(rx)@, timed_out),
{
    if let Some(cmd) = rx.take_control() {
        return Some(Recv::Cmd(cmd));
    }
    if rx.senders == 0 {
        return Some(Recv::Done);
    }
    let ghost start = rx@;
    loop
        invariant
            start.ctrl.len() == 0,
            start.senders > 0,
            past_wakes(rx@.frames) == past_wakes(start.frames),
            rx@ == (Bus { frames: rx@.frames, ..start }),
            old(rx)@ == start,
        decreases rx@.frames.len(),
    {
        let ghost before = rx@.frames;
        match rx.take_frame() {
            Some(UsbCommand::Wake) => {
                assert(past_wakes(before) == past_wakes(before.skip(1)));
            },
            Some(cmd) => {
                return Some(Recv::Cmd(cmd));
            },
            None => {
                return if timed_out {
                    Some(Recv::Tick)
                } else {
                    None
                };
            },
        }
    }
}

/// One thing that happens to the bus: a sender posts a command, or the worker
/// services one.
pub enum Move {
    Post(UsbCommand),
    Service,
}

/// The bus, the worker's session gate, and what the worker has serviced: each
/// command with the session in force when it was executed.
pub struct Trace {
    pub bus: Bus,
    pub active: u64,
    pub log: Seq<(UsbCommand, u64)>,
}

/// The session in force once `cmd` is serviced.
pub open spec fn active_after(active: u64, cmd: UsbCommand) -> u64 {
    match cmd {
        UsbCommand::SetSession(s) => registered(active, s),
        _ => active,
    }
}

/// The trace after one more move.
pub open spec fn moved(t: Trace, m: Move) -> Trace {
    match m {
        Move::Post(cmd) => Trace { bus: posted(t.bus, cmd), ..t },
        Move::Service => {
            let (bus, next) = received(t.bus, false);
            match next {
                Some(Recv::Cmd(cmd)) => {
                    let active = active_after(t.active, cmd);
                    Trace { bus, active, log: t.log.push((cmd, active)) }
                },
                _ => Trace { bus, ..t },
            }
        },
    }
}

/// The trace after a sequence of moves.
pub open spec fn run(t: Trace, moves: Seq<Move>) -> Trace
    decreases moves.len(),
{
    if moves.len() == 0 {
        t
    } else {
        moved(run(t, moves.drop_last()), moves.last())
    }
}

/// The control commands that the moves post, in order.
pub open spec fn controls_posted(moves: Seq<Move>) -> Seq<UsbCommand>
    decreases moves.len(),
{
    if moves.len() == 0 {
        Seq::empty()
    } else {
        match moves.last() {
            Move::Post(cmd) if !is_frame(cmd) => controls_posted(moves.drop_last()).push(cmd),
            _ => controls_posted(moves.drop_last()),
        }
    }
}

/// The control commands of a log, in order.
pub open spec fn controls_served(log: Seq<(UsbCommand, u64)>) -> Seq<UsbCommand>
    decreases log.len(),
{
    if log.len() == 0 {
        Seq::empty()
    } else if is_frame(log.last().0) {
        controls_served(log.drop_last())
    } else {
        controls_served(log.drop_last()).push(log.last().0)
    }
}

/// No frame on the control plane, nothing but frames and wake tokens on the
/// data plane. Holds of a new bus, and of what any sender makes of one.
pub open spec fn sorted_planes(bus: Bus) -> bool {
    &&& forall|i: int| 0 <= i < bus.ctrl.len() ==> !is_frame(#[trigger] bus.ctrl[i])
    &&& forall|i: int|
        0 <= i < bus.frames.len() ==> is_frame(#[trigger] bus.frames[i]) || bus.frames[i] is Wake
    &&& bus.frames.len() <= FRAME_QUEUE
}

proof fn lemma_past_wakes(frames: Seq<UsbCommand>)
    ensures
        past_wakes(frames).len() <= frames.len(),
        past_wakes(frames) == frames.skip(frames.len() - past_wakes(frames).len()),
        past_wakes(frames).len() > 0 ==> !(past_wakes(frames)[0] is Wake),
    decreases frames.len(),
{
    if frames.len() > 0 && frames[0] is Wake {
        lemma_past_wakes(frames.skip(1));
        let n = past_wakes(frames).len();
        assert(frames.skip(1).skip(frames.len() - 1 - n) =~= frames.skip(frames.len() - n));
    } else {
        assert(frames.skip(0) =~= frames);
    }
}

proof fn lemma_planes_stay_sorted(t: Trace, m: Move)
    requires
        sorted_planes(t.bus),
    ensures
        sorted_planes(moved(t, m).bus),
        moved(t, m).bus.open == t.bus.open,
{
    lemma_past_wakes(t.bus.frames);
}

/// Whatever the senders and the worker do, frames and commands stay on their
/// planes and the data plane holds at most [`FRAME_QUEUE`] messages.
pub proof fn planes_stay_sorted(t: Trace, moves: Seq<Move>)
    requires
        sorted_planes(t.bus),
    ensures
        sorted_planes(run(t, moves).bus),
        run(t, moves).bus.open == t.bus.open,
    decreases moves.len(),
{
    if moves.len() > 0 {
        planes_stay_sorted(t, moves.drop_last());
        lemma_planes_stay_sorted(run(t, moves.drop_last()), moves.last());
    }
}

/// A frame is serviced only when no control command is waiting.
pub proof fn control_precedes_frames(bus: Bus, timed_out: bool)
    requires
        sorted_planes(bus),
        received(bus, timed_out).1 matches Some(Recv::Cmd(cmd)) && is_frame(cmd),
    ensures
        bus.ctrl.len() == 0,
{
}

/// A control command finds the worker awake: behind it there is always
/// something on the data plane, the only place where the worker waits, and the
/// worker's next step services a command.
pub proof fn control_wakes_the_worker(bus: Bus, cmd: UsbCommand, timed_out: bool)
    requires
        bus.open,
        !is_frame(cmd),
    ensures
        posted(bus, cmd).frames.len() > 0,
        received(posted(bus, cmd), timed_out).1 is Some,
        received(posted(bus, cmd), timed_out).1->0 is Cmd,
{
}

/// The control plane loses nothing and keeps its order: what was serviced of
/// it, followed by what still waits, is what was posted to it.
pub proof fn control_plane_is_ordered(t: Trace, moves: Seq<Move>)
    requires
        sorted_planes(t.bus),
        t.bus.open,
    ensures
        controls_served(run(t, moves).log) + run(t, moves).bus.ctrl == controls_served(t.log)
            + t.bus.ctrl + controls_posted(moves),
    decreases moves.len(),
{
    if moves.len() == 0 {
        assert(controls_served(t.log) + t.bus.ctrl + controls_posted(moves) =~= controls_served(
            t.log,
        ) + t.bus.ctrl);
    } else {
        let u = run(t, moves.drop_last());
        let v = run(t, moves);
        control_plane_is_ordered(t, moves.drop_last());
        planes_stay_sorted(t, moves.drop_last());
        let sent = controls_served(t.log) + t.bus.ctrl + controls_posted(moves.drop_last());
        match moves.last() {
            Move::Post(cmd) => {
                if !is_frame(cmd) {
                    assert(controls_served(v.log) + v.bus.ctrl =~= (controls_served(u.log)
                        + u.bus.ctrl).push(cmd));
                    assert(controls_served(t.log) + t.bus.ctrl + controls_posted(moves)
                        =~= sent.push(cmd));
                }
            },
            Move::Service => {
                lemma_past_wakes(u.bus.frames);
                if u.bus.ctrl.len() > 0 {
                    assert(v.log.drop_last() =~= u.log);
                    assert(controls_served(v.log) + v.bus.ctrl =~= controls_served(u.log)
                        + u.bus.ctrl);
                } else if u.bus.senders > 0 && past_wakes(u.bus.frames).len() > 0 {
                    assert(v.log.drop_last() =~= u.log);
                    assert(controls_served(v.log) =~= controls_served(u.log));
                }
            },
        }
    }
}

/// The session in force never goes back, and is never older than a session that
/// was registered before.
pub proof fn gate_is_monotonic(t: Trace, moves: Seq<Move>)
    requires
        t.log.len() == 0,
    ensures
        run(t, moves).active >= t.active,
        forall|p: int, q: int|
            0 <= p <= q < run(t, moves).log.len() ==> (#[trigger] run(t, moves).log[p]).1 <= (
            #[trigger] run(t, moves).log[q]).1,
        forall|p: int|
            0 <= p < run(t, moves).log.len() ==> (#[trigger] run(t, moves).log[p]).1 <= run(
                t,
                moves,
            ).active,
        forall|p: int|
            0 <= p < run(t, moves).log.len() ==> ((#[trigger] run(
                t,
                moves,
            ).log[p]).0 matches UsbCommand::SetSession(d) ==> run(t, moves).log[p].1 >= d),
    decreases moves.len(),
{
    if moves.len() > 0 {
        gate_is_monotonic(t, moves.drop_last());
    }
}

proof fn lemma_served_came_from_log(log: Seq<(UsbCommand, u64)>, i: int) -> (p: int)
    requires
        0 <= i < controls_served(log).len(),
    ensures
        0 <= p < log.len(),
        log[p].0 == controls_served(log)[i],
    decreases log.len(),
{
    let shorter = controls_served(log.drop_last());
    if i < shorter.len() {
        lemma_served_came_from_log(log.drop_last(), i)
    } else {
        log.len() - 1
    }
}

proof fn lemma_served_of_prefix(log: Seq<(UsbCommand, u64)>, q: int)
    requires
        0 <= q <= log.len(),
    ensures
        controls_served(log.take(q)).len() <= controls_served(log).len(),
        controls_served(log).take(controls_served(log.take(q)).len() as int) == controls_served(
            log.take(q),
        ),
    decreases log.len(),
{
    if q == log.len() {
        assert(log.take(q) =~= log);
        assert(controls_served(log).take(controls_served(log).len() as int) =~= controls_served(
            log,
        ));
    } else {
        lemma_served_of_prefix(log.drop_last(), q);
        assert(log.drop_last().take(q) =~= log.take(q));
        let n = controls_served(log.take(q)).len() as int;
        assert(controls_served(log).take(n) =~= controls_served(log.drop_last()).take(n));
    }
}

/// The guarantee that the bus exists for. A stop posts `SetSession(dead)` and
/// then a manual command; whatever frames of older sessions are queued by then,
/// or still arrive, and however slowly the worker drains the bus: once the
/// manual command was serviced, no frame of a session older than `dead` passes
/// the session check.
pub proof fn stopped_frames_never_follow_a_manual_command(
    t: Trace,
    moves: Seq<Move>,
    stop: int,
    manual: int,
    dead: u64,
    q: int,
)
    requires
        sorted_planes(t.bus),
        t.bus.open,
        t.log.len() == 0,
        0 <= stop < manual < (t.bus.ctrl + controls_posted(moves)).len(),
        (t.bus.ctrl + controls_posted(moves))[stop] == UsbCommand::SetSession(dead),
        0 <= q < run(t, moves).log.len(),
        controls_served(run(t, moves).log.take(q)).len() > manual,
    ensures
        run(t, moves).log[q].0 matches UsbCommand::SendColors(s, _, _) ==> (run(
            t,
            moves,
        ).log[q].1 == s ==> s >= dead),
{
    let end = run(t, moves);
    control_plane_is_ordered(t, moves);
    gate_is_monotonic(t, moves);
    lemma_served_of_prefix(end.log, q);
    let sent = t.bus.ctrl + controls_posted(moves);
    assert(controls_served(t.log) + t.bus.ctrl + controls_posted(moves) =~= sent);
    let served = controls_served(end.log.take(q));
    assert(served[stop] == controls_served(end.log)[stop]);
    assert(served[stop] == (controls_served(end.log) + end.bus.ctrl)[stop]);
    let p = lemma_served_came_from_log(end.log.take(q), stop);
    assert(end.log[p].0 == UsbCommand::SetSession(dead));
}

/// Fallback cadence of reconnect attempts while the monitor is missing, in
/// milliseconds.
pub const RECONNECT_EVERY: u64 = 2000;

/// Fallback cadence of the presence probe while connected, in milliseconds.
pub const PRESENCE_PROBE_EVERY: u64 = 120000;

/// Consecutive write failures before the device handle is dropped.
pub const MAX_FAILS: u32 = 5;

pub const LG_VID: u16 = 0x043E;

/// Vendor usage page of the lighting interface.
pub const USAGE_PAGE: u16 = 0xFF01;

/// What the HID enumeration says of a device.
#[derive(Clone, Copy, Debug, PartialEq, Eq, Structural)]
pub struct HidInfo {
    pub vendor_id: u16,
    pub product_id: u16,
    pub usage_page: u16,
}

/// 0x9A8A: 27GN950/38GN950, on the lighting usage page or on none. 0x9A57:
/// 38GL950G.
pub open spec fn is_monitor(d: HidInfo) -> bool {
    &&& d.vendor_id == LG_VID
    &&& {
        ||| d.product_id == 0x9A8A && (d.usage_page == USAGE_PAGE || d.usage_page == 0)
        ||| d.product_id == 0x9A57
    }
}

pub fn matches_monitor(d: &HidInfo) -> (yes: bool)
    ensures
        yes == is_monitor(*d),
{
    d.vendor_id == LG_VID && match d.product_id {
        0x9A8A => d.usage_page == USAGE_PAGE || d.usage_page == 0,
        0x9A57 => true,
        _ => false,
    }
}

/// Which device of the enumeration to open: the first that is the monitor.
pub fn open_monitor(devices: &[HidInfo]) -> (found: Option<usize>)
    ensures
        match found {
            Some(i) => {
                &&& i < devices@.len()
                &&& is_monitor(devices@[i as int])
                &&& forall|j: int| 0 <= j < i ==> !is_monitor(#[trigger] devices@[j])
            },
            None => forall|j: int| 0 <= j < devices@.len() ==> !is_monitor(#[trigger] devices@[j]),
        },
{
    let mut i: usize = 0;
    while i < devices.len()
        invariant
            i <= devices@.len(),
            forall|j: int| 0 <= j < i ==> !is_monitor(#[trigger] devices@[j]),
        decreases devices@.len() - i,
    {
        if matches_monitor(&devices[i]) {
            return Some(i);
        }
        i = i + 1;
    }
    None
}

/// The payloads that a command puts on the wire. A frame of a stopped or
/// superseded session is discarded; bookkeeping commands write nothing.
pub open spec fn payloads_of(cmd: UsbCommand, active: u64) -> Seq<Seq<u8>> {
    match cmd {
        UsbCommand::SendColors(s, colors, audio) => if s == active {
            seq![usb_protocol::sync_payload(colors@, audio)]
        } else {
            Seq::empty()
        },
        UsbCommand::TurnOn => seq![usb_protocol::turn_on_payload()],
        UsbCommand::TurnOff => seq![usb_protocol::turn_off_payload()],
        UsbCommand::SetBrightness(level) => seq![usb_protocol::brightness_payload(level)],
        UsbCommand::SetMode(mode) => usb_protocol::mode_payloads(mode),
        UsbCommand::ArmSync(mode) => seq![usb_protocol::arm_payload(mode)],
        UsbCommand::SetStaticColor(slot, r, g, b) => seq![
            usb_protocol::static_color_payload(slot, r, g, b),
        ] + usb_protocol::mode_payloads(slot),
        UsbCommand::StoreStaticColor(slot, r, g, b) => seq![
            usb_protocol::static_color_payload(slot, r, g, b),
        ],
        UsbCommand::SetSession(_)
        | UsbCommand::Probe
        | UsbCommand::Stop
        | UsbCommand::Wake => Seq::empty(),
    }
}

/// The reports that a command puts on the wire.
pub open spec fn wire(cmd: UsbCommand, active: u64) -> Seq<Seq<u8>> {
    usb_protocol::all_reports(payloads_of(cmd, active))
}

/// The reports to write for a command.
pub fn execute(cmd: &UsbCommand, session: &SessionGate) -> (list: Vec<Report>)
    ensures
        usb_protocol::contents(list@) == wire(*cmd, session.active),
{
    match cmd {
        UsbCommand::SendColors(s, colors, audio) => {
            if session.accepts(*s) {
                usb_protocol::send_sync_colors(colors, *audio)
            } else {
                no_reports()
            }
        },
        UsbCommand::TurnOn => usb_protocol::turn_on(),
        UsbCommand::TurnOff => usb_protocol::turn_off(),
        UsbCommand::SetBrightness(level) => usb_protocol::set_brightness(*level),
        UsbCommand::SetMode(mode) => usb_protocol::set_mode(*mode),
        UsbCommand::ArmSync(mode) => usb_protocol::arm_sync(*mode),
        UsbCommand::SetStaticColor(slot, r, g, b) => {
            usb_protocol::set_static_color(*slot, *r, *g, *b)
        },
        UsbCommand::StoreStaticColor(slot, r, g, b) => {
            usb_protocol::store_static_color(*slot, *r, *g, *b)
        },
        UsbCommand::SetSession(_)
        | UsbCommand::Probe
        | UsbCommand::Stop
        | UsbCommand::Wake => no_reports(),
    }
}

fn no_reports() -> (list: Vec<Report>)
    ensures
        usb_protocol::contents(list@) == usb_protocol::all_reports(Seq::empty()),
{
    let list: Vec<Report> = Vec::new();
    assert(usb_protocol::contents(list@) =~= usb_protocol::all_reports(Seq::empty()));
    list
}

/// The worker's connection: what it holds open and when it last tried. Times
/// are milliseconds of a monotonic clock.
#[derive(Clone, Copy, Debug, PartialEq, Eq, Structural)]
pub struct Link {
    /// Is the HID interface initialised?
    pub api: bool,
    /// Is the monitor open?
    pub device: bool,
    /// Consecutive failed commands.
    pub fails: u32,
    pub session: SessionGate,
    pub last_attempt: u64,
    pub last_probe: u64,
    /// The connection state that the rest of the application sees.
    pub connected: bool,
}

/// What maintenance needs done outside.
#[derive(Clone, Copy, Debug, PartialEq, Eq, Structural)]
pub enum Upkeep {
    Nothing,
    InitApi,
    Reopen,
    Probe,
}

pub open spec fn elapsed(since: u64, now: u64) -> int {
    if now >= since {
        now - since
    } else {
        0
    }
}

fn passed(since: u64, now: u64, span: u64) -> (yes: bool)
    ensures
        yes == (elapsed(since, now) >= span),
{
    if now >= since {
        now - since >= span
    } else {
        span == 0
    }
}

/// May a reconnect be attempted?
pub open spec fn may_attempt(link: Link, now: u64, force: bool) -> bool {
    force || elapsed(link.last_attempt, now) >= RECONNECT_EVERY
}

/// May the presence be probed?
pub open spec fn may_probe(link: Link, now: u64, force: bool) -> bool {
    force || elapsed(link.last_probe, now) >= PRESENCE_PROBE_EVERY
}

/// The maintenance that is due: initialise the interface, else reopen the
/// device, both at most once per [`RECONNECT_EVERY`]; while connected, probe
/// the presence once per [`PRESENCE_PROBE_EVERY`]. `force` bypasses the pacing.
pub open spec fn upkeep(link: Link, now: u64, force: bool) -> (Link, Upkeep) {
    if !link.device {
        if !may_attempt(link, now, force) {
            (link, Upkeep::Nothing)
        } else if !link.api {
            (Link { last_attempt: now, ..link }, Upkeep::InitApi)
        } else {
            (Link { last_attempt: now, ..link }, Upkeep::Reopen)
        }
    } else if may_probe(link, now, force) {
        (Link { last_probe: now, ..link }, Upkeep::Probe)
    } else {
        (link, Upkeep::Nothing)
    }
}

/// The link once the device is known to be there or not.
pub open spec fn published(link: Link, present: bool) -> Link {
    Link { device: present, connected: present, ..link }
}

/// The link after a command was written: [`MAX_FAILS`] failures in a row drop
/// the device.
pub open spec fn after_write(link: Link, ok: bool) -> Link {
    if ok {
        Link { fails: 0, ..link }
    } else if link.fails + 1 >= MAX_FAILS {
        Link { fails: 0, ..published(link, false) }
    } else {
        Link { fails: (link.fails + 1) as u32, ..link }
    }
}

impl Link {
    /// The published state is the device's; a device needs the interface.
    pub open spec fn wf(&self) -> bool {
        &&& self.connected == self.device
        &&& self.device ==> self.api
        &&& self.fails < MAX_FAILS
    }

    /// What maintenance is due.
    pub fn maintain(&mut self, now: u64, force: bool) -> (task: Upkeep)
        requires
            old(self).wf(),
        ensures
            (*final(self), task) == upkeep(*old(self), now, force),
            final(self).wf(),
    {
        if !self.api {
            if !force && !passed(self.last_attempt, now, RECONNECT_EVERY) {
                return Upkeep::Nothing;
            }
            self.last_attempt = now;
            return Upkeep::InitApi;
        }
        if !self.device {
            if !force && !passed(self.last_attempt, now, RECONNECT_EVERY) {
                return Upkeep::Nothing;
            }
            self.last_attempt = now;
            return Upkeep::Reopen;
        }
        if force || passed(self.last_probe, now, PRESENCE_PROBE_EVERY) {
            self.last_probe = now;
            return Upkeep::Probe;
        }
        Upkeep::Nothing
    }

    /// Publishes the connection state. Returns whether it changed.
    pub fn publish_state(&mut self, is_connected: bool) -> (changed: bool)
        ensures
            *final(self) == published(*old(self), is_connected),
            changed == (old(self).connected != is_connected),
    {
        let prev = self.connected;
        self.connected = is_connected;
        self.device = is_connected;
        prev != is_connected
    }

    /// Accounts for a written command. Returns whether the connection state
    /// changed.
    pub fn on_write(&mut self, ok: bool) -> (changed: bool)
        requires
            old(self).wf(),
        ensures
            *final(self) == after_write(*old(self), ok),
            changed == (final(self).connected != old(self).connected),
            old(self).device || ok ==> final(self).wf(),
    {
        if ok {
            self.fails = 0;
            false
        } else {
            self.fails = self.fails + 1;
            if self.fails >= MAX_FAILS {
                self.fails = 0;
                self.publish_state(false)
            } else {
                false
            }
        }
    }
}

/// What the worker is doing.
pub enum UsbPhase {
    /// Waiting for the bus.
    Receiving,
    /// Initialising the HID interface, with a command waiting for a device.
    Initializing { force: bool, waiting: Option<UsbCommand> },
    /// Enumerating and opening the monitor.
    Reopening { waiting: Option<UsbCommand> },
    /// Enumerating to see whether the monitor is still there.
    Probing,
    /// Writing a command's reports.
    Writing(Transfer),
    Stopped,
}

/// What the worker is doing, with a transfer seen as the reports that are still
/// to be written.
pub enum Phase {
    Receiving,
    Initializing { force: bool, waiting: Option<UsbCommand> },
    Reopening { waiting: Option<UsbCommand> },
    Probing,
    Writing { rest: Seq<Seq<u8>> },
    Stopped,
}

/// What happened.
pub enum UsbEvent {
    /// The bus gave something to service.
    Received(Recv),
    /// The HID interface was initialised, or not.
    ApiReady(bool),
    /// The device list was refreshed and the monitor opened, or not.
    Opened(bool),
    /// The device list was refreshed and holds the monitor, or not.
    Present(bool),
    /// A report was written, or not.
    Wrote(bool),
}

/// What to do next.
pub enum UsbAction {
    /// Take the next message off the bus, waiting this many milliseconds.
    Receive(u64),
    InitApi,
    Reopen,
    CheckPresence,
    Write(Report),
    Exit,
}

pub struct UsbWorker {
    link: Link,
    phase: UsbPhase,
}

/// A worker's state.
pub struct WorkerState {
    pub link: Link,
    pub phase: Phase,
}

/// The wait for the bus carries the maintenance cadence as its timeout.
pub open spec fn tick_of(link: Link) -> u64 {
    if link.device {
        PRESENCE_PROBE_EVERY
    } else {
        RECONNECT_EVERY
    }
}

/// A worker that takes a command up: nothing without a device, else its
/// reports are written; a command without any counts as written.
pub open spec fn attempt(link: Link, cmd: Option<UsbCommand>) -> WorkerState {
    match cmd {
        Some(c) if link.device => if wire(c, link.session.active).len() == 0 {
            WorkerState { link: after_write(link, true), phase: Phase::Receiving }
        } else {
            WorkerState { link, phase: Phase::Writing { rest: wire(c, link.session.active) } }
        },
        _ => WorkerState { link, phase: Phase::Receiving },
    }
}

/// A worker that runs the maintenance that is due, with a command waiting for
/// its outcome.
pub open spec fn maintained(
    link: Link,
    now: u64,
    force: bool,
    waiting: Option<UsbCommand>,
) -> WorkerState {
    let (link, task) = upkeep(link, now, force);
    match task {
        Upkeep::Nothing => WorkerState { link, phase: Phase::Receiving },
        Upkeep::InitApi => WorkerState { link, phase: Phase::Initializing { force, waiting } },
        Upkeep::Reopen => WorkerState { link, phase: Phase::Reopening { waiting } },
        Upkeep::Probe => WorkerState { link, phase: Phase::Probing },
    }
}

/// A worker that services what the bus gave it.
pub open spec fn serviced(link: Link, recv: Recv, now: u64) -> WorkerState {
    match recv {
        Recv::Done | Recv::Cmd(UsbCommand::Stop) => WorkerState { link, phase: Phase::Stopped },
        Recv::Tick => maintained(link, now, false, None),
        Recv::Cmd(UsbCommand::Probe) => maintained(link, now, true, None),
        Recv::Cmd(UsbCommand::SetSession(s)) => WorkerState {
            link: Link {
                session: SessionGate { active: registered(link.session.active, s) },
                ..link
            },
            phase: Phase::Receiving,
        },
        Recv::Cmd(cmd) => if link.device {
            attempt(link, Some(cmd))
        } else {
            maintained(link, now, false, Some(cmd))
        },
    }
}

/// The worker after an event. An event that its phase does not wait for changes
/// nothing.
pub open spec fn worker_after(w: WorkerState, event: UsbEvent, now: u64) -> WorkerState {
    match (w.phase, event) {
        (Phase::Receiving, UsbEvent::Received(recv)) => serviced(w.link, recv, now),
        (Phase::Initializing { force, waiting }, UsbEvent::ApiReady(ok)) => if ok {
            maintained(Link { api: true, ..w.link }, now, force, waiting)
        } else {
            WorkerState { phase: Phase::Receiving, ..w }
        },
        (Phase::Reopening { waiting }, UsbEvent::Opened(found)) => attempt(
            published(w.link, found),
            waiting,
        ),
        (Phase::Probing, UsbEvent::Present(there)) => WorkerState {
            link: published(w.link, there),
            phase: Phase::Receiving,
        },
        (Phase::Writing { rest }, UsbEvent::Wrote(ok)) => if ok && rest.len() > 1 {
            WorkerState { phase: Phase::Writing { rest: rest.skip(1) }, ..w }
        } else {
            WorkerState { link: after_write(w.link, ok), phase: Phase::Receiving }
        },
        _ => w,
    }
}

impl WorkerState {
    /// The link is sound, and each phase finds what it works on.
    pub open spec fn wf(&self) -> bool {
        &&& self.link.wf()
        &&& match self.phase {
            Phase::Initializing { .. } => !self.link.api,
            Phase::Reopening { .. } => self.link.api && !self.link.device,
            Phase::Probing => self.link.device,
            Phase::Writing { rest } => self.link.device && rest.len() > 0,
            _ => true,
        }
    }
}

impl View for UsbPhase {
    type V = Phase;

    open spec fn view(&self) -> Phase {
        match *self {
            UsbPhase::Receiving => Phase::Receiving,
            UsbPhase::Initializing { force, waiting } => Phase::Initializing { force, waiting },
            UsbPhase::Reopening { waiting } => Phase::Reopening { waiting },
            UsbPhase::Probing => Phase::Probing,
            UsbPhase::Writing(t) => Phase::Writing {
                rest: usb_protocol::contents(t.all().skip(t.written())),
            },
            UsbPhase::Stopped => Phase::Stopped,
        }
    }
}

impl View for UsbWorker {
    type V = WorkerState;

    closed spec fn view(&self) -> WorkerState {
        WorkerState { link: self.link, phase: self.phase@ }
    }
}

/// A worker right after the first enumeration.
pub open spec fn first_state(api: bool, found: bool, now: u64) -> WorkerState {
    WorkerState {
        link: Link {
            api,
            device: found,
            fails: 0,
            session: SessionGate { active: 0 },
            last_attempt: now,
            last_probe: now,
            connected: found,
        },
        phase: Phase::Receiving,
    }
}

impl UsbWorker {
    pub closed spec fn wf(&self) -> bool {
        &&& self@.wf()
        &&& self.phase matches UsbPhase::Writing(t) ==> t.wf() && !t.broken()
    }

    /// The worker after the first enumeration. The initial publish is silent:
    /// at startup the UI is still building. Second result: whether the UI gets
    /// the repaint-only event, which is when the monitor was found.
    pub fn start(api: bool, found: bool, now: u64) -> (start: (UsbWorker, bool))
        requires
            found ==> api,
        ensures
            start.0.wf(),
            start.0@ == first_state(api, found, now),
            start.0@ == (WorkerState {
                link: Link {
                    api,
                    device: found,
                    fails: 0,
                    session: SessionGate { active: 0 },
                    last_attempt: now,
                    last_probe: now,
                    connected: found,
                },
                phase: Phase::Receiving,
            }),
            start.1 == found,
    {
        let mut link = Link {
            api,
            device: found,
            fails: 0,
            session: SessionGate::default(),
            last_attempt: now,
            last_probe: now,
            connected: false,
        };
        link.publish_state(found);
        (UsbWorker { link, phase: UsbPhase::Receiving }, found)
    }

    /// The connection state that the rest of the application sees.
    pub fn connected(&self) -> (yes: bool)
        ensures
            yes == self@.link.connected,
    {
        self.link.connected
    }

    /// What to do next.
    pub fn action(&self) -> (action: UsbAction)
        requires
            self.wf(),
        ensures
            match self@.phase {
                Phase::Receiving => action == UsbAction::Receive(tick_of(self@.link)) && action
                    == UsbAction::Receive(
                    if self@.link.device {
                        120000
                    } else {
                        2000
                    },
                ),
                Phase::Initializing { .. } => action is InitApi,
                Phase::Reopening { .. } => action is Reopen,
                Phase::Probing => action is CheckPresence,
                Phase::Writing { rest } => action matches UsbAction::Write(r) && r@ == rest[0],
                Phase::Stopped => action is Exit,
            },
    {
        match &self.phase {
            UsbPhase::Receiving => if self.link.device {
                UsbAction::Receive(PRESENCE_PROBE_EVERY)
            } else {
                UsbAction::Receive(RECONNECT_EVERY)
            },
            UsbPhase::Initializing { .. } => UsbAction::InitApi,
            UsbPhase::Reopening { .. } => UsbAction::Reopen,
            UsbPhase::Probing => UsbAction::CheckPresence,
            UsbPhase::Writing(t) => match t.pending() {
                Some(report) => UsbAction::Write(report),
                None => UsbAction::Exit,
            },
            UsbPhase::Stopped => UsbAction::Exit,
        }
    }

    /// The worker after an event, and whether the connection state changed: the
    /// UI is told of every change.
    pub fn step(self, event: UsbEvent, now: u64) -> (next: (UsbWorker, bool))
        requires
            self.wf(),
        ensures
            next.0.wf(),
            next.0@ == worker_after(self@, event, now),
            next.1 == (next.0@.link.connected != self@.link.connected),
    {
        let mut link = self.link;
        match (self.phase, event) {
            (UsbPhase::Receiving, UsbEvent::Received(recv)) => Self::service(link, recv, now),
            (UsbPhase::Initializing { force, waiting }, UsbEvent::ApiReady(ok)) => {
                link.api = ok;
                if ok {
                    Self::upkeep(link, now, force, waiting)
                } else {
                    (UsbWorker { link, phase: UsbPhase::Receiving }, false)
                }
            },
            (UsbPhase::Reopening { waiting }, UsbEvent::Opened(found)) => {
                let changed = link.publish_state(found);
                (Self::take_up(link, waiting), changed)
            },
            (UsbPhase::Probing, UsbEvent::Present(there)) => {
                let changed = if there {
                    false
                } else {
                    link.publish_state(false)
                };
                (UsbWorker { link, phase: UsbPhase::Receiving }, changed)
            },
            (UsbPhase::Writing(transfer), UsbEvent::Wrote(ok)) => {
                let mut transfer = transfer;
                let ghost rest = usb_protocol::contents(
                    transfer.all().skip(transfer.written()),
                );
                let ghost before = transfer;
                transfer.wrote(ok);
                proof {
                    if ok {
                        assert(usb_protocol::contents(transfer.all().skip(transfer.written()))
                            =~= rest.skip(1));
                    }
                }
                if transfer.pending().is_some() {
                    (UsbWorker { link, phase: UsbPhase::Writing(transfer) }, false)
                } else {
                    let changed = link.on_write(transfer.succeeded());
                    (UsbWorker { link, phase: UsbPhase::Receiving }, changed)
                }
            },
            (phase, _) => (UsbWorker { link, phase }, false),
        }
    }

    fn service(link: Link, recv: Recv, now: u64) -> (next: (UsbWorker, bool))
        requires
            link.wf(),
        ensures
            next.0.wf(),
            next.0@ == serviced(link, recv, now),
            next.1 == (next.0@.link.connected != link.connected),
    {
        let cmd = match recv {
            Recv::Cmd(cmd) => cmd,
            Recv::Tick => return Self::upkeep(link, now, false, None),
            Recv::Done => return (UsbWorker { link, phase: UsbPhase::Stopped }, false),
        };
        match cmd {
            // Honored even without a device: the worker would swallow commands
            // forever.
            UsbCommand::Stop => (UsbWorker { link, phase: UsbPhase::Stopped }, false),
            // Pure bookkeeping, processed even without a device: a stale gate
            // would discard every frame after a reconnect.
            UsbCommand::SetSession(s) => {
                let mut link = link;
                link.session.register(s);
                (UsbWorker { link, phase: UsbPhase::Receiving }, false)
            },
            UsbCommand::Probe => Self::upkeep(link, now, true, None),
            cmd => if link.device {
                (Self::take_up(link, Some(cmd)), false)
            } else {
                Self::upkeep(link, now, false, Some(cmd))
            },
        }
    }

    fn upkeep(
        link: Link,
        now: u64,
        force: bool,
        waiting: Option<UsbCommand>,
    ) -> (next: (UsbWorker, bool))
        requires
            link.wf(),
        ensures
            next.0.wf(),
            next.0@ == maintained(link, now, force, waiting),
            next.0@.link.connected == link.connected,
            !next.1,
    {
        let mut link = link;
        let phase = match link.maintain(now, force) {
            Upkeep::Nothing => UsbPhase::Receiving,
            Upkeep::InitApi => UsbPhase::Initializing { force, waiting },
            Upkeep::Reopen => UsbPhase::Reopening { waiting },
            Upkeep::Probe => UsbPhase::Probing,
        };
        (UsbWorker { link, phase }, false)
    }

    fn take_up(link: Link, cmd: Option<UsbCommand>) -> (next: UsbWorker)
        requires
            link.wf(),
        ensures
            next.wf(),
            next@ == attempt(link, cmd),
            next@.link.connected == link.connected,
    {
        let cmd = match cmd {
            Some(cmd) => cmd,
            None => return UsbWorker { link, phase: UsbPhase::Receiving },
        };
        if !link.device {
            return UsbWorker { link, phase: UsbPhase::Receiving };
        }
        let list = execute(&cmd, &link.session);
        let ghost reports = list@;
        let transfer = Transfer::new(list);
        assert(reports.skip(0) =~= reports);
        if transfer.pending().is_some() {
            UsbWorker { link, phase: UsbPhase::Writing(transfer) }
        } else {
            let mut link = link;
            link.on_write(true);
            UsbWorker { link, phase: UsbPhase::Receiving }
        }
    }
}

/// The device survives fewer than [`MAX_FAILS`] failed commands in a row.
pub open spec fn after_failures(link: Link, n: nat) -> Link
    decreases n,
{
    if n == 0 {
        link
    } else {
        after_write(after_failures(link, (n - 1) as nat), false)
    }
}

/// A monitor that stops responding is given up at the [`MAX_FAILS`]-th failed
/// command in a row, and not before.
pub proof fn device_is_dropped_at_the_last_failure(link: Link, n: nat)
    requires
        link.wf(),
        link.device,
        link.fails == 0,
        n <= MAX_FAILS,
    ensures
        after_failures(link, n).device == (n < MAX_FAILS),
        after_failures(link, n).connected == (n < MAX_FAILS),
    decreases n,
{
    lemma_failures_add_up(link, n);
}

proof fn lemma_failures_add_up(link: Link, n: nat)
    requires
        link.wf(),
        link.device,
        link.fails == 0,
        n <= MAX_FAILS,
    ensures
        n < MAX_FAILS ==> after_failures(link, n) == (Link { fails: n as u32, ..link }),
        n == MAX_FAILS ==> after_failures(link, n) == published(link, false),
    decreases n,
{
    if n > 0 {
        lemma_failures_add_up(link, (n - 1) as nat);
    }
}

/// One success forgets all failures before it.
pub proof fn success_forgives(link: Link)
    requires
        link.wf(),
    ensures
        after_write(link, true).fails == 0,
        after_write(link, true).device == link.device,
{
}

/// The session gate never goes back, whatever happens to the worker.
pub proof fn worker_gate_is_monotonic(w: WorkerState, event: UsbEvent, now: u64)
    ensures
        worker_after(w, event, now).link.session.active >= w.link.session.active,
{
}

/// A session is registered whether or not the monitor is there.
pub proof fn sessions_register_without_a_device(w: WorkerState, s: u64, now: u64)
    requires
        w.phase is Receiving,
    ensures
        worker_after(
            w,
            UsbEvent::Received(Recv::Cmd(UsbCommand::SetSession(s))),
            now,
        ).link.session.active >= s,
{
}

/// A device notification is acted on at once, whatever the pacing says.
pub proof fn notifications_bypass_the_pacing(w: WorkerState, now: u64)
    requires
        w.phase is Receiving,
        w.link.wf(),
    ensures
        ({
            let after = worker_after(w, UsbEvent::Received(Recv::Cmd(UsbCommand::Probe)), now);
            if w.link.device {
                after.phase is Probing
            } else if w.link.api {
                after.phase is Reopening
            } else {
                after.phase is Initializing
            }
        }),
{
}

/// The worker after `n` reports in a row were written.
pub open spec fn after_reports(w: WorkerState, n: nat, now: u64) -> WorkerState
    decreases n,
{
    if n == 0 {
        w
    } else {
        worker_after(after_reports(w, (n - 1) as nat, now), UsbEvent::Wrote(true), now)
    }
}

/// A command's reports are written in order and without a gap: nothing else is
/// serviced before the last of them.
pub proof fn commands_are_written_whole(w: WorkerState, n: nat, now: u64)
    requires
        w.phase is Writing,
        n <= w.phase->rest.len(),
        w.phase->rest.len() > 0,
    ensures
        n < w.phase->rest.len() ==> after_reports(w, n, now) == (WorkerState {
            phase: Phase::Writing { rest: w.phase->rest.skip(n as int) },
            ..w
        }),
        n == w.phase->rest.len() ==> after_reports(w, n, now) == (WorkerState {
            link: after_write(w.link, true),
            phase: Phase::Receiving,
        }),
    decreases n,
{
    let rest = w.phase->rest;
    if n == 0 {
        assert(rest.skip(0) =~= rest);
    } else {
        commands_are_written_whole(w, (n - 1) as nat, now);
        assert(rest.skip(n - 1).skip(1) =~= rest.skip(n as int));
    }
}

/// A failed write drops the rest of its command, so the report stream stays
/// aligned: the next report is the first of another command.
pub proof fn a_failed_write_drops_the_rest(w: WorkerState, now: u64)
    requires
        w.phase is Writing,
    ensures
        worker_after(w, UsbEvent::Wrote(false), now) == (WorkerState {
            link: after_write(w.link, false),
            phase: Phase::Receiving,
        }),
{
}

/// Stopping works whether or not the monitor is there.
pub proof fn a_stop_is_always_honored(w: WorkerState, now: u64)
    requires
        w.phase is Receiving,
    ensures
        worker_after(
            w,
            UsbEvent::Received(Recv::Cmd(UsbCommand::Stop)),
            now,
        ).phase is Stopped,
{
}

/// A missing monitor, or a HID interface that could not be initialised, is tried
/// again at every tick of the cadence, and a tick comes when the wait of an idle
/// worker times out.
pub proof fn missing_monitors_are_looked_for(w: WorkerState, now: u64)
    requires
        w.phase is Receiving,
        w.link.wf(),
        !w.link.device,
        elapsed(w.link.last_attempt, now) >= tick_of(w.link),
    ensures
        ({
            let after = worker_after(w, UsbEvent::Received(Recv::Tick), now);
            if w.link.api {
                after.phase is Reopening
            } else {
                after.phase is Initializing
            }
        }),
{
}

} // verus!
