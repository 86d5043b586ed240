//! The sync engine: one session mechanism for both sync sources. At most one
//! session runs at any time, and manual commands always win over its frames.
//!
//! A session is a state machine. Each step happens under the lock that guards
//! the engine and the command bus, so a session checks that it is still the
//! running one and posts its command or frame in one move.

use crate::audio::AudioParams;
use crate::factor;
use crate::factor::Factor;
use crate::sampling::SamplingMode;
use crate::usb;
use crate::usb::{Bus, CommandRx, CommandTx, UsbCommand};
use crate::usb_protocol::RGBColor;
use vstd::prelude::*;

verus! {

/// Device mode fed by image sync.
pub const VIDEO_SYNC_MODE: u8 = 8;

/// Device mode fed by audio sync.
pub const AUDIO_SYNC_MODE: u8 = 7;

/// Brightness the sync modes run at.
pub const SYNC_BRIGHTNESS: u8 = 12;

/// Blocking acquire window. Bounds the wakeup rate on a static desktop and the
/// reaction latency to a stop. Milliseconds, as all spans below.
pub const ACQUIRE_TIMEOUT_MS: u32 = 200;

/// Pacing of capture re-creation: avoids storms while a mode change is in
/// progress. Not applied to a session's first creation.
pub const RETRY_DELAY: u64 = 500;

/// Heartbeat for static scenes: the monitor leaves sync mode after about 12 s
/// without frames.
pub const SYNC_KEEPALIVE: u64 = 5000;

/// Idle period while the monitor is absent.
pub const DISCONNECTED_IDLE: u64 = 1000;

/// Settling time after the init sequence, before frames: frames sent earlier
/// are ignored and the monitor stays in its previous mode.
pub const INIT_SETTLE: u64 = 250;

/// Staleness watchdog: this many arrived frames in a row with identical colors
/// and changes in the sampled area mean that the duplication is frozen.
pub const STALE_FRAMES_BEFORE_RECREATE: u32 = 60;

/// The watchdog doubles its patience with every re-creation that cures nothing,
/// up to this.
pub const STALE_FRAMES_CAP: u32 = 480;

/// Grace window of the watchdog after a display change.
pub const DISPLAY_CHANGE_SETTLE: u64 = 12000;

/// Capture failures in a row before the loopback is reopened.
pub const MAX_CAPTURE_FAILURES: u32 = 100;

/// Image Sync tuning, carried from the menu to the sampler.
#[derive(Clone, Copy, PartialEq, Eq, Debug, Structural)]
pub struct ImageSyncParams {
    /// Which part of the screen the LEDs sample.
    pub sampling: SamplingMode,
    /// 0.0 = instant reaction, up to about 0.9 = heavy blending.
    pub smoothing: Factor,
    /// Color multiplier to project more vivid light.
    pub boost: Factor,
    /// Target frames per second.
    pub fps: u32,
}

pub open spec fn default_image_params() -> ImageSyncParams {
    ImageSyncParams {
        sampling: SamplingMode::Border5,
        smoothing: factor::factor(factor::F_0_4),
        boost: factor::factor(factor::F_1_2),
        fps: 30,
    }
}

impl Default for ImageSyncParams {
    fn default() -> (params: Self)
        ensures
            params == default_image_params(),
    {
        ImageSyncParams {
            sampling: SamplingMode::Border5,
            smoothing: Factor { bits: factor::F_0_4 },
            boost: Factor { bits: factor::F_1_2 },
            fps: 30,
        }
    }
}

/// What the engine should produce.
#[derive(Debug)]
pub enum Source {
    /// Screen sampling of the named desktop output.
    ImageSync { screen: String },
    /// Loudness-reactive colors.
    Audio,
}

/// Shared engine state. A session is valid only while `running` is set and
/// `session` still equals its own token: bumping `session` retires every old
/// session.
#[derive(Clone, Copy, PartialEq, Eq, Debug, Structural)]
pub struct EngineState {
    pub running: bool,
    pub session: u64,
    /// The display changed mode under an unchanged output: the image sync drops
    /// its duplication instead of waiting out the staleness watchdog.
    pub display_changed: bool,
    /// A recovery pass asks the running session to re-arm the device: frames
    /// pause, the init is re-sent, the settle passes, frames resume.
    pub reinit_requested: bool,
}

pub open spec fn valid(state: EngineState, mine: u64) -> bool {
    state.running && state.session == mine
}

impl EngineState {
    pub fn is_valid(&self, mine: u64) -> (yes: bool)
        ensures
            yes == valid(*self, mine),
    {
        self.running && self.session == mine
    }
}

/// The token after `session`.
pub open spec fn next_session(session: u64) -> u64 {
    if session < u64::MAX {
        (session + 1) as u64
    } else {
        0
    }
}

fn bumped(session: u64) -> (next: u64)
    ensures
        next == next_session(session),
{
    if session < u64::MAX {
        session + 1
    } else {
        0
    }
}

/// The engine, shared by the menu, the sync session and the USB worker.
pub struct Engine {
    pub state: EngineState,
    pub tx: CommandTx,
    pub image_params: ImageSyncParams,
    pub audio_params: AudioParams,
    /// Brightness level 1..=12, applied as software dimming.
    pub brightness: u8,
    /// Monitor presence, published by the USB worker.
    pub connected: bool,
}

/// A brightness level within its range.
pub open spec fn clamped(level: u8) -> u8 {
    if level < 1 {
        1u8
    } else if level > SYNC_BRIGHTNESS {
        SYNC_BRIGHTNESS
    } else {
        level
    }
}

impl Engine {
    pub open spec fn wf(&self) -> bool {
        self.tx.wf() && 1 <= self.brightness <= SYNC_BRIGHTNESS
    }

    pub fn new(tx: CommandTx) -> (engine: Engine)
        requires
            tx.wf(),
        ensures
            engine.wf(),
            engine.state == (EngineState {
                running: false,
                session: 0,
                display_changed: false,
                reinit_requested: false,
            }),
            engine.image_params == default_image_params(),
            engine.audio_params == (AudioParams {
                gain: factor::factor(factor::F_1_0),
                color: crate::audio::AudioColor::Rainbow,
                blink: crate::audio::Blink::Normal,
                range: crate::audio::DynamicRange::Normal,
            }),
            engine.brightness == SYNC_BRIGHTNESS,
            engine.brightness == 12,
            !engine.connected,
    {
        Engine {
            state: EngineState {
                running: false,
                session: 0,
                display_changed: false,
                reinit_requested: false,
            },
            tx,
            image_params: ImageSyncParams::default(),
            audio_params: AudioParams::default(),
            brightness: SYNC_BRIGHTNESS,
            connected: false,
        }
    }

    /// Live-updates image sync tuning: the running session reads the slot every
    /// frame.
    pub fn set_image_params(&mut self, params: ImageSyncParams)
        ensures
            *final(self) == (Engine { image_params: params, ..*old(self) }),
    {
        self.image_params = params;
    }

    /// Live-updates audio sync tuning.
    pub fn set_audio_params(&mut self, params: AudioParams)
        ensures
            *final(self) == (Engine { audio_params: params, ..*old(self) }),
    {
        self.audio_params = params;
    }

    /// Brightness level 1..=12. During sync it is applied as software dimming of
    /// the frames, so changing it never stops a running sync.
    pub fn set_brightness(&mut self, level: u8)
        ensures
            *final(self) == (Engine { brightness: clamped(level), ..*old(self) }),
    {
        self.brightness =
        if level < 1 {
            1
        } else if level > SYNC_BRIGHTNESS {
            SYNC_BRIGHTNESS
        } else {
            level
        };
    }

    pub fn set_connected(&mut self, connected: bool)
        ensures
            *final(self) == (Engine { connected, ..*old(self) }),
    {
        self.connected = connected;
    }

    /// Posts a command. Returns false only when the worker is gone.
    pub fn send(&self, rx: &mut CommandRx, cmd: UsbCommand) -> (sent: bool)
        requires
            self.wf(),
        ensures
            final(rx)@ == usb::posted(old(rx)@, cmd),
            sent == (usb::is_frame(cmd) || old(rx)@.open),
    {
        self.tx.control(rx, cmd)
    }

    /// Claims the engine for a new session, unless it is already running, and
    /// returns the session's token.
    pub fn start(&mut self) -> (mine: Option<u64>)
        ensures
            old(self).state.running ==> mine is None && *final(self) == *old(self),
            !old(self).state.running ==> {
                &&& mine == Some(next_session(old(self).state.session))
                &&& *final(self) == (Engine { state: started(old(self).state), ..*old(self) })
            },
    {
        if self.state.running {
            return None;
        }
        self.state.running = true;
        self.state.session = bumped(self.state.session);
        Some(self.state.session)
    }

    /// Stops the engine and invalidates the session in the USB worker too: the
    /// token of `SetSession` travels ahead of any manual command posted
    /// afterwards, so a late frame of the old session is discarded.
    pub fn stop(&mut self, rx: &mut CommandRx)
        requires
            old(self).wf(),
        ensures
            *final(self) == (Engine { state: stopped(old(self).state), ..*old(self) }),
            final(rx)@ == usb::posted(
                old(rx)@,
                UsbCommand::SetSession(next_session(old(self).state.session)),
            ),
    {
        let dead: u64 = bumped(self.state.session);
        self.state.session = dead;
        self.tx.control(rx, UsbCommand::SetSession(dead));
        self.state.running = false;
    }

    /// Asks the running session to re-arm the device through its own controlled
    /// path.
    pub fn request_reinit(&mut self)
        ensures
            *final(self) == (Engine {
                state: EngineState { reinit_requested: true, ..old(self).state },
                ..*old(self)
            }),
    {
        self.state.reinit_requested = true;
    }

    /// Drops the running session's duplication at the next frame.
    pub fn invalidate_capturer(&mut self)
        ensures
            *final(self) == (Engine {
                state: EngineState { display_changed: true, ..old(self).state },
                ..*old(self)
            }),
    {
        self.state.display_changed = true;
    }
}

/// A token is newer than all before it, until the counter wraps.
pub proof fn tokens_increase(session: u64)
    requires
        session < u64::MAX,
    ensures
        next_session(session) > session,
{
}

/// A level is brought into 1..=12 by the nearest end, and kept where it is in
/// range.
pub proof fn levels_are_brought_into_range(level: u8)
    ensures
        1 <= clamped(level) <= 12,
        1 <= level <= 12 ==> clamped(level) == level,
        level < 1 ==> clamped(level) == 1,
        level > 12 ==> clamped(level) == 12,
{
}

/// A start takes the next token and makes it the valid one; a stop takes the
/// next token too, and makes none valid. Pending requests stay pending.
pub proof fn tokens_are_counted_up(state: EngineState, mine: u64)
    ensures
        ({
            let up = started(state);
            let down = stopped(state);
            &&& state.session < u64::MAX ==> up.session == state.session + 1 && down.session
                == state.session + 1
            &&& state.session == u64::MAX ==> up.session == 0 && down.session == 0
            &&& valid(up, mine) <==> mine == up.session
            &&& !valid(down, mine)
            &&& up.running && !down.running
            &&& up.display_changed == state.display_changed && up.reinit_requested
                == state.reinit_requested
            &&& down.display_changed == state.display_changed && down.reinit_requested
                == state.reinit_requested
        }),
{
}

/// A session is valid while the engine runs and holds its token.
pub proof fn one_session_is_valid(state: EngineState, a: u64, b: u64)
    ensures
        valid(state, a) && valid(state, b) ==> a == b,
        state.running ==> valid(state, state.session),
        !state.running ==> !valid(state, a),
{
}

/// The state after a stop.
pub open spec fn stopped(state: EngineState) -> EngineState {
    EngineState { running: false, session: next_session(state.session), ..state }
}

/// The state after a start.
pub open spec fn started(state: EngineState) -> EngineState {
    EngineState { running: true, session: next_session(state.session), ..state }
}

/// Whatever session was running, none is valid after a stop, and a quick
/// restart revives none of them.
pub proof fn stop_retires_every_session(state: EngineState, mine: u64)
    requires
        state.session < u64::MAX - 1,
        mine <= state.session,
    ensures
        !valid(stopped(state), mine),
        !valid(started(stopped(state)), mine),
{
}

/// The bus after several commands.
pub open spec fn posted_all(bus: Bus, cmds: Seq<UsbCommand>) -> Bus
    decreases cmds.len(),
{
    if cmds.len() == 0 {
        bus
    } else {
        usb::posted(posted_all(bus, cmds.drop_last()), cmds.last())
    }
}

/// Control commands leave the frames alone: behind those that wait, only wake
/// tokens are added.
pub proof fn lemma_controls_add_no_frame(bus: Bus, cmds: Seq<UsbCommand>)
    requires
        forall|i: int| 0 <= i < cmds.len() ==> !usb::is_frame(#[trigger] cmds[i]),
    ensures
        posted_all(bus, cmds).open == bus.open,
        adds_no_frame(bus, posted_all(bus, cmds)),
    decreases cmds.len(),
{
    if cmds.len() > 0 {
        lemma_controls_add_no_frame(bus, cmds.drop_last());
        assert(!usb::is_frame(cmds.last()));
    }
}

/// Control commands join an open control plane in order; a closed bus takes
/// none.
pub proof fn lemma_controls_join(bus: Bus, cmds: Seq<UsbCommand>)
    requires
        forall|i: int| 0 <= i < cmds.len() ==> !usb::is_frame(#[trigger] cmds[i]),
    ensures
        bus.open ==> posted_all(bus, cmds).ctrl == bus.ctrl + cmds,
        !bus.open ==> posted_all(bus, cmds) == bus,
        posted_all(bus, cmds).open == bus.open,
        posted_all(bus, cmds).senders == bus.senders,
        adds_no_frame(bus, posted_all(bus, cmds)),
    decreases cmds.len(),
{
    if cmds.len() > 0 {
        lemma_controls_join(bus, cmds.drop_last());
        assert(!usb::is_frame(cmds.last()));
        assert((bus.ctrl + cmds.drop_last()).push(cmds.last()) =~= bus.ctrl + cmds);
    } else {
        assert(bus.ctrl + cmds =~= bus.ctrl);
    }
}

/// Does `after` hold no frame that `before` did not?
pub open spec fn adds_no_frame(before: Bus, after: Bus) -> bool {
    &&& after.frames.len() >= before.frames.len()
    &&& forall|i: int|
        0 <= i < before.frames.len() ==> #[trigger] after.frames[i] == before.frames[i]
    &&& forall|i: int|
        before.frames.len() <= i < after.frames.len() ==> #[trigger] after.frames[i] is Wake
}

/// Commands re-sent after a reconnect: the session init without the
/// registration, which is still in force.
pub open spec fn rearm_commands(mode: u8) -> Seq<UsbCommand> {
    seq![
        UsbCommand::TurnOn,
        UsbCommand::SetBrightness(SYNC_BRIGHTNESS),
        UsbCommand::SetMode(mode),
    ]
}

/// The init sequence of a session: registration, on, full brightness, mode.
pub open spec fn init_commands(mine: u64, mode: u8) -> Seq<UsbCommand> {
    seq![UsbCommand::SetSession(mine)] + rearm_commands(mode)
}

pub fn post_rearm(tx: &CommandTx, rx: &mut CommandRx, mode: u8)
    requires
        tx.wf(),
    ensures
        final(rx)@ == posted_all(old(rx)@, rearm_commands(mode)),
{
    tx.control(rx, UsbCommand::TurnOn);
    tx.control(rx, UsbCommand::SetBrightness(SYNC_BRIGHTNESS));
    tx.control(rx, UsbCommand::SetMode(mode));
    proof {
        let all = rearm_commands(mode);
        reveal_with_fuel(posted_all, 4);
        assert(all.drop_last() =~= seq![
            UsbCommand::TurnOn,
            UsbCommand::SetBrightness(SYNC_BRIGHTNESS),
        ]);
        assert(all.drop_last().drop_last() =~= seq![UsbCommand::TurnOn]);
        assert(all.drop_last().drop_last().drop_last() =~= Seq::<UsbCommand>::empty());
    }
}

pub fn post_init(tx: &CommandTx, rx: &mut CommandRx, mine: u64, mode: u8)
    requires
        tx.wf(),
    ensures
        final(rx)@ == posted_all(old(rx)@, init_commands(mine, mode)),
{
    tx.control(rx, UsbCommand::SetSession(mine));
    tx.control(rx, UsbCommand::TurnOn);
    tx.control(rx, UsbCommand::SetBrightness(SYNC_BRIGHTNESS));
    tx.control(rx, UsbCommand::SetMode(mode));
    proof {
        let all = init_commands(mine, mode);
        reveal_with_fuel(posted_all, 5);
        assert(all.drop_last() =~= seq![
            UsbCommand::SetSession(mine),
            UsbCommand::TurnOn,
            UsbCommand::SetBrightness(SYNC_BRIGHTNESS),
        ]);
        assert(all.drop_last().drop_last() =~= seq![
            UsbCommand::SetSession(mine),
            UsbCommand::TurnOn,
        ]);
        assert(all.drop_last().drop_last().drop_last() =~= seq![UsbCommand::SetSession(mine)]);
        assert(all.drop_last().drop_last().drop_last().drop_last()
            =~= Seq::<UsbCommand>::empty());
    }
}

/// The colors of the strip.
pub type Colors = [RGBColor; 48];

/// A color component at a brightness level.
pub open spec fn dim_component(v: u8, level: u8) -> u8 {
    if level < SYNC_BRIGHTNESS {
        (v * level / SYNC_BRIGHTNESS as int) as u8
    } else {
        v
    }
}

pub open spec fn dim_color(c: RGBColor, level: u8) -> RGBColor {
    RGBColor {
        r: dim_component(c.r, level),
        g: dim_component(c.g, level),
        b: dim_component(c.b, level),
    }
}

/// The array with the given contents.
pub open spec fn colors_of(s: Seq<RGBColor>) -> Colors {
    choose|c: Colors| #[trigger] c@ == s
}

/// The strip at a brightness level.
pub open spec fn dimmed(colors: Colors, level: u8) -> Colors {
    colors_of(Seq::new(48, |i: int| dim_color(colors@[i], level)))
}

fn scaled(v: u8, level: u8) -> (out: u8)
    requires
        level < SYNC_BRIGHTNESS,
    ensures
        out == dim_component(v, level),
{
    assert(v * level <= 255 * 12) by (nonlinear_arith)
        requires
            v <= 255,
            level <= 12,
    ;
    assert(v * level / 12 <= v) by (nonlinear_arith)
        requires
            level <= 12,
            v >= 0,
    ;
    (v as u32 * level as u32 / SYNC_BRIGHTNESS as u32) as u8
}

/// Software dimming: the device sits at full brightness during sync, and the
/// user's level scales the colors at send time.
pub fn dim(colors: &Colors, level: u8) -> (out: Colors)
    ensures
        out == dimmed(*colors, level),
        forall|i: int| 0 <= i < 48 ==> #[trigger] out@[i] == dim_color(colors@[i], level),
        forall|i: int|
            #![trigger out@[i]]
            0 <= i < 48 && level <= 12 ==> {
                &&& is_dimmed(out@[i].r as int, colors@[i].r as int, level as int)
                &&& is_dimmed(out@[i].g as int, colors@[i].g as int, level as int)
                &&& is_dimmed(out@[i].b as int, colors@[i].b as int, level as int)
            },
        level >= 12 ==> out == *colors,
{
    let mut out: Colors = *colors;
    if level < SYNC_BRIGHTNESS {
        let mut i: usize = 0;
        while i < 48
            invariant
                i <= 48,
                level < SYNC_BRIGHTNESS,
                forall|j: int| 0 <= j < i ==> #[trigger] out@[j] == dim_color(colors@[j], level),
            decreases 48 - i,
        {
            let c = colors[i];
            out[i] =
            RGBColor { r: scaled(c.r, level), g: scaled(c.g, level), b: scaled(c.b, level) };
            i = i + 1;
        }
    }
    proof {
        let want = Seq::new(48, |i: int| dim_color(colors@[i], level));
        assert(out@ =~= want);
        let chosen = colors_of(want);
        assert(chosen@ == want);
        assert(out =~= chosen);
        assert forall|i: int| #![trigger out@[i]] 0 <= i < 48 && level <= 12 implies {
            &&& is_dimmed(out@[i].r as int, colors@[i].r as int, level as int)
            &&& is_dimmed(out@[i].g as int, colors@[i].g as int, level as int)
            &&& is_dimmed(out@[i].b as int, colors@[i].b as int, level as int)
        } by {
            dimming_takes_twelfths(colors@[i].r, level);
            dimming_takes_twelfths(colors@[i].g, level);
            dimming_takes_twelfths(colors@[i].b, level);
        }
    }
    out
}

/// Is `d` the whole part of `level` twelfths of `v`?
pub open spec fn is_dimmed(d: int, v: int, level: int) -> bool {
    12 * d <= v * level < 12 * (d + 1)
}

/// A level up to 12 leaves as many twelfths of every component, rounded down;
/// a higher one leaves it as it is.
pub proof fn dimming_takes_twelfths(v: u8, level: u8)
    ensures
        level <= 12 ==> 12 * dim_component(v, level) <= v * level < 12 * (dim_component(v, level)
            + 1),
        level >= 12 ==> dim_component(v, level) == v,
{
    let t = v * level;
    assert(0 <= t <= 255 * 255) by (nonlinear_arith)
        requires
            0 <= v <= 255,
            0 <= level <= 255,
            t == v * level,
    ;
    if level < 12 {
        assert(t <= v * 12) by (nonlinear_arith)
            requires
                t == v * level,
                0 <= v,
                level < 12,
        ;
    }
}

/// Every sequence of 48 colors is the contents of an array.
pub proof fn lemma_colors_of(s: Seq<RGBColor>)
    requires
        s.len() == 48,
    ensures
        colors_of(s)@ == s,
{
    let c: Colors = [
        s[0], s[1], s[2], s[3], s[4], s[5], s[6], s[7],
        s[8], s[9], s[10], s[11], s[12], s[13], s[14], s[15],
        s[16], s[17], s[18], s[19], s[20], s[21], s[22], s[23],
        s[24], s[25], s[26], s[27], s[28], s[29], s[30], s[31],
        s[32], s[33], s[34], s[35], s[36], s[37], s[38], s[39],
        s[40], s[41], s[42], s[43], s[44], s[45], s[46], s[47],
    ];
    assert(c@ =~= s);
}

/// Dimming a strip dims every LED's red, green and blue, and a frame's colors at
/// the same place.
pub proof fn strips_are_dimmed_in_place(colors: Colors, level: u8, i: int)
    requires
        0 <= i < 48,
        level <= 12,
    ensures
        is_dimmed(dimmed(colors, level)@[i].r as int, colors@[i].r as int, level as int),
        is_dimmed(dimmed(colors, level)@[i].g as int, colors@[i].g as int, level as int),
        is_dimmed(dimmed(colors, level)@[i].b as int, colors@[i].b as int, level as int),
{
    let want = Seq::new(48, |j: int| dim_color(colors@[j], level));
    lemma_colors_of(want);
    dimming_takes_twelfths(colors@[i].r, level);
    dimming_takes_twelfths(colors@[i].g, level);
    dimming_takes_twelfths(colors@[i].b, level);
}


/// Dimming never brightens, more of it never less, and the top level changes
/// nothing.
pub proof fn dimming_is_monotonic(v: u8, low: u8, high: u8)
    requires
        low <= high,
    ensures
        dim_component(v, low) <= dim_component(v, high) <= v,
        dim_component(v, SYNC_BRIGHTNESS) == v,
{
    assert(v * low / 12 <= v * high / 12) by (nonlinear_arith)
        requires
            low <= high,
            v >= 0,
    ;
    if high < SYNC_BRIGHTNESS {
        assert(v * high / 12 <= v) by (nonlinear_arith)
            requires
                high < 12,
                v >= 0,
        ;
    }
    if low < SYNC_BRIGHTNESS {
        assert(v * low / 12 <= v) by (nonlinear_arith)
            requires
                low < 12,
                v >= 0,
        ;
    }
}

pub fn same_colors(a: &Colors, b: &Colors) -> (yes: bool)
    ensures
        yes == (*a == *b),
{
    let mut i: usize = 0;
    while i < 48
        invariant
            i <= 48,
            forall|j: int| 0 <= j < i ==> a@[j] == b@[j],
        decreases 48 - i,
    {
        let x = a[i];
        let y = b[i];
        if x.r != y.r || x.g != y.g || x.b != y.b {
            return false;
        }
        i = i + 1;
    }
    assert(*a =~= *b);
    true
}

} // verus!
