//! Persistent settings: what survives a restart, when it is written, and the
//! autostart entry.

use crate::audio::{AudioColor, Blink, DynamicRange};
use crate::factor::Factor;
use crate::i18n::Language;
use crate::sampling::SamplingMode;
use crate::text;
use vstd::prelude::*;

verus! {

/// The persisted menu and monitor state. `None`: unknown, nothing pushed yet.
#[derive(Clone, Copy, PartialEq, Debug)]
pub struct Settings {
    pub sampling: Option<SamplingMode>,
    /// Image Sync temporal smoothing.
    pub smoothing: Option<Factor>,
    /// Image Sync color boost.
    pub boost: Option<Factor>,
    /// Image Sync target FPS.
    pub fps: Option<u32>,
    pub brightness: Option<u8>,
    pub mode: Option<u8>,
    /// Colors assigned to each of the monitor's 4 static slots.
    pub slot_colors: [Option<[u8; 3]>; 4],
    /// Was image sync running when the app last exited?
    pub image_sync_running: bool,
    /// Was audio sync running when the app last exited?
    pub audio_running: bool,
    /// Audio sync loudness to intensity multiplier.
    pub audio_gain: Option<Factor>,
    pub audio_color: Option<AudioColor>,
    pub audio_blink: Option<Blink>,
    pub audio_range: Option<DynamicRange>,
    pub language: Option<Language>,
}

impl Default for Settings {
    fn default() -> (settings: Self)
        ensures
            settings.sampling is None,
            settings.smoothing is None,
            settings.boost is None,
            settings.fps is None,
            settings.brightness is None,
            settings.mode is None,
            forall|i: int| 0 <= i < 4 ==> #[trigger] settings.slot_colors@[i] is None,
            !settings.image_sync_running,
            !settings.audio_running,
            settings.audio_gain is None,
            settings.audio_color is None,
            settings.audio_blink is None,
            settings.audio_range is None,
            settings.language is None,
    {
        Settings {
            sampling: None,
            smoothing: None,
            boost: None,
            fps: None,
            brightness: None,
            mode: None,
            slot_colors: [None;4],
            image_sync_running: false,
            audio_running: false,
            audio_gain: None,
            audio_color: None,
            audio_blink: None,
            audio_range: None,
            language: None,
        }
    }
}

/// The settings to start with: those of the file, or the defaults when it is
/// missing, unreadable or corrupt.
pub fn load(stored: Option<Settings>) -> (settings: Settings)
    ensures
        match stored {
            Some(s) => settings == s,
            None => {
                &&& settings.sampling is None && settings.smoothing is None
                &&& settings.boost is None && settings.fps is None
                &&& settings.brightness is None && settings.mode is None
                &&& forall|i: int| 0 <= i < 4 ==> #[trigger] settings.slot_colors@[i] is None
                &&& !settings.image_sync_running && !settings.audio_running
                &&& settings.audio_gain is None && settings.audio_color is None
                &&& settings.audio_blink is None && settings.audio_range is None
                &&& settings.language is None
            },
        },
{
    match stored {
        Some(s) => s,
        None => Settings::default(),
    }
}

/// The text of the last successful save, so that identical state is not written
/// over and over.
pub struct SaveLog {
    last: String,
}

impl View for SaveLog {
    type V = Seq<char>;

    closed spec fn view(&self) -> Seq<char> {
        self.last@
    }
}

impl SaveLog {
    /// Nothing has been saved.
    pub fn new() -> (log: SaveLog)
        ensures
            log@ == Seq::<char>::empty(),
    {
        SaveLog { last: String::new() }
    }

    /// Must this text be written?
    pub fn needs_save(&self, json: &str) -> (yes: bool)
        ensures
            yes == (json@ != self@),
    {
        !text::same(self.last.as_str(), json)
    }

    /// Records a write. Only a success counts: a failed write is tried again
    /// next time.
    pub fn saved(&mut self, json: String, ok: bool)
        ensures
            final(self)@ == (if ok {
                json@
            } else {
                old(self)@
            }),
    {
        if ok {
            self.last = json;
        }
    }
}

/// How long after the last rapid change the settings are written, in
/// milliseconds.
pub const SAVE_DELAY: u64 = 750;

/// When the settings are written: at once after a discrete action, and a moment
/// after the last of a run of rapid changes.
#[derive(Clone, Copy, PartialEq, Eq, Debug, Structural)]
pub struct SaveSchedule {
    /// When the pending write is due.
    pub due: Option<u64>,
}

pub open spec fn due_after(now: u64) -> u64 {
    if now <= u64::MAX - SAVE_DELAY {
        (now + SAVE_DELAY) as u64
    } else {
        u64::MAX
    }
}

/// Is a pending write due?
pub open spec fn fires(due: Option<u64>, now: u64) -> bool {
    due matches Some(t) && t <= now
}

/// The pending write after a change, and whether the state is written now.
pub open spec fn after_change(rapid: bool, now: u64) -> (Option<u64>, bool) {
    if rapid {
        (Some(due_after(now)), false)
    } else {
        (None, true)
    }
}

/// The pending write after some time, and whether it is written now.
pub open spec fn after_tick(due: Option<u64>, now: u64) -> (Option<u64>, bool) {
    if fires(due, now) {
        (None, true)
    } else {
        (due, false)
    }
}

impl SaveSchedule {
    pub fn new() -> (schedule: SaveSchedule)
        ensures
            schedule.due is None,
    {
        SaveSchedule { due: None }
    }

    /// The state changed. True: write it now, pending changes included.
    pub fn changed(&mut self, rapid: bool, now: u64) -> (write: bool)
        ensures
            (final(self).due, write) == after_change(rapid, now),
            write == !rapid,
            final(self).due == (if rapid {
                Some(due_after(now))
            } else {
                None
            }),
    {
        if rapid {
            self.due =
            Some(
                if now <= u64::MAX - SAVE_DELAY {
                    now + SAVE_DELAY
                } else {
                    u64::MAX
                },
            );
            false
        } else {
            self.due = None;
            true
        }
    }

    /// Time passed. True: the pending write is due.
    pub fn tick(&mut self, now: u64) -> (write: bool)
        ensures
            (final(self).due, write) == after_tick(old(self).due, now),
            write == fires(old(self).due, now),
            final(self).due == (if write {
                None
            } else {
                old(self).due
            }),
    {
        match self.due {
            Some(t) => {
                if t <= now {
                    self.due = None;
                    true
                } else {
                    false
                }
            },
            None => false,
        }
    }

    /// The application exits. True: something pending must be written.
    pub fn flush(&mut self) -> (write: bool)
        ensures
            write == (old(self).due is Some),
            final(self).due is None,
    {
        let write = self.due.is_some();
        self.due = None;
        write
    }
}

/// Something that happens to the schedule: a rapid change, or time passing.
pub enum Moment {
    Change(u64),
    Tick(u64),
}

pub open spec fn time_of(m: Moment) -> u64 {
    match m {
        Moment::Change(t) => t,
        Moment::Tick(t) => t,
    }
}

/// The pending write after some moments, and how many writes they cost.
pub open spec fn after_moments(due: Option<u64>, moments: Seq<Moment>) -> (Option<u64>, nat)
    decreases moments.len(),
{
    if moments.len() == 0 {
        (due, 0)
    } else {
        let (pending, writes) = after_moments(due, moments.drop_last());
        match moments.last() {
            Moment::Change(t) => (Some(due_after(t)), writes),
            Moment::Tick(t) => if fires(pending, t) {
                (None, writes + 1)
            } else {
                (pending, writes)
            },
        }
    }
}

/// When the last of the changes came.
pub open spec fn last_change(moments: Seq<Moment>) -> u64
    decreases moments.len(),
{
    if moments.len() == 0 {
        0
    } else {
        match moments.last() {
            Moment::Change(t) => t,
            Moment::Tick(_) => last_change(moments.drop_last()),
        }
    }
}

/// Do the moments follow each other in time?
pub open spec fn in_time(moments: Seq<Moment>) -> bool {
    forall|i: int, j: int|
        0 <= i <= j < moments.len() ==> time_of(#[trigger] moments[i]) <= time_of(
            #[trigger] moments[j],
        )
}

/// Is this a drag: changes less than [`SAVE_DELAY`] apart, from the first moment
/// to the last, with time passing in between?
pub open spec fn is_drag(moments: Seq<Moment>) -> bool {
    &&& moments.len() > 0
    &&& moments[0] is Change
    &&& moments.last() is Change
    &&& in_time(moments)
    &&& forall|i: int|
        0 < i < moments.len() && (#[trigger] moments[i]) is Change ==> time_of(moments[i])
            < last_change(moments.take(i)) + SAVE_DELAY
}

/// Between the changes of a drag no moment comes late.
proof fn lemma_no_late_moment(moments: Seq<Moment>, i: int)
    requires
        is_drag(moments),
        0 < i < moments.len(),
    ensures
        time_of(moments[i]) < last_change(moments.take(i)) + SAVE_DELAY,
    decreases moments.len() - i,
{
    if !(moments[i] is Change) {
        lemma_no_late_moment(moments, i + 1);
        assert(moments.take(i + 1).drop_last() =~= moments.take(i));
        assert(time_of(moments[i]) <= time_of(moments[i + 1]));
    }
}

proof fn lemma_last_change_is_past(moments: Seq<Moment>, i: int)
    requires
        is_drag(moments),
        0 < i <= moments.len(),
    ensures
        last_change(moments.take(i)) <= time_of(moments[i - 1]),
    decreases i,
{
    assert(moments.take(i).last() == moments[i - 1]);
    if !(moments[i - 1] is Change) {
        assert(i > 1);
        lemma_last_change_is_past(moments, i - 1);
        assert(moments.take(i).drop_last() =~= moments.take(i - 1));
        assert(time_of(moments[i - 2]) <= time_of(moments[i - 1]));
    }
}

proof fn lemma_drags_write_nothing(due: Option<u64>, moments: Seq<Moment>, i: int)
    requires
        is_drag(moments),
        time_of(moments.last()) <= u64::MAX - SAVE_DELAY,
        0 < i <= moments.len(),
    ensures
        after_moments(due, moments.take(i)) == (
            Some(due_after(last_change(moments.take(i)))),
            0nat,
        ),
    decreases i,
{
    let prefix = moments.take(i);
    assert(prefix.last() == moments[i - 1]);
    assert(prefix.drop_last() =~= moments.take(i - 1));
    if i == 1 {
        assert(after_moments(due, moments.take(0)) == (due, 0nat));
    } else {
        lemma_drags_write_nothing(due, moments, i - 1);
        lemma_no_late_moment(moments, i - 1);
        lemma_last_change_is_past(moments, i - 1);
        assert(time_of(moments[i - 2]) <= time_of(moments[moments.len() - 1]));
        let before = last_change(moments.take(i - 1));
        assert(due_after(before) == before + SAVE_DELAY);
        match moments[i - 1] {
            Moment::Change(t) => {
                assert(last_change(prefix) == t);
            },
            Moment::Tick(t) => {
                assert(last_change(prefix) == before);
                assert(!fires(Some(due_after(before)), t));
            },
        }
    }
}

/// Time passing, once per entry.
pub open spec fn ticks(times: Seq<u64>) -> Seq<Moment> {
    Seq::new(times.len(), |i: int| Moment::Tick(times[i]))
}

/// Does any of the times come when the write is due?
pub open spec fn any_reaches(times: Seq<u64>, due: int) -> bool {
    exists|i: int| 0 <= i < times.len() && #[trigger] times[i] >= due
}

proof fn lemma_one_tick_fires(due: Option<u64>, drag: Seq<Moment>, times: Seq<u64>)
    requires
        is_drag(drag),
        time_of(drag.last()) <= u64::MAX - SAVE_DELAY,
    ensures
        ({
            let due_at = time_of(drag.last()) + SAVE_DELAY;
            after_moments(due, drag + ticks(times)) == (if any_reaches(times, due_at) {
                (None::<u64>, 1nat)
            } else {
                (Some(due_at as u64), 0nat)
            })
        }),
    decreases times.len(),
{
    let due_at = time_of(drag.last()) + SAVE_DELAY;
    let all = drag + ticks(times);
    if times.len() == 0 {
        assert(all =~= drag);
        assert(drag.take(drag.len() as int) =~= drag);
        lemma_drags_write_nothing(due, drag, drag.len() as int);
        assert(!any_reaches(times, due_at));
    } else {
        let shorter = times.drop_last();
        lemma_one_tick_fires(due, drag, shorter);
        assert(all.drop_last() =~= drag + ticks(shorter));
        assert(all.last() == Moment::Tick(times.last()));
        if any_reaches(shorter, due_at) {
            let i = choose|i: int| 0 <= i < shorter.len() && #[trigger] shorter[i] >= due_at;
            assert(times[i] >= due_at);
        } else if times.last() >= due_at {
            assert(times[times.len() - 1] >= due_at);
        } else {
            assert forall|i: int| 0 <= i < times.len() implies #[trigger] times[i] < due_at by {
                if i < shorter.len() {
                    assert(shorter[i] < due_at);
                }
            }
        }
    }
}

/// A drag costs one write, and not before [`SAVE_DELAY`] after its last change:
/// however often time is looked at between its changes nothing fires, and of all
/// looks afterwards exactly one does, as soon as one comes late enough. What was
/// pending before goes with it.
pub proof fn a_drag_costs_one_write(due: Option<u64>, drag: Seq<Moment>, times: Seq<u64>)
    requires
        is_drag(drag),
        time_of(drag.last()) <= u64::MAX - SAVE_DELAY,
    ensures
        forall|i: int|
            0 < i <= drag.len() ==> (#[trigger] after_moments(due, drag.take(i))).1 == 0,
        ({
            let end = time_of(drag.last()) + SAVE_DELAY;
            after_moments(due, drag + ticks(times)).1 == (if any_reaches(times, end) {
                1nat
            } else {
                0nat
            })
        }),
{
    assert forall|i: int| 0 < i <= drag.len() implies (#[trigger] after_moments(
        due,
        drag.take(i),
    )).1 == 0 by {
        lemma_drags_write_nothing(due, drag, i);
    }
    lemma_one_tick_fires(due, drag, times);
}

/// A character in UTF-16.
pub open spec fn utf16_of(c: char) -> Seq<u16> {
    let v = c as int;
    if v < 0x10000 {
        seq![v as u16]
    } else {
        seq![
            (0xD800 + (v - 0x10000) / 0x400) as u16,
            (0xDC00 + (v - 0x10000) % 0x400) as u16,
        ]
    }
}

/// A text in UTF-16.
pub open spec fn utf16(s: Seq<char>) -> Seq<u16>
    decreases s.len(),
{
    if s.len() == 0 {
        Seq::empty()
    } else {
        utf16(s.drop_last()) + utf16_of(s.last())
    }
}

/// Units as little-endian bytes.
pub open spec fn le_bytes(units: Seq<u16>) -> Seq<u8> {
    Seq::new(
        2 * units.len(),
        |i: int|
            if i % 2 == 0 {
                (units[i / 2] % 0x100) as u8
            } else {
                (units[i / 2] / 0x100) as u8
            },
    )
}

fn encode_utf16(s: &str) -> (units: Vec<u16>)
    ensures
        units@ == utf16(s@),
{
    let n: usize = s.unicode_len();
    let mut units: Vec<u16> = Vec::new();
    let mut i: usize = 0;
    assert(s@.take(0) =~= Seq::<char>::empty());
    while i < n
        invariant
            i <= n,
            n == s@.len(),
            units@ == utf16(s@.take(i as int)),
        decreases n - i,
    {
        let ghost before = units@;
        let c = s.get_char(i);
        let v: u32 = c as u32;
        if v < 0x10000 {
            units.push(v as u16);
        } else {
            units.push((0xD800 + (v - 0x10000) / 0x400) as u16);
            units.push((0xDC00 + (v - 0x10000) % 0x400) as u16);
        }
        assert(s@.take(i + 1).drop_last() =~= s@.take(i as int));
        assert(units@ =~= before + utf16_of(c));
        i = i + 1;
    }
    assert(s@.take(n as int) =~= s@);
    units
}

/// The command of the autostart entry: the quoted path, which may hold spaces.
pub fn autostart_command(path: &str) -> (command: String)
    ensures
        command@ == "\""@ + path@ + "\""@,
{
    let mut command = text::join("\"", path);
    command.append("\"");
    command
}

/// The value of the autostart entry: the command and a NUL, in little-endian
/// UTF-16.
pub fn autostart_value(path: &str) -> (bytes: Vec<u8>)
    ensures
        bytes@ == le_bytes(utf16("\""@ + path@ + "\""@).push(0)),
{
    let command = autostart_command(path);
    let mut units = encode_utf16(command.as_str());
    units.push(0);
    let mut bytes: Vec<u8> = Vec::new();
    let mut i: usize = 0;
    while i < units.len()
        invariant
            i <= units@.len(),
            bytes@ == le_bytes(units@.take(i as int)),
        decreases units@.len() - i,
    {
        let ghost before = bytes@;
        let unit: u16 = units[i];
        bytes.push((unit % 0x100) as u8);
        bytes.push((unit / 0x100) as u8);
        proof {
            let shorter = units@.take(i as int);
            let longer = units@.take(i + 1);
            assert(le_bytes(longer).len() == before.len() + 2);
            assert forall|k: int| 0 <= k < before.len() implies le_bytes(longer)[k]
                == before[k] by {
                assert(shorter[k / 2] == longer[k / 2]);
            }
            assert(bytes@ =~= le_bytes(longer));
        }
        i = i + 1;
    }
    assert(units@.take(i as int) =~= units@);
    bytes
}

/// A rapid change is written three quarters of a second later, as far as the
/// clock goes.
pub proof fn rapid_changes_wait(now: u64)
    ensures
        now + 750 <= u64::MAX ==> due_after(now) == now + 750,
        now + 750 > u64::MAX ==> due_after(now) == u64::MAX,
{
}

/// A write fires from the moment that it is due, and none fires unasked.
pub proof fn writes_fire_when_due(due: u64, now: u64)
    ensures
        fires(Some(due), now) <==> now >= due,
        !fires(None, now),
{
}

/// Each unit is two bytes, the low one first.
pub proof fn units_are_little_endian(units: Seq<u16>, i: int)
    requires
        0 <= i < units.len(),
    ensures
        le_bytes(units).len() == 2 * units.len(),
        le_bytes(units)[2 * i] + 0x100 * le_bytes(units)[2 * i + 1] == units[i],
{
    assert((2 * i) / 2 == i && (2 * i) % 2 == 0);
    assert((2 * i + 1) / 2 == i && (2 * i + 1) % 2 == 1);
}

/// A character of the basic plane is its own unit. Any other is a pair: a high
/// surrogate with its upper ten bits and a low one with its lower ten, counted
/// from 0x10000.
pub proof fn characters_are_units(c: char)
    ensures
        ({
            let u = utf16_of(c);
            let v = c as int;
            &&& v < 0x10000 ==> u.len() == 1 && u[0] == v
            &&& v >= 0x10000 ==> {
                &&& u.len() == 2
                &&& 0xD800 <= u[0] < 0xDC00 && 0xDC00 <= u[1] < 0xE000
                &&& 0x10000 + 0x400 * (u[0] - 0xD800) + (u[1] - 0xDC00) == v
            }
        }),
{
    let v = c as u32;
    assert(v <= 0x10FFFF);
}

/// A text's units are those of its characters, in order.
pub proof fn texts_are_their_characters(s: Seq<char>, c: char)
    ensures
        utf16(Seq::empty()) == Seq::<u16>::empty(),
        utf16(s.push(c)) == utf16(s) + utf16_of(c),
{
    assert(s.push(c).drop_last() =~= s);
}

/// Every change is written once: a discrete one at once, with whatever was
/// pending; a rapid one with the first look at the clock three quarters of a
/// second later or more, and not before.
pub proof fn changes_are_written_once(now: u64, soon: u64, late: u64, later: u64)
    requires
        now <= soon < now + 750 <= late <= later,
    ensures
        after_change(false, now) == (None::<u64>, true),
        !after_change(true, now).1,
        after_tick(after_change(true, now).0, soon) == (after_change(true, now).0, false),
        after_tick(after_change(true, now).0, late) == (None::<u64>, true),
        after_tick(None, later) == (None::<u64>, false),
{
}

} // verus!
