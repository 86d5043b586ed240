//! Audio sync: what it paints, how loudness maps onto brightness over time, and
//! when the capture must follow another output device.

use crate::factor;
use crate::factor::Factor;
use crate::text;
use vstd::prelude::*;

verus! {

/// How often the default render device's identity is re-checked, in polls
/// (about once a second): a device switch leaves the old loopback capturing
/// that device's silence without ever failing.
pub const DEVICE_CHECK_POLLS: u32 = 30;

/// How often loudness is sampled, in milliseconds.
pub const POLL_EVERY: u64 = 33;

/// Loopback buffer in units of 100 ns: 200 ms, slack against overrun.
pub const BUFFER_HNS: i64 = 2000000;

/// What the audio sync paints: the rainbow sweep or one solid color.
#[derive(Clone, Copy, PartialEq, Eq, Debug)]
pub enum AudioColor {
    Rainbow,
    Solid([u8; 3]),
}

/// Temporal envelope of the loudness response: how fast the level climbs on a
/// beat (attack) and how long it falls afterwards (release).
#[derive(Clone, Copy, PartialEq, Eq, Debug, Structural)]
pub enum Blink {
    Smooth,
    Normal,
    Fast,
}

/// (attack, release) of a blink.
pub open spec fn envelope_of(blink: Blink) -> (Factor, Factor) {
    match blink {
        Blink::Smooth => (factor::factor(factor::F_0_35), factor::factor(factor::F_0_04)),
        Blink::Normal => (factor::factor(factor::F_1_0), factor::factor(factor::F_0_15)),
        Blink::Fast => (factor::factor(factor::F_1_0), factor::factor(factor::F_0_55)),
    }
}

impl Blink {
    /// (attack, release) blending factors applied per frame.
    pub fn envelope(self) -> (factors: (Factor, Factor))
        ensures
            factors == envelope_of(self),
    {
        match self {
            Blink::Smooth => (Factor { bits: factor::F_0_35 }, Factor { bits: factor::F_0_04 }),
            Blink::Normal => (Factor { bits: factor::F_1_0 }, Factor { bits: factor::F_0_15 }),
            Blink::Fast => (Factor { bits: factor::F_1_0 }, Factor { bits: factor::F_0_55 }),
        }
    }
}

/// How loudness maps onto 0..1: compression lifts quiet content, expansion
/// leaves only the peaks visible, extreme turns the strip into beat strobes.
#[derive(Clone, Copy, PartialEq, Eq, Debug, Structural)]
pub enum DynamicRange {
    Compressed,
    Normal,
    Expanded,
    Extreme,
}

/// (scale, gamma) of a range.
pub open spec fn curve_of(range: DynamicRange) -> (Factor, Factor) {
    match range {
        DynamicRange::Compressed => (factor::factor(factor::F_3_5), factor::factor(factor::F_0_6)),
        DynamicRange::Normal => (factor::factor(factor::F_2_4), factor::factor(factor::F_0_9)),
        DynamicRange::Expanded => (factor::factor(factor::F_2_0), factor::factor(factor::F_1_5)),
        DynamicRange::Extreme => (factor::factor(factor::F_3_0), factor::factor(factor::F_2_2)),
    }
}

impl DynamicRange {
    /// (scale, gamma) of the loudness to level curve. Exaggerated ranges keep a
    /// high scale so peaks still saturate to full brightness: the gamma
    /// suppresses the quiet parts, not the peaks.
    pub fn curve(self) -> (factors: (Factor, Factor))
        ensures
            factors == curve_of(self),
    {
        match self {
            DynamicRange::Compressed => (
                Factor { bits: factor::F_3_5 },
                Factor { bits: factor::F_0_6 },
            ),
            DynamicRange::Normal => (
                Factor { bits: factor::F_2_4 },
                Factor { bits: factor::F_0_9 },
            ),
            DynamicRange::Expanded => (
                Factor { bits: factor::F_2_0 },
                Factor { bits: factor::F_1_5 },
            ),
            DynamicRange::Extreme => (
                Factor { bits: factor::F_3_0 },
                Factor { bits: factor::F_2_2 },
            ),
        }
    }
}

/// Audio sync tuning, read live by the running sync.
#[derive(Clone, Copy, Debug)]
pub struct AudioParams {
    /// Loudness to intensity multiplier.
    pub gain: Factor,
    pub color: AudioColor,
    pub blink: Blink,
    pub range: DynamicRange,
}

impl Default for AudioParams {
    fn default() -> (params: Self)
        ensures
            params == (AudioParams {
                gain: factor::factor(factor::F_1_0),
                color: AudioColor::Rainbow,
                blink: Blink::Normal,
                range: DynamicRange::Normal,
            }),
    {
        AudioParams {
            gain: Factor { bits: factor::F_1_0 },
            color: AudioColor::Rainbow,
            blink: Blink::Normal,
            range: DynamicRange::Normal,
        }
    }
}

/// Are the two colors the same?
pub fn same_color(a: AudioColor, b: AudioColor) -> (yes: bool)
    ensures
        yes == (a == b),
{
    match (a, b) {
        (AudioColor::Rainbow, AudioColor::Rainbow) => true,
        (AudioColor::Solid(x), AudioColor::Solid(y)) => {
            let yes = x[0] == y[0] && x[1] == y[1] && x[2] == y[2];
            proof {
                if yes {
                    assert(x =~= y);
                }
            }
            yes
        },
        _ => false,
    }
}

/// Counts the polls between two checks of the default device.
#[derive(Clone, Copy, Debug, PartialEq, Eq, Structural)]
pub struct DeviceWatch {
    pub polls: u32,
}

/// The count after one more poll, and whether the device is to be checked.
pub open spec fn polled(polls: u32) -> (u32, bool) {
    if polls + 1 == DEVICE_CHECK_POLLS {
        (0u32, true)
    } else {
        ((polls + 1) as u32, false)
    }
}

/// The count after `n` polls.
pub open spec fn after_polls(n: nat) -> u32
    decreases n,
{
    if n == 0 {
        0
    } else {
        polled(after_polls((n - 1) as nat)).0
    }
}

/// Of any number of polls every thirtieth has the device checked, and no other.
pub proof fn every_thirtieth_poll_checks(n: nat)
    ensures
        after_polls(n) == n % 30,
        polled(after_polls(n)).1 <==> (n + 1) % 30 == 0,
    decreases n,
{
    if n > 0 {
        every_thirtieth_poll_checks((n - 1) as nat);
    }
}

impl DeviceWatch {
    pub fn new() -> (watch: DeviceWatch)
        ensures
            watch.polls == 0,
    {
        DeviceWatch { polls: 0 }
    }

    /// Counts one poll. True every [`DEVICE_CHECK_POLLS`]-th time: the device
    /// is to be checked now.
    pub fn poll(&mut self) -> (due: bool)
        requires
            old(self).polls < DEVICE_CHECK_POLLS,
        ensures
            (final(self).polls, due) == polled(old(self).polls),
            due == (old(self).polls + 1 == DEVICE_CHECK_POLLS),
            final(self).polls == (if due {
                0
            } else {
                old(self).polls + 1
            }),
            final(self).polls < DEVICE_CHECK_POLLS,
    {
        self.polls = self.polls + 1;
        if self.polls >= DEVICE_CHECK_POLLS {
            self.polls = 0;
            true
        } else {
            false
        }
    }
}

/// Must the loopback be reopened because another device is the default now?
/// Devices are told apart by their endpoint id. A device whose id cannot be
/// read counts as unchanged: a real loss surfaces as capture failures instead.
pub fn default_device_changed(opened: &str, current: Option<&str>) -> (changed: bool)
    ensures
        changed == (current matches Some(id) && id@ != opened@),
{
    match current {
        Some(id) => !text::same(id, opened),
        None => false,
    }
}

/// The envelopes in single-precision bits: a smooth blink climbs with 0.35 and
/// falls with 0.04, a normal one jumps and falls with 0.15, a fast one jumps and
/// falls with 0.55.
pub proof fn envelopes_follow_the_blink()
    ensures
        envelope_of(Blink::Smooth) == (Factor { bits: 0x3EB3_3333 }, Factor { bits: 0x3D23_D70A }),
        envelope_of(Blink::Normal) == (Factor { bits: 0x3F80_0000 }, Factor { bits: 0x3E19_999A }),
        envelope_of(Blink::Fast) == (Factor { bits: 0x3F80_0000 }, Factor { bits: 0x3F0C_CCCD }),
{
}

/// A level never climbs slower than it falls, and a quicker blink falls faster.
/// (Positive factors compare as their bits do.)
pub proof fn quicker_blinks_fall_faster(blink: Blink)
    ensures
        envelope_of(blink).0.bits > envelope_of(blink).1.bits,
        envelope_of(Blink::Smooth).1.bits < envelope_of(Blink::Normal).1.bits,
        envelope_of(Blink::Normal).1.bits < envelope_of(Blink::Fast).1.bits,
{
}

/// The curves in single-precision bits: scale and gamma are 3.5 and 0.6, 2.4 and
/// 0.9, 2 and 1.5, 3 and 2.2.
pub proof fn curves_follow_the_range()
    ensures
        curve_of(DynamicRange::Compressed) == (
            Factor { bits: 0x4060_0000 },
            Factor { bits: 0x3F19_999A },
        ),
        curve_of(DynamicRange::Normal) == (
            Factor { bits: 0x4019_999A },
            Factor { bits: 0x3F66_6666 },
        ),
        curve_of(DynamicRange::Expanded) == (
            Factor { bits: 0x4000_0000 },
            Factor { bits: 0x3FC0_0000 },
        ),
        curve_of(DynamicRange::Extreme) == (
            Factor { bits: 0x4040_0000 },
            Factor { bits: 0x400C_CCCD },
        ),
{
}

} // verus!
