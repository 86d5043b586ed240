//! Optional frame instrumentation of image sync.

use crate::factor::Factor;
use std::time::{Duration, Instant};
use vstd::prelude::*;

verus! {

/// Per-frame pipeline stage timings, in microseconds. Written only on frames
/// that arrived with new desktop content.
#[derive(Clone, Copy, PartialEq, Eq, Debug, Structural)]
pub struct FrameStats {
    /// Wall time of the acquire for an arrived frame.
    pub acquire_us: u32,
    /// Dirty-rect query and overlap test.
    pub dirty_us: u32,
    /// Creation of the frame's resource view.
    pub srv_create_us: u32,
    /// Rest of the GPU submit.
    pub submit_us: u32,
    /// The blocking readback.
    pub map_wait_us: u32,
    /// GPU dispatch duration in milliseconds; not a number when the query
    /// failed.
    pub gpu_ms: Factor,
    /// Resource creations on this frame.
    pub srv_created: u8,
    /// Per-frame pixel format.
    pub hdr: bool,
}

impl Default for FrameStats {
    fn default() -> (stats: Self)
        ensures
            stats == (FrameStats {
                acquire_us: 0,
                dirty_us: 0,
                srv_create_us: 0,
                submit_us: 0,
                map_wait_us: 0,
                gpu_ms: Factor { bits: 0 },
                srv_created: 0,
                hdr: false,
            }),
    {
        FrameStats {
            acquire_us: 0,
            dirty_us: 0,
            srv_create_us: 0,
            submit_us: 0,
            map_wait_us: 0,
            gpu_ms: Factor { bits: 0 },
            srv_created: 0,
            hdr: false,
        }
    }
}

/// `std::time::Instant`: a reading of the monotonic clock, opaque here.
#[verifier::external_type_specification]
#[verifier::external_body]
pub struct ExInstant(std::time::Instant);

/// `std::time::Instant::now`: reads the clock. Nothing is claimed of the reading,
/// which depends on the time of the call.
pub assume_specification[ std::time::Instant::now ]() -> std::time::Instant
;

/// `std::time::Instant::elapsed`: the time since a reading. Nothing is claimed of
/// it, which depends on the time of the call.
pub assume_specification[ std::time::Instant::elapsed ](
    instant: &std::time::Instant,
) -> std::time::Duration
;

/// `std::time::Duration::as_micros`: a duration in whole microseconds. Nothing is
/// claimed of it: a duration is opaque here.
pub assume_specification[ std::time::Duration::as_micros ](duration: &std::time::Duration) -> u128
;

/// Stage timer: measures nothing, and reads no clock, unless it is switched on.
pub struct Stage(Option<Instant>);

impl Stage {
    /// Is the timer running?
    pub closed spec fn is_on(&self) -> bool {
        self.0 is Some
    }

    pub fn start(on: bool) -> (stage: Stage)
        ensures
            stage.is_on() == on,
    {
        if on {
            Stage(Some(Instant::now()))
        } else {
            Stage(None)
        }
    }

    /// Microseconds since the start, saturated; 0 when the timer is off.
    pub fn us(&self) -> (us: u32)
        ensures
            !self.is_on() ==> us == 0,
    {
        match &self.0 {
            Some(t) => {
                let spent: Duration = t.elapsed();
                saturated(spent.as_micros())
            },
            None => 0,
        }
    }
}

/// A number of microseconds as the counters hold it.
pub fn saturated(micros: u128) -> (us: u32)
    ensures
        us == (if micros <= u32::MAX {
            micros as int
        } else {
            u32::MAX as int
        }),
{
    if micros <= u32::MAX as u128 {
        micros as u32
    } else {
        u32::MAX
    }
}

/// The last samples of a measurement, up to 128 of them.
#[derive(Clone, Copy, Debug)]
pub struct Ring {
    pub samples: [u32; 128],
    /// Where the next sample goes.
    pub next: usize,
    /// How many samples there are.
    pub count: usize,
}

/// A ring's samples, next place and count after one more sample.
pub open spec fn ring_pushed(ring: (Seq<u32>, usize, usize), sample: u32) -> (
    Seq<u32>,
    usize,
    usize,
) {
    (
        ring.0.update(ring.1 as int, sample),
        ((ring.1 + 1) % 128) as usize,
        if ring.2 < 128 {
            (ring.2 + 1) as usize
        } else {
            128
        },
    )
}

/// An empty ring after some samples.
pub open spec fn ring_of(samples: Seq<u32>) -> (Seq<u32>, usize, usize)
    decreases samples.len(),
{
    if samples.len() == 0 {
        (Seq::new(128, |i: int| 0u32), 0, 0)
    } else {
        ring_pushed(ring_of(samples.drop_last()), samples.last())
    }
}

/// A ring holds the last samples, up to 128 of them: sample `k` stands at place
/// `k` modulo 128 until the 128-th after it takes that place.
pub proof fn rings_hold_the_last_samples(samples: Seq<u32>, k: int)
    ensures
        ring_of(samples).0.len() == 128,
        ring_of(samples).1 == samples.len() % 128,
        samples.len() < 128 ==> ring_of(samples).2 == samples.len(),
        samples.len() >= 128 ==> ring_of(samples).2 == 128,
        0 <= k < samples.len() && samples.len() - 128 <= k ==> ring_of(samples).0[k % 128]
            == samples[k],
    decreases samples.len(),
{
    if samples.len() > 0 {
        let shorter = samples.drop_last();
        rings_hold_the_last_samples(shorter, k);
        let n = shorter.len() as int;
        if 0 <= k < n && samples.len() - 128 <= k {
            assert(samples[k] == shorter[k]);
            assert(k % 128 != n % 128);
        }
    }
}

impl Ring {
    pub open spec fn wf(&self) -> bool {
        self.next < 128 && self.count <= 128
    }

    pub fn new() -> (ring: Ring)
        ensures
            ring.wf(),
            ring.next == 0,
            ring.count == 0,
            forall|i: int| 0 <= i < 128 ==> #[trigger] ring.samples@[i] == 0,
    {
        Ring { samples: [0;128], next: 0, count: 0 }
    }

    /// Adds a sample; the oldest goes when the ring is full.
    pub fn push(&mut self, sample: u32)
        requires
            old(self).wf(),
        ensures
            final(self).wf(),
            (final(self).samples@, final(self).next, final(self).count) == ring_pushed(
                (old(self).samples@, old(self).next, old(self).count),
                sample,
            ),
            final(self).samples@ == old(self).samples@.update(old(self).next as int, sample),
            final(self).next == (old(self).next + 1) % 128,
            final(self).count == (if old(self).count < 128 {
                old(self).count + 1
            } else {
                128
            }),
    {
        self.samples[self.next] = sample;
        assert(self.samples@ =~= old(self).samples@.update(old(self).next as int, sample));
        self.next = (self.next + 1) % 128;
        if self.count < 128 {
            self.count = self.count + 1;
        }
    }
}

pub open spec fn ascending() -> spec_fn(u32, u32) -> bool {
    |a: u32, b: u32| a <= b
}

/// The samples in ascending order.
pub open spec fn in_order(samples: Seq<u32>) -> Seq<u32> {
    samples.sort_by(ascending())
}

/// The `p`-th percentile of some samples.
pub open spec fn percentile(samples: Seq<u32>, p: int) -> u32 {
    in_order(samples)[(samples.len() - 1) * p / 100]
}

proof fn lemma_ascending_is_total()
    ensures
        vstd::relations::total_ordering(ascending()),
{
}

/// Median, 95th percentile and maximum of the first `n` samples of the ring.
pub fn map_percentiles(ring: &[u32; 128], n: usize) -> (out: (u32, u32, u32))
    requires
        n <= 128,
    ensures
        n == 0 ==> out == (0u32, 0u32, 0u32),
        n > 0 ==> out == (
            percentile(ring@.take(n as int), 50),
            percentile(ring@.take(n as int), 95),
            percentile(ring@.take(n as int), 100),
        ),
{
    if n == 0 {
        return (0, 0, 0);
    }
    let ghost samples = ring@.take(n as int);
    let mut sorted: Vec<u32> = Vec::new();
    let mut i: usize = 0;
    proof {
        assert(ring@.take(0) =~= Seq::<u32>::empty());
        assert(sorted@ =~= Seq::<u32>::empty());
    }
    while i < n
        invariant
            i <= n <= 128,
            sorted@.len() == i,
            sorted@.to_multiset() == ring@.take(i as int).to_multiset(),
            forall|a: int, b: int| 0 <= a <= b < i ==> sorted@[a] <= sorted@[b],
        decreases n - i,
    {
        let v: u32 = ring[i];
        let mut at: usize = 0;
        while at < sorted.len() && sorted[at] <= v
            invariant
                at <= sorted@.len(),
                sorted@.len() == i,
                i < 128,
                forall|a: int| 0 <= a < at ==> sorted@[a] <= v,
                forall|a: int, b: int| 0 <= a <= b < i ==> sorted@[a] <= sorted@[b],
            decreases sorted@.len() - at,
        {
            at = at + 1;
        }
        let ghost before = sorted@;
        sorted.insert(at, v);
        proof {
            lemma_insert_multiset(before, at as int, v);
            assert(sorted@ =~= before.insert(at as int, v));
            let prefix = ring@.take(i as int);
            prefix.to_multiset_ensures();
            assert(ring@.take(i + 1) =~= prefix.push(v));
            assert forall|a: int, b: int| 0 <= a <= b < i + 1 implies sorted@[a] <= sorted@[b] by {
                if a < at && b > at {
                    assert(before[a] <= v);
                    assert(before[at as int] > v);
                    assert(before[at as int] <= before[b - 1]);
                } else if a > at {
                    assert(before[a - 1] <= before[b - 1]);
                } else if a == at && b > at {
                    assert(before[at as int] <= before[b - 1]);
                }
            }
        }
        i = i + 1;
    }
    proof {
        lemma_ascending_is_total();
        samples.lemma_sort_by_ensures(ascending());
        assert(vstd::relations::sorted_by(sorted@, ascending()));
        vstd::seq_lib::lemma_sorted_unique(sorted@, in_order(samples), ascending());
        assert(sorted@ == in_order(samples));
    }
    let last: usize = n - 1;
    (sorted[last * 50 / 100], sorted[last * 95 / 100], sorted[last])
}

proof fn lemma_insert_multiset(s: Seq<u32>, i: int, v: u32)
    requires
        0 <= i <= s.len(),
    ensures
        s.insert(i, v).to_multiset() == s.to_multiset().insert(v),
{
    s.to_multiset_ensures();
    assert(s.insert(i, v) =~= s.take(i).push(v) + s.skip(i));
    vstd::seq_lib::lemma_multiset_commutative(s.take(i).push(v), s.skip(i));
    vstd::seq_lib::lemma_multiset_commutative(s.take(i), s.skip(i));
    s.take(i).to_multiset_ensures();
    assert(s =~= s.take(i) + s.skip(i));
    assert(s.insert(i, v).to_multiset() =~= s.to_multiset().insert(v));
}

/// A percentile is the sample at its place in the order: the samples sorted, and
/// of the steps from the first to the last as many as the percentage says, in
/// whole ones.
pub proof fn percentiles_are_in_order(samples: Seq<u32>, p: int, k: int)
    requires
        samples.len() > 0,
        0 <= p <= 100,
        100 * k <= (samples.len() - 1) * p < 100 * (k + 1),
    ensures
        ({
            let sorted = in_order(samples);
            &&& 0 <= k < samples.len()
            &&& sorted.len() == samples.len()
            &&& sorted.to_multiset() == samples.to_multiset()
            &&& forall|a: int, b: int|
                0 <= a <= b < sorted.len() ==> #[trigger] sorted[a] <= #[trigger] sorted[b]
            &&& percentile(samples, p) == sorted[k]
            &&& p == 100 ==> k == samples.len() - 1
            &&& p == 0 ==> k == 0
        }),
{
    lemma_ascending_is_total();
    samples.lemma_sort_by_ensures(ascending());
    let sorted = in_order(samples);
    samples.to_multiset_ensures();
    sorted.to_multiset_ensures();
    assert(sorted.to_multiset().len() == samples.to_multiset().len());
    let n = samples.len() - 1;
    assert(0 <= n * p <= 100 * n) by (nonlinear_arith)
        requires
            n >= 0,
            0 <= p <= 100,
    ;
    assert(k == n * p / 100);
    assert(p == 100 ==> n * p == 100 * n) by (nonlinear_arith);
    assert(p == 0 ==> n * p == 0) by (nonlinear_arith);
    assert forall|a: int, b: int| 0 <= a <= b < sorted.len() implies #[trigger] sorted[a]
        <= #[trigger] sorted[b] by {
        if a < b {
            assert(ascending()(sorted[a], sorted[b]));
        }
    }
}

} // verus!
