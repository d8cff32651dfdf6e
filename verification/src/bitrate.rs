//! Sliding-window bitrate measurement over recent payload sizes.
//!
//! A fixed-capacity FIFO of `(size, instant)` samples; the rate is eight
//! times the byte sum divided by the time elapsed since the oldest retained
//! sample. Instants are nanoseconds of a monotonic clock, rates are bits per
//! second.

use std::collections::VecDeque;
use vstd::prelude::*;

verus! {

/// Nanoseconds in one second.
pub const NANOS_PER_SEC: u64 = 1_000_000_000;

/// One recorded payload: its size in bytes and the monotonic instant at
/// which it was pushed.
pub struct BitrateSample {
    pub data_size: u32,
    pub time: u64,
}

/// Measures the average bitrate over the most recent samples.
pub struct BitrateMeasure {
    samples: VecDeque<BitrateSample>,
    samples_count: usize,
}

/// Sum of the byte sizes of a sample window.
pub open spec fn window_sum(s: Seq<BitrateSample>) -> int
    decreases s.len(),
{
    if s.len() == 0 {
        0
    } else {
        window_sum(s.drop_last()) + s.last().data_size
    }
}

/// The rate reported for a window at instant `now`: zero for an empty
/// window, saturated when no time has passed since the oldest sample, and
/// otherwise `8 * sum * 1e9 / (now - oldest)` bits per second, saturated at
/// `u64::MAX`.
pub open spec fn spec_rate(s: Seq<BitrateSample>, now: u64) -> u64 {
    if s.len() == 0 {
        0u64
    } else if now <= s[0].time {
        u64::MAX
    } else {
        let q = 8 * window_sum(s) * NANOS_PER_SEC / (now - s[0].time);
        if q > u64::MAX {
            u64::MAX
        } else {
            q as u64
        }
    }
}

impl View for BitrateMeasure {
    type V = Seq<BitrateSample>;

    closed spec fn view(&self) -> Seq<BitrateSample> {
        self.samples@
    }
}

impl BitrateMeasure {
    /// Capacity of the window: the oldest sample is evicted once this many
    /// are retained.
    pub closed spec fn capacity(&self) -> nat {
        self.samples_count as nat
    }

    /// Well-formedness: the window never exceeds its capacity and its
    /// timestamps are in push order (non-decreasing).
    pub open spec fn wf(&self) -> bool {
        &&& 1 <= self.capacity() <= 0xffff_ffff
        &&& self@.len() <= self.capacity()
        &&& forall|i: int, j: int|
            0 <= i <= j < self@.len() ==> #[trigger] self@[i].time <= #[trigger] self@[j].time
    }

    /// Create a meter that retains up to `samples_count` samples.
    pub fn new(samples_count: usize) -> (m: Self)
        requires
            1 <= samples_count <= 0xffff_ffff,
        ensures
            m.wf(),
            m@ == Seq::<BitrateSample>::empty(),
            m.capacity() == samples_count,
    {
        Self { samples: VecDeque::with_capacity(samples_count), samples_count }
    }

    /// Record a payload of `data_size` bytes at instant `now`, evicting the
    /// oldest sample if the window is full.
    pub fn push(&mut self, data_size: u32, now: u64)
        requires
            old(self).wf(),
            old(self)@.len() > 0 ==> old(self)@.last().time <= now,
        ensures
            final(self).wf(),
            final(self).capacity() == old(self).capacity(),
            final(self)@ == (if old(self)@.len() == old(self).capacity() {
                old(self)@.drop_first()
            } else {
                old(self)@
            }).push(BitrateSample { data_size, time: now }),
    {
        if self.samples.len() == self.samples_count {
            self.samples.pop_front();
        }
        self.samples.push_back(BitrateSample { data_size, time: now });
    }

    /// The measured bitrate at instant `now`, in bits per second.
    pub fn bitrate(&self, now: u64) -> (r: u64)
        requires
            self.wf(),
            self@.len() > 0 ==> self@.last().time <= now,
        ensures
            r == spec_rate(self@, now),
    {
        let n = self.samples.len();
        if n == 0 {
            return 0;
        }
        let first_time = self.samples[0].time;
        if now <= first_time {
            return u64::MAX;
        }
        let dt: u64 = now - first_time;

        let mut sum: u128 = 0;
        let mut i: usize = 0;
        while i < n
            invariant
                self.wf(),
                n == self@.len(),
                i <= n,
                sum == window_sum(self@.take(i as int)),
                sum <= i as int * 0xffff_ffff,
            decreases n - i,
        {
            proof {
                assert(self@.take(i + 1).drop_last() =~= self@.take(i as int));
                assert(sum + self@[i as int].data_size <= (i + 1) as int * 0xffff_ffff)
                    by (nonlinear_arith)
                    requires
                        sum <= i as int * 0xffff_ffff,
                        self@[i as int].data_size <= 0xffff_ffff,
                ;
            }
            sum = sum + (self.samples[i].data_size as u128);
            i = i + 1;
        }
        proof {
            assert(self@.take(n as int) =~= self@);
            assert(sum <= 0xffff_ffffu128 * 0xffff_ffffu128) by (nonlinear_arith)
                requires
                    sum <= n as int * 0xffff_ffff,
                    n <= 0xffff_ffff,
            ;
            assert(8 * sum * (NANOS_PER_SEC as u128) <= u128::MAX) by (nonlinear_arith)
                requires
                    sum <= 0xffff_ffffu128 * 0xffff_ffffu128,
            ;
        }

        let scaled: u128 = 8 * sum * (NANOS_PER_SEC as u128);
        let q: u128 = scaled / (dt as u128);
        if q > u64::MAX as u128 {
            u64::MAX
        } else {
            q as u64
        }
    }
}

/// Law: the measured rate is zero exactly when the window is empty, for any
/// window whose byte sum is positive and old enough that the quotient does
/// not round down to zero.
pub proof fn lemma_rate_zero_iff_empty(s: Seq<BitrateSample>, now: u64)
    requires
        s.len() > 0 ==> window_sum(s) > 0,
        s.len() > 0 ==> now - s[0].time <= 8 * window_sum(s) * NANOS_PER_SEC,
    ensures
        spec_rate(s, now) == 0 <==> s.len() == 0,
{
    if s.len() > 0 && now > s[0].time {
        let dt = now - s[0].time;
        assert(8 * window_sum(s) * NANOS_PER_SEC / dt >= 1) by (nonlinear_arith)
            requires
                1 <= dt <= 8 * window_sum(s) * NANOS_PER_SEC,
        ;
    }
}

} // verus!
