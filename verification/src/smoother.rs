//! Damped tracking of upstream bandwidth estimates.
//!
//! A window of recent estimates is averaged, and the average is committed
//! as the new target only when it differs from the committed target by at
//! least a factor of two, or when more than the damp interval has passed
//! since the previous commit. This avoids thrashing the encoder's rate
//! control on every tick while still reacting fast to large changes.

use std::collections::VecDeque;
use vstd::prelude::*;

verus! {

/// Estimates retained by the smoother.
pub const ESTIMATION_WINDOW: usize = 60;

/// Seed target: 10 Mbit/s.
pub const INITIAL_BITRATE: u64 = 10_000_000;

/// A commit is forced once more than this has passed since the last one: 3 s.
pub const COMMIT_INTERVAL_NANOS: u64 = 3_000_000_000;

/// Tracks the committed target bitrate, in bits per second.
pub struct CurrentBitrate {
    estimations: VecDeque<u64>,
    bitrate: u64,
    last_update: u64,
}

/// Sum of a window of estimates.
pub open spec fn estimation_sum(s: Seq<u64>) -> int
    decreases s.len(),
{
    if s.len() == 0 {
        0
    } else {
        estimation_sum(s.drop_last()) + s.last()
    }
}

/// Arithmetic mean of a non-empty window, rounded down.
pub open spec fn spec_mean(s: Seq<u64>) -> int {
    estimation_sum(s) / s.len() as int
}

/// Whether the ratio between `a` and `b` (larger over smaller) is at least
/// two. A zero beside a non-zero counts as an unbounded ratio; two zeros
/// have no defined ratio and do not qualify.
pub open spec fn ratio_at_least_double(a: int, b: int) -> bool {
    if a == 0 && b == 0 {
        false
    } else {
        a >= 2 * b || b >= 2 * a
    }
}

/// The commit rule: commit when the new mean is at least twice or at most
/// half the committed target, or when more than the damp interval has
/// passed since the last commit.
pub open spec fn spec_commit(new_mean: int, committed: u64, last_update: u64, now: u64) -> bool {
    ratio_at_least_double(new_mean, committed as int) || now - last_update
        > COMMIT_INTERVAL_NANOS
}

impl View for CurrentBitrate {
    type V = Seq<u64>;

    closed spec fn view(&self) -> Seq<u64> {
        self.estimations@
    }
}

impl CurrentBitrate {
    /// The committed target bitrate.
    pub closed spec fn committed(&self) -> u64 {
        self.bitrate
    }

    /// The instant of the last commit.
    pub closed spec fn last_commit(&self) -> u64 {
        self.last_update
    }

    /// Well-formedness: the window is never empty and never exceeds its
    /// fixed size.
    pub open spec fn wf(&self) -> bool {
        1 <= self@.len() <= ESTIMATION_WINDOW
    }

    /// Create a smoother seeded with the initial target at instant `now`.
    pub fn new(now: u64) -> (c: Self)
        ensures
            c.wf(),
            c@ == seq![INITIAL_BITRATE],
            c.committed() == INITIAL_BITRATE,
            c.last_commit() == now,
    {
        let mut estimations: VecDeque<u64> = VecDeque::with_capacity(ESTIMATION_WINDOW);
        estimations.push_back(INITIAL_BITRATE);
        proof {
            assert(estimations@ =~= seq![INITIAL_BITRATE]);
        }
        Self { estimations, bitrate: INITIAL_BITRATE, last_update: now }
    }

    /// The committed target bitrate, in bits per second.
    pub fn bitrate_target(&self) -> (r: u64)
        ensures
            r == self.committed(),
    {
        self.bitrate
    }

    /// Arithmetic mean of the current window, rounded down.
    pub fn average_estimated(&self) -> (r: u64)
        requires
            self.wf(),
        ensures
            r == spec_mean(self@),
    {
        let n = self.estimations.len();
        let mut sum: u128 = 0;
        let mut i: usize = 0;
        while i < n
            invariant
                self.wf(),
                n == self@.len(),
                i <= n,
                sum == estimation_sum(self@.take(i as int)),
                sum <= i as int * u64::MAX,
            decreases n - i,
        {
            proof {
                assert(self@.take(i + 1).drop_last() =~= self@.take(i as int));
                assert(sum + self@[i as int] <= (i + 1) as int * u64::MAX) by (nonlinear_arith)
                    requires
                        sum <= i as int * u64::MAX,
                        self@[i as int] <= u64::MAX,
                ;
            }
            sum = sum + (self.estimations[i] as u128);
            i = i + 1;
        }
        proof {
            assert(self@.take(n as int) =~= self@);
        }
        let mean: u128 = sum / (n as u128);
        proof {
            assert(sum as int / n as int <= u64::MAX) by (nonlinear_arith)
                requires
                    1 <= n as int,
                    0 <= sum <= n as int * u64::MAX,
            ;
        }
        mean as u64
    }

    /// Append `estimation` to the window (evicting the oldest if full),
    /// average, and commit the average as the new target exactly when the
    /// commit rule says so. Returns whether a commit occurred.
    pub fn update(&mut self, estimation: u64, now: u64) -> (committed: bool)
        requires
            old(self).wf(),
            old(self).last_commit() <= now,
        ensures
            final(self).wf(),
            final(self)@ == (if old(self)@.len() == ESTIMATION_WINDOW {
                old(self)@.drop_first()
            } else {
                old(self)@
            }).push(estimation),
            committed == spec_commit(
                spec_mean(final(self)@),
                old(self).committed(),
                old(self).last_commit(),
                now,
            ),
            committed ==> final(self).committed() == spec_mean(final(self)@)
                && final(self).last_commit() == now,
            !committed ==> final(self).committed() == old(self).committed()
                && final(self).last_commit() == old(self).last_commit(),
    {
        if self.estimations.len() == ESTIMATION_WINDOW {
            self.estimations.pop_front();
        }
        self.estimations.push_back(estimation);

        let new: u64 = self.average_estimated();

        let ratio_double: bool = if new == 0 && self.bitrate == 0 {
            false
        } else {
            (new as u128) >= 2 * (self.bitrate as u128) || (self.bitrate as u128) >= 2 * (
            new as u128)
        };
        let update_now: bool = ratio_double || now - self.last_update > COMMIT_INTERVAL_NANOS;
        if update_now {
            self.bitrate = new;
            self.last_update = now;
        }
        update_now
    }
}

} // verus!
