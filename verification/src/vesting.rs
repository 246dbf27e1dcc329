//! Linear vesting: how much of a stream is due at a given moment.
use vstd::prelude::*;

use crate::types::{Stream, StreamStatus};

verus! {

/// The largest sum a stream may hold: the largest one whose product with every
/// number of seconds fits an `i128`, so that vesting never overflows.
pub const MAX_AMOUNT: i128 = 9_223_372_036_854_775_808;

/// Full progress, in basis points.
pub const FULL_PROGRESS: u32 = 10_000;

impl Stream {
    /// How much has vested at `now`, withdrawn or not: nothing before the
    /// cliff, everything from the end on, and in between the total in
    /// proportion to the time since the start, rounded down. Once the stream is
    /// cancelled, the clock has no say any more: its total is what had vested.
    pub open spec fn vested_at(self, now: u64) -> int {
        if self.cancelled {
            self.total_amount as int
        } else if now < self.cliff_time {
            0
        } else if now >= self.end_time {
            self.total_amount as int
        } else {
            (self.total_amount * (now - self.start_time)) / (self.end_time - self.start_time)
        }
    }

    /// How much of what has vested at `now` the recipient has yet to take.
    pub open spec fn withdrawable_at(self, now: u64) -> int {
        if self.vested_at(now) > self.withdrawn {
            self.vested_at(now) - self.withdrawn
        } else {
            0
        }
    }

    /// How much has yet to vest at `now`.
    pub open spec fn locked_at(self, now: u64) -> int {
        self.total_amount - self.vested_at(now)
    }

    /// The vested share of the total at `now`, in basis points, rounded down.
    /// Nothing is left to vest of an empty total.
    pub open spec fn progress_at(self, now: u64) -> int {
        if self.total_amount == 0 {
            FULL_PROGRESS as int
        } else {
            (self.vested_at(now) * FULL_PROGRESS) / (self.total_amount as int)
        }
    }

    /// Where the stream stands at `now`.
    pub open spec fn status_at(self, now: u64) -> StreamStatus {
        if self.cancelled {
            StreamStatus::Cancelled
        } else if now < self.start_time {
            StreamStatus::Pending
        } else if now < self.end_time {
            StreamStatus::Streaming
        } else {
            StreamStatus::Completed
        }
    }

    /// How much has vested at `now`, including what was withdrawn.
    pub fn vested_amount(&self, now: u64) -> (amount: i128)
        requires
            self.well_formed(),
        ensures
            amount == self.vested_at(now),
            0 <= amount <= self.total_amount,
    {
        proof {
            lemma_vested_bounds(*self, now);
        }
        if self.cancelled {
            return self.total_amount;
        }
        if now < self.cliff_time {
            return 0;
        }
        if now >= self.end_time {
            return self.total_amount;
        }
        let elapsed: i128 = (now - self.start_time) as i128;
        let duration: i128 = (self.end_time - self.start_time) as i128;
        proof {
            lemma_product_fits(self.total_amount as int, elapsed as int);
        }
        self.total_amount * elapsed / duration
    }

    /// How much the recipient can withdraw at `now`.
    pub fn withdrawable_amount(&self, now: u64) -> (amount: i128)
        requires
            self.well_formed(),
        ensures
            amount == self.withdrawable_at(now),
            0 <= amount <= self.total_amount - self.withdrawn,
    {
        let vested: i128 = self.vested_amount(now);
        if vested > self.withdrawn {
            vested - self.withdrawn
        } else {
            0
        }
    }

    /// How much has yet to vest at `now`.
    pub fn locked_amount(&self, now: u64) -> (amount: i128)
        requires
            self.well_formed(),
        ensures
            amount == self.locked_at(now),
            0 <= amount <= self.total_amount,
    {
        self.total_amount - self.vested_amount(now)
    }

    /// Vesting progress at `now`, in basis points.
    pub fn progress(&self, now: u64) -> (points: u32)
        requires
            self.well_formed(),
        ensures
            points == self.progress_at(now),
            points <= FULL_PROGRESS,
    {
        if self.total_amount == 0 {
            return FULL_PROGRESS;
        }
        let vested: i128 = self.vested_amount(now);
        proof {
            lemma_progress_bounds(*self, now);
        }
        (vested * FULL_PROGRESS as i128 / self.total_amount) as u32
    }

    /// Where the stream stands at `now`.
    pub fn status(&self, now: u64) -> (status: StreamStatus)
        ensures
            status == self.status_at(now),
    {
        if self.cancelled {
            StreamStatus::Cancelled
        } else if now < self.start_time {
            StreamStatus::Pending
        } else if now < self.end_time {
            StreamStatus::Streaming
        } else {
            StreamStatus::Completed
        }
    }
}

/// An admissible amount times a number of seconds fits an `i128`.
pub(crate) proof fn lemma_product_fits(amount: int, seconds: int)
    requires
        0 <= amount <= MAX_AMOUNT,
        0 <= seconds <= u64::MAX,
    ensures
        0 <= amount * seconds <= i128::MAX,
{
    assert(0 <= amount * seconds <= MAX_AMOUNT * u64::MAX) by (nonlinear_arith)
        requires
            0 <= amount <= MAX_AMOUNT,
            0 <= seconds <= u64::MAX,
    ;
}

/// What has vested is never negative and never above the total; before the end
/// of a stream that nobody cancelled it is strictly below.
pub(crate) proof fn lemma_vested_bounds(stream: Stream, now: u64)
    requires
        stream.well_formed(),
    ensures
        0 <= stream.vested_at(now) <= stream.total_amount,
        !stream.cancelled && now < stream.end_time ==> stream.vested_at(now)
            < stream.total_amount,
{
    if !stream.cancelled && stream.cliff_time <= now < stream.end_time {
        let total = stream.total_amount as int;
        let elapsed = now - stream.start_time;
        let duration = stream.end_time - stream.start_time;
        assert(0 <= (total * elapsed) / duration <= total && (total > 0 ==> (total * elapsed)
            / duration < total)) by (nonlinear_arith)
            requires
                0 <= total,
                0 <= elapsed < duration,
        ;
    }
}

/// Progress is at most full.
pub(crate) proof fn lemma_progress_bounds(stream: Stream, now: u64)
    requires
        stream.well_formed(),
        stream.total_amount > 0,
    ensures
        0 <= stream.progress_at(now) <= FULL_PROGRESS,
        0 <= stream.vested_at(now) * FULL_PROGRESS <= i128::MAX,
{
    lemma_vested_bounds(stream, now);
    let vested = stream.vested_at(now);
    let total = stream.total_amount as int;
    assert(0 <= (vested * 10_000) / total <= 10_000) by (nonlinear_arith)
        requires
            0 <= vested <= total,
            0 < total,
    ;
}

} // verus!
