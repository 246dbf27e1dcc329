//! What holds of one stream as the clock moves.
use vstd::prelude::*;

use crate::types::{Stream, StreamStatus};
use crate::vesting::{
    lemma_product_fits, lemma_progress_bounds, lemma_vested_bounds, FULL_PROGRESS, MAX_AMOUNT,
};

verus! {

/// Before the cliff nothing has vested and nothing can be withdrawn, however
/// much time has passed since the start; the whole total is locked.
pub proof fn law_nothing_vests_before_the_cliff(stream: Stream, now: u64)
    requires
        stream.well_formed(),
        !stream.cancelled,
        now < stream.cliff_time,
    ensures
        stream.vested_at(now) == 0,
        stream.withdrawable_at(now) == 0,
        stream.locked_at(now) == stream.total_amount,
{
}

/// Up to the start, too, nothing has vested, and progress is nil.
pub proof fn law_nothing_vests_up_to_the_start(stream: Stream, now: u64)
    requires
        stream.well_formed(),
        !stream.cancelled,
        now <= stream.start_time,
    ensures
        stream.vested_at(now) == 0,
        stream.withdrawable_at(now) == 0,
        stream.locked_at(now) == stream.total_amount,
        stream.progress_at(now) == 0,
{
    let total = stream.total_amount as int;
    let duration = stream.end_time - stream.start_time;
    assert((total * 0) / duration == 0) by (nonlinear_arith)
        requires
            duration > 0,
    ;
    assert((0 * 10_000int) / total == 0) by (nonlinear_arith)
        requires
            total > 0,
    ;
}

/// From the end on, and once a stream is cancelled at any time, exactly the
/// total has vested: nothing is locked, progress is full, and whatever was not
/// withdrawn can be.
pub proof fn law_everything_vests_by_the_end(stream: Stream, now: u64)
    requires
        stream.well_formed(),
        stream.end_time <= now || stream.cancelled,
    ensures
        stream.vested_at(now) == stream.total_amount,
        stream.withdrawable_at(now) == stream.total_amount - stream.withdrawn,
        stream.locked_at(now) == 0,
        stream.progress_at(now) == FULL_PROGRESS,
{
    let total = stream.total_amount as int;
    if total > 0 {
        assert((total * 10_000) / total == 10_000) by (nonlinear_arith)
            requires
                total > 0,
        ;
    }
}

/// What has vested is never negative and never above the total.
pub proof fn law_vested_is_within_the_total(stream: Stream, now: u64)
    requires
        stream.well_formed(),
    ensures
        0 <= stream.vested_at(now) <= stream.total_amount,
        0 <= stream.withdrawable_at(now) <= stream.total_amount - stream.withdrawn,
        0 <= stream.locked_at(now) <= stream.total_amount,
{
    lemma_vested_bounds(stream, now);
}

/// As time passes, what has vested never shrinks, what is locked never grows,
/// and what can be withdrawn never shrinks.
pub proof fn law_vesting_never_runs_backwards(stream: Stream, earlier: u64, later: u64)
    requires
        stream.well_formed(),
        earlier <= later,
    ensures
        stream.vested_at(earlier) <= stream.vested_at(later),
        stream.withdrawable_at(earlier) <= stream.withdrawable_at(later),
        stream.locked_at(earlier) >= stream.locked_at(later),
        stream.progress_at(earlier) <= stream.progress_at(later),
{
    lemma_vested_bounds(stream, earlier);
    lemma_vested_bounds(stream, later);
    let total = stream.total_amount as int;
    if !stream.cancelled && stream.cliff_time <= earlier && later < stream.end_time {
        let e = earlier - stream.start_time;
        let l = later - stream.start_time;
        let duration = stream.end_time - stream.start_time;
        assert(total * e <= total * l) by (nonlinear_arith)
            requires
                0 <= total,
                e <= l,
        ;
        vstd::arithmetic::div_mod::lemma_div_is_ordered(total * e, total * l, duration);
    }
    if total > 0 {
        let v = stream.vested_at(earlier);
        let w = stream.vested_at(later);
        vstd::arithmetic::div_mod::lemma_div_is_ordered(v * 10_000, w * 10_000, total);
    }
}

/// The vested and the locked amount always sum to the total.
pub proof fn law_vested_and_locked_sum_to_the_total(stream: Stream, now: u64)
    ensures
        stream.vested_at(now) + stream.locked_at(now) == stream.total_amount,
{
}

/// A cliff only holds vesting back: from the cliff on, the same has vested as
/// without one, so everything accrued since the start unlocks at once.
pub proof fn law_the_cliff_only_delays(stream: Stream, now: u64)
    requires
        stream.well_formed(),
        stream.cliff_time <= now,
    ensures
        stream.vested_at(now) == (Stream { cliff_time: stream.start_time, ..stream }).vested_at(
            now,
        ),
{
}

/// Within the window the vested amount is the total's share of the elapsed
/// time, to within one unit, and always short of the total.
pub proof fn law_vesting_is_linear(stream: Stream, now: u64)
    requires
        stream.well_formed(),
        stream.cliff_time <= now < stream.end_time,
    ensures
        ({
            let elapsed = now - stream.start_time;
            let duration = stream.end_time - stream.start_time;
            let vested = stream.vested_at(now);
            &&& vested * duration <= stream.total_amount * elapsed < (vested + 1) * duration
            &&& vested < stream.total_amount
        }),
{
    lemma_vested_bounds(stream, now);
    let product = stream.total_amount * (now - stream.start_time);
    let duration = stream.end_time - stream.start_time;
    let vested = stream.vested_at(now);
    vstd::arithmetic::div_mod::lemma_fundamental_div_mod(product, duration);
    assert(vested * duration <= product < (vested + 1) * duration) by (nonlinear_arith)
        requires
            product == duration * vested + product % duration,
            0 <= product % duration < duration,
    ;
}

/// What can be withdrawn and what was withdrawn make up what has vested. Only
/// where more was withdrawn than has vested, as on a clock that ran backwards, is
/// there nothing to withdraw.
pub proof fn law_available_is_what_vested_and_was_not_taken(stream: Stream, now: u64)
    ensures
        stream.withdrawable_at(now) >= 0,
        stream.vested_at(now) >= stream.withdrawn ==> stream.withdrawn + stream.withdrawable_at(now)
            == stream.vested_at(now),
        stream.vested_at(now) <= stream.withdrawn ==> stream.withdrawable_at(now) == 0,
{
}

/// Progress is the vested share of the total in ten-thousandths, to within one of
/// them; a stream with an empty total is all the way through.
pub proof fn law_progress_is_the_vested_share(stream: Stream, now: u64)
    requires
        stream.well_formed(),
    ensures
        ({
            let total = stream.total_amount as int;
            let points = stream.progress_at(now);
            let scaled = stream.vested_at(now) * 10_000;
            &&& total > 0 ==> points * total <= scaled < (points + 1) * total
            &&& total == 0 ==> points == 10_000
        }),
{
    let total = stream.total_amount as int;
    let scaled = stream.vested_at(now) * 10_000;
    let points = stream.progress_at(now);
    if total > 0 {
        vstd::arithmetic::div_mod::lemma_fundamental_div_mod(scaled, total);
        assert(points * total <= scaled < (points + 1) * total) by (nonlinear_arith)
            requires
                scaled == total * points + scaled % total,
                0 <= scaled % total < total,
        ;
    }
}

/// Progress lies between 0 and full, in basis points.
pub proof fn law_progress_is_within_bounds(stream: Stream, now: u64)
    requires
        stream.well_formed(),
    ensures
        0 <= stream.progress_at(now) <= FULL_PROGRESS,
{
    if stream.total_amount > 0 {
        lemma_progress_bounds(stream, now);
    }
}

/// No admissible amount overflows an `i128` when it is multiplied by a number
/// of seconds, and no larger bound has that property.
pub proof fn law_the_largest_amount_never_overflows(amount: int, seconds: u64)
    requires
        0 <= amount <= MAX_AMOUNT,
    ensures
        0 <= amount * seconds <= i128::MAX,
        (MAX_AMOUNT + 1) * u64::MAX > i128::MAX,
{
    lemma_product_fits(amount, seconds as int);
}

/// A stream that nobody cancelled is pending up to its start, completed from its
/// end on and streaming in between; the cliff and what was withdrawn have no say.
/// One that was cancelled is cancelled at any time.
pub proof fn law_status_is_read_off_the_window(stream: Stream, now: u64)
    ensures
        stream.status_at(now) == StreamStatus::Cancelled <==> stream.cancelled,
        !stream.cancelled ==> {
            &&& stream.status_at(now) == StreamStatus::Pending <==> now < stream.start_time
            &&& stream.status_at(now) == StreamStatus::Streaming <==> stream.start_time <= now
                < stream.end_time
            &&& stream.status_at(now) == StreamStatus::Completed <==> stream.start_time <= now
                && stream.end_time <= now
        },
{
}

/// A stream that nobody cancels goes from pending to streaming to completed
/// and never back, and it is completed exactly when everything has vested.
pub proof fn law_status_follows_the_clock(stream: Stream, earlier: u64, later: u64)
    requires
        stream.well_formed(),
        !stream.cancelled,
        earlier <= later,
    ensures
        stream.status_at(later) == StreamStatus::Pending ==> stream.status_at(earlier)
            == StreamStatus::Pending,
        stream.status_at(earlier) == StreamStatus::Completed ==> stream.status_at(later)
            == StreamStatus::Completed,
        stream.status_at(later) == StreamStatus::Completed <==> stream.vested_at(later)
            == stream.total_amount,
{
    lemma_vested_bounds(stream, later);
}

} // verus!
