//! What holds of the contract's calls, one after the other.
use vstd::prelude::*;

use crate::contract::{ContractState, ENTRY_TTL};
use crate::error::StreamError;
use crate::events::{opening, refund, withdrawal, Transfer};
use crate::laws::schedule::{law_everything_vests_by_the_end, law_vesting_never_runs_backwards};
use crate::terms::Terms;
use crate::types::{Address, Stream, StreamStatus};
use crate::vesting::{lemma_vested_bounds, FULL_PROGRESS};

verus! {

/// A call that may change the contract.
pub enum Call {
    Create { terms: Terms },
    Withdraw { id: u64 },
    WithdrawAmount { id: u64, amount: i128 },
    Cancel { id: u64 },
}

impl Call {
    /// Whether the call is made on stream `id`.
    pub open spec fn names(self, id: u64) -> bool {
        match self {
            Call::Create { terms } => false,
            Call::Withdraw { id: named } => named == id,
            Call::WithdrawAmount { id: named, amount } => named == id,
            Call::Cancel { id: named } => named == id,
        }
    }
}

impl ContractState {
    /// Why `call` is refused at `now`, if it is.
    pub open spec fn refusal(self, call: Call, now: u64) -> Option<StreamError> {
        match call {
            Call::Create { terms } => self.create_refusal(terms, now),
            Call::Withdraw { id } => self.withdraw_refusal(id, now),
            Call::WithdrawAmount { id, amount } => self.withdraw_amount_refusal(id, amount, now),
            Call::Cancel { id } => self.cancel_refusal(id, now),
        }
    }

    /// The state after `call` was accepted at `now`.
    pub open spec fn after(self, call: Call, now: u64) -> ContractState {
        match call {
            Call::Create { terms } => self.after_create(terms),
            Call::Withdraw { id } => {
                let stream = self.streams[id];
                self.keeping(id, stream.after_withdrawal(stream.withdrawable_at(now) as i128))
            },
            Call::WithdrawAmount { id, amount } => self.keeping(
                id,
                self.streams[id].after_withdrawal(amount),
            ),
            Call::Cancel { id } => self.keeping(id, self.streams[id].after_cancel(now)),
        }
    }

    /// What the host has to move for `call` once it was accepted at `now`.
    pub open spec fn transfer(self, call: Call, now: u64) -> Transfer {
        match call {
            Call::Create { terms } => opening(
                self.address,
                self.stream_count,
                terms.stream(),
                ENTRY_TTL,
            ).transfer,
            Call::Withdraw { id } => {
                let stream = self.streams[id];
                withdrawal(
                    self.address,
                    id,
                    stream,
                    stream.withdrawable_at(now) as i128,
                ).transfer
            },
            Call::WithdrawAmount { id, amount } => withdrawal(
                self.address,
                id,
                self.streams[id],
                amount,
            ).transfer,
            Call::Cancel { id } => {
                let stream = self.streams[id];
                refund(
                    self.address,
                    id,
                    stream,
                    (stream.total_amount - stream.kept_at(now)) as i128,
                ).transfer
            },
        }
    }

    /// Whose authorization `call` needs.
    pub open spec fn authorizer(self, call: Call) -> Address {
        match call {
            Call::Create { terms } => terms.sender,
            Call::Withdraw { id } => self.streams[id].recipient,
            Call::WithdrawAmount { id, amount } => self.streams[id].recipient,
            Call::Cancel { id } => self.streams[id].sender,
        }
    }

    /// The ids in use lie below the count, so that the next id is a new one.
    /// There may be gaps, as where the count was set forward.
    pub open spec fn next_id_is_new(self) -> bool {
        forall|id: u64| #[trigger] self.streams.contains_key(id) ==> id < self.stream_count
    }

    /// The ids in use are exactly those below the count.
    pub open spec fn contiguous(self) -> bool {
        forall|id: u64| #[trigger] self.streams.contains_key(id) <==> id < self.stream_count
    }

    /// Nobody took more than has vested at `now`. So it is as long as the clock
    /// never runs backwards.
    pub open spec fn on_schedule(self, now: u64) -> bool {
        forall|id: u64| #[trigger]
            self.streams.contains_key(id) ==> self.streams[id].withdrawn
                <= self.streams[id].vested_at(now)
    }
}

/// A stream is never opened with everything vested already: at the moment it is
/// opened, its status is pending or streaming and something is locked.
pub proof fn law_a_new_stream_has_something_left_to_vest(
    state: ContractState,
    terms: Terms,
    now: u64,
)
    requires
        state.create_refusal(terms, now) is None,
    ensures
        terms.stream().well_formed(),
        terms.stream().locked_at(now) > 0,
        terms.stream().status_at(now) == StreamStatus::Pending || terms.stream().status_at(now)
            == StreamStatus::Streaming,
{
    lemma_vested_bounds(terms.stream(), now);
}

/// A new stream gets the next id, which nobody has used, and every stream that
/// was there stays as it is. The id after it is new again, and ids that were
/// contiguous stay so.
pub proof fn law_ids_are_contiguous_and_never_reused(
    state: ContractState,
    terms: Terms,
    now: u64,
)
    requires
        state.next_id_is_new(),
        state.create_refusal(terms, now) is None,
    ensures
        state.stream(state.stream_count) is None,
        state.after_create(terms).stream(state.stream_count) == Some(terms.stream()),
        state.after_create(terms).stream_count == state.stream_count + 1,
        state.after_create(terms).next_id_is_new(),
        state.contiguous() ==> state.after_create(terms).contiguous(),
        forall|id: u64|
            id != state.stream_count ==> #[trigger] state.after_create(terms).stream(id)
                == state.stream(id),
{
    lemma_ids_after(state, Call::Create { terms }, now);
}

/// The ids in use after an accepted call.
proof fn lemma_ids_after(state: ContractState, call: Call, now: u64)
    requires
        state.next_id_is_new(),
        state.refusal(call, now) is None,
    ensures
        state.after(call, now).next_id_is_new(),
        state.contiguous() ==> state.after(call, now).contiguous(),
{
    let after = state.after(call, now);
    assert forall|id: u64| #[trigger] after.streams.contains_key(id) implies id
        < after.stream_count by {
        assert(state.streams.contains_key(id) ==> id < state.stream_count);
    }
    if state.contiguous() {
        assert forall|id: u64| #[trigger] after.streams.contains_key(id) <==> id
            < after.stream_count by {
            assert(state.streams.contains_key(id) <==> id < state.stream_count);
        }
    }
}

/// Once every id has been handed out, no terms are accepted any more, and the
/// largest number is still no stream's id.
pub proof fn law_exhaustion_is_final(state: ContractState, terms: Terms, now: u64)
    requires
        state.next_id_is_new(),
        state.stream_count == u64::MAX,
    ensures
        state.create_refusal(terms, now) is Some,
        terms.refusal(state.address, now) is None ==> state.create_refusal(terms, now) == Some(
            StreamError::StreamCountExhausted,
        ),
        state.stream(u64::MAX) is None,
{
}

/// The count has no say over the streams that are there: whatever it is, they
/// are withdrawn from and cancelled in the same way.
pub proof fn law_the_count_does_not_matter_to_existing_streams(
    state: ContractState,
    count: u64,
    call: Call,
    now: u64,
)
    requires
        !(call is Create),
    ensures
        ({
            let other = ContractState { stream_count: count, ..state };
            &&& other.refusal(call, now) == state.refusal(call, now)
            &&& other.transfer(call, now) == state.transfer(call, now)
            &&& other.after(call, now).streams == state.after(call, now).streams
        }),
{
}

/// Only opening a stream moves the count, and it moves it by one.
pub proof fn law_the_count_counts_creations(state: ContractState, call: Call, now: u64)
    requires
        state.refusal(call, now) is None,
    ensures
        state.after(call, now).stream_count == state.stream_count + if call is Create {
            1int
        } else {
            0
        },
        state.after(call, now).address == state.address,
{
}

/// A call leaves every stream alone but the one it names. That one stays in
/// place, between the same parties and in the same token, and no call takes
/// back what was withdrawn or adds to the total.
pub proof fn law_a_call_touches_only_the_stream_it_names(
    state: ContractState,
    call: Call,
    now: u64,
    id: u64,
)
    requires
        state.well_formed(),
        state.next_id_is_new(),
        state.refusal(call, now) is None,
        state.streams.contains_key(id),
    ensures
        state.after(call, now).streams.contains_key(id),
        ({
            let before = state.streams[id];
            let after = state.after(call, now).streams[id];
            &&& after.sender == before.sender
            &&& after.recipient == before.recipient
            &&& after.token == before.token
            &&& before.withdrawn <= after.withdrawn
            &&& after.total_amount <= before.total_amount
            &&& before.cancelled ==> after.cancelled && after.total_amount == before.total_amount
            &&& !call.names(id) ==> after == before
        }),
{
    assert(state.admits(state.streams[id]));
    lemma_vested_bounds(state.streams[id], now);
}

/// A call looks only at the stream it names, or, where it opens one, at the
/// place that the new stream takes: two contracts at the same address and with
/// the same count that agree on that stream answer the call alike, move the same
/// tokens on the same party's authorization, and agree on the stream and the
/// count afterwards. So one record is all that has to be read for a call, and all
/// that has to be written back.
pub proof fn law_a_call_looks_only_at_the_stream_it_names(
    state: ContractState,
    other: ContractState,
    call: Call,
    now: u64,
    id: u64,
)
    requires
        state.address == other.address,
        state.stream_count == other.stream_count,
        state.stream(id) == other.stream(id),
        call.names(id) || (call is Create && id == state.stream_count),
    ensures
        state.refusal(call, now) == other.refusal(call, now),
        state.refusal(call, now) is None ==> {
            &&& state.authorizer(call) == other.authorizer(call)
            &&& state.transfer(call, now) == other.transfer(call, now)
            &&& state.after(call, now).stream(id) == other.after(call, now).stream(id)
            &&& state.after(call, now).stream_count == other.after(call, now).stream_count
            &&& state.after(call, now).address == other.after(call, now).address
            &&& forall|j: u64|
                j != id ==> #[trigger] state.after(call, now).stream(j) == state.stream(j)
        },
{
}

/// Only the two parties of a stream can change it: a call that does needs the
/// recipient's authorization, pays the recipient and changes nothing but what was
/// withdrawn, or needs the sender's, cancels the stream and leaves what was
/// withdrawn alone.
pub proof fn law_only_the_parties_affect_a_stream(
    state: ContractState,
    call: Call,
    now: u64,
    id: u64,
)
    requires
        state.well_formed(),
        state.next_id_is_new(),
        state.refusal(call, now) is None,
        state.streams.contains_key(id),
        state.after(call, now).streams[id] != state.streams[id],
    ensures
        ({
            let stream = state.streams[id];
            let after = state.after(call, now).streams[id];
            let transfer = state.transfer(call, now);
            &&& transfer.from == state.address
            &&& transfer.token == stream.token
            &&& if call is Cancel {
                &&& state.authorizer(call) == stream.sender
                &&& transfer.to == stream.sender
                &&& !stream.cancelled
                &&& after.cancelled
                &&& after.withdrawn == stream.withdrawn
            } else {
                &&& state.authorizer(call) == stream.recipient
                &&& transfer.to == stream.recipient
                &&& after == (Stream { withdrawn: after.withdrawn, ..stream })
            }
        }),
{
    law_a_call_touches_only_the_stream_it_names(state, call, now, id);
}

/// Withdrawing changes nothing but what was withdrawn: not the schedule, not
/// what has vested or is locked, not progress and not the status.
pub proof fn law_withdrawing_leaves_the_schedule_alone(stream: Stream, amount: i128, now: u64)
    ensures
        ({
            let after = stream.after_withdrawal(amount);
            &&& after.vested_at(now) == stream.vested_at(now)
            &&& after.locked_at(now) == stream.locked_at(now)
            &&& after.progress_at(now) == stream.progress_at(now)
            &&& after.status_at(now) == stream.status_at(now)
        }),
{
}

/// A partial withdrawal lowers what is available by exactly what was taken.
pub proof fn law_available_falls_by_what_is_taken(stream: Stream, amount: i128, now: u64)
    requires
        stream.well_formed(),
        0 < amount <= stream.withdrawable_at(now),
    ensures
        stream.after_withdrawal(amount).well_formed(),
        stream.after_withdrawal(amount).withdrawn == stream.withdrawn + amount,
        stream.after_withdrawal(amount).withdrawable_at(now) == stream.withdrawable_at(now)
            - amount,
{
    lemma_vested_bounds(stream, now);
}

/// After everything available was withdrawn, a second withdrawal at the same
/// moment is refused, whole or partial.
pub proof fn law_no_second_withdrawal_without_progress(
    state: ContractState,
    id: u64,
    amount: i128,
    now: u64,
)
    requires
        state.well_formed(),
        state.withdraw_refusal(id, now) is None,
        amount > 0,
    ensures
        ({
            let after = state.after(Call::Withdraw { id }, now);
            &&& after.streams[id].withdrawable_at(now) == 0
            &&& after.withdraw_refusal(id, now) == Some(StreamError::NothingToWithdraw)
            &&& after.withdraw_amount_refusal(id, amount, now) == Some(
                StreamError::InsufficientBalance,
            )
        }),
{
    let stream = state.streams[id];
    assert(state.streams.contains_key(id));
    assert(state.admits(stream));
    lemma_vested_bounds(stream, now);
    law_available_falls_by_what_is_taken(stream, stream.withdrawable_at(now) as i128, now);
}

/// Whole and partial withdrawals mix freely: taking a part and then the rest
/// leaves the stream exactly as taking everything at once, and pays the same.
pub proof fn law_a_part_and_the_rest_make_the_whole(stream: Stream, part: i128, now: u64)
    requires
        stream.well_formed(),
        0 < part <= stream.withdrawable_at(now),
    ensures
        ({
            let whole = stream.withdrawable_at(now) as i128;
            let rest = stream.after_withdrawal(part).withdrawable_at(now) as i128;
            &&& part + rest == whole
            &&& stream.after_withdrawal(part).after_withdrawal(rest) == stream.after_withdrawal(
                whole,
            )
        }),
{
    lemma_vested_bounds(stream, now);
    law_available_falls_by_what_is_taken(stream, part, now);
}

/// Cancelling splits what is left and loses nothing: the refund and what the
/// recipient keeps, taken or not, make up the total.
pub proof fn law_cancelling_splits_the_total(stream: Stream, now: u64)
    requires
        stream.well_formed(),
        !stream.cancelled,
    ensures
        ({
            let after = stream.after_cancel(now);
            let refunded = stream.total_amount - stream.kept_at(now);
            &&& after.well_formed()
            &&& after.total_amount + refunded == stream.total_amount
            &&& 0 <= refunded
            &&& after.withdrawn == stream.withdrawn
        }),
{
    lemma_vested_bounds(stream, now);
}

/// On a clock that never ran backwards the sender gets back exactly what was
/// still locked, which is never nothing, and the recipient keeps exactly what
/// had vested.
pub proof fn law_cancelling_refunds_what_is_locked(state: ContractState, id: u64, now: u64)
    requires
        state.well_formed(),
        state.on_schedule(now),
        state.cancel_refusal(id, now) is None,
    ensures
        ({
            let stream = state.streams[id];
            let after = state.after(Call::Cancel { id }, now).streams[id];
            &&& state.transfer(Call::Cancel { id }, now).amount == stream.locked_at(now)
            &&& stream.locked_at(now) > 0
            &&& after.total_amount == stream.vested_at(now)
        }),
{
    assert(state.streams.contains_key(id));
    assert(state.admits(state.streams[id]));
    lemma_vested_bounds(state.streams[id], now);
}

/// Once a stream was cancelled the clock has no say any more: whatever it shows,
/// nothing is locked, progress is full, the status is cancelled, and what the
/// recipient could withdraw at the moment of cancellation stays available, no
/// more and no less, until it is taken.
pub proof fn law_a_cancelled_stream_is_frozen(stream: Stream, now: u64, any_time: u64)
    requires
        stream.well_formed(),
        !stream.cancelled,
    ensures
        ({
            let after = stream.after_cancel(now);
            &&& after.vested_at(any_time) == after.total_amount
            &&& after.withdrawable_at(any_time) == stream.withdrawable_at(now)
            &&& after.locked_at(any_time) == 0
            &&& after.progress_at(any_time) == FULL_PROGRESS
            &&& after.status_at(any_time) == StreamStatus::Cancelled
        }),
{
    law_cancelling_splits_the_total(stream, now);
    law_everything_vests_by_the_end(stream.after_cancel(now), any_time);
    lemma_vested_bounds(stream, now);
}

/// A cancelled stream reports nothing locked and full progress, even when it was
/// stopped early; everything of it that was not withdrawn can be.
pub proof fn law_a_cancelled_stream_has_nothing_left_to_vest(
    state: ContractState,
    id: u64,
    now: u64,
)
    requires
        state.well_formed(),
        state.stream(id) matches Some(stream) && stream.cancelled,
    ensures
        ({
            let stream = state.streams[id];
            &&& stream.status_at(now) == StreamStatus::Cancelled
            &&& stream.vested_at(now) == stream.total_amount
            &&& stream.withdrawable_at(now) == stream.total_amount - stream.withdrawn
            &&& stream.locked_at(now) == 0
            &&& stream.progress_at(now) == FULL_PROGRESS
        }),
{
    assert(state.admits(state.streams[id]));
    law_everything_vests_by_the_end(state.streams[id], now);
}

/// Cancelled is for good: whatever is called, the stream stays cancelled and can
/// never be cancelled again.
pub proof fn law_cancelled_is_for_good(
    state: ContractState,
    id: u64,
    call: Call,
    now: u64,
    later: u64,
)
    requires
        state.well_formed(),
        state.next_id_is_new(),
        state.streams.contains_key(id),
        state.streams[id].cancelled,
        state.refusal(call, now) is None,
    ensures
        state.cancel_refusal(id, now) == Some(StreamError::AlreadyCancelled),
        state.after(call, now).cancel_refusal(id, later) == Some(StreamError::AlreadyCancelled),
{
    law_a_call_touches_only_the_stream_it_names(state, call, now, id);
}

/// A stream that has run to its end can never be cancelled any more: whatever is
/// called, it stays completed.
pub proof fn law_a_completed_stream_cannot_be_cancelled(
    state: ContractState,
    id: u64,
    call: Call,
    now: u64,
    later: u64,
)
    requires
        state.well_formed(),
        state.next_id_is_new(),
        state.stream(id) matches Some(stream) && stream.status_at(now)
            == StreamStatus::Completed,
        state.refusal(call, now) is None,
        now <= later,
    ensures
        state.cancel_refusal(id, now) == Some(StreamError::StreamAlreadyCompleted),
        state.after(call, now).streams[id].status_at(later) == StreamStatus::Completed,
        state.after(call, now).cancel_refusal(id, later) == Some(
            StreamError::StreamAlreadyCompleted,
        ),
{
    law_a_call_touches_only_the_stream_it_names(state, call, now, id);
}

/// The event of a new stream says enough to record the stream: two openings
/// that publish the same event keep the same stream under the same id.
pub proof fn law_the_created_event_tells_everything(
    contract: Address,
    first_id: u64,
    first: Terms,
    second_id: u64,
    second: Terms,
)
    requires
        opening(contract, first_id, first.stream(), ENTRY_TTL).event == opening(
            contract,
            second_id,
            second.stream(),
            ENTRY_TTL,
        ).event,
    ensures
        first_id == second_id,
        first.stream() == second.stream(),
{
}

/// An accepted call keeps the contract well formed, its next id new, and its ids
/// contiguous where they were. On a clock that has not run backwards it also
/// keeps every recipient on schedule, at that moment and from then on.
pub proof fn law_calls_keep_the_contract_in_order(
    state: ContractState,
    call: Call,
    now: u64,
    later: u64,
)
    requires
        state.well_formed(),
        state.next_id_is_new(),
        state.refusal(call, now) is None,
        now <= later,
    ensures
        state.after(call, now).well_formed(),
        state.after(call, now).next_id_is_new(),
        state.contiguous() ==> state.after(call, now).contiguous(),
        state.on_schedule(now) ==> state.after(call, now).on_schedule(later),
{
    let after = state.after(call, now);
    assert forall|id: u64| #[trigger] after.streams.contains_key(id) implies after.admits(
        after.streams[id],
    ) by {
        if state.streams.contains_key(id) {
            assert(state.admits(state.streams[id]));
            lemma_vested_bounds(state.streams[id], now);
        }
    }
    lemma_ids_after(state, call, now);
    if state.on_schedule(now) {
        assert forall|id: u64| #[trigger] after.streams.contains_key(id) implies
            after.streams[id].withdrawn <= after.streams[id].vested_at(later) by {
            let stream = after.streams[id];
            lemma_vested_bounds(stream, now);
            if state.streams.contains_key(id) {
                assert(state.admits(state.streams[id]));
                lemma_vested_bounds(state.streams[id], now);
            }
            law_vesting_never_runs_backwards(stream, now, later);
        }
    }
}

} // verus!
