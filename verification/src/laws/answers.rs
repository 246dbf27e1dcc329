//! What each call is for: when it has to be accepted, why else it is refused, and
//! what it then does.
use vstd::prelude::*;

use crate::contract::{ContractState, ENTRY_TTL};
use crate::error::StreamError;
use crate::events::{opening, refund, withdrawal, Event};
use crate::laws::calls::Call;
use crate::terms::{can_take_part, Terms};
use crate::types::{Address, Stream};
use crate::vesting::{lemma_vested_bounds, MAX_AMOUNT};

verus! {

/// Three addresses can deal with each other through a contract exactly when no
/// address occurs twice among the four.
pub proof fn law_nobody_plays_two_roles(
    contract: Address,
    sender: Address,
    recipient: Address,
    token: Address,
)
    ensures
        can_take_part(contract, sender, recipient, token) <==> seq![
            contract,
            sender,
            recipient,
            token,
        ].no_duplicates(),
{
    let four = seq![contract, sender, recipient, token];
    assert(four[0] == contract && four[1] == sender && four[2] == recipient && four[3] == token);
}

/// Sound terms are always accepted as long as an id is left, and no others are:
/// four different addresses, an amount that is positive and not too large, a
/// window of at least a second that ends in the future, and a cliff inside it.
/// Whether the window has opened already has no say.
pub proof fn law_sound_terms_are_accepted(state: ContractState, terms: Terms, now: u64)
    ensures
        state.create_refusal(terms, now) is None <==> {
            &&& seq![
                state.address,
                terms.sender,
                terms.recipient,
                terms.token,
            ].no_duplicates()
            &&& 0 < terms.total_amount <= MAX_AMOUNT
            &&& terms.start_time < terms.end_time
            &&& terms.start_time <= terms.cliff_time <= terms.end_time
            &&& now < terms.end_time
            &&& state.stream_count < u64::MAX
        },
{
    law_nobody_plays_two_roles(state.address, terms.sender, terms.recipient, terms.token);
}

/// Each rule that terms can break has its own error, which is reported exactly
/// when the terms break that rule and none of the rules before it.
pub proof fn law_the_first_broken_rule_is_reported(state: ContractState, terms: Terms, now: u64)
    ensures
        ({
            let refusal = state.create_refusal(terms, now);
            let parties = seq![
                state.address,
                terms.sender,
                terms.recipient,
                terms.token,
            ].no_duplicates();
            let positive = parties && terms.total_amount > 0;
            let bounded = positive && terms.total_amount <= MAX_AMOUNT;
            let ranged = bounded && terms.start_time < terms.end_time;
            let gated = ranged && terms.start_time <= terms.cliff_time <= terms.end_time;
            let ahead = gated && now < terms.end_time;
            &&& refusal == Some(StreamError::InvalidParticipant) <==> !parties
            &&& refusal == Some(StreamError::InvalidAmount) <==> parties && !positive
            &&& refusal == Some(StreamError::AmountTooLarge) <==> positive && !bounded
            &&& refusal == Some(StreamError::InvalidTimeRange) <==> bounded && !ranged
            &&& refusal == Some(StreamError::InvalidCliff) <==> ranged && !gated
            &&& refusal == Some(StreamError::StreamWindowInPast) <==> gated && !ahead
            &&& refusal == Some(StreamError::StreamCountExhausted) <==> ahead && state.stream_count
                == u64::MAX
            &&& ahead <==> terms.refusal(state.address, now) is None
            &&& !ahead ==> terms.refusal(state.address, now) == refusal
        }),
{
    law_nobody_plays_two_roles(state.address, terms.sender, terms.recipient, terms.token);
}

/// An accepted opening keeps the terms under the next id, with nothing withdrawn
/// and not cancelled, and asks for the whole amount from the sender. What it
/// publishes and returns names that id and those terms.
pub proof fn law_an_opening_keeps_the_terms(state: ContractState, terms: Terms, now: u64)
    requires
        state.create_refusal(terms, now) is None,
    ensures
        ({
            let id = state.stream_count;
            let after = state.after(Call::Create { terms }, now);
            let stream = after.streams[id];
            let opened = opening(state.address, id, terms.stream(), ENTRY_TTL);
            &&& after.streams.contains_key(id)
            &&& stream.sender == terms.sender
            &&& stream.recipient == terms.recipient
            &&& stream.token == terms.token
            &&& stream.total_amount == terms.total_amount
            &&& stream.withdrawn == 0
            &&& stream.start_time == terms.start_time
            &&& stream.end_time == terms.end_time
            &&& stream.cliff_time == terms.cliff_time
            &&& !stream.cancelled
            &&& stream == terms.stream()
            &&& after.streams.remove(id) =~= state.streams.remove(id)
            &&& after.stream_count == id + 1
            &&& after.address == state.address
            &&& opened.id == id
            &&& opened.ttl == ENTRY_TTL
            &&& opened.transfer == state.transfer(Call::Create { terms }, now)
            &&& opened.transfer.token == terms.token
            &&& opened.transfer.from == terms.sender
            &&& opened.transfer.to == state.address
            &&& opened.transfer.amount == terms.total_amount
            &&& opened.event == Event::Created {
                sender: terms.sender,
                recipient: terms.recipient,
                id,
                token: terms.token,
                total_amount: terms.total_amount,
                start_time: terms.start_time,
                end_time: terms.end_time,
                cliff_time: terms.cliff_time,
            }
        }),
{
}

/// The recipient can take whatever has vested at any moment: a withdrawal is
/// refused for a stream that is not there and where nothing more has vested than
/// was taken, and never else, however little is due.
pub proof fn law_whatever_has_vested_can_be_withdrawn(state: ContractState, id: u64, now: u64)
    ensures
        ({
            let refusal = state.withdraw_refusal(id, now);
            let kept = state.streams.contains_key(id);
            let due = state.streams[id].vested_at(now) - state.streams[id].withdrawn;
            &&& refusal is None <==> kept && due > 0
            &&& refusal == Some(StreamError::NothingToWithdraw) <==> kept && due <= 0
            &&& refusal == Some(StreamError::StreamNotFound) <==> !kept
        }),
{
}

/// Any part of what has vested and was not taken can be withdrawn, down to a
/// single unit and up to all of it. No other amount can.
pub proof fn law_any_part_of_what_has_vested_can_be_withdrawn(
    state: ContractState,
    id: u64,
    amount: i128,
    now: u64,
)
    ensures
        ({
            let refusal = state.withdraw_amount_refusal(id, amount, now);
            let kept = state.streams.contains_key(id);
            let due = state.streams[id].vested_at(now) - state.streams[id].withdrawn;
            &&& refusal is None <==> kept && 0 < amount <= due
            &&& refusal == Some(StreamError::InsufficientBalance) <==> kept && amount > 0 && amount
                > due
            &&& refusal == Some(StreamError::InvalidAmount) <==> kept && amount <= 0
            &&& refusal == Some(StreamError::StreamNotFound) <==> !kept
        }),
{
}

/// Withdrawing pays the recipient out of the contract, exactly what was asked for
/// or, where no amount was named, exactly what was due, and books it as
/// withdrawn. Nothing else changes.
pub proof fn law_a_withdrawal_pays_and_books_the_same(state: ContractState, call: Call, now: u64)
    requires
        state.well_formed(),
        call is Withdraw || call is WithdrawAmount,
        state.refusal(call, now) is None,
    ensures
        ({
            let (id, amount) = match call {
                Call::WithdrawAmount { id, amount } => (id, amount as int),
                Call::Withdraw { id } => (
                    id,
                    state.streams[id].vested_at(now) - state.streams[id].withdrawn,
                ),
                _ => (0, 0),
            };
            let stream = state.streams[id];
            let after = state.after(call, now);
            let transfer = state.transfer(call, now);
            let paid = withdrawal(state.address, id, stream, transfer.amount);
            &&& after.streams.contains_key(id)
            &&& after.streams[id] == (Stream { withdrawn: after.streams[id].withdrawn, ..stream })
            &&& after.streams[id].withdrawn == stream.withdrawn + amount
            &&& after.streams.remove(id) =~= state.streams.remove(id)
            &&& after.stream_count == state.stream_count
            &&& after.address == state.address
            &&& transfer.token == stream.token
            &&& transfer.from == state.address
            &&& transfer.to == stream.recipient
            &&& transfer.amount == amount
            &&& paid.amount == amount
            &&& paid.transfer == transfer
            &&& paid.event == Event::Withdrawn {
                sender: stream.sender,
                recipient: stream.recipient,
                id,
                amount: transfer.amount,
            }
        }),
{
    match call {
        Call::Withdraw { id } => lemma_bounds(state, id, now),
        Call::WithdrawAmount { id, amount } => lemma_bounds(state, id, now),
        _ => {},
    }
}

/// Withdrawing without naming an amount is the same as naming everything that is
/// available: one call is accepted exactly when the other is, moves the same
/// tokens and leaves the same state. One unit more is refused.
pub proof fn law_withdrawing_is_naming_all_that_is_available(
    state: ContractState,
    id: u64,
    now: u64,
)
    requires
        state.well_formed(),
        state.streams.contains_key(id),
        state.streams[id].withdrawable_at(now) > 0,
    ensures
        ({
            let all = state.streams[id].withdrawable_at(now) as i128;
            let whole = Call::Withdraw { id };
            let named = Call::WithdrawAmount { id, amount: all };
            let more = Call::WithdrawAmount { id, amount: (all + 1) as i128 };
            &&& state.refusal(whole, now) is None
            &&& state.refusal(named, now) is None
            &&& state.transfer(whole, now) == state.transfer(named, now)
            &&& state.after(whole, now) == state.after(named, now)
            &&& state.refusal(more, now) == Some(StreamError::InsufficientBalance)
        }),
{
    lemma_bounds(state, id, now);
}

/// The sender can cancel every stream that was not cancelled yet, at any moment
/// before its end: before the start, before the cliff, and whatever was
/// withdrawn. From the end on, and a second time, the call is refused.
pub proof fn law_a_running_stream_can_be_cancelled(state: ContractState, id: u64, now: u64)
    ensures
        ({
            let refusal = state.cancel_refusal(id, now);
            let kept = state.streams.contains_key(id);
            let stream = state.streams[id];
            &&& refusal is None <==> kept && !stream.cancelled && now < stream.end_time
            &&& refusal == Some(StreamError::StreamAlreadyCompleted) <==> kept && !stream.cancelled
                && stream.end_time <= now
            &&& refusal == Some(StreamError::AlreadyCancelled) <==> kept && stream.cancelled
            &&& refusal == Some(StreamError::StreamNotFound) <==> !kept
        }),
{
}

/// Cancelling leaves with the recipient what has vested, or what was taken where
/// that is more, and pays the rest of the total back to the sender. The stream is
/// closed on the spot, and nothing else changes.
pub proof fn law_cancelling_pays_back_what_has_not_vested(
    state: ContractState,
    id: u64,
    now: u64,
)
    requires
        state.well_formed(),
        state.cancel_refusal(id, now) is None,
    ensures
        ({
            let call = Call::Cancel { id };
            let stream = state.streams[id];
            let after = state.after(call, now);
            let closed = after.streams[id];
            let transfer = state.transfer(call, now);
            let paid = refund(state.address, id, stream, transfer.amount);
            &&& after.streams.contains_key(id)
            &&& closed.cancelled
            &&& closed.sender == stream.sender
            &&& closed.recipient == stream.recipient
            &&& closed.token == stream.token
            &&& closed.withdrawn == stream.withdrawn
            &&& stream.vested_at(now) >= stream.withdrawn ==> closed.total_amount
                == stream.vested_at(now)
            &&& stream.vested_at(now) <= stream.withdrawn ==> closed.total_amount
                == stream.withdrawn
            &&& closed.start_time == now
            &&& closed.cliff_time == now
            &&& closed.end_time == now
            &&& after.streams.remove(id) =~= state.streams.remove(id)
            &&& after.stream_count == state.stream_count
            &&& after.address == state.address
            &&& transfer.token == stream.token
            &&& transfer.from == state.address
            &&& transfer.to == stream.sender
            &&& transfer.amount + closed.total_amount == stream.total_amount
            &&& paid.amount == transfer.amount
            &&& paid.transfer == transfer
            &&& paid.event == Event::Cancelled {
                sender: stream.sender,
                recipient: stream.recipient,
                id,
                refund: transfer.amount,
            }
        }),
{
    lemma_bounds(state, id, now);
}

/// What is known of a stream that is kept.
proof fn lemma_bounds(state: ContractState, id: u64, now: u64)
    requires
        state.well_formed(),
        state.streams.contains_key(id),
    ensures
        state.streams[id].well_formed(),
        0 <= state.streams[id].vested_at(now) <= state.streams[id].total_amount,
{
    assert(state.admits(state.streams[id]));
    lemma_vested_bounds(state.streams[id], now);
}

/// A contract starts out empty, at the address it was deployed at.
pub proof fn law_a_new_contract_is_empty(address: Address, id: u64)
    ensures
        ContractState::fresh(address).address == address,
        ContractState::fresh(address).stream_count == 0,
        ContractState::fresh(address).stream(id) is None,
        !ContractState::fresh(address).streams.contains_key(id),
{
}

/// A stream that is kept under an id is what is read back under that id, whatever
/// became of it, and nothing is read where nothing is kept. Keeping it changes
/// nothing under any other id.
pub proof fn law_a_read_gives_back_what_is_kept(
    state: ContractState,
    id: u64,
    stream: Stream,
    other: u64,
)
    ensures
        state.stream(id) is Some <==> state.streams.contains_key(id),
        state.streams.contains_key(id) ==> state.stream(id) == Some(state.streams[id]),
        state.keeping(id, stream).stream(id) == Some(stream),
        other != id ==> state.keeping(id, stream).stream(other) == state.stream(other),
        state.keeping(id, stream).stream_count == state.stream_count,
        state.keeping(id, stream).address == state.address,
{
}

/// A record is taken for a stream of this contract exactly when no address plays
/// two roles in it, no more was taken than there is, the total is one that vests
/// without overflow, the cliff lies within the window, and the window is closed
/// if the stream was cancelled and open, with something to vest, if it was not.
pub proof fn law_which_records_are_admitted(state: ContractState, stream: Stream)
    ensures
        state.admits(stream) <==> {
            &&& seq![
                state.address,
                stream.sender,
                stream.recipient,
                stream.token,
            ].no_duplicates()
            &&& stream.well_formed()
        },
        stream.well_formed() <==> {
            &&& 0 <= stream.withdrawn
            &&& stream.withdrawn <= stream.total_amount
            &&& stream.total_amount <= MAX_AMOUNT
            &&& stream.start_time <= stream.cliff_time
            &&& stream.cliff_time <= stream.end_time
            &&& stream.cancelled <==> stream.start_time == stream.end_time
            &&& !stream.cancelled ==> stream.total_amount > 0
        },
{
    law_nobody_plays_two_roles(state.address, stream.sender, stream.recipient, stream.token);
}

/// The records of running streams are exactly those that come of opening a stream
/// and withdrawing from it: whatever was taken of sound terms makes a record that
/// is admitted, and every record of a running stream that is admitted is one.
pub proof fn law_a_running_record_comes_of_sound_terms(
    state: ContractState,
    stream: Stream,
    now: u64,
)
    requires
        !stream.cancelled,
        now < stream.end_time,
        state.stream_count < u64::MAX,
    ensures
        state.admits(stream) <==> {
            let terms = Terms {
                sender: stream.sender,
                recipient: stream.recipient,
                token: stream.token,
                total_amount: stream.total_amount,
                start_time: stream.start_time,
                end_time: stream.end_time,
                cliff_time: stream.cliff_time,
            };
            &&& state.create_refusal(terms, now) is None
            &&& stream == terms.stream().after_withdrawal(stream.withdrawn)
            &&& 0 <= stream.withdrawn <= terms.total_amount
        },
{
}

} // verus!
