//! The contract: the streams it keeps and the calls it answers.
//!
//! The contract decides; the host around it acts. A call that succeeds changes
//! the contract's own state and hands back what the host has to do: which
//! tokens to move, what to publish and how long to keep the state alive. A call
//! that is refused changes nothing.
use std::collections::HashMap;
use vstd::prelude::*;

use crate::error::StreamError;
use crate::events::{opening, refund, withdrawal, Event, Opening, Payment, Transfer};
use crate::laws::calls::Call;
use crate::terms::{can_take_part, check_participants, Terms};
use crate::types::{Address, Stream, StreamStatus};

verus! {

broadcast use vstd::std_specs::hash::group_hash_axioms;

/// For how many ledgers the contract instance and a stream's entry are kept
/// alive once a stream is opened: thirty days of five-second ledgers.
pub const ENTRY_TTL: u32 = 518_400;

/// A deployed stream contract: its address, the number of streams it has
/// opened and the streams themselves.
pub struct StreamContract {
    address: Address,
    stream_count: u64,
    streams: HashMap<u64, Stream>,
}

/// What a [`StreamContract`] stands for.
#[verifier::ext_equal]
pub struct ContractState {
    pub address: Address,
    pub stream_count: u64,
    pub streams: Map<u64, Stream>,
}

impl View for StreamContract {
    type V = ContractState;

    closed spec fn view(&self) -> ContractState {
        ContractState {
            address: self.address,
            stream_count: self.stream_count,
            streams: self.streams@,
        }
    }
}

impl Stream {
    /// What stays with the recipient when the stream is cancelled at `now`:
    /// everything vested by then. On a clock that never runs backwards the
    /// recipient cannot have taken more than that; what was taken stays taken.
    pub open spec fn kept_at(self, now: u64) -> int {
        if self.vested_at(now) > self.withdrawn {
            self.vested_at(now)
        } else {
            self.withdrawn as int
        }
    }

    /// The stream after the recipient took `amount`.
    pub open spec fn after_withdrawal(self, amount: i128) -> Stream {
        Stream { withdrawn: (self.withdrawn + amount) as i128, ..self }
    }

    /// The stream after the sender cancelled it at `now`: the total is frozen
    /// at what the recipient keeps, and the window closes.
    pub open spec fn after_cancel(self, now: u64) -> Stream {
        Stream {
            total_amount: self.kept_at(now) as i128,
            start_time: now,
            end_time: now,
            cliff_time: now,
            cancelled: true,
            ..self
        }
    }
}

impl ContractState {
    /// A contract that has opened no stream yet.
    pub open spec fn fresh(address: Address) -> ContractState {
        ContractState { address, stream_count: 0, streams: Map::empty() }
    }

    /// The stream kept under `id`, if there is one.
    pub open spec fn stream(self, id: u64) -> Option<Stream> {
        if self.streams.contains_key(id) {
            Some(self.streams[id])
        } else {
            None
        }
    }

    /// Whether `stream` can be among the streams of this contract.
    pub open spec fn admits(self, stream: Stream) -> bool {
        &&& stream.well_formed()
        &&& can_take_part(self.address, stream.sender, stream.recipient, stream.token)
    }

    /// Every stream that is kept is one that the contract admits.
    pub open spec fn well_formed(self) -> bool {
        forall|id: u64| #[trigger]
            self.streams.contains_key(id) ==> self.admits(self.streams[id])
    }

    /// The state with `stream` kept under `id`.
    pub open spec fn keeping(self, id: u64, stream: Stream) -> ContractState {
        ContractState { streams: self.streams.insert(id, stream), ..self }
    }

    /// Why a stream on `terms` is refused at `now`, if it is. That no id is
    /// left is reported only where the terms themselves are sound.
    pub open spec fn create_refusal(self, terms: Terms, now: u64) -> Option<StreamError> {
        match terms.refusal(self.address, now) {
            Some(error) => Some(error),
            None => if self.stream_count == u64::MAX {
                Some(StreamError::StreamCountExhausted)
            } else {
                None
            },
        }
    }

    /// The state after a stream on `terms` was opened: it has the next id.
    pub open spec fn after_create(self, terms: Terms) -> ContractState {
        ContractState {
            stream_count: (self.stream_count + 1) as u64,
            streams: self.streams.insert(self.stream_count, terms.stream()),
            ..self
        }
    }

    /// Why taking everything available of stream `id` is refused at `now`, if
    /// it is.
    pub open spec fn withdraw_refusal(self, id: u64, now: u64) -> Option<StreamError> {
        match self.stream(id) {
            None => Some(StreamError::StreamNotFound),
            Some(stream) => if stream.withdrawable_at(now) == 0 {
                Some(StreamError::NothingToWithdraw)
            } else {
                None
            },
        }
    }

    /// Why taking `amount` of stream `id` is refused at `now`, if it is.
    pub open spec fn withdraw_amount_refusal(self, id: u64, amount: i128, now: u64) -> Option<
        StreamError,
    > {
        match self.stream(id) {
            None => Some(StreamError::StreamNotFound),
            Some(stream) => if amount <= 0 {
                Some(StreamError::InvalidAmount)
            } else if amount > stream.withdrawable_at(now) {
                Some(StreamError::InsufficientBalance)
            } else {
                None
            },
        }
    }

    /// Why cancelling stream `id` is refused at `now`, if it is.
    pub open spec fn cancel_refusal(self, id: u64, now: u64) -> Option<StreamError> {
        match self.stream(id) {
            None => Some(StreamError::StreamNotFound),
            Some(stream) => if stream.cancelled {
                Some(StreamError::AlreadyCancelled)
            } else if now >= stream.end_time {
                Some(StreamError::StreamAlreadyCompleted)
            } else {
                None
            },
        }
    }
}

impl StreamContract {
    /// A contract at `address` that has opened no stream yet.
    pub fn new(address: Address) -> (contract: StreamContract)
        ensures
            contract@ == ContractState::fresh(address),
            contract@.well_formed(),
    {
        StreamContract { address, stream_count: 0, streams: HashMap::new() }
    }

    /// The address the contract is deployed at.
    pub fn address(&self) -> (address: Address)
        ensures
            address == self@.address,
    {
        self.address
    }

    /// The number of streams created, which is the id of the next one.
    pub fn stream_count(&self) -> (count: u64)
        ensures
            count == self@.stream_count,
    {
        self.stream_count
    }

    /// Sets the number of streams created to `count`, as read back from where
    /// the host keeps it.
    pub fn set_stream_count(&mut self, count: u64)
        ensures
            final(self)@ == (ContractState { stream_count: count, ..old(self)@ }),
            old(self)@.well_formed() ==> final(self)@.well_formed(),
    {
        self.stream_count = count;
        assert(self@ =~= (ContractState { stream_count: count, ..old(self)@ }));
    }

    /// Keeps `stream` under `id`, as read back from where the host keeps it.
    /// A record that this contract cannot have written is turned away.
    pub fn restore_stream(&mut self, id: u64, stream: Stream) -> (restored: bool)
        requires
            old(self)@.well_formed(),
        ensures
            restored == old(self)@.admits(stream),
            restored ==> final(self)@ == old(self)@.keeping(id, stream),
            !restored ==> *final(self) == *old(self),
            final(self)@.well_formed(),
    {
        if !stream.check_well_formed() {
            return false;
        }
        if !check_participants(self.address, stream.sender, stream.recipient, stream.token) {
            return false;
        }
        self.streams.insert(id, stream);
        assert(self@ =~= old(self)@.keeping(id, stream));
        true
    }

    /// The stream kept under `id`.
    pub fn get_stream(&self, id: u64) -> (result: Result<Stream, StreamError>)
        ensures
            match result {
                Ok(stream) => self@.stream(id) == Some(stream),
                Err(error) => self@.stream(id) is None && error == StreamError::StreamNotFound,
            },
    {
        match self.streams.get(&id) {
            Some(stream) => Ok(*stream),
            None => Err(StreamError::StreamNotFound),
        }
    }

    /// Opens a stream and returns what has to be done for it. The call needs
    /// the authorization of `sender`.
    ///
    /// The refusals are checked in this order: the participants, the amount,
    /// the schedule (range, cliff, end of the window) and last whether an id is
    /// left.
    pub fn create_stream(
        &mut self,
        sender: Address,
        recipient: Address,
        token: Address,
        total_amount: i128,
        start_time: u64,
        end_time: u64,
        cliff_time: u64,
        now: u64,
    ) -> (result: Result<Opening, StreamError>)
        requires
            old(self)@.well_formed(),
        ensures
            final(self)@.well_formed(),
            ({
                let terms = Terms {
                    sender,
                    recipient,
                    token,
                    total_amount,
                    start_time,
                    end_time,
                    cliff_time,
                };
                match result {
                    Ok(opened) => {
                        &&& old(self)@.create_refusal(terms, now) is None
                        &&& opened == opening(
                            old(self)@.address,
                            old(self)@.stream_count,
                            terms.stream(),
                            ENTRY_TTL,
                        )
                        &&& opened.transfer == old(self)@.transfer(Call::Create { terms }, now)
                        &&& final(self)@ == old(self)@.after_create(terms)
                        &&& final(self)@ == old(self)@.after(Call::Create { terms }, now)
                    },
                    Err(error) => {
                        &&& old(self)@.create_refusal(terms, now) == Some(error)
                        &&& *final(self) == *old(self)
                    },
                }
            }),
    {
        let terms = Terms {
            sender,
            recipient,
            token,
            total_amount,
            start_time,
            end_time,
            cliff_time,
        };
        let stream = match terms.accept(self.address, now) {
            Ok(stream) => stream,
            Err(error) => {
                return Err(error);
            },
        };
        let id: u64 = self.stream_count;
        let next: u64 = match id.checked_add(1) {
            Some(next) => next,
            None => {
                return Err(StreamError::StreamCountExhausted);
            },
        };
        self.stream_count = next;
        self.streams.insert(id, stream);
        assert(self@ =~= old(self)@.after_create(terms));
        Ok(
            Opening {
                id,
                transfer: Transfer { token, from: sender, to: self.address, amount: total_amount },
                ttl: ENTRY_TTL,
                event: Event::Created {
                    sender,
                    recipient,
                    id,
                    token,
                    total_amount,
                    start_time,
                    end_time,
                    cliff_time,
                },
            },
        )
    }

    /// Whose authorization a withdrawal from stream `id` needs: its
    /// recipient's.
    pub fn withdraw_authorizer(&self, id: u64) -> (result: Result<Address, StreamError>)
        ensures
            match result {
                Ok(address) => self@.stream(id) matches Some(stream) && address
                    == stream.recipient && address == self@.authorizer(Call::Withdraw { id }),
                Err(error) => self@.stream(id) is None && error == StreamError::StreamNotFound,
            },
    {
        match self.get_stream(id) {
            Ok(stream) => Ok(stream.recipient),
            Err(error) => Err(error),
        }
    }

    /// Whose authorization cancelling stream `id` needs: its sender's.
    pub fn cancel_authorizer(&self, id: u64) -> (result: Result<Address, StreamError>)
        ensures
            match result {
                Ok(address) => self@.stream(id) matches Some(stream) && address == stream.sender
                    && address == self@.authorizer(Call::Cancel { id }),
                Err(error) => self@.stream(id) is None && error == StreamError::StreamNotFound,
            },
    {
        match self.get_stream(id) {
            Ok(stream) => Ok(stream.sender),
            Err(error) => Err(error),
        }
    }

    /// Takes everything that is available of stream `id` at `now` for its
    /// recipient.
    pub fn withdraw(&mut self, id: u64, now: u64) -> (result: Result<Payment, StreamError>)
        requires
            old(self)@.well_formed(),
        ensures
            final(self)@.well_formed(),
            match result {
                Ok(paid) => {
                    let stream = old(self)@.streams[id];
                    &&& old(self)@.withdraw_refusal(id, now) is None
                    &&& paid.amount == stream.withdrawable_at(now)
                    &&& paid == withdrawal(old(self)@.address, id, stream, paid.amount)
                    &&& final(self)@ == old(self)@.keeping(
                        id,
                        stream.after_withdrawal(paid.amount),
                    )
                    &&& paid.transfer == old(self)@.transfer(Call::Withdraw { id }, now)
                    &&& final(self)@ == old(self)@.after(Call::Withdraw { id }, now)
                },
                Err(error) => {
                    &&& old(self)@.withdraw_refusal(id, now) == Some(error)
                    &&& *final(self) == *old(self)
                },
            },
    {
        let stream = match self.get_stream(id) {
            Ok(stream) => stream,
            Err(error) => {
                return Err(error);
            },
        };
        let amount: i128 = stream.withdrawable_amount(now);
        if amount == 0 {
            return Err(StreamError::NothingToWithdraw);
        }
        Ok(self.pay_recipient(id, stream, amount))
    }

    /// Takes exactly `amount` of stream `id` at `now` for its recipient.
    pub fn withdraw_amount(&mut self, id: u64, amount: i128, now: u64) -> (result: Result<
        Payment,
        StreamError,
    >)
        requires
            old(self)@.well_formed(),
        ensures
            final(self)@.well_formed(),
            match result {
                Ok(paid) => {
                    let stream = old(self)@.streams[id];
                    &&& old(self)@.withdraw_amount_refusal(id, amount, now) is None
                    &&& paid == withdrawal(old(self)@.address, id, stream, amount)
                    &&& final(self)@ == old(self)@.keeping(id, stream.after_withdrawal(amount))
                    &&& paid.transfer == old(self)@.transfer(
                        Call::WithdrawAmount { id, amount },
                        now,
                    )
                    &&& final(self)@ == old(self)@.after(Call::WithdrawAmount { id, amount }, now)
                },
                Err(error) => {
                    &&& old(self)@.withdraw_amount_refusal(id, amount, now) == Some(error)
                    &&& *final(self) == *old(self)
                },
            },
    {
        let stream = match self.get_stream(id) {
            Ok(stream) => stream,
            Err(error) => {
                return Err(error);
            },
        };
        if amount <= 0 {
            return Err(StreamError::InvalidAmount);
        }
        if amount > stream.withdrawable_amount(now) {
            return Err(StreamError::InsufficientBalance);
        }
        Ok(self.pay_recipient(id, stream, amount))
    }

    /// Books a withdrawal of `amount` from `stream`, which is kept under `id`.
    fn pay_recipient(&mut self, id: u64, stream: Stream, amount: i128) -> (paid: Payment)
        requires
            old(self)@.well_formed(),
            old(self)@.stream(id) == Some(stream),
            0 < amount <= stream.total_amount - stream.withdrawn,
        ensures
            final(self)@.well_formed(),
            paid == withdrawal(old(self)@.address, id, stream, amount),
            final(self)@ == old(self)@.keeping(id, stream.after_withdrawal(amount)),
    {
        let updated = Stream { withdrawn: stream.withdrawn + amount, ..stream };
        self.streams.insert(id, updated);
        assert(self@ =~= old(self)@.keeping(id, stream.after_withdrawal(amount)));
        Payment {
            amount,
            transfer: Transfer {
                token: stream.token,
                from: self.address,
                to: stream.recipient,
                amount,
            },
            event: Event::Withdrawn {
                sender: stream.sender,
                recipient: stream.recipient,
                id,
                amount,
            },
        }
    }

    /// Stops stream `id` at `now`: what has vested stays with the recipient,
    /// the rest goes back to the sender.
    pub fn cancel(&mut self, id: u64, now: u64) -> (result: Result<Payment, StreamError>)
        requires
            old(self)@.well_formed(),
        ensures
            final(self)@.well_formed(),
            match result {
                Ok(paid) => {
                    let stream = old(self)@.streams[id];
                    &&& old(self)@.cancel_refusal(id, now) is None
                    &&& paid.amount == stream.total_amount - stream.kept_at(now)
                    &&& paid == refund(old(self)@.address, id, stream, paid.amount)
                    &&& final(self)@ == old(self)@.keeping(id, stream.after_cancel(now))
                    &&& paid.transfer == old(self)@.transfer(Call::Cancel { id }, now)
                    &&& final(self)@ == old(self)@.after(Call::Cancel { id }, now)
                },
                Err(error) => {
                    &&& old(self)@.cancel_refusal(id, now) == Some(error)
                    &&& *final(self) == *old(self)
                },
            },
    {
        let stream = match self.get_stream(id) {
            Ok(stream) => stream,
            Err(error) => {
                return Err(error);
            },
        };
        if stream.cancelled {
            return Err(StreamError::AlreadyCancelled);
        }
        if now >= stream.end_time {
            return Err(StreamError::StreamAlreadyCompleted);
        }
        let vested: i128 = stream.vested_amount(now);
        let kept: i128 = if vested > stream.withdrawn {
            vested
        } else {
            stream.withdrawn
        };
        let amount: i128 = stream.total_amount - kept;
        let frozen = Stream {
            total_amount: kept,
            start_time: now,
            end_time: now,
            cliff_time: now,
            cancelled: true,
            ..stream
        };
        self.streams.insert(id, frozen);
        assert(self@ =~= old(self)@.keeping(id, stream.after_cancel(now)));
        Ok(
            Payment {
                amount,
                transfer: Transfer {
                    token: stream.token,
                    from: self.address,
                    to: stream.sender,
                    amount,
                },
                event: Event::Cancelled {
                    sender: stream.sender,
                    recipient: stream.recipient,
                    id,
                    refund: amount,
                },
            },
        )
    }

    /// How much the recipient of stream `id` can withdraw at `now`.
    pub fn withdrawable(&self, id: u64, now: u64) -> (result: Result<i128, StreamError>)
        requires
            self@.well_formed(),
        ensures
            match result {
                Ok(amount) => self@.stream(id) matches Some(stream) && amount
                    == stream.withdrawable_at(now),
                Err(error) => self@.stream(id) is None && error == StreamError::StreamNotFound,
            },
    {
        match self.get_stream(id) {
            Ok(stream) => Ok(stream.withdrawable_amount(now)),
            Err(error) => Err(error),
        }
    }

    /// How much of stream `id` has vested at `now`, including what was
    /// withdrawn.
    pub fn vested(&self, id: u64, now: u64) -> (result: Result<i128, StreamError>)
        requires
            self@.well_formed(),
        ensures
            match result {
                Ok(amount) => self@.stream(id) matches Some(stream) && amount == stream.vested_at(
                    now,
                ),
                Err(error) => self@.stream(id) is None && error == StreamError::StreamNotFound,
            },
    {
        match self.get_stream(id) {
            Ok(stream) => Ok(stream.vested_amount(now)),
            Err(error) => Err(error),
        }
    }

    /// How much of stream `id` has yet to vest at `now`.
    pub fn locked(&self, id: u64, now: u64) -> (result: Result<i128, StreamError>)
        requires
            self@.well_formed(),
        ensures
            match result {
                Ok(amount) => self@.stream(id) matches Some(stream) && amount == stream.locked_at(
                    now,
                ),
                Err(error) => self@.stream(id) is None && error == StreamError::StreamNotFound,
            },
    {
        match self.get_stream(id) {
            Ok(stream) => Ok(stream.locked_amount(now)),
            Err(error) => Err(error),
        }
    }

    /// Vesting progress of stream `id` at `now`, in basis points.
    pub fn progress(&self, id: u64, now: u64) -> (result: Result<u32, StreamError>)
        requires
            self@.well_formed(),
        ensures
            match result {
                Ok(points) => self@.stream(id) matches Some(stream) && points
                    == stream.progress_at(now),
                Err(error) => self@.stream(id) is None && error == StreamError::StreamNotFound,
            },
    {
        match self.get_stream(id) {
            Ok(stream) => Ok(stream.progress(now)),
            Err(error) => Err(error),
        }
    }

    /// Where stream `id` stands at `now`.
    pub fn status(&self, id: u64, now: u64) -> (result: Result<StreamStatus, StreamError>)
        ensures
            match result {
                Ok(status) => self@.stream(id) matches Some(stream) && status == stream.status_at(
                    now,
                ),
                Err(error) => self@.stream(id) is None && error == StreamError::StreamNotFound,
            },
    {
        match self.get_stream(id) {
            Ok(stream) => Ok(stream.status(now)),
            Err(error) => Err(error),
        }
    }
}

} // verus!
