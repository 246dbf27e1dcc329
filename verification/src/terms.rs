//! What a sender asks for, and when it is refused.
use vstd::prelude::*;

use crate::error::StreamError;
use crate::types::{Address, Stream};
use crate::vesting::MAX_AMOUNT;

verus! {

/// The terms of a stream to be opened.
#[derive(Copy, Clone, Debug, PartialEq, Eq, Structural)]
pub struct Terms {
    pub sender: Address,
    pub recipient: Address,
    pub token: Address,
    pub total_amount: i128,
    pub start_time: u64,
    pub end_time: u64,
    pub cliff_time: u64,
}

/// Whether three addresses can be the sender, the recipient and the token of a
/// stream that `contract` keeps: all four are different.
///
/// A contract cannot sign for itself, so as a recipient it could never claim
/// the stream; as a sender it would draw on the holdings that back every other
/// stream; and it is no token. A stream to oneself or to a token is a mistake.
pub open spec fn can_take_part(
    contract: Address,
    sender: Address,
    recipient: Address,
    token: Address,
) -> bool {
    &&& sender != contract
    &&& recipient != contract
    &&& token != contract
    &&& sender != recipient
    &&& sender != token
    &&& recipient != token
}

/// Decides [`can_take_part`].
pub fn check_participants(
    contract: Address,
    sender: Address,
    recipient: Address,
    token: Address,
) -> (ok: bool)
    ensures
        ok == can_take_part(contract, sender, recipient, token),
{
    sender != contract && recipient != contract && token != contract && sender != recipient
        && sender != token && recipient != token
}

impl Terms {
    /// Why `contract` refuses these terms at `now`, if it does. Where terms
    /// break several rules, the first of them is reported: the participants
    /// come first, then the amount, then the range, the cliff and the end of
    /// the window.
    pub open spec fn refusal(self, contract: Address, now: u64) -> Option<StreamError> {
        if !can_take_part(contract, self.sender, self.recipient, self.token) {
            Some(StreamError::InvalidParticipant)
        } else if self.total_amount <= 0 {
            Some(StreamError::InvalidAmount)
        } else if self.total_amount > MAX_AMOUNT {
            Some(StreamError::AmountTooLarge)
        } else if self.start_time >= self.end_time {
            Some(StreamError::InvalidTimeRange)
        } else if !(self.start_time <= self.cliff_time <= self.end_time) {
            Some(StreamError::InvalidCliff)
        } else if self.end_time <= now {
            Some(StreamError::StreamWindowInPast)
        } else {
            None
        }
    }

    /// The stream on these terms, with nothing withdrawn yet.
    pub open spec fn stream(self) -> Stream {
        Stream {
            sender: self.sender,
            recipient: self.recipient,
            token: self.token,
            total_amount: self.total_amount,
            withdrawn: 0,
            start_time: self.start_time,
            end_time: self.end_time,
            cliff_time: self.cliff_time,
            cancelled: false,
        }
    }

    /// Holds the terms against the rules and makes the stream.
    pub fn accept(&self, contract: Address, now: u64) -> (result: Result<Stream, StreamError>)
        ensures
            match result {
                Ok(stream) => {
                    &&& self.refusal(contract, now) is None
                    &&& stream == self.stream()
                    &&& stream.well_formed()
                },
                Err(error) => self.refusal(contract, now) == Some(error),
            },
    {
        if !check_participants(contract, self.sender, self.recipient, self.token) {
            return Err(StreamError::InvalidParticipant);
        }
        if self.total_amount <= 0 {
            return Err(StreamError::InvalidAmount);
        }
        if self.total_amount > MAX_AMOUNT {
            return Err(StreamError::AmountTooLarge);
        }
        if self.start_time >= self.end_time {
            return Err(StreamError::InvalidTimeRange);
        }
        if self.cliff_time < self.start_time || self.cliff_time > self.end_time {
            return Err(StreamError::InvalidCliff);
        }
        if self.end_time <= now {
            return Err(StreamError::StreamWindowInPast);
        }
        Ok(
            Stream {
                sender: self.sender,
                recipient: self.recipient,
                token: self.token,
                total_amount: self.total_amount,
                withdrawn: 0,
                start_time: self.start_time,
                end_time: self.end_time,
                cliff_time: self.cliff_time,
                cancelled: false,
            },
        )
    }
}

} // verus!
