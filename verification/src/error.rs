//! What the contract refuses a call with.
use vstd::prelude::*;

verus! {

/// Errors returned by the stream contract.
///
/// Each variant has a stable integer code, given by [`StreamError::code`], so
/// that callers and off-chain indexers can match on a value that does not
/// change between builds.
///
/// Authorization failures are not represented here. The host stops a call that
/// lacks the authorization it needs before the contract acts on it, so such a
/// call never returns one of these codes. Code 2 is retired and is never
/// reused, which is why the codes skip it.
#[derive(Copy, Clone, Debug, PartialEq, Eq, PartialOrd, Ord, Structural)]
pub enum StreamError {
    /// No stream exists for the requested identifier.
    StreamNotFound,
    /// The start time is not strictly before the end time.
    InvalidTimeRange,
    /// The total amount is zero or negative.
    InvalidAmount,
    /// The cliff falls outside the stream's start and end window.
    InvalidCliff,
    /// The stream has already been cancelled.
    AlreadyCancelled,
    /// There is nothing available to withdraw right now.
    NothingToWithdraw,
    /// The requested withdrawal is larger than the available balance.
    InsufficientBalance,
    /// The stream has run to its end and can no longer be cancelled.
    StreamAlreadyCompleted,
    /// The total amount is above [`crate::MAX_AMOUNT`].
    AmountTooLarge,
    /// The stream would end at or before the current ledger time.
    StreamWindowInPast,
    /// Every stream id has been handed out.
    StreamCountExhausted,
    /// An address cannot play the role it was given.
    InvalidParticipant,
}

/// The code under which an error is known off chain.
pub open spec fn error_code(error: StreamError) -> u32 {
    match error {
        StreamError::StreamNotFound => 1,
        StreamError::InvalidTimeRange => 3,
        StreamError::InvalidAmount => 4,
        StreamError::InvalidCliff => 5,
        StreamError::AlreadyCancelled => 6,
        StreamError::NothingToWithdraw => 7,
        StreamError::InsufficientBalance => 8,
        StreamError::StreamAlreadyCompleted => 9,
        StreamError::AmountTooLarge => 10,
        StreamError::StreamWindowInPast => 11,
        StreamError::StreamCountExhausted => 12,
        StreamError::InvalidParticipant => 13,
    }
}

impl StreamError {
    /// The stable integer code of this error.
    pub fn code(self) -> (code: u32)
        ensures
            code == error_code(self),
    {
        match self {
            StreamError::StreamNotFound => 1,
            StreamError::InvalidTimeRange => 3,
            StreamError::InvalidAmount => 4,
            StreamError::InvalidCliff => 5,
            StreamError::AlreadyCancelled => 6,
            StreamError::NothingToWithdraw => 7,
            StreamError::InsufficientBalance => 8,
            StreamError::StreamAlreadyCompleted => 9,
            StreamError::AmountTooLarge => 10,
            StreamError::StreamWindowInPast => 11,
            StreamError::StreamCountExhausted => 12,
            StreamError::InvalidParticipant => 13,
        }
    }

    /// The error that `code` stands for, if it stands for one.
    pub fn from_code(code: u32) -> (error: Option<StreamError>)
        ensures
            match error {
                Some(e) => error_code(e) == code,
                None => forall|e: StreamError| error_code(e) != code,
            },
    {
        match code {
            1 => Some(StreamError::StreamNotFound),
            3 => Some(StreamError::InvalidTimeRange),
            4 => Some(StreamError::InvalidAmount),
            5 => Some(StreamError::InvalidCliff),
            6 => Some(StreamError::AlreadyCancelled),
            7 => Some(StreamError::NothingToWithdraw),
            8 => Some(StreamError::InsufficientBalance),
            9 => Some(StreamError::StreamAlreadyCompleted),
            10 => Some(StreamError::AmountTooLarge),
            11 => Some(StreamError::StreamWindowInPast),
            12 => Some(StreamError::StreamCountExhausted),
            13 => Some(StreamError::InvalidParticipant),
            _ => None,
        }
    }
}

/// Two errors never share a code.
pub proof fn law_error_codes_are_distinct(first: StreamError, second: StreamError)
    requires
        error_code(first) == error_code(second),
    ensures
        first == second,
{
}

/// Every code belongs to one error for good, since consumers off chain match on
/// the number.
pub proof fn law_error_codes_are_stable(error: StreamError)
    ensures
        error_code(error) == 1 <==> error == StreamError::StreamNotFound,
        error_code(error) == 3 <==> error == StreamError::InvalidTimeRange,
        error_code(error) == 4 <==> error == StreamError::InvalidAmount,
        error_code(error) == 5 <==> error == StreamError::InvalidCliff,
        error_code(error) == 6 <==> error == StreamError::AlreadyCancelled,
        error_code(error) == 7 <==> error == StreamError::NothingToWithdraw,
        error_code(error) == 8 <==> error == StreamError::InsufficientBalance,
        error_code(error) == 9 <==> error == StreamError::StreamAlreadyCompleted,
        error_code(error) == 10 <==> error == StreamError::AmountTooLarge,
        error_code(error) == 11 <==> error == StreamError::StreamWindowInPast,
        error_code(error) == 12 <==> error == StreamError::StreamCountExhausted,
        error_code(error) == 13 <==> error == StreamError::InvalidParticipant,
{
}

/// The codes are 1 and 3 to 13: the retired code 2 belongs to no error, and
/// there is no other gap.
pub proof fn law_only_code_two_is_retired(code: u32)
    ensures
        (exists|error: StreamError| error_code(error) == code) <==> 1 <= code <= 13 && code != 2,
{
    assert(error_code(StreamError::StreamNotFound) == 1);
    assert(error_code(StreamError::InvalidTimeRange) == 3);
    assert(error_code(StreamError::InvalidAmount) == 4);
    assert(error_code(StreamError::InvalidCliff) == 5);
    assert(error_code(StreamError::AlreadyCancelled) == 6);
    assert(error_code(StreamError::NothingToWithdraw) == 7);
    assert(error_code(StreamError::InsufficientBalance) == 8);
    assert(error_code(StreamError::StreamAlreadyCompleted) == 9);
    assert(error_code(StreamError::AmountTooLarge) == 10);
    assert(error_code(StreamError::StreamWindowInPast) == 11);
    assert(error_code(StreamError::StreamCountExhausted) == 12);
    assert(error_code(StreamError::InvalidParticipant) == 13);
}

} // verus!
