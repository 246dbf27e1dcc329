//! What the contract asks of the host and tells the world.
use vstd::prelude::*;

use crate::types::{Address, Stream};

verus! {

/// An amount of a token to be moved from one address to another.
#[derive(Copy, Clone, Debug, PartialEq, Eq, Structural)]
pub struct Transfer {
    pub token: Address,
    pub from: Address,
    pub to: Address,
    pub amount: i128,
}

/// What the contract publishes. Every event names both parties, so that an
/// indexer can filter streams by sender or recipient.
#[derive(Copy, Clone, Debug, PartialEq, Eq, Structural)]
pub enum Event {
    /// A stream was opened. The event holds the whole schedule, so that the
    /// stream can be recorded from it alone.
    Created {
        sender: Address,
        recipient: Address,
        id: u64,
        token: Address,
        total_amount: i128,
        start_time: u64,
        end_time: u64,
        cliff_time: u64,
    },
    /// The recipient took `amount`.
    Withdrawn { sender: Address, recipient: Address, id: u64, amount: i128 },
    /// The sender stopped the stream and got `refund` back.
    Cancelled { sender: Address, recipient: Address, id: u64, refund: i128 },
}

/// What the host has to do for a stream that was opened.
#[derive(Copy, Clone, Debug, PartialEq, Eq, Structural)]
pub struct Opening {
    /// The id under which the stream is kept.
    pub id: u64,
    /// The deposit.
    pub transfer: Transfer,
    /// For how many ledgers the contract instance and the new entry have to
    /// live on, at least.
    pub ttl: u32,
    /// What to publish.
    pub event: Event,
}

/// What the host has to do for a withdrawal or a cancellation.
#[derive(Copy, Clone, Debug, PartialEq, Eq, Structural)]
pub struct Payment {
    /// How much is paid out.
    pub amount: i128,
    /// The payment itself.
    pub transfer: Transfer,
    /// What to publish.
    pub event: Event,
}

/// The announcement of a stream that was opened under `id`.
pub open spec fn created_event(id: u64, stream: Stream) -> Event {
    Event::Created {
        sender: stream.sender,
        recipient: stream.recipient,
        id,
        token: stream.token,
        total_amount: stream.total_amount,
        start_time: stream.start_time,
        end_time: stream.end_time,
        cliff_time: stream.cliff_time,
    }
}

/// Everything that follows from opening `stream` under `id`: the sender pays
/// the total into `contract`.
pub open spec fn opening(contract: Address, id: u64, stream: Stream, ttl: u32) -> Opening {
    Opening {
        id,
        transfer: Transfer {
            token: stream.token,
            from: stream.sender,
            to: contract,
            amount: stream.total_amount,
        },
        ttl,
        event: created_event(id, stream),
    }
}

/// Everything that follows from a withdrawal of `amount`: `contract` pays the
/// recipient.
pub open spec fn withdrawal(contract: Address, id: u64, stream: Stream, amount: i128) -> Payment {
    Payment {
        amount,
        transfer: Transfer { token: stream.token, from: contract, to: stream.recipient, amount },
        event: Event::Withdrawn {
            sender: stream.sender,
            recipient: stream.recipient,
            id,
            amount,
        },
    }
}

/// Everything that follows from a cancellation: `contract` pays `refund` back
/// to the sender.
pub open spec fn refund(contract: Address, id: u64, stream: Stream, refund: i128) -> Payment {
    Payment {
        amount: refund,
        transfer: Transfer {
            token: stream.token,
            from: contract,
            to: stream.sender,
            amount: refund,
        },
        event: Event::Cancelled {
            sender: stream.sender,
            recipient: stream.recipient,
            id,
            refund,
        },
    }
}

} // verus!
