//! The records that the contract keeps and hands out.
use vstd::prelude::*;

use crate::vesting::MAX_AMOUNT;

verus! {

/// What kind of party an address names.
#[derive(Copy, Clone, Debug, PartialEq, Eq, Structural)]
pub enum AddressKind {
    /// A key pair.
    Account,
    /// A deployed contract.
    Contract,
}

/// An address on the network: a kind and a 256-bit key, most significant word
/// first.
#[derive(Copy, Clone, Debug, PartialEq, Eq, Structural)]
pub struct Address {
    pub kind: AddressKind,
    pub key0: u64,
    pub key1: u64,
    pub key2: u64,
    pub key3: u64,
}

/// A sum of tokens on its way from a sender to a recipient.
///
/// Amounts are in the token's smallest unit. Times are Unix timestamps in
/// seconds.
#[derive(Copy, Clone, Debug, PartialEq, Eq, Structural)]
pub struct Stream {
    /// Who funded the stream and may cancel it.
    pub sender: Address,
    /// Who may withdraw what has vested.
    pub recipient: Address,
    /// The token that is streamed.
    pub token: Address,
    /// The sum that vests over the whole window. Cancelling freezes it at what
    /// had vested by then.
    pub total_amount: i128,
    /// How much the recipient has taken so far.
    pub withdrawn: i128,
    /// When vesting begins.
    pub start_time: u64,
    /// When everything has vested.
    pub end_time: u64,
    /// Before this moment nothing can be withdrawn.
    pub cliff_time: u64,
    /// Whether the sender has stopped the stream.
    pub cancelled: bool,
}

/// Where a stream stands in its life.
#[derive(Copy, Clone, Debug, PartialEq, Eq, Structural)]
pub enum StreamStatus {
    /// The window has not opened yet.
    Pending,
    /// The window is open.
    Streaming,
    /// The window has closed and everything has vested.
    Completed,
    /// The sender stopped the stream early.
    Cancelled,
}

impl Stream {
    /// What holds of every stream that the contract keeps: the recipient never
    /// took more than the total, the cliff lies within the window, and the
    /// window is open for at least a second unless cancelling has closed it.
    pub open spec fn well_formed(self) -> bool {
        &&& 0 <= self.withdrawn <= self.total_amount <= MAX_AMOUNT
        &&& self.start_time <= self.cliff_time <= self.end_time
        &&& if self.cancelled {
            self.start_time == self.end_time
        } else {
            self.start_time < self.end_time && self.total_amount > 0
        }
    }

    /// Whether the record is one that [`Stream::well_formed`] describes.
    pub fn check_well_formed(&self) -> (ok: bool)
        ensures
            ok == self.well_formed(),
    {
        0 <= self.withdrawn && self.withdrawn <= self.total_amount && self.total_amount
            <= MAX_AMOUNT && self.start_time <= self.cliff_time && self.cliff_time <= self.end_time
            && if self.cancelled {
            self.start_time == self.end_time
        } else {
            self.start_time < self.end_time && self.total_amount > 0
        }
    }
}

} // verus!
