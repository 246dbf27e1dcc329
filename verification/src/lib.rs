//! Token streams: sums locked by a sender and released to a recipient linearly
//! over time.

pub mod contract;
pub mod error;
pub mod events;
pub mod laws;
pub mod terms;
pub mod types;
pub mod vesting;

pub use contract::{StreamContract, ENTRY_TTL};
pub use error::StreamError;
pub use events::{Event, Opening, Payment, Transfer};
pub use terms::Terms;
pub use types::{Address, AddressKind, Stream, StreamStatus};
pub use vesting::{FULL_PROGRESS, MAX_AMOUNT};
