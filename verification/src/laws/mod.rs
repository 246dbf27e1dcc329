//! What holds of the library as a whole, beyond what each function states of
//! itself.

pub mod answers;
pub mod calls;
pub mod ledger;
pub mod schedule;
