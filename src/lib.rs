use vstd::prelude::*;

pub mod channel;
pub mod config;
pub mod dedup;
pub mod format;
pub mod message;
pub mod session;
pub mod snapshot;

verus! {

/// Largest number of characters that the presence protocol accepts in a status field.
pub const STATUS_CAP: usize = 120;

} // verus!
