//! A vesting escrow: a fixed endowment is released to a recipient at a cliff and then in
//! equal steps, an administrator may pause the schedule, and after a long enough pause may
//! reclaim what has not been released.

pub mod contract;
pub mod entry;
pub mod error;
pub mod history;
pub mod key;
pub mod laws;
pub mod schedule;
pub mod store;
pub mod vesting;
