//! Accounting engine for time-based payment streams funded from a pooled treasury.
//!
//! Streams vest units over time at a fixed rate, may be paused manually or stop on
//! their own when their allocation is fully vested, and draw every payout from the
//! treasury that backs them. The engine is deterministic: the current time is an
//! explicit argument, and value movements are returned as a list of transfers for
//! the host to carry out.
pub mod address;
pub mod categories;
pub mod constants;
pub mod enums;
pub mod errors;
pub mod events;
pub mod extensions;
pub mod fees;
pub mod laws;
pub mod ledger;
pub mod math;
pub mod operations;
pub mod stream;
pub mod template;
pub mod treasury;
pub mod utils;
