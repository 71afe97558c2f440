//! A reputation protocol in three coupled parts: a governance engine in which
//! a bounded peer collective nominates and votes members in, a constant-product
//! prediction market whose oracle is the outcome of that vote, and a score
//! engine that folds both into bounded reputation numbers.
//!
//! Every operation works on the records it is handed and on nothing else: the
//! caller looks the records up, passes the current time, and stores what comes
//! back. An operation either succeeds and applies its whole effect, or fails
//! and leaves every record as it was.

pub mod buffer;
pub mod errors;
pub mod instructions;
pub mod key;
pub mod state;
