//! A shared daily calendar on which parties reserve time slots against a
//! refundable stake, and an authority later settles each stake.
//!
//! The calendar engine validates a requested slot against the configured daily
//! window and against the slots already accepted on the same local day. The
//! stake resolver turns a finished meeting's stake into payout instructions,
//! exactly once. All state lives in an explicit [`state::Calendar`] value that
//! is handed to each operation; nothing is read from or written to the outside.
//!
//! - [`state`]: the settings, a meeting, and the calendar that holds them.
//! - [`msg`]: the messages a calendar handles and what it answers.
//! - [`rules`]: what each operation answers and leaves behind, as mathematical
//!   functions of the calendar's view.
//! - [`handlers`]: the operations themselves, verified against the rules.
//! - [`theorems`]: what follows from the rules across several operations.
//! - [`time`], [`payment`], [`amount`]: local time, the funds of a message and
//!   shares of an amount, each taken from the crate that the hosting chain
//!   uses for it.
//! - [`error`]: the rejections.

pub mod amount;
pub mod error;
pub mod handlers;
pub mod msg;
pub mod payment;
pub mod rules;
pub mod state;
pub mod theorems;
pub mod time;
