//! Polling a Geiger counter over a serial link and reporting the reading.
//!
//! The crate holds the decisions of one query cycle and none of its
//! input/output: which command goes to the device next, how its two-byte reply
//! is read as counts per minute, how that count becomes a dose rate, which
//! address the reading is reported to and how the logging service's answer is
//! judged. A driver performs the actions and hands back what happened.

pub mod dose;
pub mod error;
pub mod link;
pub mod publish;
pub mod reading;
pub mod session;
pub mod text;
pub mod trace;
