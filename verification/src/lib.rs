//! Retry support for operations that may fail transiently, paired with a
//! family of composable backoff strategies that decide whether and how long
//! to wait between attempts.

pub mod backoff;
pub mod delay;
pub mod driver;
mod error;
pub mod synchronous;

pub use delay::Delay;
pub use error::Error;
