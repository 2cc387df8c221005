//! Admission control: a limit of `num` requests per period, kept as a pool of
//! tokens that refills once a period has elapsed, on window boundaries that
//! stay phase-aligned with the first window.
//!
//! Time is given to the library as whole milliseconds on a clock that the
//! caller owns; the library never reads a clock itself.

pub mod laws;
pub mod rate;
pub mod rate_limit_error;
pub mod tokens;

pub use rate::Rate;
pub use rate_limit_error::RateLimitError;
pub use tokens::{ReadyStep, TokenWindow, WindowState};
