//! Low-overhead clock sources: a raw cycle counter, detection of whether that
//! counter can be trusted, and a calibrated monotonic nanosecond clock.
//!
//! The raw reads themselves (`rdtsc`, `cntvct_el0`, the operating system's
//! clock calls) are `unsafe` and live with the caller; this crate holds what
//! is decided and computed around them, with proofs.

pub mod counter;
pub mod detection;
pub mod monotonic;

pub use counter::{Counter, CounterError, CounterSource};
pub use detection::{counter_support, has_counter_support};
pub use monotonic::{CalibrationError, Monotonic, NANOS_PER_SEC};
