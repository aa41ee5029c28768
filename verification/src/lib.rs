//! Core of a real-time audio spectrum analyzer.
//!
//! The crate holds the signal-processing bookkeeping and the real-time-safety
//! pipeline of the analyzer: the wait-free error channel between the audio
//! callback thread and the analysis thread, the ingestion session around the
//! lock-free sample history, and the integer layout planning for the Steady-Q
//! transform that blends several radix-2 FFTs into one log-frequency spectrum.

pub mod display;
pub mod errors;
pub mod plan;
pub mod session;
