//! Monte-Carlo simulation of three-qubit repetition codes.
//!
//! A logical qubit goes through a noise channel, is encoded into a block of
//! three qubits, diagnosed by two parity checks, corrected and decoded. A
//! [`simulation::Simulation`] repeats this and counts how often the decoded
//! qubit is the one that went in.
//!
//! - [`qubit`]: the state of one qubit, with exact amplitudes, and measurement.
//! - [`gates`]: `PauliX`, `PauliZ`, `Hadamard` and the measurement-controlled
//!   `CNOT`.
//! - [`error_models`]: bit-flip and phase-flip noise.
//! - [`correction_codes`]: the bit-flip and the phase-flip code.
//! - [`simulation`]: the driver and what it reports.
//! - [`config`]: exact fractions and the rejection of malformed configurations.
//! - [`timing`]: the clock and the mean of the correction times.
//! - [`random`]: the random words and how they are read as draws.
//!
//! Nothing here is floating point. Amplitudes are integers over a power of the
//! square root of two, probabilities and rates are fractions of integers, and
//! times are whole nanoseconds, so that equality is exact and every contract
//! is stated over integers.
//!
//! Chance enters through random 64-bit words. Every operation that needs chance
//! comes in two forms: one that draws its words itself, and one, named
//! `.._with`, that takes them as arguments and is a function of them. The
//! contracts of the second form say exactly what is computed; those of the
//! first say that the result is what the second form computes on some words.

pub mod config;
pub mod correction_codes;
pub mod error_models;
pub mod gates;
pub mod qubit;
pub mod random;
pub mod simulation;
pub mod timing;
