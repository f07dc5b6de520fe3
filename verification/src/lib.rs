//! Deterministic pseudo-random number generators with machine-checked contracts.
//!
//! Three families stand side by side: the xorshift recurrences ([`xorshift`]),
//! the permuted congruential generators ([`pcg`]) and the 64-bit Mersenne
//! Twister ([`mt64`]). Each generator is a finite-state machine; its contract
//! gives the output and the next state as functions of the current state
//! ([`generator`]). [`conversion`] holds the integer half of the conversion to real
//! numbers, [`export`] the surface offered to a foreign host, and [`sfmt`] an
//! experimental variant outside the supported family.
//!
//! None of these generators is cryptographically secure.

pub mod conversion;
pub mod export;
pub mod generator;
pub mod modular;
pub mod mt64;
pub mod pcg;
pub mod sfmt;
pub mod xorshift;
