//! Radar line-of-sight range planning on the effective-Earth-radius model.
//!
//! The library holds what such a tool decides: which conversion factor applies to which
//! value ([`units`]), which altitudes a detection-range curve samples and in what order
//! ([`graph`]), whether a command line says enough to be run ([`cli`]), and what each line
//! typed at the terminal leads to ([`session`]).
//!
//! Heights and ranges are values of a type `T` of the caller's choice. The library never
//! computes with them: where a result needs arithmetic, the caller hands in the operation,
//! and the contract says on which arguments it was called. Altitudes of the sweep are whole
//! metres and are computed, and proved, here.

pub mod cli;
pub mod graph;
pub mod session;
pub mod units;
