//! Client-side layer for declaring broker topology (exchanges and queues) and
//! for the contract a background job type must satisfy.
//!
//! The topology side is an explicit three-phase compiler: a parser turns a
//! declarative block of named entries into a syntax tree, a validator checks
//! the tree against the structural rules and accumulates diagnostics, and a
//! generator freezes the validated model into immutable descriptors. The job
//! side defines the `Job` and `Perform` interfaces together with the
//! `Priority`, `Status` and `Failure` value types.

pub mod compile;
pub mod generate;
pub mod job;
pub mod parse;
pub mod report;
pub mod text;
pub mod validate;
