//! Static collection of Python tests and fixtures from source text, without
//! running any of it.
//!
//! `syntax` parses a file into a plain tree, `visitor` classifies its
//! definitions, `collection` merges the files of a run, and `laws` states what
//! holds of every input.

pub mod text;
pub mod model;
pub mod syntax;
pub mod imports;
pub mod visitor;
pub mod collection;
pub mod report;
pub mod congruence;
pub mod laws;
