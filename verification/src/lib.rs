//! Generation of type-state builder APIs for dialect operations.
//!
//! Given a schema of named fields (operands, results, attributes, successors
//! and regions, each single, optional or variadic), this crate synthesizes the
//! source text of a builder type that tracks, in one generic marker parameter
//! per required field, whether that field has been supplied.  The terminal
//! `build` method is emitted only for the fully-supplied instantiation, so a
//! construction sequence that misses a required field fails to compile rather
//! than at run time.

pub mod builder;
pub mod error;
pub mod ident;
pub mod model;
pub mod render;
pub mod schema;
pub mod strategy;
pub mod typestate;
