//! A type-directed conversion synthesizer.
//!
//! Given a local type declaration and the names of one or more structurally
//! parallel remote types, the library derives, for each remote name, a
//! deterministic conversion procedure that turns a value of the remote shape
//! into a value of the local shape.  Each field is classified by the outermost
//! identifier of its declared type into one of four combinator shapes
//! (direct, sequence, associative map, monadic wrapper), and the synthesized
//! procedure destructures the remote value and rebuilds the local one with one
//! element-level conversion per field position.
//!
//! The library works on an in-memory declaration model and produces an
//! expression model; parsing host-language syntax into the model and printing
//! the resulting procedures back out are left to the surrounding tooling.

pub mod declaration;
pub mod model;
pub mod procedure;
pub mod shape;
pub mod synthesis;
