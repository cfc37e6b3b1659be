//! A small library of error value types: an invalid-operation error, an
//! invalid-value error with optional expected/found/message fields, and an
//! invalid-state error. Each type renders to a single-line human-readable
//! message, and the rendering is specified exactly.

pub mod errors;
