//! Conversions from the flat records an untrusted guest hands over into the
//! typed values the host works with.
//!
//! Every conversion is total and keeps all the information of its input: the
//! contract of each one says that the value it returns means exactly what the
//! record it was given means.

pub mod model;
pub mod wire;
pub mod host;
pub mod scalars;
pub mod identifiers;
pub mod aggregates;
pub mod errors;
pub mod laws;
