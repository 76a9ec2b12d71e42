//! The `nesql` commands whose logic lives in this library.

pub mod constitution;
