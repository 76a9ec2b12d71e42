//! # neSQL — PostgreSQL's grammar, NEDB's memory
//!
//! SQL you already know, over a database that never forgets and can prove it.
//!
//! This crate holds the parts of the neSQL front-end whose behaviour can be
//! stated and proved: the client/engine compatibility report, and the small
//! decisions the language bindings make before they reach the engine.

use vstd::prelude::*;

pub mod bindings;
pub mod cmd;
pub mod out;
pub mod text;

verus! {

/// The PostgreSQL release this crate's vendored grammar is taken from.
pub const VENDORED_POSTGRES: &'static str = "17.4";

/// Crate version.
pub const VERSION: &'static str = "8.0.0";

/// Where the real thing runs today.
pub const ENGINE: &'static str = "https://github.com/Eth-Interchained/nedb";

/// Is this a usable query engine yet? No — and it says so rather than pretending.
pub fn is_release() -> (released: bool)
    ensures
        !released,
{
    false
}

} // verus!
