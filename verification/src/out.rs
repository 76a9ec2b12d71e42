//! What a command hands back: an exit verdict and the report behind it.

use vstd::prelude::*;

use crate::cmd::constitution::{ClientClaim, Compatibility, Constitution};

verus! {

/// How a command ends, as its exit code names it.
#[derive(Clone, Copy, Debug, PartialEq, Eq, Structural)]
pub enum Exit {
    /// The command did what was asked (exit code `ok`).
    Success,
    /// The request cannot be served by this engine.
    Unsupported,
}

/// The outcome of `nesql constitution`: the verdict, the facts it was drawn
/// from, and the human-readable text.
///
/// The machine-readable body (`--json`) is built from these fields.
#[derive(Debug)]
pub struct Report {
    pub exit: Exit,
    /// `compatible`, `compatible with gaps` or `INCOMPATIBLE`.
    pub verdict: String,
    /// One line per gap or per reason for refusal.
    pub detail: Vec<String>,
    /// The engine's answer to this build's claim.
    pub compatibility: Compatibility,
    /// What the engine guarantees.
    pub constitution: Constitution,
    /// The engine's digest of its whole constitution.
    pub constitution_digest: String,
    /// What this build requires of an engine.
    pub client: ClientClaim,
    /// The text printed for a person.
    pub human: String,
}

} // verus!
