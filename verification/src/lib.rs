//! Deterministic state-transition validation for client-side-validated
//! asset contracts.
//!
//! A contract names a set of validation routines, one per transition type.
//! Each routine reads a [`state::TransitionContext`] — the consumed and
//! produced owned-state records and the global fields attached to either
//! side — and runs a short-circuiting chain of checks to a single
//! accept/reject outcome. The checks enforce the schema invariants (the
//! descriptive fields an asset must carry) and the conservation law (the
//! produced amounts must sum exactly to the declared supply on issuance,
//! and to the consumed amounts on transfer, with overflow a rejection).
//!
//! The [`codex`] module assembles the routines into a contract definition:
//! a dispatch table from transition-type keys to routine entry points,
//! packaged with the program units that hold them and sealed under a
//! content-derived identifier.

pub mod codex;
pub mod content;
pub mod fractional;
pub mod fungible;
pub mod laws;
pub mod shared;
pub mod state;
