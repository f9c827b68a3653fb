//! A credential registry with revocation, gated by a two-layer
//! authorization model: an organization-level membership gate in front of
//! a ledger-level ownership gate.
//!
//! The [`ledger`] module owns the authoritative credential state and
//! enforces the ownership invariant; the [`gateway`] module translates
//! calls across the trust boundary with a narrow status-code channel; the
//! [`org`] module owns organization identity and membership and checks
//! the membership gate before delegating.

pub mod gateway;
pub mod ledger;
pub mod org;
