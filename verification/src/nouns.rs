//! The shared nouns that owner orders and replies carry.
//!
//! The contract only carries these values; it never looks inside them.
//! Each is held by its wire form: an identifier by its token, a path by its
//! absolute text, a member of a fixed vocabulary by its name.

use vstd::prelude::*;

verus! {

/// The identifier of a dynamic role, held by its wire token.
#[derive(Debug, Clone, PartialEq, Eq)]
pub struct RoleIdentifier {
    pub token: String,
}

/// Earlier name of [`RoleIdentifier`], kept for callers that still use it.
pub type RoleName = RoleIdentifier;

/// The identifier of a lane, held by its wire token.
#[derive(Debug, Clone, PartialEq, Eq)]
pub struct LaneIdentifier {
    pub token: String,
}

/// An absolute filesystem path as it travels on the wire.
#[derive(Debug, Clone, PartialEq, Eq)]
pub struct WirePath {
    pub path: String,
}

/// The kind of harness that drives a role, held by its vocabulary name
/// (for instance `Codex`).
#[derive(Debug, Clone, PartialEq, Eq)]
pub struct HarnessKind {
    pub name: String,
}

/// One word of a role vector.
#[derive(Debug, Clone, PartialEq, Eq)]
pub struct RoleToken {
    pub text: String,
}

/// A role as a vector of role tokens, such as `PersonaSignal Designer`.
#[derive(Debug, Clone, PartialEq, Eq)]
pub struct Role {
    pub tokens: Vec<RoleToken>,
}

/// The authority a lane holds, held by its vocabulary name
/// (for instance `Structural` or `Support`).
#[derive(Debug, Clone, PartialEq, Eq)]
pub struct LaneAuthority {
    pub name: String,
}

/// A registered lane: which lane, for which role, with which authority.
#[derive(Debug, Clone, PartialEq, Eq)]
pub struct LaneRegistration {
    pub lane: LaneIdentifier,
    pub role: Role,
    pub authority: LaneAuthority,
}

/// Free text that explains a scope, a success or a failure.
#[derive(Debug, Clone, PartialEq, Eq)]
pub struct ScopeReason {
    pub text: String,
}

/// A component downstream of orchestration, held by its vocabulary name
/// (for instance `Router` or `Harness`).
#[derive(Debug, Clone, PartialEq, Eq)]
pub struct DownstreamComponent {
    pub name: String,
}

/// Why a downstream leg failed, held by its vocabulary name
/// (for instance `Unreachable`).
#[derive(Debug, Clone, PartialEq, Eq)]
pub struct ApplicationFailureReason {
    pub name: String,
}

/// A downstream leg that was applied.
#[derive(Debug, Clone, PartialEq, Eq)]
pub struct ApplicationSuccess {
    pub component: DownstreamComponent,
    pub detail: ScopeReason,
}

/// A downstream leg that failed.
#[derive(Debug, Clone, PartialEq, Eq)]
pub struct ApplicationFailure {
    pub component: DownstreamComponent,
    pub reason: ApplicationFailureReason,
    pub detail: ScopeReason,
}

/// The outcome of a mutation whose legs diverged: some succeeded, some
/// failed, and nothing was rolled back.
#[derive(Debug, Clone, PartialEq, Eq)]
pub struct PartialApplied {
    pub succeeded: Vec<ApplicationSuccess>,
    pub failed: Vec<ApplicationFailure>,
}

} // verus!
