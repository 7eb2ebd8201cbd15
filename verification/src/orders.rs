//! The orders an owner sends: create a role, retire a role or a lane,
//! refresh the repository index, register a lane, change a lane's
//! authority.

use vstd::prelude::*;

use crate::nouns::{HarnessKind, LaneAuthority, LaneIdentifier, Role, RoleIdentifier};

verus! {

/// Create a dynamic role lane with the harness that will drive it.
#[derive(Debug, Clone, PartialEq, Eq)]
pub struct CreateRoleOrder {
    pub role: RoleIdentifier,
    pub harness: HarnessKind,
}

/// Retire a dynamic role from the active registry.
#[derive(Debug, Clone, PartialEq, Eq)]
pub struct RetireRoleOrder {
    pub role: RoleIdentifier,
}

/// What a retire order retires: a role, or a single lane.
#[derive(Debug, Clone, PartialEq, Eq)]
pub enum Retirement {
    Role(RetireRoleOrder),
    Lane(LaneIdentifier),
}

/// Re-scan local checkouts and refresh the repository index.
#[derive(Debug, Clone, PartialEq, Eq)]
pub struct RefreshRepositoryIndexOrder {}

/// Register a new lane for a role with a given authority.
#[derive(Debug, Clone, PartialEq, Eq)]
pub struct LaneRegistrationRequest {
    pub role: Role,
    pub authority: LaneAuthority,
}

/// Set the authority of an existing lane.
#[derive(Debug, Clone, PartialEq, Eq)]
pub struct LaneAuthorityChange {
    pub lane: LaneIdentifier,
    pub authority: LaneAuthority,
}

} // verus!
