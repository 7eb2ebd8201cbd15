//! The replies an owner receives on the orchestration channel.

use vstd::prelude::*;

use crate::channel::OwnerOperationKind;
use crate::nouns::{
    HarnessKind, LaneAuthority, LaneIdentifier, LaneRegistration, PartialApplied, RoleIdentifier,
    WirePath,
};

verus! {

/// The daemon created the role record and its report paths.
#[derive(Debug, Clone, PartialEq, Eq)]
pub struct RoleCreated {
    pub role: RoleIdentifier,
    pub harness: HarnessKind,
    pub report_repository_path: WirePath,
    pub report_lane_path: WirePath,
}

/// The daemon retired the role record.
#[derive(Debug, Clone, PartialEq, Eq)]
pub struct RoleRetired {
    pub role: RoleIdentifier,
}

/// The create order was valid but conflicts with existing state.
#[derive(Debug, Clone, PartialEq, Eq)]
pub struct RoleCreationRejected {
    pub role: RoleIdentifier,
    pub reason: RoleCreationRejectionReason,
}

/// Which existing state a create order conflicts with.
#[derive(Debug, Clone, Copy, PartialEq, Eq, Hash, Structural)]
pub enum RoleCreationRejectionReason {
    RoleAlreadyExists,
    ReportRepositoryAlreadyExists,
    ReportLaneAlreadyExists,
}

/// The local repository index was refreshed and now holds this many
/// repositories.
#[derive(Debug, Clone, Copy, PartialEq, Eq, Structural)]
pub struct RepositoryIndexRefreshed {
    pub repositories: u32,
}

/// A lane was registered.
#[derive(Debug, Clone, PartialEq, Eq)]
pub struct LaneRegistered {
    pub registration: LaneRegistration,
}

/// A lane was retired.
#[derive(Debug, Clone, PartialEq, Eq)]
pub struct LaneRetired {
    pub lane: LaneIdentifier,
}

/// A lane's authority was set.
#[derive(Debug, Clone, PartialEq, Eq)]
pub struct LaneAuthoritySet {
    pub lane: LaneIdentifier,
    pub authority: LaneAuthority,
}

/// Why an owner request that belongs to the vocabulary was not carried out.
#[derive(Debug, Clone, Copy, PartialEq, Eq, Hash, Structural)]
pub enum OwnerOrchestrateUnimplementedReason {
    NotBuiltYet,
    DependencyNotReady,
}

/// The request is part of the owner vocabulary but the running daemon does
/// not implement it.
#[derive(Debug, Clone, Copy, PartialEq, Eq, Structural)]
pub struct OwnerOrchestrateRequestUnimplemented {
    pub operation: OwnerOperationKind,
    pub reason: OwnerOrchestrateUnimplementedReason,
}

/// A reply on the owner channel.
#[derive(Debug, Clone, PartialEq, Eq)]
pub enum OwnerOrchestrateReply {
    RoleCreated(RoleCreated),
    RoleRetired(RoleRetired),
    RoleCreationRejected(RoleCreationRejected),
    RepositoryIndexRefreshed(RepositoryIndexRefreshed),
    LaneRegistered(LaneRegistered),
    LaneRetired(LaneRetired),
    LaneAuthoritySet(LaneAuthoritySet),
    PartialApplied(PartialApplied),
    OwnerOrchestrateRequestUnimplemented(OwnerOrchestrateRequestUnimplemented),
}

} // verus!
