//! Owner-only signal contract for administering the orchestration
//! substrate: the orders an owner may send, the replies it receives,
//! and the contract-local operation roots that name each order.

pub mod nouns;
pub mod orders;
pub mod retirement;
pub mod channel;
pub mod replies;

pub use nouns::{
    ApplicationFailure, ApplicationFailureReason, ApplicationSuccess, DownstreamComponent,
    HarnessKind, LaneAuthority, LaneIdentifier, LaneRegistration, PartialApplied, Role,
    RoleIdentifier, RoleName, RoleToken, ScopeReason, WirePath,
};
pub use orders::{
    CreateRoleOrder, LaneAuthorityChange, LaneRegistrationRequest, RefreshRepositoryIndexOrder,
    RetireRoleOrder, Retirement,
};
pub use retirement::{RetirementForm, UnknownVariant};
pub use channel::{Operation, OperationKind, OwnerOperationKind, OwnerOrchestrateRequest};
pub use replies::{
    LaneAuthoritySet, LaneRegistered, LaneRetired, OwnerOrchestrateReply,
    OwnerOrchestrateRequestUnimplemented, OwnerOrchestrateUnimplementedReason,
    RepositoryIndexRefreshed, RoleCreated, RoleCreationRejected, RoleCreationRejectionReason,
    RoleRetired,
};
