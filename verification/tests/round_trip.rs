use owner_signal_persona_orchestrate::{
    CreateRoleOrder, HarnessKind, LaneAuthority, LaneAuthorityChange, LaneIdentifier,
    LaneRegistrationRequest, OwnerOperationKind, OwnerOrchestrateRequest,
    RefreshRepositoryIndexOrder, RetireRoleOrder, Retirement, Role, RoleIdentifier, RoleToken,
};

fn role() -> RoleIdentifier {
    RoleIdentifier { token: "primary-hrhz".to_string() }
}

fn lane() -> LaneIdentifier {
    LaneIdentifier { token: "persona-signal-designer".to_string() }
}

fn role_vector() -> Role {
    Role {
        tokens: vec![
            RoleToken { text: "PersonaSignal".to_string() },
            RoleToken { text: "Designer".to_string() },
        ],
    }
}

fn codex() -> HarnessKind {
    HarnessKind { name: "Codex".to_string() }
}

fn structural() -> LaneAuthority {
    LaneAuthority { name: "Structural".to_string() }
}

fn support() -> LaneAuthority {
    LaneAuthority { name: "Support".to_string() }
}

#[test]
fn owner_orchestrate_request_exposes_contract_owned_operation_kind() {
    let create = OwnerOrchestrateRequest::Create(CreateRoleOrder {
        role: role(),
        harness: codex(),
    });
    assert_eq!(create.operation_kind(), OwnerOperationKind::Create);

    let retire =
        OwnerOrchestrateRequest::Retire(Retirement::Role(RetireRoleOrder { role: role() }));
    assert_eq!(retire.operation_kind(), OwnerOperationKind::Retire);

    let refresh = OwnerOrchestrateRequest::Refresh(RefreshRepositoryIndexOrder {});
    assert_eq!(refresh.operation_kind(), OwnerOperationKind::Refresh);

    let register = OwnerOrchestrateRequest::Register(LaneRegistrationRequest {
        role: role_vector(),
        authority: structural(),
    });
    assert_eq!(register.operation_kind(), OwnerOperationKind::Register);

    let set_authority = OwnerOrchestrateRequest::SetAuthority(LaneAuthorityChange {
        lane: lane(),
        authority: support(),
    });
    assert_eq!(
        set_authority.operation_kind(),
        OwnerOperationKind::SetAuthority
    );
}
