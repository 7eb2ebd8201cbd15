use owner_signal_persona_orchestrate::{
    CreateRoleOrder, HarnessKind, LaneAuthority, LaneAuthorityChange, LaneIdentifier,
    LaneRegistrationRequest, Operation, OperationKind, OwnerOperationKind,
    OwnerOrchestrateRequest, OwnerOrchestrateRequestUnimplemented,
    OwnerOrchestrateUnimplementedReason, RefreshRepositoryIndexOrder, RetireRoleOrder, Retirement,
    RetirementForm, Role, RoleIdentifier, RoleToken, UnknownVariant,
};

fn role() -> RoleIdentifier {
    RoleIdentifier { token: "primary-hrhz".to_string() }
}

fn lane() -> LaneIdentifier {
    LaneIdentifier { token: "persona-signal-designer".to_string() }
}

fn role_vector() -> Role {
    Role {
        tokens: vec![
            RoleToken { text: "PersonaSignal".to_string() },
            RoleToken { text: "Designer".to_string() },
        ],
    }
}

fn all_kinds() -> Vec<OperationKind> {
    vec![
        OperationKind::Create,
        OperationKind::Retire,
        OperationKind::Refresh,
        OperationKind::Register,
        OperationKind::SetAuthority,
    ]
}

#[test]
fn orders_become_requests_of_their_own_root() {
    let create = CreateRoleOrder {
        role: role(),
        harness: HarnessKind { name: "Codex".to_string() },
    };
    let request = OwnerOrchestrateRequest::from(create.clone());
    assert_eq!(request, Operation::Create(create));
    assert_eq!(request.operation_kind(), OperationKind::Create);

    let retire = RetireRoleOrder { role: role() };
    let request = OwnerOrchestrateRequest::from(retire.clone());
    assert_eq!(request, Operation::Retire(Retirement::Role(retire)));
    assert_eq!(request.operation_kind(), OperationKind::Retire);

    let request = OwnerOrchestrateRequest::from(lane());
    assert_eq!(request, Operation::Retire(Retirement::Lane(lane())));
    assert_eq!(request.kind(), OperationKind::Retire);

    let request = OwnerOrchestrateRequest::from(RefreshRepositoryIndexOrder {});
    assert_eq!(request, Operation::Refresh(RefreshRepositoryIndexOrder {}));
    assert_eq!(request.operation_kind(), OperationKind::Refresh);

    let register = LaneRegistrationRequest {
        role: role_vector(),
        authority: LaneAuthority { name: "Structural".to_string() },
    };
    let request = OwnerOrchestrateRequest::from(register.clone());
    assert_eq!(request, Operation::Register(register));
    assert_eq!(request.operation_kind(), OperationKind::Register);

    let change = LaneAuthorityChange {
        lane: lane(),
        authority: LaneAuthority { name: "Support".to_string() },
    };
    let request = OwnerOrchestrateRequest::from(change.clone());
    assert_eq!(request, Operation::SetAuthority(change));
    assert_eq!(request.operation_kind(), OperationKind::SetAuthority);
}

#[test]
fn operation_heads_are_contract_local_roots() {
    assert_eq!(OperationKind::Create.record_head(), "Create");
    assert_eq!(OperationKind::Retire.record_head(), "Retire");
    assert_eq!(OperationKind::Refresh.record_head(), "Refresh");
    assert_eq!(OperationKind::Register.record_head(), "Register");
    assert_eq!(OperationKind::SetAuthority.record_head(), "SetAuthority");
    for kind in all_kinds() {
        assert_ne!(kind.record_head(), "Mutate");
        assert_ne!(kind.record_head(), "Retract");
    }
}

#[test]
fn operation_heads_read_back_to_their_root() {
    for kind in all_kinds() {
        assert_eq!(OperationKind::from_record_head(kind.record_head()), Some(kind));
    }
    let refresh = Operation::Refresh(RefreshRepositoryIndexOrder {});
    assert_eq!(
        OperationKind::from_record_head(refresh.operation_kind().record_head()),
        Some(OwnerOperationKind::Refresh)
    );
}

#[test]
fn generic_verbs_name_no_operation() {
    assert_eq!(OperationKind::from_record_head("Mutate"), None);
    assert_eq!(OperationKind::from_record_head("Retract"), None);
    assert_eq!(OperationKind::from_record_head("refresh"), None);
    assert_eq!(OperationKind::from_record_head(""), None);
    assert_eq!(OperationKind::from_record_head("Refresh "), None);
}

#[test]
fn retirements_are_written_under_their_form() {
    let by_role = Retirement::Role(RetireRoleOrder { role: role() });
    let by_lane = Retirement::Lane(lane());
    assert_eq!(by_role.record_head(), "Role");
    assert_eq!(by_lane.record_head(), "Lane");
    assert_eq!(by_role.record_form(), RetirementForm::Role);
    assert_eq!(by_lane.record_form(), RetirementForm::Lane);
    assert_eq!(RetirementForm::Role.record_head(), "Role");
    assert_eq!(RetirementForm::Lane.record_head(), "Lane");
}

#[test]
fn retirement_heads_read_back_to_their_form() {
    let by_role = Retirement::Role(RetireRoleOrder { role: role() });
    let by_lane = Retirement::Lane(lane());
    assert_eq!(
        RetirementForm::from_record_head(by_role.record_head()),
        Ok(RetirementForm::Role)
    );
    assert_eq!(
        RetirementForm::from_record_head(by_lane.record_head()),
        Ok(RetirementForm::Lane)
    );
}

#[test]
fn unknown_retirement_head_is_refused_with_its_name() {
    assert_eq!(
        RetirementForm::from_record_head("Refresh"),
        Err(UnknownVariant { enum_name: "Retirement", got: "Refresh".to_string() })
    );
    assert_eq!(
        RetirementForm::from_record_head("role"),
        Err(UnknownVariant { enum_name: "Retirement", got: "role".to_string() })
    );
    assert_eq!(
        RetirementForm::from_record_head(""),
        Err(UnknownVariant { enum_name: "Retirement", got: String::new() })
    );
}

#[test]
fn unimplemented_reply_names_the_operation_root() {
    let reply = OwnerOrchestrateRequestUnimplemented {
        operation: Operation::Refresh(RefreshRepositoryIndexOrder {}).operation_kind(),
        reason: OwnerOrchestrateUnimplementedReason::NotBuiltYet,
    };
    assert_eq!(reply.operation, OwnerOperationKind::Refresh);
    assert_eq!(reply.reason, OwnerOrchestrateUnimplementedReason::NotBuiltYet);
}
