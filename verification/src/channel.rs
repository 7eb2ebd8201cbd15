//! The owner orchestration channel: the operations an owner may request,
//! the contract-local operation root that names each of them, and the
//! record head each operation travels under.
//!
//! Every operation is named by its own root (`Create`, `Retire`, `Refresh`,
//! `Register`, `SetAuthority`), never by a generic verb such as `Mutate` or
//! `Retract`.

use vstd::prelude::*;
use vstd::std_specs::convert::{FromSpec, FromSpecImpl};

use crate::nouns::LaneIdentifier;
use crate::orders::{
    CreateRoleOrder, LaneAuthorityChange, LaneRegistrationRequest, RefreshRepositoryIndexOrder,
    RetireRoleOrder, Retirement,
};

verus! {

/// A request on the owner channel: one owner order.
#[derive(Debug, Clone, PartialEq, Eq)]
pub enum Operation {
    Create(CreateRoleOrder),
    Retire(Retirement),
    Refresh(RefreshRepositoryIndexOrder),
    Register(LaneRegistrationRequest),
    SetAuthority(LaneAuthorityChange),
}

/// The contract-local root of an operation, without its payload.
#[derive(Debug, Clone, Copy, PartialEq, Eq, Hash, Structural)]
pub enum OperationKind {
    Create,
    Retire,
    Refresh,
    Register,
    SetAuthority,
}

/// The owner channel's name for its requests.
pub type OwnerOrchestrateRequest = Operation;

/// The owner channel's name for its operation roots.
pub type OwnerOperationKind = OperationKind;

impl Operation {
    /// The root that names this operation: the variant it was built with.
    pub open spec fn kind_of(self) -> OperationKind {
        match self {
            Operation::Create(_) => OperationKind::Create,
            Operation::Retire(_) => OperationKind::Retire,
            Operation::Refresh(_) => OperationKind::Refresh,
            Operation::Register(_) => OperationKind::Register,
            Operation::SetAuthority(_) => OperationKind::SetAuthority,
        }
    }

    /// The root of this operation.
    pub fn kind(&self) -> (kind: OperationKind)
        ensures
            kind == self.kind_of(),
            self is Create <==> kind == OperationKind::Create,
            self is Retire <==> kind == OperationKind::Retire,
            self is Refresh <==> kind == OperationKind::Refresh,
            self is Register <==> kind == OperationKind::Register,
            self is SetAuthority <==> kind == OperationKind::SetAuthority,
    {
        match self {
            Operation::Create(_) => OperationKind::Create,
            Operation::Retire(_) => OperationKind::Retire,
            Operation::Refresh(_) => OperationKind::Refresh,
            Operation::Register(_) => OperationKind::Register,
            Operation::SetAuthority(_) => OperationKind::SetAuthority,
        }
    }

    /// The contract-owned operation root of this request: `Create` for a
    /// create order, `Retire` for a retirement of a role or of a lane,
    /// `Refresh`, `Register` and `SetAuthority` for the others.
    pub fn operation_kind(&self) -> (kind: OwnerOperationKind)
        ensures
            kind == self.kind_of(),
            self is Create <==> kind == OperationKind::Create,
            self is Retire <==> kind == OperationKind::Retire,
            self is Refresh <==> kind == OperationKind::Refresh,
            self is Register <==> kind == OperationKind::Register,
            self is SetAuthority <==> kind == OperationKind::SetAuthority,
    {
        self.kind()
    }
}

impl OperationKind {
    /// The record head an operation of this root travels under.
    pub open spec fn head(self) -> Seq<char> {
        match self {
            OperationKind::Create => "Create"@,
            OperationKind::Retire => "Retire"@,
            OperationKind::Refresh => "Refresh"@,
            OperationKind::Register => "Register"@,
            OperationKind::SetAuthority => "SetAuthority"@,
        }
    }

    /// The root whose record head is `head`, if there is one.
    pub open spec fn for_head(head: Seq<char>) -> Option<OperationKind> {
        if head == "Create"@ {
            Some(OperationKind::Create)
        } else if head == "Retire"@ {
            Some(OperationKind::Retire)
        } else if head == "Refresh"@ {
            Some(OperationKind::Refresh)
        } else if head == "Register"@ {
            Some(OperationKind::Register)
        } else if head == "SetAuthority"@ {
            Some(OperationKind::SetAuthority)
        } else {
            None
        }
    }

    /// The record head under which an operation of this root is written.
    pub fn record_head(&self) -> (head: &'static str)
        ensures
            head@ == self.head(),
            *self == OperationKind::Create ==> head@ == "Create"@,
            *self == OperationKind::Retire ==> head@ == "Retire"@,
            *self == OperationKind::Refresh ==> head@ == "Refresh"@,
            *self == OperationKind::Register ==> head@ == "Register"@,
            *self == OperationKind::SetAuthority ==> head@ == "SetAuthority"@,
    {
        match self {
            OperationKind::Create => "Create",
            OperationKind::Retire => "Retire",
            OperationKind::Refresh => "Refresh",
            OperationKind::Register => "Register",
            OperationKind::SetAuthority => "SetAuthority",
        }
    }

    /// The root that a record head read from the wire names, or `None` when
    /// the head names no owner operation.
    pub fn from_record_head(head: &str) -> (kind: Option<OperationKind>)
        ensures
            kind == OperationKind::for_head(head@),
            kind == Some(OperationKind::Create) <==> head@ == "Create"@,
            kind == Some(OperationKind::Retire) <==> head@ == "Retire"@,
            kind == Some(OperationKind::Refresh) <==> head@ == "Refresh"@,
            kind == Some(OperationKind::Register) <==> head@ == "Register"@,
            kind == Some(OperationKind::SetAuthority) <==> head@ == "SetAuthority"@,
            kind is None <==> operation_heads().contains(head@) == false,
    {
        proof {
            lemma_operation_heads_literal_distinct();
        }
        let got = head.to_owned();
        if got == "Create".to_owned() {
            Some(OperationKind::Create)
        } else if got == "Retire".to_owned() {
            Some(OperationKind::Retire)
        } else if got == "Refresh".to_owned() {
            Some(OperationKind::Refresh)
        } else if got == "Register".to_owned() {
            Some(OperationKind::Register)
        } else if got == "SetAuthority".to_owned() {
            Some(OperationKind::SetAuthority)
        } else {
            None
        }
    }
}

impl From<CreateRoleOrder> for Operation {
    fn from(payload: CreateRoleOrder) -> Self {
        Operation::Create(payload)
    }
}

impl FromSpecImpl<CreateRoleOrder> for Operation {
    open spec fn obeys_from_spec() -> bool {
        true
    }

    open spec fn from_spec(payload: CreateRoleOrder) -> Self {
        Operation::Create(payload)
    }
}

impl From<RetireRoleOrder> for Operation {
    fn from(payload: RetireRoleOrder) -> Self {
        Operation::Retire(Retirement::Role(payload))
    }
}

impl FromSpecImpl<RetireRoleOrder> for Operation {
    open spec fn obeys_from_spec() -> bool {
        true
    }

    open spec fn from_spec(payload: RetireRoleOrder) -> Self {
        Operation::Retire(Retirement::Role(payload))
    }
}

impl From<LaneIdentifier> for Operation {
    fn from(payload: LaneIdentifier) -> Self {
        Operation::Retire(Retirement::Lane(payload))
    }
}

impl FromSpecImpl<LaneIdentifier> for Operation {
    open spec fn obeys_from_spec() -> bool {
        true
    }

    open spec fn from_spec(payload: LaneIdentifier) -> Self {
        Operation::Retire(Retirement::Lane(payload))
    }
}

impl From<RefreshRepositoryIndexOrder> for Operation {
    fn from(payload: RefreshRepositoryIndexOrder) -> Self {
        Operation::Refresh(payload)
    }
}

impl FromSpecImpl<RefreshRepositoryIndexOrder> for Operation {
    open spec fn obeys_from_spec() -> bool {
        true
    }

    open spec fn from_spec(payload: RefreshRepositoryIndexOrder) -> Self {
        Operation::Refresh(payload)
    }
}

impl From<LaneRegistrationRequest> for Operation {
    fn from(payload: LaneRegistrationRequest) -> Self {
        Operation::Register(payload)
    }
}

impl FromSpecImpl<LaneRegistrationRequest> for Operation {
    open spec fn obeys_from_spec() -> bool {
        true
    }

    open spec fn from_spec(payload: LaneRegistrationRequest) -> Self {
        Operation::Register(payload)
    }
}

impl From<LaneAuthorityChange> for Operation {
    fn from(payload: LaneAuthorityChange) -> Self {
        Operation::SetAuthority(payload)
    }
}

impl FromSpecImpl<LaneAuthorityChange> for Operation {
    open spec fn obeys_from_spec() -> bool {
        true
    }

    open spec fn from_spec(payload: LaneAuthorityChange) -> Self {
        Operation::SetAuthority(payload)
    }
}

/// The five heads an owner operation travels under.
pub open spec fn operation_heads() -> Seq<Seq<char>> {
    seq!["Create"@, "Retire"@, "Refresh"@, "Register"@, "SetAuthority"@]
}

/// The five operation heads are pairwise distinct texts.
proof fn lemma_operation_heads_literal_distinct()
    ensures
        "Create"@ != "Retire"@,
        "Create"@ != "Refresh"@,
        "Create"@ != "Register"@,
        "Create"@ != "SetAuthority"@,
        "Retire"@ != "Refresh"@,
        "Retire"@ != "Register"@,
        "Retire"@ != "SetAuthority"@,
        "Refresh"@ != "Register"@,
        "Refresh"@ != "SetAuthority"@,
        "Register"@ != "SetAuthority"@,
{
    reveal_strlit("Create");
    reveal_strlit("Retire");
    reveal_strlit("Refresh");
    reveal_strlit("Register");
    reveal_strlit("SetAuthority");
    assert("Create"@[0] != "Retire"@[0]);
    assert("Create"@[0] != "Refresh"@[0]);
    assert("Create"@[0] != "Register"@[0]);
    assert("Create"@[0] != "SetAuthority"@[0]);
    assert("Retire"@[2] != "Refresh"@[2]);
    assert("Retire"@[2] != "Register"@[2]);
    assert("Retire"@[0] != "SetAuthority"@[0]);
    assert("Refresh"@[2] != "Register"@[2]);
    assert("Refresh"@[0] != "SetAuthority"@[0]);
    assert("Register"@[0] != "SetAuthority"@[0]);
}

/// A head names an operation root only when it is exactly that root's head:
/// `Create`, `Retire`, `Refresh`, `Register` and `SetAuthority` name their
/// roots, and every other head, a retirement head such as `Lane` or a
/// generic verb included, names none.
pub proof fn lemma_operation_head_selects_only_its_root(head: Seq<char>, kind: OperationKind)
    ensures
        OperationKind::for_head(head) == Some(kind) ==> kind.head() == head,
        OperationKind::for_head(head) is Some <==> operation_heads().contains(head),
        kind == OperationKind::Create <==> kind.head() == "Create"@,
        kind == OperationKind::Retire <==> kind.head() == "Retire"@,
        kind == OperationKind::Refresh <==> kind.head() == "Refresh"@,
        kind == OperationKind::Register <==> kind.head() == "Register"@,
        kind == OperationKind::SetAuthority <==> kind.head() == "SetAuthority"@,
{
    lemma_operation_heads_literal_distinct();
    let heads = operation_heads();
    if heads.contains(head) {
        let i = choose|i: int| 0 <= i < heads.len() && heads[i] == head;
        assert(heads[i] == head);
    }
    assert(head == "Create"@ ==> heads[0] == head);
    assert(head == "Retire"@ ==> heads[1] == head);
    assert(head == "Refresh"@ ==> heads[2] == head);
    assert(head == "Register"@ ==> heads[3] == head);
    assert(head == "SetAuthority"@ ==> heads[4] == head);
}

/// The root of an operation is its variant alone, whatever order it carries.
pub proof fn lemma_operation_root_is_its_variant(
    create: CreateRoleOrder,
    retirement: Retirement,
    refresh: RefreshRepositoryIndexOrder,
    register: LaneRegistrationRequest,
    change: LaneAuthorityChange,
)
    ensures
        Operation::Create(create).kind_of() == OperationKind::Create,
        Operation::Retire(retirement).kind_of() == OperationKind::Retire,
        Operation::Refresh(refresh).kind_of() == OperationKind::Refresh,
        Operation::Register(register).kind_of() == OperationKind::Register,
        Operation::SetAuthority(change).kind_of() == OperationKind::SetAuthority,
{
}

/// Reading back the head an operation root was written under gives that
/// root again.
pub proof fn lemma_operation_head_round_trip(kind: OperationKind)
    ensures
        OperationKind::for_head(kind.head()) == Some(kind),
{
    reveal_strlit("Create");
    reveal_strlit("Retire");
    reveal_strlit("Refresh");
    reveal_strlit("Register");
    reveal_strlit("SetAuthority");
    assert("Create"@[0] != "Retire"@[0]);
    assert("Retire"@[2] != "Refresh"@[2]);
    assert("Retire"@[2] != "Register"@[2]);
    assert("Refresh"@[2] != "Register"@[2]);
}

/// Distinct operation roots travel under distinct heads.
pub proof fn lemma_operation_heads_distinct(a: OperationKind, b: OperationKind)
    ensures
        a.head() == b.head() <==> a == b,
{
    lemma_operation_head_round_trip(a);
    lemma_operation_head_round_trip(b);
}

/// Every operation travels under its own contract-local root, never under
/// the generic verbs `Mutate` or `Retract`.
pub proof fn lemma_operation_heads_contract_local(kind: OperationKind)
    ensures
        kind.head() != "Mutate"@,
        kind.head() != "Retract"@,
{
    reveal_strlit("Create");
    reveal_strlit("Retire");
    reveal_strlit("Refresh");
    reveal_strlit("Register");
    reveal_strlit("SetAuthority");
    reveal_strlit("Mutate");
    reveal_strlit("Retract");
    assert("Mutate"@[0] != kind.head()[0]);
    assert("Retract"@.len() != kind.head().len() || "Retract"@[2] != kind.head()[2]);
}

/// Turning an order into a request keeps its root: a create order becomes a
/// `Create` request, a retired role or lane a `Retire` request, a refresh
/// order a `Refresh` request, a lane registration a `Register` request and
/// an authority change a `SetAuthority` request; and the request carries the
/// order unchanged.
pub proof fn lemma_orders_keep_their_root(
    create: CreateRoleOrder,
    retire: RetireRoleOrder,
    lane: LaneIdentifier,
    refresh: RefreshRepositoryIndexOrder,
    register: LaneRegistrationRequest,
    change: LaneAuthorityChange,
)
    ensures
        <Operation as FromSpec<CreateRoleOrder>>::from_spec(create).kind_of()
            == OperationKind::Create,
        <Operation as FromSpec<CreateRoleOrder>>::from_spec(create) == Operation::Create(create),
        <Operation as FromSpec<RetireRoleOrder>>::from_spec(retire).kind_of()
            == OperationKind::Retire,
        <Operation as FromSpec<RetireRoleOrder>>::from_spec(retire) == Operation::Retire(
            Retirement::Role(retire),
        ),
        <Operation as FromSpec<LaneIdentifier>>::from_spec(lane).kind_of()
            == OperationKind::Retire,
        <Operation as FromSpec<LaneIdentifier>>::from_spec(lane) == Operation::Retire(
            Retirement::Lane(lane),
        ),
        <Operation as FromSpec<RefreshRepositoryIndexOrder>>::from_spec(refresh).kind_of()
            == OperationKind::Refresh,
        <Operation as FromSpec<LaneRegistrationRequest>>::from_spec(register).kind_of()
            == OperationKind::Register,
        <Operation as FromSpec<LaneRegistrationRequest>>::from_spec(register)
            == Operation::Register(register),
        <Operation as FromSpec<LaneAuthorityChange>>::from_spec(change).kind_of()
            == OperationKind::SetAuthority,
        <Operation as FromSpec<LaneAuthorityChange>>::from_spec(change)
            == Operation::SetAuthority(change),
{
}

} // verus!
