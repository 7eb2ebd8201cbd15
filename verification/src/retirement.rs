//! How a [`Retirement`] is framed as a Nota record.
//!
//! A retirement travels as a record whose head names its form, `Role` or
//! `Lane`, and whose single field is the payload of that form. The codec
//! that writes and reads the record syntax lives outside this library;
//! what lives here is every decision the framing makes: which head a
//! retirement is written under, and which form, or which error, a head
//! read back from the wire selects.

use vstd::prelude::*;

use crate::nouns::LaneIdentifier;
use crate::orders::{RetireRoleOrder, Retirement};

verus! {

/// The two forms a retirement takes on the wire.
#[derive(Debug, Clone, Copy, PartialEq, Eq, Structural)]
pub enum RetirementForm {
    Role,
    Lane,
}

/// A record head that names no variant of the enum being decoded.
#[derive(Debug, Clone, PartialEq, Eq)]
pub struct UnknownVariant {
    /// The enum that was being decoded.
    pub enum_name: &'static str,
    /// The head that was found.
    pub got: String,
}

/// The name of the enum whose heads [`RetirementForm::from_record_head`] reads.
pub open spec fn retirement_enum_name() -> Seq<char> {
    "Retirement"@
}

impl RetirementForm {
    /// The record head of this form.
    pub open spec fn head(self) -> Seq<char> {
        match self {
            RetirementForm::Role => "Role"@,
            RetirementForm::Lane => "Lane"@,
        }
    }

    /// The form whose record head is `head`, if there is one.
    pub open spec fn for_head(head: Seq<char>) -> Option<RetirementForm> {
        if head == "Role"@ {
            Some(RetirementForm::Role)
        } else if head == "Lane"@ {
            Some(RetirementForm::Lane)
        } else {
            None
        }
    }

    /// The record head under which this form is written.
    pub fn record_head(&self) -> (head: &'static str)
        ensures
            head@ == self.head(),
            *self == RetirementForm::Role ==> head@ == "Role"@,
            *self == RetirementForm::Lane ==> head@ == "Lane"@,
    {
        match self {
            RetirementForm::Role => "Role",
            RetirementForm::Lane => "Lane",
        }
    }

    /// The form that a record head read from the wire selects.
    ///
    /// `Role` and `Lane` select their forms; any other head is refused with
    /// an [`UnknownVariant`] that names `Retirement` and carries the head.
    pub fn from_record_head(head: &str) -> (form: Result<RetirementForm, UnknownVariant>)
        ensures
            form matches Ok(f) ==> RetirementForm::for_head(head@) == Some(f),
            form matches Err(e) ==> {
                &&& RetirementForm::for_head(head@) is None
                &&& e.enum_name@ == retirement_enum_name()
                &&& e.enum_name@ == "Retirement"@
                &&& e.got@ == head@
            },
            form == Ok::<RetirementForm, UnknownVariant>(RetirementForm::Role) <==> head@ == "Role"@,
            form == Ok::<RetirementForm, UnknownVariant>(RetirementForm::Lane) <==> head@ == "Lane"@,
            form is Err <==> (head@ != "Role"@ && head@ != "Lane"@),
    {
        proof {
            reveal_strlit("Role");
            reveal_strlit("Lane");
            assert("Role"@[0] != "Lane"@[0]);
        }
        let got = head.to_owned();
        let role = "Role".to_owned();
        let lane = "Lane".to_owned();
        if got == role {
            Ok(RetirementForm::Role)
        } else if got == lane {
            Ok(RetirementForm::Lane)
        } else {
            Err(UnknownVariant { enum_name: "Retirement", got })
        }
    }
}

impl Retirement {
    /// The form of this retirement.
    pub open spec fn form(self) -> RetirementForm {
        match self {
            Retirement::Role(_) => RetirementForm::Role,
            Retirement::Lane(_) => RetirementForm::Lane,
        }
    }

    /// The form under which this retirement is written.
    pub fn record_form(&self) -> (form: RetirementForm)
        ensures
            form == self.form(),
            self is Role ==> form == RetirementForm::Role,
            self is Lane ==> form == RetirementForm::Lane,
    {
        match self {
            Retirement::Role(_) => RetirementForm::Role,
            Retirement::Lane(_) => RetirementForm::Lane,
        }
    }

    /// The record head under which this retirement is written: `Role` for a
    /// retired role, `Lane` for a retired lane.
    pub fn record_head(&self) -> (head: &'static str)
        ensures
            head@ == self.form().head(),
            self is Role ==> head@ == "Role"@,
            self is Lane ==> head@ == "Lane"@,
    {
        self.record_form().record_head()
    }
}

/// Reading back the head a retirement was written under selects the form it
/// was written in: the framing loses nothing of which variant was sent.
pub proof fn lemma_retirement_head_round_trip(retirement: Retirement)
    ensures
        RetirementForm::for_head(retirement.form().head()) == Some(retirement.form()),
{
    reveal_strlit("Role");
    reveal_strlit("Lane");
    assert("Role"@[0] != "Lane"@[0]);
}

/// Distinct forms are written under distinct heads.
pub proof fn lemma_retirement_heads_distinct(a: RetirementForm, b: RetirementForm)
    ensures
        a.head() == b.head() <==> a == b,
{
    reveal_strlit("Role");
    reveal_strlit("Lane");
    assert("Role"@[0] != "Lane"@[0]);
}

/// A head selects a form only when it is exactly that form's head: `Role`
/// selects the role form, `Lane` the lane form, and every other head, a
/// generic verb such as `Retract` included, selects none.
pub proof fn lemma_retirement_head_selects_only_its_form(head: Seq<char>, form: RetirementForm)
    ensures
        RetirementForm::for_head(head) == Some(form) ==> form.head() == head,
        RetirementForm::for_head(head) is Some <==> (head == "Role"@ || head == "Lane"@),
        RetirementForm::for_head(head) == Some(RetirementForm::Role) <==> head == "Role"@,
        RetirementForm::for_head(head) == Some(RetirementForm::Lane) <==> head == "Lane"@,
        form == RetirementForm::Role <==> form.head() == "Role"@,
        form == RetirementForm::Lane <==> form.head() == "Lane"@,
{
    reveal_strlit("Role");
    reveal_strlit("Lane");
    assert("Role"@[0] != "Lane"@[0]);
}

/// The form of a retirement is its variant alone, whatever it carries: every
/// retired role is written under `Role`, every retired lane under `Lane`.
pub proof fn lemma_retirement_form_is_its_variant(order: RetireRoleOrder, lane: LaneIdentifier)
    ensures
        Retirement::Role(order).form() == RetirementForm::Role,
        Retirement::Lane(lane).form() == RetirementForm::Lane,
        Retirement::Role(order).form().head() == "Role"@,
        Retirement::Lane(lane).form().head() == "Lane"@,
{
}

} // verus!
