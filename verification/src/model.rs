//! The registry's records, and what a lookup comes to.
//!
//! Every record is a snapshot that one reply carried. Each type has a
//! mathematical view in which a text is a sequence of characters and a list
//! is a sequence; the contracts of the crate speak of those views.

use vstd::prelude::*;

verus! {

/// The two namespaces of the registry.
#[derive(Clone, Copy, Debug, PartialEq, Eq)]
pub enum UnitKind {
    /// A top-level registered organization.
    MainUnit,
    /// A unit that is subordinate to a main unit.
    SubUnit,
}

/// A street or postal address.
#[derive(Clone, Debug, PartialEq, Eq)]
pub struct Address {
    /// Free-text lines, in order; there may be none.
    pub lines: Vec<String>,
    pub postal_code: Option<String>,
    pub city: Option<String>,
}

/// View of an [`Address`].
pub struct AddressView {
    pub lines: Seq<Seq<char>>,
    pub postal_code: Option<Seq<char>>,
    pub city: Option<Seq<char>>,
}

impl DeepView for Address {
    type V = AddressView;

    open spec fn deep_view(&self) -> AddressView {
        AddressView {
            lines: self.lines.deep_view(),
            postal_code: self.postal_code.deep_view(),
            city: self.city.deep_view(),
        }
    }
}

/// A registered organization, main unit or sub-unit.
#[derive(Clone, Debug, PartialEq, Eq)]
pub struct Entity {
    /// The organization number.
    pub id: String,
    pub name: String,
    pub deletion_date: Option<String>,
    pub registration_date: Option<String>,
    pub business_address: Option<Address>,
    pub postal_address: Option<Address>,
    pub under_dissolution: Option<bool>,
    pub under_forced_dissolution: Option<bool>,
    pub homepage: Option<String>,
    /// The organization number of the unit above this one. It is a
    /// reference: the parent is looked up on its own.
    pub parent_id: Option<String>,
}

/// View of an [`Entity`].
pub struct EntityView {
    pub id: Seq<char>,
    pub name: Seq<char>,
    pub deletion_date: Option<Seq<char>>,
    pub registration_date: Option<Seq<char>>,
    pub business_address: Option<AddressView>,
    pub postal_address: Option<AddressView>,
    pub under_dissolution: Option<bool>,
    pub under_forced_dissolution: Option<bool>,
    pub homepage: Option<Seq<char>>,
    pub parent_id: Option<Seq<char>>,
}

impl DeepView for Entity {
    type V = EntityView;

    open spec fn deep_view(&self) -> EntityView {
        EntityView {
            id: self.id@,
            name: self.name@,
            deletion_date: self.deletion_date.deep_view(),
            registration_date: self.registration_date.deep_view(),
            business_address: self.business_address.deep_view(),
            postal_address: self.postal_address.deep_view(),
            under_dissolution: self.under_dissolution,
            under_forced_dissolution: self.under_forced_dissolution,
            homepage: self.homepage.deep_view(),
            parent_id: self.parent_id.deep_view(),
        }
    }
}

/// What the registry keeps of a unit that has been struck off.
#[derive(Clone, Debug, PartialEq, Eq)]
pub struct RemovedEntity {
    pub id: String,
    pub deletion_date: String,
}

/// View of a [`RemovedEntity`].
pub struct RemovedEntityView {
    pub id: Seq<char>,
    pub deletion_date: Seq<char>,
}

impl DeepView for RemovedEntity {
    type V = RemovedEntityView;

    open spec fn deep_view(&self) -> RemovedEntityView {
        RemovedEntityView { id: self.id@, deletion_date: self.deletion_date@ }
    }
}

/// The registry's own account of a failure on its side.
#[derive(Clone, Debug, PartialEq, Eq)]
pub struct RemoteFault {
    pub trace: String,
    pub error: String,
    pub message: String,
}

/// View of a [`RemoteFault`].
pub struct RemoteFaultView {
    pub trace: Seq<char>,
    pub error: Seq<char>,
    pub message: Seq<char>,
}

impl DeepView for RemoteFault {
    type V = RemoteFaultView;

    open spec fn deep_view(&self) -> RemoteFaultView {
        RemoteFaultView { trace: self.trace@, error: self.error@, message: self.message@ }
    }
}

/// A unit that was found, with what it refers to.
#[derive(Clone, Debug, PartialEq, Eq)]
pub struct Resolved {
    pub kind: UnitKind,
    pub entity: Entity,
    /// The unit that `entity` names as its parent, if it names one.
    pub parent: Option<Entity>,
    /// The units that name the queried number as their parent. A main unit
    /// always has the list, which may be empty; a sub-unit never has one.
    pub children: Option<Vec<Entity>>,
}

/// View of a [`Resolved`].
pub struct ResolvedView {
    pub kind: UnitKind,
    pub entity: EntityView,
    pub parent: Option<EntityView>,
    pub children: Option<Seq<EntityView>>,
}

impl ResolvedView {
    /// Children are attached to main units, and to main units only.
    pub open spec fn well_formed(self) -> bool {
        self.children is Some <==> self.kind == UnitKind::MainUnit
    }
}

impl DeepView for Resolved {
    type V = ResolvedView;

    open spec fn deep_view(&self) -> ResolvedView {
        ResolvedView {
            kind: self.kind,
            entity: self.entity.deep_view(),
            parent: self.parent.deep_view(),
            children: self.children.deep_view(),
        }
    }
}

/// What a lookup that ran to its end has found out about a number.
#[derive(Clone, Debug, PartialEq, Eq)]
pub enum Outcome {
    /// The number belongs to a live unit.
    Found(Resolved),
    /// The number is known in neither namespace.
    NotFound,
    /// The number belonged to a unit that has been struck off.
    Removed(UnitKind, RemovedEntity),
}

/// View of an [`Outcome`].
pub enum OutcomeView {
    Found(ResolvedView),
    NotFound,
    Removed(UnitKind, RemovedEntityView),
}

impl OutcomeView {
    pub open spec fn well_formed(self) -> bool {
        self matches OutcomeView::Found(found) ==> found.well_formed()
    }
}

impl DeepView for Outcome {
    type V = OutcomeView;

    open spec fn deep_view(&self) -> OutcomeView {
        match self {
            Outcome::Found(found) => OutcomeView::Found(found.deep_view()),
            Outcome::NotFound => OutcomeView::NotFound,
            Outcome::Removed(kind, removed) => OutcomeView::Removed(*kind, removed.deep_view()),
        }
    }
}

/// Why a lookup did not come to an outcome.
#[derive(Clone, Debug, PartialEq, Eq)]
pub enum LookupError {
    /// A unit that the registry itself referred to is unknown to it.
    NotFound,
    /// A unit that the registry itself referred to has been struck off.
    Gone,
    /// The registry reported a failure on its side. The fault is `None`
    /// where its account of the failure could not be read.
    InternalServerError(Option<RemoteFault>),
    /// The registry could not be reached, or did not answer in time.
    NetworkError(String),
    /// The registry answered with a status that the lookup has no use for.
    UnexpectedResponse(u16),
    /// A reply that had to be read could not be read.
    JsonParseError(String),
}

/// View of a [`LookupError`].
pub enum LookupErrorView {
    NotFound,
    Gone,
    InternalServerError(Option<RemoteFaultView>),
    NetworkError(Seq<char>),
    UnexpectedResponse(u16),
    JsonParseError(Seq<char>),
}

impl DeepView for LookupError {
    type V = LookupErrorView;

    open spec fn deep_view(&self) -> LookupErrorView {
        match self {
            LookupError::NotFound => LookupErrorView::NotFound,
            LookupError::Gone => LookupErrorView::Gone,
            LookupError::InternalServerError(fault) => LookupErrorView::InternalServerError(
                fault.deep_view(),
            ),
            LookupError::NetworkError(detail) => LookupErrorView::NetworkError(detail@),
            LookupError::UnexpectedResponse(status) => LookupErrorView::UnexpectedResponse(
                *status,
            ),
            LookupError::JsonParseError(detail) => LookupErrorView::JsonParseError(detail@),
        }
    }
}

/// View of the result of a lookup.
pub open spec fn result_view(result: Result<Outcome, LookupError>) -> Result<
    OutcomeView,
    LookupErrorView,
> {
    match result {
        Ok(outcome) => Ok(outcome.deep_view()),
        Err(error) => Err(error.deep_view()),
    }
}

} // verus!
