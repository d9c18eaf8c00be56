//! A whole lookup, seen from outside: a registry, the calls that a lookup
//! makes to it, and what it comes to.
//!
//! [`resolution`] says in one piece what the lookup of a number finds in a
//! registry, and [`asked`] which calls it makes on the way. [`run`] and
//! [`requests`] say the same of the resolver, driven event by event. The
//! lemmas below show that the two agree, and what follows from that.

use vstd::prelude::*;
use crate::call::{EntityReplyView, ListReplyView, ReferenceReplyView, listed, STATUS_GONE,
    STATUS_INTERNAL_SERVER_ERROR, STATUS_NOT_FOUND, STATUS_OK};
use crate::model::{EntityView, LookupErrorView, OutcomeView, RemoteFaultView,
    RemovedEntityView, ResolvedView, UnitKind};
use crate::resolver::{ResolverView, StepView};
use crate::wire::{ActionView, EventView, PayloadView, RequestView, Shape};

verus! {

/// What comes of fetching a resource.
pub enum Fetched {
    /// No whole response: the registry was not reached, was too slow, or the
    /// connection broke.
    Unreachable(Seq<char>),
    /// A response whose body is no text.
    Unreadable(Seq<char>),
    /// A response with this status, and a body.
    Status(u16),
}

/// A registry at one moment, as a lookup meets it: for every request, what
/// comes of fetching it, and what comes of reading the fetched body in each
/// form (the unit, the record or the list that it holds, or why it cannot
/// be read so).
pub struct Registry {
    pub fetched: spec_fn(RequestView) -> Fetched,
    pub as_entity: spec_fn(RequestView) -> Result<EntityView, Seq<char>>,
    pub as_removed: spec_fn(RequestView) -> Result<RemovedEntityView, Seq<char>>,
    pub as_fault: spec_fn(RequestView) -> Result<RemoteFaultView, Seq<char>>,
    pub as_children: spec_fn(RequestView) -> Result<Option<Seq<EntityView>>, Seq<char>>,
}

impl Registry {
    /// What comes of reading the body fetched for `request` in a form.
    pub open spec fn reading(self, request: RequestView, shape: Shape) -> EventView {
        match shape {
            Shape::Entity => match (self.as_entity)(request) {
                Ok(entity) => EventView::Decoded(PayloadView::Entity(entity)),
                Err(detail) => EventView::Undecodable(detail),
            },
            Shape::Removed => match (self.as_removed)(request) {
                Ok(removed) => EventView::Decoded(PayloadView::Removed(removed)),
                Err(detail) => EventView::Undecodable(detail),
            },
            Shape::Fault => match (self.as_fault)(request) {
                Ok(fault) => EventView::Decoded(PayloadView::Fault(fault)),
                Err(detail) => EventView::Undecodable(detail),
            },
            Shape::Children => match (self.as_children)(request) {
                Ok(children) => EventView::Decoded(PayloadView::Children(children)),
                Err(detail) => EventView::Undecodable(detail),
            },
        }
    }

    /// The event that carrying out `action` brings, where `request` is the
    /// call that is being made.
    pub open spec fn report(self, request: RequestView, action: ActionView) -> EventView {
        match action {
            ActionView::Fetch(_) => match (self.fetched)(request) {
                Fetched::Unreachable(detail) => EventView::TransportFailed(detail),
                Fetched::Unreadable(detail) => EventView::BodyUnreadable(detail),
                Fetched::Status(status) => EventView::Response(status),
            },
            ActionView::Decode(shape) => self.reading(request, shape),
        }
    }

    /// The error of a response with status 500, whose body is read as a
    /// fault where it can be.
    pub open spec fn server_error(self, request: RequestView) -> LookupErrorView {
        match (self.as_fault)(request) {
            Ok(fault) => LookupErrorView::InternalServerError(Some(fault)),
            Err(_) => LookupErrorView::InternalServerError(None),
        }
    }

    /// What the call for the number `id` itself among the units of `kind`
    /// comes to. The body of a response with status 410 is read: it holds
    /// the record of the unit that was struck off.
    pub open spec fn entity(self, kind: UnitKind, id: Seq<char>) -> EntityReplyView {
        let request = RequestView::Entity { kind, id };
        match (self.fetched)(request) {
            Fetched::Unreachable(detail) => EntityReplyView::Failed(
                LookupErrorView::NetworkError(detail),
            ),
            Fetched::Unreadable(detail) => EntityReplyView::Failed(
                LookupErrorView::JsonParseError(detail),
            ),
            Fetched::Status(status) => if status == STATUS_OK {
                match (self.as_entity)(request) {
                    Ok(entity) => EntityReplyView::Found(entity),
                    Err(detail) => EntityReplyView::Failed(LookupErrorView::JsonParseError(detail)),
                }
            } else if status == STATUS_NOT_FOUND {
                EntityReplyView::NotFound
            } else if status == STATUS_GONE {
                match (self.as_removed)(request) {
                    Ok(removed) => EntityReplyView::Gone(removed),
                    Err(detail) => EntityReplyView::Failed(LookupErrorView::JsonParseError(detail)),
                }
            } else if status == STATUS_INTERNAL_SERVER_ERROR {
                EntityReplyView::Failed(self.server_error(request))
            } else {
                EntityReplyView::Failed(LookupErrorView::UnexpectedResponse(status))
            },
        }
    }

    /// What the call for the main unit `id` comes to where the registry
    /// itself referred to that unit. Every status but 200 decides by itself
    /// what kind of reply it is: on 404 and on 410 the body plays no part,
    /// and on 500 it only says which fault the error carries.
    pub open spec fn reference(self, id: Seq<char>) -> ReferenceReplyView {
        let request = RequestView::Entity { kind: UnitKind::MainUnit, id };
        match (self.fetched)(request) {
            Fetched::Unreachable(detail) => ReferenceReplyView::Failed(
                LookupErrorView::NetworkError(detail),
            ),
            Fetched::Unreadable(detail) => ReferenceReplyView::Failed(
                LookupErrorView::JsonParseError(detail),
            ),
            Fetched::Status(status) => if status == STATUS_OK {
                match (self.as_entity)(request) {
                    Ok(entity) => ReferenceReplyView::Found(entity),
                    Err(detail) => ReferenceReplyView::Failed(
                        LookupErrorView::JsonParseError(detail),
                    ),
                }
            } else if status == STATUS_NOT_FOUND {
                ReferenceReplyView::NotFound
            } else if status == STATUS_GONE {
                ReferenceReplyView::Gone
            } else if status == STATUS_INTERNAL_SERVER_ERROR {
                ReferenceReplyView::Failed(self.server_error(request))
            } else {
                ReferenceReplyView::Failed(LookupErrorView::UnexpectedResponse(status))
            },
        }
    }

    /// What the query for the sub-units of `id` comes to.
    pub open spec fn children(self, id: Seq<char>) -> ListReplyView {
        let request = RequestView::Children { parent_id: id };
        match (self.fetched)(request) {
            Fetched::Unreachable(detail) => Err(LookupErrorView::NetworkError(detail)),
            Fetched::Unreadable(detail) => Err(LookupErrorView::JsonParseError(detail)),
            Fetched::Status(status) => if status == STATUS_OK {
                match (self.as_children)(request) {
                    Ok(children) => Ok(listed(children)),
                    Err(detail) => Err(LookupErrorView::JsonParseError(detail)),
                }
            } else if status == STATUS_INTERNAL_SERVER_ERROR {
                Err(self.server_error(request))
            } else {
                Err(LookupErrorView::UnexpectedResponse(status))
            },
        }
    }

    /// The parent of `entity`: none where it names none, else the main unit
    /// that it names. That this unit is unknown or struck off is an error.
    pub open spec fn parent(self, entity: EntityView) -> Result<
        Option<EntityView>,
        LookupErrorView,
    > {
        match entity.parent_id {
            None => Ok(None),
            Some(parent_id) => match self.reference(parent_id) {
                ReferenceReplyView::Found(parent) => Ok(Some(parent)),
                ReferenceReplyView::NotFound => Err(LookupErrorView::NotFound),
                ReferenceReplyView::Gone => Err(LookupErrorView::Gone),
                ReferenceReplyView::Failed(error) => Err(error),
            },
        }
    }

    /// What is found of `id` once `entity` has come for it as a unit of
    /// `kind`: the parent first, then, for a main unit, the sub-units. All
    /// of it has to succeed for the unit to count as found.
    pub open spec fn found(self, id: Seq<char>, kind: UnitKind, entity: EntityView) -> Result<
        OutcomeView,
        LookupErrorView,
    > {
        match self.parent(entity) {
            Err(error) => Err(error),
            Ok(parent) => match kind {
                UnitKind::SubUnit => Ok(
                    OutcomeView::Found(ResolvedView { kind, entity, parent, children: None }),
                ),
                UnitKind::MainUnit => match self.children(id) {
                    Err(error) => Err(error),
                    Ok(children) => Ok(
                        OutcomeView::Found(
                            ResolvedView { kind, entity, parent, children: Some(children) },
                        ),
                    ),
                },
            },
        }
    }
}

/// What the lookup of `id` in `registry` comes to.
pub open spec fn resolution(registry: Registry, id: Seq<char>) -> Result<
    OutcomeView,
    LookupErrorView,
> {
    match registry.entity(UnitKind::MainUnit, id) {
        EntityReplyView::Found(entity) => registry.found(id, UnitKind::MainUnit, entity),
        EntityReplyView::Gone(removed) => Ok(OutcomeView::Removed(UnitKind::MainUnit, removed)),
        EntityReplyView::Failed(error) => Err(error),
        EntityReplyView::NotFound => match registry.entity(UnitKind::SubUnit, id) {
            EntityReplyView::Found(entity) => registry.found(id, UnitKind::SubUnit, entity),
            EntityReplyView::Gone(removed) => Ok(
                OutcomeView::Removed(UnitKind::SubUnit, removed),
            ),
            EntityReplyView::Failed(error) => Err(error),
            EntityReplyView::NotFound => Ok(OutcomeView::NotFound),
        },
    }
}

/// The calls that follow once `entity` has come for `id` as a unit of `kind`.
pub open spec fn asked_after(
    registry: Registry,
    id: Seq<char>,
    kind: UnitKind,
    entity: EntityView,
) -> Seq<RequestView> {
    let for_parent = match entity.parent_id {
        Some(parent_id) => seq![RequestView::Entity { kind: UnitKind::MainUnit, id: parent_id }],
        None => Seq::empty(),
    };
    if kind == UnitKind::MainUnit && registry.parent(entity) is Ok {
        for_parent + seq![RequestView::Children { parent_id: id }]
    } else {
        for_parent
    }
}

/// The calls that the lookup of `id` makes to `registry`, in their order.
pub open spec fn asked(registry: Registry, id: Seq<char>) -> Seq<RequestView> {
    let primary = seq![RequestView::Entity { kind: UnitKind::MainUnit, id }];
    let fallback = seq![RequestView::Entity { kind: UnitKind::SubUnit, id }];
    match registry.entity(UnitKind::MainUnit, id) {
        EntityReplyView::Found(entity) => primary + asked_after(
            registry,
            id,
            UnitKind::MainUnit,
            entity,
        ),
        EntityReplyView::NotFound => match registry.entity(UnitKind::SubUnit, id) {
            EntityReplyView::Found(entity) => primary + fallback + asked_after(
                registry,
                id,
                UnitKind::SubUnit,
                entity,
            ),
            _ => primary + fallback,
        },
        _ => primary,
    }
}

impl ResolverView {
    /// An upper bound on the events that a lookup in this state still takes
    /// before it is done, where every event reports on what was asked for.
    pub open spec fn distance(self) -> nat {
        match self {
            ResolverView::Primary { stage, .. } => if stage is Response {
                8
            } else {
                7
            },
            ResolverView::Fallback { stage, .. } => if stage is Response {
                6
            } else {
                5
            },
            ResolverView::Parent { asking, .. } => if asking is Response {
                4
            } else {
                3
            },
            ResolverView::Children { listing, .. } => if listing is Response {
                2
            } else {
                1
            },
        }
    }

    /// The state after the event that `registry` brings for what this state
    /// waits for.
    pub open spec fn served(self, registry: Registry) -> StepView {
        self.step(registry.report(self.request(), self.pending()))
    }
}

/// What the resolver comes to from `state`, when every action that it asks
/// for is carried out against `registry` and reported.
pub open spec fn run(registry: Registry, state: ResolverView) -> Result<
    OutcomeView,
    LookupErrorView,
>
    decreases state.distance(),
{
    match state.served(registry) {
        StepView::Done(result) => result,
        StepView::Continue(next) => run(registry, next),
    }
}

/// The calls that the resolver asks for from `state` on, in their order,
/// when every action is carried out against `registry` and reported.
pub open spec fn requests(registry: Registry, state: ResolverView) -> Seq<RequestView>
    decreases state.distance(),
{
    let here = if state.pending() is Fetch {
        seq![state.request()]
    } else {
        Seq::empty()
    };
    match state.served(registry) {
        StepView::Done(result) => here,
        StepView::Continue(next) => here + requests(registry, next),
    }
}

/// An event that is no report on what the lookup waits for is passed over:
/// the lookup stays in the state in which it is.
pub proof fn lemma_stray_event_is_passed_over(state: ResolverView, event: EventView)
    requires
        !event.answers(state.pending()),
    ensures
        state.step(event) == StepView::Continue(state),
{
}

/// An event that reports on what the lookup waits for ends the lookup or
/// takes it nearer to its end. So no lookup takes more than eight reports.
pub proof fn lemma_report_advances(state: ResolverView, event: EventView)
    requires
        event.answers(state.pending()),
    ensures
        state.distance() <= 8,
        state.step(event) matches StepView::Continue(next) ==> next.distance()
            < state.distance(),
{
}

/// What a registry brings for an action is a report on that action.
pub proof fn lemma_registry_reports(registry: Registry, state: ResolverView)
    ensures
        registry.report(state.request(), state.pending()).answers(state.pending()),
{
}

/// Whatever the state and the event: where a step ends the lookup with a
/// unit that was found, the unit has a list of sub-units exactly if it is a
/// main unit.
pub proof fn lemma_step_outcome_well_formed(state: ResolverView, event: EventView)
    ensures
        state.step(event) matches StepView::Done(Ok(outcome)) ==> outcome.well_formed(),
{
}

impl Registry {
    /// Whether two registries answer one request alike: the fetch, and every
    /// reading of the body.
    pub open spec fn agrees_on(self, other: Registry, request: RequestView) -> bool {
        &&& (self.fetched)(request) == (other.fetched)(request)
        &&& (self.as_entity)(request) == (other.as_entity)(request)
        &&& (self.as_removed)(request) == (other.as_removed)(request)
        &&& (self.as_fault)(request) == (other.as_fault)(request)
        &&& (self.as_children)(request) == (other.as_children)(request)
    }
}

/// Driven against a registry, the resolver comes to what the lookup of the
/// number in that registry is, and makes the calls of that lookup, in their
/// order: whatever the number, and whatever the registry answers.
pub proof fn lemma_run_is_resolution(registry: Registry, id: Seq<char>)
    ensures
        run(registry, ResolverView::initial(id)) == resolution(registry, id),
        requests(registry, ResolverView::initial(id)) == asked(registry, id),
{
    reveal_with_fuel(run, 9);
    reveal_with_fuel(requests, 9);
}

/// A unit counts as found with a list of sub-units exactly if it is a main
/// unit.
pub proof fn lemma_outcome_well_formed(registry: Registry, id: Seq<char>)
    ensures
        run(registry, ResolverView::initial(id)) matches Ok(outcome) ==> outcome.well_formed(),
{
    lemma_run_is_resolution(registry, id);
}

/// The query for sub-units, where a lookup makes it, is its last call: the
/// parent, where one is looked up, is looked up before.
pub proof fn lemma_children_query_is_last(registry: Registry, id: Seq<char>)
    ensures
        forall|i: int|
            0 <= i < requests(registry, ResolverView::initial(id)).len() && (
            #[trigger] requests(registry, ResolverView::initial(id))[i]) is Children ==> i
                == requests(registry, ResolverView::initial(id)).len() - 1,
{
    lemma_run_is_resolution(registry, id);
}

/// A call among the sub-units that fails fails the lookup: it is not taken
/// for a number that is not found.
pub proof fn lemma_failed_fallback_is_an_error(
    registry: Registry,
    id: Seq<char>,
    error: LookupErrorView,
)
    requires
        registry.entity(UnitKind::MainUnit, id) is NotFound,
        registry.entity(UnitKind::SubUnit, id) == EntityReplyView::Failed(error),
    ensures
        run(registry, ResolverView::initial(id)) == Err::<OutcomeView, LookupErrorView>(error),
{
    lemma_run_is_resolution(registry, id);
}

/// Where the number is found among the main units and the unit names no
/// parent, the lookup asks for the unit and then for its sub-units, and for
/// nothing else: no parent is looked up.
pub proof fn lemma_no_parent_named(registry: Registry, id: Seq<char>, entity: EntityView)
    requires
        registry.entity(UnitKind::MainUnit, id) == EntityReplyView::Found(entity),
        entity.parent_id is None,
    ensures
        requests(registry, ResolverView::initial(id)) == seq![
            RequestView::Entity { kind: UnitKind::MainUnit, id },
            RequestView::Children { parent_id: id },
        ],
{
    lemma_run_is_resolution(registry, id);
}

/// Where the call for the number among the sub-units is answered with
/// status 200, the lookup never queries for sub-units, whatever the body of
/// that answer holds and whatever comes after.
pub proof fn lemma_sub_unit_has_no_children_query(registry: Registry, id: Seq<char>)
    requires
        registry.entity(UnitKind::MainUnit, id) is NotFound,
        (registry.fetched)(RequestView::Entity { kind: UnitKind::SubUnit, id })
            == Fetched::Status(200),
    ensures
        forall|i: int|
            0 <= i < requests(registry, ResolverView::initial(id)).len() ==> !(
            #[trigger] requests(registry, ResolverView::initial(id))[i] is Children),
{
    lemma_run_is_resolution(registry, id);
}

/// A lookup that is past the main units stays past them: from a call among
/// the sub-units, or for the parent of a sub-unit, no event leads to a
/// query for sub-units.
pub proof fn lemma_sub_unit_path_is_closed(state: ResolverView, event: EventView)
    requires
        state is Fallback || (state matches ResolverView::Parent { kind, .. } && kind
            == UnitKind::SubUnit),
    ensures
        !(state.pending() matches ActionView::Fetch(request) && request is Children),
        state.step(event) matches StepView::Continue(next) ==> next is Fallback || (
        next matches ResolverView::Parent { kind, .. } && kind == UnitKind::SubUnit),
{
}

/// Where the unit that was found names a parent and the registry answers
/// the call for that parent with status 404, the lookup fails with
/// [`LookupErrorView::NotFound`]: it does not end in the outcome that the
/// number is not found, nor in any other outcome.
pub proof fn lemma_missing_parent_is_an_error(
    registry: Registry,
    id: Seq<char>,
    entity: EntityView,
    parent_id: Seq<char>,
)
    requires
        registry.entity(UnitKind::MainUnit, id) == EntityReplyView::Found(entity) || (
        registry.entity(UnitKind::MainUnit, id) is NotFound && registry.entity(
            UnitKind::SubUnit,
            id,
        ) == EntityReplyView::Found(entity)),
        entity.parent_id == Some(parent_id),
        (registry.fetched)(RequestView::Entity { kind: UnitKind::MainUnit, id: parent_id })
            == Fetched::Status(404),
    ensures
        run(registry, ResolverView::initial(id)) == Err::<OutcomeView, LookupErrorView>(
            LookupErrorView::NotFound,
        ),
{
    lemma_run_is_resolution(registry, id);
}

/// Where the unit that was found names a parent and the registry answers
/// the call for that parent with status 410, the lookup fails with
/// [`LookupErrorView::Gone`], whatever the body of that answer holds, and
/// also where it holds nothing that can be read. The body is not asked for.
pub proof fn lemma_removed_parent_is_an_error(
    registry: Registry,
    id: Seq<char>,
    entity: EntityView,
    parent_id: Seq<char>,
)
    requires
        registry.entity(UnitKind::MainUnit, id) == EntityReplyView::Found(entity) || (
        registry.entity(UnitKind::MainUnit, id) is NotFound && registry.entity(
            UnitKind::SubUnit,
            id,
        ) == EntityReplyView::Found(entity)),
        entity.parent_id == Some(parent_id),
        (registry.fetched)(RequestView::Entity { kind: UnitKind::MainUnit, id: parent_id })
            == Fetched::Status(410),
    ensures
        run(registry, ResolverView::initial(id)) == Err::<OutcomeView, LookupErrorView>(
            LookupErrorView::Gone,
        ),
{
    lemma_run_is_resolution(registry, id);
}

/// While the response to the call for a parent is awaited, the status 404
/// and the status 410 each end the lookup in one step, with the error that
/// belongs to the status: no reading of a body comes between.
pub proof fn lemma_parent_status_ends_the_lookup(state: ResolverView)
    requires
        state matches ResolverView::Parent { asking, .. } && asking is Response,
    ensures
        state.step(EventView::Response(404)) == StepView::Done(Err(LookupErrorView::NotFound)),
        state.step(EventView::Response(410)) == StepView::Done(Err(LookupErrorView::Gone)),
{
}

/// In a call for a unit that the registry referred to, a status other than
/// 200 decides by itself what kind of reply the call comes to. The body has
/// a say only on 500, and there only in which fault the error carries.
pub proof fn lemma_reference_status_decides(registry: Registry, id: Seq<char>, status: u16)
    requires
        (registry.fetched)(RequestView::Entity { kind: UnitKind::MainUnit, id })
            == Fetched::Status(status),
        status != 200,
    ensures
        status == 404 <==> registry.reference(id) is NotFound,
        status == 410 <==> registry.reference(id) is Gone,
        status == 500 <==> (registry.reference(id) matches ReferenceReplyView::Failed(error)
            && error is InternalServerError),
        status != 404 && status != 410 && status != 500 <==> registry.reference(id)
            == ReferenceReplyView::Failed(LookupErrorView::UnexpectedResponse(status)),
        !(registry.reference(id) is Found),
        !(registry.reference(id) matches ReferenceReplyView::Failed(error) && (
        error is JsonParseError || error is NetworkError)),
{
}

/// Where the query for the sub-units of a main unit is answered with status
/// 200 and the answer embeds no list, or an empty one, the unit is found
/// with an empty list of sub-units: that is no error.
pub proof fn lemma_no_children_is_no_error(
    registry: Registry,
    id: Seq<char>,
    entity: EntityView,
    parent: Option<EntityView>,
)
    requires
        registry.entity(UnitKind::MainUnit, id) == EntityReplyView::Found(entity),
        registry.parent(entity) == Ok::<Option<EntityView>, LookupErrorView>(parent),
        (registry.fetched)(RequestView::Children { parent_id: id }) == Fetched::Status(200),
        (registry.as_children)(RequestView::Children { parent_id: id }) matches Ok(children)
            && listed(children).len() == 0,
    ensures
        run(registry, ResolverView::initial(id)) == Ok::<OutcomeView, LookupErrorView>(
            OutcomeView::Found(
                ResolvedView {
                    kind: UnitKind::MainUnit,
                    entity,
                    parent,
                    children: Some(Seq::empty()),
                },
            ),
        ),
{
    lemma_run_is_resolution(registry, id);
    let children = (registry.as_children)(RequestView::Children { parent_id: id })->Ok_0;
    assert(listed(children) =~= Seq::empty());
}

/// Wherever in a lookup a call is answered with status 500 and the body
/// cannot be read as a fault, the lookup fails with an internal server
/// error that carries no fault: not with a parse error, and not otherwise.
pub proof fn lemma_unreadable_fault(registry: Registry, state: ResolverView)
    requires
        state.pending() is Fetch,
        (registry.fetched)(state.request()) == Fetched::Status(500),
        (registry.as_fault)(state.request()) is Err,
    ensures
        run(registry, state) == Err::<OutcomeView, LookupErrorView>(
            LookupErrorView::InternalServerError(None),
        ),
{
    reveal_with_fuel(run, 3);
}

/// A lookup depends on the registry only through the calls that it makes:
/// two registries that answer those calls alike give the same result, by
/// the same calls. So the lookup of one number, made twice while the
/// registry stays as it is, comes to the same both times.
pub proof fn lemma_same_answers_same_result(first: Registry, second: Registry, id: Seq<char>)
    requires
        forall|i: int|
            0 <= i < asked(first, id).len() ==> first.agrees_on(
                second,
                #[trigger] asked(first, id)[i],
            ),
    ensures
        run(first, ResolverView::initial(id)) == run(second, ResolverView::initial(id)),
        requests(first, ResolverView::initial(id)) == requests(
            second,
            ResolverView::initial(id),
        ),
{
    lemma_run_is_resolution(first, id);
    lemma_run_is_resolution(second, id);
    let calls = asked(first, id);
    assert(first.agrees_on(second, calls[0]));
    if calls.len() > 1 {
        assert(first.agrees_on(second, calls[1]));
    }
    if calls.len() > 2 {
        assert(first.agrees_on(second, calls[2]));
    }
}

} // verus!
