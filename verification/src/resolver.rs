//! The order of the calls of a lookup, and what each of them decides.
//!
//! A lookup first asks for the number among the main units. If the registry
//! does not know it there, it asks among the sub-units. A unit that is found
//! and names a parent has that parent looked up; a main unit then has its
//! sub-units queried. A status of 404 or 410 is an outcome where it concerns
//! the number that was asked for, and a failure where it concerns a unit
//! that the registry itself referred to: there the status alone decides,
//! and the body is not read.
//!
//! The resolver performs none of the calls. It is a state: [`Resolver::pending`]
//! says what it waits for, and [`Resolver::step`] takes the report on that to
//! the next state, or to the end of the lookup.

use vstd::prelude::*;
use crate::call::{advance_entity_call, advance_list_call, advance_reference_call, entity_action,
    entity_progress, list_action, list_progress, reference_action, reference_progress,
    EntityReply, EntityReplyView, EntityStage, ListStage, Progress, ReferenceReply,
    ReferenceReplyView, ReferenceStage};
use crate::model::{Entity, EntityView, LookupError, LookupErrorView, Outcome, OutcomeView,
    Resolved, ResolvedView, UnitKind, result_view};
use crate::wire::{Action, ActionView, Event, EventView, Request, RequestView, Shape};

verus! {

/// A lookup under way: the call that is being made, and what the calls
/// before it have brought.
#[derive(Clone, Debug, PartialEq, Eq)]
pub enum Resolver {
    /// The number `id` is being asked for among the main units.
    Primary { id: String, stage: EntityStage },
    /// The number `id` is being asked for among the sub-units, after the main
    /// units did not know it.
    Fallback { id: String, stage: EntityStage },
    /// `entity` was found for `id` as a unit of `kind`, and the unit
    /// `parent_id` that it names as its parent is being asked for; `asking`
    /// says how far that call has come.
    Parent {
        id: String,
        kind: UnitKind,
        entity: Entity,
        parent_id: String,
        asking: ReferenceStage,
    },
    /// `entity` was found for `id` as a main unit, its parent is settled, and
    /// the sub-units of `id` are being queried; `listing` says how far that
    /// query has come.
    Children { id: String, entity: Entity, parent: Option<Entity>, listing: ListStage },
}

/// View of a [`Resolver`].
pub enum ResolverView {
    Primary { id: Seq<char>, stage: EntityStage },
    Fallback { id: Seq<char>, stage: EntityStage },
    Parent {
        id: Seq<char>,
        kind: UnitKind,
        entity: EntityView,
        parent_id: Seq<char>,
        asking: ReferenceStage,
    },
    Children { id: Seq<char>, entity: EntityView, parent: Option<EntityView>, listing: ListStage },
}

impl DeepView for Resolver {
    type V = ResolverView;

    open spec fn deep_view(&self) -> ResolverView {
        match self {
            Resolver::Primary { id, stage } => ResolverView::Primary { id: id@, stage: *stage },
            Resolver::Fallback { id, stage } => ResolverView::Fallback { id: id@, stage: *stage },
            Resolver::Parent { id, kind, entity, parent_id, asking } => ResolverView::Parent {
                id: id@,
                kind: *kind,
                entity: entity.deep_view(),
                parent_id: parent_id@,
                asking: *asking,
            },
            Resolver::Children { id, entity, parent, listing } => ResolverView::Children {
                id: id@,
                entity: entity.deep_view(),
                parent: parent.deep_view(),
                listing: *listing,
            },
        }
    }
}

/// A lookup after an event: under way, or at its end.
#[derive(Debug, PartialEq, Eq)]
pub enum Step {
    Continue(Resolver),
    Done(Result<Outcome, LookupError>),
}

/// View of a [`Step`].
pub enum StepView {
    Continue(ResolverView),
    Done(Result<OutcomeView, LookupErrorView>),
}

impl DeepView for Step {
    type V = StepView;

    open spec fn deep_view(&self) -> StepView {
        match self {
            Step::Continue(resolver) => StepView::Continue(resolver.deep_view()),
            Step::Done(result) => StepView::Done(result_view(*result)),
        }
    }
}

/// The lookup of `id` goes on with the unit that was found for it: with the
/// call for its parent, if it names one, and else as if the parent were
/// settled.
pub open spec fn with_entity(id: Seq<char>, kind: UnitKind, entity: EntityView) -> StepView {
    match entity.parent_id {
        Some(parent_id) => StepView::Continue(
            ResolverView::Parent { id, kind, entity, parent_id, asking: ReferenceStage::Response },
        ),
        None => with_parent(id, kind, entity, None),
    }
}

/// The lookup of `id` goes on with the parent settled: a main unit has its
/// sub-units queried, a sub-unit is complete without.
pub open spec fn with_parent(
    id: Seq<char>,
    kind: UnitKind,
    entity: EntityView,
    parent: Option<EntityView>,
) -> StepView {
    match kind {
        UnitKind::MainUnit => StepView::Continue(
            ResolverView::Children { id, entity, parent, listing: ListStage::Response },
        ),
        UnitKind::SubUnit => StepView::Done(
            Ok(OutcomeView::Found(ResolvedView { kind, entity, parent, children: None })),
        ),
    }
}

/// What a finished call for the number itself among the units of `kind`
/// means for the lookup.
pub open spec fn subject_step(id: Seq<char>, kind: UnitKind, reply: EntityReplyView) -> StepView {
    match reply {
        EntityReplyView::Found(entity) => with_entity(id, kind, entity),
        EntityReplyView::NotFound => match kind {
            UnitKind::MainUnit => StepView::Continue(
                ResolverView::Fallback { id, stage: EntityStage::Response },
            ),
            UnitKind::SubUnit => StepView::Done(Ok(OutcomeView::NotFound)),
        },
        EntityReplyView::Gone(removed) => StepView::Done(Ok(OutcomeView::Removed(kind, removed))),
        EntityReplyView::Failed(error) => StepView::Done(Err(error)),
    }
}

/// What a finished call for the parent of `entity` means for the lookup.
/// The registry itself named the parent, so that it is unknown or struck
/// off is a failure, and no outcome.
pub open spec fn parent_step(
    id: Seq<char>,
    kind: UnitKind,
    entity: EntityView,
    reply: ReferenceReplyView,
) -> StepView {
    match reply {
        ReferenceReplyView::Found(parent) => with_parent(id, kind, entity, Some(parent)),
        ReferenceReplyView::NotFound => StepView::Done(Err(LookupErrorView::NotFound)),
        ReferenceReplyView::Gone => StepView::Done(Err(LookupErrorView::Gone)),
        ReferenceReplyView::Failed(error) => StepView::Done(Err(error)),
    }
}

/// What a finished query for the sub-units means for the lookup.
pub open spec fn children_step(
    entity: EntityView,
    parent: Option<EntityView>,
    reply: Result<Seq<EntityView>, LookupErrorView>,
) -> StepView {
    match reply {
        Ok(children) => StepView::Done(
            Ok(
                OutcomeView::Found(
                    ResolvedView {
                        kind: UnitKind::MainUnit,
                        entity,
                        parent,
                        children: Some(children),
                    },
                ),
            ),
        ),
        Err(error) => StepView::Done(Err(error)),
    }
}

impl ResolverView {
    /// The state in which the lookup of `id` begins.
    pub open spec fn initial(id: Seq<char>) -> ResolverView {
        ResolverView::Primary { id, stage: EntityStage::Response }
    }

    /// The call that is being made.
    pub open spec fn request(self) -> RequestView {
        match self {
            ResolverView::Primary { id, .. } => RequestView::Entity {
                kind: UnitKind::MainUnit,
                id,
            },
            ResolverView::Fallback { id, .. } => RequestView::Entity {
                kind: UnitKind::SubUnit,
                id,
            },
            ResolverView::Parent { parent_id, .. } => RequestView::Entity {
                kind: UnitKind::MainUnit,
                id: parent_id,
            },
            ResolverView::Children { id, .. } => RequestView::Children { parent_id: id },
        }
    }

    /// What the lookup waits for.
    pub open spec fn pending(self) -> ActionView {
        match self {
            ResolverView::Primary { stage, .. } => entity_action(stage, self.request()),
            ResolverView::Fallback { stage, .. } => entity_action(stage, self.request()),
            ResolverView::Parent { asking, .. } => reference_action(asking, self.request()),
            ResolverView::Children { listing, .. } => list_action(listing, self.request()),
        }
    }

    /// The lookup, one event on.
    pub open spec fn step(self, event: EventView) -> StepView {
        match self {
            ResolverView::Primary { id, stage } => match entity_progress(stage, event) {
                Progress::Pending(stage) => StepView::Continue(
                    ResolverView::Primary { id, stage },
                ),
                Progress::Complete(reply) => subject_step(id, UnitKind::MainUnit, reply),
            },
            ResolverView::Fallback { id, stage } => match entity_progress(stage, event) {
                Progress::Pending(stage) => StepView::Continue(
                    ResolverView::Fallback { id, stage },
                ),
                Progress::Complete(reply) => subject_step(id, UnitKind::SubUnit, reply),
            },
            ResolverView::Parent {
                id,
                kind,
                entity,
                parent_id,
                asking,
            } => match reference_progress(asking, event) {
                Progress::Pending(asking) => StepView::Continue(
                    ResolverView::Parent { id, kind, entity, parent_id, asking },
                ),
                Progress::Complete(reply) => parent_step(id, kind, entity, reply),
            },
            ResolverView::Children { id, entity, parent, listing } => match list_progress(
                listing,
                event,
            ) {
                Progress::Pending(listing) => StepView::Continue(
                    ResolverView::Children { id, entity, parent, listing },
                ),
                Progress::Complete(reply) => children_step(entity, parent, reply),
            },
        }
    }
}

/// Goes on with the unit that was found for `id`.
fn continue_with_entity(id: String, kind: UnitKind, entity: Entity) -> (next: Step)
    ensures
        next.deep_view() == with_entity(id@, kind, entity.deep_view()),
{
    let named = match &entity.parent_id {
        Some(parent_id) => Some(parent_id.clone()),
        None => None,
    };
    match named {
        Some(parent_id) => Step::Continue(
            Resolver::Parent { id, kind, entity, parent_id, asking: ReferenceStage::Response },
        ),
        None => continue_with_parent(id, kind, entity, None),
    }
}

/// Goes on with the parent settled.
fn continue_with_parent(id: String, kind: UnitKind, entity: Entity, parent: Option<Entity>) -> (next:
    Step)
    ensures
        next.deep_view() == with_parent(id@, kind, entity.deep_view(), parent.deep_view()),
{
    match kind {
        UnitKind::MainUnit => Step::Continue(
            Resolver::Children { id, entity, parent, listing: ListStage::Response },
        ),
        UnitKind::SubUnit => Step::Done(
            Ok(Outcome::Found(Resolved { kind, entity, parent, children: None })),
        ),
    }
}

/// Settles a finished call for the number itself.
fn settle_subject(id: String, kind: UnitKind, reply: EntityReply) -> (next: Step)
    ensures
        next.deep_view() == subject_step(id@, kind, reply.deep_view()),
{
    match reply {
        EntityReply::Found(entity) => continue_with_entity(id, kind, entity),
        EntityReply::NotFound => match kind {
            UnitKind::MainUnit => Step::Continue(
                Resolver::Fallback { id, stage: EntityStage::Response },
            ),
            UnitKind::SubUnit => Step::Done(Ok(Outcome::NotFound)),
        },
        EntityReply::Gone(removed) => Step::Done(Ok(Outcome::Removed(kind, removed))),
        EntityReply::Failed(error) => Step::Done(Err(error)),
    }
}

/// Settles a finished call for the parent of `entity`.
fn settle_parent(id: String, kind: UnitKind, entity: Entity, reply: ReferenceReply) -> (next:
    Step)
    ensures
        next.deep_view() == parent_step(id@, kind, entity.deep_view(), reply.deep_view()),
{
    match reply {
        ReferenceReply::Found(parent) => continue_with_parent(id, kind, entity, Some(parent)),
        ReferenceReply::NotFound => Step::Done(Err(LookupError::NotFound)),
        ReferenceReply::Gone => Step::Done(Err(LookupError::Gone)),
        ReferenceReply::Failed(error) => Step::Done(Err(error)),
    }
}

impl Resolver {
    /// Begins the lookup of `id`.
    pub fn start(id: String) -> (resolver: Resolver)
        ensures
            resolver.deep_view() == ResolverView::initial(id@),
    {
        Resolver::Primary { id, stage: EntityStage::Response }
    }

    /// The call that is being made.
    pub fn request(&self) -> (request: Request)
        ensures
            request.deep_view() == self.deep_view().request(),
    {
        match self {
            Resolver::Primary { id, .. } => Request::Entity {
                kind: UnitKind::MainUnit,
                id: id.clone(),
            },
            Resolver::Fallback { id, .. } => Request::Entity {
                kind: UnitKind::SubUnit,
                id: id.clone(),
            },
            Resolver::Parent { parent_id, .. } => Request::Entity {
                kind: UnitKind::MainUnit,
                id: parent_id.clone(),
            },
            Resolver::Children { id, .. } => Request::Children { parent_id: id.clone() },
        }
    }

    /// What the lookup waits for: the action to carry out and to report on.
    pub fn pending(&self) -> (action: Action)
        ensures
            action.deep_view() == self.deep_view().pending(),
    {
        let awaited = match self {
            Resolver::Primary { stage, .. } => shape_awaited(*stage),
            Resolver::Fallback { stage, .. } => shape_awaited(*stage),
            Resolver::Parent { asking, .. } => match asking {
                ReferenceStage::Response => None,
                ReferenceStage::Entity => Some(Shape::Entity),
                ReferenceStage::Fault => Some(Shape::Fault),
            },
            Resolver::Children { listing, .. } => match listing {
                ListStage::Response => None,
                ListStage::List => Some(Shape::Children),
                ListStage::Fault => Some(Shape::Fault),
            },
        };
        match awaited {
            Some(shape) => Action::Decode(shape),
            None => Action::Fetch(self.request()),
        }
    }

    /// Takes the lookup one event on.
    ///
    /// The event is the report on what [`Resolver::pending`] asks for. One
    /// that is no such report is passed over: the lookup stays where it is.
    pub fn step(self, event: Event) -> (next: Step)
        ensures
            next.deep_view() == self.deep_view().step(event.deep_view()),
    {
        match self {
            Resolver::Primary { id, stage } => match advance_entity_call(stage, event) {
                Progress::Pending(stage) => Step::Continue(Resolver::Primary { id, stage }),
                Progress::Complete(reply) => settle_subject(id, UnitKind::MainUnit, reply),
            },
            Resolver::Fallback { id, stage } => match advance_entity_call(stage, event) {
                Progress::Pending(stage) => Step::Continue(Resolver::Fallback { id, stage }),
                Progress::Complete(reply) => settle_subject(id, UnitKind::SubUnit, reply),
            },
            Resolver::Parent {
                id,
                kind,
                entity,
                parent_id,
                asking,
            } => match advance_reference_call(asking, event) {
                Progress::Pending(asking) => Step::Continue(
                    Resolver::Parent { id, kind, entity, parent_id, asking },
                ),
                Progress::Complete(reply) => settle_parent(id, kind, entity, reply),
            },
            Resolver::Children { id, entity, parent, listing } => match advance_list_call(
                listing,
                event,
            ) {
                Progress::Pending(listing) => Step::Continue(
                    Resolver::Children { id, entity, parent, listing },
                ),
                Progress::Complete(reply) => match reply {
                    Ok(children) => Step::Done(
                        Ok(
                            Outcome::Found(
                                Resolved {
                                    kind: UnitKind::MainUnit,
                                    entity,
                                    parent,
                                    children: Some(children),
                                },
                            ),
                        ),
                    ),
                    Err(error) => Step::Done(Err(error)),
                },
            },
        }
    }
}

/// The form in which a call for one unit wants the body read at a stage;
/// `None` while the response itself is awaited.
fn shape_awaited(stage: EntityStage) -> (shape: Option<Shape>)
    ensures
        forall|request: RequestView| #[trigger]
            entity_action(stage, request) == match shape {
                Some(shape) => ActionView::Decode(shape),
                None => ActionView::Fetch(request),
            },
{
    match stage {
        EntityStage::Response => None,
        EntityStage::Entity => Some(Shape::Entity),
        EntityStage::Removed => Some(Shape::Removed),
        EntityStage::Fault => Some(Shape::Fault),
    }
}

} // verus!
