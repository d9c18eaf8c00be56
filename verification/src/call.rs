//! One call to the registry, from its response to what it comes to.
//!
//! A call is followed through two kinds of event: first the response, with
//! its status, then, where the status announces a body that matters, the
//! reading of that body. Which bodies matter depends on what the call is
//! for. A call for the number that was asked for reads the record of a unit
//! that was struck off, since that record is part of the outcome. A call for
//! a unit that the registry referred to has no use for that record: there
//! every status but 200 decides by itself what kind of reply it is. What the
//! finished call means for the lookup is decided by the resolver.

use vstd::prelude::*;
use crate::model::{Entity, EntityView, LookupError, LookupErrorView, RemovedEntity,
    RemovedEntityView};
use crate::wire::{ActionView, Event, EventView, Payload, PayloadView, RequestView, Shape};

verus! {

/// Status of a response that carries what was asked for.
pub const STATUS_OK: u16 = 200;

/// Status of a response that says the resource does not exist.
pub const STATUS_NOT_FOUND: u16 = 404;

/// Status of a response that says the resource existed and was removed.
pub const STATUS_GONE: u16 = 410;

/// Status of a response that reports a failure on the registry's side.
pub const STATUS_INTERNAL_SERVER_ERROR: u16 = 500;

/// How far a call for the number that was asked for has come.
#[derive(Clone, Copy, Debug, PartialEq, Eq)]
pub enum EntityStage {
    /// The response is awaited.
    Response,
    /// The status was 200: the reading of the body as a unit is awaited.
    Entity,
    /// The status was 410: the reading of the body as a removed unit is awaited.
    Removed,
    /// The status was 500: the reading of the body as a fault is awaited.
    Fault,
}

/// How far a call for a unit that the registry referred to has come.
#[derive(Clone, Copy, Debug, PartialEq, Eq)]
pub enum ReferenceStage {
    /// The response is awaited.
    Response,
    /// The status was 200: the reading of the body as a unit is awaited.
    Entity,
    /// The status was 500: the reading of the body as a fault is awaited.
    Fault,
}

/// How far a query for sub-units has come.
#[derive(Clone, Copy, Debug, PartialEq, Eq)]
pub enum ListStage {
    /// The response is awaited.
    Response,
    /// The status was 200: the reading of the body as a list is awaited.
    List,
    /// The status was 500: the reading of the body as a fault is awaited.
    Fault,
}

/// What a call for the number that was asked for has come to.
#[derive(Clone, Debug, PartialEq, Eq)]
pub enum EntityReply {
    /// Status 200, and the body is this unit.
    Found(Entity),
    /// Status 404.
    NotFound,
    /// Status 410, and the body is this record.
    Gone(RemovedEntity),
    /// Anything else.
    Failed(LookupError),
}

/// View of an [`EntityReply`].
pub enum EntityReplyView {
    Found(EntityView),
    NotFound,
    Gone(RemovedEntityView),
    Failed(LookupErrorView),
}

impl DeepView for EntityReply {
    type V = EntityReplyView;

    open spec fn deep_view(&self) -> EntityReplyView {
        match self {
            EntityReply::Found(entity) => EntityReplyView::Found(entity.deep_view()),
            EntityReply::NotFound => EntityReplyView::NotFound,
            EntityReply::Gone(removed) => EntityReplyView::Gone(removed.deep_view()),
            EntityReply::Failed(error) => EntityReplyView::Failed(error.deep_view()),
        }
    }
}

/// What a call for a unit that the registry referred to has come to.
#[derive(Clone, Debug, PartialEq, Eq)]
pub enum ReferenceReply {
    /// Status 200, and the body is this unit.
    Found(Entity),
    /// Status 404, whatever the body.
    NotFound,
    /// Status 410, whatever the body.
    Gone,
    /// Anything else.
    Failed(LookupError),
}

/// View of a [`ReferenceReply`].
pub enum ReferenceReplyView {
    Found(EntityView),
    NotFound,
    Gone,
    Failed(LookupErrorView),
}

impl DeepView for ReferenceReply {
    type V = ReferenceReplyView;

    open spec fn deep_view(&self) -> ReferenceReplyView {
        match self {
            ReferenceReply::Found(entity) => ReferenceReplyView::Found(entity.deep_view()),
            ReferenceReply::NotFound => ReferenceReplyView::NotFound,
            ReferenceReply::Gone => ReferenceReplyView::Gone,
            ReferenceReply::Failed(error) => ReferenceReplyView::Failed(error.deep_view()),
        }
    }
}

/// What a query for sub-units has come to: the list, or why there is none.
pub type ListReplyView = Result<Seq<EntityView>, LookupErrorView>;

/// View of what a query for sub-units has come to.
pub open spec fn list_reply_view(reply: Result<Vec<Entity>, LookupError>) -> ListReplyView {
    match reply {
        Ok(list) => Ok(list.deep_view()),
        Err(error) => Err(error.deep_view()),
    }
}

/// A call after an event: still under way, at a stage `S`, or finished with
/// a reply `R`.
#[derive(Clone, Debug, PartialEq, Eq)]
pub enum Progress<S, R> {
    Pending(S),
    Complete(R),
}

/// What a call for the number that was asked for asks for at a stage.
pub open spec fn entity_action(stage: EntityStage, request: RequestView) -> ActionView {
    match stage {
        EntityStage::Response => ActionView::Fetch(request),
        EntityStage::Entity => ActionView::Decode(Shape::Entity),
        EntityStage::Removed => ActionView::Decode(Shape::Removed),
        EntityStage::Fault => ActionView::Decode(Shape::Fault),
    }
}

/// What a call for a unit that the registry referred to asks for at a stage.
pub open spec fn reference_action(stage: ReferenceStage, request: RequestView) -> ActionView {
    match stage {
        ReferenceStage::Response => ActionView::Fetch(request),
        ReferenceStage::Entity => ActionView::Decode(Shape::Entity),
        ReferenceStage::Fault => ActionView::Decode(Shape::Fault),
    }
}

/// What a query for sub-units asks for at a stage.
pub open spec fn list_action(stage: ListStage, request: RequestView) -> ActionView {
    match stage {
        ListStage::Response => ActionView::Fetch(request),
        ListStage::List => ActionView::Decode(Shape::Children),
        ListStage::Fault => ActionView::Decode(Shape::Fault),
    }
}

/// The error that a failed fetch stands for, if the event reports one.
pub open spec fn fetch_failure(event: EventView) -> Option<LookupErrorView> {
    match event {
        EventView::TransportFailed(detail) => Some(LookupErrorView::NetworkError(detail)),
        EventView::BodyUnreadable(detail) => Some(LookupErrorView::JsonParseError(detail)),
        _ => None,
    }
}

/// The error that a response with status 500 comes to, once the reading of
/// its body is reported. A body that cannot be read as a fault still makes
/// an internal server error, one without a fault.
pub open spec fn fault_failure(event: EventView) -> Option<LookupErrorView> {
    match event {
        EventView::Decoded(PayloadView::Fault(fault)) => Some(
            LookupErrorView::InternalServerError(Some(fault)),
        ),
        EventView::Undecodable(_) => Some(LookupErrorView::InternalServerError(None)),
        _ => None,
    }
}

/// A call for the number that was asked for, one event on.
///
/// An event that is no report on what the stage asks for changes nothing.
pub open spec fn entity_progress(stage: EntityStage, event: EventView) -> Progress<
    EntityStage,
    EntityReplyView,
> {
    match stage {
        EntityStage::Response => match event {
            EventView::Response(status) => if status == STATUS_OK {
                Progress::Pending(EntityStage::Entity)
            } else if status == STATUS_NOT_FOUND {
                Progress::Complete(EntityReplyView::NotFound)
            } else if status == STATUS_GONE {
                Progress::Pending(EntityStage::Removed)
            } else if status == STATUS_INTERNAL_SERVER_ERROR {
                Progress::Pending(EntityStage::Fault)
            } else {
                Progress::Complete(
                    EntityReplyView::Failed(LookupErrorView::UnexpectedResponse(status)),
                )
            },
            _ => match fetch_failure(event) {
                Some(error) => Progress::Complete(EntityReplyView::Failed(error)),
                None => Progress::Pending(stage),
            },
        },
        EntityStage::Entity => match event {
            EventView::Decoded(PayloadView::Entity(entity)) => Progress::Complete(
                EntityReplyView::Found(entity),
            ),
            EventView::Undecodable(detail) => Progress::Complete(
                EntityReplyView::Failed(LookupErrorView::JsonParseError(detail)),
            ),
            _ => Progress::Pending(stage),
        },
        EntityStage::Removed => match event {
            EventView::Decoded(PayloadView::Removed(removed)) => Progress::Complete(
                EntityReplyView::Gone(removed),
            ),
            EventView::Undecodable(detail) => Progress::Complete(
                EntityReplyView::Failed(LookupErrorView::JsonParseError(detail)),
            ),
            _ => Progress::Pending(stage),
        },
        EntityStage::Fault => match fault_failure(event) {
            Some(error) => Progress::Complete(EntityReplyView::Failed(error)),
            None => Progress::Pending(stage),
        },
    }
}

/// A call for a unit that the registry referred to, one event on.
///
/// The status 410 ends the call at once: the body of such a response is
/// not read, so nothing that it holds, and no fault in it, changes the
/// reply. An event that is no report on what the stage asks for changes
/// nothing.
pub open spec fn reference_progress(stage: ReferenceStage, event: EventView) -> Progress<
    ReferenceStage,
    ReferenceReplyView,
> {
    match stage {
        ReferenceStage::Response => match event {
            EventView::Response(status) => if status == STATUS_OK {
                Progress::Pending(ReferenceStage::Entity)
            } else if status == STATUS_NOT_FOUND {
                Progress::Complete(ReferenceReplyView::NotFound)
            } else if status == STATUS_GONE {
                Progress::Complete(ReferenceReplyView::Gone)
            } else if status == STATUS_INTERNAL_SERVER_ERROR {
                Progress::Pending(ReferenceStage::Fault)
            } else {
                Progress::Complete(
                    ReferenceReplyView::Failed(LookupErrorView::UnexpectedResponse(status)),
                )
            },
            _ => match fetch_failure(event) {
                Some(error) => Progress::Complete(ReferenceReplyView::Failed(error)),
                None => Progress::Pending(stage),
            },
        },
        ReferenceStage::Entity => match event {
            EventView::Decoded(PayloadView::Entity(entity)) => Progress::Complete(
                ReferenceReplyView::Found(entity),
            ),
            EventView::Undecodable(detail) => Progress::Complete(
                ReferenceReplyView::Failed(LookupErrorView::JsonParseError(detail)),
            ),
            _ => Progress::Pending(stage),
        },
        ReferenceStage::Fault => match fault_failure(event) {
            Some(error) => Progress::Complete(ReferenceReplyView::Failed(error)),
            None => Progress::Pending(stage),
        },
    }
}

/// The list that an answer to a query for sub-units stands for: the
/// embedded list, and the empty list where the answer embeds none.
pub open spec fn listed(children: Option<Seq<EntityView>>) -> Seq<EntityView> {
    match children {
        Some(list) => list,
        None => Seq::empty(),
    }
}

/// A query for sub-units, one event on.
///
/// Only 200 and 500 have a meaning of their own here: 404 and 410 are as
/// unexpected as any other status. An event that is no report on what the
/// stage asks for changes nothing.
pub open spec fn list_progress(stage: ListStage, event: EventView) -> Progress<
    ListStage,
    ListReplyView,
> {
    match stage {
        ListStage::Response => match event {
            EventView::Response(status) => if status == STATUS_OK {
                Progress::Pending(ListStage::List)
            } else if status == STATUS_INTERNAL_SERVER_ERROR {
                Progress::Pending(ListStage::Fault)
            } else {
                Progress::Complete(Err(LookupErrorView::UnexpectedResponse(status)))
            },
            _ => match fetch_failure(event) {
                Some(error) => Progress::Complete(Err(error)),
                None => Progress::Pending(stage),
            },
        },
        ListStage::List => match event {
            EventView::Decoded(PayloadView::Children(children)) => Progress::Complete(
                Ok(listed(children)),
            ),
            EventView::Undecodable(detail) => Progress::Complete(
                Err(LookupErrorView::JsonParseError(detail)),
            ),
            _ => Progress::Pending(stage),
        },
        ListStage::Fault => match fault_failure(event) {
            Some(error) => Progress::Complete(Err(error)),
            None => Progress::Pending(stage),
        },
    }
}

/// View of the progress of a call for the number that was asked for.
pub open spec fn entity_progress_view(progress: Progress<EntityStage, EntityReply>) -> Progress<
    EntityStage,
    EntityReplyView,
> {
    match progress {
        Progress::Pending(stage) => Progress::Pending(stage),
        Progress::Complete(reply) => Progress::Complete(reply.deep_view()),
    }
}

/// View of the progress of a call for a unit that the registry referred to.
pub open spec fn reference_progress_view(
    progress: Progress<ReferenceStage, ReferenceReply>,
) -> Progress<ReferenceStage, ReferenceReplyView> {
    match progress {
        Progress::Pending(stage) => Progress::Pending(stage),
        Progress::Complete(reply) => Progress::Complete(reply.deep_view()),
    }
}

/// View of the progress of a query for sub-units.
pub open spec fn list_progress_view(
    progress: Progress<ListStage, Result<Vec<Entity>, LookupError>>,
) -> Progress<ListStage, ListReplyView> {
    match progress {
        Progress::Pending(stage) => Progress::Pending(stage),
        Progress::Complete(reply) => Progress::Complete(list_reply_view(reply)),
    }
}

/// The error of a failed fetch, or the event back where it reports none.
fn take_fetch_failure(event: Event) -> (taken: Result<LookupError, Event>)
    ensures
        match taken {
            Ok(error) => fetch_failure(event.deep_view()) == Some(error.deep_view()),
            Err(same) => fetch_failure(event.deep_view()) is None && same == event,
        },
{
    match event {
        Event::TransportFailed(detail) => Ok(LookupError::NetworkError(detail)),
        Event::BodyUnreadable(detail) => Ok(LookupError::JsonParseError(detail)),
        other => Err(other),
    }
}

/// The error that the reading of a 500 body comes to, if the event reports
/// that reading.
fn take_fault_failure(event: Event) -> (taken: Option<LookupError>)
    ensures
        taken.deep_view() == fault_failure(event.deep_view()),
{
    match event {
        Event::Decoded(Payload::Fault(fault)) => Some(
            LookupError::InternalServerError(Some(fault)),
        ),
        Event::Undecodable(_) => Some(LookupError::InternalServerError(None)),
        _ => None,
    }
}

/// Takes a call for the number that was asked for one event on.
pub fn advance_entity_call(stage: EntityStage, event: Event) -> (progress: Progress<
    EntityStage,
    EntityReply,
>)
    ensures
        entity_progress_view(progress) == entity_progress(stage, event.deep_view()),
{
    match stage {
        EntityStage::Response => match event {
            Event::Response(status) => {
                if status == STATUS_OK {
                    Progress::Pending(EntityStage::Entity)
                } else if status == STATUS_NOT_FOUND {
                    Progress::Complete(EntityReply::NotFound)
                } else if status == STATUS_GONE {
                    Progress::Pending(EntityStage::Removed)
                } else if status == STATUS_INTERNAL_SERVER_ERROR {
                    Progress::Pending(EntityStage::Fault)
                } else {
                    Progress::Complete(
                        EntityReply::Failed(LookupError::UnexpectedResponse(status)),
                    )
                }
            },
            other => match take_fetch_failure(other) {
                Ok(error) => Progress::Complete(EntityReply::Failed(error)),
                Err(_) => Progress::Pending(stage),
            },
        },
        EntityStage::Entity => match event {
            Event::Decoded(Payload::Entity(entity)) => Progress::Complete(
                EntityReply::Found(entity),
            ),
            Event::Undecodable(detail) => Progress::Complete(
                EntityReply::Failed(LookupError::JsonParseError(detail)),
            ),
            _ => Progress::Pending(stage),
        },
        EntityStage::Removed => match event {
            Event::Decoded(Payload::Removed(removed)) => Progress::Complete(
                EntityReply::Gone(removed),
            ),
            Event::Undecodable(detail) => Progress::Complete(
                EntityReply::Failed(LookupError::JsonParseError(detail)),
            ),
            _ => Progress::Pending(stage),
        },
        EntityStage::Fault => match take_fault_failure(event) {
            Some(error) => Progress::Complete(EntityReply::Failed(error)),
            None => Progress::Pending(stage),
        },
    }
}

/// Takes a call for a unit that the registry referred to one event on.
pub fn advance_reference_call(stage: ReferenceStage, event: Event) -> (progress: Progress<
    ReferenceStage,
    ReferenceReply,
>)
    ensures
        reference_progress_view(progress) == reference_progress(stage, event.deep_view()),
{
    match stage {
        ReferenceStage::Response => match event {
            Event::Response(status) => {
                if status == STATUS_OK {
                    Progress::Pending(ReferenceStage::Entity)
                } else if status == STATUS_NOT_FOUND {
                    Progress::Complete(ReferenceReply::NotFound)
                } else if status == STATUS_GONE {
                    Progress::Complete(ReferenceReply::Gone)
                } else if status == STATUS_INTERNAL_SERVER_ERROR {
                    Progress::Pending(ReferenceStage::Fault)
                } else {
                    Progress::Complete(
                        ReferenceReply::Failed(LookupError::UnexpectedResponse(status)),
                    )
                }
            },
            other => match take_fetch_failure(other) {
                Ok(error) => Progress::Complete(ReferenceReply::Failed(error)),
                Err(_) => Progress::Pending(stage),
            },
        },
        ReferenceStage::Entity => match event {
            Event::Decoded(Payload::Entity(entity)) => Progress::Complete(
                ReferenceReply::Found(entity),
            ),
            Event::Undecodable(detail) => Progress::Complete(
                ReferenceReply::Failed(LookupError::JsonParseError(detail)),
            ),
            _ => Progress::Pending(stage),
        },
        ReferenceStage::Fault => match take_fault_failure(event) {
            Some(error) => Progress::Complete(ReferenceReply::Failed(error)),
            None => Progress::Pending(stage),
        },
    }
}

/// Takes a query for sub-units one event on.
pub fn advance_list_call(stage: ListStage, event: Event) -> (progress: Progress<
    ListStage,
    Result<Vec<Entity>, LookupError>,
>)
    ensures
        list_progress_view(progress) == list_progress(stage, event.deep_view()),
{
    match stage {
        ListStage::Response => match event {
            Event::Response(status) => {
                if status == STATUS_OK {
                    Progress::Pending(ListStage::List)
                } else if status == STATUS_INTERNAL_SERVER_ERROR {
                    Progress::Pending(ListStage::Fault)
                } else {
                    Progress::Complete(Err(LookupError::UnexpectedResponse(status)))
                }
            },
            other => match take_fetch_failure(other) {
                Ok(error) => Progress::Complete(Err(error)),
                Err(_) => Progress::Pending(stage),
            },
        },
        ListStage::List => match event {
            Event::Decoded(Payload::Children(children)) => {
                let list = match children {
                    Some(list) => list,
                    None => {
                        let empty: Vec<Entity> = Vec::new();
                        assert(empty.deep_view() =~= Seq::empty());
                        empty
                    },
                };
                Progress::Complete(Ok(list))
            },
            Event::Undecodable(detail) => Progress::Complete(
                Err(LookupError::JsonParseError(detail)),
            ),
            _ => Progress::Pending(stage),
        },
        ListStage::Fault => match take_fault_failure(event) {
            Some(error) => Progress::Complete(Err(error)),
            None => Progress::Pending(stage),
        },
    }
}

} // verus!
