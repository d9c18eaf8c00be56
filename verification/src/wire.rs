//! What passes between the resolver and whoever performs its calls.
//!
//! The resolver hands out an [`Action`]; the caller carries it out and hands
//! back an [`Event`]. A [`Request`] says which resource of the registry is
//! meant; how it is fetched is the caller's business.

use vstd::prelude::*;
use vstd::string::*;
use crate::model::{Entity, EntityView, RemoteFault, RemoteFaultView, RemovedEntity,
    RemovedEntityView, UnitKind};

verus! {

/// How many seconds the registry may take over one call, from the request to
/// the end of the body. A call that takes longer has failed.
pub const TIMEOUT_SECONDS: u64 = 2;

/// The name under which the calls are made.
pub const USER_AGENT: &'static str = "https://github.com/magnuswatn/brreg-cli";

/// One call to the registry.
#[derive(Clone, Debug, PartialEq, Eq)]
pub enum Request {
    /// The unit with number `id` in the namespace of `kind`.
    Entity { kind: UnitKind, id: String },
    /// The sub-units that name `parent_id` as their parent.
    Children { parent_id: String },
}

/// View of a [`Request`].
pub enum RequestView {
    Entity { kind: UnitKind, id: Seq<char> },
    Children { parent_id: Seq<char> },
}

impl DeepView for Request {
    type V = RequestView;

    open spec fn deep_view(&self) -> RequestView {
        match self {
            Request::Entity { kind, id } => RequestView::Entity { kind: *kind, id: id@ },
            Request::Children { parent_id } => RequestView::Children { parent_id: parent_id@ },
        }
    }
}

/// The address under which every resource of the registry lies.
pub open spec fn api_root() -> Seq<char> {
    "https://data.brreg.no/enhetsregisteret/api/"@
}

/// The registry's word for a namespace.
pub open spec fn namespace_word(kind: UnitKind) -> Seq<char> {
    match kind {
        UnitKind::MainUnit => "enhet"@,
        UnitKind::SubUnit => "underenhet"@,
    }
}

/// The address of a request, without its query.
pub open spec fn url_of(request: RequestView) -> Seq<char> {
    match request {
        RequestView::Entity { kind, id } => api_root() + namespace_word(kind) + "er/"@ + id,
        RequestView::Children { parent_id } => api_root() + "underenheter"@,
    }
}

/// The query parameter of a request, as name and value, if it has one.
pub open spec fn query_of(request: RequestView) -> Option<(Seq<char>, Seq<char>)> {
    match request {
        RequestView::Entity { kind, id } => None,
        RequestView::Children { parent_id } => Some(("overordnetEnhet"@, parent_id)),
    }
}

impl Request {
    /// The address to fetch, without the query.
    pub fn url(&self) -> (url: String)
        ensures
            url@ == url_of(self.deep_view()),
    {
        let mut url = String::from_str("https://data.brreg.no/enhetsregisteret/api/");
        match self {
            Request::Entity { kind, id } => {
                match kind {
                    UnitKind::MainUnit => url.append("enhet"),
                    UnitKind::SubUnit => url.append("underenhet"),
                }
                url.append("er/");
                url.append(id.as_str());
            },
            Request::Children { parent_id } => {
                url.append("underenheter");
            },
        }
        url
    }

    /// The query parameter to send along, as name and value. The value is
    /// handed out as it is: to encode it is the sender's part.
    pub fn query(&self) -> (query: Option<(String, String)>)
        ensures
            query.deep_view() == query_of(self.deep_view()),
    {
        match self {
            Request::Entity { kind, id } => None,
            Request::Children { parent_id } => Some(
                (String::from_str("overordnetEnhet"), parent_id.clone()),
            ),
        }
    }
}

/// The form in which a body is to be read.
#[derive(Clone, Copy, Debug, PartialEq, Eq)]
pub enum Shape {
    /// A live unit.
    Entity,
    /// A unit that has been struck off.
    Removed,
    /// The registry's account of a failure on its side.
    Fault,
    /// The answer to a query for sub-units.
    Children,
}

/// A body that was read in the form that was asked for.
#[derive(Clone, Debug, PartialEq, Eq)]
pub enum Payload {
    Entity(Entity),
    Removed(RemovedEntity),
    Fault(RemoteFault),
    /// The embedded list of sub-units; `None` where the answer embeds none.
    Children(Option<Vec<Entity>>),
}

/// View of a [`Payload`].
pub enum PayloadView {
    Entity(EntityView),
    Removed(RemovedEntityView),
    Fault(RemoteFaultView),
    Children(Option<Seq<EntityView>>),
}

impl PayloadView {
    /// The form that this payload is the reading of.
    pub open spec fn shape(self) -> Shape {
        match self {
            PayloadView::Entity(_) => Shape::Entity,
            PayloadView::Removed(_) => Shape::Removed,
            PayloadView::Fault(_) => Shape::Fault,
            PayloadView::Children(_) => Shape::Children,
        }
    }
}

impl DeepView for Payload {
    type V = PayloadView;

    open spec fn deep_view(&self) -> PayloadView {
        match self {
            Payload::Entity(entity) => PayloadView::Entity(entity.deep_view()),
            Payload::Removed(removed) => PayloadView::Removed(removed.deep_view()),
            Payload::Fault(fault) => PayloadView::Fault(fault.deep_view()),
            Payload::Children(children) => PayloadView::Children(children.deep_view()),
        }
    }
}

/// What the resolver wants done next.
#[derive(Clone, Debug, PartialEq, Eq)]
pub enum Action {
    /// Fetch this resource, once, and report [`Event::Response`] with its
    /// status; or [`Event::TransportFailed`] if no whole response came, or
    /// [`Event::BodyUnreadable`] if its body is no text.
    Fetch(Request),
    /// Read the body of the response just reported in this form and report
    /// [`Event::Decoded`], or [`Event::Undecodable`] if it has not that form.
    Decode(Shape),
}

/// View of an [`Action`].
pub enum ActionView {
    Fetch(RequestView),
    Decode(Shape),
}

impl DeepView for Action {
    type V = ActionView;

    open spec fn deep_view(&self) -> ActionView {
        match self {
            Action::Fetch(request) => ActionView::Fetch(request.deep_view()),
            Action::Decode(shape) => ActionView::Decode(*shape),
        }
    }
}

/// What came of an action.
#[derive(Clone, Debug, PartialEq, Eq)]
pub enum Event {
    /// No whole response came: the registry was not reached, was too slow,
    /// or the connection broke.
    TransportFailed(String),
    /// A response came, but its body is no text.
    BodyUnreadable(String),
    /// A response came, with this status.
    Response(u16),
    /// The body has the form that was asked for.
    Decoded(Payload),
    /// The body has not the form that was asked for.
    Undecodable(String),
}

/// View of an [`Event`].
pub enum EventView {
    TransportFailed(Seq<char>),
    BodyUnreadable(Seq<char>),
    Response(u16),
    Decoded(PayloadView),
    Undecodable(Seq<char>),
}

impl EventView {
    /// Whether this event is a possible report on `action`.
    pub open spec fn answers(self, action: ActionView) -> bool {
        match action {
            ActionView::Fetch(_) => self is TransportFailed || self is BodyUnreadable
                || self is Response,
            ActionView::Decode(shape) => match self {
                EventView::Decoded(payload) => payload.shape() == shape,
                EventView::Undecodable(_) => true,
                _ => false,
            },
        }
    }
}

/// The event for a response whose body did not come in as text. Bytes that
/// came and are no text make a body that cannot be read. A body that broke
/// off, because the time ran out or the connection was lost, is a failure
/// of the transport like any other.
pub open spec fn body_failure(not_text: bool, detail: Seq<char>) -> EventView {
    if not_text {
        EventView::BodyUnreadable(detail)
    } else {
        EventView::TransportFailed(detail)
    }
}

impl Event {
    /// The event for a response whose body did not come in as text:
    /// `not_text` says that the bytes came and are no text, `detail` what
    /// went wrong.
    pub fn body_failed(not_text: bool, detail: String) -> (event: Event)
        ensures
            event.deep_view() == body_failure(not_text, detail@),
    {
        if not_text {
            Event::BodyUnreadable(detail)
        } else {
            Event::TransportFailed(detail)
        }
    }
}

impl DeepView for Event {
    type V = EventView;

    open spec fn deep_view(&self) -> EventView {
        match self {
            Event::TransportFailed(detail) => EventView::TransportFailed(detail@),
            Event::BodyUnreadable(detail) => EventView::BodyUnreadable(detail@),
            Event::Response(status) => EventView::Response(*status),
            Event::Decoded(payload) => EventView::Decoded(payload.deep_view()),
            Event::Undecodable(detail) => EventView::Undecodable(detail@),
        }
    }
}

} // verus!
