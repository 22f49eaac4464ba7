//! Lifecycle events of agent sessions, published on the
//! `macro.agent_session_lifecycle` topic and keyed by the session's bare id.
use vstd::prelude::*;

use crate::envelope::Event;
use crate::ids::{uuid_parse, uuid_text, uuid_text_opt, uuid_to_string_opt, AgentSessionId};
use crate::model::{status_column, AgentSession, SessionStatus};
use crate::text::view_opt;

verus! {

/// The topic that lifecycle events are published to.
pub open spec fn lifecycle_topic() -> Seq<char> {
    "macro.agent_session_lifecycle"@
}

/// The schema version of lifecycle events.
pub const LIFECYCLE_SCHEMA_VERSION: u8 = 1;

/// A session's status as published: the coarse state, and the wire name of
/// the system event when the state is `event`.
#[derive(Clone, Debug, PartialEq, Eq)]
pub struct SessionStatusMetadata {
    pub status: String,
    pub event_name: Option<String>,
}

/// The event name published for a status: present exactly for `event`.
pub open spec fn status_event_name(status: SessionStatus) -> Option<Seq<char>> {
    match status {
        SessionStatus::Event(e) => Some(e@),
        _ => None,
    }
}

impl SessionStatusMetadata {
    /// The columns a session row stores for `status`.
    pub fn from(status: &SessionStatus) -> (r: SessionStatusMetadata)
        ensures
            r.status@ == status_column(*status),
            view_opt(r.event_name) == status_event_name(*status),
    {
        let event_name = match status {
            SessionStatus::Event(event) => Some(event.clone()),
            SessionStatus::NoMessages | SessionStatus::Disconnected => None,
        };
        SessionStatusMetadata { status: status.as_str().to_owned(), event_name }
    }
}

/// The published columns agree with each other: an event name is present
/// exactly when the coarse state is `event`.
pub proof fn lemma_event_name_exactly_for_event_state(status: SessionStatus, m: SessionStatusMetadata)
    requires
        m.status@ == status_column(status),
        view_opt(m.event_name) == status_event_name(status),
    ensures
        m.event_name is Some <==> m.status@ == "event"@,
{
    reveal_strlit("event");
    reveal_strlit("no_messages");
    reveal_strlit("disconnected");
    match status {
        SessionStatus::NoMessages => {
            assert("no_messages"@[0] != "event"@[0]);
        },
        SessionStatus::Disconnected => {
            assert("disconnected"@[0] != "event"@[0]);
        },
        SessionStatus::Event(_) => {},
    }
}

/// Metadata of a created session.
#[derive(Clone, Debug, PartialEq, Eq)]
pub struct AgentSessionCreatedMetadata {
    pub agent_session_id: String,
    pub owner: String,
    pub bot_id: String,
    pub name: String,
    pub thread_id: Option<String>,
}

impl AgentSessionCreatedMetadata {
    /// The metadata published for a newly persisted session.
    pub fn from(session: &AgentSession) -> (r: AgentSessionCreatedMetadata)
        ensures
            r.agent_session_id@ == uuid_text(session.id.uuid().value()),
            r.owner@ == session.owner_id@,
            r.bot_id@ == uuid_text(session.bot_id.value()),
            r.name@ == session.name@,
            view_opt(r.thread_id) == uuid_text_opt(session.thread_id),
    {
        AgentSessionCreatedMetadata {
            agent_session_id: session.id.to_string(),
            owner: session.owner_id.clone(),
            bot_id: session.bot_id.to_string(),
            name: session.name.clone(),
            thread_id: uuid_to_string_opt(&session.thread_id),
        }
    }
}

/// Metadata of a renamed session.
#[derive(Clone, Debug, PartialEq, Eq)]
pub struct AgentSessionRenamedMetadata {
    pub agent_session_id: String,
    pub name: String,
}

/// Metadata of a session whose status changed.
#[derive(Clone, Debug, PartialEq, Eq)]
pub struct AgentSessionStatusChangedMetadata {
    pub agent_session_id: String,
    pub status: SessionStatusMetadata,
}

/// Metadata of a deleted session.
#[derive(Clone, Debug, PartialEq, Eq)]
pub struct AgentSessionDeletedMetadata {
    pub agent_session_id: String,
}

/// The lifecycle events of a session.
#[derive(Clone, Debug, PartialEq, Eq)]
pub enum AgentSessionLifecycleTopicEvent {
    Created(AgentSessionCreatedMetadata),
    Renamed(AgentSessionRenamedMetadata),
    StatusChanged(AgentSessionStatusChangedMetadata),
    Deleted(AgentSessionDeletedMetadata),
}

/// The session id that a lifecycle payload carries.
pub open spec fn payload_session_id(event: AgentSessionLifecycleTopicEvent) -> Seq<char> {
    match event {
        AgentSessionLifecycleTopicEvent::Created(m) => m.agent_session_id@,
        AgentSessionLifecycleTopicEvent::Renamed(m) => m.agent_session_id@,
        AgentSessionLifecycleTopicEvent::StatusChanged(m) => m.agent_session_id@,
        AgentSessionLifecycleTopicEvent::Deleted(m) => m.agent_session_id@,
    }
}

/// The wire name of a lifecycle event's type.
pub open spec fn lifecycle_event_type(event: AgentSessionLifecycleTopicEvent) -> Seq<char> {
    match event {
        AgentSessionLifecycleTopicEvent::Created(_) => "agent_session.created"@,
        AgentSessionLifecycleTopicEvent::Renamed(_) => "agent_session.renamed"@,
        AgentSessionLifecycleTopicEvent::StatusChanged(_) => "agent_session.status_changed"@,
        AgentSessionLifecycleTopicEvent::Deleted(_) => "agent_session.deleted"@,
    }
}

impl AgentSessionLifecycleTopicEvent {
    /// The wire name of the event's type.
    pub fn event_type(&self) -> (r: &'static str)
        ensures
            r@ == lifecycle_event_type(*self),
    {
        match self {
            AgentSessionLifecycleTopicEvent::Created(_) => "agent_session.created",
            AgentSessionLifecycleTopicEvent::Renamed(_) => "agent_session.renamed",
            AgentSessionLifecycleTopicEvent::StatusChanged(_) => "agent_session.status_changed",
            AgentSessionLifecycleTopicEvent::Deleted(_) => "agent_session.deleted",
        }
    }
}

/// A publishable lifecycle event, keyed by the session's bare id so that one
/// session's events stay ordered.
#[derive(Clone, Debug, PartialEq, Eq)]
pub struct AgentSessionLifecycleMacroEvent {
    key: String,
    event: Event<AgentSessionLifecycleTopicEvent>,
}

/// The shape every constructed lifecycle event has: keyed by the session's
/// bare id, carrying that id in its payload, at schema version one.
pub open spec fn keyed_by_session(
    e: AgentSessionLifecycleMacroEvent,
    id: AgentSessionId,
) -> bool {
    &&& e.key_text() == uuid_text(id.uuid().value())
    &&& uuid_parse(e.key_text()) == Some(id.uuid().value())
    &&& payload_session_id(e.envelope().event) == uuid_text(id.uuid().value())
    &&& e.envelope().schema_version == 1
}

impl AgentSessionLifecycleMacroEvent {
    pub closed spec fn key_text(self) -> Seq<char> {
        self.key@
    }

    pub closed spec fn envelope(self) -> Event<AgentSessionLifecycleTopicEvent> {
        self.event
    }

    /// A created event from the session as it was persisted.
    pub fn created(session: &AgentSession) -> (r: AgentSessionLifecycleMacroEvent)
        ensures
            keyed_by_session(r, session.id),
            r.envelope().event matches AgentSessionLifecycleTopicEvent::Created(m) && {
                &&& m.owner@ == session.owner_id@
                &&& m.bot_id@ == uuid_text(session.bot_id.value())
                &&& m.name@ == session.name@
                &&& view_opt(m.thread_id) == uuid_text_opt(session.thread_id)
            },
    {
        Self::new(
            session.id,
            AgentSessionLifecycleTopicEvent::Created(AgentSessionCreatedMetadata::from(session)),
        )
    }

    /// A renamed event.
    pub fn renamed(id: AgentSessionId, name: &str) -> (r: AgentSessionLifecycleMacroEvent)
        ensures
            keyed_by_session(r, id),
            r.envelope().event matches AgentSessionLifecycleTopicEvent::Renamed(m) && m.name@
                == name@,
    {
        Self::new(
            id,
            AgentSessionLifecycleTopicEvent::Renamed(
                AgentSessionRenamedMetadata { agent_session_id: id.to_string(), name: name.to_owned() },
            ),
        )
    }

    /// A status-changed event.
    pub fn status_changed(id: AgentSessionId, status: &SessionStatus) -> (r:
        AgentSessionLifecycleMacroEvent)
        ensures
            keyed_by_session(r, id),
            r.envelope().event matches AgentSessionLifecycleTopicEvent::StatusChanged(m) && {
                &&& m.status.status@ == status_column(*status)
                &&& view_opt(m.status.event_name) == status_event_name(*status)
            },
    {
        Self::new(
            id,
            AgentSessionLifecycleTopicEvent::StatusChanged(
                AgentSessionStatusChangedMetadata {
                    agent_session_id: id.to_string(),
                    status: SessionStatusMetadata::from(status),
                },
            ),
        )
    }

    /// A deleted event.
    pub fn deleted(id: AgentSessionId) -> (r: AgentSessionLifecycleMacroEvent)
        ensures
            keyed_by_session(r, id),
            r.envelope().event is Deleted,
    {
        Self::new(
            id,
            AgentSessionLifecycleTopicEvent::Deleted(
                AgentSessionDeletedMetadata { agent_session_id: id.to_string() },
            ),
        )
    }

    fn new(id: AgentSessionId, event: AgentSessionLifecycleTopicEvent) -> (r:
        AgentSessionLifecycleMacroEvent)
        ensures
            r.key_text() == uuid_text(id.uuid().value()),
            uuid_parse(r.key_text()) == Some(id.uuid().value()),
            r.envelope().event == event,
            r.envelope().schema_version == LIFECYCLE_SCHEMA_VERSION,
    {
        Self::with_event(id.to_string(), Event::new(event, LIFECYCLE_SCHEMA_VERSION))
    }

    fn with_event(key: String, event: Event<AgentSessionLifecycleTopicEvent>) -> (r:
        AgentSessionLifecycleMacroEvent)
        ensures
            r.key_text() == key@,
            r.envelope() == event,
    {
        AgentSessionLifecycleMacroEvent { key, event }
    }

    /// The event rebuilt from a key and an envelope read off the topic.
    pub fn from_event(key: String, event: Event<AgentSessionLifecycleTopicEvent>) -> (r:
        AgentSessionLifecycleMacroEvent)
        ensures
            r.key_text() == key@,
            r.envelope() == event,
    {
        Self::with_event(key, event)
    }

    /// The partition key: the session's bare id.
    pub fn key(&self) -> (r: &str)
        ensures
            r@ == self.key_text(),
    {
        self.key.as_str()
    }

    /// The envelope.
    pub fn event(&self) -> (r: &Event<AgentSessionLifecycleTopicEvent>)
        ensures
            *r == self.envelope(),
    {
        &self.event
    }

    /// The topic lifecycle events are published to.
    pub fn topic(&self) -> (r: &'static str)
        ensures
            r@ == lifecycle_topic(),
    {
        "macro.agent_session_lifecycle"
    }
}

/// Hands each lifecycle event to an event broker, which serializes it and
/// publishes it to the lifecycle topic.
#[derive(Clone, Debug)]
pub struct BrokerLifecycleSink<B> {
    broker: B,
}

impl<B> BrokerLifecycleSink<B> {
    pub closed spec fn spec_broker(self) -> B {
        self.broker
    }

    /// Wraps `broker`.
    pub fn new(broker: B) -> (r: BrokerLifecycleSink<B>)
        ensures
            r.spec_broker() == broker,
    {
        BrokerLifecycleSink { broker }
    }

    /// The broker events are handed to.
    pub fn broker(&self) -> (r: &B)
        ensures
            *r == self.spec_broker(),
    {
        &self.broker
    }
}

} // verus!
