//! Identifier-only search invalidations of agent sessions, published on the
//! `macro.agent_session_search` topic, and the decisions the search consumer
//! takes on them.
use vstd::prelude::*;

use crate::envelope::Event;
use crate::ids::{uuid_parse, uuid_text, AgentSessionId, Uuid};

verus! {

/// The topic that search invalidations are published to.
pub open spec fn search_topic() -> Seq<char> {
    "macro.agent_session_search"@
}

/// The schema version of search invalidations.
pub const SEARCH_SCHEMA_VERSION: u8 = 1;

/// The session whose search projection changed.
#[derive(Clone, Copy, Debug, PartialEq, Eq, Structural)]
pub struct AgentSessionSearchMetadata {
    pub agent_session_id: Uuid,
}

/// Changes that require rebuilding or removing a session's projection.
#[derive(Clone, Copy, Debug, PartialEq, Eq, Structural)]
pub enum AgentSessionSearchTopicEvent {
    /// Session metadata or its folded transcript changed.
    Reconcile(AgentSessionSearchMetadata),
    /// The session was permanently deleted.
    Deleted(AgentSessionSearchMetadata),
}

/// The session an invalidation names.
pub open spec fn invalidated_session(event: AgentSessionSearchTopicEvent) -> Uuid {
    match event {
        AgentSessionSearchTopicEvent::Reconcile(m) => m.agent_session_id,
        AgentSessionSearchTopicEvent::Deleted(m) => m.agent_session_id,
    }
}

/// The wire name of an invalidation's type.
pub open spec fn search_event_type(event: AgentSessionSearchTopicEvent) -> Seq<char> {
    match event {
        AgentSessionSearchTopicEvent::Reconcile(_) => "agent_session_search.reconcile"@,
        AgentSessionSearchTopicEvent::Deleted(_) => "agent_session_search.deleted"@,
    }
}

impl AgentSessionSearchTopicEvent {
    /// The wire name of the invalidation's type.
    pub fn event_type(&self) -> (r: &'static str)
        ensures
            r@ == search_event_type(*self),
    {
        match self {
            AgentSessionSearchTopicEvent::Reconcile(_) => "agent_session_search.reconcile",
            AgentSessionSearchTopicEvent::Deleted(_) => "agent_session_search.deleted",
        }
    }
}

/// A publishable search invalidation, keyed by the session UUID.
#[derive(Clone, Debug)]
pub struct AgentSessionSearchMacroEvent {
    key: String,
    event: Event<AgentSessionSearchTopicEvent>,
}

impl AgentSessionSearchMacroEvent {
    pub closed spec fn key_text(self) -> Seq<char> {
        self.key@
    }

    pub closed spec fn envelope(self) -> Event<AgentSessionSearchTopicEvent> {
        self.event
    }

    /// A request for an authoritative reconciliation of the session.
    pub fn reconcile(agent_session_id: Uuid) -> (r: AgentSessionSearchMacroEvent)
        ensures
            r.key_text() == uuid_text(agent_session_id.value()),
            uuid_parse(r.key_text()) == Some(agent_session_id.value()),
            r.envelope().event == AgentSessionSearchTopicEvent::Reconcile(
                AgentSessionSearchMetadata { agent_session_id },
            ),
            r.envelope().schema_version == SEARCH_SCHEMA_VERSION,
    {
        Self::new(
            agent_session_id,
            AgentSessionSearchTopicEvent::Reconcile(AgentSessionSearchMetadata { agent_session_id }),
        )
    }

    /// A request to remove the projection of a deleted session.
    pub fn deleted(agent_session_id: Uuid) -> (r: AgentSessionSearchMacroEvent)
        ensures
            r.key_text() == uuid_text(agent_session_id.value()),
            uuid_parse(r.key_text()) == Some(agent_session_id.value()),
            r.envelope().event == AgentSessionSearchTopicEvent::Deleted(
                AgentSessionSearchMetadata { agent_session_id },
            ),
            r.envelope().schema_version == SEARCH_SCHEMA_VERSION,
    {
        Self::new(
            agent_session_id,
            AgentSessionSearchTopicEvent::Deleted(AgentSessionSearchMetadata { agent_session_id }),
        )
    }

    fn new(agent_session_id: Uuid, event: AgentSessionSearchTopicEvent) -> (r:
        AgentSessionSearchMacroEvent)
        ensures
            r.key_text() == uuid_text(agent_session_id.value()),
            uuid_parse(r.key_text()) == Some(agent_session_id.value()),
            r.envelope().event == event,
            r.envelope().schema_version == SEARCH_SCHEMA_VERSION,
    {
        Self::with_event(agent_session_id.to_string(), Event::new(event, SEARCH_SCHEMA_VERSION))
    }

    fn with_event(key: String, event: Event<AgentSessionSearchTopicEvent>) -> (r:
        AgentSessionSearchMacroEvent)
        ensures
            r.key_text() == key@,
            r.envelope() == event,
    {
        AgentSessionSearchMacroEvent { key, event }
    }

    /// The event rebuilt from a key and an envelope read off the topic.
    pub fn from_event(key: String, event: Event<AgentSessionSearchTopicEvent>) -> (r:
        AgentSessionSearchMacroEvent)
        ensures
            r.key_text() == key@,
            r.envelope() == event,
    {
        Self::with_event(key, event)
    }

    /// The partition key: the session UUID.
    pub fn key(&self) -> (r: &str)
        ensures
            r@ == self.key_text(),
    {
        self.key.as_str()
    }

    /// The envelope.
    pub fn event(&self) -> (r: &Event<AgentSessionSearchTopicEvent>)
        ensures
            *r == self.envelope(),
    {
        &self.event
    }

    /// The topic search invalidations are published to.
    pub fn topic(&self) -> (r: &'static str)
        ensures
            r@ == search_topic(),
    {
        "macro.agent_session_search"
    }
}

/// What a session service reports to search.
#[derive(Clone, Copy, Debug, PartialEq, Eq, Structural)]
pub enum SearchInvalidation {
    /// Metadata or history changed.
    Reconcile,
    /// The session was deleted.
    Deleted,
    /// A turn completed: a stable point to rebuild the transcript.
    TurnEnded,
    /// The session's actor stopped.
    SessionStopped,
}

/// The payload published when `what` happens to session `id`: a deletion
/// removes the projection, everything else rebuilds it.
pub open spec fn invalidation_payload(what: SearchInvalidation, id: AgentSessionId) -> AgentSessionSearchTopicEvent {
    if what == SearchInvalidation::Deleted {
        AgentSessionSearchTopicEvent::Deleted(AgentSessionSearchMetadata { agent_session_id: id.uuid() })
    } else {
        AgentSessionSearchTopicEvent::Reconcile(AgentSessionSearchMetadata { agent_session_id: id.uuid() })
    }
}

/// Publishes search invalidations through an event broker.
#[derive(Clone)]
pub struct BrokerAgentSessionSearchEvents<Broker> {
    broker: Broker,
}

impl<Broker> BrokerAgentSessionSearchEvents<Broker> {
    pub closed spec fn spec_broker(self) -> Broker {
        self.broker
    }

    /// The adapter around an event broker.
    pub fn new(broker: Broker) -> (r: BrokerAgentSessionSearchEvents<Broker>)
        ensures
            r.spec_broker() == broker,
    {
        BrokerAgentSessionSearchEvents { broker }
    }

    /// The broker events are handed to.
    pub fn broker(&self) -> (r: &Broker)
        ensures
            *r == self.spec_broker(),
    {
        &self.broker
    }

    /// The invalidation to publish when `what` happens to session `id`: a
    /// deletion removes the projection, everything else rebuilds it.
    pub fn invalidation_event(what: SearchInvalidation, id: AgentSessionId) -> (r:
        AgentSessionSearchMacroEvent)
        ensures
            r.key_text() == uuid_text(id.uuid().value()),
            uuid_parse(r.key_text()) == Some(id.uuid().value()),
            r.envelope().schema_version == SEARCH_SCHEMA_VERSION,
            r.envelope().event == invalidation_payload(what, id),
    {
        match what {
            SearchInvalidation::Deleted => AgentSessionSearchMacroEvent::deleted(id.as_uuid()),
            SearchInvalidation::Reconcile
            | SearchInvalidation::TurnEnded
            | SearchInvalidation::SessionStopped => AgentSessionSearchMacroEvent::reconcile(
                id.as_uuid(),
            ),
        }
    }
}

// ---------------------------------------------------------------------------
// Consuming invalidations
// ---------------------------------------------------------------------------

/// How many times processing of one invalidation is attempted in all.
pub const MAX_PROCESSING_ATTEMPTS: u32 = 3;

/// What the consumer does with one invalidation.
#[derive(Clone, Copy, Debug, PartialEq, Eq)]
pub struct AgentSessionIndexRequest {
    /// The session to reconcile or delete.
    pub id: AgentSessionId,
    /// The wire name of the invalidation, for the logs.
    pub event_type: &'static str,
    /// Delete the projection rather than rebuild it.
    pub deleted: bool,
}

/// The request an invalidation asks for.
pub fn index_request(event: &AgentSessionSearchTopicEvent) -> (r: AgentSessionIndexRequest)
    ensures
        r.id.uuid() == invalidated_session(*event),
        r.event_type@ == search_event_type(*event),
        r.deleted == (event is Deleted),
{
    let (raw_id, event_type, deleted) = match event {
        AgentSessionSearchTopicEvent::Reconcile(metadata) => (
            metadata.agent_session_id,
            "agent_session_search.reconcile",
            false,
        ),
        AgentSessionSearchTopicEvent::Deleted(metadata) => (
            metadata.agent_session_id,
            "agent_session_search.deleted",
            true,
        ),
    };
    AgentSessionIndexRequest { id: AgentSessionId::new_from_uuid(raw_id), event_type, deleted }
}

/// The outcome of processing one event.
#[derive(Clone, Copy, Debug, PartialEq, Eq, Structural)]
pub enum EventOutcome {
    Indexed,
    Dropped,
}

/// An event whose processing finally succeeded is indexed; one whose
/// attempts are exhausted is dropped.
pub fn processing_outcome(succeeded: bool) -> (r: EventOutcome)
    ensures
        r == (if succeeded {
            EventOutcome::Indexed
        } else {
            EventOutcome::Dropped
        }),
{
    if succeeded {
        EventOutcome::Indexed
    } else {
        EventOutcome::Dropped
    }
}

/// `2` to the power `n`.
pub open spec fn pow2(n: nat) -> nat
    decreases n,
{
    if n == 0 {
        1
    } else {
        2 * pow2((n - 1) as nat)
    }
}

/// The doubling exponent after failed attempt `attempt`: `attempt - 1`, never below zero.
pub open spec fn retry_exponent(attempt: u32) -> nat {
    if attempt == 0 {
        0
    } else {
        (attempt - 1) as nat
    }
}

/// After failed attempt number `attempt` (counting from one), the delay
/// before the next attempt, which doubles each time from `base_millis`; `None`
/// once the attempts are exhausted and the event is to be dropped.
pub fn retry_delay_millis(base_millis: u64, attempt: u32) -> (r: Option<u64>)
    requires
        attempt < MAX_PROCESSING_ATTEMPTS ==> base_millis * pow2(retry_exponent(attempt)) <= u64::MAX,
    ensures
        r is Some <==> attempt < MAX_PROCESSING_ATTEMPTS,
        r matches Some(d) ==> d == base_millis * pow2(retry_exponent(attempt)),
{
    if attempt < MAX_PROCESSING_ATTEMPTS {
        let exponent = attempt.saturating_sub(1);
        assert(pow2(0) == 1);
        assert(pow2(1) == 2) by {
            assert(pow2(0) == 1);
        }
        if exponent == 0 {
            assert(retry_exponent(attempt) == 0);
            assert(base_millis * pow2(retry_exponent(attempt)) == base_millis) by (nonlinear_arith)
                requires
                    pow2(retry_exponent(attempt)) == 1,
            ;
            Some(base_millis)
        } else {
            assert(retry_exponent(attempt) == 1);
            assert(base_millis * pow2(retry_exponent(attempt)) == base_millis * 2)
                by (nonlinear_arith)
                requires
                    pow2(retry_exponent(attempt)) == 2,
            ;
            Some(base_millis * 2)
        }
    } else {
        None
    }
}

/// What the consumer does with a published invalidation is what the
/// publisher meant: it acts on the same session, and it deletes the
/// projection exactly when the session was deleted.
pub proof fn lemma_consumer_acts_on_published_invalidation(
    what: SearchInvalidation,
    id: AgentSessionId,
    request: AgentSessionIndexRequest,
)
    requires
        request.id.uuid() == invalidated_session(invalidation_payload(what, id)),
        request.deleted == (invalidation_payload(what, id) is Deleted),
    ensures
        request.id.uuid() == id.uuid(),
        request.deleted <==> what == SearchInvalidation::Deleted,
{
}

// ---------------------------------------------------------------------------
// Attempting an invalidation
// ---------------------------------------------------------------------------

/// What follows one processing attempt: the event is finished with an
/// outcome, or retried after a pause.
#[derive(Clone, Copy, Debug, PartialEq, Eq, Structural)]
pub enum AttemptStep {
    Finish(EventOutcome),
    Retry { delay_millis: u64 },
}

/// What follows attempt number `attempt` (counting from one) when it
/// `succeeded` or not: a success is indexed; a failure is retried after the
/// doubling delay while attempts remain, and dropped once they are exhausted.
pub open spec fn attempt_step(base_millis: u64, attempt: u32, succeeded: bool) -> AttemptStep {
    if succeeded {
        AttemptStep::Finish(EventOutcome::Indexed)
    } else if attempt < MAX_PROCESSING_ATTEMPTS {
        AttemptStep::Retry { delay_millis: (base_millis * pow2(retry_exponent(attempt))) as u64 }
    } else {
        AttemptStep::Finish(EventOutcome::Dropped)
    }
}

/// What follows attempt number `attempt`.
pub fn after_attempt(base_millis: u64, attempt: u32, succeeded: bool) -> (r: AttemptStep)
    requires
        !succeeded && attempt < MAX_PROCESSING_ATTEMPTS ==> base_millis * pow2(
            retry_exponent(attempt),
        ) <= u64::MAX,
    ensures
        r == attempt_step(base_millis, attempt, succeeded),
{
    if succeeded {
        return AttemptStep::Finish(processing_outcome(true));
    }
    match retry_delay_millis(base_millis, attempt) {
        Some(delay_millis) => AttemptStep::Retry { delay_millis },
        None => AttemptStep::Finish(processing_outcome(false)),
    }
}

/// The attempts made for an event whose attempt number `i + 1` would
/// succeed exactly when `results[i]`, from attempt `i + 1` on: how many
/// attempts are made in all, and the outcome.
pub open spec fn run_attempts(base_millis: u64, results: Seq<bool>, i: nat) -> (nat, EventOutcome)
    decreases MAX_PROCESSING_ATTEMPTS - i,
{
    if i >= MAX_PROCESSING_ATTEMPTS || i >= results.len() {
        (i, EventOutcome::Dropped)
    } else {
        match attempt_step(base_millis, (i + 1) as u32, results[i as int]) {
            AttemptStep::Finish(outcome) => (i + 1, outcome),
            AttemptStep::Retry { .. } => run_attempts(base_millis, results, i + 1),
        }
    }
}

/// Processing an invalidation makes one to three attempts, stops at the
/// first success, and ends indexed exactly when one of the attempts made
/// succeeded (dropped once three have failed).
pub proof fn lemma_attempts_stop_at_first_success(base_millis: u64, results: Seq<bool>)
    requires
        results.len() >= MAX_PROCESSING_ATTEMPTS,
    ensures
        ({
            let (calls, outcome) = run_attempts(base_millis, results, 0);
            &&& 1 <= calls <= MAX_PROCESSING_ATTEMPTS
            &&& forall|j: int| 0 <= j < calls - 1 ==> !results[j]
            &&& (outcome == EventOutcome::Indexed) == results[calls - 1]
            &&& calls < MAX_PROCESSING_ATTEMPTS ==> results[calls - 1]
            &&& (outcome == EventOutcome::Indexed) == (exists|j: int|
                0 <= j < MAX_PROCESSING_ATTEMPTS && results[j])
        }),
{
    reveal_with_fuel(run_attempts, 4);
    let (calls, outcome) = run_attempts(base_millis, results, 0);
    if results[0] {
        assert(calls == 1 && outcome == EventOutcome::Indexed);
    } else if results[1] {
        assert(calls == 2 && outcome == EventOutcome::Indexed);
    } else if results[2] {
        assert(calls == 3 && outcome == EventOutcome::Indexed);
    } else {
        assert(calls == 3 && outcome == EventOutcome::Dropped);
        assert(!(exists|j: int| 0 <= j < MAX_PROCESSING_ATTEMPTS && results[j])) by {
            assert forall|j: int| 0 <= j < MAX_PROCESSING_ATTEMPTS implies !results[j] by {
                if j == 0 {
                } else if j == 1 {
                } else {
                }
            }
        }
    }
}

} // verus!
