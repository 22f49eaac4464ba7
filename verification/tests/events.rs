use agent_session_search::envelope::Event;
use agent_session_search::ids::{AgentSessionId, Uuid};
use agent_session_search::lifecycle::{
    AgentSessionCreatedMetadata, AgentSessionLifecycleMacroEvent, AgentSessionLifecycleTopicEvent,
    AgentSessionRenamedMetadata, BrokerLifecycleSink, SessionStatusMetadata,
};
use agent_session_search::model::{AgentSession, SessionStatus, UtcTimestamp};
use agent_session_search::search_events::{
    after_attempt, index_request, processing_outcome, retry_delay_millis, AttemptStep, AgentSessionSearchMacroEvent,
    AgentSessionSearchMetadata, AgentSessionSearchTopicEvent, BrokerAgentSessionSearchEvents,
    EventOutcome, SearchInvalidation, MAX_PROCESSING_ATTEMPTS,
};

const SESSION_ID: &str = "0197f776-6e7b-7c69-a251-780ae754d3e4";
const BOT_ID: &str = "3f6f8b0a-6f9f-4a3f-9c3a-2b1e5d4c7a90";
const THREAD_ID: &str = "c1a2b3d4-e5f6-4a7b-8c9d-0e1f2a3b4c5d";

fn session_id() -> AgentSessionId {
    AgentSessionId::new_from_uuid(Uuid::parse_str(SESSION_ID).expect("valid session id"))
}

fn macro_events() -> Vec<AgentSessionLifecycleMacroEvent> {
    vec![
        AgentSessionLifecycleMacroEvent::renamed(session_id(), "Fix the flaky test"),
        AgentSessionLifecycleMacroEvent::status_changed(
            session_id(),
            &SessionStatus::Event("acp_ready".to_string()),
        ),
        AgentSessionLifecycleMacroEvent::status_changed(session_id(), &SessionStatus::Disconnected),
        AgentSessionLifecycleMacroEvent::status_changed(session_id(), &SessionStatus::NoMessages),
        AgentSessionLifecycleMacroEvent::deleted(session_id()),
    ]
}

#[test]
fn constructors_use_lifecycle_topic_bare_session_id_key_and_schema_version_one() {
    for event in macro_events() {
        assert_eq!(event.key(), SESSION_ID);
        assert_eq!(event.topic(), "macro.agent_session_lifecycle");
        assert_eq!(event.event().schema_version, 1);
    }
}

#[test]
fn status_metadata_mirrors_the_session_row_columns() {
    assert_eq!(
        SessionStatusMetadata::from(&SessionStatus::NoMessages),
        SessionStatusMetadata {
            status: "no_messages".to_string(),
            event_name: None,
        }
    );
    assert_eq!(
        SessionStatusMetadata::from(&SessionStatus::Event("custom_event".to_string())),
        SessionStatusMetadata {
            status: "event".to_string(),
            event_name: Some("custom_event".to_string()),
        }
    );
}

#[test]
fn disconnected_status_has_no_event_name() {
    assert_eq!(
        SessionStatusMetadata::from(&SessionStatus::Disconnected),
        SessionStatusMetadata {
            status: "disconnected".to_string(),
            event_name: None,
        }
    );
}

#[test]
fn every_variant_round_trips() {
    for sent in macro_events() {
        let decoded =
            AgentSessionLifecycleMacroEvent::from_event(sent.key().to_string(), sent.event().clone());
        assert_eq!(decoded.key(), SESSION_ID);
        assert_eq!(decoded.event(), sent.event());
        assert_eq!(decoded.topic(), "macro.agent_session_lifecycle");
        assert_eq!(decoded, sent);
    }
}

#[test]
fn renamed_event_carries_the_new_name() {
    let event = AgentSessionLifecycleMacroEvent::renamed(session_id(), "Fix the flaky test");
    assert_eq!(
        event.event().event,
        AgentSessionLifecycleTopicEvent::Renamed(AgentSessionRenamedMetadata {
            agent_session_id: SESSION_ID.to_string(),
            name: "Fix the flaky test".to_string(),
        })
    );
    assert_eq!(event.event().event.event_type(), "agent_session.renamed");
}

#[test]
fn created_event_carries_the_persisted_session() {
    let session = AgentSession {
        id: session_id(),
        owner_id: "macro|owner@acme.com".to_string(),
        bot_id: Uuid::parse_str(BOT_ID).unwrap(),
        name: "New Agent Session".to_string(),
        thread_id: Some(Uuid::parse_str(THREAD_ID).unwrap()),
        originating_message_id: None,
        created_at: UtcTimestamp::from_micros(0),
        modified_at: UtcTimestamp::from_micros(0),
    };
    let event = AgentSessionLifecycleMacroEvent::created(&session);
    assert_eq!(event.key(), SESSION_ID);
    assert_eq!(
        event.event().event,
        AgentSessionLifecycleTopicEvent::Created(AgentSessionCreatedMetadata {
            agent_session_id: SESSION_ID.to_string(),
            owner: "macro|owner@acme.com".to_string(),
            bot_id: BOT_ID.to_string(),
            name: "New Agent Session".to_string(),
            thread_id: Some(THREAD_ID.to_string()),
        })
    );
    assert_eq!(event.event().event.event_type(), "agent_session.created");
}

#[test]
fn fresh_event_ids_are_version_seven() {
    let event = AgentSessionLifecycleMacroEvent::deleted(session_id());
    assert_eq!((event.event().event_id.as_u128() >> 76) & 0xf, 7);
    let other = AgentSessionLifecycleMacroEvent::deleted(session_id());
    assert_ne!(event.event().event_id, other.event().event_id);
}

#[test]
fn envelope_keeps_a_given_event_id() {
    let id = Uuid::parse_str("01998a30-1a2b-7c3d-9e4f-5a6b7c8d9e0f").unwrap();
    let envelope = Event::with_event_id(id, 5u32, 1);
    assert_eq!(envelope.event_id, id);
    assert_eq!(envelope.event, 5);
    assert_eq!(envelope.schema_version, 1);
}

#[test]
fn lifecycle_sink_wraps_its_broker() {
    let sink = BrokerLifecycleSink::new(17u8);
    assert_eq!(*sink.broker(), 17);
}

fn session() -> Uuid {
    Uuid::from_u128(7)
}

#[test]
fn reconcile_is_identifier_only_and_keyed_by_session() {
    let event = AgentSessionSearchMacroEvent::reconcile(session());
    assert_eq!(event.key(), session().to_string());
    assert_eq!(event.key(), "00000000-0000-0000-0000-000000000007");
    assert_eq!(event.event().schema_version, 1);
    assert_eq!(
        event.event().event,
        AgentSessionSearchTopicEvent::Reconcile(AgentSessionSearchMetadata {
            agent_session_id: session()
        })
    );
    assert_eq!(event.topic(), "macro.agent_session_search");
    assert_eq!(event.event().event.event_type(), "agent_session_search.reconcile");
}

#[test]
fn deleted_invalidation_is_keyed_by_session() {
    let event = AgentSessionSearchMacroEvent::deleted(session());
    assert_eq!(event.key(), "00000000-0000-0000-0000-000000000007");
    assert_eq!(
        event.event().event,
        AgentSessionSearchTopicEvent::Deleted(AgentSessionSearchMetadata {
            agent_session_id: session()
        })
    );
    assert_eq!(event.event().event.event_type(), "agent_session_search.deleted");
}

#[test]
fn turn_end_and_stop_rebuild_while_deletion_removes() {
    let id = AgentSessionId::new_from_uuid(session());
    let adapter = BrokerAgentSessionSearchEvents::new(());
    let _ = adapter.broker();
    for (what, deleted) in [
        (SearchInvalidation::Reconcile, false),
        (SearchInvalidation::TurnEnded, false),
        (SearchInvalidation::SessionStopped, false),
        (SearchInvalidation::Deleted, true),
    ] {
        let event = BrokerAgentSessionSearchEvents::<()>::invalidation_event(what, id);
        assert_eq!(event.key(), "00000000-0000-0000-0000-000000000007");
        let request = index_request(&event.event().event);
        assert_eq!(request.id, id);
        assert_eq!(request.deleted, deleted);
    }
}

#[test]
fn consumer_names_the_invalidation_type() {
    let reconcile = index_request(&AgentSessionSearchTopicEvent::Reconcile(
        AgentSessionSearchMetadata { agent_session_id: session() },
    ));
    assert_eq!(reconcile.event_type, "agent_session_search.reconcile");
    assert!(!reconcile.deleted);
    let deleted = index_request(&AgentSessionSearchTopicEvent::Deleted(
        AgentSessionSearchMetadata { agent_session_id: session() },
    ));
    assert_eq!(deleted.event_type, "agent_session_search.deleted");
    assert!(deleted.deleted);
}

#[test]
fn retries_double_their_delay_until_attempts_run_out() {
    assert_eq!(MAX_PROCESSING_ATTEMPTS, 3);
    assert_eq!(retry_delay_millis(500, 1), Some(500));
    assert_eq!(retry_delay_millis(500, 2), Some(1000));
    assert_eq!(retry_delay_millis(500, 3), None);
    assert_eq!(retry_delay_millis(500, 0), Some(500));
    assert_eq!(processing_outcome(true), EventOutcome::Indexed);
    assert_eq!(processing_outcome(false), EventOutcome::Dropped);
}

#[test]
fn event_keys_parse_back_to_the_session() {
    for event in macro_events() {
        assert_eq!(Uuid::parse_str(event.key()), Some(session_id().as_uuid()));
    }
    let search = AgentSessionSearchMacroEvent::deleted(session());
    assert_eq!(Uuid::parse_str(search.key()), Some(session()));
}

#[test]
fn attempts_stop_at_the_first_success_and_at_most_three() {
    assert_eq!(after_attempt(500, 1, true), AttemptStep::Finish(EventOutcome::Indexed));
    assert_eq!(after_attempt(500, 1, false), AttemptStep::Retry { delay_millis: 500 });
    assert_eq!(after_attempt(500, 2, false), AttemptStep::Retry { delay_millis: 1000 });
    assert_eq!(after_attempt(500, 3, false), AttemptStep::Finish(EventOutcome::Dropped));
    assert_eq!(after_attempt(500, 3, true), AttemptStep::Finish(EventOutcome::Indexed));
    for results in [[false, false, true], [false, true, false], [false, false, false], [true, true, true]] {
        let mut attempt = 1u32;
        let outcome = loop {
            match after_attempt(10, attempt, results[attempt as usize - 1]) {
                AttemptStep::Finish(outcome) => break outcome,
                AttemptStep::Retry { .. } => attempt += 1,
            }
        };
        let first = results.iter().position(|ok| *ok);
        assert_eq!(attempt as usize, first.map_or(3, |i| i + 1));
        assert_eq!(outcome == EventOutcome::Indexed, first.is_some());
    }
}
