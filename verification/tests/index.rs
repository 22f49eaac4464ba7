use agent_session_search::ids::{AgentSessionId, Uuid};
use agent_session_search::index::{
    child_id, project_snapshot, resolve_destination, snapshot_from_rows, snapshot_generation,
    AgentSessionIndexService, AgentSessionMessageDocument, AgentSessionMessageProjection,
    AgentSessionSearchSnapshot, Author, AuthorKind, FoldedMessage, IndexOperation,
    OpenSearchAgentSessionIndex, ReconcileAgentSessionArgs, RejectedTime, StoredLogEntry,
};
use agent_session_search::model::{AgentSession, UtcTimestamp};
use agent_session_search::work_item::{parse_agent_session_id, InvalidAgentSessionId};
use std::sync::Arc;

fn args() -> ReconcileAgentSessionArgs {
    ReconcileAgentSessionArgs {
        agent_session_id: "session-1".to_owned(),
        name: "Investigate indexing".to_owned(),
        owner_id: "user-1".to_owned(),
        bot_id: "bot-1".to_owned(),
        thread_id: Some("thread-1".to_owned()),
        originating_message_id: None,
        created_at_millis: 10,
        updated_at_millis: 20,
        projection_generation: "generation-1".to_owned(),
        messages: vec![AgentSessionMessageDocument {
            turn: 3,
            author: "agent".to_owned(),
            author_user_id: None,
            content: "Folded output".to_owned(),
        }],
    }
}

#[test]
fn index_override_selects_a_physical_backfill_index() {
    assert_eq!(resolve_destination(None), "agent_sessions");
    assert_eq!(
        resolve_destination(Some("agent_sessions_v2")),
        "agent_sessions_v2"
    );
}

#[test]
fn child_id_joins_session_turn_and_author() {
    let args = args();
    assert_eq!(child_id("session-1", &args.messages[0]), "session-1:3:agent");
    let message = AgentSessionMessageDocument {
        turn: 1024,
        author: "user".to_owned(),
        author_user_id: Some("macro|a@b.c".to_owned()),
        content: String::new(),
    };
    assert_eq!(child_id(&args.agent_session_id, &message), "session-1:1024:user");
}

fn session_id(value: u128) -> AgentSessionId {
    AgentSessionId::new_from_uuid(Uuid::from_u128(value))
}

fn snapshot(id: AgentSessionId) -> AgentSessionSearchSnapshot<String> {
    let timestamp = UtcTimestamp::from_micros(1_700_000_000_000_000);
    AgentSessionSearchSnapshot {
        id,
        name: "Index agent chats".to_owned(),
        owner_id: "macro|owner@example.com".to_owned(),
        bot_id: Uuid::from_u128(2),
        thread_id: None,
        originating_message_id: None,
        created_at: timestamp,
        modified_at: timestamp,
        log: Vec::new(),
        last_log_id: None,
    }
}

#[test]
fn a_present_session_is_projected_for_reconciliation() {
    let id = session_id(1);
    let op = AgentSessionIndexService::<(), ()>::plan_reconcile(id, Some((snapshot(id), Vec::new())));
    match op {
        IndexOperation::Reconcile(projection) => {
            assert_eq!(projection.id, id);
            assert_eq!(projection.name, "Index agent chats");
            assert_eq!(projection.messages.len(), 0);
            assert_eq!(projection.generation, "v1:1700000000000000:empty");
        }
        IndexOperation::Delete(_) => panic!("expected a reconciliation"),
    }
}

#[test]
fn a_missing_session_is_planned_for_deletion() {
    let id = session_id(1);
    let op = AgentSessionIndexService::<(), ()>::plan_reconcile::<String>(id, None);
    match op {
        IndexOperation::Delete(deleted) => assert_eq!(deleted, id),
        IndexOperation::Reconcile(_) => panic!("expected a deletion"),
    }
}

#[test]
fn service_keeps_its_source_and_index() {
    let service = AgentSessionIndexService::new(1u8, 2u8);
    assert_eq!(*service.source(), 1);
    assert_eq!(*service.index(), 2);
    let index = OpenSearchAgentSessionIndex::new(Arc::new(5u8));
    assert_eq!(**index.client(), 5);
}

#[test]
fn generation_names_version_time_and_last_log_row() {
    let at = UtcTimestamp::from_micros(-1_500);
    assert_eq!(snapshot_generation(&at, &None), "v1:-1500:empty");
    let last = Some(Uuid::from_u128(0x0123456789abcdef0123456789abcdef));
    assert_eq!(
        snapshot_generation(&UtcTimestamp::from_micros(0), &last),
        "v1:0:01234567-89ab-cdef-0123-456789abcdef"
    );
    assert_eq!(
        snapshot_generation(&UtcTimestamp::from_micros(i64::MIN), &None),
        "v1:-9223372036854775808:empty"
    );
}

#[test]
fn folded_messages_become_children_in_order() {
    let id = session_id(9);
    let folded = vec![
        FoldedMessage {
            turn: 1,
            author: Author::User { user_id: Some("macro|u@x.y".to_owned()) },
            searchable_text: "Find the bug".to_owned(),
        },
        FoldedMessage {
            turn: 1,
            author: Author::Agent,
            searchable_text: "Found it".to_owned(),
        },
        FoldedMessage {
            turn: 2,
            author: Author::User { user_id: None },
            searchable_text: "Thanks".to_owned(),
        },
    ];
    let projection = project_snapshot(snapshot(id), folded);
    assert_eq!(
        projection.messages,
        vec![
            AgentSessionMessageProjection {
                turn: 1,
                author: AuthorKind::User,
                author_user_id: Some("macro|u@x.y".to_owned()),
                content: "Find the bug".to_owned(),
            },
            AgentSessionMessageProjection {
                turn: 1,
                author: AuthorKind::Agent,
                author_user_id: None,
                content: "Found it".to_owned(),
            },
            AgentSessionMessageProjection {
                turn: 2,
                author: AuthorKind::User,
                author_user_id: None,
                content: "Thanks".to_owned(),
            },
        ]
    );
    let args = OpenSearchAgentSessionIndex::<()>::reconcile_args(projection);
    assert_eq!(args.agent_session_id, "00000000-0000-0000-0000-000000000009");
    assert_eq!(args.bot_id, "00000000-0000-0000-0000-000000000002");
    assert_eq!(args.thread_id, None);
    assert_eq!(args.created_at_millis, 1_700_000_000_000);
    assert_eq!(args.updated_at_millis, 1_700_000_000_000);
    assert_eq!(args.projection_generation, "v1:1700000000000000:empty");
    assert_eq!(args.messages.len(), 3);
    assert_eq!(args.messages[0].author, "user");
    assert_eq!(args.messages[1].author, "agent");
    assert_eq!(args.messages[1].content, "Found it");
    assert_eq!(
        child_id(&args.agent_session_id, &args.messages[2]),
        "00000000-0000-0000-0000-000000000009:2:user"
    );
}

#[test]
fn milliseconds_round_down() {
    assert_eq!(UtcTimestamp::from_micros(1_999).timestamp_millis(), 1);
    assert_eq!(UtcTimestamp::from_micros(-1).timestamp_millis(), -1);
    assert_eq!(UtcTimestamp::from_micros(-1_000).timestamp_millis(), -1);
    assert_eq!(UtcTimestamp::from_micros(-1_001).timestamp_millis(), -2);
    assert_eq!(UtcTimestamp::from_micros(i64::MIN).timestamp_millis(), -9223372036854776);
    assert_eq!(UtcTimestamp::from_micros(42).timestamp_micros(), 42);
}

#[test]
fn snapshot_takes_the_last_stored_row() {
    let session = AgentSession {
        id: session_id(3),
        owner_id: "macro|o@p.q".to_owned(),
        bot_id: Uuid::from_u128(4),
        name: "n".to_owned(),
        thread_id: Some(Uuid::from_u128(5)),
        originating_message_id: Some(Uuid::from_u128(6)),
        created_at: UtcTimestamp::from_micros(1),
        modified_at: UtcTimestamp::from_micros(2),
    };
    let rows = vec![
        StoredLogEntry { id: Uuid::from_u128(10), entry: "a".to_owned() },
        StoredLogEntry { id: Uuid::from_u128(11), entry: "b".to_owned() },
    ];
    let snapshot = snapshot_from_rows(session.clone(), rows);
    assert_eq!(snapshot.log, vec!["a".to_owned(), "b".to_owned()]);
    assert_eq!(snapshot.last_log_id, Some(Uuid::from_u128(11)));
    assert_eq!(snapshot.thread_id, Some(Uuid::from_u128(5)));
    let empty = snapshot_from_rows::<String>(session, Vec::new());
    assert!(empty.log.is_empty());
    assert_eq!(empty.last_log_id, None);
}

#[test]
fn work_item_ids_must_be_uuids() {
    assert_eq!(
        parse_agent_session_id("00000000-0000-0000-0000-000000000007"),
        Ok(session_id(7))
    );
    assert_eq!(parse_agent_session_id("session-7"), Err(InvalidAgentSessionId));
    assert_eq!(InvalidAgentSessionId.message(), "invalid agent session id");
}

#[test]
fn a_changed_snapshot_gets_a_new_generation() {
    let t1 = UtcTimestamp::from_micros(10);
    let t2 = UtcTimestamp::from_micros(11);
    let row = Some(Uuid::from_u128(1));
    let other_row = Some(Uuid::from_u128(2));
    let generations = [
        snapshot_generation(&t1, &None),
        snapshot_generation(&t2, &None),
        snapshot_generation(&t1, &row),
        snapshot_generation(&t1, &other_row),
        snapshot_generation(&t2, &row),
    ];
    for i in 0..generations.len() {
        for j in 0..generations.len() {
            assert_eq!(i == j, generations[i] == generations[j]);
        }
    }
}

#[test]
fn refused_times_withhold_the_write() {
    let id = session_id(9);
    let projection = || project_snapshot(snapshot(id), Vec::new());
    type Index = OpenSearchAgentSessionIndex<()>;
    assert_eq!(Index::reconcile_write(projection(), false, true).err(), Some(RejectedTime::CreatedAt));
    assert_eq!(Index::reconcile_write(projection(), false, false).err(), Some(RejectedTime::CreatedAt));
    assert_eq!(Index::reconcile_write(projection(), true, false).err(), Some(RejectedTime::UpdatedAt));
    assert_eq!(
        Index::reconcile_write(projection(), true, true).ok(),
        Some(Index::reconcile_args(projection()))
    );
}
