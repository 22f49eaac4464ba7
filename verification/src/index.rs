//! The searchable view of an agent session: the snapshot read from the
//! source of truth, its projection onto folded messages, and the documents
//! written to the search index.
use vstd::prelude::*;

use std::sync::Arc;

use crate::ids::{
    lemma_uuid_text_injective, lemma_value_determines_uuid, uuid_text, uuid_text_opt,
    uuid_to_string_opt, AgentSessionId, Uuid,
};
use crate::model::{AgentSession, UtcTimestamp};
use crate::text::{
    decimal_digits, decimal_text, lemma_decimal_text_has_no_colon, lemma_decimal_text_injective,
    push_all, push_decimal, push_decimal_digits, view_opt,
};

verus! {

// ---------------------------------------------------------------------------
// Folded messages
// ---------------------------------------------------------------------------

/// Which side of the conversation a folded message is from.
#[derive(Clone, Copy, Debug, PartialEq, Eq, Structural)]
pub enum AuthorKind {
    User,
    Agent,
}

/// The wire name of an author side.
pub open spec fn author_kind_name(kind: AuthorKind) -> Seq<char> {
    match kind {
        AuthorKind::User => "user"@,
        AuthorKind::Agent => "agent"@,
    }
}

impl AuthorKind {
    /// The wire name: `user` or `agent`.
    pub fn as_str(&self) -> (r: &'static str)
        ensures
            r@ == author_kind_name(*self),
    {
        match self {
            AuthorKind::User => "user",
            AuthorKind::Agent => "agent",
        }
    }
}

/// The author of a folded message: a user, with the prompt's attributed user
/// when known, or the agent.
#[derive(Clone, Debug, PartialEq, Eq)]
pub enum Author {
    User { user_id: Option<String> },
    Agent,
}

/// The side an author is on.
pub open spec fn author_kind(author: Author) -> AuthorKind {
    match author {
        Author::User { .. } => AuthorKind::User,
        Author::Agent => AuthorKind::Agent,
    }
}

/// The attributed user of an author, if any.
pub open spec fn author_user(author: Author) -> Option<Seq<char>> {
    match author {
        Author::User { user_id } => view_opt(user_id),
        Author::Agent => None,
    }
}

impl Author {
    /// The side the author is on.
    pub fn kind(&self) -> (r: AuthorKind)
        ensures
            r == author_kind(*self),
    {
        match self {
            Author::User { .. } => AuthorKind::User,
            Author::Agent => AuthorKind::Agent,
        }
    }
}

/// One message of a folded session log: its turn, its author and its
/// searchable text.
#[derive(Clone, Debug, PartialEq, Eq)]
pub struct FoldedMessage {
    pub turn: u32,
    pub author: Author,
    pub searchable_text: String,
}

// ---------------------------------------------------------------------------
// Snapshot and projection
// ---------------------------------------------------------------------------

/// The persisted facts needed to derive one session's search documents; `Log`
/// is the type of an entry of the session's effective history.
#[derive(Clone, Debug)]
pub struct AgentSessionSearchSnapshot<Log> {
    pub id: AgentSessionId,
    pub name: String,
    pub owner_id: String,
    pub bot_id: Uuid,
    pub thread_id: Option<Uuid>,
    pub originating_message_id: Option<Uuid>,
    pub created_at: UtcTimestamp,
    pub modified_at: UtcTimestamp,
    /// Effective history in deterministic order.
    pub log: Vec<Log>,
    /// Last durable log row of the effective history, when one exists.
    pub last_log_id: Option<Uuid>,
}

/// A durable log row: its id and the history entry it stores.
#[derive(Clone, Debug)]
pub struct StoredLogEntry<Log> {
    pub id: Uuid,
    pub entry: Log,
}

/// One child document derived from a folded message.
#[derive(Clone, Debug, PartialEq, Eq)]
pub struct AgentSessionMessageProjection {
    pub turn: u32,
    pub author: AuthorKind,
    pub author_user_id: Option<String>,
    pub content: String,
}

/// The complete parent and children written in one reconciliation.
#[derive(Clone, Debug)]
pub struct AgentSessionSearchProjection {
    pub id: AgentSessionId,
    pub name: String,
    pub owner_id: String,
    pub bot_id: Uuid,
    pub thread_id: Option<Uuid>,
    pub originating_message_id: Option<Uuid>,
    pub created_at: UtcTimestamp,
    pub modified_at: UtcTimestamp,
    /// Deterministic generation of the source snapshot.
    pub generation: String,
    /// The current folded messages.
    pub messages: Vec<AgentSessionMessageProjection>,
}

/// The version of the folding-to-search semantics, part of every generation.
pub open spec fn projection_version() -> Seq<char> {
    "v1"@
}

/// The generation of a snapshot: the projection version, the modification
/// time in microseconds and the last log row's id (or `empty`), joined by `:`.
pub open spec fn generation_text(modified_micros: int, last_log_id: Option<Uuid>) -> Seq<char> {
    projection_version() + ":"@ + decimal_text(modified_micros) + ":"@ + generation_tail(
        last_log_id,
    )
}

/// The part of a generation after the modification time.
pub open spec fn generation_tail(last_log_id: Option<Uuid>) -> Seq<char> {
    match last_log_id {
        Some(id) => uuid_text(id.value()),
        None => "empty"@,
    }
}

/// The generation of a snapshot determines the snapshot's modification time
/// and last log row: a snapshot that changed in either gets a new generation.
pub proof fn lemma_generation_identifies_snapshot(
    m1: int,
    l1: Option<Uuid>,
    m2: int,
    l2: Option<Uuid>,
)
    requires
        generation_text(m1, l1) == generation_text(m2, l2),
    ensures
        m1 == m2,
        l1 == l2,
{
    reveal_strlit("v1");
    reveal_strlit(":");
    reveal_strlit("empty");
    let d1 = decimal_text(m1);
    let d2 = decimal_text(m2);
    let t1 = generation_tail(l1);
    let t2 = generation_tail(l2);
    let g = generation_text(m1, l1);
    assert(generation_text(m1, l1) =~= seq!['v', '1', ':'] + (d1 + seq![':'] + t1));
    assert(generation_text(m2, l2) =~= seq!['v', '1', ':'] + (d2 + seq![':'] + t2));
    let r1 = d1 + seq![':'] + t1;
    let r2 = d2 + seq![':'] + t2;
    assert(r1 =~= g.skip(3));
    assert(r2 =~= g.skip(3));
    lemma_decimal_text_has_no_colon(m1);
    lemma_decimal_text_has_no_colon(m2);
    if d1.len() < d2.len() {
        assert(r1[d1.len() as int] == ':');
        assert(r2[d1.len() as int] == d2[d1.len() as int]);
        assert(false);
    }
    if d2.len() < d1.len() {
        assert(r2[d2.len() as int] == ':');
        assert(r1[d2.len() as int] == d1[d2.len() as int]);
        assert(false);
    }
    assert(d1 =~= r1.take(d1.len() as int));
    assert(d2 =~= r2.take(d2.len() as int));
    lemma_decimal_text_injective(m1, m2);
    assert(t1 =~= r1.skip(d1.len() + 1int));
    assert(t2 =~= r2.skip(d2.len() + 1int));
    match (l1, l2) {
        (Some(a), Some(b)) => {
            lemma_uuid_text_injective(a.value(), b.value());
            lemma_value_determines_uuid(a, b);
        },
        (Some(a), None) => {
            assert(t1.len() == 36);
        },
        (None, Some(b)) => {
            assert(t2.len() == 36);
        },
        (None, None) => {},
    }
}

/// `p` is the child document of folded message `m`.
pub open spec fn projects_message(p: AgentSessionMessageProjection, m: FoldedMessage) -> bool {
    &&& p.turn == m.turn
    &&& p.author == author_kind(m.author)
    &&& view_opt(p.author_user_id) == author_user(m.author)
    &&& p.content@ == m.searchable_text@
}

/// `p` is the projection of `s` onto the folded messages `folded`: the
/// session's facts carried over, the generation of the snapshot, and one
/// child per folded message, in order.
pub open spec fn projects_snapshot<Log>(
    p: AgentSessionSearchProjection,
    s: AgentSessionSearchSnapshot<Log>,
    folded: Seq<FoldedMessage>,
) -> bool {
    &&& p.id == s.id
    &&& p.name@ == s.name@
    &&& p.owner_id@ == s.owner_id@
    &&& p.bot_id == s.bot_id
    &&& p.thread_id == s.thread_id
    &&& p.originating_message_id == s.originating_message_id
    &&& p.created_at == s.created_at
    &&& p.modified_at == s.modified_at
    &&& p.generation@ == generation_text(s.modified_at.micros(), s.last_log_id)
    &&& p.messages@.len() == folded.len()
    &&& forall|i: int| 0 <= i < folded.len() ==> projects_message(#[trigger] p.messages@[i], folded[i])
}

/// A projection carries its snapshot's facts unchanged: the session, its
/// name, owner, bot, thread, originating message and both times, and the
/// snapshot's generation.
pub proof fn lemma_projection_carries_snapshot<Log>(
    p: AgentSessionSearchProjection,
    s: AgentSessionSearchSnapshot<Log>,
    folded: Seq<FoldedMessage>,
)
    requires
        projects_snapshot(p, s, folded),
    ensures
        p.id == s.id,
        p.name@ == s.name@,
        p.owner_id@ == s.owner_id@,
        p.bot_id == s.bot_id,
        p.thread_id == s.thread_id,
        p.originating_message_id == s.originating_message_id,
        p.created_at == s.created_at,
        p.modified_at == s.modified_at,
        p.generation@ == generation_text(s.modified_at.micros(), s.last_log_id),
        p.messages@.len() == folded.len(),
{
}

/// The generation of a snapshot modified at `modified_at` whose last log row is `last_log_id`.
pub fn snapshot_generation(modified_at: &UtcTimestamp, last_log_id: &Option<Uuid>) -> (r: String)
    ensures
        r@ == generation_text(modified_at.micros(), *last_log_id),
{
    let mut g = String::new();
    push_all(&mut g, "v1");
    push_all(&mut g, ":");
    push_decimal(&mut g, modified_at.timestamp_micros());
    push_all(&mut g, ":");
    match last_log_id {
        Some(id) => {
            let t = id.to_string();
            push_all(&mut g, t.as_str());
        },
        None => {
            push_all(&mut g, "empty");
        },
    }
    g
}

/// The child document of one folded message.
pub fn project_message(message: FoldedMessage) -> (r: AgentSessionMessageProjection)
    ensures
        projects_message(r, message),
{
    let author = message.author.kind();
    let author_user_id = match message.author {
        Author::User { user_id } => user_id,
        Author::Agent => None,
    };
    AgentSessionMessageProjection {
        turn: message.turn,
        author,
        author_user_id,
        content: message.searchable_text,
    }
}

/// Projects a snapshot onto the messages its log folds into.
pub fn project_snapshot<Log>(
    snapshot: AgentSessionSearchSnapshot<Log>,
    folded: Vec<FoldedMessage>,
) -> (r: AgentSessionSearchProjection)
    ensures
        projects_snapshot(r, snapshot, folded@),
        r.id == snapshot.id,
        r.name@ == snapshot.name@,
        r.owner_id@ == snapshot.owner_id@,
        r.bot_id == snapshot.bot_id,
        r.thread_id == snapshot.thread_id,
        r.originating_message_id == snapshot.originating_message_id,
        r.created_at == snapshot.created_at,
        r.modified_at == snapshot.modified_at,
        r.generation@ == generation_text(snapshot.modified_at.micros(), snapshot.last_log_id),
        r.messages@.len() == folded@.len(),
{
    let generation = snapshot_generation(&snapshot.modified_at, &snapshot.last_log_id);
    let mut messages: Vec<AgentSessionMessageProjection> = Vec::new();
    let ghost all = folded@;
    for message in it: folded
        invariant
            all == it.seq(),
            messages@.len() == it.index(),
            forall|i: int|
                0 <= i < it.index() ==> projects_message(#[trigger] messages@[i], all[i]),
    {
        messages.push(project_message(message));
    }
    AgentSessionSearchProjection {
        id: snapshot.id,
        name: snapshot.name,
        owner_id: snapshot.owner_id,
        bot_id: snapshot.bot_id,
        thread_id: snapshot.thread_id,
        originating_message_id: snapshot.originating_message_id,
        created_at: snapshot.created_at,
        modified_at: snapshot.modified_at,
        generation,
        messages,
    }
}

/// The id of the last stored row, if any.
pub open spec fn last_row_id<Log>(stored: Seq<StoredLogEntry<Log>>) -> Option<Uuid> {
    if stored.len() == 0 {
        None
    } else {
        Some(stored.last().id)
    }
}

/// The snapshot of a persisted session and its stored effective history.
pub fn snapshot_from_rows<Log>(session: AgentSession, stored: Vec<StoredLogEntry<Log>>) -> (r:
    AgentSessionSearchSnapshot<Log>)
    ensures
        r.id == session.id,
        r.name == session.name,
        r.owner_id == session.owner_id,
        r.bot_id == session.bot_id,
        r.thread_id == session.thread_id,
        r.originating_message_id == session.originating_message_id,
        r.created_at == session.created_at,
        r.modified_at == session.modified_at,
        r.log@ == stored@.map_values(|e: StoredLogEntry<Log>| e.entry),
        r.last_log_id == last_row_id(stored@),
{
    let ghost rows = stored@;
    let mut log: Vec<Log> = Vec::new();
    let mut last_log_id: Option<Uuid> = None;
    for row in it: stored
        invariant
            rows == it.seq(),
            log@ == rows.take(it.index() as int).map_values(|e: StoredLogEntry<Log>| e.entry),
            last_log_id == last_row_id(rows.take(it.index() as int)),
    {
        let ghost k = it.index();
        last_log_id = Some(row.id);
        log.push(row.entry);
        proof {
            assert(rows.take(k + 1) =~= rows.take(k as int).push(rows[k as int]));
            assert(rows.take(k + 1).map_values(|e: StoredLogEntry<Log>| e.entry) =~= rows.take(
                k as int,
            ).map_values(|e: StoredLogEntry<Log>| e.entry).push(rows[k as int].entry));
        }
    }
    assert(rows.take(rows.len() as int) =~= rows);
    AgentSessionSearchSnapshot {
        id: session.id,
        name: session.name,
        owner_id: session.owner_id,
        bot_id: session.bot_id,
        thread_id: session.thread_id,
        originating_message_id: session.originating_message_id,
        created_at: session.created_at,
        modified_at: session.modified_at,
        log,
        last_log_id,
    }
}

// ---------------------------------------------------------------------------
// The indexing service
// ---------------------------------------------------------------------------

/// What reconciling a session asks of the search index.
#[derive(Clone, Debug)]
pub enum IndexOperation {
    /// Replace the session's parent and children with this projection.
    Reconcile(AgentSessionSearchProjection),
    /// Remove every document of the session.
    Delete(AgentSessionId),
}

/// Rebuilds agent-session search documents from the persisted source of truth.
#[derive(Debug, Clone)]
pub struct AgentSessionIndexService<Source, Index> {
    source: Source,
    index: Index,
}

impl<Source, Index> AgentSessionIndexService<Source, Index> {
    pub closed spec fn spec_source(self) -> Source {
        self.source
    }

    pub closed spec fn spec_index(self) -> Index {
        self.index
    }

    /// The service over its source and its index.
    pub fn new(source: Source, index: Index) -> (r: AgentSessionIndexService<Source, Index>)
        ensures
            r.spec_source() == source,
            r.spec_index() == index,
    {
        AgentSessionIndexService { source, index }
    }

    /// The authoritative source of sessions.
    pub fn source(&self) -> (r: &Source)
        ensures
            *r == self.spec_source(),
    {
        &self.source
    }

    /// The search index.
    pub fn index(&self) -> (r: &Index)
        ensures
            *r == self.spec_index(),
    {
        &self.index
    }

    /// What to do with session `id` once it has been loaded: a session that no
    /// longer exists has its stale documents removed; one that exists is
    /// replaced by the projection of its snapshot onto its folded log.
    pub fn plan_reconcile<Log>(
        id: AgentSessionId,
        loaded: Option<(AgentSessionSearchSnapshot<Log>, Vec<FoldedMessage>)>,
    ) -> (r: IndexOperation)
        ensures
            loaded is None ==> r == IndexOperation::Delete(id),
            loaded matches Some((s, folded)) ==> r matches IndexOperation::Reconcile(p)
                && projects_snapshot(p, s, folded@),
    {
        match loaded {
            None => IndexOperation::Delete(id),
            Some((snapshot, folded)) => IndexOperation::Reconcile(project_snapshot(snapshot, folded)),
        }
    }
}

// ---------------------------------------------------------------------------
// Search documents
// ---------------------------------------------------------------------------

/// The alias agent-session documents go to unless a physical index is named.
pub open spec fn default_index() -> Seq<char> {
    "agent_sessions"@
}

/// The index documents are written to: the override when one is given (a
/// physical index of a blue/green backfill), otherwise the stable alias.
pub fn resolve_destination<'a>(index_override: Option<&'a str>) -> (r: &'a str)
    ensures
        r@ == match index_override {
            Some(name) => name@,
            None => default_index(),
        },
{
    match index_override {
        Some(name) => name,
        None => "agent_sessions",
    }
}

/// One folded message as stored in a child document.
#[derive(Clone, Debug, PartialEq, Eq)]
pub struct AgentSessionMessageDocument {
    pub turn: u32,
    pub author: String,
    pub author_user_id: Option<String>,
    pub content: String,
}

/// Everything written to replace one session's parent and children.
#[derive(Clone, Debug, PartialEq, Eq)]
pub struct ReconcileAgentSessionArgs {
    pub agent_session_id: String,
    pub name: String,
    pub owner_id: String,
    pub bot_id: String,
    pub thread_id: Option<String>,
    pub originating_message_id: Option<String>,
    pub created_at_millis: i64,
    pub updated_at_millis: i64,
    pub projection_generation: String,
    pub messages: Vec<AgentSessionMessageDocument>,
}

/// The id of the child document of `message` under session `agent_session_id`:
/// `<session>:<turn>:<author>`.
pub open spec fn child_id_text(agent_session_id: Seq<char>, message: AgentSessionMessageDocument) -> Seq<char> {
    agent_session_id + ":"@ + decimal_digits(message.turn as nat) + ":"@ + message.author@
}

/// The id of the child document of `message`.
pub fn child_id(agent_session_id: &str, message: &AgentSessionMessageDocument) -> (r: String)
    ensures
        r@ == child_id_text(agent_session_id@, *message),
{
    let mut r = String::new();
    push_all(&mut r, agent_session_id);
    push_all(&mut r, ":");
    push_decimal_digits(&mut r, message.turn as u128);
    push_all(&mut r, ":");
    push_all(&mut r, message.author.as_str());
    r
}

/// `d` is the document form of child projection `m`.
pub open spec fn documents_message(d: AgentSessionMessageDocument, m: AgentSessionMessageProjection) -> bool {
    &&& d.turn == m.turn
    &&& d.author@ == author_kind_name(m.author)
    &&& view_opt(d.author_user_id) == view_opt(m.author_user_id)
    &&& d.content@ == m.content@
}

/// `a` is the document form of projection `p`: identifiers as text, times in
/// whole milliseconds, and one child per projected message, in order.
pub open spec fn documents_projection(a: ReconcileAgentSessionArgs, p: AgentSessionSearchProjection) -> bool {
    &&& a.agent_session_id@ == uuid_text(p.id.uuid().value())
    &&& a.name@ == p.name@
    &&& a.owner_id@ == p.owner_id@
    &&& a.bot_id@ == uuid_text(p.bot_id.value())
    &&& view_opt(a.thread_id) == uuid_text_opt(p.thread_id)
    &&& view_opt(a.originating_message_id) == uuid_text_opt(p.originating_message_id)
    &&& a.created_at_millis == p.created_at.micros() / 1000
    &&& a.updated_at_millis == p.modified_at.micros() / 1000
    &&& a.projection_generation@ == p.generation@
    &&& a.messages@.len() == p.messages@.len()
    &&& forall|i: int|
        0 <= i < p.messages@.len() ==> documents_message(#[trigger] a.messages@[i], p.messages@[i])
}

/// Writes folded agent-session projections to the search store through `Client`.
#[derive(Debug, Clone)]
pub struct OpenSearchAgentSessionIndex<Client> {
    client: Arc<Client>,
}

impl<Client> OpenSearchAgentSessionIndex<Client> {
    pub closed spec fn spec_client(self) -> Arc<Client> {
        self.client
    }

    /// The index adapter over `client`.
    pub fn new(client: Arc<Client>) -> (r: OpenSearchAgentSessionIndex<Client>)
        ensures
            r.spec_client() == client,
    {
        OpenSearchAgentSessionIndex { client }
    }

    /// The search-store client.
    pub fn client(&self) -> (r: &Arc<Client>)
        ensures
            *r == self.spec_client(),
    {
        &self.client
    }

    /// The document form of a projection, with its times in whole
    /// milliseconds. Whether the search store accepts those times is decided
    /// by `reconcile_write`.
    pub fn reconcile_args(projection: AgentSessionSearchProjection) -> (r: ReconcileAgentSessionArgs)
        ensures
            documents_projection(r, projection),
            r.agent_session_id@ == uuid_text(projection.id.uuid().value()),
            r.name@ == projection.name@,
            r.owner_id@ == projection.owner_id@,
            r.bot_id@ == uuid_text(projection.bot_id.value()),
            view_opt(r.thread_id) == uuid_text_opt(projection.thread_id),
            view_opt(r.originating_message_id) == uuid_text_opt(projection.originating_message_id),
            r.created_at_millis == projection.created_at.micros() / 1000,
            r.updated_at_millis == projection.modified_at.micros() / 1000,
            r.projection_generation@ == projection.generation@,
            r.messages@.len() == projection.messages@.len(),
    {
        let created_at_millis = projection.created_at.timestamp_millis();
        let updated_at_millis = projection.modified_at.timestamp_millis();
        let agent_session_id = projection.id.to_string();
        let bot_id = projection.bot_id.to_string();
        let thread_id = uuid_to_string_opt(&projection.thread_id);
        let originating_message_id = uuid_to_string_opt(&projection.originating_message_id);
        let ghost projected = projection.messages@;
        let mut messages: Vec<AgentSessionMessageDocument> = Vec::new();
        for message in it: projection.messages
            invariant
                projected == it.seq(),
                messages@.len() == it.index(),
                forall|i: int|
                    0 <= i < it.index() ==> documents_message(#[trigger] messages@[i], projected[i]),
        {
            messages.push(
                AgentSessionMessageDocument {
                    turn: message.turn,
                    author: message.author.as_str().to_owned(),
                    author_user_id: message.author_user_id,
                    content: message.content,
                },
            );
        }
        ReconcileAgentSessionArgs {
            agent_session_id,
            name: projection.name,
            owner_id: projection.owner_id,
            bot_id,
            thread_id,
            originating_message_id,
            created_at_millis,
            updated_at_millis,
            projection_generation: projection.generation,
            messages,
        }
    }
}

/// The documents written for a projected snapshot belong to that snapshot:
/// the parent carries the session's id, name, owner, bot, thread and
/// originating message as text, its creation time and its modification time
/// as whole epoch milliseconds, and the snapshot's generation; and the
/// children are exactly the folded messages, in order, each with its turn,
/// author side, attributed user and searchable text, and no other content of
/// the log.
pub proof fn lemma_documents_follow_snapshot<Log>(
    args: ReconcileAgentSessionArgs,
    projection: AgentSessionSearchProjection,
    snapshot: AgentSessionSearchSnapshot<Log>,
    folded: Seq<FoldedMessage>,
)
    requires
        projects_snapshot(projection, snapshot, folded),
        documents_projection(args, projection),
    ensures
        args.agent_session_id@ == uuid_text(snapshot.id.uuid().value()),
        args.name@ == snapshot.name@,
        args.owner_id@ == snapshot.owner_id@,
        args.bot_id@ == uuid_text(snapshot.bot_id.value()),
        view_opt(args.thread_id) == uuid_text_opt(snapshot.thread_id),
        view_opt(args.originating_message_id) == uuid_text_opt(snapshot.originating_message_id),
        args.created_at_millis == snapshot.created_at.micros() / 1000,
        args.updated_at_millis == snapshot.modified_at.micros() / 1000,
        args.projection_generation@ == generation_text(
            snapshot.modified_at.micros(),
            snapshot.last_log_id,
        ),
        args.messages@.len() == folded.len(),
        forall|i: int|
            0 <= i < folded.len() ==> {
                &&& (#[trigger] args.messages@[i]).turn == folded[i].turn
                &&& args.messages@[i].author@ == author_kind_name(author_kind(folded[i].author))
                &&& view_opt(args.messages@[i].author_user_id) == author_user(folded[i].author)
                &&& args.messages@[i].content@ == folded[i].searchable_text@
            },
{
    assert forall|i: int| 0 <= i < folded.len() implies {
        &&& (#[trigger] args.messages@[i]).turn == folded[i].turn
        &&& args.messages@[i].author@ == author_kind_name(author_kind(folded[i].author))
        &&& view_opt(args.messages@[i].author_user_id) == author_user(folded[i].author)
        &&& args.messages@[i].content@ == folded[i].searchable_text@
    } by {
        assert(projects_message(projection.messages@[i], folded[i]));
        assert(documents_message(args.messages@[i], projection.messages@[i]));
    }
}

/// Every child document id begins with its session's id and a colon, so the
/// children of one session are told apart from those of any other.
pub proof fn lemma_child_id_names_session(agent_session_id: Seq<char>, message: AgentSessionMessageDocument)
    ensures
        child_id_text(agent_session_id, message).subrange(0, agent_session_id.len() as int)
            == agent_session_id,
        child_id_text(agent_session_id, message)[agent_session_id.len() as int] == ':',
{
    reveal_strlit(":");
    assert(child_id_text(agent_session_id, message).subrange(0, agent_session_id.len() as int)
        =~= agent_session_id);
}

/// A projection time that the search store refuses as epoch milliseconds.
#[derive(Clone, Copy, Debug, PartialEq, Eq, Structural)]
pub enum RejectedTime {
    CreatedAt,
    UpdatedAt,
}

impl<Client> OpenSearchAgentSessionIndex<Client> {
    /// The write for `projection`, given whether the search store accepts
    /// its creation time and its update time as epoch milliseconds (the
    /// whole milliseconds of each): refused, so that nothing is written, when
    /// either is not accepted, the creation time being judged first;
    /// otherwise the document form of the projection.
    pub fn reconcile_write(
        projection: AgentSessionSearchProjection,
        created_at_accepted: bool,
        updated_at_accepted: bool,
    ) -> (r: Result<ReconcileAgentSessionArgs, RejectedTime>)
        ensures
            !created_at_accepted ==> (r matches Err(e) && e == RejectedTime::CreatedAt),
            created_at_accepted && !updated_at_accepted ==> (r matches Err(e) && e
                == RejectedTime::UpdatedAt),
            created_at_accepted && updated_at_accepted ==> (r matches Ok(args)
                && documents_projection(args, projection)),
    {
        if !created_at_accepted {
            return Err(RejectedTime::CreatedAt);
        }
        if !updated_at_accepted {
            return Err(RejectedTime::UpdatedAt);
        }
        Ok(Self::reconcile_args(projection))
    }
}

} // verus!
