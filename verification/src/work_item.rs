//! Queued reconciliation work for agent sessions.
use vstd::prelude::*;

use crate::ids::{uuid_parse, AgentSessionId, Uuid};

verus! {

/// A queued request to reconcile an agent session from its authoritative log.
#[derive(Clone, Debug, PartialEq, Eq)]
pub struct AgentSession {
    /// The session whose folded projection should be rebuilt.
    pub agent_session_id: String,
    /// The physical index of a blue/green backfill, if any.
    pub index_override: Option<String>,
}

/// A work item whose session id is not a UUID.
#[derive(Clone, Copy, Debug, PartialEq, Eq, Structural)]
pub struct InvalidAgentSessionId;

impl InvalidAgentSessionId {
    /// The error's message.
    pub fn message(&self) -> (r: &'static str)
        ensures
            r@ == "invalid agent session id"@,
    {
        "invalid agent session id"
    }
}

/// The session a queued work item names.
pub fn parse_agent_session_id(agent_session_id: &str) -> (r: Result<AgentSessionId, InvalidAgentSessionId>)
    ensures
        r is Ok <==> uuid_parse(agent_session_id@) is Some,
        r matches Ok(id) ==> uuid_parse(agent_session_id@) == Some(id.uuid().value()),
{
    match Uuid::parse_str(agent_session_id) {
        Some(uuid) => Ok(AgentSessionId::new_from_uuid(uuid)),
        None => Err(InvalidAgentSessionId),
    }
}

} // verus!
