//! The agent-session domain records that the events and the search
//! projection are built from.
use vstd::prelude::*;

use crate::ids::{AgentSessionId, Uuid};

verus! {

/// An instant, held as whole microseconds since the Unix epoch (rounded down).
#[derive(Clone, Copy, Debug, PartialEq, Eq, Structural, Hash)]
pub struct UtcTimestamp {
    micros: i64,
}

impl UtcTimestamp {
    pub closed spec fn micros(self) -> int {
        self.micros as int
    }

    /// The instant `micros` microseconds after the epoch.
    pub fn from_micros(micros: i64) -> (r: UtcTimestamp)
        ensures
            r.micros() == micros,
    {
        UtcTimestamp { micros }
    }

    /// Whole microseconds since the epoch, rounded down.
    pub fn timestamp_micros(&self) -> (r: i64)
        ensures
            r == self.micros(),
    {
        self.micros
    }

    /// Whole milliseconds since the epoch, rounded down.
    pub fn timestamp_millis(&self) -> (r: i64)
        ensures
            r == self.micros() / 1000,
    {
        let m = self.micros as i128;
        let q: i128 = if m >= 0 {
            m / 1000
        } else {
            -((-m + 999) / 1000)
        };
        assert(q == m / 1000) by (nonlinear_arith)
            requires
                q == (if m >= 0 {
                    m / 1000
                } else {
                    -((-m + 999) / 1000)
                }),
        ;
        q as i64
    }
}

/// A session's status: no messages yet, the wire name of the last system
/// event, or disconnected.
#[derive(Clone, Debug, PartialEq, Eq)]
pub enum SessionStatus {
    NoMessages,
    Event(String),
    Disconnected,
}

/// The coarse state column a status is stored under.
pub open spec fn status_column(status: SessionStatus) -> Seq<char> {
    match status {
        SessionStatus::NoMessages => "no_messages"@,
        SessionStatus::Event(_) => "event"@,
        SessionStatus::Disconnected => "disconnected"@,
    }
}

impl SessionStatus {
    /// The coarse state: `no_messages`, `event` or `disconnected`.
    pub fn as_str(&self) -> (r: &'static str)
        ensures
            r@ == status_column(*self),
    {
        match self {
            SessionStatus::NoMessages => "no_messages",
            SessionStatus::Event(_) => "event",
            SessionStatus::Disconnected => "disconnected",
        }
    }
}

/// A persisted agent session, as far as lifecycle events and search read it.
#[derive(Clone, Debug)]
pub struct AgentSession {
    pub id: AgentSessionId,
    pub owner_id: String,
    pub bot_id: Uuid,
    pub name: String,
    pub thread_id: Option<Uuid>,
    pub originating_message_id: Option<Uuid>,
    pub created_at: UtcTimestamp,
    pub modified_at: UtcTimestamp,
}

} // verus!
