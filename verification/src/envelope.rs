//! The envelope every published event travels in.
use vstd::prelude::*;

use crate::ids::Uuid;

verus! {

/// An event envelope: a fresh event id, the payload's schema version and the payload.
#[derive(Clone, Debug, PartialEq, Eq)]
pub struct Event<T> {
    pub event_id: Uuid,
    pub schema_version: u8,
    pub event: T,
}

impl<T> Event<T> {
    /// Wraps `event` under a fresh version-7 event id.
    pub fn new(event: T, schema_version: u8) -> (r: Event<T>)
        ensures
            (r.event_id.value() >> 76u128) & 0xfu128 == 7,
            r.event == event,
            r.schema_version == schema_version,
    {
        Event { event_id: Uuid::now_v7(), schema_version, event }
    }

    /// Wraps `event` under the given event id.
    pub fn with_event_id(event_id: Uuid, event: T, schema_version: u8) -> (r: Event<T>)
        ensures
            r.event_id == event_id,
            r.event == event,
            r.schema_version == schema_version,
    {
        Event { event_id, schema_version, event }
    }
}

} // verus!
