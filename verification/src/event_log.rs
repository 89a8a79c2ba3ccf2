//! The event log: append-only records of chat lifecycle actions. The library
//! only builds and appends records; delivering them to an external sink is
//! the caller's concern and never influences an operation's outcome.

use vstd::prelude::*;
use vstd::string::StringExecFns;

use crate::types::ChatEventLog;

verus! {

/// The append-only record store handed to each chat operation.
pub struct EventLog {
    pub records: Vec<ChatEventLog>,
}

/// The view of an optional salesperson identifier handed in by reference.
pub open spec fn opt_id_view(o: Option<&str>) -> Option<Seq<char>> {
    match o {
        Some(s) => Some(s@),
        None => None,
    }
}

/// The record's fields, compared by view.
pub open spec fn event_fields(
    e: ChatEventLog,
    event_type: Seq<char>,
    session_id: u128,
    office_id: Seq<char>,
    salesperson_id: Option<Seq<char>>,
    timestamp: i64,
    details: Seq<char>,
) -> bool {
    &&& e.event_type@ == event_type
    &&& e.session_id == session_id
    &&& e.office_id@ == office_id
    &&& e.salesperson_id.deep_view() == salesperson_id
    &&& e.timestamp == timestamp
    &&& e.details@ == details
}

/// One record with the given fields was appended; everything already logged
/// is untouched.
pub open spec fn log_appended(
    pre: EventLog,
    post: EventLog,
    event_type: Seq<char>,
    session_id: u128,
    office_id: Seq<char>,
    salesperson_id: Option<Seq<char>>,
    timestamp: i64,
    details: Seq<char>,
) -> bool {
    &&& post.records@.len() == pre.records@.len() + 1
    &&& forall|j: int| 0 <= j < pre.records@.len() ==> post.records@[j] == pre.records@[j]
    &&& event_fields(
        post.records@.last(),
        event_type,
        session_id,
        office_id,
        salesperson_id,
        timestamp,
        details,
    )
}

impl EventLog {
    /// An empty log.
    pub fn new() -> (r: Self)
        ensures
            r.records@.len() == 0,
    {
        EventLog { records: Vec::new() }
    }
}

impl Default for EventLog {
    fn default() -> (r: Self)
        ensures
            r.records@.len() == 0,
    {
        EventLog { records: Vec::new() }
    }
}

/// Build a structured record of a chat lifecycle action and append it to the
/// log.
pub fn log_chat_event(
    log: &mut EventLog,
    event_type: &str,
    session_id: u128,
    office_id: &str,
    salesperson_id: Option<&str>,
    timestamp: i64,
    details: &str,
)
    ensures
        log_appended(
            *old(log),
            *final(log),
            event_type@,
            session_id,
            office_id@,
            opt_id_view(salesperson_id),
            timestamp,
            details@,
        ),
{
    let sp: Option<String> = match salesperson_id {
        Some(s) => Some(String::from_str(s)),
        None => None,
    };
    let event = ChatEventLog {
        event_type: String::from_str(event_type),
        session_id,
        office_id: String::from_str(office_id),
        salesperson_id: sp,
        timestamp,
        details: String::from_str(details),
    };
    log.records.push(event);
}

} // verus!
