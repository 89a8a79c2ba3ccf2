//! The data model: offices, salespeople, chat sessions, event records, and
//! the request/response shapes of the chat operations.

use vstd::prelude::*;

verus! {

/// Lifecycle state of a chat session. A session is created `Connected` or
/// `Waiting` and can only move to `Ended`; `Pending` and `Failed` are part of
/// the model but no stored session ever carries them (a session that fails
/// validation is never stored).
#[derive(Clone, Copy, Debug, PartialEq, Eq, Structural)]
pub enum ChatStatus {
    Pending,
    Connected,
    Waiting,
    Ended,
    Failed,
}

/// An error of a chat operation.
#[derive(Clone, Copy, Debug, PartialEq, Eq, Structural)]
pub enum ChatError {
    /// The chat feature is switched off in the configuration.
    FeatureDisabled,
    /// The requested office identifier matches no office.
    UnknownOffice,
    /// The session identifier matches no stored session.
    SessionNotFound,
}

/// A physical office that owns zero or more salespeople. The
/// `available_salespeople` list is informational display data; availability
/// is decided by each `Salesperson`'s own flag.
pub struct Office {
    pub id: String,
    pub name: String,
    pub location: String,
    pub available_salespeople: Vec<String>,
}

/// Field-wise equality of two offices (the string fields by value, the
/// display list by its sequence of entries).
pub open spec fn office_eq(a: Office, b: Office) -> bool {
    &&& a.id == b.id
    &&& a.name == b.name
    &&& a.location == b.location
    &&& a.available_salespeople@ == b.available_salespeople@
}

impl Clone for Office {
    fn clone(&self) -> (r: Self)
        ensures
            office_eq(r, *self),
    {
        let r = Office {
            id: self.id.clone(),
            name: self.name.clone(),
            location: self.location.clone(),
            available_salespeople: self.available_salespeople.clone(),
        };
        proof {
            assert(r.available_salespeople@ =~= self.available_salespeople@);
        }
        r
    }
}

/// An agent who can be matched to a customer chat. `is_available` is set
/// when the catalog is seeded and never toggled afterwards: a matched
/// salesperson stays available and an ended chat frees nobody up. That is a
/// known limitation of the matching rule, kept deliberately.
pub struct Salesperson {
    pub id: String,
    pub name: String,
    pub title: String,
    pub office_id: String,
    pub is_available: bool,
    pub quote: String,
}

impl Clone for Salesperson {
    fn clone(&self) -> (r: Self)
        ensures
            r == *self,
    {
        Salesperson {
            id: self.id.clone(),
            name: self.name.clone(),
            title: self.title.clone(),
            office_id: self.office_id.clone(),
            is_available: self.is_available,
            quote: self.quote.clone(),
        }
    }
}

/// One message inside a session. Structurally present in the model, but no
/// operation in this core ever appends one.
pub struct ChatMessage {
    pub id: u128,
    pub sender: String,
    pub content: String,
    pub timestamp: i64,
}

/// One customer-to-salesperson interaction record, keyed by `id`.
/// Timestamps are milliseconds since the Unix epoch.
pub struct ChatSession {
    pub id: u128,
    pub customer_id: Option<String>,
    pub office_id: String,
    pub salesperson_id: Option<String>,
    pub status: ChatStatus,
    pub started_at: i64,
    pub ended_at: Option<i64>,
    pub messages: Vec<ChatMessage>,
}

/// One append-only record of a chat lifecycle action.
pub struct ChatEventLog {
    pub event_type: String,
    pub session_id: u128,
    pub office_id: String,
    pub salesperson_id: Option<String>,
    pub timestamp: i64,
    pub details: String,
}

/// Process-level configuration, read once at startup.
#[derive(Clone, Copy, Debug)]
pub struct ChatConfig {
    pub feature_enabled: bool,
    pub admin_mode: bool,
}

/// The body of a request to start a chat.
pub struct ChatStartRequest {
    pub office_id: String,
    pub customer_name: Option<String>,
}

/// The successful answer to a request to start a chat.
pub struct ChatStartResponse {
    pub session_id: u128,
    pub status: String,
    pub message: String,
    pub salesperson: Option<Salesperson>,
}

/// A roster entry shown on the homepage; display data only.
pub struct Employee {
    pub name: String,
    pub title: String,
    pub department: String,
    pub years_service: u8,
    pub photo: String,
    pub quote: String,
}

/// A news entry shown on the homepage; display data only.
pub struct NewsItem {
    pub title: String,
    pub content: String,
    pub date: String,
    pub author: String,
}

} // verus!
