//! A small company-website core: a static directory of offices and
//! salespeople, an in-memory table of live chat sessions, and the operations
//! that start a chat (matching a customer to the first available salesperson
//! of a chosen office), end a chat, and list the offices, each guarded by a
//! feature flag and each recorded in an append-only event log.

pub mod chat;
pub mod directory;
pub mod event_log;
pub mod homepage;
pub mod session;
pub mod types;
