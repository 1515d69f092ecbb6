//! A per-user conversational session engine.
//!
//! Conversation steps ("contexts") emit effects; the engine resolves hand-offs
//! between steps into a flat list of deliverable effects, keeps one session per
//! user, and evicts sessions that stayed idle for too long.
//!
//! On top of it stand the parts of a password-keeping bot: records and their
//! encryption, the storage interfaces, the conversation steps, and the
//! whitelist of users.
pub mod book;
pub mod cipher;
pub mod controller;
pub mod dialogues;
pub mod dispatch;
pub mod record;
pub mod repositories;
pub mod resolver;
pub mod steps;
pub mod storage;
pub mod ttl;
pub mod whitelist;
