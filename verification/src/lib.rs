//! Synchronization backend core: last-write-wins reconciliation for encrypted
//! diary entries, todo items and period records, a content-addressed image
//! store, and the credential gate that guards every operation.
//!
//! The engine is modelled as an in-memory keyed table store with
//! upsert-on-conflict semantics; the surrounding process keeps the durable
//! store and the transport and hands plain values in and out.

pub mod auth;
pub mod dates;
pub mod db;
pub mod delta;
pub mod laws;
pub mod models;
pub mod server;
pub mod store;
pub mod table;
