//! Event-sourced control-plane core for a multi-tenant fabric.
//!
//! The library admits tenants (namespaces), issues and verifies API-key
//! credentials, registers opaque tenant-owned resources, and keeps a
//! double-entry usage/accounting ledger.  Commands validate business
//! invariants against the ledger store and emit facts through an in-process
//! publish/subscribe dispatcher; projections apply those facts back onto the
//! store.

pub mod auth;
pub mod authtokens;
pub mod bytes;
pub mod domain;
pub mod event_dispatch;
pub mod events;
pub mod fabric_state;
pub mod ids;
pub mod rektor;
pub mod rpc;
