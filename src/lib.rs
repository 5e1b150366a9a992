//! Decisions of a service that provisions per-tenant workspaces on a
//! multi-tenant store and keeps cross-tenant workflows consistent by reacting
//! to the store's change notifications.
//!
//! - `feed`: change notifications.
//! - `event`: the lifecycle of a tenant's scheduled events; `lifecycle` states
//!   what holds of it across notifications, restarts and timer firings.
//! - `user` and `identity`: tenant identities and how joins follow them.
//! - `projects`: the orchestrator's reactions and the provisioning of tenants.
//! - `statement`: the statement batches sent to the store.

pub mod event;
pub mod feed;
pub mod identity;
pub mod lifecycle;
pub mod projects;
pub mod statement;
pub mod user;
