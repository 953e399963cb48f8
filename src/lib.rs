//! Multi-tenant entity store with an append-only, per-kind audit trail.
//!
//! The store is an in-memory document store that every operation takes as an
//! explicit argument rather than reaching for ambient state. Each business operation
//! mutates an entity and then appends a log record to the partition that the
//! entity kind routes to; a failed log write never undoes the mutation.
pub mod response;
pub mod ids;
pub mod audit_log;
pub mod diff;
pub mod store;
pub mod tenant;
pub mod location;
pub mod user;
pub mod tenant_routes;
pub mod location_routes;
pub mod user_routes;
pub mod audit_routes;
