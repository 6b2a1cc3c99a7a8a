//! Request-contract rules of the SDKWork web framework: route descriptors,
//! tenant scoping of control-plane requests, idempotency fingerprints and
//! replay, Problem+JSON helpers, and the decisions that the SQL-backed
//! stores take on the rows they read.

pub mod contract;
pub mod dto;
pub mod error;
pub mod hashing;
pub mod idempotency;
pub mod paths;
pub mod problem;
pub mod rate_limit_policy;
pub mod request_context;
pub mod security_events;
pub mod store_cors_policy;
pub mod store_idempotency;
pub mod store_purge;
pub mod store_rate_limit;
pub mod store_tenant_runtime;
pub mod tenant_scope;
pub mod text;
