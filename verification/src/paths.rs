//! Canonical paths of the framework control-plane backend-api.

use vstd::prelude::*;

verus! {

pub const API_PREFIX: &'static str = "/backend/v3/api/web-framework";

pub const CORS_POLICIES_PATH: &'static str = "/backend/v3/api/web-framework/cors-policies";

pub const RATE_LIMIT_POLICIES_PATH: &'static str = "/backend/v3/api/web-framework/rate-limit-policies";

pub const TENANT_RUNTIME_PROFILES_PATH: &'static str =
    "/backend/v3/api/web-framework/tenant-runtime-profiles";

pub const SECURITY_EVENTS_PATH: &'static str = "/backend/v3/api/web-framework/security-events";

pub const AUDIT_EVENTS_PATH: &'static str = "/backend/v3/api/web-framework/audit-events";

pub const CONTROL_NODES_PATH: &'static str = "/backend/v3/api/web-framework/control-nodes";

pub const CONTROL_NODE_BY_ID_PATH: &'static str =
    "/backend/v3/api/web-framework/control-nodes/{node_id}";

pub const CONTROL_NODE_HEARTBEAT_PATH: &'static str =
    "/backend/v3/api/web-framework/control-nodes/{node_id}/heartbeat";

pub const RUNTIME_DEFAULTS_PATH: &'static str = "/backend/v3/api/web-framework/runtime-defaults";

pub const OPTIONAL_FEATURES_PATH: &'static str = "/backend/v3/api/web-framework/optional-features";

} // verus!
