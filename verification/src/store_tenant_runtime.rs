//! The per-tenant runtime profile that a stored row yields.

use vstd::prelude::*;

verus! {

/// Per-tenant overrides of runtime limits; `None` keeps the default.
#[derive(Clone, Copy, Debug, PartialEq, Eq, Structural)]
pub struct TenantRuntimeProfile {
    pub rate_limit_enabled: Option<bool>,
    pub max_content_length: Option<u64>,
    pub max_concurrent_requests: Option<u32>,
}

/// A stored profile row, with nullable integer columns.
#[derive(Clone, Copy, Debug, PartialEq, Eq, Structural)]
pub struct TenantRuntimeProfileRow {
    pub rate_limit_enabled: Option<i64>,
    pub max_content_length: Option<i64>,
    pub max_concurrent_requests: Option<i64>,
}

pub open spec fn clamp_non_negative(v: i64) -> int {
    if v < 0 {
        0
    } else {
        v as int
    }
}

/// The profile of a row: a flag is on when non-zero; a negative limit counts
/// as zero; a concurrency limit beyond `u32` is dropped.
pub open spec fn profile_of_row(row: TenantRuntimeProfileRow) -> TenantRuntimeProfile {
    TenantRuntimeProfile {
        rate_limit_enabled: match row.rate_limit_enabled {
            Some(v) => Some(v != 0),
            None => None,
        },
        max_content_length: match row.max_content_length {
            Some(v) => Some(clamp_non_negative(v) as u64),
            None => None,
        },
        max_concurrent_requests: match row.max_concurrent_requests {
            Some(v) => if clamp_non_negative(v) <= u32::MAX {
                Some(clamp_non_negative(v) as u32)
            } else {
                None
            },
            None => None,
        },
    }
}

pub fn tenant_runtime_profile_from_row(row: &TenantRuntimeProfileRow) -> (profile:
    TenantRuntimeProfile)
    ensures
        profile == profile_of_row(*row),
{
    let rate_limit_enabled = match row.rate_limit_enabled {
        Some(v) => Some(v != 0),
        None => None,
    };
    let max_content_length = match row.max_content_length {
        Some(v) => Some(if v < 0 {
            0u64
        } else {
            v as u64
        }),
        None => None,
    };
    let max_concurrent_requests = match row.max_concurrent_requests {
        Some(v) => if v < 0 {
            Some(0u32)
        } else if v <= u32::MAX as i64 {
            Some(v as u32)
        } else {
            None
        },
        None => None,
    };
    TenantRuntimeProfile { rate_limit_enabled, max_content_length, max_concurrent_requests }
}

/// What a stored profile row means: a flag is on when non-zero; a negative
/// limit reads as zero; a concurrency limit above `u32::MAX` is dropped; a
/// missing column keeps the default.
pub proof fn lemma_profile_row_meaning(row: TenantRuntimeProfileRow)
    ensures
        row.rate_limit_enabled matches Some(v) ==> profile_of_row(row).rate_limit_enabled == Some(
            v != 0,
        ),
        row.rate_limit_enabled is None ==> profile_of_row(row).rate_limit_enabled is None,
        row.max_content_length matches Some(v) ==> profile_of_row(row).max_content_length == Some(
            if v < 0 {
                0u64
            } else {
                v as u64
            },
        ),
        row.max_content_length is None ==> profile_of_row(row).max_content_length is None,
        row.max_concurrent_requests matches Some(v) ==> (if v < 0 {
            profile_of_row(row).max_concurrent_requests == Some(0u32)
        } else if v <= u32::MAX {
            profile_of_row(row).max_concurrent_requests == Some(v as u32)
        } else {
            profile_of_row(row).max_concurrent_requests is None
        }),
        row.max_concurrent_requests is None ==> profile_of_row(row).max_concurrent_requests is None,
{
}

} // verus!
