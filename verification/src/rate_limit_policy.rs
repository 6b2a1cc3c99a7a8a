//! Dynamic rate-limit policies: the tier key of a route, the order in which
//! stored policies are looked up, and the policy a stored row yields.

use vstd::prelude::*;
use crate::contract::RateLimitTier;
use crate::security_events::without_underscores;
use crate::text::ascii_lower;

verus! {

/// The stored tier key of a route's rate-limit tier.
pub open spec fn tier_key_of(tier: Option<RateLimitTier>) -> Seq<char> {
    match tier {
        Some(RateLimitTier::AuthCritical) => "auth_critical"@,
        Some(RateLimitTier::OpenApiDefault) => "open_api_default"@,
        None => "default"@,
    }
}

pub fn rate_limit_tier_key(tier: Option<RateLimitTier>) -> (key: &'static str)
    ensures
        key@ == tier_key_of(tier),
{
    match tier {
        Some(RateLimitTier::AuthCritical) => "auth_critical",
        Some(RateLimitTier::OpenApiDefault) => "open_api_default",
        None => "default",
    }
}

/// What a rate-limit policy lookup is keyed by.
#[derive(Clone, Debug)]
pub struct RateLimitPolicyContext {
    pub tenant_id: Option<String>,
    /// The environment label (for example `prod`).
    pub environment: String,
    pub rate_limit_tier: Option<RateLimitTier>,
    pub operation_id: Option<String>,
}

/// The tenant under which policies are stored; `0` is the platform-wide scope.
pub open spec fn tenant_scope_of(tenant_id: Option<String>) -> Seq<char> {
    match tenant_id {
        Some(t) if t@.len() > 0 => t@,
        _ => "0"@,
    }
}

impl RateLimitPolicyContext {
    pub fn tier_key(&self) -> (key: &'static str)
        ensures
            key@ == tier_key_of(self.rate_limit_tier),
    {
        rate_limit_tier_key(self.rate_limit_tier)
    }

    pub fn tenant_scope(&self) -> (scope: &str)
        ensures
            scope@ == tenant_scope_of(self.tenant_id),
    {
        match &self.tenant_id {
            Some(t) => if t.as_str().is_empty() {
                "0"
            } else {
                t.as_str()
            },
            None => "0",
        }
    }

    pub fn environment_label(&self) -> (label: &str)
        ensures
            label@ == self.environment@,
    {
        self.environment.as_str()
    }
}

/// A stored policy row.
#[derive(Clone, Copy, Debug)]
pub struct RateLimitPolicyRow {
    pub max_requests: i64,
    pub window_secs: i64,
    pub enabled: i64,
}

/// An effective rate-limit policy.
#[derive(Clone, Copy, Debug, PartialEq, Eq, Structural)]
pub struct ResolvedRateLimitPolicy {
    pub max_requests: u32,
    pub window_secs: u64,
}

/// The (tenant, tier) pairs looked up, most specific first: the tenant's
/// policy for the tier, the tenant's default, the platform policy for the
/// tier, the platform default.
pub open spec fn policy_candidates(tenant: Seq<char>, tier_key: Seq<char>) -> Seq<
    (Seq<char>, Seq<char>),
> {
    seq![(tenant, tier_key), (tenant, "default"@), ("0"@, tier_key), ("0"@, "default"@)]
}

pub fn rate_limit_policy_candidates(tenant: &str, tier_key: &str) -> (candidates: Vec<
    (String, String),
>)
    ensures
        candidates@.len() == 4,
        forall|i: int|
            0 <= i < 4 ==> (#[trigger] candidates@[i].0@, candidates@[i].1@) == policy_candidates(
                tenant@,
                tier_key@,
            )[i],
{
    let mut candidates: Vec<(String, String)> = Vec::new();
    candidates.push((tenant.to_owned(), tier_key.to_owned()));
    candidates.push((tenant.to_owned(), "default".to_owned()));
    candidates.push(("0".to_owned(), tier_key.to_owned()));
    candidates.push(("0".to_owned(), "default".to_owned()));
    candidates
}

/// The policy a stored row yields: a disabled row allows nothing; the window
/// is at least one second; a negative limit counts as zero.
pub open spec fn policy_of_row(row: RateLimitPolicyRow) -> ResolvedRateLimitPolicy {
    let window: i64 = if row.window_secs < 1 {
        1
    } else {
        row.window_secs
    };
    if row.enabled == 0 {
        ResolvedRateLimitPolicy { max_requests: 0, window_secs: window as u64 }
    } else {
        let max: i64 = if row.max_requests < 0 {
            0
        } else {
            row.max_requests
        };
        ResolvedRateLimitPolicy { max_requests: max as u32, window_secs: window as u64 }
    }
}

pub fn policy_from_row(row: &RateLimitPolicyRow) -> (policy: ResolvedRateLimitPolicy)
    ensures
        policy == policy_of_row(*row),
{
    let window: i64 = if row.window_secs < 1 {
        1
    } else {
        row.window_secs
    };
    if row.enabled == 0 {
        return ResolvedRateLimitPolicy { max_requests: 0, window_secs: window as u64 };
    }
    let max: i64 = if row.max_requests < 0 {
        0
    } else {
        row.max_requests
    };
    ResolvedRateLimitPolicy { max_requests: max as u32, window_secs: window as u64 }
}

/// One step of the lookup: the answer, or the next candidate to look up.
#[derive(Clone, Copy, Debug, PartialEq, Eq, Structural)]
pub enum PolicyLookupStep {
    Resolved(Option<ResolvedRateLimitPolicy>),
    LookUp(usize),
}

/// Decides after candidate `index` was looked up: a stored row settles the
/// policy; a miss moves to the next candidate, and after the last one there
/// is no policy.
pub fn policy_lookup_step(index: usize, row: Option<RateLimitPolicyRow>) -> (step:
    PolicyLookupStep)
    requires
        index < 4,
    ensures
        step == match row {
            Some(r) => PolicyLookupStep::Resolved(Some(policy_of_row(r))),
            None => if index + 1 < 4 {
                PolicyLookupStep::LookUp((index + 1) as usize)
            } else {
                PolicyLookupStep::Resolved(None)
            },
        },
{
    match row {
        Some(r) => PolicyLookupStep::Resolved(Some(policy_from_row(&r))),
        None => if index + 1 < 4 {
            PolicyLookupStep::LookUp(index + 1)
        } else {
            PolicyLookupStep::Resolved(None)
        },
    }
}

/// The policy of the first candidate that has a stored row, given the
/// lookup answers of the candidates from `index` on.
pub open spec fn first_stored_policy(rows: Seq<Option<RateLimitPolicyRow>>, index: int) -> Option<
    ResolvedRateLimitPolicy,
>
    decreases rows.len() - index,
{
    if index >= rows.len() || index < 0 {
        None
    } else {
        match rows[index] {
            Some(r) => Some(policy_of_row(r)),
            None => first_stored_policy(rows, index + 1),
        }
    }
}

/// Following the lookup steps from the first candidate ends with the policy
/// of the most specific candidate that is stored.
pub open spec fn steps_result(rows: Seq<Option<RateLimitPolicyRow>>, index: int) -> Option<
    ResolvedRateLimitPolicy,
>
    decreases 4 - index,
{
    if index < 0 || index >= 4 {
        None
    } else {
        match rows[index] {
            Some(r) => Some(policy_of_row(r)),
            None => if index + 1 < 4 {
                steps_result(rows, index + 1)
            } else {
                None
            },
        }
    }
}

/// Following the steps over the four candidates gives the most specific
/// stored policy: a tenant's tier policy beats its default, which beats the
/// platform's tier policy, which beats the platform default.
pub proof fn lemma_lookup_steps_pick_most_specific(rows: Seq<Option<RateLimitPolicyRow>>, index: int)
    requires
        rows.len() == 4,
        0 <= index <= 4,
    ensures
        steps_result(rows, index) == first_stored_policy(rows, index),
    decreases 4 - index,
{
    if index < 4 {
        lemma_lookup_steps_pick_most_specific(rows, index + 1);
    }
}

/// A stored policy row yields: no requests when it is disabled, its limit
/// (negative read as zero) otherwise, and a window of at least one second.
pub proof fn lemma_policy_row_meaning(row: RateLimitPolicyRow)
    requires
        row.max_requests <= u32::MAX,
    ensures
        row.enabled == 0 ==> policy_of_row(row).max_requests == 0,
        row.enabled != 0 && row.max_requests >= 0 ==> policy_of_row(row).max_requests
            == row.max_requests,
        row.enabled != 0 && row.max_requests < 0 ==> policy_of_row(row).max_requests == 0,
        row.window_secs >= 1 ==> policy_of_row(row).window_secs == row.window_secs,
        row.window_secs < 1 ==> policy_of_row(row).window_secs == 1,
{
}

/// The lookup order: the tenant's policy for the tier, the tenant's
/// default, the platform (`0`) policy for the tier, the platform default.
pub proof fn lemma_candidate_order(tenant: Seq<char>, tier_key: Seq<char>)
    ensures
        policy_candidates(tenant, tier_key).len() == 4,
        policy_candidates(tenant, tier_key)[0] == (tenant, tier_key),
        policy_candidates(tenant, tier_key)[1] == (tenant, "default"@),
        policy_candidates(tenant, tier_key)[2] == ("0"@, tier_key),
        policy_candidates(tenant, tier_key)[3] == ("0"@, "default"@),
{
}

/// The name of a rate-limit tier, as written in its declaration.
pub open spec fn tier_name(tier: RateLimitTier) -> Seq<char> {
    match tier {
        RateLimitTier::AuthCritical => "AuthCritical"@,
        RateLimitTier::OpenApiDefault => "OpenApiDefault"@,
    }
}

/// A route's tier is stored under its name in snake case (the key, without
/// underscores, is the tier's name in lower case); a route without a tier
/// uses `default`.
pub proof fn lemma_tier_key_names_its_tier(tier: Option<RateLimitTier>)
    ensures
        tier is None ==> tier_key_of(tier) == "default"@,
        tier matches Some(t) ==> without_underscores(tier_key_of(tier)) == tier_name(t).map_values(
            |c: char| ascii_lower(c),
        ),
{
    reveal_strlit("auth_critical");
    reveal_strlit("AuthCritical");
    reveal_strlit("open_api_default");
    reveal_strlit("OpenApiDefault");
    reveal_with_fuel(without_underscores, 18);
    match tier {
        Some(RateLimitTier::AuthCritical) => {
            assert(without_underscores(tier_key_of(tier)) =~= tier_name(
                RateLimitTier::AuthCritical,
            ).map_values(|c: char| ascii_lower(c)));
        },
        Some(RateLimitTier::OpenApiDefault) => {
            assert(without_underscores(tier_key_of(tier)) =~= tier_name(
                RateLimitTier::OpenApiDefault,
            ).map_values(|c: char| ascii_lower(c)));
        },
        None => {},
    }
}

} // verus!
