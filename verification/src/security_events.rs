//! Security events and the labels under which they are stored.

use vstd::prelude::*;
use crate::text::ascii_lower;

verus! {

#[derive(Clone, Copy, Debug, PartialEq, Eq, Structural)]
pub enum SecurityEventKind {
    CorsDenied,
    RateLimitExceeded,
    AuthenticationFailed,
    AuthorizationDenied,
    TenantIsolationDenied,
}

pub open spec fn security_event_label(kind: SecurityEventKind) -> Seq<char> {
    match kind {
        SecurityEventKind::CorsDenied => "cors_denied"@,
        SecurityEventKind::RateLimitExceeded => "rate_limit_exceeded"@,
        SecurityEventKind::AuthenticationFailed => "authentication_failed"@,
        SecurityEventKind::AuthorizationDenied => "authorization_denied"@,
        SecurityEventKind::TenantIsolationDenied => "tenant_isolation_denied"@,
    }
}

/// The `kind` column value of a stored security event.
pub fn security_event_kind_label(kind: &SecurityEventKind) -> (label: &'static str)
    ensures
        label@ == security_event_label(*kind),
{
    match kind {
        SecurityEventKind::CorsDenied => "cors_denied",
        SecurityEventKind::RateLimitExceeded => "rate_limit_exceeded",
        SecurityEventKind::AuthenticationFailed => "authentication_failed",
        SecurityEventKind::AuthorizationDenied => "authorization_denied",
        SecurityEventKind::TenantIsolationDenied => "tenant_isolation_denied",
    }
}

/// Distinct kinds are stored under distinct labels, so a stored label names
/// its kind.
pub proof fn lemma_security_event_labels_distinct(a: SecurityEventKind, b: SecurityEventKind)
    requires
        a != b,
    ensures
        security_event_label(a) != security_event_label(b),
{
    reveal_strlit("cors_denied");
    reveal_strlit("rate_limit_exceeded");
    reveal_strlit("authentication_failed");
    reveal_strlit("authorization_denied");
    reveal_strlit("tenant_isolation_denied");
    assert(security_event_label(a).len() != security_event_label(b).len());
}

pub open spec fn without_underscores(s: Seq<char>) -> Seq<char>
    decreases s.len(),
{
    if s.len() == 0 {
        s
    } else if s.last() == '_' {
        without_underscores(s.drop_last())
    } else {
        without_underscores(s.drop_last()).push(s.last())
    }
}

/// The name of a security event kind, as written in its declaration.
pub open spec fn security_event_kind_name(kind: SecurityEventKind) -> Seq<char> {
    match kind {
        SecurityEventKind::CorsDenied => "CorsDenied"@,
        SecurityEventKind::RateLimitExceeded => "RateLimitExceeded"@,
        SecurityEventKind::AuthenticationFailed => "AuthenticationFailed"@,
        SecurityEventKind::AuthorizationDenied => "AuthorizationDenied"@,
        SecurityEventKind::TenantIsolationDenied => "TenantIsolationDenied"@,
    }
}

pub open spec fn label_names_kind(kind: SecurityEventKind) -> bool {
    without_underscores(security_event_label(kind)) == security_event_kind_name(kind).map_values(
        |c: char| ascii_lower(c),
    )
}

proof fn lemma_label_of_cors_denied()
    ensures
        label_names_kind(SecurityEventKind::CorsDenied),
{
    reveal_strlit("cors_denied");
    reveal_strlit("CorsDenied");
    reveal_with_fuel(without_underscores, 13);
    assert(without_underscores(security_event_label(SecurityEventKind::CorsDenied)) =~= security_event_kind_name(
        SecurityEventKind::CorsDenied,
    ).map_values(|c: char| ascii_lower(c)));
}

proof fn lemma_label_of_rate_limit_exceeded()
    ensures
        label_names_kind(SecurityEventKind::RateLimitExceeded),
{
    reveal_strlit("rate_limit_exceeded");
    reveal_strlit("RateLimitExceeded");
    reveal_with_fuel(without_underscores, 21);
    assert(without_underscores(security_event_label(SecurityEventKind::RateLimitExceeded)) =~= security_event_kind_name(
        SecurityEventKind::RateLimitExceeded,
    ).map_values(|c: char| ascii_lower(c)));
}

proof fn lemma_label_of_authentication_failed()
    ensures
        label_names_kind(SecurityEventKind::AuthenticationFailed),
{
    reveal_strlit("authentication_failed");
    reveal_strlit("AuthenticationFailed");
    reveal_with_fuel(without_underscores, 23);
    assert(without_underscores(security_event_label(SecurityEventKind::AuthenticationFailed)) =~= security_event_kind_name(
        SecurityEventKind::AuthenticationFailed,
    ).map_values(|c: char| ascii_lower(c)));
}

proof fn lemma_label_of_authorization_denied()
    ensures
        label_names_kind(SecurityEventKind::AuthorizationDenied),
{
    reveal_strlit("authorization_denied");
    reveal_strlit("AuthorizationDenied");
    reveal_with_fuel(without_underscores, 22);
    assert(without_underscores(security_event_label(SecurityEventKind::AuthorizationDenied)) =~= security_event_kind_name(
        SecurityEventKind::AuthorizationDenied,
    ).map_values(|c: char| ascii_lower(c)));
}

proof fn lemma_label_of_tenant_isolation_denied()
    ensures
        label_names_kind(SecurityEventKind::TenantIsolationDenied),
{
    reveal_strlit("tenant_isolation_denied");
    reveal_strlit("TenantIsolationDenied");
    reveal_with_fuel(without_underscores, 25);
    assert(without_underscores(security_event_label(SecurityEventKind::TenantIsolationDenied)) =~= security_event_kind_name(
        SecurityEventKind::TenantIsolationDenied,
    ).map_values(|c: char| ascii_lower(c)));
}

/// Each kind is stored under its own name in snake case: the label, with its
/// underscores removed, is the kind's name in lower case.
pub proof fn lemma_security_label_names_its_kind(kind: SecurityEventKind)
    ensures
        without_underscores(security_event_label(kind)) == security_event_kind_name(kind).map_values(
            |c: char| ascii_lower(c),
        ),
{
    match kind {
        SecurityEventKind::CorsDenied => lemma_label_of_cors_denied(),
        SecurityEventKind::RateLimitExceeded => lemma_label_of_rate_limit_exceeded(),
        SecurityEventKind::AuthenticationFailed => lemma_label_of_authentication_failed(),
        SecurityEventKind::AuthorizationDenied => lemma_label_of_authorization_denied(),
        SecurityEventKind::TenantIsolationDenied => lemma_label_of_tenant_isolation_denied(),
    }
}

} // verus!
