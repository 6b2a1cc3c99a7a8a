//! The CORS policy that a stored row yields.

use vstd::prelude::*;
use vstd::string::StringExecFns;
use crate::error::{WebFrameworkError, WebFrameworkErrorKind};

verus! {

/// A CORS policy.
#[derive(Clone, Debug)]
pub struct CorsPolicy {
    pub allow_all_origins: bool,
    pub allowed_origins: Vec<String>,
    pub allowed_methods: Vec<String>,
    pub allowed_headers: Vec<String>,
    pub allow_credentials: bool,
}

/// A stored CORS policy row: flags as integers, origins as a JSON array.
#[derive(Clone, Debug)]
pub struct CorsPolicyRow {
    pub allow_all_origins: i64,
    pub allowed_origins: String,
    pub allow_credentials: i64,
}

pub open spec fn texts(list: Seq<String>) -> Seq<Seq<char>> {
    list.map_values(|s: String| s@)
}

/// The list of strings that `serde_json::from_str::<Vec<String>>` reads from
/// `text`, or `None` when it rejects the text.
pub uninterp spec fn json_string_array(text: Seq<char>) -> Option<Seq<Seq<char>>>;

/// Calls `serde_json::from_str::<Vec<String>>`. Trusted: it succeeds exactly
/// when the name `json_string_array` has a list for the text, and then gives
/// that list. The error text (serde_json's `Display` of its error) is not
/// stated.
#[verifier::external_body]
fn parse_json_string_array(text: &str) -> (r: Result<Vec<String>, String>)
    ensures
        r is Ok <==> json_string_array(text@) is Some,
        r matches Ok(list) ==> texts(list@) == json_string_array(text@)->0,
{
    match serde_json::from_str::<Vec<String>>(text) {
        Ok(list) => Ok(list),
        Err(error) => Err(error.to_string()),
    }
}

pub open spec fn decode_error_prefix() -> Seq<char> {
    "sqlx cors policy decode error: "@
}

/// Builds the policy of a stored row: the flags are set when non-zero, the
/// origins are the decoded JSON list, and methods and headers are those of
/// `defaults`. A row whose origins are not a JSON list of strings is a
/// dependency failure.
pub fn cors_policy_from_row(row: &CorsPolicyRow, defaults: &CorsPolicy) -> (r: Result<
    CorsPolicy,
    WebFrameworkError,
>)
    ensures
        r is Ok <==> json_string_array(row.allowed_origins@) is Some,
        r matches Ok(p) ==> {
            &&& p.allow_all_origins == (row.allow_all_origins != 0)
            &&& p.allow_credentials == (row.allow_credentials != 0)
            &&& texts(p.allowed_origins@) == json_string_array(row.allowed_origins@)->0
            &&& p.allowed_methods@ == defaults.allowed_methods@
            &&& p.allowed_headers@ == defaults.allowed_headers@
        },
        r matches Err(e) ==> e.kind == WebFrameworkErrorKind::DependencyUnavailable
            && e.message@.len() >= decode_error_prefix().len() && e.message@.subrange(
            0,
            decode_error_prefix().len() as int,
        ) == decode_error_prefix(),
{
    let allowed_origins = match parse_json_string_array(row.allowed_origins.as_str()) {
        Ok(list) => list,
        Err(reason) => {
            let mut message = "sqlx cors policy decode error: ".to_owned();
            let ghost prefix = message@;
            message.append(reason.as_str());
            assert(message@.subrange(0, prefix.len() as int) =~= prefix);
            return Err(
                WebFrameworkError {
                    kind: WebFrameworkErrorKind::DependencyUnavailable,
                    message,
                    retry_after_seconds: None,
                },
            );
        },
    };
    let allowed_methods = defaults.allowed_methods.clone();
    let allowed_headers = defaults.allowed_headers.clone();
    assert(allowed_methods@ =~= defaults.allowed_methods@);
    assert(allowed_headers@ =~= defaults.allowed_headers@);
    Ok(
        CorsPolicy {
            allow_all_origins: row.allow_all_origins != 0,
            allowed_origins,
            allowed_methods,
            allowed_headers,
            allow_credentials: row.allow_credentials != 0,
        },
    )
}

} // verus!
