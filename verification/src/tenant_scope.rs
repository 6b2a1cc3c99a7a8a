//! Tenant scope enforcement for the framework control-plane handlers.
//!
//! A caller sees its own tenant's rows; only the platform-read permission
//! lets it name another tenant or list every tenant's audit events.

use vstd::prelude::*;
use vstd::string::StringExecFns;
use crate::error::{WebFrameworkError, WebFrameworkErrorKind, WebFrameworkErrorView};
use crate::request_context::{WebRequestContext, missing_tenant_error, missing_app_error};

verus! {

pub const PERM_TENANT_ADMIN: &'static str = "web-framework.tenant.admin";

pub const PERM_PLATFORM_READ: &'static str = "web-framework.platform.read";

pub const PERM_CONTROL_PLANE: &'static str = "web-framework.control-plane";

/// A client-facing rejection of a control-plane request.
#[derive(Clone, Debug)]
pub struct ApiProblem {
    pub kind: WebFrameworkErrorKind,
    pub detail: String,
}

pub struct ApiProblemView {
    pub kind: WebFrameworkErrorKind,
    pub detail: Seq<char>,
}

impl View for ApiProblem {
    type V = ApiProblemView;

    open spec fn view(&self) -> ApiProblemView {
        ApiProblemView { kind: self.kind, detail: self.detail@ }
    }
}

pub open spec fn problem(kind: WebFrameworkErrorKind, detail: Seq<char>) -> ApiProblemView {
    ApiProblemView { kind, detail }
}

/// The problem that reports a framework error: same kind, its message as detail.
pub open spec fn framework_problem(e: WebFrameworkErrorView) -> ApiProblemView {
    ApiProblemView { kind: e.kind, detail: e.message }
}

impl ApiProblem {
    pub fn forbidden(detail: &str) -> (p: Self)
        ensures
            p@ == problem(WebFrameworkErrorKind::Forbidden, detail@),
    {
        ApiProblem { kind: WebFrameworkErrorKind::Forbidden, detail: detail.to_owned() }
    }

    pub fn bad_request(detail: &str) -> (p: Self)
        ensures
            p@ == problem(WebFrameworkErrorKind::BadRequest, detail@),
    {
        ApiProblem { kind: WebFrameworkErrorKind::BadRequest, detail: detail.to_owned() }
    }

    pub fn from_web_framework(error: WebFrameworkError) -> (p: Self)
        ensures
            p@ == framework_problem(error@),
    {
        ApiProblem { kind: error.kind, detail: error.message }
    }
}

/// Audit list scope — tenant admins never receive cross-tenant or NULL tenant rows.
#[derive(Debug, Clone, PartialEq, Eq)]
pub enum AuditEventListScope {
    Tenant(String),
    PlatformTenant(String),
    PlatformAll,
}

pub enum AuditScopeView {
    Tenant(Seq<char>),
    PlatformTenant(Seq<char>),
    PlatformAll,
}

impl View for AuditEventListScope {
    type V = AuditScopeView;

    open spec fn view(&self) -> AuditScopeView {
        match self {
            AuditEventListScope::Tenant(t) => AuditScopeView::Tenant(t@),
            AuditEventListScope::PlatformTenant(t) => AuditScopeView::PlatformTenant(t@),
            AuditEventListScope::PlatformAll => AuditScopeView::PlatformAll,
        }
    }
}

/// The tenant named by a query parameter; an empty value names none.
pub open spec fn requested_tenant(query_tenant_id: Option<&str>) -> Option<Seq<char>> {
    match query_tenant_id {
        Some(q) => if q@.len() > 0 {
            Some(q@)
        } else {
            None
        },
        None => None,
    }
}

pub open spec fn missing_permission_detail(permission: Seq<char>) -> Seq<char> {
    "missing required permission: "@ + permission
}

pub open spec fn query_mismatch_detail() -> Seq<char> {
    "tenant_id query parameter does not match authenticated tenant"@
}

pub open spec fn body_mismatch_detail() -> Seq<char> {
    "request tenant_id does not match authenticated tenant"@
}

pub open spec fn empty_body_tenant_detail() -> Seq<char> {
    "tenant_id must not be empty"@
}

/// What `require_control_plane` answers.
pub open spec fn control_plane_outcome(ctx: WebRequestContext) -> Result<(), ApiProblemView> {
    if ctx.grants(PERM_CONTROL_PLANE@) {
        Ok(())
    } else {
        Err(problem(WebFrameworkErrorKind::Forbidden, missing_permission_detail(PERM_CONTROL_PLANE@)))
    }
}

/// What `resolve_list_tenant_id` answers.
pub open spec fn list_tenant_outcome(ctx: WebRequestContext, query_tenant_id: Option<&str>) -> Result<
    Seq<char>,
    ApiProblemView,
> {
    if ctx.grants(PERM_PLATFORM_READ@) {
        match requested_tenant(query_tenant_id) {
            Some(requested) => Ok(requested),
            None => match ctx.tenant() {
                Some(t) => Ok(t),
                None => Err(framework_problem(missing_tenant_error())),
            },
        }
    } else {
        match ctx.tenant() {
            None => Err(framework_problem(missing_tenant_error())),
            Some(t) => match requested_tenant(query_tenant_id) {
                Some(requested) if requested != t => Err(
                    problem(WebFrameworkErrorKind::Forbidden, query_mismatch_detail()),
                ),
                _ => Ok(t),
            },
        }
    }
}

/// Every character of `s` is Unicode white space, so that trimming leaves nothing.
pub open spec fn is_blank(s: Seq<char>) -> bool {
    forall|i: int| 0 <= i < s.len() ==> is_unicode_white_space(#[trigger] s[i])
}

/// The Unicode `White_Space` property, which `char::is_whitespace` and
/// `str::trim` follow.
pub open spec fn is_unicode_white_space(c: char) -> bool {
    ('\u{9}' <= c <= '\u{d}') || c == ' ' || c == '\u{85}' || c == '\u{a0}' || c == '\u{1680}'
        || ('\u{2000}' <= c <= '\u{200a}') || c == '\u{2028}' || c == '\u{2029}' || c
        == '\u{202f}' || c == '\u{205f}' || c == '\u{3000}'
}

/// What `require_upsert_tenant_id` answers.
pub open spec fn upsert_tenant_outcome(ctx: WebRequestContext, body_tenant_id: Seq<char>) -> Result<
    (),
    ApiProblemView,
> {
    if is_blank(body_tenant_id) {
        Err(problem(WebFrameworkErrorKind::BadRequest, empty_body_tenant_detail()))
    } else if ctx.grants(PERM_PLATFORM_READ@) {
        Ok(())
    } else {
        match ctx.tenant() {
            None => Err(framework_problem(missing_tenant_error())),
            Some(t) => if body_tenant_id != t {
                Err(problem(WebFrameworkErrorKind::Forbidden, body_mismatch_detail()))
            } else {
                Ok(())
            },
        }
    }
}

/// What `require_tenant_admin` answers.
pub open spec fn tenant_admin_outcome(ctx: WebRequestContext) -> Result<(), ApiProblemView> {
    if ctx.tenant() is None {
        Err(framework_problem(missing_tenant_error()))
    } else if ctx.app() is None {
        Err(framework_problem(missing_app_error()))
    } else if ctx.grants(PERM_TENANT_ADMIN@) {
        Ok(())
    } else {
        Err(problem(WebFrameworkErrorKind::Forbidden, missing_permission_detail(PERM_TENANT_ADMIN@)))
    }
}

/// What `resolve_audit_event_list_scope` answers.
pub open spec fn audit_scope_outcome(ctx: WebRequestContext, query_tenant_id: Option<&str>) -> Result<
    AuditScopeView,
    ApiProblemView,
> {
    match tenant_admin_outcome(ctx) {
        Err(p) => Err(p),
        Ok(_) => if ctx.grants(PERM_PLATFORM_READ@) {
            match requested_tenant(query_tenant_id) {
                Some(requested) => Ok(AuditScopeView::PlatformTenant(requested)),
                None => Ok(AuditScopeView::PlatformAll),
            }
        } else {
            let t = ctx.tenant()->0;
            match requested_tenant(query_tenant_id) {
                Some(requested) if requested != t => Err(
                    problem(WebFrameworkErrorKind::Forbidden, query_mismatch_detail()),
                ),
                _ => Ok(AuditScopeView::Tenant(t)),
            }
        },
    }
}

fn missing_permission_problem(permission: &str) -> (p: ApiProblem)
    ensures
        p@ == problem(WebFrameworkErrorKind::Forbidden, missing_permission_detail(permission@)),
{
    let mut detail = "missing required permission: ".to_owned();
    detail.append(permission);
    ApiProblem { kind: WebFrameworkErrorKind::Forbidden, detail }
}

/// The query tenant, when one is given and non-empty.
fn non_empty(query_tenant_id: Option<&str>) -> (r: Option<&str>)
    ensures
        match r {
            Some(s) => requested_tenant(query_tenant_id) == Some(s@),
            None => requested_tenant(query_tenant_id) is None,
        },
{
    match query_tenant_id {
        Some(q) => if q.is_empty() {
            None
        } else {
            Some(q)
        },
        None => None,
    }
}

fn str_equal(a: &str, b: &str) -> (r: bool)
    ensures
        r == (a@ == b@),
{
    a.to_owned() == b.to_owned()
}

pub fn is_unicode_whitespace(c: char) -> (r: bool)
    ensures
        r == is_unicode_white_space(c),
{
    ('\u{9}' <= c && c <= '\u{d}') || c == ' ' || c == '\u{85}' || c == '\u{a0}' || c
        == '\u{1680}' || ('\u{2000}' <= c && c <= '\u{200a}') || c == '\u{2028}' || c
        == '\u{2029}' || c == '\u{202f}' || c == '\u{205f}' || c == '\u{3000}'
}

/// Whether trimming white space off `s` leaves it empty.
pub fn trims_to_empty(s: &str) -> (r: bool)
    ensures
        r == is_blank(s@),
{
    let n = s.unicode_len();
    let mut i: usize = 0;
    while i < n
        invariant
            n == s@.len(),
            0 <= i <= n,
            forall|j: int| 0 <= j < i ==> is_unicode_white_space(#[trigger] s@[j]),
        decreases n - i,
    {
        let c = s.get_char(i);
        if !is_unicode_whitespace(c) {
            assert(!is_unicode_white_space(s@[i as int]));
            return false;
        }
        i = i + 1;
    }
    true
}

pub fn require_control_plane(ctx: &WebRequestContext) -> (r: Result<(), ApiProblem>)
    ensures
        match r {
            Ok(_) => control_plane_outcome(*ctx) == Ok::<(), ApiProblemView>(()),
            Err(p) => control_plane_outcome(*ctx) == Err::<(), ApiProblemView>(p@),
        },
{
    if ctx.has_permission(PERM_CONTROL_PLANE) {
        return Ok(());
    }
    Err(missing_permission_problem(PERM_CONTROL_PLANE))
}

/// Resolves the tenant id for list queries — scoped to the authenticated
/// tenant unless platform read is granted.
pub fn resolve_list_tenant_id(ctx: &WebRequestContext, query_tenant_id: Option<&str>) -> (r: Result<
    String,
    ApiProblem,
>)
    ensures
        match r {
            Ok(t) => list_tenant_outcome(*ctx, query_tenant_id) == Ok::<Seq<char>, ApiProblemView>(
                t@,
            ),
            Err(p) => list_tenant_outcome(*ctx, query_tenant_id) == Err::<
                Seq<char>,
                ApiProblemView,
            >(p@),
        },
{
    if ctx.has_permission(PERM_PLATFORM_READ) {
        if let Some(requested) = non_empty(query_tenant_id) {
            return Ok(requested.to_owned());
        }
        return match ctx.require_tenant_id() {
            Ok(t) => Ok(t.to_owned()),
            Err(e) => Err(ApiProblem::from_web_framework(e)),
        };
    }
    let tenant = match ctx.require_tenant_id() {
        Ok(t) => t,
        Err(e) => return Err(ApiProblem::from_web_framework(e)),
    };
    if let Some(requested) = non_empty(query_tenant_id) {
        if !str_equal(requested, tenant) {
            return Err(
                ApiProblem::forbidden(
                    "tenant_id query parameter does not match authenticated tenant",
                ),
            );
        }
    }
    Ok(tenant.to_owned())
}

pub fn require_upsert_tenant_id(ctx: &WebRequestContext, body_tenant_id: &str) -> (r: Result<
    (),
    ApiProblem,
>)
    ensures
        match r {
            Ok(_) => upsert_tenant_outcome(*ctx, body_tenant_id@) == Ok::<(), ApiProblemView>(()),
            Err(p) => upsert_tenant_outcome(*ctx, body_tenant_id@) == Err::<(), ApiProblemView>(
                p@,
            ),
        },
{
    if trims_to_empty(body_tenant_id) {
        return Err(ApiProblem::bad_request("tenant_id must not be empty"));
    }
    if ctx.has_permission(PERM_PLATFORM_READ) {
        return Ok(());
    }
    let tenant = match ctx.require_tenant_id() {
        Ok(t) => t,
        Err(e) => return Err(ApiProblem::from_web_framework(e)),
    };
    if !str_equal(body_tenant_id, tenant) {
        return Err(ApiProblem::forbidden("request tenant_id does not match authenticated tenant"));
    }
    Ok(())
}

pub fn require_tenant_admin(ctx: &WebRequestContext) -> (r: Result<(), ApiProblem>)
    ensures
        match r {
            Ok(_) => tenant_admin_outcome(*ctx) == Ok::<(), ApiProblemView>(()),
            Err(p) => tenant_admin_outcome(*ctx) == Err::<(), ApiProblemView>(p@),
        },
{
    if let Err(e) = ctx.require_tenant_id() {
        return Err(ApiProblem::from_web_framework(e));
    }
    if let Err(e) = ctx.require_app_id() {
        return Err(ApiProblem::from_web_framework(e));
    }
    if ctx.has_permission(PERM_TENANT_ADMIN) {
        return Ok(());
    }
    Err(missing_permission_problem(PERM_TENANT_ADMIN))
}

pub fn resolve_audit_event_list_scope(
    ctx: &WebRequestContext,
    query_tenant_id: Option<&str>,
) -> (r: Result<AuditEventListScope, ApiProblem>)
    ensures
        match r {
            Ok(s) => audit_scope_outcome(*ctx, query_tenant_id) == Ok::<
                AuditScopeView,
                ApiProblemView,
            >(s@),
            Err(p) => audit_scope_outcome(*ctx, query_tenant_id) == Err::<
                AuditScopeView,
                ApiProblemView,
            >(p@),
        },
{
    if let Err(p) = require_tenant_admin(ctx) {
        return Err(p);
    }
    if ctx.has_permission(PERM_PLATFORM_READ) {
        if let Some(requested) = non_empty(query_tenant_id) {
            return Ok(AuditEventListScope::PlatformTenant(requested.to_owned()));
        }
        return Ok(AuditEventListScope::PlatformAll);
    }
    let tenant = match ctx.require_tenant_id() {
        Ok(t) => t,
        Err(e) => return Err(ApiProblem::from_web_framework(e)),
    };
    if let Some(requested) = non_empty(query_tenant_id) {
        if !str_equal(requested, tenant) {
            return Err(
                ApiProblem::forbidden(
                    "tenant_id query parameter does not match authenticated tenant",
                ),
            );
        }
    }
    Ok(AuditEventListScope::Tenant(tenant.to_owned()))
}

/// Without the platform-read permission a list query is answered with the
/// authenticated tenant and no other.
pub proof fn lemma_list_scoped_to_own_tenant(ctx: WebRequestContext, query_tenant_id: Option<&str>)
    requires
        !ctx.grants(PERM_PLATFORM_READ@),
    ensures
        list_tenant_outcome(ctx, query_tenant_id) matches Ok(t) ==> ctx.tenant() == Some(t),
{
}

/// Naming one's own tenant in a list query gives the same answer as naming
/// none; for the audit scope this holds without platform read (with it, the
/// named tenant narrows the platform-wide scope).
pub proof fn lemma_own_tenant_query_is_neutral(ctx: WebRequestContext, query_tenant_id: &str)
    requires
        ctx.tenant() == Some(query_tenant_id@),
    ensures
        list_tenant_outcome(ctx, Some(query_tenant_id)) == list_tenant_outcome(ctx, None),
        !ctx.grants(PERM_PLATFORM_READ@) ==> audit_scope_outcome(ctx, Some(query_tenant_id))
            == audit_scope_outcome(ctx, None),
{
}

/// Without platform read, an upsert is accepted only for the authenticated tenant.
pub proof fn lemma_upsert_bound_to_own_tenant(ctx: WebRequestContext, body_tenant_id: Seq<char>)
    requires
        !ctx.grants(PERM_PLATFORM_READ@),
    ensures
        upsert_tenant_outcome(ctx, body_tenant_id) is Ok ==> ctx.tenant() == Some(body_tenant_id),
{
}

/// Tenant admins never receive cross-tenant or tenant-less audit rows: without
/// platform read the only scope granted is the caller's own tenant.
pub proof fn lemma_audit_scope_of_tenant_admin(ctx: WebRequestContext, query_tenant_id: Option<&str>)
    requires
        !ctx.grants(PERM_PLATFORM_READ@),
    ensures
        audit_scope_outcome(ctx, query_tenant_id) matches Ok(scope) ==> (ctx.tenant() is Some
            && scope == AuditScopeView::Tenant(ctx.tenant()->0)),
{
}

/// Any audit scope at all is granted only to a tenant admin with a tenant and an app.
pub proof fn lemma_audit_scope_requires_tenant_admin(
    ctx: WebRequestContext,
    query_tenant_id: Option<&str>,
)
    ensures
        audit_scope_outcome(ctx, query_tenant_id) is Ok ==> (ctx.grants(PERM_TENANT_ADMIN@)
            && ctx.tenant() is Some && ctx.app() is Some),
{
}

/// With platform read, a non-empty tenant named in a list query is listed,
/// whoever the caller is; an empty or missing one falls back to the caller's
/// tenant.
pub proof fn lemma_platform_read_lists_named_tenant(ctx: WebRequestContext, query_tenant_id: &str)
    requires
        ctx.grants(PERM_PLATFORM_READ@),
    ensures
        query_tenant_id@.len() > 0 ==> list_tenant_outcome(ctx, Some(query_tenant_id)) == Ok::<
            Seq<char>,
            ApiProblemView,
        >(query_tenant_id@),
        query_tenant_id@.len() == 0 ==> list_tenant_outcome(ctx, Some(query_tenant_id))
            == list_tenant_outcome(ctx, None),
        ctx.tenant() matches Some(t) ==> list_tenant_outcome(ctx, None) == Ok::<
            Seq<char>,
            ApiProblemView,
        >(t),
{
}

/// Without platform read, a query naming another tenant is refused as
/// forbidden, and the caller's own tenant is listed otherwise.
pub proof fn lemma_other_tenant_query_forbidden(ctx: WebRequestContext, query_tenant_id: &str)
    requires
        !ctx.grants(PERM_PLATFORM_READ@),
        ctx.tenant() is Some,
    ensures
        query_tenant_id@.len() > 0 && query_tenant_id@ != ctx.tenant()->0 ==> list_tenant_outcome(
            ctx,
            Some(query_tenant_id),
        ) == Err::<Seq<char>, ApiProblemView>(
            problem(
                WebFrameworkErrorKind::Forbidden,
                "tenant_id query parameter does not match authenticated tenant"@,
            ),
        ),
        list_tenant_outcome(ctx, None) == Ok::<Seq<char>, ApiProblemView>(ctx.tenant()->0),
{
}

/// The control plane is open exactly to callers holding its permission.
pub proof fn lemma_control_plane_needs_permission(ctx: WebRequestContext)
    ensures
        control_plane_outcome(ctx) is Ok <==> ctx.grants("web-framework.control-plane"@),
        !ctx.grants("web-framework.control-plane"@) ==> control_plane_outcome(ctx) == Err::<
            (),
            ApiProblemView,
        >(
            problem(
                WebFrameworkErrorKind::Forbidden,
                "missing required permission: "@ + "web-framework.control-plane"@,
            ),
        ),
{
}

/// A blank body tenant (empty, or only white space) is a bad request for
/// every caller, before any permission is looked at.
pub proof fn lemma_blank_upsert_tenant_is_bad_request(ctx: WebRequestContext, body_tenant_id: Seq<char>)
    requires
        forall|i: int|
            0 <= i < body_tenant_id.len() ==> #[trigger] body_tenant_id[i] == ' '
                || body_tenant_id[i] == '\t' || body_tenant_id[i] == '\n' || body_tenant_id[i]
                == '\r',
    ensures
        upsert_tenant_outcome(ctx, body_tenant_id) == Err::<(), ApiProblemView>(
            problem(WebFrameworkErrorKind::BadRequest, "tenant_id must not be empty"@),
        ),
{
}

} // verus!
