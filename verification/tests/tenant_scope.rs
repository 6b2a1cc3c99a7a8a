use sdkwork_web::error::WebFrameworkErrorKind;
use sdkwork_web::request_context::{WebRequestContext, WebRequestPrincipal};
use sdkwork_web::tenant_scope::{
    require_control_plane, require_tenant_admin, require_upsert_tenant_id,
    resolve_audit_event_list_scope, resolve_list_tenant_id, AuditEventListScope,
};

fn ctx_with_permissions(permissions: &[&str]) -> WebRequestContext {
    WebRequestContext {
        principal: Some(WebRequestPrincipal {
            tenant_id: "tenant-test".to_owned(),
            app_id: "appbase".to_owned(),
            permission_scope: permissions.iter().map(|value| (*value).to_owned()).collect(),
        }),
    }
}

#[test]
fn tenant_admin_scope_excludes_platform_all() {
    let ctx = ctx_with_permissions(&["web-framework.tenant.admin"]);
    let scope = resolve_audit_event_list_scope(&ctx, None).expect("scope");
    assert_eq!(AuditEventListScope::Tenant("tenant-test".to_owned()), scope);
}

#[test]
fn platform_read_scope_allows_all_rows() {
    let ctx = ctx_with_permissions(&["web-framework.tenant.admin", "web-framework.platform.read"]);
    let scope = resolve_audit_event_list_scope(&ctx, None).expect("scope");
    assert_eq!(AuditEventListScope::PlatformAll, scope);
}

#[test]
fn platform_read_allows_cross_tenant_upsert() {
    let ctx = ctx_with_permissions(&["web-framework.tenant.admin", "web-framework.platform.read"]);
    require_upsert_tenant_id(&ctx, "tenant-other").expect("platform upsert");
}

#[test]
fn tenant_admin_rejects_cross_tenant_upsert() {
    let ctx = ctx_with_permissions(&["web-framework.tenant.admin"]);
    assert!(require_upsert_tenant_id(&ctx, "tenant-other").is_err());
}

#[test]
fn tenant_admin_rejects_cross_tenant_list_query() {
    let ctx = ctx_with_permissions(&["web-framework.tenant.admin"]);
    assert!(resolve_list_tenant_id(&ctx, Some("tenant-other")).is_err());
}

#[test]
fn platform_read_scopes_audit_list_to_requested_tenant() {
    let ctx = ctx_with_permissions(&["web-framework.tenant.admin", "web-framework.platform.read"]);
    let scope = resolve_audit_event_list_scope(&ctx, Some("tenant-other")).expect("scope");
    assert_eq!(AuditEventListScope::PlatformTenant("tenant-other".to_owned()), scope);
}

// ---- further cases ----

#[test]
fn list_query_defaults_to_authenticated_tenant() {
    let ctx = ctx_with_permissions(&["web-framework.tenant.admin"]);
    assert_eq!("tenant-test", resolve_list_tenant_id(&ctx, None).unwrap());
    assert_eq!("tenant-test", resolve_list_tenant_id(&ctx, Some("")).unwrap());
    assert_eq!("tenant-test", resolve_list_tenant_id(&ctx, Some("tenant-test")).unwrap());
}

#[test]
fn list_query_mismatch_is_forbidden_with_detail() {
    let ctx = ctx_with_permissions(&[]);
    let problem = resolve_list_tenant_id(&ctx, Some("tenant-other")).unwrap_err();
    assert_eq!(WebFrameworkErrorKind::Forbidden, problem.kind);
    assert_eq!("tenant_id query parameter does not match authenticated tenant", problem.detail);
}

#[test]
fn platform_read_lists_requested_tenant() {
    let ctx = ctx_with_permissions(&["web-framework.platform.read"]);
    assert_eq!("tenant-other", resolve_list_tenant_id(&ctx, Some("tenant-other")).unwrap());
    assert_eq!("tenant-test", resolve_list_tenant_id(&ctx, None).unwrap());
}

#[test]
fn anonymous_context_has_no_tenant() {
    let ctx = WebRequestContext { principal: None };
    let problem = resolve_list_tenant_id(&ctx, Some("tenant-other")).unwrap_err();
    assert_eq!(WebFrameworkErrorKind::ContextNotInjected, problem.kind);
    assert_eq!("tenant_id is required", problem.detail);
}

#[test]
fn blank_upsert_tenant_is_bad_request() {
    let ctx = ctx_with_permissions(&["web-framework.platform.read"]);
    let problem = require_upsert_tenant_id(&ctx, " \t\u{3000}").unwrap_err();
    assert_eq!(WebFrameworkErrorKind::BadRequest, problem.kind);
    assert_eq!("tenant_id must not be empty", problem.detail);
    let problem = require_upsert_tenant_id(&ctx, "").unwrap_err();
    assert_eq!(WebFrameworkErrorKind::BadRequest, problem.kind);
}

#[test]
fn upsert_own_tenant_is_accepted() {
    let ctx = ctx_with_permissions(&[]);
    assert!(require_upsert_tenant_id(&ctx, "tenant-test").is_ok());
    let problem = require_upsert_tenant_id(&ctx, "tenant-other").unwrap_err();
    assert_eq!("request tenant_id does not match authenticated tenant", problem.detail);
}

#[test]
fn control_plane_requires_permission() {
    assert!(require_control_plane(&ctx_with_permissions(&["web-framework.control-plane"])).is_ok());
    let problem = require_control_plane(&ctx_with_permissions(&["web-framework.tenant.admin"]))
        .unwrap_err();
    assert_eq!(WebFrameworkErrorKind::Forbidden, problem.kind);
    assert_eq!("missing required permission: web-framework.control-plane", problem.detail);
}

#[test]
fn tenant_admin_requires_permission_and_app() {
    let problem = require_tenant_admin(&ctx_with_permissions(&[])).unwrap_err();
    assert_eq!("missing required permission: web-framework.tenant.admin", problem.detail);
    let ctx = WebRequestContext {
        principal: Some(WebRequestPrincipal {
            tenant_id: "tenant-test".to_owned(),
            app_id: String::new(),
            permission_scope: vec!["web-framework.tenant.admin".to_owned()],
        }),
    };
    let problem = require_tenant_admin(&ctx).unwrap_err();
    assert_eq!("app_id is required", problem.detail);
}

#[test]
fn audit_scope_without_admin_is_refused() {
    let ctx = ctx_with_permissions(&["web-framework.platform.read"]);
    assert!(resolve_audit_event_list_scope(&ctx, None).is_err());
    let ctx = ctx_with_permissions(&["web-framework.tenant.admin"]);
    assert!(resolve_audit_event_list_scope(&ctx, Some("tenant-other")).is_err());
    assert_eq!(
        AuditEventListScope::Tenant("tenant-test".to_owned()),
        resolve_audit_event_list_scope(&ctx, Some("tenant-test")).unwrap()
    );
}
