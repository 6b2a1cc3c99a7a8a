use sdkwork_web::contract::{
    non_open_api_surface_requires_access_token, ApiSurface, HttpMethod, HttpRoute, RateLimitTier,
    RouteAuth,
};

#[test]
fn builders_set_fields() {
    static ALT: [&str; 1] = ["web-framework.platform.read"];
    let route = HttpRoute::dual_token(HttpMethod::Get, "/backend/v3/api/x", "x", "x.list")
        .with_required_permission("x.read")
        .with_alternate_permissions(&ALT)
        .with_idempotent(true)
        .with_rate_limit_tier(RateLimitTier::AuthCritical);
    assert_eq!(RouteAuth::DualToken, route.auth);
    assert_eq!(Some("x.read"), route.required_permission);
    assert_eq!(Some(&ALT[..]), route.alternate_permissions);
    assert!(route.idempotent);
    assert_eq!(Some(RateLimitTier::AuthCritical), route.rate_limit_tier);
    assert!(!route.forbid_credential_headers);
    assert_eq!("x.list", route.operation_id);
}

#[test]
fn credential_entry_routes_are_public_and_forbid_credentials() {
    let route = HttpRoute::credential_entry_public(HttpMethod::Post, "/app/v3/api/auth/login", "auth", "auth.login");
    assert_eq!(RouteAuth::Public, route.auth);
    assert!(route.forbid_credential_headers);
    assert!(route.auth.skips_credential_resolution());
}

#[test]
fn auth_modes_take_one_path() {
    let modes = [
        RouteAuth::Public,
        RouteAuth::DualToken,
        RouteAuth::ApiKey,
        RouteAuth::OAuth,
        RouteAuth::OpenApiFlexible,
        RouteAuth::RefreshToken,
    ];
    for m in modes {
        let n = [m.skips_credential_resolution(), m.requires_dual_token_headers(), m.is_open_api_credential_mode()]
            .iter()
            .filter(|b| **b)
            .count();
        assert_eq!(1, n);
    }
    assert!(HttpRoute::refresh_token(HttpMethod::Post, "/r", "t", "o").auth.skips_credential_resolution());
    assert!(HttpRoute::oauth(HttpMethod::Get, "/r", "t", "o").auth.is_open_api_credential_mode());
    assert!(HttpRoute::api_key(HttpMethod::Get, "/r", "t", "o").auth.is_open_api_credential_mode());
    assert!(HttpRoute::open_api_flexible(HttpMethod::Get, "/r", "t", "o").auth.is_open_api_credential_mode());
    assert!(HttpRoute::public(HttpMethod::Get, "/r", "t", "o").auth.skips_credential_resolution());
}

#[test]
fn only_open_api_surfaces_skip_access_token() {
    assert!(non_open_api_surface_requires_access_token(ApiSurface::AppApi));
    assert!(non_open_api_surface_requires_access_token(ApiSurface::BackendApi));
    assert!(non_open_api_surface_requires_access_token(ApiSurface::GatewayApi));
    assert!(!non_open_api_surface_requires_access_token(ApiSurface::OpenApi));
    assert!(!non_open_api_surface_requires_access_token(ApiSurface::Unknown));
}

#[test]
fn routes_compare_by_fields() {
    let a = HttpRoute::public(HttpMethod::Get, "/p", "t", "o");
    let b = HttpRoute::new(HttpMethod::Get, "/p", "t", "o", RouteAuth::Public);
    assert_eq!(a, b);
    assert_ne!(a, a.with_idempotent(true));
}
