//! Contract types for HTTP route manifests: which surface a route belongs to,
//! how it authenticates, and the builder that assembles a route descriptor.

use vstd::prelude::*;

verus! {

/// The HTTP surface that a route is published on.
#[derive(Clone, Copy, Debug, PartialEq, Eq, Structural)]
pub enum ApiSurface {
    OpenApi,
    AppApi,
    BackendApi,
    GatewayApi,
    Unknown,
}

/// Rate-limit tier declared by a route.
#[derive(Clone, Copy, Debug, PartialEq, Eq, Structural)]
pub enum RateLimitTier {
    AuthCritical,
    OpenApiDefault,
}

/// Authentication mode of a route.
#[derive(Clone, Copy, Debug, PartialEq, Eq, Structural)]
pub enum RouteAuth {
    Public,
    DualToken,
    ApiKey,
    /// OAuth 2.0 bearer token (`Authorization: Bearer`) for open-api.
    OAuth,
    /// Header-driven open-api auth: API key or OAuth bearer (detector chooses).
    OpenApiFlexible,
    /// Refresh-token proof in request body; skips dual-token and open-api header auth.
    RefreshToken,
}

#[derive(Clone, Copy, Debug, PartialEq, Eq, Structural)]
pub enum HttpMethod {
    Delete,
    Get,
    Patch,
    Post,
    Put,
}

/// A route descriptor of a manifest.
#[derive(Clone, Copy, Debug, PartialEq, Eq)]
pub struct HttpRoute {
    pub method: HttpMethod,
    pub path: &'static str,
    pub tag: &'static str,
    pub operation_id: &'static str,
    pub auth: RouteAuth,
    pub idempotent: bool,
    pub rate_limit_tier: Option<RateLimitTier>,
    pub required_permission: Option<&'static str>,
    /// Alternate permissions that also authorize the operation (e.g. platform read for cross-tenant list).
    pub alternate_permissions: Option<&'static [&'static str]>,
    /// Credential-entry routes (login/register/reset) reject inbound credential headers at runtime.
    pub forbid_credential_headers: bool,
}

/// The descriptor that `HttpRoute::new` builds: the given identity and
/// auth mode, with every option off.
pub open spec fn plain_route(
    method: HttpMethod,
    path: &'static str,
    tag: &'static str,
    operation_id: &'static str,
    auth: RouteAuth,
) -> HttpRoute {
    HttpRoute {
        method,
        path,
        tag,
        operation_id,
        auth,
        idempotent: false,
        rate_limit_tier: None,
        required_permission: None,
        alternate_permissions: None,
        forbid_credential_headers: false,
    }
}

/// Modes that skip session auth (`Authorization`) and dual-token resolution.
pub open spec fn auth_skips_credential_resolution(auth: RouteAuth) -> bool {
    auth == RouteAuth::Public || auth == RouteAuth::RefreshToken
}

/// Modes that require both the auth token and the access token headers.
pub open spec fn auth_requires_dual_token_headers(auth: RouteAuth) -> bool {
    auth == RouteAuth::DualToken
}

/// Modes that authenticate through API key and/or OAuth bearer headers.
pub open spec fn auth_is_open_api_credential_mode(auth: RouteAuth) -> bool {
    auth == RouteAuth::ApiKey || auth == RouteAuth::OAuth || auth == RouteAuth::OpenApiFlexible
}

/// Surfaces whose requests must carry `Access-Token` for tenant isolation.
pub open spec fn surface_requires_access_token(surface: ApiSurface) -> bool {
    surface == ApiSurface::AppApi || surface == ApiSurface::BackendApi || surface
        == ApiSurface::GatewayApi
}

impl HttpRoute {
    pub fn new(
        method: HttpMethod,
        path: &'static str,
        tag: &'static str,
        operation_id: &'static str,
        auth: RouteAuth,
    ) -> (route: Self)
        ensures
            route == plain_route(method, path, tag, operation_id, auth),
    {
        HttpRoute {
            method,
            path,
            tag,
            operation_id,
            auth,
            idempotent: false,
            rate_limit_tier: None,
            required_permission: None,
            alternate_permissions: None,
            forbid_credential_headers: false,
        }
    }

    pub fn with_required_permission(self, permission: &'static str) -> (route: Self)
        ensures
            route == (HttpRoute { required_permission: Some(permission), ..self }),
    {
        let mut route = self;
        route.required_permission = Some(permission);
        route
    }

    pub fn with_alternate_permissions(self, permissions: &'static [&'static str]) -> (route: Self)
        ensures
            route == (HttpRoute { alternate_permissions: Some(permissions), ..self }),
    {
        let mut route = self;
        route.alternate_permissions = Some(permissions);
        route
    }

    pub fn with_idempotent(self, idempotent: bool) -> (route: Self)
        ensures
            route == (HttpRoute { idempotent, ..self }),
    {
        let mut route = self;
        route.idempotent = idempotent;
        route
    }

    pub fn with_rate_limit_tier(self, tier: RateLimitTier) -> (route: Self)
        ensures
            route == (HttpRoute { rate_limit_tier: Some(tier), ..self }),
    {
        let mut route = self;
        route.rate_limit_tier = Some(tier);
        route
    }

    pub fn with_forbid_credential_headers(self, forbid: bool) -> (route: Self)
        ensures
            route == (HttpRoute { forbid_credential_headers: forbid, ..self }),
    {
        let mut route = self;
        route.forbid_credential_headers = forbid;
        route
    }

    /// Marks credential-entry anonymous routes (login/register/reset): public,
    /// and rejecting inbound credential headers.
    pub fn credential_entry_public(
        method: HttpMethod,
        path: &'static str,
        tag: &'static str,
        operation_id: &'static str,
    ) -> (route: Self)
        ensures
            route == (HttpRoute {
                forbid_credential_headers: true,
                ..plain_route(method, path, tag, operation_id, RouteAuth::Public)
            }),
    {
        Self::public(method, path, tag, operation_id).with_forbid_credential_headers(true)
    }

    pub fn public(
        method: HttpMethod,
        path: &'static str,
        tag: &'static str,
        operation_id: &'static str,
    ) -> (route: Self)
        ensures
            route == plain_route(method, path, tag, operation_id, RouteAuth::Public),
    {
        Self::new(method, path, tag, operation_id, RouteAuth::Public)
    }

    pub fn dual_token(
        method: HttpMethod,
        path: &'static str,
        tag: &'static str,
        operation_id: &'static str,
    ) -> (route: Self)
        ensures
            route == plain_route(method, path, tag, operation_id, RouteAuth::DualToken),
    {
        Self::new(method, path, tag, operation_id, RouteAuth::DualToken)
    }

    pub fn api_key(
        method: HttpMethod,
        path: &'static str,
        tag: &'static str,
        operation_id: &'static str,
    ) -> (route: Self)
        ensures
            route == plain_route(method, path, tag, operation_id, RouteAuth::ApiKey),
    {
        Self::new(method, path, tag, operation_id, RouteAuth::ApiKey)
    }

    pub fn oauth(
        method: HttpMethod,
        path: &'static str,
        tag: &'static str,
        operation_id: &'static str,
    ) -> (route: Self)
        ensures
            route == plain_route(method, path, tag, operation_id, RouteAuth::OAuth),
    {
        Self::new(method, path, tag, operation_id, RouteAuth::OAuth)
    }

    pub fn open_api_flexible(
        method: HttpMethod,
        path: &'static str,
        tag: &'static str,
        operation_id: &'static str,
    ) -> (route: Self)
        ensures
            route == plain_route(method, path, tag, operation_id, RouteAuth::OpenApiFlexible),
    {
        Self::new(method, path, tag, operation_id, RouteAuth::OpenApiFlexible)
    }

    pub fn refresh_token(
        method: HttpMethod,
        path: &'static str,
        tag: &'static str,
        operation_id: &'static str,
    ) -> (route: Self)
        ensures
            route == plain_route(method, path, tag, operation_id, RouteAuth::RefreshToken),
    {
        Self::new(method, path, tag, operation_id, RouteAuth::RefreshToken)
    }
}

impl RouteAuth {
    /// Routes that skip session auth (`Authorization`) and full dual-token resolution.
    pub fn skips_credential_resolution(self) -> (r: bool)
        ensures
            r == auth_skips_credential_resolution(self),
    {
        match self {
            RouteAuth::Public | RouteAuth::RefreshToken => true,
            _ => false,
        }
    }

    /// Protected app-api / backend-api / gateway-api routes require both auth and access tokens.
    pub fn requires_dual_token_headers(self) -> (r: bool)
        ensures
            r == auth_requires_dual_token_headers(self),
    {
        match self {
            RouteAuth::DualToken => true,
            _ => false,
        }
    }

    /// Open-api protected routes authenticate via API key and/or OAuth bearer headers.
    pub fn is_open_api_credential_mode(self) -> (r: bool)
        ensures
            r == auth_is_open_api_credential_mode(self),
    {
        match self {
            RouteAuth::ApiKey | RouteAuth::OAuth | RouteAuth::OpenApiFlexible => true,
            _ => false,
        }
    }
}

/// Non-open-api HTTP surfaces always require `Access-Token` for tenant isolation.
pub fn non_open_api_surface_requires_access_token(surface: ApiSurface) -> (r: bool)
    ensures
        r == surface_requires_access_token(surface),
{
    match surface {
        ApiSurface::AppApi | ApiSurface::BackendApi | ApiSurface::GatewayApi => true,
        _ => false,
    }
}

/// Every authentication mode is handled by exactly one credential path:
/// it skips credential resolution, or it needs the dual-token headers, or it
/// authenticates with open-api credentials.
pub proof fn lemma_route_auth_modes_partition(auth: RouteAuth)
    ensures
        auth_skips_credential_resolution(auth) || auth_requires_dual_token_headers(auth)
            || auth_is_open_api_credential_mode(auth),
        !(auth_skips_credential_resolution(auth) && auth_requires_dual_token_headers(auth)),
        !(auth_skips_credential_resolution(auth) && auth_is_open_api_credential_mode(auth)),
        !(auth_requires_dual_token_headers(auth) && auth_is_open_api_credential_mode(auth)),
{
}

/// Only the open-api surface (and an unclassified path) may go without an
/// access token.
pub proof fn lemma_access_token_exempt_surfaces(surface: ApiSurface)
    ensures
        !surface_requires_access_token(surface) <==> (surface == ApiSurface::OpenApi || surface
            == ApiSurface::Unknown),
{
}

/// Which credential path each mode takes: only `Public` and `RefreshToken`
/// skip credential resolution, only `DualToken` needs the dual-token headers,
/// and exactly `ApiKey`, `OAuth` and `OpenApiFlexible` use open-api credentials.
pub proof fn lemma_route_auth_paths(auth: RouteAuth)
    ensures
        auth_skips_credential_resolution(auth) <==> (auth matches RouteAuth::Public || auth
            matches RouteAuth::RefreshToken),
        auth_requires_dual_token_headers(auth) <==> auth matches RouteAuth::DualToken,
        auth_is_open_api_credential_mode(auth) <==> (auth matches RouteAuth::ApiKey || auth
            matches RouteAuth::OAuth || auth matches RouteAuth::OpenApiFlexible),
{
}

/// Each route builder's route takes its mode's credential path: a
/// dual-token route needs the dual-token headers and is not an open-api
/// route; API-key, OAuth and flexible routes use open-api credentials;
/// public, credential-entry and refresh-token routes skip resolution.
pub proof fn lemma_route_builders_credential_paths(
    method: HttpMethod,
    path: &'static str,
    tag: &'static str,
    operation_id: &'static str,
)
    ensures
        auth_requires_dual_token_headers(
            plain_route(method, path, tag, operation_id, RouteAuth::DualToken).auth,
        ),
        !auth_is_open_api_credential_mode(
            plain_route(method, path, tag, operation_id, RouteAuth::DualToken).auth,
        ),
        !auth_skips_credential_resolution(
            plain_route(method, path, tag, operation_id, RouteAuth::DualToken).auth,
        ),
        auth_is_open_api_credential_mode(
            plain_route(method, path, tag, operation_id, RouteAuth::ApiKey).auth,
        ),
        auth_is_open_api_credential_mode(
            plain_route(method, path, tag, operation_id, RouteAuth::OAuth).auth,
        ),
        auth_is_open_api_credential_mode(
            plain_route(method, path, tag, operation_id, RouteAuth::OpenApiFlexible).auth,
        ),
        auth_skips_credential_resolution(
            plain_route(method, path, tag, operation_id, RouteAuth::Public).auth,
        ),
        auth_skips_credential_resolution(
            plain_route(method, path, tag, operation_id, RouteAuth::RefreshToken).auth,
        ),
{
}

/// A freshly built route keeps the given method, path, tag, operation and
/// mode, and starts with every option off: not idempotent, no rate-limit
/// tier, no permissions, credential headers allowed.
pub proof fn lemma_new_route_starts_plain(
    method: HttpMethod,
    path: &'static str,
    tag: &'static str,
    operation_id: &'static str,
    auth: RouteAuth,
)
    ensures
        ({
            let r = plain_route(method, path, tag, operation_id, auth);
            &&& r.method == method && r.path == path && r.tag == tag && r.operation_id
                == operation_id && r.auth == auth
            &&& !r.idempotent && r.rate_limit_tier is None && r.required_permission is None
                && r.alternate_permissions is None && !r.forbid_credential_headers
        }),
{
}

} // verus!
