# sdkwork-web

Verified request-contract rules of the SDKWork web framework.

`src/` is the library, verified with Verus:

- `contract` — route descriptors, authentication modes and API surfaces;
- `request_context`, `tenant_scope` — which tenant a control-plane request may
  read or write, and the audit-list scope it gets;
- `idempotency`, `hashing`, `text` — idempotency fingerprints (SHA-256 of the
  key material, as hex), header parsing, and the parts of a replayed response;
- `problem`, `error`, `security_events` — problem type URIs, client-safe
  details, trace correlation, path redaction for logs;
- `rate_limit_policy`, `store_*` — the decisions the SQLite stores take on the
  rows they read: policy lookup order, fixed-window counting, idempotency
  reservation and replay, purge throttling, CORS and tenant-profile rows;
- `dto`, `paths` — control-plane records and paths.

`app/` holds what Verus does not see: the SQLite stores (`sqlx`), the HTTP
edge (`axum` headers, replay and Problem+JSON responses), serde copies of the
records, and OpenTelemetry bootstrap.
