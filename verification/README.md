# altair_gateway

The decision logic of the Altaïr API gateway, verified with Verus, and the
server around it.

- `src/` — the verified library:
  - `security/roles.rs` — platform roles and their names;
  - `security/jwks_cache.rs` — the signing-key cache: lifetimes from
    `cache-control`, clamping, fallback to stale keys when a refresh fails;
  - `middleware/auth.rs` — the authentication of a request as a step
    function: which check comes next, and forwarding only once all passed;
  - `middleware/jwt.rs` — bearer tokens, key ids, roles and identity carried
    by a token, the identity headers handed to the services;
  - `middleware/rbac.rs` — service-level access rules;
  - `services/proxy.rs` — service registry, upstream addresses, header
    policies, and the proxy's state machine with its access check on private
    labs and star paths;
  - `services/retry.rs` — retries with exponential backoff;
  - `services/users_client.rs` — resolving internal user ids;
  - `services/common.rs` — answers of JSON services;
  - `state.rs`, `cors.rs` — settings read from the environment's raw values;
  - `routes/webshell.rs` — the echo shell;
  - `error.rs` — error values and the error body;
  - `text.rs`, `wire.rs` — strings, numbers, header values and UUIDs.
- `app/` — the HTTP server (axum, reqwest, tokio): reads the environment,
  performs every network call and hands the results to the library.
- `tests/` — tests of the library.
