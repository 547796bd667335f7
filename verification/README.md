# axum-health

Kubernetes-friendly health endpoints: named liveness, readiness and startup
checks, `UP` and `DOWN` statuses, JSON responses, and HTTP 200 or 503.

The library under `src/` is written in Verus. It holds

- the registry of checks and its builder (`registry`, `kind`),
- check results and their diagnostic data (`check`, `json`),
- the state machine that runs the selected checks side by side (`run`),
- responses, the aggregate status and the wire format (`response`, `status`),
- the endpoints and where they are mounted (`endpoint`),
- the `#[health_check]` attribute: its grammar, the rules for annotated methods
  and what a block of them provides (`syntax`, `arguments`, `expand`,
  `diagnostic`).

What holds of the library as a whole is stated and proved under `laws`: which
checks an endpoint runs, what its answer is whatever the order in which the
checks finish, what the diagnostic data of a check hold, what can be read off a
response, which attributes and methods are accepted.

A registry is generic in the procedure that runs a check. The crate under `app/`
fills it with async closures, polls them as the library says, serves the
endpoints with Axum, and turns the tokens of an `impl` block into what the library
reads and its expansion into tokens.

The diagnostic data of a check are what `serde_json::to_value` makes of a value:

```rust
let health = Health::builder()
    .liveness("process", check)
    .check_for(&[Kind::Liveness, Kind::Readiness], "ldap-directory", probe)
    .include_provider(provider)
    .build();
let router = health.router_at("/internal/health");

let check = Check::up().with_data("pool", serde_json::to_value("available"));
```
