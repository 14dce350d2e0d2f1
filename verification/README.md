# backend

The domain core of an observability backend, verified with Verus:
organizations with their members, roles, invitations and activity log;
projects with their retention settings and API keys; and the OpenTelemetry
(OTLP/HTTP JSON) ingestion endpoints.

## Layout

- `src/` — the verified library.
  - `organizations/` — identifiers, names, slugs and roles
    (`organization.rs`), members, activity entries and invites, the
    decisions of every organization and invitation use case (`service.rs`,
    `invitations.rs`), the order in which each use case reads, checks and
    refuses before it writes (`flows.rs`), the error answers and device fingerprint of the HTTP
    layer (`http.rs`, `invite_http.rs`), and the properties that hold
    across them (`laws.rs`).
  - `projects/` — projects, retention periods, API keys, key generation and
    hashing (`keys.rs`), the decisions of the project use cases
    (`service.rs`) and their order (`flows.rs`), their error answers
    (`http.rs`) and the properties that
    hold across them (`laws.rs`).
  - `otlp/` — decimal and timestamp parsing (`numbers.rs`), span kinds,
    statuses and log levels (`types.rs`), metric tags (`tags.rs`), what
    each metric data point becomes but for its floating-point values
    (`conversion.rs`), what each log record and span becomes but for the
    JSON values it carries (`records.rs`), and the answers of the ingestion
    endpoints, refused ingestions included (`http.rs`).
  - `retention.rs` — the cutoffs of the retention cleanup.
  - `text.rs`, `numerals.rs`, `encoding.rs`, `time.rs`, `random.rs`,
    `users.rs`, `status.rs` — text, numbers, encodings, time, randomness
    and user identities, with the calls into `std`, `chrono`, `rand`,
    `base64` and `sha2` behind trusted wrappers.
- `tests/` — tests of the library on concrete values.
- `app/` — the service around it: repository ports, asynchronous
  application services, axum handlers and routes, the OTLP wire types with
  their floating-point values, and the retention tasks.
