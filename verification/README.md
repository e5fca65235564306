# account_management_service

An event-sourced account registration service: a client reserves an email address, confirms
it with a seven-digit code, receives a one-time account creation token, and submits a
registration profile; outbox work then creates the user account and records the creation on
the reservation.

## Layout

- `src/` — the verified library (Verus).
  - `domain/` — the email reservation and user account aggregates (`decide`/`evolve` as spec
    functions, `handle`/`apply` proved against them), email addresses, account identifiers,
    calendar dates and instants, and the laws the aggregates keep (`laws.rs`).
  - `application/` — the decisions of the use cases around their gateway calls, the outbox
    task formats, handler routing, claim rounds and retry delays.
  - `infrastructure/` — what the PostgreSQL adapters validate before writing and how they read
    results back, error mapping and conflict retries of the event-sourcing framework, log level
    selection, verification codes and tokens, the system clock.
  - `presentation/` — HTTP error answers, request reading, status links, and the worker pool
    configuration and supervision decisions.
  - `runtime.rs` — which outcome each way of stopping the service reports.
- `app/` — the executable around the library: axum routes, the event-sourcing framework and
  PostgreSQL access, the tokio worker pool, JSON forms of the library's values, and the
  floating-point jitter of retry delays.
- `tests/` — tests of the library's behaviour on concrete values.
