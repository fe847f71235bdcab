# Accessibility audit backend

The verified core of an accessibility audit service: it keeps audit projects
and their scans, summarises the issues of a scan by WCAG level, compares
scans over time, validates requests, and decides what each request of the
HTTP API answers. Every function under `src/` is proved by Verus against its
contract, except the calls into outside crates and std in `src/bindings.rs`,
whose contracts are trusted (`now`, the clock, has none).

Layout:

- `src/domain/` – the data model (`models.rs`) and the service's errors
  (`errors.rs`).
- `src/services/` – the summary of an audit and the handling of what the
  browser reports (`audit_service.rs`); the in-memory project store
  (`storage.rs`).
- `src/api/` – the answers of the audit, project and report requests.
- `src/utils/validators.rs` – URL and length validation.
- `src/bindings.rs` – the calls into `uuid`, `chrono`, `regex`, `reqwest`,
  `validator` and std that the library trusts, each with its contract.
- `src/laws.rs` – properties that relate several operations.
- `app/` – the server: routing and JSON with `axum` and `serde`, the
  headless browser, and the copies of the model types that carry serde's
  derives.
