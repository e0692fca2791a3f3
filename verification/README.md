# release_sentry

Release-readiness checks for a GitHub repository, verified with Verus.

A run gathers evidence (the repository, its releases and tags, recent workflow runs,
open issues with blocker labels, the changelog and the release-surface files) and
turns it into seven checks, each `pass`, `warn` or `block`; the metrics over them; a
decision (`ready`, `watch` or `hold`); a score from 1 to 100; and a one-line summary.

Layout:

- `src/text.rs` — character-level text operations (trim, lower-casing, substring
  search, decimal formatting, joining) with their specifications.
- `src/models.rs` — the request, check, metrics, result, history and overview records.
- `src/github.rs` — the GitHub records, the decoding of base64 file contents, the
  contents endpoint and page sizes.
- `src/checks.rs` — the seven checks.
- `src/readiness.rs` — metrics, decision, score and summary.
- `src/request.rs` — normalisation and validation of a request.
- `src/run.rs` — the plan of what to fetch, and the assembly of a run's result.
- `src/store.rs`, `src/service.rs` — what the store's answers become, and the service
  endpoints' decisions.
- `src/laws.rs` — properties across functions, proved.
- `app/` — the service around the library: SQLite store, GitHub reads, HTTP handlers.
