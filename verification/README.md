# sdkwork-github

The GitHub integration of SDKWork: tracked repositories, issues and plans
synced from GitHub, and a built-in issue tracker (issues, labels, milestones,
roadmaps, comments and votes), behind an HTTP API.

## Layout

- `src/` — the verified library (Verus): tenant-scope and input validation
  (`rules`), the records a sync or catalog run writes (`records`), the
  catalog run and the syncs as state machines that decide each next step
  (`catalog_run`, `sync_run`), the tracker's new records (`tracker`), the
  assembly of plan, issue and roadmap views (`views`), the listing and
  update statements with their bound values (`sql`), stored rows (`rows`),
  the provider account and OAuth decisions (`integration`), the HTTP-facing
  decisions (`http`) and the error mapping (`error`). The calls into chrono,
  uuid and urlencoding are in `external`, each under a stated contract.
- `tests/` — tests of the library.
- `app/` — the service host: the PostgreSQL store (sqlx), which runs the
  library's statements and holds the fixed insert, upsert and delete
  statements; the asynchronous service, whose loops perform the I/O the
  library's state machines and decisions call for; the axum routes and the
  JSON shapes of the API.

Verify the library with `verus` on `src/lib.rs`.
