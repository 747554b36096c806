# task_api

A small task-tracking HTTP service. `src/` is the verified library (Verus):
request validation, reply shaping, error replies, the route table and
cross-origin policy, the conditions task queries select by, what the task and
user repositories write and how they answer, bearer-token reading, key lookup
and role checks. `app/` is the unverified program around it: axum handlers and
extractors, the sea-orm entities and database calls, the JSON bodies, the key
set download and the server loop.

Layout of `src/`:

- `api/` — routes, CORS policy, request/response bodies, validation, adapters
- `domain/` — task and user rows, column states, task query conditions
- `infra/` — errors and their replies, clock, listener address, repository rules, auth
- `text.rs` — decimal rendering, prefix stripping, text comparison
