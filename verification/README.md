# labuh

The verified core of Labuh, a small platform that deploys containerized
applications and Docker Compose stacks behind a Caddy reverse proxy.

- `src/` is the library, verified with Verus. Every operation that talks to
  the database, the container runtime or the proxy is written as a flow: a
  value that, given the outcome of the last action, says what to do next. The
  decisions (which containers a stack owns, which ones a redeployment
  replaces, what environment a container gets, which domain routes are kept,
  who may change a team) are proved against their specifications; laws that
  span several operations are stated as `law_*` proof functions.
- `src/server/` holds the single-node server (projects, stacks, domains,
  webhooks); `src/backend/` the team-based backend (use cases, services,
  models). Shared pieces (text, slugs, JSON, identifiers, the Caddyfile,
  environment merging, health) sit at the top of `src/`.
- `app/` is the server program: configuration, SQLite, Docker and the HTTP
  API. It runs the library's flows and performs their actions.
- `tests/` exercises the library on concrete values, with the real outside
  crates.
