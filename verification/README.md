# monitoreo

Verified core of a network-infrastructure monitoring service for regional
government sites: sites, devices, alerts, intrusion events, users and their
sessions, with an HTTP API in front.

## Layout

- `src/` — the library, written in Verus and proved:
  - `entities` — the domain records and their life cycles (soft deletion,
    alert acknowledgement and resolution, token and session expiry);
  - `detector`, `services`, `ports` — alert rules, the services that raise
    and store alerts, and the store interfaces they work against (each
    store operation comes with a relation, defined by the store, between
    its arguments and its answer, and the services and handlers keep a
    ghost record of the calls they make, so that their contracts say which
    reads and writes each operation performs);
  - `handlers`, `dto` — what each API endpoint decides, and its bodies;
  - `rate_limit` — sliding-window request limits per client;
  - `rbac` — `resource:action` permissions and the access check;
  - `auth` — Argon2id password hashing and PASETO v4 local session tokens;
  - `email` — message templates, placeholder filling and send requests;
  - `audit` — audit records of answered requests;
  - `text`, `timestamp` — decimal rendering, splitting, trimming,
    substitution, and instants;
  - `boundary` — the calls into `uuid`, `time`, `argon2`, `pasetors` and parts of `std`,
    each with the contract it is trusted to meet.
- `tests/` — tests run against the compiled library.
- `app/` — the server around the library: axum routes and middleware, JSON
  bodies, the e-mail and audit queues, configuration loading, and the alert
  rules on floating-point measurements.
