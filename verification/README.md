# discovery

The verified core of a server-discovery web service for the Stoat chat
platform. `src/` is checked by Verus; `app/` is the axum/rusqlite/reqwest
program around it.

- `auth`: the `x-api-key` checks (the route guard and the handlers' check
  against the configured key).
- `listing`: the SQL of the public listing, and the answers of the two
  read endpoints.
- `flow`: the mutating endpoints (sync, bump, patch) as a state machine
  from events to actions, with the laws that every run keeps.
- `cooldown`, `decimal`: the two-hour bump cooldown and its message.
- `clock`: the calls into chrono, behind trusted wrappers.
- `refresh`: what the periodic refresh reads and writes for a listing.
