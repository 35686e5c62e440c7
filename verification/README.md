# factorio_seasons

Backend for a seasonal Factorio server: player registrations paid in ETH,
promo codes, access tiers (spectator or player), a weekly season rotation that
archives the old map and opens a new one, and in-game permission control over
RCON.

## Layout

- `src/` is the library, written in Verus and verified. Every public function
  states its result in `requires`/`ensures`; the laws that span several
  functions are public proof functions next to them.
  - `domain.rs`: validated names, addresses and amounts, the status enums and
    their database spellings, pricing and promo rules.
  - `api/`: the decisions behind each HTTP endpoint (registration, status
    lookup, map download, admin checks), the registration's order of
    lookups and changes as a state machine, and the response records.
  - `services/`: the rotation as a state machine, the scheduler's tick, the
    RCON commands and the reading of the connected-player report, the edit of
    the server settings (a JSON value held as plain data).
  - `db.rs`: reading stored rows back into domain records.
  - `text.rs`, `time.rs`, `ids.rs`: strings, instants and UUIDs, with the calls
    into std, chrono and uuid behind small trusted wrappers.
- `app/` is the server around the library: configuration files, SQLite,
  HTTP with axum, RCON sockets, processes and files. It runs the rotation and
  the pollers by performing the actions the library decides on.
- `tests/` runs the library on concrete values.
