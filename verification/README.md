# venue_flow

The core of a venue rental platform, written in Verus. Every function in
`src/` carries a contract; Verus proves each one, except the small wrappers
marked `#[verifier::external_body]`. Each of those makes one call into chrono,
garde, uuid, derive_builder or std, and its contract is taken on trust from
that library's source and documentation.

- `src/user*`, `src/venue*`, `src/rental*`: the entities, their builders, the
  update commands with their validation rules, and the state changes
  (a rental request is accepted, rejected or cancelled only while pending).
- `src/validation.rs`, `src/time.rs`, `src/text.rs`: field rules (through
  `garde`), timestamps (through `chrono`) and small text helpers.
- `src/event*`: which events run at once and which are queued, the mails a
  queued event becomes, and how the worker settles each event.
- `src/queue*`: the Redis queue's keys and the steps of pushing, taking a
  batch of events and recording a failure, as state machines whose commands
  the caller sends.
- `src/api*`, `src/config*`, `src/database.rs`, `src/infra_error.rs`: the
  web API's answers and access checks, the settings read from the
  environment, and the mapping of infrastructure failures to domain ones.

`app/` is the executable around the library: it reads the environment,
installs logging, talks to Redis and runs the event worker. It holds no
decision of its own; it sends what the library plans.

`tests/` runs the library on concrete values.
