# holochain

Parts of a conductor whose behaviour is stated in contracts and proved with Verus.

- `src/` is the library.
  - `time`: durations and instants.
  - `missing_dep_backoff`: when a missing validation dependency is looked for again;
    `retry_laws`: what holds of such schedules.
  - `action_hash`: hashes, and maps keyed by them.
  - `validation_deps`: the dependencies that validation waits for; `dependency_laws`: what holds of
    them.
  - `zome_call_admission`: which zome calls are run, and for how long; `app_api` and
    `app_interface`: how the requests of apps are answered; `interface_laws`: what holds of both.
  - `slice_hash`: the hashes of arc slices; `slice_hash_laws`: what holds of them.
- `tests/` runs the library.
- `app/` surrounds the library: the clock, locks, serialization, the conductor's calls and the
  database.

Two things of other crates are taken on trust: `rand::random::<u64>()`, of which nothing is claimed,
and the error type of `holochain_serialized_bytes`, which is carried through unread.
