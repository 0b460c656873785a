# rustcwb

The meetup site of the Curitiba Rust community, with its logic verified in
Verus.

- `src/` is the verified library: ULID identifiers and their byte encoding
  (`ids`), the meetup domain (`meetups`), the call-for-papers use cases as
  state machines (`call_for_papers`), decoding of stored past meetups
  (`past_meet_ups`) and of the stored next meetup (`future_meet_ups`), what the pages show (`presenters`) and the admin
  sign-in check (`auth`).
- `app/` is the axum server around it: routes, templates, SQLite access and
  the loops that run the use-case machines against the gateways.
- `tests/` runs the library on concrete values.
