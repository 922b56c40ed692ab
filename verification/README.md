# featherfly

The rules of the FeatherFly web hosting daemon, written in Verus with their
contracts and proved: bearer authentication, health aggregation, the
CloudPanel command bridge (arguments, redaction, plugin hooks, table
parsing), configuration defaults and validation, Docker container, network,
volume and image planning, database and DNS planning, blue/green deploys as
a step function, backups, the command line's decisions, and the answers of
the HTTP handlers.

- `src/` — the verified library. `text.rs` holds the string model that the
  other modules state their contracts in.
- `tests/` — tests of the library on concrete values.
- `app/` — the `featherfly` command line: it reads files and the host's
  state, calls the library, and carries out what it decides.

Verify with Verus; the library builds as an ordinary Rust crate.
