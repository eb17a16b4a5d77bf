# anytype

Verified core of an Anytype command-line client and Nushell plugin, written
in Verus.

- `src/api.rs`: client configuration (defaults: `http://localhost:31009`,
  30 s, `anytype_rs`) and the API key a client holds; a request without a key
  fails with an authentication error.
- `src/value.rs`: `AnytypeValue`, the Nushell custom value for spaces, types,
  objects, properties, tags, lists, templates and members; its accessors; the
  columns of the record Nushell sees in its place; column lookup.
- `src/entities.rs`: the API entities as the plugin reads them, and how each
  becomes an `AnytypeValue` with its context.
- `src/record_laws.rs`: proofs that record columns never repeat and agree with
  the accessors.
- `src/nu_record.rs`: the calls into `nu_protocol` that build and read records,
  with the contracts they are trusted to meet.
- `src/object_command.rs`, `src/text.rs`: the `object` command's decisions
  (authentication, empty updates, the request to make) and every line it
  reports.
- `app/`: argument parsing, the stored API key, HTTP, printing, and the
  `CustomValue` implementation Nushell calls.
