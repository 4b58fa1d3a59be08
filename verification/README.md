# tokio_playground

A Redis-style key-value store and the request/response plumbing of a tokio
playground, with their contracts proved by Verus.

- `src/` is the verified library: the store (`store`), its sharded form
  (`sharded`), the request/response handles over tokio channels
  (`request_response`, `request_response2`, `request_response3`), the error
  type (`error`), the users and one-shot requests of the channel examples, and
  the Raft-style messages (`scratch`).
- `app/` holds the programs: the servers, the clients and the channel demos,
  one subcommand each. They do the I/O and awaiting and hand the library plain
  values.
- `tests/` runs the library with the real tokio and mini-redis linked.
