# tansu_mysql

A storage engine for a broker that keeps its topics, records, consumer groups and transactions in a
MySQL database. The decisions of the engine are verified with Verus; the database itself, and what
turns batches of records into bytes, stay outside of the proofs.

## How it works

Each operation of the engine (`create_topic`, `produce`, `fetch`, `txn_end`, ...) is a state
machine. It says which requests it makes of the outside, in order (`Operation::requests`), and given
a reply to each of them, what it does next: make further requests, or end with a result
(`Operation::advance`). Both are proved equal to spec functions (`asked` and `turn`), so the
statements that reach the database, their parameters, their order, and the answer to the client are
all stated and proved.

- `operation`, `request`, `value`, `sql`: operations, and what they ask of the outside.
- `transaction`, `sequence`, `script`: operations on a connection, in a transaction, one after
  another.
- `errand`, `session`: an operation carried out one request at a time.
- `produce`, `fetch`, `end_txn`, `add_partitions`, `txn_offsets`, `producers`: batches, producers
  and their transactions.
- `topics`, `metadata`, `describe_topics`, `configs`, `offsets`, `groups`, `brokers`: the rest of
  what clients ask for.
- `engine`, `metrics`, `listener`, `ident`, `clock`, `txn`, `offset_map`, `batch`, `wire`, `error`:
  the engine, what is measured, and the data.

Public proof functions state what holds across operations: that a batch is read back as it was
added, that only a success is committed, that a stale update of a group is refused, and more.

## What is trusted

Nine small functions call other crates: identifiers (`uuid`, `rand`), times (`chrono`), addresses
(`url`), the URL of a database (`mysql_async`) and JSON (`serde_json`). Their contracts stand above
their bodies and are believed.

## Layout

- `src/` is the verified library.
- `tests/` runs it on concrete values.
- `app/` connects it to a database: a pool of connections, the driver that does requests, and the
  operations as asynchronous functions.
