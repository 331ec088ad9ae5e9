# riffdb-storage-api

The storage-side rules of a deterministic contract database, written and proved in Verus.

The library owns what a storage backend has to agree on: which projection control
transitions are allowed, what an apply, a snapshot, a query page or an outbox transition may
hold, how a command's write set is reserved and charged, and how every durable record stands
to its message. It reads and writes no storage and computes no hash. What other layers
decide (framing an envelope, hashing canonical bytes, the rules of the records, identifiers
and texts) comes in as functions or as plain values, and the contracts say what was asked
and what follows from each answer.

A message that another layer reads in part carries what that layer said: whether a text or
an identifier is accepted, what a list type makes of the items that it is given (its canonical
list or a refusal), and why a record's own type refuses it. The comparison of a rebuilt list
with the one that was read, the narrowing of tags and the kind of the error that follows are
decided and proved here.

Some things are fixed here instead: the layout of projection keys (`keys`), with its purpose
and version bytes; the numbers in `limits`, the first history incarnation and the codes of
derived indexes; and what a projection schema accepts (`projection_schema`): that a value is of
a declared type when its kind is the declared one and its encoding keeps the declared bound,
that a group key holds one value for each declared component, and that a row's measures are
the declared ones in order. Page rows, query rows and the key length are what callers rely on;
the other numbers, the purpose and version bytes, the codes and these checks of values and
group keys are this library's own choice.

## Layout

- `bytes`, `ids`, `keys`, `limits`, `page`, `plan`, `records`, `value_error`: the values that
  everything else is made of.
- `projection`, `projection_schema`: lifecycle control, rows, applies, batches, snapshots and
  queries of projections, with their laws.
- `outbox`, `migration`, `owned_snapshot`: delivery status, private migration stages and
  bounded index reads.
- `protobuf`: variable-length integers and field framing.
- `write_set`, `codec::{sizing, bounds, reservation, record_set}`: reservations of write sets
  and what is checked against them.
- `wire`, `stored`, `codec`: durable messages as plain values, the records that they are the
  forms of, and the conversions in both directions.
- `codec::{segment, segment_bytes, segment_capsule, segment_message}`: command segments and
  their canonical bytes, with their laws in `segment_bytes_laws` and `segment_laws`.
- `functions`: what it means that a hash or a framing gave an answer.

A message and the value that it is the form of are related by a `..._carries` predicate. Each
encoder ensures it, each decoder gives back a value that satisfies it or says why there is
none, and each `..._form_is_exact` lemma says that a message is the form of at most one value.
