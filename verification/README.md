# dovecote_sqlx

A verified core for Dovecote's durable event store on PostgreSQL and SQLite:
an outbox of immutable events, each with one delivery that workers claim under a
lease, acknowledge, retry, release or quarantine.

- `src/` is the library. It holds the decisions: what a stored row means, what a
  claim makes of the rows that it finds, who may change a delivery, what a
  duplicate is, which schema is the expected one, and what every reply of the
  database leads to. Each function states in its contract what it returns, and
  Verus proves it.
- `app/` runs the SQL with SQLx, hands the replies to the library and does what it
  decides. It also holds the public handles, the error types with their messages
  and the conversions from and to the domain's types.
- `tests/` runs the library, the SQLite parts against a database in memory.

Operations are written as steps. A step says what to ask of the database next; the
function `after_...` takes the reply and gives the next step or the outcome. Every
update of a delivery row, with its parameters, is rendered from the lists of
assignments in `src/transition.rs`, and the laws about deliveries are proved of
those lists. The conditions of the updates and the other statements, among them
the queries for claimable rows and the inserts, are SQL text that no proof reads.

What the library takes on trust of the crates that it calls, and of std where Verus
has no contract for it, stands in small wrappers and specifications, each with a
comment that names the outside function: `src/attribute.rs`, `src/event.rs`,
`src/delivery.rs` and `src/validation.rs` for the domain's types, `src/instant.rs`
for RFC 3339, `src/token.rs` for entropy, `src/sql_error.rs` for SQL errors,
`src/text.rs`, `src/json.rs`, `src/sqlite/busy.rs` and
`src/sqlite/schema/normalization.rs` for texts, characters and durations of std.
