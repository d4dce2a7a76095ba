# pg_query_gate

Deny-by-default validation and session hardening for serving untrusted SQL on
PostgreSQL, verified with Verus.

```rust
use pg_query_gate::{session, Policy};

let policy = Policy::default(); // strictest posture; grow allowlists deliberately
policy.validate(user_sql)?; // Err(reason) refuses the query

let role = session::SessionRole::Anonymous { role_name: "query_ro".into() };
let timeout = session::effective_statement_timeout_ms(&role, requested_ms);
for statement in session::build_setup_statements(&role, &[], timeout, &Default::default())? {
    // run inside the query's transaction, before the query
}
```

## Layout

- `tree` is the statement tree that the gates read, with a model of each node;
  `sql` says what is believed of the SQL parser, one level of its tree at a
  time; `reader` makes the one of the other.
- `relations`, `bounds`, `joins`, `aggregates`, `calls` and `tokens` are the
  single gates; `gates` applies those that hold of every nested query;
  `validate` puts them in order.
- `laws` states what every accepted statement obeys. The main one is
  `law_accepted_exactly`: a text passes exactly if it is one bounded, read-only
  statement that no block list touches.
- `session` is the `SET LOCAL` battery, the timeout clamp and the latency
  histogram, with their laws.
- `shape` hashes query shapes; `parse_error` explains parse errors.
- `policy`, `refusal` and `text` hold what the others share.
- `app/` records latencies from many threads, in shared atomics.

Every gate has the refusal it gives as a specification function: `None` where it
lets a statement pass, the exact message where it does not.
