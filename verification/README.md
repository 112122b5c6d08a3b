# backend

The request-handling rules of a collaborative document service, verified
with Verus.

- `src/` is the verified library:
  - `permission.rs`: which role on a document meets which requirement, the
    answer to a permission lookup, and the rule that keeps a document from
    losing its last owner;
  - `flow.rs`: each request as a state machine that names the next database
    query to run and turns each answer into the next step or the reply,
    with the laws that hold of every run;
  - `routes.rs`: the table of document routes;
  - `model.rs`, `error.rs`: the data and errors that requests carry.
- `app/` runs the machine: it opens the database pool, performs each query
  with sqlx, serves the handlers with axum and sends replies as JSON.
- `tests/` drives the library with database answers written by hand.
