# buildingstore_be

The back end of a building-supply store: customer records, payments with
their installment rules, and user sessions.

- `src/` is the verified library (Verus). It holds the models, the sorting
  and filtering of customers, the payment state machine, strategies,
  observers and commands, an in-memory payment store with its service and
  controller, the reading and writing of database rows, the building of
  listing queries, and what the payment and customer endpoints answer for
  each outcome, refusals included. The login, registration and logout
  answers are written in `app/`. Amounts are whole currency units and times
  are Unix timestamps in whole seconds.
- `app/` is the HTTP server around it (Rocket, sqlx): routes, the request
  guard, the database queries, and serializable copies of the library's
  types.
- `tests/` exercises the library from outside.
