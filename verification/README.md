# task_service

A task-tracking web service whose rules are verified with Verus.

- `src/` is the verified library. Each operation of the task and account services
  (`task_service.rs`, `user_service.rs`) is a small state machine: a first call says
  which query the store must answer, and `resume` takes each answer to the next query
  or to the result. The transition rules are stated as spec functions, and the proof
  functions at the end of each file prove what every run keeps (a cancelled task is never
  updated, a user only ever changes a status, a token is handed out only after the
  password checked out, a taken phone is never registered, every operation ends).
  `handlers.rs` decides the HTTP reply of each task route, `auth.rs` reads bearer tokens
  and guards the admin routes, `credentials.rs` hashes and checks passwords with bcrypt
  and builds token claims, `task_status.rs` and `user_role.rs` hold the stored texts.
- `app/` is the axum server around it: routes, middleware, the PostgreSQL store (sqlx),
  JWT signing and checking, JSON forms of the library's values, and the loops that run
  the state machines against the store.
- `tests/` exercises the library on concrete values.
