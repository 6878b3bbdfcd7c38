# sprintly

The verified core of Sprintly, a task-management REST API (workspaces, projects,
tasks, cookie-based sessions).

- `src/` is the library, checked by Verus: configuration parsing (`config`),
  payload validation and its error report (`validation`, `dtos`), the error and
  success answers (`api_error`, `response`), session tokens (`jwt`: claims,
  expiry, signing and checking with jsonwebtoken), Argon2 password hashing
  (`hash`), authentication (`middleware`), and one step function per request handler
  (`flows`), which decides after each database round trip what happens next.
  `laws` holds properties that relate several calls.
- `app/` is the server around it: environment, PostgreSQL (sqlx), HTTP routes
  (axum), cookies and JSON. Each
  handler runs its step function in a loop and performs the operations it asks for.
- `tests/` exercises the library on concrete values.
