# todo_api

A web service for a to-do list (tasks, projects, areas and tags, each owned
by a user), with its statement building proved in Verus.

- `src/` is the verified library: the SQL query builder (`sql_builder`), the
  request bodies and the statements they render (`schema`, `models`,
  `routes`, `request`, `storage`), the rows and their responses (`model`,
  `database`), the errors sent to clients (`error`), and what the route
  handlers decide (`handler`): the statements they send, paging, which rows
  a tag search keeps, and how registration and login end. Each public
  function states its result exactly; the laws of the builder and of the
  requests stand beside them as proof functions.
- `app/` is the HTTP server around it: configuration, the connection pool,
  the routes, JSON bodies in and out, and the calls to the database.
- `tests/` runs the library on concrete requests.
