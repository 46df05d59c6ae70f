# trivia

Server-side logic of a team trivia game, verified with Verus.

- `src/` is the verified library: join codes (`random_str`, `joincode`),
  configuration parsing (`config`), admin accounts and session tokens (`admin`,
  `auth`, `password`), database records (`db`), the decisions of the web layer
  (`routes`) and the game state types (`state`). Calls into outside crates
  (`rustrict`, `rand`, `argon2`, `base64`, `sha2`, `jiff`) stand behind small
  trusted wrappers whose contracts are documented beside them.
- `app/` is the HTTP server around the library: environment, SQLite access,
  axum routes and templates.
- `tests/` exercises the library on concrete values.
