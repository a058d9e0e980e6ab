# rust_panel

The logic of a server-administration panel, verified with Verus: login and
session decisions, password hashing, the SM4 protection of login data and
edited files, directory listings, dashboard summaries, and the plans that
install and remove Nginx, MySQL, PostgreSQL, Redis and Docker.

- `src/` is the verified library. Installation procedures are computed as
  lists of steps (`models::system::installers`), each with an exact contract.
- `app/` is the web server around it (actix-web, diesel, sysinfo, tokio):
  it reads the host, runs the steps and answers HTTP requests.
- `tests/` exercises the library on concrete values.

Dependencies: besides the crates the panel itself uses, `Cargo.toml` names
`libsqlite3-sys` with its `bundled` feature, so that diesel's SQLite backend
links a SQLite built from source instead of needing one on the host. No code
of the project calls it.
