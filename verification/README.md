# letta

A client library for the [Letta](https://letta.com) REST API whose logic is
specified and proved with Verus, and a command-line tool built on it.

- `src/` — the library. Each public function carries a contract stating what it
  returns; the laws that relate several functions are public proof functions
  (`law_*`). Calls into `serde_json`, `uuid`, `reqwest`/`http`, `url` and
  `serde_urlencoded` go through small wrappers whose contracts name or state
  their results.
- `tests/` — tests of the library on concrete values.
- `app/` — the `letta` command-line program: argument parsing, HTTP, files,
  retries' timing and terminal output, around the library's decisions.
