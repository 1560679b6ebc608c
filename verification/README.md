# aegis

A runner for fast HTTP checks of web sites: `aegis smoke` checks one page,
`aegis fast` (alias `aegis test`) runs the `[[fast]]` and `[[smoke]]` checks of an
`aegis.toml`. The step-by-step test helper `fast(..)` (with `goto`, `click`,
`expect_*` and `check_links` on its page) is written in `app/dsl.rs`, a module of
the program; the program is a binary, so test crates cannot call it as
`aegis::fast`. The library offers the same steps without the requests:
`FastPage::record_response`, `click_target`, `link_probes` and the `try_expect_*`
checks.

## Layout

- `src/` is the library, verified with Verus. It holds everything the runner
  decides: the command line (`cli`), link handling in HTML and URLs (`links`),
  the checks a configuration describes (`config`), what a page holds (`page`),
  a single check as a state machine whose requests the caller makes (`check`),
  a suite of checks and its report (`suite`, `report`), the printed lines
  (`render`), and the statements that hold across these (`laws`). Each public
  function states its result in its `ensures`.
- `app/` is the `aegis` program: it reads files and the command line, makes the
  HTTP requests with reqwest, reads TOML with serde and toml, writes JSON with
  serde_json, and prints what the library decided.
- `tests/` runs the library on concrete values.
