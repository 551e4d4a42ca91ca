# sbtui

A terminal client (and the decision logic of a desktop client) for the
sing-box proxy core, with its logic verified by Verus.

## Layout

- `src/` — the verified library. Every decision the two interfaces make
  stands here with a contract: the key map and view state of the terminal
  client (`tui`, `tui_keys`, `tui_state`, `tui_views`, `tui_pages`,
  `tui_logs`, `tui_override`), the desktop client's fields, search boxes,
  dashboard, override page, languages and start-up report (`gui_*`), and the
  pieces both share: the clash_api wire model (`clash_api`), the connection
  table (`connections`), release, checksum and archive-unpacking rules
  (`core_release`), the
  runtime configuration rewrite (`runtime_config`), system-proxy commands
  (`system_proxy`), byte and text formatting (`format`, `text`, `style`),
  sorting (`order`), the engine's bookkeeping (`engine_state`) and the
  request and snapshot types (`command`, `snapshot`). Laws that relate several functions are public proof
  functions next to them.
- `tests/` — tests of the library on concrete values.
- `app/` — the program: the terminal, the keyboard, the HTTP channel to the
  core, the core process, the operating system's proxy settings, and the
  drawing of the pages the library composes.

## Trusted boundary

The library calls a few outside functions through wrappers whose contracts
are believed, not proved: `String::push`, `str::to_lowercase`, `ratatui::text::Line::width`,
`Duration::from_secs`, `sha2::Sha256::digest`, the `zip` crate's archive
reader, and serde_json's parser,
printer and the `Value`/`Map` constructors and accessors the configuration
rewrite is built from; what a JSON value holds is modelled as plain values
(`runtime_config::JsonModel`) and the rewrite itself is verified. Each
wrapper's doc comment says what its contract claims.
