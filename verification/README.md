# lime_tui

The decision-making core of a terminal conversation client, written in Verus
and proved against its contracts.

- `src/` is the verified library: locale tables and tag parsing, slash
  commands and settings cycling, the conversation projection (items to
  transcript entries, streaming deltas, grouped history, hidden review
  prompts), transcript cells and their bounded detail lines, the pager's
  scroll state, the model and session pickers (with paged loading, the
  picker's event loop and its screen text), the MCP inventory, Markdown
  table layout, terminal insert planning, the style changes that draw
  styled spans (`span_style`), the multi-agent summaries, and
  the interactive loop's decisions (`runtime::step`): one event in, the
  next state and a command out.
- `app/` is the thin edge around it: environment variables, the file
  system, the home directory, crossterm events and JSON payloads, turned
  into the plain values the library works on, and two small drivers that
  run the picker's and the session's step functions against an outside
  connection.
- `tests/` exercise the library on concrete values.

Four trusted wrappers stand between the library and code it does not
prove: display widths come from the `unicode-width` crate
(`width::display_width`); the lower-case mapping used by the model
picker's search comes from `str::to_lowercase` (`text::to_lowercase`);
appending a character to a string is `String::push` (`text::push_char`);
and a directory shown relative to the home directory comes from
`Path::strip_prefix` (`history_cell::session::relative_to`).
