# restix

A terminal browser for Redis keyspaces: a keys table with type badges, TTLs and
memory sizes, a details panel, a scrollable value panel that pretty-prints JSON,
a settings panel and a dialog to connect to, or test, another Redis URL, which is
remembered in `~/.restix.conf`.

- `src/` is the library, verified with Verus: text and number formatting, the
  configuration file format, the panels' state and what they show, the key
  bindings, and the application's reaction to each key press and to the outcome
  of each network operation.
- `app/` is the program around it: terminal input and drawing (ratatui,
  crossterm), the Redis connection (redis), and the configuration file on disk.
- `tests/` runs the library on concrete inputs.
