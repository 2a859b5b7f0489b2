# focusd

A terminal pomodoro timer with a background daemon, a waybar module and an
interactive terminal interface.

## Layout

- `src/` is the library, verified with Verus: the timer's state machine
  (`engine`), the daemon's protocol (`daemon`), sessions and presets
  (`session`, `config`), edits of the configuration file (`config_file`),
  the history database's schema steps (`schema`), statistics and streaks
  (`stats`), the text the interface and the waybar module show (`durations`,
  `pages`, `settings`, `merge_block`, `tui`, `waybar`, `notification`) and
  the string helpers they share (`text`).
- `app/` is the program around it: the command line, the Unix socket, the
  SQLite database, notifications, hook processes and the drawing of the
  terminal interface.
- `tests/` runs the library on concrete values.

Transitions of the timer return the work they leave to the caller (record a
session, run a hook, write the configuration) as a list of effects, which
the daemon carries out in order.
