# process_monitor

A terminal process monitor. The library under `src/` holds the logic,
written in Verus and proved against its contracts:

- a small filter language for processes (`lexer`, `parser`), read from an
  ASCII text buffer (`buffer`);
- the process table with per-process statistics, filtered and stably
  sorted (`table`, `process_stats`, `row_order`);
- columns, row and column selections, scrolling and the views of the table
  (`column`, `row_selection`, `scroll`, `table_state`, `views`);
- the key handling of the components and the application as state
  machines from a key to the next state and an answer
  (`process_table_component`, `table_model`, `text_line`, `application`).

`app/` is the program around it: it samples processes with `sysinfo`,
reads keys with `crossterm`, draws with `ratatui`, keeps the configuration
in TOML files, and computes floating-point means of the CPU samples that
the library hands over as bit patterns.

`tests/` runs the library on concrete values.
