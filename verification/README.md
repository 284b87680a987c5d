# mnem-cli

The command-line front end of Mnemosyne, a background service that keeps the
history of every file of a project. `mnem` lists the tracked projects, shows
their activity and statistics, searches and restores stored versions, and
offers an interactive terminal interface.

## Layout

- `src/` — the library `mnem_cli`, verified with Verus: command routing, the
  command registry, argument parsing, listings and their paging, the history
  feed and its commit summary, project lookup, search grouping and
  highlighting, restore and configuration plans, release selection for
  updates, and the state machine of the terminal interface with its
  navigation laws.
- `tests/` — tests of the library on concrete values.
- `app/` — the program `mnem`: command line, terminal output, the daemon
  client and the local database, the terminal loop. It makes the outside
  calls and leaves every decision to the library.

Outside calls that the library makes (chrono's timestamp formatting,
similar's line diff, std's path and case functions) stand behind small
wrappers whose contracts name their results.
