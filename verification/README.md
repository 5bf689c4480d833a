# at

AtFlow is a small terminal file flow: `@` opens a palette of the current
directory, typing turns the same page into a search (below the directory
where `@` was called, or under the configured roots), Enter opens the
selection (a `cd` for
directories, the editor for text and code, the system opener for anything
else), and a history database remembers where you went.

## Layout

- `src/` is the library, written in Verus: every function carries a
  `requires`/`ensures` contract that Verus proves. It holds the decisions of
  the program: what each key does to a palette, to Flow and to the settings
  menu; how long paths are clipped; which walked entries become search
  results; how the history records opens and ranks recent directories; what
  opening a path does; how the setup wizard reads its answers; and the shell
  text the program prints.
- `app/` is the `at` binary around the library: argument parsing, the
  terminal, the configuration file, the SQLite history file, the directory
  walk of a search, and launching editors and openers. It hands the library
  plain values and acts on what comes back.
- `tests/` runs the library on concrete values.
