# ChronoBind

ChronoBind is a terminal application for World of Warcraft players: it lists
the characters of each installed WoW branch, lets you pick their configuration
and addon files, backs them up into zip archives, restores backups, and copies
("pastes") files from one character to another, keeping a bounded number of
automatic backups.

## Layout

- `src/` is the `chronobind` library, verified with Verus: backup file names
  and their parsing, the ordering and clean-up of backups, reading characters
  and files from folder listings, the character and file lists, every popup's
  key handling, the text input, the options, the console scrolling, the log,
  the parser of Lua saved-variable tables, and the application's decisions
  (where a key goes, what a popup's message leads to, the texts shown).
  Calls into `chrono` and into std's Unicode and path functions go through
  small trusted wrappers whose contracts are stated next to them.
- `tests/` exercises the library on concrete values.
- `app/` is the program around it: command line, terminal set-up and
  drawing (ratatui), file system access, zip archives, the configuration
  file and the Battle.net product database.
