# doom_cli

A launcher for Doom: it finds engines, IWADs and maps on disk, keeps them in a small
SQLite database, groups them into profiles, and starts an engine with a profile, the
play settings and any extra arguments. Maps can be opened in an editor, their readmes
viewed, and new maps searched for and downloaded from the idgames archive.

## Layout

- `src/` is the library, verified with Verus. It holds the records and their display
  text, the lookups over stored records, the menus (pages, entries, commands and
  what each command comes to), the command line (what each action comes to), the
  play settings, the launch commands, path and readme handling, version parsing, the
  archive's answers, and the decisions behind set-up: which found files are added,
  kept or deleted. Every public function states its result in its contract; the
  laws that relate several functions are public proof functions (`law_...`).
- `app/` is the program around it: the command-line parser, the database, the
  prompts, the searches of the disk, PowerShell and property-list probes, the
  network, and launching programs. It hands the library plain values and acts on
  what comes back.
- `tests/` runs the library on concrete values.
