# bs2

The verified core of BS2, the tool suite that brings the Source 2 Tools
(distributed with Counter-Strike 2) to Bevy projects.

- `src/` (Verus): the decisions of the manager and of the tools launcher.
  - `ident`: which project names are accepted.
  - `text`: string equality and decimal rendering.
  - `disk`: the two look-ups that ask the file system, each recording the path it asked about.
  - `paths`: joining paths, canonical paths without the `\\?\` prefix.
  - `config`: the configuration and its defaults.
  - `projects`: the projects page (selection, lookup, creation, launching the tools, validation).
  - `setup`: the state of the Counter-Strike 2 installation and of the setup.
  - `setup_run`: the one-time setup as a state machine, with its laws.
  - `launcher`: the engine's command line, the launcher's folder, the Asset Browser watcher.
- `app/`: the file system, the configuration file, the Windows calls of the
  launcher, and a command-line front end in place of the graphical one.
- `tests/`: tests of the library on concrete values.
