# honkers_launcher

The verified core of a Linux game launcher (first-run wizard, Wine/DXVK components
manager, command line, start-up decisions), written in Verus.

- `src/` — the library. Every function has a contract that Verus proves.
  - `first_run.rs`: the wizard's steps, messages and state machine (`FirstRunState::update`).
  - `wizard.rs`: what each wizard page shows and which message each button sends.
  - `components.rs`: component groups and versions, download states, the components
    manager's state machine (`ComponentsListView::update`), the disk refresh and what the
    list shows.
  - `sync.rs`: the steps of bringing the components index up to date from the mirrors.
  - `cli.rs`: command-line parsing, log level and log filtering.
  - `launcher.rs`: folder preparation, direct game start, screen routing, file-moving plan.
  - `text.rs`: string helpers (equality, substring search, concatenation).
- `app/` — the program around it: file system, processes, logging, and the iced user
  interface. It performs the actions that the library's state machines return.
- `tests/` — tests of the library on concrete values.
