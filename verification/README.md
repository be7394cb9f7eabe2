# hydra_gui

The verified core of a graphical download manager: the download list and its
queues, the dialogs, the scheduler, the download limit, names on disk, the menus,
the log, browser and login registration, and the update pipeline.

The state of the program is one value, `app::App`. Everything that can happen to
it is an `app::update::Message`; `App::update` changes the state and asks for what
has to be done outside as `effect::Effect` values. Each step is specified on
`AppModel`, the mathematical model of the state, and proved to do exactly what
that says. `app::invariants` proves what every message keeps.

* `src/` is the library. Everything in it is verified.
* `tests/` runs it.
* `app/` is a terminal front end: arguments, files, processes, and the
  performance of effects.

Outside crates are called through a few trusted functions, each beside what is
claimed of it: `chrono` for dates, `png` for the logo, `serde_json` for
translations.
