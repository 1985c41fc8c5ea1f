# raddio

A tiny terminal launcher: tune into a *station*, type some input, and raddio
runs the station's command with that input in place of the `{}` placeholder.

- `src/` is the library, verified with Verus:
  - `config/ui_config.rs`: the UI settings, how one layer of settings is laid
    over another, the built-in defaults, and the laws of layering.
  - `config/station.rs`: stations, filling the command template, the default
    used for an empty submission.
  - `config/mod.rs`: the configuration, the global and per-station UI
    settings, the example configuration, station lookup.
  - `config/utils.rs`: reading hex colors, where the configuration file lies.
  - `ui.rs`: what a key press does, where the prompt box stands, and the
    resolved look of the box.
  - `args.rs`: the command-line model.
- `app/` is the program around it: clap, the JSON5 configuration file,
  crossterm, ratatui and edtui, and starting the station's process.
- `tests/` runs the library on concrete values.
