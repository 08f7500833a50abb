# host-desktop

The desktop host of iOS Control: it finds its runtime plugins, keeps an
inventory of the phones it can reach, and runs device sessions with a live
preview whose pointer and keyboard input is forwarded to the phone.

## Layout

- `src/` is the verified library.
  - `inventory/`: the providers' observations and how they merge into
    inventory rows.
  - `app/`: the host's state machine. It never does I/O itself: what it needs
    from the session runtime, the preferences file or the log file it hands
    out as requests and flags, and takes the answers back through its
    `finish_*` methods. `app/laws.rs` states what holds across its operations.
  - `preview.rs`: the input bridge from the preview to the phone's HID reports.
  - `view_models/`, `panels/`: what the panes show and the actions they report.
  - `bootstrap/`: finding the plugins, and the startup pane from their probes.
  - `preferences.rs`, `logging.rs`, `host_path.rs`, `text.rs`: the saved
    preferences, the log file's name, paths and text.
- `tests/` runs the library on concrete values.
- `app/` is the program around the library: the egui window, the plugin
  probes and session runtime, and the preferences and log files.
