# mydone

The verified core of the Done task manager, written in Verus.

- `src/preferences.rs`: the preferences panel as a state machine from input
  to new preferences and the work to carry out (apply a style, save, emit,
  log in or out).
- `src/sidebar_list.rs`, `src/icon_names.rs`: the sidebar's smart lists and
  the user's own lists.
- `src/lists.rs`: task lists as database rows and as interface values.
- `src/task_details.rs`, `src/dates.rs`: the task details pane; dates are
  seconds since the Unix epoch, rendered and read back through chrono.
- `app/`: the GTK program (relm4), the configuration store (libset) and the
  SQLite database (diesel) around the library.
