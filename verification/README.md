# sigroute

Sigroute is a Linux automation system: automations are made of triggers
(repeat every so often, on certain days, ...) and actions (run a command,
send a notification). A daemon keeps them in SQLite and runs them; a GTK
GUI edits them over D-Bus.

This crate is the logic of both, verified with Verus:

- `src/common.rs`: trigger and action kinds, their names, icons and options.
- `src/text.rs`, `src/json.rs`: decimal numbers, list joining, word
  splitting, and JSON as the logic reads it (parsing and printing are done
  by `serde_json`).
- `src/trigger_summary.rs`, `src/action_summary.rs`: the one-line
  summaries the GUI shows.
- `src/runner.rs`: running an automation's actions one after the other.
- `src/pickers.rs`, `src/field_menu.rs`, `src/delete_menu.rs`: the option
  pickers and the menus that create, edit and delete triggers and actions.
- `src/app_model.rs`, `src/main_controller.rs`, `src/message.rs`,
  `src/views.rs`: the GUI's model, the controller that turns user events
  into requests to the daemon, and what the views show.
- `src/db.rs`: the decisions taken while setting up the database.

`app/` holds the programs around it: `sigroute` runs the daemon (SQLite,
D-Bus service, starting processes and sending notifications) and
`sigroute gui` runs the GTK/libadwaita GUI.
