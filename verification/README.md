# cc_switch_settings

The settings commands of a provider switcher, with what they decide verified by Verus.

- `src/settings.rs`: the settings and their models.
- `src/merge.rs`: what the frontend is shown, and how a save is merged into the settings in force.
- `src/save.rs`, `src/save_laws.rs`: the steps of a save, and what holds of every save.
- `src/update.rs`, `src/update_laws.rs`: the steps of an update, and what holds of every update.
- `src/download.rs`: progress of a download.
- `src/exit.rs`: the steps that precede a restart.
- `src/logger.rs`: the verbosity of the process's logger.
- `src/history.rs`, `src/auto_launch.rs`, `src/config.rs`, `src/reply.rs`: the remaining commands
  and their replies.

A command that waits for something outside is a value that says which step is due (`action`) and
goes on once it is told how the step went (`next`). `app/` holds the Tauri commands that perform
the steps; `app/host.rs` names what they need of the rest of the application.
