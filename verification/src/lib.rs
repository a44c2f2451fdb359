//! Decision logic behind the settings commands of a provider switcher.
//!
//! Every command is split at its edge: the code here decides what is stored,
//! in which order the outside steps run and what the caller is told, and the
//! application performs the steps and reports how each one went.
pub mod auto_launch;
pub mod command_laws;
pub mod config;
pub mod download;
pub mod exit;
pub mod history;
pub mod logger;
pub mod merge;
pub mod merge_laws;
pub mod reply;
pub mod save;
pub mod save_laws;
pub mod save_runs;
pub mod settings;
pub mod update;
pub mod update_laws;
pub mod update_runs;
