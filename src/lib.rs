//! Resolves the options of a cargo file watcher into the configuration that
//! the watch-and-run engine is started with: the commands to run, the ignore
//! rules, the debounce window and the paths to watch.

pub mod commands;
pub mod config;
pub mod ignores;
pub mod options;

pub use commands::get_commands;
pub use config::{get_debounce, get_watchexec_args, get_watches};
pub use ignores::get_ignores;
pub use options::{ConfigError, Delay, Options, WatchConfig};
