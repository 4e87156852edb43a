use vstd::prelude::*;

verus! {

/// The delay option, as the argument layer read it.
pub enum Delay {
    /// A number of seconds, already turned into whole milliseconds.
    Millis(u32),
    /// A value that does not read as a number of seconds.
    Invalid,
}

/// The reasons the options cannot be resolved.
#[derive(Debug, PartialEq, Eq, Structural)]
pub enum ConfigError {
    /// The delay option does not read as a number of seconds.
    InvalidDelayValue,
}

/// The user's options, one field per option of the command line.
pub struct Options {
    /// Cargo subcommands to run, each with its arguments (`build`, `test --lib`).
    pub cargo: Vec<String>,
    /// Shell commands to run after the cargo ones.
    pub shell: Vec<String>,
    /// Ignore nothing at all: no default patterns and no VCS ignore files.
    pub ignore_nothing: bool,
    /// Do not load `.gitignore` and the like.
    pub no_gitignore: bool,
    /// Extra glob patterns to ignore, written with `/`.
    pub ignore: Vec<String>,
    /// The delay option, if it was given.
    pub delay: Option<Delay>,
    /// Paths to watch.
    pub watch: Vec<String>,
    /// Let a running command finish instead of restarting it on a change.
    pub no_restart: bool,
    /// Run the commands once and stop.
    pub once: bool,
    /// Wait for a first change before running the commands.
    pub postpone: bool,
    /// Clear the screen before each run.
    pub clear: bool,
    /// Poll for changes instead of asking the OS for events.
    pub poll: bool,
    /// Report the resolved values.
    pub debug: bool,
}

/// What the watch-and-run engine is started with.
pub struct WatchConfig {
    /// Globs a change must match to count; empty counts every change.
    pub filters: Vec<String>,
    /// Run the commands without a shell.
    pub no_shell: bool,
    pub once: bool,
    /// A signal to send to the running command on a change.
    pub signal: Option<String>,
    /// Restart a running command on a change.
    pub restart: bool,
    pub poll: bool,
    /// Polling interval, in milliseconds.
    pub poll_interval: u32,
    /// Debounce window, in milliseconds.
    pub debounce: u64,
    /// Globs of paths whose changes are ignored.
    pub ignores: Vec<String>,
    /// Leave `.gitignore` and the like unread.
    pub no_vcs_ignore: bool,
    /// Leave `.ignore` files unread.
    pub no_ignore: bool,
    pub clear_screen: bool,
    pub debug: bool,
    /// Run the commands once at start, before any change.
    pub run_initially: bool,
    /// The commands, run in order.
    pub cmd: Vec<String>,
    /// Paths to watch.
    pub paths: Vec<String>,
}

/// A copy of a list of strings.
pub fn clone_strings(v: &Vec<String>) -> (r: Vec<String>)
    ensures
        r.deep_view() == v.deep_view(),
{
    let mut r: Vec<String> = Vec::new();
    let mut i: usize = 0;
    while i < v.len()
        invariant
            i <= v.len(),
            r.len() == i,
            forall|k: int| 0 <= k < i ==> #[trigger] r[k]@ == v[k]@,
        decreases v.len() - i,
    {
        r.push(v[i].clone());
        i = i + 1;
    }
    assert(r.deep_view() =~= v.deep_view());
    r
}

} // verus!
