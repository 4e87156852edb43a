use vstd::prelude::*;

use crate::commands::{commands_of, get_commands};
use crate::ignores::{ignores_of, ignores_with_separator, main_separator};
use crate::options::{clone_strings, ConfigError, Delay, Options, WatchConfig};

verus! {

/// The debounce window, in milliseconds, when no delay is given.
pub const DEFAULT_DEBOUNCE_MS: u32 = 500;

/// The debounce window in milliseconds, or why there is none.
pub open spec fn debounce_of(delay: Option<Delay>) -> Result<u32, ConfigError> {
    match delay {
        None => Ok(DEFAULT_DEBOUNCE_MS),
        Some(Delay::Millis(ms)) => Ok(ms),
        Some(Delay::Invalid) => Err(ConfigError::InvalidDelayValue),
    }
}

/// The debounce window for `options`, in milliseconds.
pub fn get_debounce(options: &Options) -> (r: Result<u32, ConfigError>)
    ensures
        r == debounce_of(options.delay),
        options.delay is None ==> r == Ok::<u32, ConfigError>(500),
        r is Err <==> options.delay == Some(Delay::Invalid),
{
    match &options.delay {
        None => Ok(DEFAULT_DEBOUNCE_MS),
        Some(Delay::Millis(ms)) => Ok(*ms),
        Some(Delay::Invalid) => Err(ConfigError::InvalidDelayValue),
    }
}

/// The paths to watch, in their given order.
pub fn get_watches(options: &Options) -> (r: Vec<String>)
    ensures
        r.deep_view() == options.watch.deep_view(),
{
    clone_strings(&options.watch)
}

/// `c` is what `options` resolve to, on a platform whose path separator is
/// `sep`, with a debounce window of `debounce` milliseconds.
pub open spec fn resolves_to(c: WatchConfig, options: Options, sep: Seq<char>, debounce: u32) -> bool {
    &&& c.filters.len() == 0
    &&& !c.no_shell
    &&& c.once == options.once
    &&& c.signal is None
    &&& c.restart == !options.no_restart
    &&& c.poll == options.poll
    &&& c.poll_interval == debounce
    &&& c.debounce == debounce as u64
    &&& (c.no_vcs_ignore, c.ignores.deep_view()) == ignores_of(
        options.ignore_nothing,
        options.no_gitignore,
        options.ignore.deep_view(),
        sep,
    )
    &&& !c.no_ignore
    &&& c.clear_screen == options.clear
    &&& c.debug == options.debug
    &&& c.run_initially == !options.postpone
    &&& c.cmd.deep_view() == commands_of(options.cargo.deep_view(), options.shell.deep_view())
    &&& c.paths.deep_view() == options.watch.deep_view()
}

/// The resolved configuration, from its parts.
fn assemble(options: &Options, ignores: (bool, Vec<String>), debounce: u32) -> (r: WatchConfig)
    ensures
        r.debounce == debounce as u64,
        r.poll_interval == debounce,
        r.no_vcs_ignore == ignores.0,
        r.ignores == ignores.1,
        r.filters.len() == 0,
        !r.no_shell,
        r.once == options.once,
        r.signal is None,
        r.restart == !options.no_restart,
        r.poll == options.poll,
        !r.no_ignore,
        r.clear_screen == options.clear,
        r.debug == options.debug,
        r.run_initially == !options.postpone,
        r.cmd.deep_view() == commands_of(options.cargo.deep_view(), options.shell.deep_view()),
        r.paths.deep_view() == options.watch.deep_view(),
{
    let (novcs, ignores) = ignores;
    WatchConfig {
        filters: Vec::new(),
        no_shell: false,
        once: options.once,
        signal: None,
        restart: !options.no_restart,
        poll: options.poll,
        poll_interval: debounce,
        debounce: debounce as u64,
        ignores,
        no_vcs_ignore: novcs,
        no_ignore: false,
        clear_screen: options.clear,
        debug: options.debug,
        run_initially: !options.postpone,
        cmd: get_commands(options),
        paths: get_watches(options),
    }
}

/// The configuration that `options` resolve to, on a platform whose path
/// separator is `sep`.
pub fn watch_config_with_separator(options: &Options, sep: &str) -> (r: Result<
    WatchConfig,
    ConfigError,
>)
    ensures
        r is Err <==> options.delay == Some(Delay::Invalid),
        r is Err ==> r->Err_0 == ConfigError::InvalidDelayValue,
        r is Ok ==> resolves_to(r->Ok_0, *options, sep@, debounce_of(options.delay)->Ok_0),
        r is Ok ==> r->Ok_0.debounce == r->Ok_0.poll_interval as u64,
{
    let ignores = ignores_with_separator(options, sep);
    match get_debounce(options) {
        Ok(debounce) => Ok(assemble(options, ignores, debounce)),
        Err(e) => Err(e),
    }
}

/// The configuration that `options` resolve to on this platform.
pub fn get_watchexec_args(options: &Options) -> (r: Result<WatchConfig, ConfigError>)
    ensures
        r is Err <==> options.delay == Some(Delay::Invalid),
        r is Err ==> r->Err_0 == ConfigError::InvalidDelayValue,
        r is Ok ==> exists|sep: Seq<char>|
            sep.len() == 1 && #[trigger] resolves_to(
                r->Ok_0,
                *options,
                sep,
                debounce_of(options.delay)->Ok_0,
            ),
        r is Ok ==> r->Ok_0.debounce == r->Ok_0.poll_interval as u64,
{
    let sep = main_separator();
    let r = watch_config_with_separator(options, sep);
    if r.is_ok() {
        assert(resolves_to(r->Ok_0, *options, sep@, debounce_of(options.delay)->Ok_0));
    }
    r
}

} // verus!
