use cargo_watch::commands::get_commands;
use cargo_watch::config::{get_debounce, get_watchexec_args, get_watches, watch_config_with_separator};
use cargo_watch::ignores::{default_ignore_patterns, get_ignores, ignores_with_separator, replace_slashes};
use cargo_watch::options::clone_strings;
use cargo_watch::{ConfigError, Delay, Options};

fn strings(v: &[&str]) -> Vec<String> {
    v.iter().map(|s| s.to_string()).collect()
}

fn no_options() -> Options {
    Options {
        cargo: Vec::new(),
        shell: Vec::new(),
        ignore_nothing: false,
        no_gitignore: false,
        ignore: Vec::new(),
        delay: None,
        watch: Vec::new(),
        no_restart: false,
        once: false,
        postpone: false,
        clear: false,
        poll: false,
        debug: false,
    }
}

fn unix_defaults() -> Vec<String> {
    strings(&[
        "*/.DS_Store",
        "*.sw?",
        "*.sw?x",
        "#*#",
        ".#*",
        ".*.kate-swp",
        "*/.hg/**",
        "*/.git/**",
        "*/.svn/**",
        "*.db",
        "*.db-*",
        "*/*.db-journal/**",
        "*/target/**",
    ])
}

fn platform(p: &str) -> String {
    p.replace('/', std::path::MAIN_SEPARATOR_STR)
}

#[test]
fn default_command_when_none_given() {
    assert_eq!(get_commands(&no_options()), strings(&["cargo check"]));
}

#[test]
fn cargo_commands_come_before_shell_commands() {
    let mut o = no_options();
    o.shell = strings(&["echo one", "echo two"]);
    o.cargo = strings(&["build", "test --lib"]);
    assert_eq!(
        get_commands(&o),
        strings(&["cargo build", "cargo test --lib", "echo one", "echo two"])
    );
}

#[test]
fn shell_commands_alone_are_kept_as_given() {
    let mut o = no_options();
    o.shell = strings(&["make all"]);
    assert_eq!(get_commands(&o), strings(&["make all"]));
}

#[test]
fn cargo_commands_alone_are_prefixed() {
    let mut o = no_options();
    o.cargo = strings(&["clippy"]);
    assert_eq!(get_commands(&o), strings(&["cargo clippy"]));
}

#[test]
fn ignore_nothing_overrides_other_ignore_options() {
    let mut o = no_options();
    o.ignore_nothing = true;
    o.no_gitignore = false;
    o.ignore = strings(&["*.log", "docs/**"]);
    assert_eq!(get_ignores(&o), (true, Vec::new()));
    assert_eq!(ignores_with_separator(&o, "\\"), (true, Vec::new()));
}

#[test]
fn default_ignores_with_slash() {
    assert_eq!(default_ignore_patterns("/"), unix_defaults());
}

#[test]
fn default_ignores_with_backslash() {
    let v = default_ignore_patterns("\\");
    assert_eq!(v.len(), 13);
    assert_eq!(v[0], "*\\.DS_Store");
    assert_eq!(v[1], "*.sw?");
    assert_eq!(v[7], "*\\.git\\**");
    assert_eq!(v[11], "*\\*.db-journal\\**");
    assert_eq!(v[12], "*\\target\\**");
}

#[test]
fn user_ignores_follow_defaults_in_order() {
    let mut o = no_options();
    o.no_gitignore = true;
    o.ignore = strings(&["*.log", "gen/out/**"]);
    let (novcs, patterns) = ignores_with_separator(&o, "/");
    assert!(novcs);
    let mut want = unix_defaults();
    want.push("*.log".to_string());
    want.push("gen/out/**".to_string());
    assert_eq!(patterns, want);
}

#[test]
fn user_ignores_are_rewritten_for_backslash() {
    let mut o = no_options();
    o.ignore = strings(&["gen/out/**", "a.txt"]);
    let (novcs, patterns) = ignores_with_separator(&o, "\\");
    assert!(!novcs);
    assert_eq!(patterns.len(), 15);
    assert_eq!(patterns[13], "gen\\out\\**");
    assert_eq!(patterns[14], "a.txt");
}

#[test]
fn platform_ignores_use_the_platform_separator() {
    let mut o = no_options();
    o.ignore = strings(&["gen/out/**"]);
    let (novcs, patterns) = get_ignores(&o);
    assert!(!novcs);
    let mut want: Vec<String> = unix_defaults().iter().map(|p| platform(p)).collect();
    want.push(platform("gen/out/**"));
    assert_eq!(patterns, want);
}

#[test]
fn replace_slashes_rewrites_every_slash() {
    assert_eq!(replace_slashes("a/b/c", "\\"), "a\\b\\c");
    assert_eq!(replace_slashes("/x/", "\\"), "\\x\\");
    assert_eq!(replace_slashes("no slash", "\\"), "no slash");
    assert_eq!(replace_slashes("a/b", "/"), "a/b");
    assert_eq!(replace_slashes("", "\\"), "");
    assert_eq!(replace_slashes("é/ü", "\\"), "é\\ü");
}

#[test]
fn debounce_defaults_to_500() {
    assert_eq!(get_debounce(&no_options()), Ok(500));
}

#[test]
fn debounce_takes_the_given_millis() {
    let mut o = no_options();
    o.delay = Some(Delay::Millis(1500));
    assert_eq!(get_debounce(&o), Ok(1500));
    o.delay = Some(Delay::Millis(0));
    assert_eq!(get_debounce(&o), Ok(0));
    o.delay = Some(Delay::Millis(u32::MAX));
    assert_eq!(get_debounce(&o), Ok(u32::MAX));
}

#[test]
fn invalid_delay_is_an_error() {
    let mut o = no_options();
    o.delay = Some(Delay::Invalid);
    assert_eq!(get_debounce(&o), Err(ConfigError::InvalidDelayValue));
    assert!(matches!(get_watchexec_args(&o), Err(ConfigError::InvalidDelayValue)));
}

#[test]
fn watches_keep_their_order() {
    let mut o = no_options();
    assert!(get_watches(&o).is_empty());
    o.watch = strings(&["src", "tests", "benches"]);
    assert_eq!(get_watches(&o), strings(&["src", "tests", "benches"]));
}

#[test]
fn clone_strings_copies_each_string() {
    let v = strings(&["a", "", "bc"]);
    assert_eq!(clone_strings(&v), v);
}

#[test]
fn watch_src_with_everything_else_default() {
    let mut o = no_options();
    o.watch = strings(&["src"]);
    let c = get_watchexec_args(&o).unwrap();
    assert_eq!(c.cmd, strings(&["cargo check"]));
    assert!(!c.no_vcs_ignore);
    let want: Vec<String> = unix_defaults().iter().map(|p| platform(p)).collect();
    assert_eq!(c.ignores, want);
    assert_eq!(c.debounce, 500);
    assert_eq!(c.poll_interval, 500);
    assert_eq!(c.paths, strings(&["src"]));
    assert!(c.restart);
    assert!(c.run_initially);
    assert!(c.filters.is_empty());
    assert!(!c.no_shell);
    assert!(c.signal.is_none());
    assert!(!c.no_ignore);
    assert!(!c.once);
    assert!(!c.poll);
    assert!(!c.clear_screen);
    assert!(!c.debug);
}

#[test]
fn cargo_build_test_shell_echo_with_quarter_second_delay() {
    let mut o = no_options();
    o.cargo = strings(&["build", "test"]);
    o.shell = strings(&["echo done"]);
    o.delay = Some(Delay::Millis(250));
    let c = get_watchexec_args(&o).unwrap();
    assert_eq!(c.cmd, strings(&["cargo build", "cargo test", "echo done"]));
    assert_eq!(c.debounce, 250);
    assert_eq!(c.poll_interval, 250);
}

#[test]
fn flags_pass_through() {
    let mut o = no_options();
    o.no_restart = true;
    o.once = true;
    o.postpone = true;
    o.clear = true;
    o.poll = true;
    o.debug = true;
    o.no_gitignore = true;
    let c = watch_config_with_separator(&o, "/").unwrap();
    assert!(!c.restart);
    assert!(c.once);
    assert!(!c.run_initially);
    assert!(c.clear_screen);
    assert!(c.poll);
    assert!(c.debug);
    assert!(c.no_vcs_ignore);
    assert_eq!(c.ignores, unix_defaults());
}

#[test]
fn debounce_and_poll_interval_agree() {
    for ms in [0u32, 1, 250, 500, 1500, u32::MAX] {
        let mut o = no_options();
        o.delay = Some(Delay::Millis(ms));
        let c = watch_config_with_separator(&o, "\\").unwrap();
        assert_eq!(c.debounce, u64::from(c.poll_interval));
        assert_eq!(c.poll_interval, ms);
    }
    let c = get_watchexec_args(&no_options()).unwrap();
    assert_eq!(c.debounce, u64::from(c.poll_interval));
}
