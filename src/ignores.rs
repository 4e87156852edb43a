use vstd::prelude::*;

use crate::options::Options;

verus! {

/// `p` with each `/` written as `sep`.
pub open spec fn with_separator(p: Seq<char>, sep: Seq<char>) -> Seq<char>
    decreases p.len(),
{
    if p.len() == 0 {
        Seq::empty()
    } else {
        with_separator(p.drop_last(), sep) + if p.last() == '/' {
            sep
        } else {
            seq![p.last()]
        }
    }
}

/// `*<sep><dir><sep>**`: everything below a directory named `dir`.
pub open spec fn below_dir(sep: Seq<char>, dir: Seq<char>) -> Seq<char> {
    "*"@ + sep + dir + sep + "**"@
}

/// The patterns ignored by default: OS and editor droppings, the insides of
/// VCS directories, SQLite files and cargo's `target` directory.
pub open spec fn default_ignores(sep: Seq<char>) -> Seq<Seq<char>> {
    seq![
        "*"@ + sep + ".DS_Store"@,
        "*.sw?"@,
        "*.sw?x"@,
        "#*#"@,
        ".#*"@,
        ".*.kate-swp"@,
        below_dir(sep, ".hg"@),
        below_dir(sep, ".git"@),
        below_dir(sep, ".svn"@),
        "*.db"@,
        "*.db-*"@,
        below_dir(sep, "*.db-journal"@),
        below_dir(sep, "target"@),
    ]
}

/// Whether VCS ignore files are left unread, and the patterns to ignore.
pub open spec fn ignores_of(
    ignore_nothing: bool,
    no_gitignore: bool,
    extra: Seq<Seq<char>>,
    sep: Seq<char>,
) -> (bool, Seq<Seq<char>>) {
    if ignore_nothing {
        (true, Seq::empty())
    } else {
        (no_gitignore, default_ignores(sep) + extra.map_values(|p: Seq<char>| with_separator(p, sep)))
    }
}

/// Where the separator is `/` the patterns are left as they are.
pub proof fn lemma_slash_separator_keeps_patterns(p: Seq<char>)
    ensures
        with_separator(p, seq!['/']) == p,
    decreases p.len(),
{
    if p.len() > 0 {
        lemma_slash_separator_keeps_patterns(p.drop_last());
        assert(p.drop_last() + seq![p.last()] =~= p);
    }
}

/// `p` with each `/` written as `sep`.
pub fn replace_slashes(p: &str, sep: &str) -> (r: String)
    ensures
        r@ == with_separator(p@, sep@),
{
    let n = p.unicode_len();
    let mut r = String::new();
    let mut i: usize = 0;
    while i < n
        invariant
            i <= n,
            n == p@.len(),
            r@ == with_separator(p@.take(i as int), sep@),
        decreases n - i,
    {
        let c = p.get_char(i);
        if c == '/' {
            r.append(sep);
        } else {
            r.append(p.substring_char(i, i + 1));
        }
        assert(p@.take(i + 1).drop_last() =~= p@.take(i as int));
        assert(p@.subrange(i as int, i + 1) =~= seq![c]);
        i = i + 1;
    }
    assert(p@.take(n as int) =~= p@);
    r
}

/// `*<sep><dir><sep>**`.
fn below_dir_pattern(sep: &str, dir: &str) -> (r: String)
    ensures
        r@ == below_dir(sep@, dir@),
{
    let mut r = String::from_str("*");
    r.append(sep);
    r.append(dir);
    r.append(sep);
    r.append("**");
    r
}

/// The patterns ignored by default, written with `sep`.
pub fn default_ignore_patterns(sep: &str) -> (r: Vec<String>)
    ensures
        r.deep_view() == default_ignores(sep@),
{
    let mut ds_store = String::from_str("*");
    ds_store.append(sep);
    ds_store.append(".DS_Store");
    let r = vec![
        ds_store,
        String::from_str("*.sw?"),
        String::from_str("*.sw?x"),
        String::from_str("#*#"),
        String::from_str(".#*"),
        String::from_str(".*.kate-swp"),
        below_dir_pattern(sep, ".hg"),
        below_dir_pattern(sep, ".git"),
        below_dir_pattern(sep, ".svn"),
        String::from_str("*.db"),
        String::from_str("*.db-*"),
        below_dir_pattern(sep, "*.db-journal"),
        below_dir_pattern(sep, "target"),
    ];
    assert(r.deep_view() =~= default_ignores(sep@));
    r
}

/// Whether VCS ignore files are left unread, and the patterns to ignore, for
/// `options` on a platform whose path separator is `sep`.
pub fn ignores_with_separator(options: &Options, sep: &str) -> (r: (bool, Vec<String>))
    ensures
        (r.0, r.1.deep_view()) == ignores_of(
            options.ignore_nothing,
            options.no_gitignore,
            options.ignore.deep_view(),
            sep@,
        ),
        options.ignore_nothing ==> r.0 && r.1.len() == 0,
        !options.ignore_nothing ==> {
            &&& r.0 == options.no_gitignore
            &&& r.1.len() == default_ignores(sep@).len() + options.ignore.len()
            &&& r.1.deep_view().take(default_ignores(sep@).len() as int) == default_ignores(sep@)
            &&& forall|j: int|
                0 <= j < options.ignore.len() ==> r.1.deep_view()[default_ignores(sep@).len() + j]
                    == with_separator(#[trigger] options.ignore[j]@, sep@)
        },
{
    if options.ignore_nothing {
        return (true, Vec::new());
    }
    let mut patterns = default_ignore_patterns(sep);
    let n = patterns.len();
    let mut j: usize = 0;
    while j < options.ignore.len()
        invariant
            j <= options.ignore.len(),
            n == default_ignores(sep@).len(),
            patterns.len() == n + j,
            forall|k: int| 0 <= k < n ==> #[trigger] patterns[k]@ == default_ignores(sep@)[k],
            forall|k: int|
                0 <= k < j ==> #[trigger] patterns[n + k]@ == with_separator(
                    options.ignore[k]@,
                    sep@,
                ),
        decreases options.ignore.len() - j,
    {
        patterns.push(replace_slashes(options.ignore[j].as_str(), sep));
        j = j + 1;
    }
    let ghost want = default_ignores(sep@) + options.ignore.deep_view().map_values(
        |p: Seq<char>| with_separator(p, sep@),
    );
    assert forall|k: int| 0 <= k < patterns.len() implies patterns.deep_view()[k] == want[k] by {
        if k >= n {
            assert(patterns[n + (k - n)]@ == with_separator(options.ignore[k - n]@, sep@));
        }
    }
    assert(patterns.deep_view() =~= want);
    assert(patterns.deep_view().take(n as int) =~= default_ignores(sep@));
    (options.no_gitignore, patterns)
}

/// Relies on std::path::MAIN_SEPARATOR_STR: the path separator of the platform
/// the library was built for, one character (`/` on Unix, `\\` on Windows).
#[verifier::external_body]
pub(crate) fn main_separator() -> (r: &'static str)
    ensures
        r@.len() == 1,
{
    std::path::MAIN_SEPARATOR_STR
}

/// Whether VCS ignore files are left unread, and the patterns to ignore, for
/// `options` on this platform.
pub fn get_ignores(options: &Options) -> (r: (bool, Vec<String>))
    ensures
        exists|sep: Seq<char>|
            sep.len() == 1 && (r.0, r.1.deep_view()) == #[trigger] ignores_of(
                options.ignore_nothing,
                options.no_gitignore,
                options.ignore.deep_view(),
                sep,
            ),
        options.ignore_nothing ==> r.0 && r.1.len() == 0,
        !options.ignore_nothing ==> r.0 == options.no_gitignore && r.1.len() == 13
            + options.ignore.len(),
{
    let sep = main_separator();
    ignores_with_separator(options, sep)
}

/// Without the flag that ignores nothing, the patterns are the default ones
/// followed by the user's, in their order, with `/` written as the separator;
/// where the separator is `/` the user's patterns are kept as given.
pub proof fn lemma_user_patterns_follow_defaults(
    no_gitignore: bool,
    extra: Seq<Seq<char>>,
    sep: Seq<char>,
)
    ensures
        ({
            let (novcs, patterns) = ignores_of(false, no_gitignore, extra, sep);
            &&& novcs == no_gitignore
            &&& patterns.len() == default_ignores(sep).len() + extra.len()
            &&& forall|k: int|
                0 <= k < default_ignores(sep).len() ==> #[trigger] patterns[k] == default_ignores(
                    sep,
                )[k]
            &&& forall|j: int|
                0 <= j < extra.len() ==> patterns[default_ignores(sep).len() + j]
                    == with_separator(#[trigger] extra[j], sep)
            &&& sep == seq!['/'] ==> forall|j: int|
                0 <= j < extra.len() ==> patterns[default_ignores(sep).len() + j]
                    == #[trigger] extra[j]
        }),
{
    assert forall|j: int| 0 <= j < extra.len() && sep == seq!['/'] implies with_separator(
        #[trigger] extra[j],
        sep,
    ) == extra[j] by {
        lemma_slash_separator_keeps_patterns(extra[j]);
    }
}

/// With the flag that ignores nothing, nothing is ignored and VCS ignore files
/// are left unread, whatever the other ignore options say.
pub proof fn lemma_ignore_nothing_wins(no_gitignore: bool, extra: Seq<Seq<char>>, sep: Seq<char>)
    ensures
        ignores_of(true, no_gitignore, extra, sep) == (true, Seq::<Seq<char>>::empty()),
{
}

} // verus!
