use vstd::prelude::*;

use crate::options::Options;

verus! {

/// `cargo <sub>`: the command line that runs one cargo subcommand.
pub open spec fn cargo_command(sub: Seq<char>) -> Seq<char> {
    "cargo "@ + sub
}

/// The command run when none is given.
pub open spec fn default_command() -> Seq<char> {
    "cargo check"@
}

/// The commands to run: the cargo subcommands first, then the shell commands,
/// each group in its given order; the default command when both are empty.
pub open spec fn commands_of(cargo: Seq<Seq<char>>, shell: Seq<Seq<char>>) -> Seq<Seq<char>> {
    if cargo.len() + shell.len() == 0 {
        seq![default_command()]
    } else {
        cargo.map_values(|s: Seq<char>| cargo_command(s)) + shell
    }
}

/// The commands to run for `options`.
pub fn get_commands(options: &Options) -> (r: Vec<String>)
    ensures
        r.deep_view() == commands_of(options.cargo.deep_view(), options.shell.deep_view()),
        options.cargo.len() == 0 && options.shell.len() == 0 ==> r.deep_view() == seq![
            default_command(),
        ],
        options.cargo.len() + options.shell.len() > 0 ==> {
            &&& r.len() == options.cargo.len() + options.shell.len()
            &&& forall|i: int|
                0 <= i < options.cargo.len() ==> #[trigger] r.deep_view()[i] == cargo_command(
                    options.cargo[i]@,
                )
            &&& forall|j: int|
                0 <= j < options.shell.len() ==> r.deep_view()[options.cargo.len() + j]
                    == #[trigger] options.shell[j]@
        },
{
    let mut commands: Vec<String> = Vec::new();
    let mut i: usize = 0;
    while i < options.cargo.len()
        invariant
            i <= options.cargo.len(),
            commands.len() == i,
            forall|k: int| 0 <= k < i ==> #[trigger] commands[k]@ == cargo_command(options.cargo[k]@),
        decreases options.cargo.len() - i,
    {
        let mut cmd = String::from_str("cargo ");
        cmd.append(options.cargo[i].as_str());
        commands.push(cmd);
        i = i + 1;
    }
    let n = commands.len();
    let mut j: usize = 0;
    while j < options.shell.len()
        invariant
            j <= options.shell.len(),
            n == options.cargo.len(),
            commands.len() == n + j,
            forall|k: int| 0 <= k < n ==> #[trigger] commands[k]@ == cargo_command(options.cargo[k]@),
            forall|k: int| 0 <= k < j ==> #[trigger] commands[n + k]@ == options.shell[k]@,
        decreases options.shell.len() - j,
    {
        commands.push(options.shell[j].clone());
        j = j + 1;
    }
    if commands.len() == 0 {
        commands.push(String::from_str("cargo check"));
        assert(commands.deep_view() =~= seq![default_command()]);
    } else {
        let ghost want = options.cargo.deep_view().map_values(|s: Seq<char>| cargo_command(s))
            + options.shell.deep_view();
        assert forall|k: int| 0 <= k < commands.len() implies commands.deep_view()[k]
            == want[k] by {
            if k >= n {
                assert(commands[n + (k - n)]@ == options.shell[k - n]@);
            }
        }
        assert(commands.deep_view() =~= want);
    }
    commands
}

} // verus!
