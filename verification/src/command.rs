//! The launch command handed back to the host: an executable path, an
//! argument list, and an (always empty) environment mapping.

use vstd::prelude::*;
use crate::strutil::concat2;

verus! {

/// A command descriptor for spawning the language server.
pub struct Command {
    pub command: String,
    pub args: Vec<String>,
    pub env: Vec<(String, String)>,
}

/// The views of a command's arguments, in order.
pub open spec fn args_view(c: Command) -> Seq<Seq<char>> {
    c.args@.map_values(|s: String| s@)
}

/// The single resource-directory argument: `--resource-dir=<dir>`.
pub open spec fn resource_dir_arg_spec(dir: Seq<char>) -> Seq<char> {
    "--resource-dir="@ + dir
}

/// The view of an optional string.
pub open spec fn opt_view(o: Option<String>) -> Option<Seq<char>> {
    match o {
        Some(s) => Some(s@),
        None => None,
    }
}

/// True when the command launches `binary` with an empty environment and,
/// depending on whether a resource directory is known, either the single
/// resource-directory argument or no argument at all.
pub open spec fn command_matches(c: Command, binary: Seq<char>, resource_dir: Option<Seq<char>>) -> bool {
    &&& c.command@ == binary
    &&& c.env@.len() == 0
    &&& match resource_dir {
        Some(dir) => args_view(c) =~= seq![resource_dir_arg_spec(dir)],
        None => c.args@.len() == 0,
    }
}

/// Builds the launch command for `binary`. When a resource directory is
/// given, the argument list holds exactly one string,
/// `--resource-dir=<dir>`; otherwise it is empty. The environment mapping is
/// always empty.
pub fn make_command(binary: String, resource_dir: &Option<String>) -> (r: Command)
    ensures
        command_matches(r, binary@, opt_view(*resource_dir)),
{
    let args: Vec<String> = match resource_dir {
        Some(dir) => {
            let mut v: Vec<String> = Vec::new();
            v.push(concat2("--resource-dir=", dir.as_str()));
            v
        },
        None => Vec::new(),
    };
    Command { command: binary, args, env: Vec::new() }
}

/// Two commands built for the same binary and the same optional resource
/// directory are indistinguishable: same executable path, the same argument
/// views, and both with an empty environment. This is what makes a repeated
/// resolution return identical output.
pub proof fn lemma_command_matches_unique(
    c1: Command,
    c2: Command,
    binary: Seq<char>,
    resource_dir: Option<Seq<char>>,
)
    requires
        command_matches(c1, binary, resource_dir),
        command_matches(c2, binary, resource_dir),
    ensures
        c1.command@ == c2.command@,
        args_view(c1) =~= args_view(c2),
        c1.env@.len() == 0,
        c2.env@.len() == 0,
{
    if resource_dir is None {
        assert(args_view(c1) =~= args_view(c2));
    }
}

} // verus!
