//! The command line that starts the language server.
use vstd::prelude::*;
use vstd::string::*;

verus! {

/// `rel` joined onto `base` as POSIX paths join: an absolute `rel` replaces
/// `base`; otherwise one separator goes between the two unless `base` is
/// empty or already ends in one.
pub open spec fn joined_path(base: Seq<char>, rel: Seq<char>) -> Seq<char> {
    if rel.len() > 0 && rel[0] == '/' {
        rel
    } else if base.len() == 0 || base.last() == '/' {
        base + rel
    } else {
        base + seq!['/'] + rel
    }
}

/// Joins `rel` onto the directory `base`.
pub fn join_path(base: &str, rel: &str) -> (r: String)
    ensures
        r@ == joined_path(base@, rel@),
{
    proof {
        reveal_strlit("/");
    }
    let rel_len = rel.unicode_len();
    if rel_len > 0 && rel.get_char(0) == '/' {
        return String::from_str(rel);
    }
    let base_len = base.unicode_len();
    let mut out = String::from_str(base);
    if base_len > 0 && base.get_char(base_len - 1) != '/' {
        out.append("/");
    }
    out.append(rel);
    assert(out@ =~= joined_path(base@, rel@));
    out
}

/// The flag that passes the output level on to the language server.
pub open spec fn output_flag(level: Seq<char>) -> Seq<char> {
    "--output="@ + level
}

/// The arguments that start the script at `path`, found from the directory
/// `cwd`, in its LSP mode.
pub open spec fn launch_args(cwd: Seq<char>, path: Seq<char>, level: Seq<char>) -> Seq<Seq<char>> {
    seq![joined_path(cwd, path), "lsp"@, output_flag(level)]
}

/// A program and the arguments to start it with.
#[derive(Clone, Debug, PartialEq, Eq)]
pub struct LaunchCommand {
    pub command: String,
    pub args: Vec<String>,
}

/// The command that starts the script at `resolved_path` under `runtime`
/// (the node binary), with the script made absolute against `cwd` and the
/// output level passed through as given.
pub fn build_launch_command(
    runtime: String,
    cwd: &str,
    resolved_path: &str,
    output_level: &str,
) -> (c: LaunchCommand)
    ensures
        c.command@ == runtime@,
        c.args.deep_view() == launch_args(cwd@, resolved_path@, output_level@),
{
    let script = join_path(cwd, resolved_path);
    let mode = String::from_str("lsp");
    let mut flag = String::from_str("--output=");
    flag.append(output_level);
    let args = vec![script, mode, flag];
    assert(args.deep_view() =~= launch_args(cwd@, resolved_path@, output_level@));
    LaunchCommand { command: runtime, args }
}

} // verus!
