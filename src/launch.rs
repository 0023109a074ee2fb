use vstd::prelude::*;
use vstd::string::StringExecFns;

verus! {

/// Where the server binary lies below a worktree root.
pub open spec fn server_binary_suffix() -> Seq<char> {
    "/bin/lsp"@
}

/// Where the binder schema files lie below a worktree root, as a glob.
pub open spec fn binder_schema_suffix() -> Seq<char> {
    "/assets/schemas/script_*_binder.json"@
}

/// The path of the server binary for the worktree at `root`.
pub open spec fn spec_server_binary_path(root: Seq<char>) -> Seq<char> {
    root + server_binary_suffix()
}

/// The glob that names the binder schemas of the worktree at `root`.
pub open spec fn spec_binder_schema_glob(root: Seq<char>) -> Seq<char> {
    root + binder_schema_suffix()
}

/// The arguments handed to the server: talk over stdio, and read the binder
/// schemas that the glob names.
pub open spec fn spec_server_args(root: Seq<char>) -> Seq<Seq<char>> {
    seq!["--stdio"@, "--binders"@, spec_binder_schema_glob(root)]
}

/// A command line that starts a process: the program, its arguments, and the
/// environment variables set for it, as (name, value) pairs.
pub struct LaunchCommand {
    pub command: String,
    pub args: Vec<String>,
    pub env: Vec<(String, String)>,
}

/// What a `LaunchCommand` holds, as character sequences.
pub struct LaunchCommandView {
    pub command: Seq<char>,
    pub args: Seq<Seq<char>>,
    pub env: Seq<(Seq<char>, Seq<char>)>,
}

impl View for LaunchCommand {
    type V = LaunchCommandView;

    open spec fn view(&self) -> LaunchCommandView {
        LaunchCommandView {
            command: self.command@,
            args: self.args@.map_values(|a: String| a@),
            env: self.env@.map_values(|kv: (String, String)| (kv.0@, kv.1@)),
        }
    }
}

/// The command that starts the language server for the worktree at `root`.
pub open spec fn spec_language_server_command(root: Seq<char>) -> LaunchCommandView {
    LaunchCommandView {
        command: spec_server_binary_path(root),
        args: spec_server_args(root),
        env: Seq::empty(),
    }
}

/// Returns `<root>/bin/lsp`.
pub fn server_binary_path(root: &str) -> (r: String)
    ensures
        r@ == spec_server_binary_path(root@),
{
    let mut path = String::from_str(root);
    path.append("/bin/lsp");
    path
}

/// Returns `<root>/assets/schemas/script_*_binder.json`.
pub fn binder_schema_glob(root: &str) -> (r: String)
    ensures
        r@ == spec_binder_schema_glob(root@),
{
    let mut glob = String::from_str(root);
    glob.append("/assets/schemas/script_*_binder.json");
    glob
}

/// Builds the command that starts the language server for the worktree whose
/// root directory is `root`: the binary `<root>/bin/lsp`, run with
/// `--stdio --binders <root>/assets/schemas/script_*_binder.json`, with no
/// environment variables of its own.
pub fn language_server_command(root: &str) -> (r: LaunchCommand)
    ensures
        r@ == spec_language_server_command(root@),
        r.args@.len() == 3,
        r.env@.len() == 0,
{
    let mut args: Vec<String> = Vec::new();
    args.push(String::from_str("--stdio"));
    args.push(String::from_str("--binders"));
    args.push(binder_schema_glob(root));
    let env: Vec<(String, String)> = Vec::new();
    let r = LaunchCommand { command: server_binary_path(root), args, env };
    assert(r@.args =~= spec_server_args(root@));
    assert(r@.env =~= Seq::<(Seq<char>, Seq<char>)>::empty());
    r
}

} // verus!
