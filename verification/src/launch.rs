//! The process launcher: the managed group's members, their display labels,
//! and the exact command strings used to start them.

use vstd::prelude::*;
use vstd::string::StringExecFns;

verus! {

/// A planned spawn of one group member: the window label the member is tagged
/// with and the command that starts it.
#[derive(Clone, PartialEq, Debug)]
pub struct SpawnSpec {
    pub title: String,
    pub command: String,
}

/// The tag put in front of every member's window label, so that the group's
/// processes can be told apart from unrelated ones.
pub open spec fn spec_window_title_prefix() -> Seq<char> {
    "WW_"@
}

/// The window-title tag of the managed group.
pub fn get_window_title_prefix() -> (r: String)
    ensures
        r@ == spec_window_title_prefix(),
{
    String::from_str("WW_")
}

/// The fixed, ordered list of programs that make up the managed group.
pub open spec fn spec_server_names() -> Seq<Seq<char>> {
    seq![
        "wicked-waifus-config-server"@,
        "wicked-waifus-login-server"@,
        "wicked-waifus-gateway-server"@,
        "wicked-waifus-game-server"@,
    ]
}

/// The members of the managed group, in start order.
pub fn server_names() -> (r: Vec<String>)
    ensures
        r@.len() == spec_server_names().len(),
        forall|i: int| 0 <= i < r@.len() ==> r@[i]@ == spec_server_names()[i],
{
    let mut v: Vec<String> = Vec::new();
    v.push(String::from_str("wicked-waifus-config-server"));
    v.push(String::from_str("wicked-waifus-login-server"));
    v.push(String::from_str("wicked-waifus-gateway-server"));
    v.push(String::from_str("wicked-waifus-game-server"));
    v
}

/// A member's window label: the group tag followed by the member's name.
pub open spec fn spec_title(name: Seq<char>) -> Seq<char> {
    spec_window_title_prefix() + name
}

/// Builds the window label of one member.
pub fn window_title(name: &str) -> (r: String)
    ensures
        r@ == spec_title(name@),
{
    let mut s = get_window_title_prefix();
    s.append(name);
    s
}

/// The build-mode flag inserted into a member's launch command.
pub open spec fn spec_release_flag(release: bool) -> Seq<char> {
    if release {
        "--release"@
    } else {
        Seq::<char>::empty()
    }
}

/// A member's launch command: change into the project directory, run the
/// member's binary (optionally in release mode), and pause when it exits.
pub open spec fn spec_command(path: Seq<char>, release: bool, name: Seq<char>) -> Seq<char> {
    "cd /d "@ + path + " && cargo run "@ + spec_release_flag(release) + " --bin "@ + name
        + " && pause"@
}

/// Builds the launch command of one member.
pub fn server_command(project_path: &str, release: bool, name: &str) -> (r: String)
    ensures
        r@ == spec_command(project_path@, release, name@),
{
    let mut s = String::from_str("cd /d ");
    s.append(project_path);
    s.append(" && cargo run ");
    if release {
        s.append("--release");
    } else {
        proof {
            assert(s@ + Seq::<char>::empty() =~= s@);
        }
    }
    s.append(" --bin ");
    s.append(name);
    s.append(" && pause");
    s
}

/// The planned spawn of each member, in group order.
pub fn launch_plan(project_path: &str, release: bool, names: &Vec<String>) -> (r: Vec<SpawnSpec>)
    ensures
        r@.len() == names@.len(),
        forall|i: int|
            0 <= i < names@.len() ==> r@[i].title@ == spec_title(names@[i]@) && r@[i].command@
                == spec_command(project_path@, release, names@[i]@),
{
    let mut out: Vec<SpawnSpec> = Vec::new();
    let mut i: usize = 0;
    while i < names.len()
        invariant
            0 <= i <= names@.len(),
            out@.len() == i,
            forall|k: int|
                0 <= k < i ==> out@[k].title@ == spec_title(names@[k]@) && out@[k].command@
                    == spec_command(project_path@, release, names@[k]@),
        decreases names@.len() - i,
    {
        let name = &names[i];
        out.push(
            SpawnSpec {
                title: window_title(name.as_str()),
                command: server_command(project_path, release, name.as_str()),
            },
        );
        i = i + 1;
    }
    out
}

/// The terminal-host arguments contributed by one tab: the first tab opens the
/// window itself, every later member is a fresh tab.
pub open spec fn spec_tab_args(title: Seq<char>, command: Seq<char>, first: bool) -> Seq<
    Seq<char>,
> {
    let base = seq!["--title"@, title, "cmd"@, "/c"@, command];
    if first {
        base
    } else {
        seq![";"@, "new-tab"@] + base
    }
}

/// The full argument list handed to the terminal host: one tab per planned
/// spawn, in order.
pub open spec fn spec_terminal_args(specs: Seq<SpawnSpec>) -> Seq<Seq<char>>
    decreases specs.len(),
{
    if specs.len() == 0 {
        Seq::<Seq<char>>::empty()
    } else {
        spec_terminal_args(specs.drop_last()) + spec_tab_args(
            specs.last().title@,
            specs.last().command@,
            specs.len() == 1,
        )
    }
}

/// Builds the terminal-host argument list realizing a launch plan.
pub fn terminal_args(specs: &Vec<SpawnSpec>) -> (r: Vec<String>)
    ensures
        r@.map_values(|s: String| s@) == spec_terminal_args(specs@),
{
    let mut out: Vec<String> = Vec::new();
    let mut i: usize = 0;
    while i < specs.len()
        invariant
            0 <= i <= specs@.len(),
            out@.map_values(|s: String| s@) == spec_terminal_args(specs@.take(i as int)),
        decreases specs@.len() - i,
    {
        let ghost prev = specs@.take(i as int);
        let spec = &specs[i];
        if i > 0 {
            out.push(String::from_str(";"));
            out.push(String::from_str("new-tab"));
        }
        out.push(String::from_str("--title"));
        out.push(spec.title.clone());
        out.push(String::from_str("cmd"));
        out.push(String::from_str("/c"));
        out.push(spec.command.clone());
        proof {
            assert(specs@.take(i + 1).drop_last() =~= prev);
            assert(specs@.take(i + 1).last() == specs@[i as int]);
            assert(out@.map_values(|s: String| s@) =~= spec_terminal_args(prev)
                + spec_tab_args(specs@[i as int].title@, specs@[i as int].command@, i == 0));
        }
        i = i + 1;
    }
    proof {
        assert(specs@.take(specs@.len() as int) =~= specs@);
    }
    out
}

/// The well-known image name of the terminal-host process that the launcher
/// opens: since the members run as tabs of this one host, a stop must also
/// force-kill the host itself, by this name.
pub open spec fn spec_terminal_host_image() -> Seq<char> {
    "WindowsTerminal.exe"@
}

/// The terminal host's well-known image name.
pub fn terminal_host_image() -> (r: String)
    ensures
        r@ == spec_terminal_host_image(),
{
    String::from_str("WindowsTerminal.exe")
}

/// The command requesting elevated execution of the client program.
pub open spec fn spec_elevate_command(path: Seq<char>) -> Seq<char> {
    "Start-Process -FilePath \""@ + path + "\" -Verb RunAs"@
}

/// Builds the elevation request for the client program at the given path.
pub fn elevate_command(path: &str) -> (r: String)
    ensures
        r@ == spec_elevate_command(path@),
{
    let mut s = String::from_str("Start-Process -FilePath \"");
    s.append(path);
    s.append("\" -Verb RunAs");
    s
}

/// The file name of the optional client program launched after a start.
pub fn client_executable() -> (r: String)
    ensures
        r@ == "launcher.exe"@,
{
    String::from_str("launcher.exe")
}

} // verus!
