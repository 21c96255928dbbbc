//! What the shell is started with: its program and arguments, its
//! environment and the size of its window.

use vstd::prelude::*;
use vstd::std_specs::convert::FromSpecImpl;
use vstd::string::{StrSliceExecFns, StringExecFns};

verus! {

/// The size of the emulator's grid.
#[derive(Clone, Copy, Debug, PartialEq, Eq, Structural)]
pub struct TerminalBounds {
    pub num_lines: usize,
    pub num_cols: usize,
}

impl Default for TerminalBounds {
    /// 24 lines of 80 columns.
    fn default() -> (bounds: Self)
        ensures
            bounds == (TerminalBounds { num_lines: 24, num_cols: 80 }),
    {
        TerminalBounds { num_lines: 24, num_cols: 80 }
    }
}

impl TerminalBounds {
    /// All lines of the grid.
    pub fn total_lines(&self) -> (lines: usize)
        ensures
            lines == self.num_lines,
    {
        self.num_lines
    }

    /// The lines on the screen.
    pub fn screen_lines(&self) -> (lines: usize)
        ensures
            lines == self.num_lines,
    {
        self.num_lines
    }

    /// The columns of the grid.
    pub fn columns(&self) -> (columns: usize)
        ensures
            columns == self.num_cols,
    {
        self.num_cols
    }
}

/// Width of a cell in pixels, as the shell is told.
pub const CELL_WIDTH: u16 = 8;

/// Height of a cell in pixels, as the shell is told.
pub const CELL_HEIGHT: u16 = 16;

/// The size of the window as the pseudo-terminal takes it.
#[derive(Clone, Copy, Debug, PartialEq, Eq, Structural)]
pub struct WindowSize {
    pub num_lines: u16,
    pub num_cols: u16,
    pub cell_width: u16,
    pub cell_height: u16,
}

impl From<TerminalBounds> for WindowSize {
    /// The window of a grid: its lines and columns, each cut to sixteen
    /// bits, in cells of the fixed size.
    fn from(bounds: TerminalBounds) -> (size: WindowSize) {
        WindowSize {
            num_lines: (bounds.num_lines % 0x1_0000) as u16,
            num_cols: (bounds.num_cols % 0x1_0000) as u16,
            cell_width: CELL_WIDTH,
            cell_height: CELL_HEIGHT,
        }
    }
}

impl FromSpecImpl<TerminalBounds> for WindowSize {
    open spec fn obeys_from_spec() -> bool {
        true
    }

    open spec fn from_spec(bounds: TerminalBounds) -> WindowSize {
        WindowSize {
            num_lines: (bounds.num_lines % 0x1_0000) as u16,
            num_cols: (bounds.num_cols % 0x1_0000) as u16,
            cell_width: CELL_WIDTH,
            cell_height: CELL_HEIGHT,
        }
    }
}

/// Which program the pane runs.
#[derive(Clone, Debug)]
pub enum Shell {
    /// The shell that the system is set up with.
    System,
    /// This program.
    Program(String),
    /// This program with these arguments.
    WithArguments { program: String, args: Vec<String> },
}

impl Shell {
    /// The program to start and its arguments, `system_shell` being the
    /// shell that the system is set up with.
    pub fn into_command(self, system_shell: String) -> (command: (String, Vec<String>))
        ensures
            command.0 == match self {
                Shell::System => system_shell,
                Shell::Program(program) => program,
                Shell::WithArguments { program, args } => program,
            },
            command.1@ == match self {
                Shell::WithArguments { program, args } => args@,
                _ => Seq::<String>::empty(),
            },
    {
        match self {
            Shell::System => (system_shell, Vec::new()),
            Shell::Program(program) => (program, Vec::new()),
            Shell::WithArguments { program, args } => (program, args),
        }
    }
}

/// The system's shell on Unix: what `SHELL` names, or `/bin/sh`.
pub fn unix_system_shell(shell_variable: Option<String>) -> (shell: String)
    ensures
        shell@ == match shell_variable {
            Some(path) => path@,
            None => "/bin/sh"@,
        },
{
    match shell_variable {
        Some(path) => path,
        None => String::from_str("/bin/sh"),
    }
}

/// The system's shell on Windows: the first that was found of PowerShell 7,
/// PowerShell 6 and Windows PowerShell, then what `COMSPEC` names, then
/// `cmd.exe`.
pub fn windows_system_shell(
    powershell_7: Option<String>,
    powershell_6: Option<String>,
    windows_powershell: Option<String>,
    comspec: Option<String>,
) -> (shell: String)
    ensures
        shell@ == match (powershell_7, powershell_6, windows_powershell, comspec) {
            (Some(path), _, _, _) => path@,
            (None, Some(path), _, _) => path@,
            (None, None, Some(path), _) => path@,
            (None, None, None, Some(path)) => path@,
            (None, None, None, None) => "cmd.exe"@,
        },
{
    if let Some(path) = powershell_7 {
        return path;
    }
    if let Some(path) = powershell_6 {
        return path;
    }
    if let Some(path) = windows_powershell {
        return path;
    }
    match comspec {
        Some(path) => path,
        None => String::from_str("cmd.exe"),
    }
}

/// A directory of that name may hold a PowerShell: its name begins with
/// `7`, or with `6` unless only previews are looked for.
pub open spec fn spec_is_powershell_dir(name: Seq<char>, find_preview: bool) -> bool {
    name.len() > 0 && (name[0] == '7' || (!find_preview && name[0] == '6'))
}

/// Whether a directory of that name may hold a PowerShell.
pub fn is_powershell_dir(name: &str, find_preview: bool) -> (candidate: bool)
    ensures
        candidate == spec_is_powershell_dir(name@, find_preview),
{
    if name.unicode_len() == 0 {
        return false;
    }
    let first = name.get_char(0);
    first == '7' || (!find_preview && first == '6')
}

/// An environment as pairs of names and values.
pub open spec fn spec_pairs(env: Seq<(String, String)>) -> Seq<(Seq<char>, Seq<char>)> {
    Seq::new(env.len(), |i: int| (env[i].0@, env[i].1@))
}

/// The value of `name` in an environment: that of the last pair that
/// names it.
pub open spec fn spec_lookup(env: Seq<(Seq<char>, Seq<char>)>, name: Seq<char>) -> Option<
    Seq<char>,
>
    decreases env.len(),
{
    if env.len() == 0 {
        None
    } else if env.last().0 == name {
        Some(env.last().1)
    } else {
        spec_lookup(env.drop_last(), name)
    }
}

/// The environment has a pair for `name`.
pub open spec fn spec_has_name(env: Seq<(Seq<char>, Seq<char>)>, name: Seq<char>) -> bool {
    exists|i: int| 0 <= i < env.len() && (#[trigger] env[i]).0 == name
}

/// The pairs that every child shell gets.
pub open spec fn spec_fixed_pairs() -> Seq<(Seq<char>, Seq<char>)> {
    seq![
        ("TERM_PROGRAM"@, "zed"@),
        ("TERM"@, "xterm-256color"@),
        ("TERM_PROGRAM_VERSION"@, "1.0.0"@),
    ]
}

/// The environment of the child shell: that of the host, with a language
/// where the host names none, and with the terminal's own pairs after it.
pub open spec fn spec_child_environment(host: Seq<(Seq<char>, Seq<char>)>) -> Seq<
    (Seq<char>, Seq<char>),
> {
    if spec_has_name(host, "LANG"@) {
        host + spec_fixed_pairs()
    } else {
        host.push(("LANG"@, "en_US.UTF-8"@)) + spec_fixed_pairs()
    }
}

/// Whether an environment has a pair for `name`.
pub fn has_name(env: &Vec<(String, String)>, name: &str) -> (found: bool)
    ensures
        found == spec_has_name(spec_pairs(env@), name@),
{
    let wanted = String::from_str(name);
    let mut i: usize = 0;
    while i < env.len()
        invariant
            i <= env.len(),
            wanted@ == name@,
            forall|k: int| 0 <= k < i ==> (#[trigger] spec_pairs(env@)[k]).0 != name@,
        decreases env.len() - i,
    {
        if env[i].0 == wanted {
            assert(spec_pairs(env@)[i as int].0 == name@);
            return true;
        }
        i += 1;
    }
    false
}

/// Builds the environment of the child shell from that of the host.
pub fn child_environment(host: Vec<(String, String)>) -> (env: Vec<(String, String)>)
    ensures
        spec_pairs(env@) == spec_child_environment(spec_pairs(host@)),
{
    let mut env = host;
    if !has_name(&env, "LANG") {
        env.push((String::from_str("LANG"), String::from_str("en_US.UTF-8")));
    }
    env.push((String::from_str("TERM_PROGRAM"), String::from_str("zed")));
    env.push((String::from_str("TERM"), String::from_str("xterm-256color")));
    env.push((String::from_str("TERM_PROGRAM_VERSION"), String::from_str("1.0.0")));
    proof {
        assert(spec_pairs(env@) =~= spec_child_environment(spec_pairs(host@)));
    }
    env
}

proof fn lemma_lookup_push(env: Seq<(Seq<char>, Seq<char>)>, pair: (Seq<char>, Seq<char>), name: Seq<char>)
    ensures
        spec_lookup(env.push(pair), name) == if pair.0 == name {
            Some(pair.1)
        } else {
            spec_lookup(env, name)
        },
{
    assert(env.push(pair).drop_last() =~= env);
}

proof fn lemma_lookup_has_name(env: Seq<(Seq<char>, Seq<char>)>, name: Seq<char>)
    ensures
        spec_lookup(env, name) is Some <==> spec_has_name(env, name),
    decreases env.len(),
{
    if env.len() > 0 {
        let rest = env.drop_last();
        lemma_lookup_has_name(rest, name);
        if env.last().0 == name {
            assert(env[env.len() - 1].0 == name);
        } else if spec_has_name(rest, name) {
            let i = choose|i: int| 0 <= i < rest.len() && (#[trigger] rest[i]).0 == name;
            assert(env[i].0 == name);
        } else if spec_has_name(env, name) {
            let i = choose|i: int| 0 <= i < env.len() && (#[trigger] env[i]).0 == name;
            assert(rest[i].0 == name);
        }
    }
}

/// In the environment of the child shell, the terminal's own names have
/// the terminal's values, the language is that of the host or else the
/// default, and every other name has the value that the host gives it.
pub proof fn lemma_child_environment_values(host: Seq<(Seq<char>, Seq<char>)>, name: Seq<char>)
    ensures
        spec_lookup(spec_child_environment(host), "TERM"@) == Some("xterm-256color"@),
        spec_lookup(spec_child_environment(host), "TERM_PROGRAM"@) == Some("zed"@),
        spec_lookup(spec_child_environment(host), "TERM_PROGRAM_VERSION"@) == Some("1.0.0"@),
        spec_lookup(spec_child_environment(host), "LANG"@) == match spec_lookup(host, "LANG"@) {
            Some(value) => Some(value),
            None => Some("en_US.UTF-8"@),
        },
        name != "LANG"@ && name != "TERM"@ && name != "TERM_PROGRAM"@ && name
            != "TERM_PROGRAM_VERSION"@ ==> spec_lookup(spec_child_environment(host), name)
            == spec_lookup(host, name),
{
    reveal_strlit("LANG");
    reveal_strlit("TERM");
    reveal_strlit("TERM_PROGRAM");
    reveal_strlit("TERM_PROGRAM_VERSION");
    assert("TERM"@.len() != "LANG"@.len() || "TERM"@[0] != "LANG"@[0]);
    assert("TERM"@.len() != "TERM_PROGRAM"@.len());
    assert("TERM"@.len() != "TERM_PROGRAM_VERSION"@.len());
    assert("TERM_PROGRAM"@.len() != "TERM_PROGRAM_VERSION"@.len());
    assert("LANG"@.len() != "TERM_PROGRAM"@.len());
    assert("LANG"@.len() != "TERM_PROGRAM_VERSION"@.len());
    let base = if spec_has_name(host, "LANG"@) {
        host
    } else {
        host.push(("LANG"@, "en_US.UTF-8"@))
    };
    let first = base.push(("TERM_PROGRAM"@, "zed"@));
    let second = first.push(("TERM"@, "xterm-256color"@));
    let child = second.push(("TERM_PROGRAM_VERSION"@, "1.0.0"@));
    assert(child =~= spec_child_environment(host));
    lemma_lookup_has_name(host, "LANG"@);
    let names = seq!["LANG"@, "TERM"@, "TERM_PROGRAM"@, "TERM_PROGRAM_VERSION"@, name];
    assert forall|k: int| 0 <= k < names.len() implies {
        &&& spec_lookup(child, #[trigger] names[k]) == if names[k] == "TERM_PROGRAM_VERSION"@ {
            Some("1.0.0"@)
        } else if names[k] == "TERM"@ {
            Some("xterm-256color"@)
        } else if names[k] == "TERM_PROGRAM"@ {
            Some("zed"@)
        } else {
            spec_lookup(base, names[k])
        }
        &&& spec_lookup(base, names[k]) == if names[k] == "LANG"@ && !spec_has_name(
            host,
            "LANG"@,
        ) {
            Some("en_US.UTF-8"@)
        } else {
            spec_lookup(host, names[k])
        }
    } by {
        let n = names[k];
        lemma_lookup_push(second, ("TERM_PROGRAM_VERSION"@, "1.0.0"@), n);
        lemma_lookup_push(first, ("TERM"@, "xterm-256color"@), n);
        lemma_lookup_push(base, ("TERM_PROGRAM"@, "zed"@), n);
        lemma_lookup_push(host, ("LANG"@, "en_US.UTF-8"@), n);
    }
    assert(names[0] == "LANG"@);
    assert(names[1] == "TERM"@);
    assert(names[2] == "TERM_PROGRAM"@);
    assert(names[3] == "TERM_PROGRAM_VERSION"@);
    assert(names[4] == name);
}

} // verus!
