//! Runtime selection and command construction for launching a submission
//! server.

use vstd::prelude::*;
use vstd::string::StrSliceExecFns;

verus! {

/// The interpreter family used to run a submission's entry file.
#[derive(Clone, Copy, Debug, PartialEq, Eq, Structural)]
pub enum Runtime {
    Python,
    JavaScript,
}

/// `suffix` stands at the end of `s`.
pub open spec fn ends_with(s: Seq<char>, suffix: Seq<char>) -> bool {
    suffix.len() <= s.len() && s.skip(s.len() - suffix.len()) == suffix
}

/// The runtime selected for an entry file: a name ending in `.py` runs under
/// Python, every other name under the JavaScript runtime.
pub open spec fn runtime_of(name: Seq<char>) -> Runtime {
    if ends_with(name, ".py"@) {
        Runtime::Python
    } else {
        Runtime::JavaScript
    }
}

/// Whether `suffix` stands at the end of `s`.
pub fn str_ends_with(s: &str, suffix: &str) -> (r: bool)
    ensures
        r == ends_with(s@, suffix@),
{
    let n = s.unicode_len();
    let m = suffix.unicode_len();
    if m > n {
        assert(!ends_with(s@, suffix@));
        return false;
    }
    let mut i: usize = 0;
    while i < m
        invariant
            i <= m <= n,
            n == s@.len(),
            m == suffix@.len(),
            forall|j: int| 0 <= j < i ==> s@[n - m + j] == suffix@[j],
        decreases m - i,
    {
        if s.get_char(n - m + i) != suffix.get_char(i) {
            assert(s@.skip(n - m)[i as int] != suffix@[i as int]);
            return false;
        }
        i = i + 1;
    }
    assert(s@.skip(n - m) =~= suffix@);
    true
}

/// Selects the interpreter for an entry file by its extension.
pub fn runtime_for(file_name: &str) -> (rt: Runtime)
    ensures
        rt == runtime_of(file_name@),
{
    if str_ends_with(file_name, ".py") {
        Runtime::Python
    } else {
        Runtime::JavaScript
    }
}

/// The character for one decimal digit.
pub open spec fn decimal_digit(d: nat) -> char {
    if d == 0 {
        '0'
    } else if d == 1 {
        '1'
    } else if d == 2 {
        '2'
    } else if d == 3 {
        '3'
    } else if d == 4 {
        '4'
    } else if d == 5 {
        '5'
    } else if d == 6 {
        '6'
    } else if d == 7 {
        '7'
    } else if d == 8 {
        '8'
    } else {
        '9'
    }
}

/// The decimal rendering of `n`, most significant digit first, with no sign
/// and no leading zero except for `n == 0` itself.
pub open spec fn decimal(n: nat) -> Seq<char>
    decreases n,
{
    if n < 10 {
        seq![decimal_digit(n)]
    } else {
        decimal(n / 10).push(decimal_digit(n % 10))
    }
}

/// The one-character string for a decimal digit.
fn digit_str(d: u32) -> (s: &'static str)
    requires
        d < 10,
    ensures
        s@ == seq![decimal_digit(d as nat)],
{
    proof {
        reveal_strlit("0");
        reveal_strlit("1");
        reveal_strlit("2");
        reveal_strlit("3");
        reveal_strlit("4");
        reveal_strlit("5");
        reveal_strlit("6");
        reveal_strlit("7");
        reveal_strlit("8");
        reveal_strlit("9");
    }
    let s: &'static str = match d {
        0 => "0",
        1 => "1",
        2 => "2",
        3 => "3",
        4 => "4",
        5 => "5",
        6 => "6",
        7 => "7",
        8 => "8",
        _ => "9",
    };
    assert(s@ =~= seq![decimal_digit(d as nat)]);
    s
}

/// Renders `n` in decimal, as the process arguments need it.
pub fn u32_decimal(n: u32) -> (s: String)
    ensures
        s@ == decimal(n as nat),
    decreases n,
{
    let d = digit_str(n % 10);
    if n < 10 {
        String::from_str(d)
    } else {
        assert(n / 10 < n);
        let mut s = u32_decimal(n / 10);
        s.append(d);
        proof {
            assert(s@ =~= decimal((n / 10) as nat).push(decimal_digit((n % 10) as nat)));
        }
        s
    }
}

/// A command line ready to spawn: a program name and its arguments in order.
#[derive(Debug)]
pub struct CommandLine {
    pub program: String,
    pub args: Vec<String>,
}

/// The interpreter binary for a runtime.
pub open spec fn program_of(rt: Runtime) -> Seq<char> {
    match rt {
        Runtime::Python => "python3"@,
        Runtime::JavaScript => "node"@,
    }
}

/// The arguments before any port: Python runs unbuffered (`-u`) on the entry
/// file, the JavaScript runtime takes the entry file alone.
pub open spec fn base_args_of(rt: Runtime, file: Seq<char>) -> Seq<Seq<char>> {
    match rt {
        Runtime::Python => seq!["-u"@, file],
        Runtime::JavaScript => seq![file],
    }
}

/// The full argument list: the base arguments, with the port appended as one
/// trailing decimal argument exactly when `port > 0`. A port of zero or below
/// means "no port argument".
pub open spec fn args_of(rt: Runtime, file: Seq<char>, port: int) -> Seq<Seq<char>> {
    if port > 0 {
        base_args_of(rt, file).push(decimal(port as nat))
    } else {
        base_args_of(rt, file)
    }
}

/// Builds the command line that launches `file` under `rt`.
pub fn build_command(rt: Runtime, file: &str, port: i32) -> (c: CommandLine)
    ensures
        c.program@ == program_of(rt),
        c.args.deep_view() == args_of(rt, file@, port as int),
{
    let program = match rt {
        Runtime::Python => String::from_str("python3"),
        Runtime::JavaScript => String::from_str("node"),
    };
    let mut args: Vec<String> = Vec::new();
    match rt {
        Runtime::Python => {
            args.push(String::from_str("-u"));
        },
        Runtime::JavaScript => {},
    }
    args.push(String::from_str(file));
    if port > 0 {
        args.push(u32_decimal(port as u32));
    }
    proof {
        assert(args.deep_view() =~= args_of(rt, file@, port as int));
    }
    CommandLine { program, args }
}

/// Exactly the entry files whose names end in `.py` run under the Python
/// runtime; every other entry file runs under the JavaScript runtime.
pub proof fn lemma_runtime_selection(name: Seq<char>)
    ensures
        ends_with(name, ".py"@) ==> runtime_of(name) is Python,
        !ends_with(name, ".py"@) ==> runtime_of(name) is JavaScript,
{
}

/// A port of zero or below adds nothing after the entry file: the argument
/// list is the base list and the entry file stands last. A positive port
/// adds exactly one trailing argument, the port in decimal.
pub proof fn lemma_port_argument_policy(rt: Runtime, file: Seq<char>, port: int)
    ensures
        port <= 0 ==> args_of(rt, file, port) == base_args_of(rt, file),
        port <= 0 ==> args_of(rt, file, port).last() == file,
        port > 0 ==> args_of(rt, file, port) == base_args_of(rt, file).push(decimal(port as nat)),
        port > 0 ==> args_of(rt, file, port).last() == decimal(port as nat),
        port > 0 ==> args_of(rt, file, port).drop_last() == base_args_of(rt, file),
{
    if port > 0 {
        assert(args_of(rt, file, port).drop_last() =~= base_args_of(rt, file));
    }
}

/// An entry point as discovery hands it to the supervisor: the entry file's
/// name, the directory that holds it, the runtime derived from the name, and
/// the optional port. Immutable once constructed.
#[derive(Debug)]
pub struct SubmissionEntry {
    pub file_name: String,
    pub directory: String,
    pub runtime: Runtime,
    pub port: i32,
}

impl SubmissionEntry {
    /// The recorded runtime is the one the file name's extension selects.
    pub open spec fn wf(&self) -> bool {
        self.runtime == runtime_of(self.file_name@)
    }

    /// Builds an entry point, deriving the runtime from the file name.
    pub fn new(file_name: String, directory: String, port: i32) -> (e: Self)
        ensures
            e.wf(),
            e.file_name == file_name,
            e.directory == directory,
            e.port == port,
    {
        let runtime = runtime_for(file_name.as_str());
        SubmissionEntry { file_name, directory, runtime, port }
    }

    /// Plans this entry's launch.
    pub fn plan(&self) -> (p: LaunchPlan)
        requires
            self.wf(),
        ensures
            p.install_deps == (self.runtime is JavaScript),
            p.command.program@ == program_of(self.runtime),
            p.command.args.deep_view() == args_of(self.runtime, self.file_name@, self.port as int),
    {
        plan_launch(self.file_name.as_str(), self.port)
    }
}

/// What the supervisor does before spawning: install dependencies first for
/// the JavaScript runtime, then spawn the command.
#[derive(Debug)]
pub struct LaunchPlan {
    pub install_deps: bool,
    pub command: CommandLine,
}

/// Plans a launch: selects the runtime by extension, builds the command line,
/// and notes whether a dependency-install step precedes the spawn.
pub fn plan_launch(file_name: &str, port: i32) -> (p: LaunchPlan)
    ensures
        p.install_deps == (runtime_of(file_name@) is JavaScript),
        p.command.program@ == program_of(runtime_of(file_name@)),
        p.command.args.deep_view() == args_of(runtime_of(file_name@), file_name@, port as int),
{
    let rt = runtime_for(file_name);
    let install_deps = match rt {
        Runtime::Python => false,
        Runtime::JavaScript => true,
    };
    LaunchPlan { install_deps, command: build_command(rt, file_name, port) }
}

} // verus!
