//! The command line: which command runs, and what each command's arguments
//! ask for. Arguments arrive as strings, or as `None` where an argument is
//! not valid UTF-8.
use vstd::prelude::*;

use crate::error::BelayError;
use crate::shell::{Shell, detect_shell, detected_shell, path_file_name, shell_name_text};
use crate::text::{chars_of, same_text, string_of_range};

verus! {

broadcast use vstd::string::group_string_axioms;

/// The Python version a project targets unless `--python` says otherwise.
pub const DEFAULT_PYTHON: &'static str = "3.13";

pub const MSG_ARGS_UTF8: &'static str = "arguments must be valid UTF-8";

pub const MSG_PYTHON_REQUIRES_VERSION: &'static str = "`--python` requires a version like `3.13`";

pub const MSG_PY_ONE_NAME: &'static str = "`belay py` accepts exactly one project name";

pub const MSG_PY_MISSING_NAME: &'static str = "missing project name\n\nUsage: belay py <name>";

pub const MSG_SHELL_NAME_UTF8: &'static str = "shell name must be valid UTF-8";

/// The arguments as strings, `None` for one that is not UTF-8.
pub open spec fn args_view(args: Vec<Option<String>>) -> Seq<Option<Seq<char>>> {
    args@.map_values(|a: Option<String>| opt_view(a))
}

pub open spec fn opt_view(a: Option<String>) -> Option<Seq<char>> {
    match a {
        Some(s) => Some(s@),
        None => None,
    }
}

/// `s` begins with `p`.
pub open spec fn has_prefix(s: Seq<char>, p: Seq<char>) -> bool {
    p.len() <= s.len() && s.take(p.len() as int) == p
}

/// Whether a string begins with a prefix (`str::starts_with`).
pub fn starts_with_text(s: &str, prefix: &str) -> (r: bool)
    ensures
        r == has_prefix(s@, prefix@),
{
    let x = chars_of(s);
    let p = chars_of(prefix);
    if p.len() > x.len() {
        return false;
    }
    let mut i: usize = 0;
    while i < p.len()
        invariant
            p.len() <= x.len(),
            x@ == s@,
            p@ == prefix@,
            i <= p.len(),
            forall|j: int| 0 <= j < i ==> x@[j] == p@[j],
        decreases p.len() - i,
    {
        if x[i] != p[i] {
            assert(x@.take(p.len() as int)[i as int] != p@[i as int]);
            return false;
        }
        i = i + 1;
    }
    assert(x@.take(p.len() as int) =~= p@);
    true
}

/// Whether `BELAY_AUTO_SHELL` leaves automatic shell integration on: unset
/// (or not UTF-8) and every value but `0` and `false` do.
pub fn auto_shell_enabled(value: Option<&str>) -> (r: bool)
    ensures
        r == match value {
            None => true,
            Some(v) => v@ != "0"@ && v@ != "false"@,
        },
{
    match value {
        None => true,
        Some(v) => !same_text(v, "0") && !same_text(v, "false"),
    }
}

/// The top-level commands.
#[derive(Clone, Copy, Debug, PartialEq, Eq, Structural)]
pub enum Command {
    Help,
    Version,
    Py,
    Rs,
    RsCli,
    GoCli,
    Shell,
}

pub open spec fn unknown_command_message(other: Seq<char>) -> Seq<char> {
    "unknown command `"@ + other + "`\n\nRun `belay --help` for usage."@
}

/// The command that the first argument names: help where it is missing or
/// not UTF-8, an error where it names no command.
pub open spec fn command_of(first: Option<Option<Seq<char>>>) -> Result<Command, Seq<char>> {
    match first {
        None => Ok(Command::Help),
        Some(None) => Ok(Command::Help),
        Some(Some(a)) => if a == "-h"@ || a == "--help"@ || a == "help"@ {
            Ok(Command::Help)
        } else if a == "-V"@ || a == "--version"@ || a == "version"@ {
            Ok(Command::Version)
        } else if a == "py"@ {
            Ok(Command::Py)
        } else if a == "rs"@ {
            Ok(Command::Rs)
        } else if a == "rs-cli"@ {
            Ok(Command::RsCli)
        } else if a == "go-cli"@ {
            Ok(Command::GoCli)
        } else if a == "shell"@ {
            Ok(Command::Shell)
        } else {
            Err(unknown_command_message(a))
        },
    }
}

/// The first argument, if any.
pub open spec fn first_arg(args: Seq<Option<Seq<char>>>) -> Option<Option<Seq<char>>> {
    if args.len() == 0 {
        None
    } else {
        Some(args[0])
    }
}

/// Selects the command; the rest of the arguments belong to it.
pub fn select_command(args: &Vec<Option<String>>) -> (r: Result<Command, BelayError>)
    ensures
        match r {
            Ok(c) => command_of(first_arg(args_view(*args))) == Ok::<Command, Seq<char>>(c),
            Err(e) => command_of(first_arg(args_view(*args))) == Err::<Command, Seq<char>>(
                e.message@,
            ),
        },
{
    if args.len() == 0 {
        return Ok(Command::Help);
    }
    let a = match &args[0] {
        None => return Ok(Command::Help),
        Some(a) => a.as_str(),
    };
    if same_text(a, "-h") || same_text(a, "--help") || same_text(a, "help") {
        Ok(Command::Help)
    } else if same_text(a, "-V") || same_text(a, "--version") || same_text(a, "version") {
        Ok(Command::Version)
    } else if same_text(a, "py") {
        Ok(Command::Py)
    } else if same_text(a, "rs") {
        Ok(Command::Rs)
    } else if same_text(a, "rs-cli") {
        Ok(Command::RsCli)
    } else if same_text(a, "go-cli") {
        Ok(Command::GoCli)
    } else if same_text(a, "shell") {
        Ok(Command::Shell)
    } else {
        let mut m = String::from_str("unknown command `");
        m.append(a);
        m.append("`\n\nRun `belay --help` for usage.");
        Err(BelayError::from_message(m))
    }
}

/// What `belay py` asks for.
#[derive(Debug)]
pub enum PyArgs {
    Help,
    Create { name: String, python: String, auto_shell: bool },
}

/// What `belay py` asks for, as plain values.
pub enum PyRequest {
    Help,
    Create { name: Seq<char>, python: Seq<char>, auto_shell: bool },
}

pub open spec fn py_args_view(p: PyArgs) -> PyRequest {
    match p {
        PyArgs::Help => PyRequest::Help,
        PyArgs::Create { name, python, auto_shell } => PyRequest::Create {
            name: name@,
            python: python@,
            auto_shell,
        },
    }
}

pub open spec fn unknown_option_message(a: Seq<char>) -> Seq<char> {
    "unknown option `"@ + a + seq!['`']
}

/// Reading the arguments of `belay py` from index `i`, with the name,
/// Python version and shell setting found so far.
pub open spec fn py_request_from(
    args: Seq<Option<Seq<char>>>,
    i: int,
    name: Option<Seq<char>>,
    python: Seq<char>,
    auto_shell: bool,
) -> Result<PyRequest, Seq<char>>
    decreases args.len() - i,
{
    if i < 0 || i >= args.len() {
        match name {
            None => Err(MSG_PY_MISSING_NAME@),
            Some(n) => Ok(PyRequest::Create { name: n, python, auto_shell }),
        }
    } else {
        match args[i] {
            None => Err(MSG_ARGS_UTF8@),
            Some(a) => if a == "-h"@ || a == "--help"@ {
                Ok(PyRequest::Help)
            } else if a == "--no-shell"@ {
                py_request_from(args, i + 1, name, python, false)
            } else if a == "--python"@ {
                if i + 1 < args.len() && args[i + 1] is Some {
                    py_request_from(args, i + 2, name, args[i + 1]->0, auto_shell)
                } else {
                    Err(MSG_PYTHON_REQUIRES_VERSION@)
                }
            } else if has_prefix(a, "--python="@) {
                py_request_from(args, i + 1, name, a.skip(9), auto_shell)
            } else if a.len() > 0 && a[0] == '-' {
                Err(unknown_option_message(a))
            } else if name is None {
                py_request_from(args, i + 1, Some(a), python, auto_shell)
            } else {
                Err(MSG_PY_ONE_NAME@)
            },
        }
    }
}

/// Reads the arguments of `belay py`: a project name, `--python <version>`
/// or `--python=<version>` (default `3.13`), `--no-shell`, or help.
pub fn parse_py_args(args: &Vec<Option<String>>, auto_shell_default: bool) -> (r: Result<
    PyArgs,
    BelayError,
>)
    ensures
        match r {
            Ok(p) => py_request_from(args_view(*args), 0, None, DEFAULT_PYTHON@, auto_shell_default)
                == Ok::<PyRequest, Seq<char>>(py_args_view(p)),
            Err(e) => py_request_from(args_view(*args), 0, None, DEFAULT_PYTHON@, auto_shell_default)
                == Err::<PyRequest, Seq<char>>(e.message@),
        },
{
    let ghost whole = py_request_from(args_view(*args), 0, None, DEFAULT_PYTHON@, auto_shell_default);
    let mut name: Option<String> = None;
    let mut python = String::from_str(DEFAULT_PYTHON);
    let mut auto_shell = auto_shell_default;
    let mut i: usize = 0;
    while i < args.len()
        invariant
            i <= args.len(),
            whole == py_request_from(args_view(*args), 0, None, DEFAULT_PYTHON@, auto_shell_default),
            whole == py_request_from(args_view(*args), i as int, opt_view(name), python@, auto_shell),
        decreases args.len() - i,
    {
        let ghost av = args_view(*args);
        assert(av[i as int] == opt_view(args@[i as int]));
        let a = match &args[i] {
            None => return Err(BelayError::usage(MSG_ARGS_UTF8)),
            Some(a) => a.as_str(),
        };
        if same_text(a, "-h") || same_text(a, "--help") {
            return Ok(PyArgs::Help);
        } else if same_text(a, "--no-shell") {
            auto_shell = false;
            i = i + 1;
        } else if same_text(a, "--python") {
            if i + 1 < args.len() {
                assert(av[i + 1] == opt_view(args@[i + 1]));
                match &args[i + 1] {
                    Some(v) => {
                        python = v.clone();
                        i = i + 2;
                    },
                    None => return Err(BelayError::usage(MSG_PYTHON_REQUIRES_VERSION)),
                }
            } else {
                return Err(BelayError::usage(MSG_PYTHON_REQUIRES_VERSION));
            }
        } else if starts_with_text(a, "--python=") {
            let cs = chars_of(a);
            proof {
                reveal_strlit("--python=");
            }
            python = string_of_range(&cs, 9, cs.len());
            assert(cs@.subrange(9, cs@.len() as int) =~= a@.skip(9));
            i = i + 1;
        } else if starts_with_text(a, "-") {
            proof {
                reveal_strlit("-");
            }
            assert(a@.take(1)[0] == a@[0]);
            let mut m = String::from_str("unknown option `");
            m.append(a);
            m.append("`");
            proof {
                reveal_strlit("`");
            }
            assert("`"@ =~= seq!['`']);
            return Err(BelayError::from_message(m));
        } else if name.is_none() {
            proof {
                reveal_strlit("-");
            }
            assert(!(a@.len() > 0 && a@[0] == '-')) by {
                if a@.len() > 0 && a@[0] == '-' {
                    assert(a@.take(1) =~= "-"@);
                }
            }
            name = Some(String::from_str(a));
            i = i + 1;
        } else {
            proof {
                reveal_strlit("-");
            }
            assert(!(a@.len() > 0 && a@[0] == '-')) by {
                if a@.len() > 0 && a@[0] == '-' {
                    assert(a@.take(1) =~= "-"@);
                }
            }
            return Err(BelayError::usage(MSG_PY_ONE_NAME));
        }
    }
    match name {
        None => Err(BelayError::usage(MSG_PY_MISSING_NAME)),
        Some(n) => Ok(PyArgs::Create { name: n, python, auto_shell }),
    }
}

pub open spec fn cli_one_name_message(command_name: Seq<char>) -> Seq<char> {
    "`belay "@ + command_name + "` accepts exactly one project name"@
}

pub open spec fn cli_missing_name_message(command_name: Seq<char>) -> Seq<char> {
    "missing project name\n\nUsage: belay "@ + command_name + " <name>"@
}

/// Reading the arguments of a CLI-creating command from index `i`: `None`
/// asks for the command's help, else the project name and the shell setting.
pub open spec fn cli_request_from(
    args: Seq<Option<Seq<char>>>,
    i: int,
    command_name: Seq<char>,
    name: Option<Seq<char>>,
    auto_shell: bool,
) -> Result<Option<(Seq<char>, bool)>, Seq<char>>
    decreases args.len() - i,
{
    if i < 0 || i >= args.len() {
        match name {
            None => Err(cli_missing_name_message(command_name)),
            Some(n) => Ok(Some((n, auto_shell))),
        }
    } else {
        match args[i] {
            None => Err(MSG_ARGS_UTF8@),
            Some(a) => if a == "-h"@ || a == "--help"@ {
                Ok(None)
            } else if a == "--no-shell"@ {
                cli_request_from(args, i + 1, command_name, name, false)
            } else if a.len() > 0 && a[0] == '-' {
                Err(unknown_option_message(a))
            } else if name is None {
                cli_request_from(args, i + 1, command_name, Some(a), auto_shell)
            } else {
                Err(cli_one_name_message(command_name))
            },
        }
    }
}

/// Reads the arguments of `belay rs-cli` or `belay go-cli`: one project name
/// and `--no-shell`; `None` where help is asked for.
pub fn parse_name_and_shell_option(
    args: &Vec<Option<String>>,
    command_name: &str,
    auto_shell_default: bool,
) -> (r: Result<Option<(String, bool)>, BelayError>)
    ensures
        match r {
            Ok(None) => cli_request_from(args_view(*args), 0, command_name@, None, auto_shell_default)
                == Ok::<Option<(Seq<char>, bool)>, Seq<char>>(None),
            Ok(Some((n, b))) => cli_request_from(
                args_view(*args),
                0,
                command_name@,
                None,
                auto_shell_default,
            ) == Ok::<Option<(Seq<char>, bool)>, Seq<char>>(Some((n@, b))),
            Err(e) => cli_request_from(args_view(*args), 0, command_name@, None, auto_shell_default)
                == Err::<Option<(Seq<char>, bool)>, Seq<char>>(e.message@),
        },
{
    let ghost whole = cli_request_from(args_view(*args), 0, command_name@, None, auto_shell_default);
    let mut name: Option<String> = None;
    let mut auto_shell = auto_shell_default;
    let mut i: usize = 0;
    while i < args.len()
        invariant
            i <= args.len(),
            whole == cli_request_from(args_view(*args), 0, command_name@, None, auto_shell_default),
            whole == cli_request_from(args_view(*args), i as int, command_name@, opt_view(name), auto_shell),
        decreases args.len() - i,
    {
        let ghost av = args_view(*args);
        assert(av[i as int] == opt_view(args@[i as int]));
        let a = match &args[i] {
            None => return Err(BelayError::usage(MSG_ARGS_UTF8)),
            Some(a) => a.as_str(),
        };
        proof {
            reveal_strlit("-");
            reveal_strlit("`");
        }
        if same_text(a, "-h") || same_text(a, "--help") {
            return Ok(None);
        } else if same_text(a, "--no-shell") {
            auto_shell = false;
        } else if starts_with_text(a, "-") {
            assert(a@.take(1)[0] == a@[0]);
            let mut m = String::from_str("unknown option `");
            m.append(a);
            m.append("`");
            assert("`"@ =~= seq!['`']);
            return Err(BelayError::from_message(m));
        } else {
            assert(!(a@.len() > 0 && a@[0] == '-')) by {
                if a@.len() > 0 && a@[0] == '-' {
                    assert(a@.take(1) =~= "-"@);
                }
            }
            if name.is_none() {
                name = Some(String::from_str(a));
            } else {
                let mut m = String::from_str("`belay ");
                m.append(command_name);
                m.append("` accepts exactly one project name");
                return Err(BelayError::from_message(m));
            }
        }
        i = i + 1;
    }
    match name {
        None => {
            let mut m = String::from_str("missing project name\n\nUsage: belay ");
            m.append(command_name);
            m.append(" <name>");
            Err(BelayError::from_message(m))
        },
        Some(n) => Ok(Some((n, auto_shell))),
    }
}

/// The argument at `index`, if there is one.
pub open spec fn arg_at(args: Seq<Option<Seq<char>>>, index: int) -> Option<Option<Seq<char>>> {
    if 0 <= index < args.len() {
        Some(args[index])
    } else {
        None
    }
}

/// An argument that asks for help.
pub open spec fn is_help_value(a: Option<Option<Seq<char>>>) -> bool {
    match a {
        Some(Some(s)) => s == "-h"@ || s == "--help"@ || s == "help"@,
        _ => false,
    }
}

/// Whether the argument at `index` asks for help.
pub fn is_help_arg(args: &Vec<Option<String>>, index: usize) -> (r: bool)
    ensures
        r == is_help_value(arg_at(args_view(*args), index as int)),
{
    if index >= args.len() {
        return false;
    }
    let ghost av = args_view(*args);
    assert(av[index as int] == opt_view(args@[index as int]));
    match &args[index] {
        None => false,
        Some(a) => same_text(a.as_str(), "-h") || same_text(a.as_str(), "--help") || same_text(
            a.as_str(),
            "help",
        ),
    }
}

pub open spec fn unsupported_shell_arg_message(other: Seq<char>) -> Seq<char> {
    "unsupported shell `"@ + other + "`; expected fish, bash, or zsh"@
}

/// The shell that an optional argument names.
pub open spec fn shell_value(v: Option<Option<Seq<char>>>) -> Result<Option<Shell>, Seq<char>> {
    match v {
        None => Ok(None),
        Some(None) => Err(MSG_SHELL_NAME_UTF8@),
        Some(Some(s)) => if s == "bash"@ {
            Ok(Some(Shell::Bash))
        } else if s == "fish"@ {
            Ok(Some(Shell::Fish))
        } else if s == "zsh"@ {
            Ok(Some(Shell::Zsh))
        } else {
            Err(unsupported_shell_arg_message(s))
        },
    }
}

/// Reads the shell named by the argument at `index`, if there is one.
pub fn parse_shell(args: &Vec<Option<String>>, index: usize) -> (r: Result<Option<Shell>, BelayError>)
    ensures
        match r {
            Ok(s) => shell_value(arg_at(args_view(*args), index as int)) == Ok::<
                Option<Shell>,
                Seq<char>,
            >(s),
            Err(e) => shell_value(arg_at(args_view(*args), index as int)) == Err::<
                Option<Shell>,
                Seq<char>,
            >(e.message@),
        },
{
    if index >= args.len() {
        return Ok(None);
    }
    let ghost av = args_view(*args);
    assert(av[index as int] == opt_view(args@[index as int]));
    match &args[index] {
        None => Err(BelayError::usage(MSG_SHELL_NAME_UTF8)),
        Some(v) => {
            let v = v.as_str();
            if same_text(v, "bash") {
                Ok(Some(Shell::Bash))
            } else if same_text(v, "fish") {
                Ok(Some(Shell::Fish))
            } else if same_text(v, "zsh") {
                Ok(Some(Shell::Zsh))
            } else {
                let mut m = String::from_str("unsupported shell `");
                m.append(v);
                m.append("`; expected fish, bash, or zsh");
                Err(BelayError::from_message(m))
            }
        },
    }
}

pub open spec fn too_many_shells_message(subcommand: Seq<char>) -> Seq<char> {
    "`belay shell "@ + subcommand + "` accepts at most one shell argument"@
}

/// The shell argument of `belay shell init` and `install`: at most one,
/// after the subcommand.
pub open spec fn shell_arg_value(args: Seq<Option<Seq<char>>>) -> Result<Option<Shell>, Seq<char>> {
    if args.len() > 2 {
        Err(too_many_shells_message(
            match args[0] {
                Some(s) => s,
                None => "<command>"@,
            },
        ))
    } else {
        shell_value(arg_at(args, 1))
    }
}

/// Reads the shell argument that follows a `belay shell` subcommand.
pub fn shell_arg(args: &Vec<Option<String>>) -> (r: Result<Option<Shell>, BelayError>)
    ensures
        match r {
            Ok(s) => shell_arg_value(args_view(*args)) == Ok::<Option<Shell>, Seq<char>>(s),
            Err(e) => shell_arg_value(args_view(*args)) == Err::<Option<Shell>, Seq<char>>(
                e.message@,
            ),
        },
{
    if args.len() > 2 {
        let ghost av = args_view(*args);
        assert(av[0] == opt_view(args@[0]));
        let mut m = String::from_str("`belay shell ");
        match &args[0] {
            Some(s) => m.append(s.as_str()),
            None => m.append("<command>"),
        }
        m.append("` accepts at most one shell argument");
        return Err(BelayError::from_message(m));
    }
    parse_shell(args, 1)
}

/// The subcommands of `belay shell`.
#[derive(Clone, Copy, Debug, PartialEq, Eq, Structural)]
pub enum ShellCommand {
    Help,
    Init(Option<Shell>),
    Install(Option<Shell>),
}

pub open spec fn unknown_shell_command_message(other: Seq<char>) -> Seq<char> {
    "unknown shell command `"@ + other + "`\n\nRun `belay shell --help` for usage."@
}

/// What the arguments of `belay shell` ask for.
pub open spec fn shell_command_of(args: Seq<Option<Seq<char>>>) -> Result<ShellCommand, Seq<char>> {
    match arg_at(args, 0) {
        None => Ok(ShellCommand::Help),
        Some(None) => Ok(ShellCommand::Help),
        Some(Some(a)) => if a == "-h"@ || a == "--help"@ || a == "help"@ {
            Ok(ShellCommand::Help)
        } else if a == "init"@ || a == "install"@ {
            if is_help_value(arg_at(args, 1)) {
                Ok(ShellCommand::Help)
            } else {
                match shell_arg_value(args) {
                    Ok(s) => Ok(
                        if a == "init"@ {
                            ShellCommand::Init(s)
                        } else {
                            ShellCommand::Install(s)
                        },
                    ),
                    Err(m) => Err(m),
                }
            }
        } else {
            Err(unknown_shell_command_message(a))
        },
    }
}

/// Reads the arguments of `belay shell`.
pub fn parse_shell_command(args: &Vec<Option<String>>) -> (r: Result<ShellCommand, BelayError>)
    ensures
        match r {
            Ok(c) => shell_command_of(args_view(*args)) == Ok::<ShellCommand, Seq<char>>(c),
            Err(e) => shell_command_of(args_view(*args)) == Err::<ShellCommand, Seq<char>>(
                e.message@,
            ),
        },
{
    if args.len() == 0 {
        return Ok(ShellCommand::Help);
    }
    let ghost av = args_view(*args);
    assert(av[0] == opt_view(args@[0]));
    let a = match &args[0] {
        None => return Ok(ShellCommand::Help),
        Some(a) => a.as_str(),
    };
    if same_text(a, "-h") || same_text(a, "--help") || same_text(a, "help") {
        return Ok(ShellCommand::Help);
    }
    let init = same_text(a, "init");
    if init || same_text(a, "install") {
        proof {
            reveal_strlit("init");
            reveal_strlit("install");
        }
        if is_help_arg(args, 1) {
            return Ok(ShellCommand::Help);
        }
        let shell = shell_arg(args)?;
        if init {
            Ok(ShellCommand::Init(shell))
        } else {
            Ok(ShellCommand::Install(shell))
        }
    } else {
        let mut m = String::from_str("unknown shell command `");
        m.append(a);
        m.append("`\n\nRun `belay shell --help` for usage.");
        Err(BelayError::from_message(m))
    }
}

/// The shell that `belay shell init` and `install` act for: the shell named
/// on the command line as given, else the one that `SHELL` names, whose
/// detection is consulted only where no shell is named.
pub fn resolve_shell(arg: Option<Shell>, shell_var: Option<&str>) -> (r: Result<Shell, BelayError>)
    ensures
        match arg {
            Some(a) => r matches Ok(s) && s == a,
            None => match r {
                Ok(s) => detected_shell(
                    match shell_var {
                        Some(v) => Some(v@),
                        None => None,
                    },
                ) == Ok::<Shell, Seq<char>>(s),
                Err(e) => detected_shell(
                    match shell_var {
                        Some(v) => Some(v@),
                        None => None,
                    },
                ) == Err::<Shell, Seq<char>>(e.message@),
            },
        },
{
    match arg {
        Some(a) => Ok(a),
        None => detect_shell(shell_var),
    }
}

/// A shell argument selects exactly the shell it names: `bash`, `fish` and
/// `zsh` select their own shell, no argument selects none, and nothing else
/// selects a shell.
pub proof fn lemma_shell_argument_names_its_shell(v: Option<Option<Seq<char>>>, shell: Shell)
    ensures
        shell_value(v) == Ok::<Option<Shell>, Seq<char>>(Some(shell)) <==> v == Some(
            Some(shell_name_text(shell)),
        ),
        shell_value(v) == Ok::<Option<Shell>, Seq<char>>(None) <==> v is None,
{
    reveal_strlit("bash");
    reveal_strlit("fish");
    reveal_strlit("zsh");
    assert("bash"@[0] != "fish"@[0]);
    assert("zsh"@.len() != "bash"@.len());
    assert("zsh"@.len() != "fish"@.len());
}

/// The shell detected from `SHELL` is the one its program's file name names.
pub proof fn lemma_detected_shell_is_the_program(path: Seq<char>, shell: Shell)
    ensures
        detected_shell(Some(path)) == Ok::<Shell, Seq<char>>(shell) <==> path_file_name(path) == Some(
            shell_name_text(shell),
        ),
{
    reveal_strlit("bash");
    reveal_strlit("fish");
    reveal_strlit("zsh");
    reveal_strlit("");
    assert("bash"@[0] != "fish"@[0]);
    assert("zsh"@.len() != "bash"@.len());
    assert("zsh"@.len() != "fish"@.len());
    assert(""@.len() == 0);
}

} // verus!
