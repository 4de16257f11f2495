use belay::cli::{
    auto_shell_enabled, is_help_arg, parse_name_and_shell_option, parse_py_args,
    parse_shell_command, resolve_shell, select_command, shell_arg, Command, PyArgs, ShellCommand,
};
use belay::error::BelayError;
use belay::shell::Shell;

fn args(items: &[&str]) -> Vec<Option<String>> {
    items.iter().map(|s| Some(s.to_string())).collect()
}

fn message<T>(r: Result<T, BelayError>) -> String {
    match r {
        Ok(_) => panic!("expected an error"),
        Err(e) => e.to_string(),
    }
}

#[test]
fn commands_are_selected_by_the_first_argument() {
    assert_eq!(select_command(&args(&[])).unwrap(), Command::Help);
    assert_eq!(select_command(&vec![None]).unwrap(), Command::Help);
    assert_eq!(select_command(&args(&["help"])).unwrap(), Command::Help);
    assert_eq!(select_command(&args(&["-V"])).unwrap(), Command::Version);
    assert_eq!(select_command(&args(&["version"])).unwrap(), Command::Version);
    assert_eq!(select_command(&args(&["py", "x"])).unwrap(), Command::Py);
    assert_eq!(select_command(&args(&["rs-cli"])).unwrap(), Command::RsCli);
    assert_eq!(select_command(&args(&["go-cli"])).unwrap(), Command::GoCli);
    assert_eq!(select_command(&args(&["shell"])).unwrap(), Command::Shell);
    assert_eq!(select_command(&args(&["rs", "something"])).unwrap(), Command::Rs);
    assert_eq!(
        message(select_command(&args(&["rust"]))),
        "unknown command `rust`\n\nRun `belay --help` for usage."
    );
}

#[test]
fn py_arguments_take_a_name_and_options() {
    match parse_py_args(&args(&["demo"]), true).unwrap() {
        PyArgs::Create { name, python, auto_shell } => {
            assert_eq!(name, "demo");
            assert_eq!(python, "3.13");
            assert!(auto_shell);
        }
        PyArgs::Help => panic!("expected a project"),
    }
    match parse_py_args(&args(&["--python", "3.14", "demo", "--no-shell"]), true).unwrap() {
        PyArgs::Create { name, python, auto_shell } => {
            assert_eq!(name, "demo");
            assert_eq!(python, "3.14");
            assert!(!auto_shell);
        }
        PyArgs::Help => panic!("expected a project"),
    }
    match parse_py_args(&args(&["--python=3.12", "demo"]), false).unwrap() {
        PyArgs::Create { python, auto_shell, .. } => {
            assert_eq!(python, "3.12");
            assert!(!auto_shell);
        }
        PyArgs::Help => panic!("expected a project"),
    }
    assert!(matches!(parse_py_args(&args(&["demo", "-h"]), true).unwrap(), PyArgs::Help));
}

#[test]
fn py_argument_errors() {
    assert_eq!(
        message(parse_py_args(&args(&["--python"]), true)),
        "`--python` requires a version like `3.13`"
    );
    assert_eq!(
        message(parse_py_args(&vec![Some("--python".to_string()), None], true)),
        "`--python` requires a version like `3.13`"
    );
    assert_eq!(message(parse_py_args(&args(&["-x"]), true)), "unknown option `-x`");
    assert_eq!(
        message(parse_py_args(&args(&["a", "b"]), true)),
        "`belay py` accepts exactly one project name"
    );
    assert_eq!(
        message(parse_py_args(&args(&[]), true)),
        "missing project name\n\nUsage: belay py <name>"
    );
    assert_eq!(message(parse_py_args(&vec![None], true)), "arguments must be valid UTF-8");
}

#[test]
fn cli_project_arguments() {
    assert_eq!(
        parse_name_and_shell_option(&args(&["tool", "--no-shell"]), "rs-cli", true).unwrap(),
        Some(("tool".to_string(), false))
    );
    assert_eq!(parse_name_and_shell_option(&args(&["--help"]), "go-cli", true).unwrap(), None);
    assert_eq!(
        message(parse_name_and_shell_option(&args(&["a", "b"]), "go-cli", true)),
        "`belay go-cli` accepts exactly one project name"
    );
    assert_eq!(
        message(parse_name_and_shell_option(&args(&[]), "rs-cli", true)),
        "missing project name\n\nUsage: belay rs-cli <name>"
    );
    assert_eq!(
        message(parse_name_and_shell_option(&args(&["--python", "3.13"]), "rs-cli", true)),
        "unknown option `--python`"
    );
}

#[test]
fn shell_arg_rejects_extra_values() {
    let args = args(&["install", "zsh", "extra"]);
    assert!(shell_arg(&args).is_err());
    assert_eq!(
        message(shell_arg(&args)),
        "`belay shell install` accepts at most one shell argument"
    );
    assert_eq!(
        message(shell_arg(&vec![None, None, None])),
        "`belay shell <command>` accepts at most one shell argument"
    );
}

#[test]
fn shell_subcommands() {
    assert_eq!(parse_shell_command(&args(&[])).unwrap(), ShellCommand::Help);
    assert_eq!(parse_shell_command(&args(&["init"])).unwrap(), ShellCommand::Init(None));
    assert_eq!(
        parse_shell_command(&args(&["install", "fish"])).unwrap(),
        ShellCommand::Install(Some(Shell::Fish))
    );
    assert_eq!(parse_shell_command(&args(&["init", "--help", "x"])).unwrap(), ShellCommand::Help);
    assert_eq!(
        message(parse_shell_command(&args(&["init", "tcsh"]))),
        "unsupported shell `tcsh`; expected fish, bash, or zsh"
    );
    assert_eq!(
        message(parse_shell_command(&vec![Some("init".to_string()), None])),
        "shell name must be valid UTF-8"
    );
    assert_eq!(
        message(parse_shell_command(&args(&["remove"]))),
        "unknown shell command `remove`\n\nRun `belay shell --help` for usage."
    );
    assert!(is_help_arg(&args(&["init", "help"]), 1));
    assert!(!is_help_arg(&args(&["init"]), 1));
}

#[test]
fn a_named_shell_is_used_as_given() {
    assert_eq!(resolve_shell(Some(Shell::Zsh), None).unwrap(), Shell::Zsh);
    assert_eq!(resolve_shell(Some(Shell::Zsh), Some("/bin/tcsh")).unwrap(), Shell::Zsh);
    assert_eq!(resolve_shell(Some(Shell::Fish), Some("/bin/bash")).unwrap(), Shell::Fish);
    assert_eq!(resolve_shell(None, Some("/bin/bash")).unwrap(), Shell::Bash);
    assert_eq!(
        message(resolve_shell(None, None)),
        "could not detect shell because SHELL is unset; pass fish, bash, or zsh"
    );
    assert_eq!(
        message(resolve_shell(None, Some("/bin/tcsh"))),
        "unsupported shell `tcsh`; pass fish, bash, or zsh"
    );
}

#[test]
fn auto_shell_is_on_unless_turned_off() {
    assert!(auto_shell_enabled(None));
    assert!(auto_shell_enabled(Some("1")));
    assert!(auto_shell_enabled(Some("no")));
    assert!(!auto_shell_enabled(Some("0")));
    assert!(!auto_shell_enabled(Some("false")));
}

#[test]
fn rs_takes_one_name() {
    assert_eq!(
        parse_name_and_shell_option(&args(&["something"]), "rs", true).unwrap(),
        Some(("something".to_string(), true))
    );
    assert_eq!(
        message(parse_name_and_shell_option(&args(&["a", "b"]), "rs", true)),
        "`belay rs` accepts exactly one project name"
    );
}
