use belay::names::PythonProjectSpec;
use belay::process::{
    already_exists_error, check_git_not_initialized, command_failure_message, format_command,
    git_init_args, shell_word, uv_add_dev_args, uv_init_args,
};

#[test]
fn rejects_generators_that_initialize_git_themselves() {
    let err = check_git_not_initialized(true).unwrap_err();
    assert!(err
        .to_string()
        .contains("generators must leave repository initialization to belay"));
    assert!(check_git_not_initialized(false).is_ok());
}

#[test]
fn command_arguments() {
    let spec = PythonProjectSpec::new("sample-app", "3.13").unwrap();
    assert_eq!(
        uv_init_args(&spec),
        vec![
            "init", "--lib", "--python", "3.13", "--name", "sample-app", "--no-description",
            "--author-from", "none", "--vcs", "none", "--no-workspace"
        ]
    );
    assert_eq!(uv_add_dev_args(), vec!["add", "--dev", "ruff", "ty", "pytest"]);
    assert_eq!(git_init_args(), vec!["init", "-b", "main"]);
}

#[test]
fn words_are_quoted_only_where_needed() {
    assert_eq!(shell_word("/tmp/a-b_c.d:e"), "/tmp/a-b_c.d:e");
    assert_eq!(shell_word("two words"), "'two words'");
    assert_eq!(shell_word("it's"), "'it'\\''s'");
    assert_eq!(shell_word(""), "");
}

#[test]
fn command_lines_are_shown_with_quoted_arguments() {
    let args = vec!["init".to_string(), "my dir".to_string()];
    assert_eq!(format_command("git", &args), "git init 'my dir'");
    assert_eq!(format_command("uv", &Vec::new()), "uv");
}

#[test]
fn failure_messages_keep_trimmed_output() {
    assert_eq!(
        command_failure_message("uv add", "exit status: 2", "  out \n", "\n"),
        "`uv add` failed with exit status: 2\nstdout:\nout"
    );
    assert_eq!(
        command_failure_message("git init", "exit status: 1", "", " bad\tthing \n"),
        "`git init` failed with exit status: 1\nstderr:\nbad\tthing"
    );
    assert_eq!(
        already_exists_error("/tmp/x").to_string(),
        "/tmp/x already exists"
    );
}
