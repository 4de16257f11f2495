use belay::names::{GoCliProjectSpec, PythonProjectSpec, RustCliProjectSpec};

#[test]
fn normalizes_python_module_names() {
    let spec = PythonProjectSpec::new("My-App.Tools", "3.13").unwrap();
    assert_eq!(spec.module_name, "my_app_tools");
    assert_eq!(spec.ruff_target, "py313");
}

#[test]
fn normalizes_cli_project_names() {
    let rust_spec = RustCliProjectSpec::new("My_App.Tools").unwrap();
    let go_spec = GoCliProjectSpec::new("My_App.Tools").unwrap();

    assert_eq!(rust_spec.package_name, "my-app-tools");
    assert_eq!(rust_spec.crate_name, "my_app_tools");
    assert_eq!(go_spec.module_name, "my-app-tools");
}

#[test]
fn rejects_names_that_cannot_be_modules() {
    assert!(PythonProjectSpec::new("123-app", "3.13").is_err());
    assert!(PythonProjectSpec::new("bad/path", "3.13").is_err());
    assert!(PythonProjectSpec::new("bad name", "3.13").is_err());
    assert!(RustCliProjectSpec::new("123-app").is_err());
    assert!(GoCliProjectSpec::new("123-app").is_err());
}

use belay::names::{cli_slug_for, module_name_for, ruff_target_for, validate_project_name};

fn message<T>(r: Result<T, belay::error::BelayError>) -> String {
    match r {
        Ok(_) => panic!("expected an error"),
        Err(e) => e.to_string(),
    }
}

#[test]
fn project_name_errors_say_why() {
    assert_eq!(message(validate_project_name("")), "project name cannot be empty");
    assert_eq!(
        message(validate_project_name("..")),
        "project name must be a single directory name, not a path"
    );
    assert_eq!(
        message(validate_project_name("a\\b")),
        "project name must be a single directory name, not a path"
    );
    assert_eq!(
        message(validate_project_name("caf\u{e9}")),
        "project name may only contain ASCII letters, numbers, underscores, dashes, and dots"
    );
    assert!(validate_project_name("...").is_ok());
    assert!(validate_project_name("a.b-c_d9").is_ok());
}

#[test]
fn module_names_must_start_with_letter_or_underscore() {
    assert_eq!(module_name_for("_Private").unwrap(), "_private");
    assert_eq!(
        message(module_name_for("9x")),
        "project name must normalize to a Python module starting with a letter or underscore"
    );
    assert_eq!(
        message(module_name_for("ok name")),
        "project name must normalize to a valid Python module name"
    );
    assert_eq!(message(module_name_for("")), "project name cannot be empty");
}

#[test]
fn cli_slugs_are_lowercase_and_dashed() {
    assert_eq!(cli_slug_for("My_Tool.Two").unwrap(), "my-tool-two");
    assert_eq!(
        message(cli_slug_for("_tool")),
        "CLI project names must normalize to a name starting with a letter"
    );
    assert_eq!(
        message(cli_slug_for("tool!")),
        "CLI project names must normalize to lowercase letters, numbers, and dashes"
    );
}

#[test]
fn python_versions_must_be_three_dot_digits() {
    assert_eq!(ruff_target_for("3.9").unwrap(), "py39");
    assert_eq!(ruff_target_for("3.14").unwrap(), "py314");
    for bad in ["3", "3.", "2.7", "3.13.1", "3.x", "", "13.1"] {
        assert_eq!(message(ruff_target_for(bad)), "python version must look like `3.13`");
    }
}

#[test]
fn python_spec_reports_the_first_problem() {
    let spec = PythonProjectSpec::new("sample-app", "3.12").unwrap();
    assert_eq!(spec.directory_name, "sample-app");
    assert_eq!(spec.project_name, "sample-app");
    assert_eq!(spec.module_name, "sample_app");
    assert_eq!(spec.python_version, "3.12");
    assert_eq!(spec.ruff_target, "py312");
    assert_eq!(
        message(PythonProjectSpec::new("9x", "bad")),
        "project name must normalize to a Python module starting with a letter or underscore"
    );
    assert_eq!(
        message(PythonProjectSpec::new("good", "bad")),
        "python version must look like `3.13`"
    );
}

#[test]
fn rust_and_go_specs_keep_the_directory_name() {
    let rust = RustCliProjectSpec::new("Sample.CLI").unwrap();
    assert_eq!(rust.directory_name, "Sample.CLI");
    assert_eq!(rust.command_name, "sample-cli");
    assert_eq!(rust.crate_name, "sample_cli");
    let go = GoCliProjectSpec::new("Sample.CLI").unwrap();
    assert_eq!(go.directory_name, "Sample.CLI");
    assert_eq!(go.command_name, "sample-cli");
    assert_eq!(message(GoCliProjectSpec::new("a/b")), "project name must be a single directory name, not a path");
}
