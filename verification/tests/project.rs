use belay::error::BelayError;
use belay::names::{GoCliProjectSpec, PythonProjectSpec, RustCliProjectSpec};
use belay::project::{
    create_go_cli_project, create_python_project, create_rust_cli_project, create_rust_project,
    finish_project_creation, shell_install_wanted, Report, SetupStep,
};
use belay::shell::Shell;
use belay::theme::Theme;

fn lines(reports: Vec<Report>) -> Vec<(bool, String)> {
    reports.into_iter().map(|r| (r.to_stderr, r.text)).collect()
}

#[test]
fn python_setup_runs_uv_then_writes_then_adds_tools() {
    let spec = PythonProjectSpec::new("sample-app", "3.12").unwrap();
    let steps = create_python_project("/work/sample-app", false, &spec).unwrap();
    assert_eq!(steps.len(), 4);
    match &steps[0] {
        SetupStep::RunInParent { program, args } => {
            assert_eq!(program, "uv");
            assert_eq!(
                args,
                &vec![
                    "init", "--lib", "--python", "3.12", "--name", "sample-app",
                    "--no-description", "--author-from", "none", "--vcs", "none",
                    "--no-workspace",
                ]
            );
        }
        _ => panic!("uv init comes first"),
    }
    match &steps[1] {
        SetupStep::WriteLayout(layout) => {
            assert_eq!(layout.directories, vec!["src/sample_app", "tests"]);
            assert_eq!(layout.files.len(), 6);
            assert_eq!(layout.files[5].path, "tests/test_sample_app.py");
        }
        _ => panic!("the overlay comes second"),
    }
    match &steps[2] {
        SetupStep::RunInProject { program, args } => {
            assert_eq!(program, "uv");
            assert_eq!(args, &vec!["add", "--dev", "ruff", "ty", "pytest"]);
        }
        _ => panic!("uv add comes third"),
    }
    assert!(matches!(steps[3], SetupStep::AppendToolConfig));
}

#[test]
fn existing_project_directories_are_refused() {
    let python = PythonProjectSpec::new("demo", "3.13").unwrap();
    let rust = RustCliProjectSpec::new("demo").unwrap();
    let go = GoCliProjectSpec::new("demo").unwrap();
    let expected = "/work/demo already exists";
    assert_eq!(
        create_python_project("/work/demo", true, &python).err().unwrap().message,
        expected
    );
    assert_eq!(
        create_rust_cli_project("/work/demo", true, &rust).err().unwrap().message,
        expected
    );
    assert_eq!(
        create_go_cli_project("/work/demo", true, &go).err().unwrap().message,
        expected
    );
}

#[test]
fn cli_setups_write_their_layouts() {
    let rust = RustCliProjectSpec::new("My_Tool").unwrap();
    let steps = create_rust_cli_project("/work/My_Tool", false, &rust).unwrap();
    assert_eq!(steps.len(), 1);
    match &steps[0] {
        SetupStep::WriteLayout(layout) => {
            assert_eq!(layout.directories, vec!["src", "tests"]);
            assert_eq!(layout.files[2].path, "Cargo.toml");
            assert!(layout.files[2].contents.contains("name = \"my-tool\""));
        }
        _ => panic!("a Rust CLI is its files"),
    }
    let go = GoCliProjectSpec::new("my.tool").unwrap();
    let steps = create_go_cli_project("/work/my.tool", false, &go).unwrap();
    assert_eq!(steps.len(), 1);
    match &steps[0] {
        SetupStep::WriteLayout(layout) => {
            assert_eq!(layout.directories, vec!["cmd"]);
            assert_eq!(layout.files[2].contents.lines().next(), Some("module my-tool"));
        }
        _ => panic!("a Go CLI is its files"),
    }
}

#[test]
fn wrapper_gets_only_the_directory() {
    assert!(!shell_install_wanted(true, true));
    let reports = finish_project_creation(
        "/work/demo",
        true,
        true,
        None,
        Theme::plain(),
        Theme::plain(),
    );
    assert_eq!(lines(reports), vec![(false, "/work/demo".to_string())]);
}

#[test]
fn finishing_reports_the_shell_integration_outcome() {
    assert!(shell_install_wanted(false, true));
    let installed = finish_project_creation(
        "/work/demo",
        false,
        true,
        Some(Ok((Shell::Zsh, "/home/me/.zshrc".to_string()))),
        Theme::plain(),
        Theme::plain(),
    );
    assert_eq!(
        lines(installed),
        vec![
            (false, "created /work/demo".to_string()),
            (
                true,
                "installed zsh integration at /home/me/.zshrc; restart or source your shell config for automatic cd"
                    .to_string()
            ),
            (
                true,
                "current process cannot cd the parent shell; run `cd /work/demo` now".to_string()
            ),
        ]
    );
    let failed = finish_project_creation(
        "/work/demo",
        false,
        true,
        Some(Err(BelayError::usage("HOME is unset"))),
        Theme::plain(),
        Theme::plain(),
    );
    assert_eq!(
        lines(failed)[1],
        (
            true,
            "shell integration not installed automatically: HOME is unset\nRun `belay shell install` after setup."
                .to_string()
        )
    );
}

#[test]
fn finishing_without_shell_integration_skips_its_line() {
    assert!(!shell_install_wanted(false, false));
    let reports = finish_project_creation(
        "/work/demo",
        false,
        false,
        Some(Ok((Shell::Bash, "/home/me/.bashrc".to_string()))),
        Theme::plain(),
        Theme::plain(),
    );
    assert_eq!(
        lines(reports),
        vec![
            (false, "created /work/demo".to_string()),
            (
                true,
                "current process cannot cd the parent shell; run `cd /work/demo` now".to_string()
            ),
        ]
    );
}

use belay::process::{check_git_not_initialized, git_init_args};
use belay::templates::{append_tool_config, DEFAULT_COBRA_VERSION};
use std::collections::BTreeMap;

/// Runs setup steps against an in-memory project folder, with stand-ins for
/// what `uv init` and `uv add` make; returns the files and the commands run.
fn run_in_memory(
    steps: Vec<SetupStep>,
    python: Option<&PythonProjectSpec>,
) -> (BTreeMap<String, String>, Vec<(bool, String, Vec<String>)>) {
    let mut files: BTreeMap<String, String> = BTreeMap::new();
    let mut calls = Vec::new();
    for step in steps {
        match step {
            SetupStep::RunInParent { program, args } => {
                let name = args[args.iter().position(|a| a == "--name").unwrap() + 1].clone();
                let version = args[args.iter().position(|a| a == "--python").unwrap() + 1].clone();
                files.insert(
                    "pyproject.toml".to_string(),
                    format!(
                        "[project]\nname = \"{name}\"\nrequires-python = \">={version}\"\n\n[build-system]\nrequires = [\"hatchling\"]\nbuild-backend = \"hatchling.build\"\n"
                    ),
                );
                files.insert(".python-version".to_string(), format!("{version}\n"));
                calls.push((true, program, args));
            }
            SetupStep::RunInProject { program, args } => {
                let pyproject = files.get_mut("pyproject.toml").unwrap();
                pyproject.push_str("\n[dependency-groups]\ndev = [\n    \"pytest>=0\",\n    \"ruff>=0\",\n    \"ty>=0\",\n]\n");
                files.insert("uv.lock".to_string(), String::new());
                calls.push((false, program, args));
            }
            SetupStep::WriteLayout(layout) => {
                for file in layout.files {
                    files.insert(file.path, file.contents);
                }
            }
            SetupStep::AppendToolConfig => {
                let spec = python.unwrap();
                let current = files["pyproject.toml"].clone();
                if let Some(next) = append_tool_config(&current, spec) {
                    files.insert("pyproject.toml".to_string(), next);
                }
            }
        }
    }
    (files, calls)
}

#[test]
fn creates_python_project_layout() {
    let spec = PythonProjectSpec::new("sample-app", "3.13").unwrap();
    let steps = create_python_project("/tmp/sample-app", false, &spec).unwrap();
    let (files, calls) = run_in_memory(steps, Some(&spec));

    assert!(files.contains_key("pyproject.toml"));
    assert!(files.contains_key("src/sample_app/__init__.py"));
    assert!(files.contains_key("src/sample_app/py.typed"));
    assert!(files.contains_key("tests/test_sample_app.py"));
    assert!(files.contains_key("uv.lock"));

    let pyproject = &files["pyproject.toml"];
    assert!(pyproject.contains("build-backend = \"hatchling.build\""));
    assert!(pyproject.contains("\"ruff>=0\""));
    assert!(pyproject.contains("\"ty>=0\""));
    assert!(pyproject.contains("[tool.ruff]"));
    assert!(pyproject.contains("[tool.ty]"));
    assert!(files["src/sample_app/__init__.py"].contains("def greet(name: str) -> str:"));

    assert_eq!(calls.len(), 2);
    assert!(calls[0].0);
    assert_eq!(
        calls[0].2,
        vec![
            "init", "--lib", "--python", "3.13", "--name", "sample-app", "--no-description",
            "--author-from", "none", "--vcs", "none", "--no-workspace",
        ]
    );
    assert!(!calls[1].0);
    assert_eq!(calls[1].2, vec!["add", "--dev", "ruff", "ty", "pytest"]);

    assert!(check_git_not_initialized(files.contains_key(".git/HEAD")).is_ok());
    assert_eq!(git_init_args(), vec!["init", "-b", "main"]);
}

#[test]
fn creates_rust_cli_project_layout() {
    let spec = RustCliProjectSpec::new("sample-cli").unwrap();
    let steps = create_rust_cli_project("/tmp/sample-cli", false, &spec).unwrap();
    let (files, calls) = run_in_memory(steps, None);

    assert!(calls.is_empty());
    assert!(files.contains_key("Cargo.toml"));
    assert!(files.contains_key("README.md"));
    assert!(files.contains_key("src/main.rs"));
    assert!(files.contains_key("src/lib.rs"));
    assert!(files.contains_key("tests/smoke.rs"));

    assert!(files["Cargo.toml"].contains("clap = { version = \"4.5\""));
    assert!(files["Cargo.toml"].contains("color-eyre = \"0.6\""));
    assert!(files["src/main.rs"].contains("A polished CLI scaffold built with clap."));
    assert!(files["src/main.rs"].contains("render_greeting"));
}

#[test]
fn creates_go_cli_project_layout() {
    let spec = GoCliProjectSpec::new("sample-go").unwrap();
    let steps = create_go_cli_project("/tmp/sample-go", false, &spec).unwrap();
    let (files, calls) = run_in_memory(steps, None);

    assert!(calls.is_empty());
    assert!(files.contains_key("go.mod"));
    assert!(files.contains_key("README.md"));
    assert!(files.contains_key("main.go"));
    assert!(files.contains_key("cmd/root.go"));
    assert!(files.contains_key("cmd/root_test.go"));

    assert!(files["go.mod"].contains("github.com/spf13/cobra"));
    assert!(files["go.mod"].contains(DEFAULT_COBRA_VERSION));
    assert!(files["cmd/root.go"].contains("A polished CLI scaffold built with Cobra."));
    assert!(files["cmd/root.go"].contains("renderGreeting"));
}

#[test]
fn rust_projects_start_with_cargo_new() {
    let spec = RustCliProjectSpec::new("something").unwrap();
    let steps = create_rust_project("/work/something", false, &spec).unwrap();
    assert_eq!(steps.len(), 2);
    match &steps[0] {
        SetupStep::RunInParent { program, args } => {
            assert_eq!(program, "cargo");
            assert_eq!(args, &vec!["new", "--bin", "--vcs", "none", "--name", "something"]);
        }
        _ => panic!("cargo new comes first"),
    }
    match &steps[1] {
        SetupStep::WriteLayout(layout) => {
            assert!(layout.directories.is_empty());
            let paths: Vec<&str> = layout.files.iter().map(|f| f.path.as_str()).collect();
            assert_eq!(paths, vec![".editorconfig", ".gitignore", "README.md"]);
            assert!(layout.files[1].contents.contains("/target/"));
            assert!(layout.files[2].contents.starts_with("# something\n\n## Development\n"));
        }
        _ => panic!("belay's files come second"),
    }
    assert_eq!(
        create_rust_project("/work/something", true, &spec).err().unwrap().message,
        "/work/something already exists"
    );
}
