use belay::messages::{created_message, help_text, py_help_text, shell_help_text, version_message};
use belay::names::{GoCliProjectSpec, PythonProjectSpec, RustCliProjectSpec};
use belay::templates::{
    append_tool_config, go_cli_go_mod, go_cli_layout, init_py, python_overlay_layout,
    python_readme, rust_cli_cargo_toml, rust_cli_layout, rust_cli_main_rs, test_py,
    tool_config_toml, DEFAULT_COBRA_VERSION,
};
use belay::theme::{Background, Theme, SGR_PINK, SGR_RESET, SGR_WHITE};

#[test]
fn python_templates_use_the_names() {
    let spec = PythonProjectSpec::new("sample-app", "3.13").unwrap();
    assert!(python_readme(&spec).starts_with("# sample-app\n\n## Development\n"));
    assert!(init_py(&spec).starts_with("\"\"\"sample-app.\"\"\""));
    assert!(init_py(&spec).contains("return f\"Hello, {name}!\""));
    assert!(test_py(&spec).starts_with("from sample_app import greet\n"));
    assert!(tool_config_toml(&spec).contains("target-version = \"py313\"\n"));
    assert!(tool_config_toml(&spec).starts_with("[tool.ruff]\n"));
}

#[test]
fn tool_config_is_appended_once() {
    let spec = PythonProjectSpec::new("sample-app", "3.13").unwrap();
    let once = append_tool_config("[project]\nname = \"x\"", &spec).unwrap();
    assert!(once.starts_with("[project]\nname = \"x\"\n\n[tool.ruff]\n"));
    assert!(append_tool_config(&once, &spec).is_none());
    assert!(append_tool_config("[tool.ty]\n", &spec).is_none());
    assert_eq!(
        append_tool_config("a\n", &spec).unwrap(),
        format!("a\n\n{}", tool_config_toml(&spec))
    );
}

#[test]
fn cli_templates_use_the_names() {
    let rust = RustCliProjectSpec::new("sample-cli").unwrap();
    assert!(rust_cli_cargo_toml(&rust).contains("name = \"sample-cli\"\n"));
    assert!(rust_cli_cargo_toml(&rust).contains("clap = { version = \"4.5\""));
    assert!(rust_cli_main_rs(&rust).contains("use sample_cli::render_greeting;"));
    assert!(rust_cli_main_rs(&rust).contains("name = \"sample-cli\","));
    assert!(rust_cli_main_rs(&rust).contains("println!(\"{}\", render_greeting(&name));"));
    let go = GoCliProjectSpec::new("sample-go").unwrap();
    assert_eq!(
        go_cli_go_mod(&go),
        format!("module sample-go\n\ngo 1.22\n\nrequire github.com/spf13/cobra {DEFAULT_COBRA_VERSION}\n")
    );
}

#[test]
fn layouts_list_every_file() {
    let py = python_overlay_layout(&PythonProjectSpec::new("sample-app", "3.13").unwrap());
    assert_eq!(py.directories, vec!["src/sample_app", "tests"]);
    let paths: Vec<&str> = py.files.iter().map(|f| f.path.as_str()).collect();
    assert_eq!(
        paths,
        vec![
            ".editorconfig",
            ".gitignore",
            "README.md",
            "src/sample_app/__init__.py",
            "src/sample_app/py.typed",
            "tests/test_sample_app.py"
        ]
    );
    assert_eq!(py.files[4].contents, "");
    let rust = rust_cli_layout(&RustCliProjectSpec::new("sample-cli").unwrap());
    assert_eq!(rust.files.len(), 7);
    assert_eq!(rust.files[6].path, "tests/smoke.rs");
    assert!(rust.files[6].contents.contains("render_greeting(\"cli\")"));
    let go = go_cli_layout(&GoCliProjectSpec::new("sample-go").unwrap());
    assert_eq!(go.directories, vec!["cmd"]);
    assert_eq!(go.files[5].path, "cmd/root.go");
    assert!(go.files[5].contents.contains("A polished CLI scaffold built with Cobra."));
}

#[test]
fn help_and_messages_are_styled() {
    let dark = Theme::for_background(Background::Dark);
    assert_eq!(
        version_message(dark, "1.2.3"),
        format!("{SGR_WHITE}{SGR_PINK}belay{SGR_WHITE} 1.2.3{SGR_RESET}")
    );
    assert_eq!(created_message(Theme::plain(), "/tmp/x"), "created /tmp/x");
    let help = help_text(Theme::plain(), "0.1.0");
    assert!(help.starts_with("belay 0.1.0\n\nUsage:\n  belay py <name> [--python <version>] [--no-shell]\n"));
    assert!(py_help_text(Theme::plain()).contains("(default: 3.13)"));
    assert!(shell_help_text(Theme::plain()).contains("`init` prints the function"));
}
