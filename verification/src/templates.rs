//! The files a new project starts with: each template's text, and the
//! layout of directories and files of each kind of project.
use vstd::prelude::*;

use crate::names::{GoCliProjectSpec, PythonProjectSpec, RustCliProjectSpec};
use crate::text::{chars_of, contains_seq, ends_with_newline, find_chars, occurs_at, push_char};

verus! {

broadcast use vstd::string::group_string_axioms;

/// The Cobra release that Go CLIs depend on.
pub const DEFAULT_COBRA_VERSION: &'static str = "v1.8.1";

pub const TOOL_CONFIG_TOML_0: &'static str = r#"[tool.ruff]
line-length = 100
target-version = ""#;

pub const TOOL_CONFIG_TOML_1: &'static str = r#""

[tool.ruff.lint]
select = [
    "E",
    "F",
    "I",
    "B",
    "UP",
    "ANN",
    "ASYNC",
    "C4",
    "RUF",
]

[tool.ruff.format]
quote-style = "double"
indent-style = "space"

[tool.pytest.ini_options]
testpaths = ["tests"]

[tool.ty]
"#;

pub const PYTHON_README_0: &'static str = r#"# "#;

pub const PYTHON_README_1: &'static str = r#"

## Development

```sh
uv sync --dev
uv run ruff format .
uv run ruff check .
uv run ty check
uv run pytest
```
"#;

pub const INIT_PY_0: &'static str = r#"""""#;

pub const INIT_PY_1: &'static str = r#"."""

__all__ = ["greet"]


def greet(name: str) -> str:
    return f"Hello, {name}!"
"#;

pub const TEST_PY_0: &'static str = r#"from "#;

pub const TEST_PY_1: &'static str = r#" import greet


def test_greet() -> None:
    assert greet("belay") == "Hello, belay!"
"#;

pub const EDITORCONFIG: &'static str = r#"root = true

[*]
charset = utf-8
end_of_line = lf
indent_style = space
indent_size = 4
insert_final_newline = true
trim_trailing_whitespace = true

[*.toml]
indent_size = 4
"#;

pub const PYTHON_GITIGNORE: &'static str = r#".DS_Store
.venv/
__pycache__/
*.py[cod]
.pytest_cache/
.ruff_cache/
.ty/
build/
dist/
*.egg-info/
"#;

pub const RUST_GITIGNORE: &'static str = r#".DS_Store
/target/
"#;

pub const GO_GITIGNORE: &'static str = r#".DS_Store
/bin/
.coverprofile
"#;

pub const RUST_CLI_CARGO_TOML_0: &'static str = r#"[package]
name = ""#;

pub const RUST_CLI_CARGO_TOML_1: &'static str = r#""
version = "0.1.0"
edition = "2021"
description = "A polished CLI built with clap."
license = "MIT"

[dependencies]
clap = { version = "4.5", features = ["cargo", "derive", "string", "unicode", "wrap_help"] }
color-eyre = "0.6"
"#;

pub const RUST_CLI_README_0: &'static str = r#"# "#;

pub const RUST_CLI_README_1: &'static str = r#"

## Development

```sh
cargo fmt
cargo test
cargo run -- hello --name belay
```
"#;

/// The README of a Cargo binary project, around its package name.
pub const RUST_README_0: &'static str = r#"# "#;

pub const RUST_README_1: &'static str = r#"

## Development

```sh
cargo fmt
cargo test
cargo run
```
"#;

pub const RUST_CLI_LIB_RS: &'static str = r#"pub fn render_greeting(name: &str) -> String {
    format!("hello, {name}!")
}

#[cfg(test)]
mod tests {
    use super::render_greeting;

    #[test]
    fn renders_greeting() {
        assert_eq!(render_greeting("belay"), "hello, belay!");
    }
}
"#;

pub const RUST_CLI_MAIN_RS_0: &'static str = r#"use clap::builder::styling::{AnsiColor, Effects, Styles};
use clap::{Parser, Subcommand};
use color_eyre::eyre::Result;

use "#;

pub const RUST_CLI_MAIN_RS_1: &'static str = r#"::render_greeting;

fn main() -> Result<()> {
    color_eyre::install()?;
    let cli = Cli::parse();

    match cli.command {
        Commands::Hello { name } => {
            println!("{}", render_greeting(&name));
        }
    }

    Ok(())
}

#[derive(Debug, Parser)]
#[command(
    name = ""#;

pub const RUST_CLI_MAIN_RS_2: &'static str = r#"",
    version,
    about = "A polished CLI scaffold built with clap.",
    styles = styles()
)]
struct Cli {
    #[command(subcommand)]
    command: Commands,
}

#[derive(Debug, Subcommand)]
enum Commands {
    Hello {
        #[arg(short, long, default_value = "world")]
        name: String,
    },
}

fn styles() -> Styles {
    Styles::styled()
        .header(AnsiColor::Yellow.on_default() | Effects::BOLD)
        .usage(AnsiColor::Yellow.on_default() | Effects::BOLD)
        .literal(AnsiColor::Cyan.on_default() | Effects::BOLD)
        .placeholder(AnsiColor::Green.on_default())
}
"#;

pub const RUST_CLI_SMOKE_TEST_0: &'static str = r#"use "#;

pub const RUST_CLI_SMOKE_TEST_1: &'static str = r#"::render_greeting;

#[test]
fn smoke() {
    assert_eq!(render_greeting("cli"), "hello, cli!");
}
"#;

pub const GO_CLI_GO_MOD_0: &'static str = r#"module "#;

pub const GO_CLI_GO_MOD_1: &'static str = r#"

go 1.22

require github.com/spf13/cobra "#;

pub const GO_CLI_GO_MOD_2: &'static str = r#"
"#;

pub const GO_CLI_README_0: &'static str = r#"# "#;

pub const GO_CLI_README_1: &'static str = r#"

## Development

```sh
go test ./...
go run . hello --name belay
```
"#;

pub const GO_CLI_MAIN_GO_0: &'static str = r#"package main

import (
    "fmt"
    "os"

    ""#;

pub const GO_CLI_MAIN_GO_1: &'static str = r#"/cmd"
)

func main() {
    if err := cmd.Execute(); err != nil {
        fmt.Fprintln(os.Stderr, err)
        os.Exit(1)
    }
}
"#;

pub const GO_CLI_ROOT_GO_0: &'static str = r#"package cmd

import (
    "fmt"

    "github.com/spf13/cobra"
)

type options struct {
    name string
}

func Execute() error {
    return newRootCmd().Execute()
}

func newRootCmd() *cobra.Command {
    opts := options{}

    cmd := &cobra.Command{
        Use:           ""#;

pub const GO_CLI_ROOT_GO_1: &'static str = r#"",
        Short:         "A polished CLI scaffold built with Cobra.",
        SilenceUsage:  true,
        SilenceErrors: true,
        CompletionOptions: cobra.CompletionOptions{
            DisableDefaultCmd: true,
        },
    }

    cmd.AddCommand(newHelloCmd(&opts))
    cmd.SetHelpCommand(&cobra.Command{Hidden: true})
    return cmd
}

func newHelloCmd(opts *options) *cobra.Command {
    cmd := &cobra.Command{
        Use:   "hello",
        Short: "Print a clean greeting.",
        RunE: func(cmd *cobra.Command, args []string) error {
            cmd.Println(renderGreeting(opts.name))
            return nil
        },
    }

    cmd.Flags().StringVarP(&opts.name, "name", "n", "world", "Who to greet.")
    return cmd
}

func renderGreeting(name string) string {
    return fmt.Sprintf("hello, %s!", name)
}
"#;

pub const GO_CLI_ROOT_TEST_GO: &'static str = r#"package cmd

import "testing"

func TestRenderGreeting(t *testing.T) {
    t.Parallel()

    if got := renderGreeting("belay"); got != "hello, belay!" {
        t.Fatalf("unexpected greeting: %q", got)
    }
}
"#;

/// The ruff, pytest and ty settings appended to `pyproject.toml`.
pub open spec fn tool_config_toml_text(ruff_target: Seq<char>) -> Seq<char> {
    TOOL_CONFIG_TOML_0@ + ruff_target + TOOL_CONFIG_TOML_1@
}

/// The README of a Python project.
pub open spec fn python_readme_text(project_name: Seq<char>) -> Seq<char> {
    PYTHON_README_0@ + project_name + PYTHON_README_1@
}

/// The `__init__.py` of a Python package, with a `greet` function.
pub open spec fn init_py_text(project_name: Seq<char>) -> Seq<char> {
    INIT_PY_0@ + project_name + INIT_PY_1@
}

/// The first test of a Python project.
pub open spec fn test_py_text(module_name: Seq<char>) -> Seq<char> {
    TEST_PY_0@ + module_name + TEST_PY_1@
}

/// The `Cargo.toml` of a Rust CLI.
pub open spec fn rust_cli_cargo_toml_text(package_name: Seq<char>) -> Seq<char> {
    RUST_CLI_CARGO_TOML_0@ + package_name + RUST_CLI_CARGO_TOML_1@
}

/// The README of a Rust CLI.
pub open spec fn rust_cli_readme_text(command_name: Seq<char>) -> Seq<char> {
    RUST_CLI_README_0@ + command_name + RUST_CLI_README_1@
}

/// The `src/main.rs` of a Rust CLI, built with clap.
pub open spec fn rust_cli_main_rs_text(crate_name: Seq<char>, command_name: Seq<char>) -> Seq<char> {
    RUST_CLI_MAIN_RS_0@ + crate_name + RUST_CLI_MAIN_RS_1@ + command_name + RUST_CLI_MAIN_RS_2@
}

/// The smoke test of a Rust CLI.
pub open spec fn rust_cli_smoke_test_text(crate_name: Seq<char>) -> Seq<char> {
    RUST_CLI_SMOKE_TEST_0@ + crate_name + RUST_CLI_SMOKE_TEST_1@
}

/// The `go.mod` of a Go CLI.
pub open spec fn go_cli_go_mod_text(module_name: Seq<char>) -> Seq<char> {
    GO_CLI_GO_MOD_0@ + module_name + GO_CLI_GO_MOD_1@ + DEFAULT_COBRA_VERSION@ + GO_CLI_GO_MOD_2@
}

/// The README of a Go CLI.
pub open spec fn go_cli_readme_text(command_name: Seq<char>) -> Seq<char> {
    GO_CLI_README_0@ + command_name + GO_CLI_README_1@
}

/// The `main.go` of a Go CLI.
pub open spec fn go_cli_main_go_text(module_name: Seq<char>) -> Seq<char> {
    GO_CLI_MAIN_GO_0@ + module_name + GO_CLI_MAIN_GO_1@
}

/// The `cmd/root.go` of a Go CLI, built with Cobra.
pub open spec fn go_cli_root_go_text(command_name: Seq<char>) -> Seq<char> {
    GO_CLI_ROOT_GO_0@ + command_name + GO_CLI_ROOT_GO_1@
}

/// The ruff, pytest and ty settings appended to `pyproject.toml`.
pub fn tool_config_toml(spec: &PythonProjectSpec) -> (r: String)
    ensures
        r@ == tool_config_toml_text(spec.ruff_target@),
{
    let mut r = String::from_str(TOOL_CONFIG_TOML_0);
    r.append(spec.ruff_target.as_str());
    r.append(TOOL_CONFIG_TOML_1);
    r
}

/// The README of a Python project.
pub fn python_readme(spec: &PythonProjectSpec) -> (r: String)
    ensures
        r@ == python_readme_text(spec.project_name@),
{
    let mut r = String::from_str(PYTHON_README_0);
    r.append(spec.project_name.as_str());
    r.append(PYTHON_README_1);
    r
}

/// The `__init__.py` of a Python package, with a `greet` function.
pub fn init_py(spec: &PythonProjectSpec) -> (r: String)
    ensures
        r@ == init_py_text(spec.project_name@),
{
    let mut r = String::from_str(INIT_PY_0);
    r.append(spec.project_name.as_str());
    r.append(INIT_PY_1);
    r
}

/// The first test of a Python project.
pub fn test_py(spec: &PythonProjectSpec) -> (r: String)
    ensures
        r@ == test_py_text(spec.module_name@),
{
    let mut r = String::from_str(TEST_PY_0);
    r.append(spec.module_name.as_str());
    r.append(TEST_PY_1);
    r
}

/// The `.editorconfig` of every project.
pub fn editorconfig() -> (r: &'static str)
    ensures
        r@ == EDITORCONFIG@,
{
    EDITORCONFIG
}

/// The `.gitignore` of a Python project.
pub fn python_gitignore() -> (r: &'static str)
    ensures
        r@ == PYTHON_GITIGNORE@,
{
    PYTHON_GITIGNORE
}

/// The `.gitignore` of a Rust project.
pub fn rust_gitignore() -> (r: &'static str)
    ensures
        r@ == RUST_GITIGNORE@,
{
    RUST_GITIGNORE
}

/// The `.gitignore` of a Go project.
pub fn go_gitignore() -> (r: &'static str)
    ensures
        r@ == GO_GITIGNORE@,
{
    GO_GITIGNORE
}

/// The `Cargo.toml` of a Rust CLI.
pub fn rust_cli_cargo_toml(spec: &RustCliProjectSpec) -> (r: String)
    ensures
        r@ == rust_cli_cargo_toml_text(spec.package_name@),
{
    let mut r = String::from_str(RUST_CLI_CARGO_TOML_0);
    r.append(spec.package_name.as_str());
    r.append(RUST_CLI_CARGO_TOML_1);
    r
}

/// The README of a Rust CLI.
pub fn rust_cli_readme(spec: &RustCliProjectSpec) -> (r: String)
    ensures
        r@ == rust_cli_readme_text(spec.command_name@),
{
    let mut r = String::from_str(RUST_CLI_README_0);
    r.append(spec.command_name.as_str());
    r.append(RUST_CLI_README_1);
    r
}

/// The README of a Cargo binary project.
pub open spec fn rust_readme_text(package_name: Seq<char>) -> Seq<char> {
    RUST_README_0@ + package_name + RUST_README_1@
}

/// The README of a Cargo binary project.
pub fn rust_readme(spec: &RustCliProjectSpec) -> (r: String)
    ensures
        r@ == rust_readme_text(spec.package_name@),
{
    let mut r = String::from_str(RUST_README_0);
    r.append(spec.package_name.as_str());
    r.append(RUST_README_1);
    r
}

/// The `src/lib.rs` of a Rust CLI.
pub fn rust_cli_lib_rs() -> (r: &'static str)
    ensures
        r@ == RUST_CLI_LIB_RS@,
{
    RUST_CLI_LIB_RS
}

/// The `src/main.rs` of a Rust CLI, built with clap.
pub fn rust_cli_main_rs(spec: &RustCliProjectSpec) -> (r: String)
    ensures
        r@ == rust_cli_main_rs_text(spec.crate_name@, spec.command_name@),
{
    let mut r = String::from_str(RUST_CLI_MAIN_RS_0);
    r.append(spec.crate_name.as_str());
    r.append(RUST_CLI_MAIN_RS_1);
    r.append(spec.command_name.as_str());
    r.append(RUST_CLI_MAIN_RS_2);
    r
}

/// The smoke test of a Rust CLI.
pub fn rust_cli_smoke_test(spec: &RustCliProjectSpec) -> (r: String)
    ensures
        r@ == rust_cli_smoke_test_text(spec.crate_name@),
{
    let mut r = String::from_str(RUST_CLI_SMOKE_TEST_0);
    r.append(spec.crate_name.as_str());
    r.append(RUST_CLI_SMOKE_TEST_1);
    r
}

/// The `go.mod` of a Go CLI.
pub fn go_cli_go_mod(spec: &GoCliProjectSpec) -> (r: String)
    ensures
        r@ == go_cli_go_mod_text(spec.module_name@),
{
    let mut r = String::from_str(GO_CLI_GO_MOD_0);
    r.append(spec.module_name.as_str());
    r.append(GO_CLI_GO_MOD_1);
    r.append(DEFAULT_COBRA_VERSION);
    r.append(GO_CLI_GO_MOD_2);
    r
}

/// The README of a Go CLI.
pub fn go_cli_readme(spec: &GoCliProjectSpec) -> (r: String)
    ensures
        r@ == go_cli_readme_text(spec.command_name@),
{
    let mut r = String::from_str(GO_CLI_README_0);
    r.append(spec.command_name.as_str());
    r.append(GO_CLI_README_1);
    r
}

/// The `main.go` of a Go CLI.
pub fn go_cli_main_go(spec: &GoCliProjectSpec) -> (r: String)
    ensures
        r@ == go_cli_main_go_text(spec.module_name@),
{
    let mut r = String::from_str(GO_CLI_MAIN_GO_0);
    r.append(spec.module_name.as_str());
    r.append(GO_CLI_MAIN_GO_1);
    r
}

/// The `cmd/root.go` of a Go CLI, built with Cobra.
pub fn go_cli_root_go(spec: &GoCliProjectSpec) -> (r: String)
    ensures
        r@ == go_cli_root_go_text(spec.command_name@),
{
    let mut r = String::from_str(GO_CLI_ROOT_GO_0);
    r.append(spec.command_name.as_str());
    r.append(GO_CLI_ROOT_GO_1);
    r
}

/// The `cmd/root_test.go` of a Go CLI.
pub fn go_cli_root_test_go() -> (r: &'static str)
    ensures
        r@ == GO_CLI_ROOT_TEST_GO@,
{
    GO_CLI_ROOT_TEST_GO
}
/// A file of a new project: its path relative to the project directory
/// (components separated by `/`) and its contents.
pub struct ProjectFile {
    pub path: String,
    pub contents: String,
}

/// A file's path and contents.
pub open spec fn file_view(f: ProjectFile) -> (Seq<char>, Seq<char>) {
    (f.path@, f.contents@)
}

/// The directories and files that a project starts with, directories first.
pub struct ProjectLayout {
    pub directories: Vec<String>,
    pub files: Vec<ProjectFile>,
}

/// The directories of a layout.
pub open spec fn directories_view(l: ProjectLayout) -> Seq<Seq<char>> {
    l.directories@.map_values(|d: String| d@)
}

/// The files of a layout.
pub open spec fn files_view(l: ProjectLayout) -> Seq<(Seq<char>, Seq<char>)> {
    l.files@.map_values(|f: ProjectFile| file_view(f))
}

fn file(path: String, contents: String) -> (r: ProjectFile)
    ensures
        file_view(r) == (path@, contents@),
{
    ProjectFile { path, contents }
}

fn text(s: &str) -> (r: String)
    ensures
        r@ == s@,
{
    String::from_str(s)
}

fn joined(a: &str, b: &str, c: &str) -> (r: String)
    ensures
        r@ == a@ + b@ + c@,
{
    let mut r = String::from_str(a);
    r.append(b);
    r.append(c);
    r
}

/// The directories that belay adds to what `uv init` made.
pub open spec fn python_overlay_directories(spec: PythonProjectSpec) -> Seq<Seq<char>> {
    seq!["src/"@ + spec.module_name@, "tests"@]
}

/// The files that belay adds to what `uv init` made.
pub open spec fn python_overlay_files(spec: PythonProjectSpec) -> Seq<(Seq<char>, Seq<char>)> {
    seq![
        (".editorconfig"@, EDITORCONFIG@),
        (".gitignore"@, PYTHON_GITIGNORE@),
        ("README.md"@, python_readme_text(spec.project_name@)),
        ("src/"@ + spec.module_name@ + "/__init__.py"@, init_py_text(spec.project_name@)),
        ("src/"@ + spec.module_name@ + "/py.typed"@, ""@),
        ("tests/test_"@ + spec.module_name@ + ".py"@, test_py_text(spec.module_name@)),
    ]
}

/// The directories of a new Rust CLI.
pub open spec fn rust_cli_directories(spec: RustCliProjectSpec) -> Seq<Seq<char>> {
    seq!["src"@, "tests"@]
}

/// The files of a new Rust CLI.
pub open spec fn rust_cli_files(spec: RustCliProjectSpec) -> Seq<(Seq<char>, Seq<char>)> {
    seq![
        (".editorconfig"@, EDITORCONFIG@),
        (".gitignore"@, RUST_GITIGNORE@),
        ("Cargo.toml"@, rust_cli_cargo_toml_text(spec.package_name@)),
        ("README.md"@, rust_cli_readme_text(spec.command_name@)),
        ("src/lib.rs"@, RUST_CLI_LIB_RS@),
        ("src/main.rs"@, rust_cli_main_rs_text(spec.crate_name@, spec.command_name@)),
        ("tests/smoke.rs"@, rust_cli_smoke_test_text(spec.crate_name@)),
    ]
}

/// The files that belay adds to what `cargo new` made.
pub open spec fn rust_project_files(spec: RustCliProjectSpec) -> Seq<(Seq<char>, Seq<char>)> {
    seq![
        (".editorconfig"@, EDITORCONFIG@),
        (".gitignore"@, RUST_GITIGNORE@),
        ("README.md"@, rust_readme_text(spec.package_name@)),
    ]
}

/// The directories of a new Go CLI.
pub open spec fn go_cli_directories(spec: GoCliProjectSpec) -> Seq<Seq<char>> {
    seq!["cmd"@]
}

/// The files of a new Go CLI.
pub open spec fn go_cli_files(spec: GoCliProjectSpec) -> Seq<(Seq<char>, Seq<char>)> {
    seq![
        (".editorconfig"@, EDITORCONFIG@),
        (".gitignore"@, GO_GITIGNORE@),
        ("go.mod"@, go_cli_go_mod_text(spec.module_name@)),
        ("README.md"@, go_cli_readme_text(spec.command_name@)),
        ("main.go"@, go_cli_main_go_text(spec.module_name@)),
        ("cmd/root.go"@, go_cli_root_go_text(spec.command_name@)),
        ("cmd/root_test.go"@, GO_CLI_ROOT_TEST_GO@),
    ]
}

/// The directories and files that belay adds to what `uv init` made.
pub fn python_overlay_layout(spec: &PythonProjectSpec) -> (r: ProjectLayout)
    ensures
        directories_view(r) == python_overlay_directories(*spec),
        files_view(r) == python_overlay_files(*spec),
{
    let module = spec.module_name.as_str();
    let mut directories: Vec<String> = Vec::new();
    directories.push(joined("src/", module, ""));
    directories.push(text("tests"));
    let mut files: Vec<ProjectFile> = Vec::new();
    files.push(file(text(".editorconfig"), text(editorconfig())));
    files.push(file(text(".gitignore"), text(python_gitignore())));
    files.push(file(text("README.md"), python_readme(spec)));
    files.push(file(joined("src/", module, "/__init__.py"), init_py(spec)));
    files.push(file(joined("src/", module, "/py.typed"), text("")));
    files.push(file(joined("tests/test_", module, ".py"), test_py(spec)));
    let r = ProjectLayout { directories, files };
    proof {
        reveal_strlit("");
    }
    assert(directories_view(r) =~= python_overlay_directories(*spec));
    assert(files_view(r) =~= python_overlay_files(*spec));
    r
}

/// The directories and files of a new Rust CLI.
pub fn rust_cli_layout(spec: &RustCliProjectSpec) -> (r: ProjectLayout)
    ensures
        directories_view(r) == rust_cli_directories(*spec),
        files_view(r) == rust_cli_files(*spec),
{
    let mut directories: Vec<String> = Vec::new();
    directories.push(text("src"));
    directories.push(text("tests"));
    let mut files: Vec<ProjectFile> = Vec::new();
    files.push(file(text(".editorconfig"), text(editorconfig())));
    files.push(file(text(".gitignore"), text(rust_gitignore())));
    files.push(file(text("Cargo.toml"), rust_cli_cargo_toml(spec)));
    files.push(file(text("README.md"), rust_cli_readme(spec)));
    files.push(file(text("src/lib.rs"), text(rust_cli_lib_rs())));
    files.push(file(text("src/main.rs"), rust_cli_main_rs(spec)));
    files.push(file(text("tests/smoke.rs"), rust_cli_smoke_test(spec)));
    let r = ProjectLayout { directories, files };
    assert(directories_view(r) =~= rust_cli_directories(*spec));
    assert(files_view(r) =~= rust_cli_files(*spec));
    r
}

/// The files that belay adds to what `cargo new` made; no directories.
pub fn rust_project_layout(spec: &RustCliProjectSpec) -> (r: ProjectLayout)
    ensures
        directories_view(r) == Seq::<Seq<char>>::empty(),
        files_view(r) == rust_project_files(*spec),
{
    let directories: Vec<String> = Vec::new();
    let mut files: Vec<ProjectFile> = Vec::new();
    files.push(file(text(".editorconfig"), text(editorconfig())));
    files.push(file(text(".gitignore"), text(rust_gitignore())));
    files.push(file(text("README.md"), rust_readme(spec)));
    let r = ProjectLayout { directories, files };
    assert(directories_view(r) =~= Seq::<Seq<char>>::empty());
    assert(files_view(r) =~= rust_project_files(*spec));
    r
}

/// The directories and files of a new Go CLI.
pub fn go_cli_layout(spec: &GoCliProjectSpec) -> (r: ProjectLayout)
    ensures
        directories_view(r) == go_cli_directories(*spec),
        files_view(r) == go_cli_files(*spec),
{
    let mut directories: Vec<String> = Vec::new();
    directories.push(text("cmd"));
    let mut files: Vec<ProjectFile> = Vec::new();
    files.push(file(text(".editorconfig"), text(editorconfig())));
    files.push(file(text(".gitignore"), text(go_gitignore())));
    files.push(file(text("go.mod"), go_cli_go_mod(spec)));
    files.push(file(text("README.md"), go_cli_readme(spec)));
    files.push(file(text("main.go"), go_cli_main_go(spec)));
    files.push(file(text("cmd/root.go"), go_cli_root_go(spec)));
    files.push(file(text("cmd/root_test.go"), text(go_cli_root_test_go())));
    let r = ProjectLayout { directories, files };
    assert(directories_view(r) =~= go_cli_directories(*spec));
    assert(files_view(r) =~= go_cli_files(*spec));
    r
}

/// The `pyproject.toml` text with the tool settings appended after a blank
/// line, or `None` where it already has a `[tool.ruff]` or `[tool.ty]` table.
pub open spec fn tool_config_appended(pyproject: Seq<char>, ruff_target: Seq<char>) -> Option<
    Seq<char>,
> {
    if contains_seq(pyproject, "[tool.ruff]"@) || contains_seq(pyproject, "[tool.ty]"@) {
        None
    } else {
        let ended = if ends_with_newline(pyproject) {
            pyproject
        } else {
            pyproject.push('\n')
        };
        Some(ended.push('\n') + tool_config_toml_text(ruff_target))
    }
}

/// Adds the tool settings to a `pyproject.toml` text that has none; `None`
/// means the file is left as it is.
pub fn append_tool_config(pyproject: &str, spec: &PythonProjectSpec) -> (r: Option<String>)
    ensures
        match r {
            Some(t) => tool_config_appended(pyproject@, spec.ruff_target@) == Some(t@),
            None => tool_config_appended(pyproject@, spec.ruff_target@) is None,
        },
{
    let cs = chars_of(pyproject);
    let ruff = chars_of("[tool.ruff]");
    let ty = chars_of("[tool.ty]");
    if find_chars(&cs, &ruff).is_some() || find_chars(&cs, &ty).is_some() {
        return None;
    }
    let mut next = String::from_str(pyproject);
    if cs.len() == 0 || cs[cs.len() - 1] != '\n' {
        push_char(&mut next, '\n');
    }
    push_char(&mut next, '\n');
    next.append(tool_config_toml(spec).as_str());
    Some(next)
}

/// The tool settings open with the `[tool.ruff]` table.
proof fn lemma_tool_config_opens_with_ruff_table(ruff_target: Seq<char>)
    ensures
        occurs_at(tool_config_toml_text(ruff_target), "[tool.ruff]"@, 0),
{
    reveal_strlit(r#"[tool.ruff]
line-length = 100
target-version = ""#);
    reveal_strlit("[tool.ruff]");
    let t = tool_config_toml_text(ruff_target);
    assert(t.subrange(0, 11) =~= "[tool.ruff]"@);
}

/// Appending the tool settings happens once: a text that has them is left as it is.
pub proof fn lemma_tool_config_appended_once(pyproject: Seq<char>, ruff_target: Seq<char>)
    ensures
        tool_config_appended(pyproject, ruff_target) matches Some(t) ==> tool_config_appended(
            t,
            ruff_target,
        ) is None,
{
    if let Some(t) = tool_config_appended(pyproject, ruff_target) {
        let head = t.len() - tool_config_toml_text(ruff_target).len();
        lemma_tool_config_opens_with_ruff_table(ruff_target);
        reveal_strlit("[tool.ruff]");
        assert(t.subrange(head, head + 11) =~= tool_config_toml_text(ruff_target).subrange(0, 11));
        assert(occurs_at(t, "[tool.ruff]"@, head));
    }
}

/// A text that ends with `pre`, a name, and a text that starts with `post`
/// hold `pre`, the name and `post` together, where the first text ends.
proof fn lemma_around(a: Seq<char>, x: Seq<char>, b: Seq<char>, pre: Seq<char>, post: Seq<char>)
    requires
        pre.len() <= a.len(),
        a.subrange(a.len() - pre.len(), a.len() as int) == pre,
        post.len() <= b.len(),
        b.subrange(0, post.len() as int) == post,
    ensures
        occurs_at(a + x + b, pre + x + post, a.len() - pre.len()),
        contains_seq(a + x + b, pre + x + post),
{
    let t = a + x + b;
    let i = a.len() - pre.len();
    assert(t.subrange(i, i + (pre + x + post).len()) =~= pre + x + post) by {
        assert forall|k: int| 0 <= k < (pre + x + post).len() implies t.subrange(
            i,
            i + (pre + x + post).len(),
        )[k] == (pre + x + post)[k] by {
            if k < pre.len() {
                assert(a.subrange(a.len() - pre.len(), a.len() as int)[k] == a[i + k]);
            } else if k < pre.len() + x.len() {
            } else {
                assert(b.subrange(0, post.len() as int)[k - pre.len() - x.len()] == b[k
                    - pre.len() - x.len()]);
            }
        }
    }
}

/// Where each template piece starts and ends: the text around the names.
proof fn lemma_template_pieces()
    ensures
        PYTHON_README_0@.len() >= 2 && PYTHON_README_0@.subrange(PYTHON_README_0@.len() - 2, PYTHON_README_0@.len() as int) == "# "@,
        PYTHON_README_1@.len() >= 1 && PYTHON_README_1@.subrange(0, 1) == "\n"@,
        INIT_PY_0@.len() >= 3 && INIT_PY_0@.subrange(INIT_PY_0@.len() - 3, INIT_PY_0@.len() as int) == "\"\"\""@,
        INIT_PY_1@.len() >= 4 && INIT_PY_1@.subrange(0, 4) == ".\"\"\""@,
        TEST_PY_0@.len() >= 5 && TEST_PY_0@.subrange(TEST_PY_0@.len() - 5, TEST_PY_0@.len() as int) == "from "@,
        TEST_PY_1@.len() >= 14 && TEST_PY_1@.subrange(0, 14) == " import greet\n"@,
        TOOL_CONFIG_TOML_0@.len() >= 18 && TOOL_CONFIG_TOML_0@.subrange(TOOL_CONFIG_TOML_0@.len() - 18, TOOL_CONFIG_TOML_0@.len() as int) == "target-version = \""@,
        TOOL_CONFIG_TOML_1@.len() >= 2 && TOOL_CONFIG_TOML_1@.subrange(0, 2) == "\"\n"@,
        RUST_CLI_CARGO_TOML_0@.len() >= 8 && RUST_CLI_CARGO_TOML_0@.subrange(RUST_CLI_CARGO_TOML_0@.len() - 8, RUST_CLI_CARGO_TOML_0@.len() as int) == "name = \""@,
        RUST_CLI_CARGO_TOML_1@.len() >= 2 && RUST_CLI_CARGO_TOML_1@.subrange(0, 2) == "\"\n"@,
        RUST_CLI_README_0@.len() >= 2 && RUST_CLI_README_0@.subrange(RUST_CLI_README_0@.len() - 2, RUST_CLI_README_0@.len() as int) == "# "@,
        RUST_CLI_README_1@.len() >= 1 && RUST_CLI_README_1@.subrange(0, 1) == "\n"@,
        RUST_README_0@.len() >= 2 && RUST_README_0@.subrange(RUST_README_0@.len() - 2, RUST_README_0@.len() as int) == "# "@,
        RUST_README_1@.len() >= 1 && RUST_README_1@.subrange(0, 1) == "\n"@,
        RUST_CLI_MAIN_RS_0@.len() >= 4 && RUST_CLI_MAIN_RS_0@.subrange(RUST_CLI_MAIN_RS_0@.len() - 4, RUST_CLI_MAIN_RS_0@.len() as int) == "use "@,
        RUST_CLI_MAIN_RS_1@.len() >= 18 && RUST_CLI_MAIN_RS_1@.subrange(0, 18) == "::render_greeting;"@,
        RUST_CLI_MAIN_RS_1@.len() >= 8 && RUST_CLI_MAIN_RS_1@.subrange(RUST_CLI_MAIN_RS_1@.len() - 8, RUST_CLI_MAIN_RS_1@.len() as int) == "name = \""@,
        RUST_CLI_MAIN_RS_2@.len() >= 2 && RUST_CLI_MAIN_RS_2@.subrange(0, 2) == "\","@,
        RUST_CLI_SMOKE_TEST_0@.len() >= 4 && RUST_CLI_SMOKE_TEST_0@.subrange(RUST_CLI_SMOKE_TEST_0@.len() - 4, RUST_CLI_SMOKE_TEST_0@.len() as int) == "use "@,
        RUST_CLI_SMOKE_TEST_1@.len() >= 19 && RUST_CLI_SMOKE_TEST_1@.subrange(0, 19) == "::render_greeting;\n"@,
        GO_CLI_GO_MOD_0@.len() >= 7 && GO_CLI_GO_MOD_0@.subrange(GO_CLI_GO_MOD_0@.len() - 7, GO_CLI_GO_MOD_0@.len() as int) == "module "@,
        GO_CLI_GO_MOD_1@.len() >= 1 && GO_CLI_GO_MOD_1@.subrange(0, 1) == "\n"@,
        GO_CLI_GO_MOD_1@.len() >= 31 && GO_CLI_GO_MOD_1@.subrange(GO_CLI_GO_MOD_1@.len() - 31, GO_CLI_GO_MOD_1@.len() as int) == "require github.com/spf13/cobra "@,
        GO_CLI_GO_MOD_2@.len() >= 1 && GO_CLI_GO_MOD_2@.subrange(0, 1) == "\n"@,
        GO_CLI_README_0@.len() >= 2 && GO_CLI_README_0@.subrange(GO_CLI_README_0@.len() - 2, GO_CLI_README_0@.len() as int) == "# "@,
        GO_CLI_README_1@.len() >= 1 && GO_CLI_README_1@.subrange(0, 1) == "\n"@,
        GO_CLI_MAIN_GO_0@.len() >= 1 && GO_CLI_MAIN_GO_0@.subrange(GO_CLI_MAIN_GO_0@.len() - 1, GO_CLI_MAIN_GO_0@.len() as int) == "\""@,
        GO_CLI_MAIN_GO_1@.len() >= 5 && GO_CLI_MAIN_GO_1@.subrange(0, 5) == "/cmd\""@,
        GO_CLI_ROOT_GO_0@.len() >= 16 && GO_CLI_ROOT_GO_0@.subrange(GO_CLI_ROOT_GO_0@.len() - 16, GO_CLI_ROOT_GO_0@.len() as int) == "Use:           \""@,
        GO_CLI_ROOT_GO_1@.len() >= 2 && GO_CLI_ROOT_GO_1@.subrange(0, 2) == "\","@,
{
    reveal_strlit(r#"# "#);
    reveal_strlit(r#"

## Development

```sh
uv sync --dev
uv run ruff format .
uv run ruff check .
uv run ty check
uv run pytest
```
"#);
    reveal_strlit(r#"""""#);
    reveal_strlit(r#"."""

__all__ = ["greet"]


def greet(name: str) -> str:
    return f"Hello, {name}!"
"#);
    reveal_strlit(r#"from "#);
    reveal_strlit(r#" import greet


def test_greet() -> None:
    assert greet("belay") == "Hello, belay!"
"#);
    reveal_strlit(r#"[tool.ruff]
line-length = 100
target-version = ""#);
    reveal_strlit(r#""

[tool.ruff.lint]
select = [
    "E",
    "F",
    "I",
    "B",
    "UP",
    "ANN",
    "ASYNC",
    "C4",
    "RUF",
]

[tool.ruff.format]
quote-style = "double"
indent-style = "space"

[tool.pytest.ini_options]
testpaths = ["tests"]

[tool.ty]
"#);
    reveal_strlit(r#"[package]
name = ""#);
    reveal_strlit(r#""
version = "0.1.0"
edition = "2021"
description = "A polished CLI built with clap."
license = "MIT"

[dependencies]
clap = { version = "4.5", features = ["cargo", "derive", "string", "unicode", "wrap_help"] }
color-eyre = "0.6"
"#);
    reveal_strlit(r#"# "#);
    reveal_strlit(r#"

## Development

```sh
cargo fmt
cargo test
cargo run -- hello --name belay
```
"#);
    reveal_strlit(r#"# "#);
    reveal_strlit(r#"

## Development

```sh
cargo fmt
cargo test
cargo run
```
"#);
    reveal_strlit(r#"use clap::builder::styling::{AnsiColor, Effects, Styles};
use clap::{Parser, Subcommand};
use color_eyre::eyre::Result;

use "#);
    reveal_strlit(r#"::render_greeting;

fn main() -> Result<()> {
    color_eyre::install()?;
    let cli = Cli::parse();

    match cli.command {
        Commands::Hello { name } => {
            println!("{}", render_greeting(&name));
        }
    }

    Ok(())
}

#[derive(Debug, Parser)]
#[command(
    name = ""#);
    reveal_strlit(r#"",
    version,
    about = "A polished CLI scaffold built with clap.",
    styles = styles()
)]
struct Cli {
    #[command(subcommand)]
    command: Commands,
}

#[derive(Debug, Subcommand)]
enum Commands {
    Hello {
        #[arg(short, long, default_value = "world")]
        name: String,
    },
}

fn styles() -> Styles {
    Styles::styled()
        .header(AnsiColor::Yellow.on_default() | Effects::BOLD)
        .usage(AnsiColor::Yellow.on_default() | Effects::BOLD)
        .literal(AnsiColor::Cyan.on_default() | Effects::BOLD)
        .placeholder(AnsiColor::Green.on_default())
}
"#);
    reveal_strlit(r#"use "#);
    reveal_strlit(r#"::render_greeting;

#[test]
fn smoke() {
    assert_eq!(render_greeting("cli"), "hello, cli!");
}
"#);
    reveal_strlit(r#"module "#);
    reveal_strlit(r#"

go 1.22

require github.com/spf13/cobra "#);
    reveal_strlit(r#"
"#);
    reveal_strlit(r#"# "#);
    reveal_strlit(r#"

## Development

```sh
go test ./...
go run . hello --name belay
```
"#);
    reveal_strlit(r#"package main

import (
    "fmt"
    "os"

    ""#);
    reveal_strlit(r#"/cmd"
)

func main() {
    if err := cmd.Execute(); err != nil {
        fmt.Fprintln(os.Stderr, err)
        os.Exit(1)
    }
}
"#);
    reveal_strlit(r#"package cmd

import (
    "fmt"

    "github.com/spf13/cobra"
)

type options struct {
    name string
}

func Execute() error {
    return newRootCmd().Execute()
}

func newRootCmd() *cobra.Command {
    opts := options{}

    cmd := &cobra.Command{
        Use:           ""#);
    reveal_strlit(r#"",
        Short:         "A polished CLI scaffold built with Cobra.",
        SilenceUsage:  true,
        SilenceErrors: true,
        CompletionOptions: cobra.CompletionOptions{
            DisableDefaultCmd: true,
        },
    }

    cmd.AddCommand(newHelloCmd(&opts))
    cmd.SetHelpCommand(&cobra.Command{Hidden: true})
    return cmd
}

func newHelloCmd(opts *options) *cobra.Command {
    cmd := &cobra.Command{
        Use:   "hello",
        Short: "Print a clean greeting.",
        RunE: func(cmd *cobra.Command, args []string) error {
            cmd.Println(renderGreeting(opts.name))
            return nil
        },
    }

    cmd.Flags().StringVarP(&opts.name, "name", "n", "world", "Who to greet.")
    return cmd
}

func renderGreeting(name string) string {
    return fmt.Sprintf("hello, %s!", name)
}
"#);
    reveal_strlit("# ");
    assert(PYTHON_README_0@.subrange(PYTHON_README_0@.len() - 2, PYTHON_README_0@.len() as int) =~= "# "@);
    reveal_strlit("\n");
    assert(PYTHON_README_1@.subrange(0, 1) =~= "\n"@);
    reveal_strlit("\"\"\"");
    assert(INIT_PY_0@.subrange(INIT_PY_0@.len() - 3, INIT_PY_0@.len() as int) =~= "\"\"\""@);
    reveal_strlit(".\"\"\"");
    assert(INIT_PY_1@.subrange(0, 4) =~= ".\"\"\""@);
    reveal_strlit("from ");
    assert(TEST_PY_0@.subrange(TEST_PY_0@.len() - 5, TEST_PY_0@.len() as int) =~= "from "@);
    reveal_strlit(" import greet\n");
    assert(TEST_PY_1@.subrange(0, 14) =~= " import greet\n"@);
    reveal_strlit("target-version = \"");
    assert(TOOL_CONFIG_TOML_0@.subrange(TOOL_CONFIG_TOML_0@.len() - 18, TOOL_CONFIG_TOML_0@.len() as int) =~= "target-version = \""@);
    reveal_strlit("\"\n");
    assert(TOOL_CONFIG_TOML_1@.subrange(0, 2) =~= "\"\n"@);
    reveal_strlit("name = \"");
    assert(RUST_CLI_CARGO_TOML_0@.subrange(RUST_CLI_CARGO_TOML_0@.len() - 8, RUST_CLI_CARGO_TOML_0@.len() as int) =~= "name = \""@);
    reveal_strlit("\"\n");
    assert(RUST_CLI_CARGO_TOML_1@.subrange(0, 2) =~= "\"\n"@);
    reveal_strlit("# ");
    assert(RUST_CLI_README_0@.subrange(RUST_CLI_README_0@.len() - 2, RUST_CLI_README_0@.len() as int) =~= "# "@);
    reveal_strlit("\n");
    assert(RUST_CLI_README_1@.subrange(0, 1) =~= "\n"@);
    reveal_strlit("# ");
    assert(RUST_README_0@.subrange(RUST_README_0@.len() - 2, RUST_README_0@.len() as int) =~= "# "@);
    reveal_strlit("\n");
    assert(RUST_README_1@.subrange(0, 1) =~= "\n"@);
    reveal_strlit("use ");
    assert(RUST_CLI_MAIN_RS_0@.subrange(RUST_CLI_MAIN_RS_0@.len() - 4, RUST_CLI_MAIN_RS_0@.len() as int) =~= "use "@);
    reveal_strlit("::render_greeting;");
    assert(RUST_CLI_MAIN_RS_1@.subrange(0, 18) =~= "::render_greeting;"@);
    reveal_strlit("name = \"");
    assert(RUST_CLI_MAIN_RS_1@.subrange(RUST_CLI_MAIN_RS_1@.len() - 8, RUST_CLI_MAIN_RS_1@.len() as int) =~= "name = \""@);
    reveal_strlit("\",");
    assert(RUST_CLI_MAIN_RS_2@.subrange(0, 2) =~= "\","@);
    reveal_strlit("use ");
    assert(RUST_CLI_SMOKE_TEST_0@.subrange(RUST_CLI_SMOKE_TEST_0@.len() - 4, RUST_CLI_SMOKE_TEST_0@.len() as int) =~= "use "@);
    reveal_strlit("::render_greeting;\n");
    assert(RUST_CLI_SMOKE_TEST_1@.subrange(0, 19) =~= "::render_greeting;\n"@);
    reveal_strlit("module ");
    assert(GO_CLI_GO_MOD_0@.subrange(GO_CLI_GO_MOD_0@.len() - 7, GO_CLI_GO_MOD_0@.len() as int) =~= "module "@);
    reveal_strlit("\n");
    assert(GO_CLI_GO_MOD_1@.subrange(0, 1) =~= "\n"@);
    reveal_strlit("require github.com/spf13/cobra ");
    assert(GO_CLI_GO_MOD_1@.subrange(GO_CLI_GO_MOD_1@.len() - 31, GO_CLI_GO_MOD_1@.len() as int) =~= "require github.com/spf13/cobra "@);
    reveal_strlit("\n");
    assert(GO_CLI_GO_MOD_2@.subrange(0, 1) =~= "\n"@);
    reveal_strlit("# ");
    assert(GO_CLI_README_0@.subrange(GO_CLI_README_0@.len() - 2, GO_CLI_README_0@.len() as int) =~= "# "@);
    reveal_strlit("\n");
    assert(GO_CLI_README_1@.subrange(0, 1) =~= "\n"@);
    reveal_strlit("\"");
    assert(GO_CLI_MAIN_GO_0@.subrange(GO_CLI_MAIN_GO_0@.len() - 1, GO_CLI_MAIN_GO_0@.len() as int) =~= "\""@);
    reveal_strlit("/cmd\"");
    assert(GO_CLI_MAIN_GO_1@.subrange(0, 5) =~= "/cmd\""@);
    reveal_strlit("Use:           \"");
    assert(GO_CLI_ROOT_GO_0@.subrange(GO_CLI_ROOT_GO_0@.len() - 16, GO_CLI_ROOT_GO_0@.len() as int) =~= "Use:           \""@);
    reveal_strlit("\",");
    assert(GO_CLI_ROOT_GO_1@.subrange(0, 2) =~= "\","@);
}

/// The Python templates use the names they are given where Python reads
/// them: the README and docstring open with the project name, the test
/// imports the package by its module name, and ruff targets the given version.
pub proof fn lemma_python_templates_use_their_names(
    project_name: Seq<char>,
    module_name: Seq<char>,
    ruff_target: Seq<char>,
)
    ensures
        occurs_at(python_readme_text(project_name), "# "@ + project_name + "\n"@, 0),
        occurs_at(init_py_text(project_name), "\"\"\""@ + project_name + ".\"\"\""@, 0),
        occurs_at(test_py_text(module_name), "from "@ + module_name + " import greet\n"@, 0),
        contains_seq(
            tool_config_toml_text(ruff_target),
            "target-version = \""@ + ruff_target + "\"\n"@,
        ),
{
    lemma_template_pieces();
    lemma_around(PYTHON_README_0@, project_name, PYTHON_README_1@, "# "@, "\n"@);
    lemma_around(INIT_PY_0@, project_name, INIT_PY_1@, "\"\"\""@, ".\"\"\""@);
    lemma_around(TEST_PY_0@, module_name, TEST_PY_1@, "from "@, " import greet\n"@);
    lemma_around(
        TOOL_CONFIG_TOML_0@,
        ruff_target,
        TOOL_CONFIG_TOML_1@,
        "target-version = \""@,
        "\"\n"@,
    );
}

/// The Rust templates use the names they are given where Cargo and rustc
/// read them: Cargo.toml declares the package, main.rs and the smoke test
/// import the library by its crate name, clap shows the command name, and
/// the READMEs open with the command or package name.
pub proof fn lemma_rust_templates_use_their_names(
    package_name: Seq<char>,
    crate_name: Seq<char>,
    command_name: Seq<char>,
)
    ensures
        contains_seq(rust_cli_cargo_toml_text(package_name), "name = \""@ + package_name + "\"\n"@),
        contains_seq(
            rust_cli_main_rs_text(crate_name, command_name),
            "use "@ + crate_name + "::render_greeting;"@,
        ),
        contains_seq(
            rust_cli_main_rs_text(crate_name, command_name),
            "name = \""@ + command_name + "\","@,
        ),
        occurs_at(rust_cli_smoke_test_text(crate_name), "use "@ + crate_name + "::render_greeting;\n"@, 0),
        occurs_at(rust_cli_readme_text(command_name), "# "@ + command_name + "\n"@, 0),
        occurs_at(rust_readme_text(package_name), "# "@ + package_name + "\n"@, 0),
{
    lemma_template_pieces();
    lemma_around(
        RUST_CLI_CARGO_TOML_0@,
        package_name,
        RUST_CLI_CARGO_TOML_1@,
        "name = \""@,
        "\"\n"@,
    );
    let rest = RUST_CLI_MAIN_RS_1@ + command_name + RUST_CLI_MAIN_RS_2@;
    assert(rest.subrange(0, 18) =~= RUST_CLI_MAIN_RS_1@.subrange(0, 18));
    lemma_around(RUST_CLI_MAIN_RS_0@, crate_name, rest, "use "@, "::render_greeting;"@);
    assert(RUST_CLI_MAIN_RS_0@ + crate_name + rest =~= rust_cli_main_rs_text(
        crate_name,
        command_name,
    ));
    let head = RUST_CLI_MAIN_RS_0@ + crate_name + RUST_CLI_MAIN_RS_1@;
    let k = RUST_CLI_MAIN_RS_1@.len();
    assert(head.subrange(head.len() - 8, head.len() as int) =~= RUST_CLI_MAIN_RS_1@.subrange(
        k - 8,
        k as int,
    ));
    lemma_around(head, command_name, RUST_CLI_MAIN_RS_2@, "name = \""@, "\","@);
    lemma_around(
        RUST_CLI_SMOKE_TEST_0@,
        crate_name,
        RUST_CLI_SMOKE_TEST_1@,
        "use "@,
        "::render_greeting;\n"@,
    );
    lemma_around(RUST_CLI_README_0@, command_name, RUST_CLI_README_1@, "# "@, "\n"@);
    lemma_around(RUST_README_0@, package_name, RUST_README_1@, "# "@, "\n"@);
}

/// The Go templates use the names they are given where Go reads them:
/// go.mod declares the module and requires Cobra, main.go imports the `cmd`
/// package of that module, root.go names the command, and the README opens
/// with it.
pub proof fn lemma_go_templates_use_their_names(module_name: Seq<char>, command_name: Seq<char>)
    ensures
        occurs_at(go_cli_go_mod_text(module_name), "module "@ + module_name + "\n"@, 0),
        contains_seq(
            go_cli_go_mod_text(module_name),
            "require github.com/spf13/cobra "@ + DEFAULT_COBRA_VERSION@ + "\n"@,
        ),
        contains_seq(go_cli_main_go_text(module_name), "\""@ + module_name + "/cmd\""@),
        contains_seq(go_cli_root_go_text(command_name), "Use:           \""@ + command_name + "\","@),
        occurs_at(go_cli_readme_text(command_name), "# "@ + command_name + "\n"@, 0),
{
    lemma_template_pieces();
    let tail = GO_CLI_GO_MOD_1@ + DEFAULT_COBRA_VERSION@ + GO_CLI_GO_MOD_2@;
    assert(tail.subrange(0, 1) =~= GO_CLI_GO_MOD_1@.subrange(0, 1));
    lemma_around(GO_CLI_GO_MOD_0@, module_name, tail, "module "@, "\n"@);
    assert(GO_CLI_GO_MOD_0@ + module_name + tail =~= go_cli_go_mod_text(module_name));
    let head = GO_CLI_GO_MOD_0@ + module_name + GO_CLI_GO_MOD_1@;
    let k = GO_CLI_GO_MOD_1@.len();
    assert(head.subrange(head.len() - 31, head.len() as int) =~= GO_CLI_GO_MOD_1@.subrange(
        k - 31,
        k as int,
    ));
    lemma_around(
        head,
        DEFAULT_COBRA_VERSION@,
        GO_CLI_GO_MOD_2@,
        "require github.com/spf13/cobra "@,
        "\n"@,
    );
    lemma_around(GO_CLI_MAIN_GO_0@, module_name, GO_CLI_MAIN_GO_1@, "\""@, "/cmd\""@);
    lemma_around(
        GO_CLI_ROOT_GO_0@,
        command_name,
        GO_CLI_ROOT_GO_1@,
        "Use:           \""@,
        "\","@,
    );
    lemma_around(GO_CLI_README_0@, command_name, GO_CLI_README_1@, "# "@, "\n"@);
}

/// belay's Python files fit the package that uv made: the package lies in
/// `src/<module>` with its `__init__.py` and `py.typed`, its test is
/// `tests/test_<module>.py` and imports the package by the module name, and
/// the README and the package docstring name the project.
pub proof fn lemma_python_overlay_fits_the_module(spec: PythonProjectSpec)
    ensures
        python_overlay_directories(spec) == seq!["src/"@ + spec.module_name@, "tests"@],
        python_overlay_files(spec).len() == 6,
        python_overlay_files(spec)[0] == (".editorconfig"@, EDITORCONFIG@),
        python_overlay_files(spec)[1] == (".gitignore"@, PYTHON_GITIGNORE@),
        python_overlay_files(spec)[2].0 == "README.md"@,
        occurs_at(python_overlay_files(spec)[2].1, "# "@ + spec.project_name@ + "\n"@, 0),
        python_overlay_files(spec)[3].0 == "src/"@ + spec.module_name@ + "/__init__.py"@,
        occurs_at(
            python_overlay_files(spec)[3].1,
            "\"\"\""@ + spec.project_name@ + ".\"\"\""@,
            0,
        ),
        python_overlay_files(spec)[4].0 == "src/"@ + spec.module_name@ + "/py.typed"@,
        python_overlay_files(spec)[4].1.len() == 0,
        python_overlay_files(spec)[5].0 == "tests/test_"@ + spec.module_name@ + ".py"@,
        occurs_at(
            python_overlay_files(spec)[5].1,
            "from "@ + spec.module_name@ + " import greet\n"@,
            0,
        ),
{
    reveal_strlit("");
    lemma_python_templates_use_their_names(
        spec.project_name@,
        spec.module_name@,
        spec.ruff_target@,
    );
}

/// A Rust CLI's files agree on its names: Cargo.toml declares the package,
/// main.rs and the smoke test import the library by the crate name, clap and
/// the README show the command name.
pub proof fn lemma_rust_cli_files_fit_the_crate(spec: RustCliProjectSpec)
    ensures
        rust_cli_directories(spec) == seq!["src"@, "tests"@],
        rust_cli_files(spec).len() == 7,
        rust_cli_files(spec)[0] == (".editorconfig"@, EDITORCONFIG@),
        rust_cli_files(spec)[1] == (".gitignore"@, RUST_GITIGNORE@),
        rust_cli_files(spec)[2].0 == "Cargo.toml"@,
        contains_seq(rust_cli_files(spec)[2].1, "name = \""@ + spec.package_name@ + "\"\n"@),
        rust_cli_files(spec)[3].0 == "README.md"@,
        occurs_at(rust_cli_files(spec)[3].1, "# "@ + spec.command_name@ + "\n"@, 0),
        rust_cli_files(spec)[4] == ("src/lib.rs"@, RUST_CLI_LIB_RS@),
        rust_cli_files(spec)[5].0 == "src/main.rs"@,
        contains_seq(rust_cli_files(spec)[5].1, "use "@ + spec.crate_name@ + "::render_greeting;"@),
        contains_seq(rust_cli_files(spec)[5].1, "name = \""@ + spec.command_name@ + "\","@),
        rust_cli_files(spec)[6].0 == "tests/smoke.rs"@,
        occurs_at(
            rust_cli_files(spec)[6].1,
            "use "@ + spec.crate_name@ + "::render_greeting;\n"@,
            0,
        ),
{
    lemma_rust_templates_use_their_names(
        spec.package_name@,
        spec.crate_name@,
        spec.command_name@,
    );
}

/// belay's files for a Cargo binary project: the README names the package.
pub proof fn lemma_rust_project_files_name_the_package(spec: RustCliProjectSpec)
    ensures
        rust_project_files(spec).len() == 3,
        rust_project_files(spec)[0] == (".editorconfig"@, EDITORCONFIG@),
        rust_project_files(spec)[1] == (".gitignore"@, RUST_GITIGNORE@),
        rust_project_files(spec)[2].0 == "README.md"@,
        occurs_at(rust_project_files(spec)[2].1, "# "@ + spec.package_name@ + "\n"@, 0),
{
    lemma_rust_templates_use_their_names(
        spec.package_name@,
        spec.crate_name@,
        spec.command_name@,
    );
}

/// A Go CLI's files agree on its names: go.mod declares the module and
/// main.go imports the `cmd` package of that same module; root.go and the
/// README show the command name.
pub proof fn lemma_go_cli_files_fit_the_module(spec: GoCliProjectSpec)
    ensures
        go_cli_directories(spec) == seq!["cmd"@],
        go_cli_files(spec).len() == 7,
        go_cli_files(spec)[0] == (".editorconfig"@, EDITORCONFIG@),
        go_cli_files(spec)[1] == (".gitignore"@, GO_GITIGNORE@),
        go_cli_files(spec)[2].0 == "go.mod"@,
        occurs_at(go_cli_files(spec)[2].1, "module "@ + spec.module_name@ + "\n"@, 0),
        go_cli_files(spec)[3].0 == "README.md"@,
        occurs_at(go_cli_files(spec)[3].1, "# "@ + spec.command_name@ + "\n"@, 0),
        go_cli_files(spec)[4].0 == "main.go"@,
        contains_seq(go_cli_files(spec)[4].1, "\""@ + spec.module_name@ + "/cmd\""@),
        go_cli_files(spec)[5].0 == "cmd/root.go"@,
        contains_seq(go_cli_files(spec)[5].1, "Use:           \""@ + spec.command_name@ + "\","@),
        go_cli_files(spec)[6] == ("cmd/root_test.go"@, GO_CLI_ROOT_TEST_GO@),
{
    lemma_go_templates_use_their_names(spec.module_name@, spec.command_name@);
}

} // verus!
