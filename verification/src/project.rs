//! Creating a project folder and reporting it: the steps that set the folder
//! up, in order, and the lines printed once it exists.
use vstd::prelude::*;

use crate::error::BelayError;
use crate::messages::{
    cannot_cd_message, cannot_cd_message_text, created_message, created_message_text,
    installed_message, installed_message_text, not_installed_message, not_installed_message_text,
};
use crate::names::{GoCliProjectSpec, PythonProjectSpec, RustCliProjectSpec};
use crate::process::{
    already_exists_error, cargo_new_args, cargo_new_args_text, strings_view, uv_add_dev_args,
    uv_add_dev_args_text, uv_init_args, uv_init_args_text,
};
use crate::shell::{Shell, shell_name, shell_name_text};
use crate::templates::{
    ProjectLayout, directories_view, files_view, go_cli_directories, go_cli_files, go_cli_layout,
    python_overlay_directories, python_overlay_files, python_overlay_layout, rust_cli_directories,
    rust_cli_files, rust_cli_layout, rust_project_files, rust_project_layout,
};
use crate::theme::Theme;

verus! {

broadcast use vstd::string::group_string_axioms;

/// One step of setting up a project folder. The steps run in order, and the
/// first one that fails ends the creation with its error.
pub enum SetupStep {
    /// Run `program` in the parent of the project directory, with `args`
    /// followed by the project directory.
    RunInParent { program: String, args: Vec<String> },
    /// Run `program` in the project directory, with `args`.
    RunInProject { program: String, args: Vec<String> },
    /// Create the directories and write the files of a layout, under the
    /// project directory.
    WriteLayout(ProjectLayout),
    /// Give the project's `pyproject.toml` the tool settings, as
    /// `append_tool_config` does to its text.
    AppendToolConfig,
}

/// A setup step over plain strings.
pub enum StepView {
    Run { in_parent: bool, program: Seq<char>, args: Seq<Seq<char>> },
    Write { directories: Seq<Seq<char>>, files: Seq<(Seq<char>, Seq<char>)> },
    AppendToolConfig,
}

/// What a setup step does.
pub open spec fn step_view(step: SetupStep) -> StepView {
    match step {
        SetupStep::RunInParent { program, args } => StepView::Run {
            in_parent: true,
            program: program@,
            args: strings_view(args),
        },
        SetupStep::RunInProject { program, args } => StepView::Run {
            in_parent: false,
            program: program@,
            args: strings_view(args),
        },
        SetupStep::WriteLayout(layout) => StepView::Write {
            directories: directories_view(layout),
            files: files_view(layout),
        },
        SetupStep::AppendToolConfig => StepView::AppendToolConfig,
    }
}

/// What a list of setup steps does, in order.
pub open spec fn steps_view(steps: Vec<SetupStep>) -> Seq<StepView> {
    steps@.map_values(|step: SetupStep| step_view(step))
}

/// The setup of a Python project: `uv init` next to it, belay's files over
/// what uv made, the development tools, then the tool settings.
pub open spec fn python_setup(spec: PythonProjectSpec) -> Seq<StepView> {
    seq![
        StepView::Run { in_parent: true, program: "uv"@, args: uv_init_args_text(spec) },
        StepView::Write {
            directories: python_overlay_directories(spec),
            files: python_overlay_files(spec),
        },
        StepView::Run { in_parent: false, program: "uv"@, args: uv_add_dev_args_text() },
        StepView::AppendToolConfig,
    ]
}

/// The setup of a Rust CLI: its files.
pub open spec fn rust_cli_setup(spec: RustCliProjectSpec) -> Seq<StepView> {
    seq![StepView::Write { directories: rust_cli_directories(spec), files: rust_cli_files(spec) }]
}

/// The setup of a Cargo binary project: `cargo new` next to it, then
/// belay's files over what Cargo made.
pub open spec fn rust_setup(spec: RustCliProjectSpec) -> Seq<StepView> {
    seq![
        StepView::Run { in_parent: true, program: "cargo"@, args: cargo_new_args_text(spec) },
        StepView::Write { directories: Seq::empty(), files: rust_project_files(spec) },
    ]
}

/// The setup of a Go CLI: its files.
pub open spec fn go_cli_setup(spec: GoCliProjectSpec) -> Seq<StepView> {
    seq![StepView::Write { directories: go_cli_directories(spec), files: go_cli_files(spec) }]
}

/// The error or the steps of creating a project folder: a directory that
/// already exists is refused, by the name it is displayed with.
pub open spec fn creation_result(
    r: Result<Vec<SetupStep>, BelayError>,
    directory: Seq<char>,
    exists: bool,
    setup: Seq<StepView>,
) -> bool {
    match r {
        Ok(steps) => !exists && steps_view(steps) == setup,
        Err(e) => exists && e.message@ == directory + " already exists"@,
    }
}

/// The steps that create a Python project in a directory, displayed as
/// `directory`, that does not exist yet.
pub fn create_python_project(directory: &str, exists: bool, spec: &PythonProjectSpec) -> (r: Result<
    Vec<SetupStep>,
    BelayError,
>)
    ensures
        creation_result(r, directory@, exists, python_setup(*spec)),
{
    if exists {
        return Err(already_exists_error(directory));
    }
    let mut steps: Vec<SetupStep> = Vec::new();
    steps.push(SetupStep::RunInParent { program: String::from_str("uv"), args: uv_init_args(spec) });
    steps.push(SetupStep::WriteLayout(python_overlay_layout(spec)));
    steps.push(SetupStep::RunInProject { program: String::from_str("uv"), args: uv_add_dev_args() });
    steps.push(SetupStep::AppendToolConfig);
    assert(steps_view(steps) =~= python_setup(*spec));
    Ok(steps)
}

/// The steps that create a Rust CLI in a directory, displayed as
/// `directory`, that does not exist yet.
pub fn create_rust_cli_project(directory: &str, exists: bool, spec: &RustCliProjectSpec) -> (r:
    Result<Vec<SetupStep>, BelayError>)
    ensures
        creation_result(r, directory@, exists, rust_cli_setup(*spec)),
{
    if exists {
        return Err(already_exists_error(directory));
    }
    let mut steps: Vec<SetupStep> = Vec::new();
    steps.push(SetupStep::WriteLayout(rust_cli_layout(spec)));
    assert(steps_view(steps) =~= rust_cli_setup(*spec));
    Ok(steps)
}

/// The steps that create a Cargo binary project in a directory, displayed
/// as `directory`, that does not exist yet.
pub fn create_rust_project(directory: &str, exists: bool, spec: &RustCliProjectSpec) -> (r: Result<
    Vec<SetupStep>,
    BelayError,
>)
    ensures
        creation_result(r, directory@, exists, rust_setup(*spec)),
{
    if exists {
        return Err(already_exists_error(directory));
    }
    let mut steps: Vec<SetupStep> = Vec::new();
    steps.push(
        SetupStep::RunInParent { program: String::from_str("cargo"), args: cargo_new_args(spec) },
    );
    steps.push(SetupStep::WriteLayout(rust_project_layout(spec)));
    assert(steps_view(steps) =~= rust_setup(*spec));
    Ok(steps)
}

/// The steps that create a Go CLI in a directory, displayed as `directory`,
/// that does not exist yet.
pub fn create_go_cli_project(directory: &str, exists: bool, spec: &GoCliProjectSpec) -> (r: Result<
    Vec<SetupStep>,
    BelayError,
>)
    ensures
        creation_result(r, directory@, exists, go_cli_setup(*spec)),
{
    if exists {
        return Err(already_exists_error(directory));
    }
    let mut steps: Vec<SetupStep> = Vec::new();
    steps.push(SetupStep::WriteLayout(go_cli_layout(spec)));
    assert(steps_view(steps) =~= go_cli_setup(*spec));
    Ok(steps)
}

/// Whether a step runs `git`.
pub open spec fn runs_git(step: StepView) -> bool {
    step matches StepView::Run { program, .. } && program == "git"@
}

/// belay owns repository initialization for every project type: no setup
/// step runs `git`, and both `uv init` and `cargo new` are told to make no
/// repository (`--vcs none`).
pub proof fn lemma_setup_leaves_git_to_belay(
    python: PythonProjectSpec,
    rust: RustCliProjectSpec,
    rust_cli: RustCliProjectSpec,
    go: GoCliProjectSpec,
)
    ensures
        forall|k: int|
            0 <= k < python_setup(python).len() ==> !runs_git(#[trigger] python_setup(python)[k]),
        forall|k: int| 0 <= k < rust_setup(rust).len() ==> !runs_git(#[trigger] rust_setup(rust)[k]),
        forall|k: int|
            0 <= k < rust_cli_setup(rust_cli).len() ==> !runs_git(
                #[trigger] rust_cli_setup(rust_cli)[k],
            ),
        forall|k: int| 0 <= k < go_cli_setup(go).len() ==> !runs_git(#[trigger] go_cli_setup(go)[k]),
        python_setup(python)[0] matches StepView::Run { args, .. } && args[9] == "--vcs"@
            && args[10] == "none"@,
        rust_setup(rust)[0] matches StepView::Run { args, .. } && args[2] == "--vcs"@ && args[3]
            == "none"@,
{
    reveal_strlit("git");
    reveal_strlit("uv");
    reveal_strlit("cargo");
    assert("uv"@.len() != "git"@.len());
    assert("cargo"@.len() != "git"@.len());
}

/// A line for the user, on standard output or on standard error.
pub struct Report {
    pub to_stderr: bool,
    pub text: String,
}

/// Where a line goes and what it says.
pub open spec fn report_view(report: Report) -> (bool, Seq<char>) {
    (report.to_stderr, report.text@)
}

/// The lines of a list of reports, in order.
pub open spec fn reports_view(reports: Vec<Report>) -> Seq<(bool, Seq<char>)> {
    reports@.map_values(|report: Report| report_view(report))
}

/// Shell integration is installed after a project is created where it was
/// asked for and belay does not run inside its own shell function.
pub open spec fn shell_install_wanted_spec(from_wrapper: bool, auto_shell: bool) -> bool {
    auto_shell && !from_wrapper
}

/// Whether to install shell integration after creating a project.
pub fn shell_install_wanted(from_wrapper: bool, auto_shell: bool) -> (r: bool)
    ensures
        r == shell_install_wanted_spec(from_wrapper, auto_shell),
{
    auto_shell && !from_wrapper
}

/// How an attempt to install shell integration ended: the shell and the file
/// that holds it, or the error's message.
pub open spec fn install_outcome_view(outcome: Result<(Shell, String), BelayError>) -> Result<
    (Shell, Seq<char>),
    Seq<char>,
> {
    match outcome {
        Ok((shell, path)) => Ok((shell, path@)),
        Err(e) => Err(e.message@),
    }
}

/// The line about an attempt to install shell integration.
pub open spec fn install_report(theme: Theme, outcome: Result<(Shell, Seq<char>), Seq<char>>) -> (
    bool,
    Seq<char>,
) {
    match outcome {
        Ok((shell, path)) => (true, installed_message_text(theme, shell_name_text(shell), path)),
        Err(error) => (true, not_installed_message_text(theme, error)),
    }
}

/// The lines printed once a project folder exists. Inside belay's shell
/// function only the directory is printed, for the function to change into.
/// Otherwise: the directory on standard output, then on standard error the
/// outcome of installing shell integration, where one was attempted, and how
/// to change into the directory.
pub open spec fn finish_reports(
    directory: Seq<char>,
    from_wrapper: bool,
    install: Option<Result<(Shell, Seq<char>), Seq<char>>>,
    out_theme: Theme,
    err_theme: Theme,
) -> Seq<(bool, Seq<char>)> {
    if from_wrapper {
        seq![(false, directory)]
    } else {
        let created = seq![(false, created_message_text(out_theme, directory))];
        let installed = match install {
            Some(outcome) => seq![install_report(err_theme, outcome)],
            None => Seq::empty(),
        };
        created + installed + seq![(true, cannot_cd_message_text(err_theme, directory))]
    }
}

/// The lines printed once a project folder, displayed as `directory`, exists
/// and its repository is initialized. `install` is how installing shell
/// integration ended, where `shell_install_wanted` asked for it; it is not
/// reported otherwise.
pub fn finish_project_creation(
    directory: &str,
    from_wrapper: bool,
    auto_shell: bool,
    install: Option<Result<(Shell, String), BelayError>>,
    out_theme: Theme,
    err_theme: Theme,
) -> (r: Vec<Report>)
    ensures
        reports_view(r) == finish_reports(
            directory@,
            from_wrapper,
            if shell_install_wanted_spec(from_wrapper, auto_shell) {
                match install {
                    Some(outcome) => Some(install_outcome_view(outcome)),
                    None => None,
                }
            } else {
                None
            },
            out_theme,
            err_theme,
        ),
{
    let mut reports: Vec<Report> = Vec::new();
    if from_wrapper {
        reports.push(Report { to_stderr: false, text: String::from_str(directory) });
        assert(reports_view(reports) =~= seq![(false, directory@)]);
        return reports;
    }
    reports.push(Report { to_stderr: false, text: created_message(out_theme, directory) });
    let ghost installed: Seq<(bool, Seq<char>)> = Seq::empty();
    if auto_shell {
        match install {
            Some(Ok((shell, path))) => {
                let text = installed_message(err_theme, shell_name(shell), path.as_str());
                reports.push(Report { to_stderr: true, text });
                proof {
                    installed = seq![(true, text@)];
                }
            },
            Some(Err(error)) => {
                let text = not_installed_message(err_theme, error.message.as_str());
                reports.push(Report { to_stderr: true, text });
                proof {
                    installed = seq![(true, text@)];
                }
            },
            None => {},
        }
    }
    reports.push(Report { to_stderr: true, text: cannot_cd_message(err_theme, directory) });
    assert(reports_view(reports) =~= seq![(false, created_message_text(out_theme, directory@))]
        + installed + seq![(true, cannot_cd_message_text(err_theme, directory@))]);
    reports
}

} // verus!
