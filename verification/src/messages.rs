//! The lines belay prints: help pages and the messages around creating a
//! project, each styled by the theme.
use vstd::prelude::*;

use crate::cli::DEFAULT_PYTHON;
use crate::theme::{Theme, accent_text, heading_text, message_text};

verus! {

/// The text of `belay --help`, after the banner.
pub open spec fn help_page(theme: Theme, version: Seq<char>) -> Seq<char> {
    message_text(theme, accent_text(theme, "belay"@) + " "@ + version + "\n\n"@ + heading_text(theme, "Usage"@) + ":\n  "@ + accent_text(theme, "belay"@) + " "@ + accent_text(theme, "py"@) + " <name> ["@ + accent_text(theme, "--python"@) + " <version>] ["@ + accent_text(theme, "--no-shell"@) + "]\n  "@ + accent_text(theme, "belay"@) + " "@ + accent_text(theme, "rs-cli"@) + " <name> ["@ + accent_text(theme, "--no-shell"@) + "]\n  "@ + accent_text(theme, "belay"@) + " "@ + accent_text(theme, "go-cli"@) + " <name> ["@ + accent_text(theme, "--no-shell"@) + "]\n  "@ + accent_text(theme, "belay"@) + " "@ + accent_text(theme, "shell"@) + " "@ + accent_text(theme, "init"@) + " [fish|bash|zsh]\n  "@ + accent_text(theme, "belay"@) + " "@ + accent_text(theme, "shell"@) + " "@ + accent_text(theme, "install"@) + " [fish|bash|zsh]\n\n"@ + heading_text(theme, "Commands"@) + ":\n  "@ + accent_text(theme, "py"@) + "       Create a typed uv Python project and print/cd to it through shell integration\n  "@ + accent_text(theme, "rs-cli"@) + "   Create a polished Rust CLI scaffold built with clap\n  "@ + accent_text(theme, "go-cli"@) + "   Create a polished Go CLI scaffold built with Cobra\n  "@ + accent_text(theme, "shell"@) + "    Print or install shell integration for automatic cd\n"@)
}

/// The text of `belay --help`, after the banner.
pub fn help_text(theme: Theme, version: &str) -> (r: String)
    ensures
        r@ == help_page(theme, version@),
{
    let mut body = theme.accent("belay");
    body.append(" ");
    body.append(version);
    body.append("\n\n");
    body.append(theme.heading("Usage").as_str());
    body.append(":\n  ");
    body.append(theme.accent("belay").as_str());
    body.append(" ");
    body.append(theme.accent("py").as_str());
    body.append(" <name> [");
    body.append(theme.accent("--python").as_str());
    body.append(" <version>] [");
    body.append(theme.accent("--no-shell").as_str());
    body.append("]\n  ");
    body.append(theme.accent("belay").as_str());
    body.append(" ");
    body.append(theme.accent("rs-cli").as_str());
    body.append(" <name> [");
    body.append(theme.accent("--no-shell").as_str());
    body.append("]\n  ");
    body.append(theme.accent("belay").as_str());
    body.append(" ");
    body.append(theme.accent("go-cli").as_str());
    body.append(" <name> [");
    body.append(theme.accent("--no-shell").as_str());
    body.append("]\n  ");
    body.append(theme.accent("belay").as_str());
    body.append(" ");
    body.append(theme.accent("shell").as_str());
    body.append(" ");
    body.append(theme.accent("init").as_str());
    body.append(" [fish|bash|zsh]\n  ");
    body.append(theme.accent("belay").as_str());
    body.append(" ");
    body.append(theme.accent("shell").as_str());
    body.append(" ");
    body.append(theme.accent("install").as_str());
    body.append(" [fish|bash|zsh]\n\n");
    body.append(theme.heading("Commands").as_str());
    body.append(":\n  ");
    body.append(theme.accent("py").as_str());
    body.append("       Create a typed uv Python project and print/cd to it through shell integration\n  ");
    body.append(theme.accent("rs-cli").as_str());
    body.append("   Create a polished Rust CLI scaffold built with clap\n  ");
    body.append(theme.accent("go-cli").as_str());
    body.append("   Create a polished Go CLI scaffold built with Cobra\n  ");
    body.append(theme.accent("shell").as_str());
    body.append("    Print or install shell integration for automatic cd\n");
    theme.message(body.as_str())
}

/// The text of `belay py --help`, after the banner.
pub open spec fn py_help_page(theme: Theme) -> Seq<char> {
    message_text(theme, heading_text(theme, "Usage"@) + ":\n  "@ + accent_text(theme, "belay"@) + " "@ + accent_text(theme, "py"@) + " <name> ["@ + accent_text(theme, "--python"@) + " <version>] ["@ + accent_text(theme, "--no-shell"@) + "]\n\n"@ + heading_text(theme, "Creates"@) + " a new directory in the current working directory with:\n  pyproject.toml, src/<module>, tests, README.md, .python-version\n  uv init --lib, uv add --dev ruff ty pytest, a py.typed marker, and Git on main\n\n"@ + heading_text(theme, "Options"@) + ":\n  "@ + accent_text(theme, "--python"@) + " <version>  Python lower bound and .python-version value (default: "@ + DEFAULT_PYTHON@ + ")\n  "@ + accent_text(theme, "--no-shell"@) + "          Skip automatic shell integration provisioning\n"@)
}

/// The text of `belay py --help`, after the banner.
pub fn py_help_text(theme: Theme) -> (r: String)
    ensures
        r@ == py_help_page(theme),
{
    let mut body = theme.heading("Usage");
    body.append(":\n  ");
    body.append(theme.accent("belay").as_str());
    body.append(" ");
    body.append(theme.accent("py").as_str());
    body.append(" <name> [");
    body.append(theme.accent("--python").as_str());
    body.append(" <version>] [");
    body.append(theme.accent("--no-shell").as_str());
    body.append("]\n\n");
    body.append(theme.heading("Creates").as_str());
    body.append(" a new directory in the current working directory with:\n  pyproject.toml, src/<module>, tests, README.md, .python-version\n  uv init --lib, uv add --dev ruff ty pytest, a py.typed marker, and Git on main\n\n");
    body.append(theme.heading("Options").as_str());
    body.append(":\n  ");
    body.append(theme.accent("--python").as_str());
    body.append(" <version>  Python lower bound and .python-version value (default: ");
    body.append(DEFAULT_PYTHON);
    body.append(")\n  ");
    body.append(theme.accent("--no-shell").as_str());
    body.append("          Skip automatic shell integration provisioning\n");
    theme.message(body.as_str())
}

/// The text of `belay rs-cli --help`, after the banner.
pub open spec fn rs_cli_help_page(theme: Theme) -> Seq<char> {
    message_text(theme, heading_text(theme, "Usage"@) + ":\n  "@ + accent_text(theme, "belay"@) + " "@ + accent_text(theme, "rs-cli"@) + " <name> ["@ + accent_text(theme, "--no-shell"@) + "]\n\n"@ + heading_text(theme, "Creates"@) + " a new directory in the current working directory with:\n  Cargo.toml, src/main.rs, src/lib.rs, tests/smoke.rs, README.md\n  clap with styled help output, color-eyre, and Git on main\n\n"@ + heading_text(theme, "Options"@) + ":\n  "@ + accent_text(theme, "--no-shell"@) + "  Skip automatic shell integration provisioning\n"@)
}

/// The text of `belay rs-cli --help`, after the banner.
pub fn rs_cli_help_text(theme: Theme) -> (r: String)
    ensures
        r@ == rs_cli_help_page(theme),
{
    let mut body = theme.heading("Usage");
    body.append(":\n  ");
    body.append(theme.accent("belay").as_str());
    body.append(" ");
    body.append(theme.accent("rs-cli").as_str());
    body.append(" <name> [");
    body.append(theme.accent("--no-shell").as_str());
    body.append("]\n\n");
    body.append(theme.heading("Creates").as_str());
    body.append(" a new directory in the current working directory with:\n  Cargo.toml, src/main.rs, src/lib.rs, tests/smoke.rs, README.md\n  clap with styled help output, color-eyre, and Git on main\n\n");
    body.append(theme.heading("Options").as_str());
    body.append(":\n  ");
    body.append(theme.accent("--no-shell").as_str());
    body.append("  Skip automatic shell integration provisioning\n");
    theme.message(body.as_str())
}

/// The text of `belay go-cli --help`, after the banner.
pub open spec fn go_cli_help_page(theme: Theme) -> Seq<char> {
    message_text(theme, heading_text(theme, "Usage"@) + ":\n  "@ + accent_text(theme, "belay"@) + " "@ + accent_text(theme, "go-cli"@) + " <name> ["@ + accent_text(theme, "--no-shell"@) + "]\n\n"@ + heading_text(theme, "Creates"@) + " a new directory in the current working directory with:\n  go.mod, main.go, cmd/root.go, cmd/root_test.go, README.md\n  Cobra with a clean command layout and Git on main\n\n"@ + heading_text(theme, "Options"@) + ":\n  "@ + accent_text(theme, "--no-shell"@) + "  Skip automatic shell integration provisioning\n"@)
}

/// The text of `belay go-cli --help`, after the banner.
pub fn go_cli_help_text(theme: Theme) -> (r: String)
    ensures
        r@ == go_cli_help_page(theme),
{
    let mut body = theme.heading("Usage");
    body.append(":\n  ");
    body.append(theme.accent("belay").as_str());
    body.append(" ");
    body.append(theme.accent("go-cli").as_str());
    body.append(" <name> [");
    body.append(theme.accent("--no-shell").as_str());
    body.append("]\n\n");
    body.append(theme.heading("Creates").as_str());
    body.append(" a new directory in the current working directory with:\n  go.mod, main.go, cmd/root.go, cmd/root_test.go, README.md\n  Cobra with a clean command layout and Git on main\n\n");
    body.append(theme.heading("Options").as_str());
    body.append(":\n  ");
    body.append(theme.accent("--no-shell").as_str());
    body.append("  Skip automatic shell integration provisioning\n");
    theme.message(body.as_str())
}

/// The text of `belay shell --help`, after the banner.
pub open spec fn shell_help_page(theme: Theme) -> Seq<char> {
    message_text(theme, heading_text(theme, "Usage"@) + ":\n  "@ + accent_text(theme, "belay"@) + " "@ + accent_text(theme, "shell"@) + " "@ + accent_text(theme, "init"@) + " [fish|bash|zsh]\n  "@ + accent_text(theme, "belay"@) + " "@ + accent_text(theme, "shell"@) + " "@ + accent_text(theme, "install"@) + " [fish|bash|zsh]\n\n"@ + accent_text(theme, "`init`"@) + " prints the function for manual shell setup.\n"@ + accent_text(theme, "`install`"@) + " writes a managed integration block/file so `"@ + accent_text(theme, "belay"@) + " "@ + accent_text(theme, "py"@) + " <name>`, `"@ + accent_text(theme, "belay"@) + " "@ + accent_text(theme, "rs-cli"@) + " <name>`, and `"@ + accent_text(theme, "belay"@) + " "@ + accent_text(theme, "go-cli"@) + " <name>` can cd into the new directory.\n"@)
}

/// The text of `belay shell --help`, after the banner.
pub fn shell_help_text(theme: Theme) -> (r: String)
    ensures
        r@ == shell_help_page(theme),
{
    let mut body = theme.heading("Usage");
    body.append(":\n  ");
    body.append(theme.accent("belay").as_str());
    body.append(" ");
    body.append(theme.accent("shell").as_str());
    body.append(" ");
    body.append(theme.accent("init").as_str());
    body.append(" [fish|bash|zsh]\n  ");
    body.append(theme.accent("belay").as_str());
    body.append(" ");
    body.append(theme.accent("shell").as_str());
    body.append(" ");
    body.append(theme.accent("install").as_str());
    body.append(" [fish|bash|zsh]\n\n");
    body.append(theme.accent("`init`").as_str());
    body.append(" prints the function for manual shell setup.\n");
    body.append(theme.accent("`install`").as_str());
    body.append(" writes a managed integration block/file so `");
    body.append(theme.accent("belay").as_str());
    body.append(" ");
    body.append(theme.accent("py").as_str());
    body.append(" <name>`, `");
    body.append(theme.accent("belay").as_str());
    body.append(" ");
    body.append(theme.accent("rs-cli").as_str());
    body.append(" <name>`, and `");
    body.append(theme.accent("belay").as_str());
    body.append(" ");
    body.append(theme.accent("go-cli").as_str());
    body.append(" <name>` can cd into the new directory.\n");
    theme.message(body.as_str())
}

/// The line that `belay --version` prints.
pub open spec fn version_message_text(theme: Theme, version: Seq<char>) -> Seq<char> {
    message_text(theme, accent_text(theme, "belay"@) + " "@ + version)
}

/// The line that `belay --version` prints.
pub fn version_message(theme: Theme, version: &str) -> (r: String)
    ensures
        r@ == version_message_text(theme, version@),
{
    let mut body = theme.accent("belay");
    body.append(" ");
    body.append(version);
    theme.message(body.as_str())
}

/// The line that reports an error that ended belay.
pub open spec fn error_message_text(theme: Theme, error: Seq<char>) -> Seq<char> {
    message_text(theme, accent_text(theme, "belay"@) + ": "@ + error)
}

/// The line that reports an error that ended belay.
pub fn error_message(theme: Theme, error: &str) -> (r: String)
    ensures
        r@ == error_message_text(theme, error@),
{
    let mut body = theme.accent("belay");
    body.append(": ");
    body.append(error);
    theme.message(body.as_str())
}

/// The line that reports a new project directory.
pub open spec fn created_message_text(theme: Theme, directory: Seq<char>) -> Seq<char> {
    message_text(theme, accent_text(theme, "created"@) + " "@ + directory)
}

/// The line that reports a new project directory.
pub fn created_message(theme: Theme, directory: &str) -> (r: String)
    ensures
        r@ == created_message_text(theme, directory@),
{
    let mut body = theme.accent("created");
    body.append(" ");
    body.append(directory);
    theme.message(body.as_str())
}

/// The line that reports shell integration installed while creating a project.
pub open spec fn installed_message_text(theme: Theme, shell: Seq<char>, path: Seq<char>) -> Seq<char> {
    message_text(theme, accent_text(theme, "installed"@) + " "@ + accent_text(theme, shell) + " integration at "@ + path + "; restart or source your shell config for automatic cd"@)
}

/// The line that reports shell integration installed while creating a project.
pub fn installed_message(theme: Theme, shell: &str, path: &str) -> (r: String)
    ensures
        r@ == installed_message_text(theme, shell@, path@),
{
    let mut body = theme.accent("installed");
    body.append(" ");
    body.append(theme.accent(shell).as_str());
    body.append(" integration at ");
    body.append(path);
    body.append("; restart or source your shell config for automatic cd");
    theme.message(body.as_str())
}

/// The lines that report shell integration that could not be installed.
pub open spec fn not_installed_message_text(theme: Theme, error: Seq<char>) -> Seq<char> {
    message_text(theme, accent_text(theme, "shell integration not installed automatically"@) + ": "@ + error + "\nRun `belay shell install` after setup."@)
}

/// The lines that report shell integration that could not be installed.
pub fn not_installed_message(theme: Theme, error: &str) -> (r: String)
    ensures
        r@ == not_installed_message_text(theme, error@),
{
    let mut body = theme.accent("shell integration not installed automatically");
    body.append(": ");
    body.append(error);
    body.append("\nRun `belay shell install` after setup.");
    theme.message(body.as_str())
}

/// The line that tells the user to change into the new directory.
pub open spec fn cannot_cd_message_text(theme: Theme, directory: Seq<char>) -> Seq<char> {
    message_text(theme, accent_text(theme, "current process cannot cd the parent shell"@) + "; run `cd "@ + directory + "` now"@)
}

/// The line that tells the user to change into the new directory.
pub fn cannot_cd_message(theme: Theme, directory: &str) -> (r: String)
    ensures
        r@ == cannot_cd_message_text(theme, directory@),
{
    let mut body = theme.accent("current process cannot cd the parent shell");
    body.append("; run `cd ");
    body.append(directory);
    body.append("` now");
    theme.message(body.as_str())
}

/// The line that `belay shell install` prints.
pub open spec fn shell_installed_message_text(theme: Theme, shell: Seq<char>, path: Seq<char>) -> Seq<char> {
    message_text(theme, accent_text(theme, "installed"@) + " "@ + accent_text(theme, shell) + " integration at "@ + path)
}

/// The line that `belay shell install` prints.
pub fn shell_installed_message(theme: Theme, shell: &str, path: &str) -> (r: String)
    ensures
        r@ == shell_installed_message_text(theme, shell@, path@),
{
    let mut body = theme.accent("installed");
    body.append(" ");
    body.append(theme.accent(shell).as_str());
    body.append(" integration at ");
    body.append(path);
    theme.message(body.as_str())
}
} // verus!
