# belay

`belay` creates opinionated project folders and repositories: typed uv Python
packages (`belay py`), Cargo binary projects (`belay rs`), Rust CLIs built with
clap (`belay rs-cli`) and Go CLIs built with Cobra (`belay go-cli`), and installs a shell function
(`belay shell install`) that lets the parent shell `cd` into a new project.

The library under `src/` is verified with Verus. It holds every decision and
every text of the program:

- `names`: which project names are accepted, and the Python module, command
  and crate names derived from them;
- `cli`: the command line of each command;
- `project`: the steps that set a project folder up, and the lines printed
  once it exists;
- `templates`: the files that each kind of project starts with;
- `process`: the `uv` and `git` arguments, how a command line is shown, and
  the message for a command that failed;
- `shell`: the shell functions, the managed block in a startup file and how
  it is replaced, and the choice of shell and of its integration file;
- `theme`, `background`: colours, the banner, and the reading of the
  terminal's answer to a background colour query;
- `messages`: help pages and status lines;
- `text`, `error`: string helpers and the error type.

`app/` is the program around it: it reads the environment, runs `uv`, `cargo`, `git`
and `stty`, writes files and prints what the library returns.
