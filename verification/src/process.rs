//! The commands that set a project up: their arguments, how a command line
//! is shown, and the message for a command that failed.
use vstd::prelude::*;

use crate::error::BelayError;
use crate::names::{PythonProjectSpec, RustCliProjectSpec};
use crate::text::{alnum, chars_of, is_ascii_alnum, push_char, trim, trimmed};

verus! {

broadcast use vstd::string::group_string_axioms;

/// The branch that every new repository starts on.
pub const DEFAULT_BRANCH: &'static str = "main";

pub const MSG_GIT_ALREADY_INITIALIZED: &'static str = "project scaffold initialized Git itself; generators must leave repository initialization to belay so the initial branch is `main`";

/// The strings of a vector of strings.
pub open spec fn strings_view(v: Vec<String>) -> Seq<Seq<char>> {
    v@.map_values(|s: String| s@)
}

/// The arguments of `uv init` before the project directory.
pub open spec fn uv_init_args_text(spec: PythonProjectSpec) -> Seq<Seq<char>> {
    seq![
        "init"@,
        "--lib"@,
        "--python"@,
        spec.python_version@,
        "--name"@,
        spec.project_name@,
        "--no-description"@,
        "--author-from"@,
        "none"@,
        "--vcs"@,
        "none"@,
        "--no-workspace"@,
    ]
}

/// The arguments of `uv add` for the development tools.
pub open spec fn uv_add_dev_args_text() -> Seq<Seq<char>> {
    seq!["add"@, "--dev"@, "ruff"@, "ty"@, "pytest"@]
}

/// The arguments of `cargo new` before the project directory: a binary
/// package without a repository.
pub open spec fn cargo_new_args_text(spec: RustCliProjectSpec) -> Seq<Seq<char>> {
    seq!["new"@, "--bin"@, "--vcs"@, "none"@, "--name"@, spec.package_name@]
}

/// The arguments of `git init` on the default branch.
pub open spec fn git_init_args_text() -> Seq<Seq<char>> {
    seq!["init"@, "-b"@, DEFAULT_BRANCH@]
}

/// The arguments of `uv init` before the project directory, which the caller
/// appends as the last argument.
pub fn uv_init_args(spec: &PythonProjectSpec) -> (r: Vec<String>)
    ensures
        strings_view(r) == uv_init_args_text(*spec),
{
    let mut r: Vec<String> = Vec::new();
    r.push(String::from_str("init"));
    r.push(String::from_str("--lib"));
    r.push(String::from_str("--python"));
    r.push(spec.python_version.clone());
    r.push(String::from_str("--name"));
    r.push(spec.project_name.clone());
    r.push(String::from_str("--no-description"));
    r.push(String::from_str("--author-from"));
    r.push(String::from_str("none"));
    r.push(String::from_str("--vcs"));
    r.push(String::from_str("none"));
    r.push(String::from_str("--no-workspace"));
    assert(strings_view(r) =~= uv_init_args_text(*spec));
    r
}

/// The arguments of `uv add` for the development tools.
pub fn uv_add_dev_args() -> (r: Vec<String>)
    ensures
        strings_view(r) == uv_add_dev_args_text(),
{
    let mut r: Vec<String> = Vec::new();
    r.push(String::from_str("add"));
    r.push(String::from_str("--dev"));
    r.push(String::from_str("ruff"));
    r.push(String::from_str("ty"));
    r.push(String::from_str("pytest"));
    assert(strings_view(r) =~= uv_add_dev_args_text());
    r
}

/// The arguments of `cargo new` before the project directory, which the
/// caller appends as the last argument.
pub fn cargo_new_args(spec: &RustCliProjectSpec) -> (r: Vec<String>)
    ensures
        strings_view(r) == cargo_new_args_text(*spec),
{
    let mut r: Vec<String> = Vec::new();
    r.push(String::from_str("new"));
    r.push(String::from_str("--bin"));
    r.push(String::from_str("--vcs"));
    r.push(String::from_str("none"));
    r.push(String::from_str("--name"));
    r.push(spec.package_name.clone());
    assert(strings_view(r) =~= cargo_new_args_text(*spec));
    r
}

/// The arguments of `git init` on the default branch.
pub fn git_init_args() -> (r: Vec<String>)
    ensures
        strings_view(r) == git_init_args_text(),
{
    let mut r: Vec<String> = Vec::new();
    r.push(String::from_str("init"));
    r.push(String::from_str("-b"));
    r.push(String::from_str(DEFAULT_BRANCH));
    assert(strings_view(r) =~= git_init_args_text());
    r
}

/// belay initializes the repository itself: a scaffold that already has a
/// `.git` directory is refused.
pub fn check_git_not_initialized(git_dir_exists: bool) -> (r: Result<(), BelayError>)
    ensures
        match r {
            Ok(()) => !git_dir_exists,
            Err(e) => git_dir_exists && e.message@ == MSG_GIT_ALREADY_INITIALIZED@,
        },
{
    if git_dir_exists {
        Err(BelayError::usage(MSG_GIT_ALREADY_INITIALIZED))
    } else {
        Ok(())
    }
}

/// The error for a project directory that already exists.
pub fn already_exists_error(display: &str) -> (r: BelayError)
    ensures
        r.message@ == display@ + " already exists"@,
{
    let mut m = String::from_str(display);
    m.append(" already exists");
    BelayError::from_message(m)
}

/// A character that a shell reads as itself outside quotes.
pub open spec fn is_plain_word_char(c: char) -> bool {
    is_ascii_alnum(c) || c == '-' || c == '_' || c == '.' || c == '/' || c == ':'
}

/// How one character appears inside single quotes: `'` as `'\''`.
pub open spec fn quoted_piece(c: char) -> Seq<char> {
    if c == '\'' {
        seq!['\'', '\\', '\'', '\'']
    } else {
        seq![c]
    }
}

/// The characters of a string as they appear inside single quotes.
pub open spec fn quoted_body(s: Seq<char>) -> Seq<char>
    decreases s.len(),
{
    if s.len() == 0 {
        Seq::<char>::empty()
    } else {
        quoted_body(s.drop_last()) + quoted_piece(s.last())
    }
}

/// A word as shown in a command line: as it is where every character is
/// plain, else in single quotes.
pub open spec fn shell_word_text(s: Seq<char>) -> Seq<char> {
    if forall|i: int| 0 <= i < s.len() ==> is_plain_word_char(#[trigger] s[i]) {
        s
    } else {
        seq!['\''] + quoted_body(s) + seq!['\'']
    }
}

fn plain_word_char(c: char) -> (r: bool)
    ensures
        r == is_plain_word_char(c),
{
    alnum(c) || c == '-' || c == '_' || c == '.' || c == '/' || c == ':'
}

/// Quotes a word for display in a command line.
pub fn shell_word(value: &str) -> (r: String)
    ensures
        r@ == shell_word_text(value@),
{
    let cs = chars_of(value);
    let mut plain = true;
    let mut i: usize = 0;
    while i < cs.len()
        invariant
            i <= cs.len(),
            cs@ == value@,
            plain == forall|j: int| 0 <= j < i ==> is_plain_word_char(#[trigger] cs@[j]),
        decreases cs.len() - i,
    {
        if !plain_word_char(cs[i]) {
            plain = false;
        }
        i = i + 1;
    }
    if plain {
        return String::from_str(value);
    }
    let mut r = String::new();
    push_char(&mut r, '\'');
    let mut k: usize = 0;
    while k < cs.len()
        invariant
            k <= cs.len(),
            cs@ == value@,
            r@ == seq!['\''] + quoted_body(cs@.take(k as int)),
        decreases cs.len() - k,
    {
        let c = cs[k];
        if c == '\'' {
            push_char(&mut r, '\'');
            push_char(&mut r, '\\');
            push_char(&mut r, '\'');
            push_char(&mut r, '\'');
        } else {
            push_char(&mut r, c);
        }
        assert(cs@.take(k + 1).drop_last() =~= cs@.take(k as int));
        k = k + 1;
        assert(r@ =~= seq!['\''] + quoted_body(cs@.take(k as int)));
    }
    push_char(&mut r, '\'');
    assert(cs@.take(cs@.len() as int) =~= cs@);
    r
}

/// How a POSIX shell reads one word made of plain characters, single-quoted
/// runs and backslash escapes; `quoted` tells whether a single quote is open.
pub open spec fn shell_read(w: Seq<char>, quoted: bool) -> Seq<char>
    decreases w.len(),
{
    if w.len() == 0 {
        Seq::<char>::empty()
    } else if quoted {
        if w[0] == '\'' {
            shell_read(w.drop_first(), false)
        } else {
            seq![w[0]] + shell_read(w.drop_first(), true)
        }
    } else if w[0] == '\'' {
        shell_read(w.drop_first(), true)
    } else if w[0] == '\\' && w.len() >= 2 {
        seq![w[1]] + shell_read(w.skip(2), false)
    } else {
        seq![w[0]] + shell_read(w.drop_first(), false)
    }
}

proof fn lemma_read_plain(s: Seq<char>)
    requires
        forall|i: int| 0 <= i < s.len() ==> is_plain_word_char(#[trigger] s[i]),
    ensures
        shell_read(s, false) == s,
    decreases s.len(),
{
    if s.len() > 0 {
        assert(is_plain_word_char(s[0]));
        assert forall|i: int| 0 <= i < s.drop_first().len() implies is_plain_word_char(
            #[trigger] s.drop_first()[i],
        ) by {
            assert(s.drop_first()[i] == s[i + 1]);
        }
        lemma_read_plain(s.drop_first());
        assert(s =~= seq![s[0]] + s.drop_first());
    }
}

proof fn lemma_read_quoted_body(s: Seq<char>, tail: Seq<char>)
    ensures
        shell_read(quoted_body(s) + tail, true) == s + shell_read(tail, true),
    decreases s.len(),
{
    if s.len() == 0 {
        assert(quoted_body(s) + tail =~= tail);
        assert(s + shell_read(tail, true) =~= shell_read(tail, true));
    } else {
        let c = s.last();
        let front = s.drop_last();
        lemma_read_quoted_body(front, quoted_piece(c) + tail);
        assert(quoted_body(s) + tail =~= quoted_body(front) + (quoted_piece(c) + tail));
        let w = quoted_piece(c) + tail;
        if c == '\'' {
            let w1 = w.drop_first();
            assert(w1 =~= seq!['\\', '\'', '\''] + tail);
            assert(shell_read(w, true) == shell_read(w1, false));
            let w2 = w1.skip(2);
            assert(w2 =~= seq!['\''] + tail);
            assert(shell_read(w1, false) == seq![w1[1]] + shell_read(w2, false));
            assert(w2.drop_first() =~= tail);
            assert(shell_read(w2, false) == shell_read(tail, true));
        } else {
            assert(w.drop_first() =~= tail);
            assert(shell_read(w, true) == seq![w[0]] + shell_read(w.drop_first(), true));
        }
        assert(shell_read(w, true) =~= seq![c] + shell_read(tail, true));
        assert(s =~= front + seq![c]);
    }
}

/// A shown word reads back as the word: the shell turns the text of every
/// non-empty word back into that word, and leaves plain words as they are.
pub proof fn lemma_shell_word_reads_back(s: Seq<char>)
    requires
        s.len() > 0,
    ensures
        shell_read(shell_word_text(s), false) == s,
{
    if forall|i: int| 0 <= i < s.len() ==> is_plain_word_char(#[trigger] s[i]) {
        lemma_read_plain(s);
    } else {
        let w = seq!['\''] + quoted_body(s) + seq!['\''];
        assert(w.drop_first() =~= quoted_body(s) + seq!['\'']);
        lemma_read_quoted_body(s, seq!['\'']);
        let q = seq!['\''];
        assert(q.drop_first() =~= Seq::<char>::empty());
        assert(shell_read(q, true) == shell_read(q.drop_first(), false));
        assert(shell_read(q, true) =~= Seq::<char>::empty());
        assert(shell_read(w, false) == shell_read(w.drop_first(), true));
        assert(s + Seq::<char>::empty() =~= s);
    }
}

/// A command line as shown: the program, then each argument as a shell word,
/// separated by spaces.
pub open spec fn command_line_text(program: Seq<char>, args: Seq<Seq<char>>) -> Seq<char>
    decreases args.len(),
{
    if args.len() == 0 {
        program
    } else {
        command_line_text(program, args.drop_last()) + seq![' '] + shell_word_text(args.last())
    }
}

/// Shows a command line.
pub fn format_command(program: &str, args: &Vec<String>) -> (r: String)
    ensures
        r@ == command_line_text(program@, strings_view(*args)),
{
    let mut r = String::from_str(program);
    let mut i: usize = 0;
    while i < args.len()
        invariant
            i <= args.len(),
            r@ == command_line_text(program@, strings_view(*args).take(i as int)),
        decreases args.len() - i,
    {
        push_char(&mut r, ' ');
        let w = shell_word(args[i].as_str());
        r.append(w.as_str());
        assert(strings_view(*args).take(i + 1).drop_last() =~= strings_view(*args).take(i as int));
        i = i + 1;
    }
    assert(strings_view(*args).take(args.len() as int) =~= strings_view(*args));
    r
}

/// The message for a command that failed: its line and status, then its
/// output and error output, each trimmed and only where not empty.
pub open spec fn failure_message_text(
    display: Seq<char>,
    status: Seq<char>,
    stdout: Seq<char>,
    stderr: Seq<char>,
) -> Seq<char> {
    seq!['`'] + display + "` failed with "@ + status + (if trim(stdout).len() == 0 {
        Seq::<char>::empty()
    } else {
        "\nstdout:\n"@ + trim(stdout)
    }) + (if trim(stderr).len() == 0 {
        Seq::<char>::empty()
    } else {
        "\nstderr:\n"@ + trim(stderr)
    })
}

/// The message for a command that exited unsuccessfully.
pub fn command_failure_message(display: &str, status: &str, stdout: &str, stderr: &str) -> (r:
    String)
    ensures
        r@ == failure_message_text(display@, status@, stdout@, stderr@),
{
    let mut message = String::new();
    push_char(&mut message, '`');
    message.append(display);
    message.append("` failed with ");
    message.append(status);
    let out = trimmed(stdout);
    let err = trimmed(stderr);
    let ghost head = message@;
    let out_chars = chars_of(out.as_str());
    if out_chars.len() != 0 {
        message.append("\nstdout:\n");
        message.append(out.as_str());
    }
    let ghost mid = message@;
    let err_chars = chars_of(err.as_str());
    if err_chars.len() != 0 {
        message.append("\nstderr:\n");
        message.append(err.as_str());
    }
    assert(message@ =~= failure_message_text(display@, status@, stdout@, stderr@));
    message
}

} // verus!
