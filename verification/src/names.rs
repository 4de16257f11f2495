//! Project names: what a name may hold, and the module, command and crate
//! names derived from it for each kind of project.
use vstd::prelude::*;

use crate::error::BelayError;
use crate::text::{
    alnum, alpha, ascii_lower, chars_of, contains_char, digit, is_ascii_alnum, is_ascii_alpha,
    is_ascii_digit, push_char, string_of, string_of_range, to_ascii_lower,
};

verus! {

broadcast use vstd::string::group_string_axioms;

pub const MSG_EMPTY_NAME: &'static str = "project name cannot be empty";

pub const MSG_NAME_IS_PATH: &'static str = "project name must be a single directory name, not a path";

pub const MSG_NAME_CHARS: &'static str = "project name may only contain ASCII letters, numbers, underscores, dashes, and dots";

pub const MSG_MODULE_START: &'static str = "project name must normalize to a Python module starting with a letter or underscore";

pub const MSG_MODULE_CHARS: &'static str = "project name must normalize to a valid Python module name";

pub const MSG_SLUG_START: &'static str = "CLI project names must normalize to a name starting with a letter";

pub const MSG_SLUG_CHARS: &'static str = "CLI project names must normalize to lowercase letters, numbers, and dashes";

pub const MSG_PYTHON_VERSION: &'static str = "python version must look like `3.13`";

/// A character that a project name may hold.
pub open spec fn is_project_name_char(c: char) -> bool {
    is_ascii_alnum(c) || c == '_' || c == '-' || c == '.'
}

/// The reason a project name is refused, if it is.
pub open spec fn project_name_problem(name: Seq<char>) -> Option<Seq<char>> {
    if name.len() == 0 {
        Some(MSG_EMPTY_NAME@)
    } else if name == seq!['.'] || name == seq!['.', '.'] || name.contains('/') || name.contains(
        '\\',
    ) {
        Some(MSG_NAME_IS_PATH@)
    } else if exists|i: int| 0 <= i < name.len() && !is_project_name_char(#[trigger] name[i]) {
        Some(MSG_NAME_CHARS@)
    } else {
        None
    }
}

/// A project name must be one directory name made of ASCII letters, digits,
/// `_`, `-` and `.`.
pub fn validate_project_name(name: &str) -> (r: Result<(), BelayError>)
    ensures
        match r {
            Ok(()) => project_name_problem(name@) is None,
            Err(e) => project_name_problem(name@) == Some(e.message@),
        },
{
    let cs = chars_of(name);
    if cs.len() == 0 {
        return Err(BelayError::usage(MSG_EMPTY_NAME));
    }
    let is_dot = cs.len() == 1 && cs[0] == '.';
    let is_dot_dot = cs.len() == 2 && cs[0] == '.' && cs[1] == '.';
    assert(is_dot == (cs@ =~= seq!['.']));
    assert(is_dot_dot == (cs@ =~= seq!['.', '.']));
    if is_dot || is_dot_dot || contains_char(&cs, '/') || contains_char(&cs, '\\') {
        return Err(BelayError::usage(MSG_NAME_IS_PATH));
    }
    let mut i: usize = 0;
    while i < cs.len()
        invariant
            i <= cs.len(),
            cs@ == name@,
            name@.len() > 0,
            !(name@ == seq!['.'] || name@ == seq!['.', '.'] || name@.contains('/')
                || name@.contains('\\')),
            forall|j: int| 0 <= j < i ==> is_project_name_char(#[trigger] cs@[j]),
        decreases cs.len() - i,
    {
        let c = cs[i];
        if !(alnum(c) || c == '_' || c == '-' || c == '.') {
            assert(!is_project_name_char(name@[i as int]));
            return Err(BelayError::usage(MSG_NAME_CHARS));
        }
        i = i + 1;
    }
    Ok(())
}

/// How a character of a project name appears in the Python module name.
pub open spec fn module_char(c: char) -> char {
    let l = ascii_lower(c);
    if l == '-' || l == '.' {
        '_'
    } else {
        l
    }
}

/// The Python module name of a project: lower case, with `-` and `.` as `_`.
pub open spec fn module_name_of(name: Seq<char>) -> Seq<char> {
    name.map_values(|c: char| module_char(c))
}

/// The reason a name cannot become a Python module name, if it cannot.
pub open spec fn module_name_problem(name: Seq<char>) -> Option<Seq<char>> {
    let m = module_name_of(name);
    if m.len() == 0 {
        Some(MSG_EMPTY_NAME@)
    } else if !(is_ascii_alpha(m[0]) || m[0] == '_') {
        Some(MSG_MODULE_START@)
    } else if exists|i: int| 1 <= i < m.len() && !(is_ascii_alnum(#[trigger] m[i]) || m[i] == '_') {
        Some(MSG_MODULE_CHARS@)
    } else {
        None
    }
}

/// The Python module name for a project name.
pub fn module_name_for(project_name: &str) -> (r: Result<String, BelayError>)
    ensures
        match r {
            Ok(m) => module_name_problem(project_name@) is None && m@ == module_name_of(
                project_name@,
            ),
            Err(e) => module_name_problem(project_name@) == Some(e.message@),
        },
{
    let cs = chars_of(project_name);
    let ghost m = module_name_of(project_name@);
    let mut out: Vec<char> = Vec::new();
    let mut i: usize = 0;
    while i < cs.len()
        invariant
            i <= cs.len(),
            cs@ == project_name@,
            m == module_name_of(project_name@),
            out@ == m.take(i as int),
        decreases cs.len() - i,
    {
        let l = to_ascii_lower(cs[i]);
        let c = if l == '-' || l == '.' {
            '_'
        } else {
            l
        };
        out.push(c);
        i = i + 1;
        assert(out@ =~= m.take(i as int));
    }
    assert(out@ =~= m);
    if out.len() == 0 {
        return Err(BelayError::usage(MSG_EMPTY_NAME));
    }
    if !(alpha(out[0]) || out[0] == '_') {
        return Err(BelayError::usage(MSG_MODULE_START));
    }
    let mut k: usize = 1;
    while k < out.len()
        invariant
            1 <= k <= out.len(),
            out@ == m,
            m == module_name_of(project_name@),
            is_ascii_alpha(m[0]) || m[0] == '_',
            forall|j: int| 1 <= j < k ==> (is_ascii_alnum(#[trigger] m[j]) || m[j] == '_'),
        decreases out.len() - k,
    {
        if !(alnum(out[k]) || out[k] == '_') {
            assert(!(is_ascii_alnum(m[k as int]) || m[k as int] == '_'));
            return Err(BelayError::usage(MSG_MODULE_CHARS));
        }
        k = k + 1;
    }
    Ok(string_of(&out))
}

/// How a character of a project name appears in the command name of a CLI.
pub open spec fn slug_char(c: char) -> char {
    let l = ascii_lower(c);
    if l == '_' || l == '.' {
        '-'
    } else {
        l
    }
}

/// The command name of a CLI project: lower case, with `_` and `.` as `-`.
pub open spec fn cli_slug_of(name: Seq<char>) -> Seq<char> {
    name.map_values(|c: char| slug_char(c))
}

/// The reason a name cannot become a CLI command name, if it cannot.
pub open spec fn cli_slug_problem(name: Seq<char>) -> Option<Seq<char>> {
    let m = cli_slug_of(name);
    if m.len() == 0 {
        Some(MSG_EMPTY_NAME@)
    } else if !is_ascii_alpha(m[0]) {
        Some(MSG_SLUG_START@)
    } else if exists|i: int| 1 <= i < m.len() && !(is_ascii_alnum(#[trigger] m[i]) || m[i] == '-') {
        Some(MSG_SLUG_CHARS@)
    } else {
        None
    }
}

/// The command name for a CLI project name.
pub fn cli_slug_for(project_name: &str) -> (r: Result<String, BelayError>)
    ensures
        match r {
            Ok(m) => cli_slug_problem(project_name@) is None && m@ == cli_slug_of(project_name@),
            Err(e) => cli_slug_problem(project_name@) == Some(e.message@),
        },
{
    let cs = chars_of(project_name);
    let ghost m = cli_slug_of(project_name@);
    let mut out: Vec<char> = Vec::new();
    let mut i: usize = 0;
    while i < cs.len()
        invariant
            i <= cs.len(),
            cs@ == project_name@,
            m == cli_slug_of(project_name@),
            out@ == m.take(i as int),
        decreases cs.len() - i,
    {
        let l = to_ascii_lower(cs[i]);
        let c = if l == '_' || l == '.' {
            '-'
        } else {
            l
        };
        out.push(c);
        i = i + 1;
        assert(out@ =~= m.take(i as int));
    }
    assert(out@ =~= m);
    if out.len() == 0 {
        return Err(BelayError::usage(MSG_EMPTY_NAME));
    }
    if !alpha(out[0]) {
        return Err(BelayError::usage(MSG_SLUG_START));
    }
    let mut k: usize = 1;
    while k < out.len()
        invariant
            1 <= k <= out.len(),
            out@ == m,
            m == cli_slug_of(project_name@),
            is_ascii_alpha(m[0]),
            forall|j: int| 1 <= j < k ==> (is_ascii_alnum(#[trigger] m[j]) || m[j] == '-'),
        decreases out.len() - k,
    {
        if !(alnum(out[k]) || out[k] == '-') {
            assert(!(is_ascii_alnum(m[k as int]) || m[k as int] == '-'));
            return Err(BelayError::usage(MSG_SLUG_CHARS));
        }
        k = k + 1;
    }
    Ok(string_of(&out))
}

/// The crate name of a Rust CLI: its command name with `-` as `_`.
pub open spec fn crate_name_of(slug: Seq<char>) -> Seq<char> {
    slug.map_values(|c: char| if c == '-' { '_' } else { c })
}

fn crate_name_for(slug: &String) -> (r: String)
    ensures
        r@ == crate_name_of(slug@),
{
    let cs = chars_of(slug.as_str());
    let ghost m = crate_name_of(slug@);
    let mut out = String::new();
    let mut i: usize = 0;
    while i < cs.len()
        invariant
            i <= cs.len(),
            cs@ == slug@,
            m == crate_name_of(slug@),
            out@ == m.take(i as int),
        decreases cs.len() - i,
    {
        let c = if cs[i] == '-' {
            '_'
        } else {
            cs[i]
        };
        push_char(&mut out, c);
        i = i + 1;
        assert(out@ =~= m.take(i as int));
    }
    assert(out@ =~= m);
    out
}

/// An ASCII capital.
pub open spec fn is_ascii_upper(c: char) -> bool {
    'A' <= c && c <= 'Z'
}

proof fn lemma_ascii_lower_is_not_upper(c: char)
    ensures
        !is_ascii_upper(ascii_lower(c)),
        is_ascii_alpha(ascii_lower(c)) == is_ascii_alpha(c),
        is_ascii_digit(ascii_lower(c)) == is_ascii_digit(c),
        !is_ascii_alpha(c) ==> ascii_lower(c) == c,
{
    if is_ascii_upper(c) {
        let u = (c as u32) + 32;
        assert(97 <= u <= 122);
        assert((u as char) as u32 == u);
    }
}

/// Every accepted Python module name is an identifier without ASCII
/// capitals: a letter or `_`, then letters, digits and `_`.
pub proof fn lemma_module_name_is_lowercase_identifier(name: Seq<char>)
    requires
        module_name_problem(name) is None,
    ensures
        module_name_of(name).len() > 0,
        is_ascii_alpha(module_name_of(name)[0]) || module_name_of(name)[0] == '_',
        forall|i: int|
            0 <= i < module_name_of(name).len() ==> (is_ascii_alnum(
                #[trigger] module_name_of(name)[i],
            ) || module_name_of(name)[i] == '_') && !is_ascii_upper(module_name_of(name)[i]),
{
    let m = module_name_of(name);
    assert forall|i: int| 0 <= i < m.len() implies (is_ascii_alnum(#[trigger] m[i]) || m[i] == '_')
        && !is_ascii_upper(m[i]) by {
        lemma_ascii_lower_is_not_upper(name[i]);
        if i > 0 {
            assert(is_ascii_alnum(m[i]) || m[i] == '_');
        }
    }
}

/// Every accepted CLI command name is made of lower-case letters, digits and
/// dashes, and starts with a lower-case letter, as its error message promises.
pub proof fn lemma_cli_slug_is_lowercase(name: Seq<char>)
    requires
        cli_slug_problem(name) is None,
    ensures
        cli_slug_of(name).len() > 0,
        'a' <= cli_slug_of(name)[0] && cli_slug_of(name)[0] <= 'z',
        forall|i: int|
            0 <= i < cli_slug_of(name).len() ==> ('a' <= #[trigger] cli_slug_of(name)[i]
                && cli_slug_of(name)[i] <= 'z') || is_ascii_digit(cli_slug_of(name)[i])
                || cli_slug_of(name)[i] == '-',
{
    let m = cli_slug_of(name);
    assert forall|i: int| 0 <= i < m.len() implies ('a' <= #[trigger] m[i] && m[i] <= 'z')
        || is_ascii_digit(m[i]) || m[i] == '-' by {
        lemma_ascii_lower_is_not_upper(name[i]);
        if i > 0 {
            assert(is_ascii_alnum(m[i]) || m[i] == '-');
        }
    }
    lemma_ascii_lower_is_not_upper(name[0]);
}

/// The crate name of every accepted CLI is made of lower-case letters,
/// digits and underscores: a Rust identifier.
pub proof fn lemma_crate_name_is_identifier(name: Seq<char>)
    requires
        cli_slug_problem(name) is None,
    ensures
        forall|i: int|
            0 <= i < crate_name_of(cli_slug_of(name)).len() ==> {
                let c = #[trigger] crate_name_of(cli_slug_of(name))[i];
                ('a' <= c && c <= 'z') || is_ascii_digit(c) || c == '_'
            },
        crate_name_of(cli_slug_of(name)).len() > 0,
        'a' <= crate_name_of(cli_slug_of(name))[0] && crate_name_of(cli_slug_of(name))[0] <= 'z',
{
    lemma_cli_slug_is_lowercase(name);
    let m = cli_slug_of(name);
    assert forall|i: int| 0 <= i < crate_name_of(m).len() implies {
        let c = #[trigger] crate_name_of(m)[i];
        ('a' <= c && c <= 'z') || is_ascii_digit(c) || c == '_'
    } by {
        assert(('a' <= m[i] && m[i] <= 'z') || is_ascii_digit(m[i]) || m[i] == '-');
    }
}

/// A Python version is accepted when it reads `3.` followed by one or more
/// ASCII digits.
pub open spec fn is_python_version(v: Seq<char>) -> bool {
    &&& v.len() >= 3
    &&& v[0] == '3'
    &&& v[1] == '.'
    &&& forall|i: int| 2 <= i < v.len() ==> is_ascii_digit(#[trigger] v[i])
}

/// The ruff `target-version` for an accepted Python version: `py3` and the minor number.
pub open spec fn ruff_target_of(v: Seq<char>) -> Seq<char> {
    seq!['p', 'y', '3'] + v.skip(2)
}

/// The ruff target for a Python version such as `3.13` (`py313`).
pub fn ruff_target_for(python_version: &str) -> (r: Result<String, BelayError>)
    ensures
        match r {
            Ok(t) => is_python_version(python_version@) && t@ == ruff_target_of(python_version@),
            Err(e) => !is_python_version(python_version@) && e.message@ == MSG_PYTHON_VERSION@,
        },
{
    let cs = chars_of(python_version);
    if cs.len() < 3 || cs[0] != '3' || cs[1] != '.' {
        return Err(BelayError::usage(MSG_PYTHON_VERSION));
    }
    let mut i: usize = 2;
    while i < cs.len()
        invariant
            2 <= i <= cs.len(),
            cs@ == python_version@,
            forall|j: int| 2 <= j < i ==> is_ascii_digit(#[trigger] cs@[j]),
        decreases cs.len() - i,
    {
        if !digit(cs[i]) {
            return Err(BelayError::usage(MSG_PYTHON_VERSION));
        }
        i = i + 1;
    }
    let mut t = String::new();
    push_char(&mut t, 'p');
    push_char(&mut t, 'y');
    push_char(&mut t, '3');
    let minor = string_of_range(&cs, 2, cs.len());
    t.append(minor.as_str());
    assert(cs@.subrange(2, cs@.len() as int) =~= cs@.skip(2));
    assert(t@ =~= ruff_target_of(python_version@));
    Ok(t)
}

/// What a Python project is created as.
#[derive(Clone, Debug, PartialEq, Eq)]
pub struct PythonProjectSpec {
    pub directory_name: String,
    pub project_name: String,
    pub module_name: String,
    pub python_version: String,
    pub ruff_target: String,
}

/// The reason a Python project cannot be made from a name and version, checked in order.
pub open spec fn python_spec_problem(name: Seq<char>, version: Seq<char>) -> Option<Seq<char>> {
    if project_name_problem(name) is Some {
        project_name_problem(name)
    } else if module_name_problem(name) is Some {
        module_name_problem(name)
    } else if !is_python_version(version) {
        Some(MSG_PYTHON_VERSION@)
    } else {
        None
    }
}

impl PythonProjectSpec {
    /// The specification of a Python project named `name` for `python_version`.
    pub fn new(name: &str, python_version: &str) -> (r: Result<Self, BelayError>)
        ensures
            match r {
                Ok(s) => {
                    &&& python_spec_problem(name@, python_version@) is None
                    &&& s.directory_name@ == name@
                    &&& s.project_name@ == name@
                    &&& s.module_name@ == module_name_of(name@)
                    &&& s.python_version@ == python_version@
                    &&& s.ruff_target@ == ruff_target_of(python_version@)
                },
                Err(e) => python_spec_problem(name@, python_version@) == Some(e.message@),
            },
    {
        validate_project_name(name)?;
        let module_name = module_name_for(name)?;
        let ruff_target = ruff_target_for(python_version)?;
        Ok(PythonProjectSpec {
            directory_name: String::from_str(name),
            project_name: String::from_str(name),
            module_name,
            python_version: String::from_str(python_version),
            ruff_target,
        })
    }
}

/// What a Rust CLI project is created as.
#[derive(Clone, Debug, PartialEq, Eq)]
pub struct RustCliProjectSpec {
    pub directory_name: String,
    pub package_name: String,
    pub crate_name: String,
    pub command_name: String,
}

/// The reason a CLI project cannot be made from a name, checked in order.
pub open spec fn cli_spec_problem(name: Seq<char>) -> Option<Seq<char>> {
    if project_name_problem(name) is Some {
        project_name_problem(name)
    } else {
        cli_slug_problem(name)
    }
}

impl RustCliProjectSpec {
    /// The specification of a Rust CLI project named `name`.
    pub fn new(name: &str) -> (r: Result<Self, BelayError>)
        ensures
            match r {
                Ok(s) => {
                    &&& cli_spec_problem(name@) is None
                    &&& s.directory_name@ == name@
                    &&& s.package_name@ == cli_slug_of(name@)
                    &&& s.command_name@ == cli_slug_of(name@)
                    &&& s.crate_name@ == crate_name_of(cli_slug_of(name@))
                },
                Err(e) => cli_spec_problem(name@) == Some(e.message@),
            },
    {
        validate_project_name(name)?;
        let command_name = cli_slug_for(name)?;
        let crate_name = crate_name_for(&command_name);
        Ok(RustCliProjectSpec {
            directory_name: String::from_str(name),
            package_name: command_name.clone(),
            crate_name,
            command_name,
        })
    }
}

/// What a Go CLI project is created as.
#[derive(Clone, Debug, PartialEq, Eq)]
pub struct GoCliProjectSpec {
    pub directory_name: String,
    pub module_name: String,
    pub command_name: String,
}

impl GoCliProjectSpec {
    /// The specification of a Go CLI project named `name`.
    pub fn new(name: &str) -> (r: Result<Self, BelayError>)
        ensures
            match r {
                Ok(s) => {
                    &&& cli_spec_problem(name@) is None
                    &&& s.directory_name@ == name@
                    &&& s.module_name@ == cli_slug_of(name@)
                    &&& s.command_name@ == cli_slug_of(name@)
                },
                Err(e) => cli_spec_problem(name@) == Some(e.message@),
            },
    {
        validate_project_name(name)?;
        let command_name = cli_slug_for(name)?;
        Ok(GoCliProjectSpec {
            directory_name: String::from_str(name),
            module_name: command_name.clone(),
            command_name,
        })
    }
}

/// A project name is accepted exactly when it is not empty, is neither `.`
/// nor `..`, and holds only ASCII letters, digits, `_`, `-` and `.`.
pub proof fn lemma_project_name_accepted_iff(name: Seq<char>)
    ensures
        project_name_problem(name) is None <==> {
            &&& name.len() > 0
            &&& name != seq!['.']
            &&& name != seq!['.', '.']
            &&& forall|i: int|
                0 <= i < name.len() ==> is_ascii_alnum(#[trigger] name[i]) || name[i] == '_'
                    || name[i] == '-' || name[i] == '.'
        },
{
    let ok = forall|i: int|
        0 <= i < name.len() ==> is_ascii_alnum(#[trigger] name[i]) || name[i] == '_' || name[i]
            == '-' || name[i] == '.';
    if ok {
        assert(!name.contains('/')) by {
            if name.contains('/') {
                let i = choose|i: int| 0 <= i < name.len() && name[i] == '/';
                assert(is_ascii_alnum(name[i]) || name[i] == '_' || name[i] == '-' || name[i] == '.');
            }
        }
        assert(!name.contains('\\')) by {
            if name.contains('\\') {
                let i = choose|i: int| 0 <= i < name.len() && name[i] == '\\';
                assert(is_ascii_alnum(name[i]) || name[i] == '_' || name[i] == '-' || name[i] == '.');
            }
        }
    } else {
        let i = choose|i: int|
            0 <= i < name.len() && !(is_ascii_alnum(#[trigger] name[i]) || name[i] == '_' || name[i]
                == '-' || name[i] == '.');
        assert(!is_project_name_char(name[i]));
    }
}

/// A name is accepted for a Python project exactly when its module name is
/// a Python identifier: an ASCII letter or `_`, then ASCII letters, digits
/// and `_`; digits are welcome after the first character.
pub proof fn lemma_module_name_accepted_iff_identifier(name: Seq<char>)
    ensures
        module_name_problem(name) is None <==> {
            let m = module_name_of(name);
            &&& m.len() > 0
            &&& is_ascii_alpha(m[0]) || m[0] == '_'
            &&& forall|i: int| 1 <= i < m.len() ==> is_ascii_alnum(#[trigger] m[i]) || m[i] == '_'
        },
{
}

/// A name is accepted for a CLI exactly when its command name starts with
/// an ASCII letter and goes on with ASCII letters, digits and `-`.
pub proof fn lemma_cli_slug_accepted_iff(name: Seq<char>)
    ensures
        cli_slug_problem(name) is None <==> {
            let m = cli_slug_of(name);
            &&& m.len() > 0
            &&& is_ascii_alpha(m[0])
            &&& forall|i: int| 1 <= i < m.len() ==> is_ascii_alnum(#[trigger] m[i]) || m[i] == '-'
        },
{
}

/// The ruff target of an accepted version is `py3` followed by its minor
/// number: `3.13` gives `py313`.
pub proof fn lemma_ruff_target_is_py3_and_minor(version: Seq<char>)
    requires
        is_python_version(version),
    ensures
        ruff_target_of(version).len() == version.len() + 1,
        ruff_target_of(version).take(3) == seq!['p', 'y', '3'],
        forall|i: int| 2 <= i < version.len() ==> ruff_target_of(version)[i + 1] == #[trigger] version[i],
{
    assert(ruff_target_of(version).take(3) =~= seq!['p', 'y', '3']);
}

} // verus!
