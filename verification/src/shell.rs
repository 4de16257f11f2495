//! Shell integration: the shell function that lets the parent shell `cd` into
//! a new project, the managed block that holds it in a shell's startup file,
//! and the choice of shell.
use vstd::prelude::*;

use crate::error::BelayError;
use crate::process::strings_view;
use crate::text::{
    chars_of, contains_seq, ends_with_newline, find_chars, first_occurrence, is_first_occurrence,
    is_white_space, lemma_first_occurrence_exists, lemma_first_occurrence_is, occurs_at,
    push_char, same_text, string_of_range, trim_end, trim_end_len,
};

verus! {

broadcast use vstd::string::group_string_axioms;

/// The line that opens the managed block.
pub const BELAY_BEGIN: &'static str = "# >>> belay shell integration >>>";

/// The line that closes the managed block.
pub const BELAY_END: &'static str = "# <<< belay shell integration <<<";

pub const MSG_SHELL_UNSET: &'static str = "could not detect shell because SHELL is unset; pass fish, bash, or zsh";

/// The shell function for bash and zsh.
pub const POSIX_SHELL_FUNCTION: &'static str = r#"belay() {
    case "$1" in
        rs|py|rs-cli|go-cli)
            local target
            target="$(BELAY_SHELL_WRAPPER=1 command belay "$@")"
            local status=$?
            if [ "$status" -eq 0 ] && [ -n "$target" ]; then
                cd "$target" || return $?
            fi
            return "$status"
            ;;
    esac

    command belay "$@"
}
"#;

/// The shell function for fish.
pub const FISH_SHELL_FUNCTION: &'static str = r#"function belay
    switch "$argv[1]"
    case py rs-cli go-cli rs
        set -l target (env BELAY_SHELL_WRAPPER=1 command belay $argv)
        set -l command_status $status
        if test $command_status -eq 0; and test -n "$target"
            cd "$target"; or return $status
        end
        return $command_status
    end

    command belay $argv
end
"#;

/// The shells that belay integrates with.
#[derive(Clone, Copy, Debug, PartialEq, Eq, Structural)]
pub enum Shell {
    Bash,
    Fish,
    Zsh,
}

/// The name of a shell, as it is written on the command line.
pub open spec fn shell_name_text(shell: Shell) -> Seq<char> {
    match shell {
        Shell::Bash => "bash"@,
        Shell::Fish => "fish"@,
        Shell::Zsh => "zsh"@,
    }
}

/// The name of a shell (its display form).
pub fn shell_name(shell: Shell) -> (r: &'static str)
    ensures
        r@ == shell_name_text(shell),
{
    match shell {
        Shell::Bash => "bash",
        Shell::Fish => "fish",
        Shell::Zsh => "zsh",
    }
}

/// The shell function that belay installs for a shell.
pub open spec fn shell_function_text(shell: Shell) -> Seq<char> {
    match shell {
        Shell::Bash | Shell::Zsh => POSIX_SHELL_FUNCTION@,
        Shell::Fish => FISH_SHELL_FUNCTION@,
    }
}

/// The shell function for a shell: bash and zsh share one, fish has its own.
pub fn shell_function(shell: Shell) -> (r: &'static str)
    ensures
        r@ == shell_function_text(shell),
{
    match shell {
        Shell::Bash | Shell::Zsh => POSIX_SHELL_FUNCTION,
        Shell::Fish => FISH_SHELL_FUNCTION,
    }
}

/// The managed block: the opening line, the shell function, the closing line.
pub open spec fn managed_block_text(shell: Shell) -> Seq<char> {
    BELAY_BEGIN@ + seq!['\n'] + shell_function_text(shell) + BELAY_END@ + seq!['\n']
}

/// The block that belay keeps in a shell's startup file.
pub fn managed_block(shell: Shell) -> (r: String)
    ensures
        r@ == managed_block_text(shell),
{
    let mut r = String::from_str(BELAY_BEGIN);
    push_char(&mut r, '\n');
    r.append(shell_function(shell));
    r.append(BELAY_END);
    push_char(&mut r, '\n');
    r
}

/// The string with a line feed added unless it already ends with one.
pub open spec fn with_final_newline(s: Seq<char>) -> Seq<char> {
    if ends_with_newline(s) {
        s
    } else {
        s.push('\n')
    }
}

/// What separates existing text from a block appended after it: nothing
/// after empty text, else one blank line.
pub open spec fn block_separator(current: Seq<char>) -> Seq<char> {
    if current.len() == 0 {
        seq![]
    } else if ends_with_newline(current) {
        seq!['\n']
    } else {
        seq!['\n', '\n']
    }
}

/// The startup file text after installing `block` into `current`:
/// - without an opening line, the block is appended after a blank line;
/// - with an opening line but no closing line after it, the block is appended
///   on a new line;
/// - otherwise the text from the first opening line through the first closing
///   line after it is replaced by the block without its trailing white space,
///   and the result ends with a line feed.
pub open spec fn replaced_block(current: Seq<char>, block: Seq<char>) -> Seq<char> {
    match first_occurrence(current, BELAY_BEGIN@) {
        None => current + block_separator(current) + block,
        Some(start) => match first_occurrence(current.skip(start), BELAY_END@) {
            None => with_final_newline(current) + block,
            Some(rel) => with_final_newline(
                current.take(start) + trim_end(block) + current.skip(start + rel + BELAY_END@.len()),
            ),
        },
    }
}

fn suffix_chars(s: &Vec<char>, n: usize) -> (r: Vec<char>)
    requires
        n <= s.len(),
    ensures
        r@ == s@.skip(n as int),
{
    let mut r: Vec<char> = Vec::new();
    let mut i = n;
    while i < s.len()
        invariant
            n <= i <= s.len(),
            r@ == s@.subrange(n as int, i as int),
        decreases s.len() - i,
    {
        r.push(s[i]);
        i = i + 1;
        assert(r@ =~= s@.subrange(n as int, i as int));
    }
    assert(r@ =~= s@.skip(n as int));
    r
}

fn push_newline_if_missing(s: &mut String)
    ensures
        final(s)@ == with_final_newline(old(s)@),
{
    let cs = chars_of(s.as_str());
    if cs.len() == 0 || cs[cs.len() - 1] != '\n' {
        push_char(s, '\n');
    }
}

/// Installs `block` into the startup file text `current`: replaces the
/// managed block if there is one, appends it otherwise.
pub fn replace_or_append_block(current: &str, block: &str) -> (r: String)
    ensures
        r@ == replaced_block(current@, block@),
{
    let cur = chars_of(current);
    let blk = chars_of(block);
    let begin = chars_of(BELAY_BEGIN);
    let end_line = chars_of(BELAY_END);
    match find_chars(&cur, &begin) {
        None => {
            let mut next = String::from_str(current);
            if cur.len() > 0 && cur[cur.len() - 1] != '\n' {
                push_char(&mut next, '\n');
            }
            if cur.len() > 0 {
                push_char(&mut next, '\n');
            }
            next.append(block);
            assert(next@ =~= replaced_block(current@, block@));
            next
        },
        Some(start) => {
            let tail = suffix_chars(&cur, start);
            match find_chars(&tail, &end_line) {
                None => {
                    let mut next = String::from_str(current);
                    push_newline_if_missing(&mut next);
                    next.append(block);
                    next
                },
                Some(rel) => {
                    assert(occurs_at(tail@, end_line@, rel as int));
                    assert(tail@.len() == cur@.len() - start);
                    assert(start + rel + end_line@.len() <= cur@.len());
                    assert(cur@.len() == cur.len());
                    let end = start + rel + end_line.len();
                    let mut next = string_of_range(&cur, 0, start);
                    let kept = trim_end_len(&blk);
                    let trimmed_block = string_of_range(&blk, 0, kept);
                    next.append(trimmed_block.as_str());
                    let rest = string_of_range(&cur, end, cur.len());
                    next.append(rest.as_str());
                    push_newline_if_missing(&mut next);
                    assert(cur@.subrange(0, start as int) =~= cur@.take(start as int));
                    assert(blk@.subrange(0, kept as int) =~= blk@.take(kept as int));
                    assert(cur@.subrange(end as int, cur@.len() as int) =~= cur@.skip(end as int));
                    next
                },
            }
        },
    }
}

/// The opening line starts with `#`, holds no other `#` and no line feed.
proof fn lemma_begin_line()
    ensures
        BELAY_BEGIN@.len() == 33,
        BELAY_BEGIN@[0] == '#',
        forall|k: int| 1 <= k < BELAY_BEGIN@.len() ==> BELAY_BEGIN@[k] != '#',
        forall|k: int| 0 <= k < BELAY_BEGIN@.len() ==> BELAY_BEGIN@[k] != '\n',
{
    reveal_strlit("# >>> belay shell integration >>>");
    assert(BELAY_BEGIN@ =~= seq![
        '#', ' ', '>', '>', '>', ' ', 'b', 'e', 'l', 'a', 'y', ' ', 's', 'h', 'e', 'l', 'l', ' ',
        'i', 'n', 't', 'e', 'g', 'r', 'a', 't', 'i', 'o', 'n', ' ', '>', '>', '>',
    ]);
}

/// `trim_end` keeps a prefix of the string.
proof fn lemma_trim_end_is_prefix(s: Seq<char>)
    ensures
        trim_end(s).len() <= s.len(),
        trim_end(s) == s.take(trim_end(s).len() as int),
    decreases s.len(),
{
    if s.len() > 0 && is_white_space(s.last()) {
        lemma_trim_end_is_prefix(s.drop_last());
        assert(s.drop_last().take(trim_end(s).len() as int) =~= s.take(trim_end(s).len() as int));
    } else {
        assert(s.take(s.len() as int) =~= s);
    }
}

/// A first occurrence in a prefix is the first occurrence in the whole.
proof fn lemma_first_in_prefix<T>(t: Seq<T>, s: Seq<T>, pat: Seq<T>, i: int)
    requires
        t.len() <= s.len(),
        t == s.take(t.len() as int),
        is_first_occurrence(t, pat, i),
    ensures
        is_first_occurrence(s, pat, i),
        first_occurrence(s, pat) == Some(i),
{
    assert(s.subrange(i, i + pat.len()) =~= t.subrange(i, i + pat.len()));
    assert forall|j: int| 0 <= j < i implies !#[trigger] occurs_at(s, pat, j) by {
        if occurs_at(s, pat, j) {
            assert(s.subrange(j, j + pat.len()) =~= t.subrange(j, j + pat.len()));
            assert(occurs_at(t, pat, j));
        }
    }
    lemma_first_occurrence_is(s, pat, i);
}

/// Nothing before a first occurrence holds the pattern.
proof fn lemma_nothing_before_first<T>(s: Seq<T>, pat: Seq<T>, i: int)
    requires
        pat.len() > 0,
        is_first_occurrence(s, pat, i),
    ensures
        !contains_seq(s.take(i), pat),
{
    assert forall|j: int| !#[trigger] occurs_at(s.take(i), pat, j) by {
        if occurs_at(s.take(i), pat, j) {
            assert(s.take(i).subrange(j, j + pat.len()) =~= s.subrange(j, j + pat.len()));
            assert(occurs_at(s, pat, j));
        }
    }
}

/// Line feeds after a text cannot complete an opening line.
proof fn lemma_newlines_hold_no_begin(c: Seq<char>, sep: Seq<char>)
    requires
        !contains_seq(c, BELAY_BEGIN@),
        forall|k: int| 0 <= k < sep.len() ==> sep[k] == '\n',
    ensures
        !contains_seq(c + sep, BELAY_BEGIN@),
{
    lemma_begin_line();
    let b = BELAY_BEGIN@;
    let t = c + sep;
    assert forall|j: int| !#[trigger] occurs_at(t, b, j) by {
        if occurs_at(t, b, j) {
            if j + b.len() <= c.len() {
                assert(t.subrange(j, j + b.len()) =~= c.subrange(j, j + b.len()));
                assert(occurs_at(c, b, j));
            } else {
                let p = if j >= c.len() { j } else { c.len() as int };
                assert(t.subrange(j, j + b.len())[p - j] == t[p]);
                assert(t[p] == sep[p - c.len()]);
            }
        }
    }
}

/// Where text holds no opening line and a block starts with one, the first
/// opening line of the two together is the block's.
proof fn lemma_begin_first_at(p: Seq<char>, b: Seq<char>)
    requires
        !contains_seq(p, BELAY_BEGIN@),
        occurs_at(b, BELAY_BEGIN@, 0),
    ensures
        is_first_occurrence(p + b, BELAY_BEGIN@, p.len() as int),
        first_occurrence(p + b, BELAY_BEGIN@) == Some(p.len() as int),
{
    lemma_begin_line();
    let m = BELAY_BEGIN@;
    let t = p + b;
    assert(t.subrange(p.len() as int, (p.len() + m.len()) as int) =~= b.subrange(0, m.len() as int));
    assert forall|j: int| 0 <= j < p.len() implies !#[trigger] occurs_at(t, m, j) by {
        if occurs_at(t, m, j) {
            if j + m.len() <= p.len() {
                assert(t.subrange(j, j + m.len()) =~= p.subrange(j, j + m.len()));
                assert(occurs_at(p, m, j));
            } else {
                let k = p.len() - j;
                assert(t.subrange(j, j + m.len())[k] == t[p.len() as int]);
                assert(t[p.len() as int] == b[0]);
                assert(b.subrange(0, m.len() as int)[0] == b[0]);
            }
        }
    }
    lemma_first_occurrence_is(t, m, p.len() as int);
}

/// A block that installing can find again: it ends with a line feed and,
/// without its trailing white space, starts with the opening line and ends
/// with the first closing line in it.
pub open spec fn is_managed_block(b: Seq<char>) -> bool {
    &&& ends_with_newline(b)
    &&& occurs_at(trim_end(b), BELAY_BEGIN@, 0)
    &&& is_first_occurrence(trim_end(b), BELAY_END@, trim_end(b).len() - BELAY_END@.len())
}

/// Text with an opening line and no closing line after the first one.
pub open spec fn has_unclosed_block(current: Seq<char>) -> bool {
    match first_occurrence(current, BELAY_BEGIN@) {
        Some(start) => first_occurrence(current.skip(start), BELAY_END@) is None,
        None => false,
    }
}

/// Installing a managed block a second time leaves the text as the first
/// installation left it, for every text except one whose first opening line
/// has no closing line after it.
pub proof fn lemma_replace_block_idempotent(current: Seq<char>, block: Seq<char>)
    requires
        is_managed_block(block),
        !has_unclosed_block(current),
    ensures
        replaced_block(replaced_block(current, block), block) == replaced_block(current, block),
{
    let b = BELAY_BEGIN@;
    let e = BELAY_END@;
    let tb = trim_end(block);
    lemma_trim_end_is_prefix(block);
    let r1 = replaced_block(current, block);
    match first_occurrence(current, b) {
        None => {
            let c2 = current + block_separator(current);
            assert(!contains_seq(current, b));
            lemma_newlines_hold_no_begin(current, block_separator(current));
            assert(block.subrange(0, b.len() as int) =~= tb.subrange(0, b.len() as int));
            lemma_begin_first_at(c2, block);
            assert(r1 =~= c2 + block);
            assert(r1.skip(c2.len() as int) =~= block);
            lemma_first_in_prefix(tb, block, e, tb.len() - e.len());
            assert(r1.take(c2.len() as int) =~= c2);
            assert(r1.skip((c2.len() + tb.len()) as int) =~= block.skip(tb.len() as int));
            assert(c2 + tb + block.skip(tb.len() as int) =~= r1);
        },
        Some(start) => {
            let rel = first_occurrence(current.skip(start), e)->0;
            let w = choose|i: int| occurs_at(current, b, i);
            lemma_first_occurrence_exists(current, b, w);
            lemma_begin_line();
            let p = current.take(start);
            let rest = current.skip(start + rel + e.len());
            let q = p + tb + rest;
            assert(r1 == with_final_newline(q));
            lemma_nothing_before_first(current, b, start);
            let u = r1.skip(start);
            assert(r1 =~= p + u);
            assert(u.take(tb.len() as int) =~= tb);
            assert(u.subrange(0, b.len() as int) =~= tb.subrange(0, b.len() as int));
            lemma_begin_first_at(p, u);
            lemma_first_in_prefix(tb, u, e, tb.len() - e.len());
            assert(r1.take(start) =~= p);
            assert(r1.skip(start + tb.len()) =~= u.skip(tb.len() as int));
            assert(p + tb + u.skip(tb.len() as int) =~= r1);
        },
    }
}

/// The closing line has the opening line's length, starts with `#` and holds
/// no other, and differs from the opening line in its third character; it
/// ends in a character that is not white space.
proof fn lemma_end_line()
    ensures
        BELAY_END@.len() == BELAY_BEGIN@.len(),
        BELAY_END@[0] == '#',
        forall|k: int| 1 <= k < BELAY_END@.len() ==> BELAY_END@[k] != '#',
        BELAY_END@[2] == '<',
        BELAY_BEGIN@[2] == '>',
        !is_white_space(BELAY_END@.last()),
        BELAY_END@.last() != '\n',
{
    reveal_strlit("# >>> belay shell integration >>>");
    reveal_strlit("# <<< belay shell integration <<<");
    assert(BELAY_END@ =~= seq![
        '#', ' ', '<', '<', '<', ' ', 'b', 'e', 'l', 'a', 'y', ' ', 's', 'h', 'e', 'l', 'l', ' ',
        'i', 'n', 't', 'e', 'g', 'r', 'a', 't', 'i', 'o', 'n', ' ', '<', '<', '<',
    ]);
}

/// Neither shell function holds a `#`.
proof fn lemma_shell_function_has_no_hash(shell: Shell)
    ensures
        forall|k: int|
            0 <= k < shell_function_text(shell).len() ==> shell_function_text(shell)[k] != '#',
{
    reveal_strlit(r#"belay() {
    case "$1" in
        rs|py|rs-cli|go-cli)
            local target
            target="$(BELAY_SHELL_WRAPPER=1 command belay "$@")"
            local status=$?
            if [ "$status" -eq 0 ] && [ -n "$target" ]; then
                cd "$target" || return $?
            fi
            return "$status"
            ;;
    esac

    command belay "$@"
}
"#);
    reveal_strlit(r#"function belay
    switch "$argv[1]"
    case py rs-cli go-cli rs
        set -l target (env BELAY_SHELL_WRAPPER=1 command belay $argv)
        set -l command_status $status
        if test $command_status -eq 0; and test -n "$target"
            cd "$target"; or return $status
        end
        return $command_status
    end

    command belay $argv
end
"#);
}

/// What the shell functions promise: bash and zsh share one; each hands
/// `BELAY_SHELL_WRAPPER=1` to belay, names the commands that create a project
/// (`rs`, `py`, `rs-cli`, `go-cli`), ends with a line feed, and holds neither
/// line of the managed block (no `#` at all); the fish one defines the
/// function `belay`.
pub proof fn lemma_shell_function_texts(shell: Shell)
    ensures
        shell_function_text(Shell::Bash) == shell_function_text(Shell::Zsh),
        forall|k: int|
            0 <= k < shell_function_text(shell).len() ==> shell_function_text(shell)[k] != '#',
        !contains_seq(shell_function_text(shell), BELAY_BEGIN@),
        !contains_seq(shell_function_text(shell), BELAY_END@),
        contains_seq(shell_function_text(shell), "BELAY_SHELL_WRAPPER=1"@),
        shell_function_text(shell).len() > 0 && shell_function_text(shell).last() == '\n',
        contains_seq(shell_function_text(Shell::Bash), "rs|py|rs-cli|go-cli)"@),
        contains_seq(shell_function_text(Shell::Fish), "case py rs-cli go-cli rs"@),
        occurs_at(shell_function_text(Shell::Fish), "function belay"@, 0),
{
    lemma_shell_function_has_no_hash(shell);
    lemma_begin_line();
    lemma_end_line();
    let f = shell_function_text(shell);
    assert forall|j: int| !#[trigger] occurs_at(f, BELAY_BEGIN@, j) by {
        if occurs_at(f, BELAY_BEGIN@, j) {
            assert(f.subrange(j, j + BELAY_BEGIN@.len())[0] == f[j]);
        }
    }
    assert forall|j: int| !#[trigger] occurs_at(f, BELAY_END@, j) by {
        if occurs_at(f, BELAY_END@, j) {
            assert(f.subrange(j, j + BELAY_END@.len())[0] == f[j]);
        }
    }
    reveal_strlit(r#"belay() {
    case "$1" in
        rs|py|rs-cli|go-cli)
            local target
            target="$(BELAY_SHELL_WRAPPER=1 command belay "$@")"
            local status=$?
            if [ "$status" -eq 0 ] && [ -n "$target" ]; then
                cd "$target" || return $?
            fi
            return "$status"
            ;;
    esac

    command belay "$@"
}
"#);
    reveal_strlit(r#"function belay
    switch "$argv[1]"
    case py rs-cli go-cli rs
        set -l target (env BELAY_SHELL_WRAPPER=1 command belay $argv)
        set -l command_status $status
        if test $command_status -eq 0; and test -n "$target"
            cd "$target"; or return $status
        end
        return $command_status
    end

    command belay $argv
end
"#);
    reveal_strlit("BELAY_SHELL_WRAPPER=1");
    reveal_strlit("rs|py|rs-cli|go-cli)");
    reveal_strlit("case py rs-cli go-cli rs");
    reveal_strlit("function belay");
    let posix = shell_function_text(Shell::Bash);
    let fish = shell_function_text(Shell::Fish);
    assert(posix.subrange(103, 124) =~= "BELAY_SHELL_WRAPPER=1"@);
    assert(occurs_at(posix, "BELAY_SHELL_WRAPPER=1"@, 103));
    assert(fish.subrange(93, 114) =~= "BELAY_SHELL_WRAPPER=1"@);
    assert(occurs_at(fish, "BELAY_SHELL_WRAPPER=1"@, 93));
    assert(posix.subrange(35, 55) =~= "rs|py|rs-cli|go-cli)"@);
    assert(occurs_at(posix, "rs|py|rs-cli|go-cli)"@, 35));
    assert(fish.subrange(41, 65) =~= "case py rs-cli go-cli rs"@);
    assert(occurs_at(fish, "case py rs-cli go-cli rs"@, 41));
    assert(fish.subrange(0, 14) =~= "function belay"@);
}

/// The block that belay installs for each shell is one that installing finds again.
pub proof fn lemma_managed_block_is_managed(shell: Shell)
    ensures
        is_managed_block(managed_block_text(shell)),
{
    lemma_begin_line();
    lemma_end_line();
    lemma_shell_function_has_no_hash(shell);
    let bg = BELAY_BEGIN@;
    let en = BELAY_END@;
    let f = shell_function_text(shell);
    let b = managed_block_text(shell);
    let tb = bg + seq!['\n'] + f + en;
    assert(b.drop_last() =~= tb);
    assert(tb.last() == en.last());
    assert(trim_end(tb) == tb);
    assert(trim_end(b) == tb);
    assert(tb.subrange(0, bg.len() as int) =~= bg);
    let at = tb.len() - en.len();
    assert(tb.subrange(at, at + en.len()) =~= en);
    assert forall|j: int| 0 <= j < at implies !#[trigger] occurs_at(tb, en, j) by {
        if occurs_at(tb, en, j) {
            assert(tb.subrange(j, j + en.len())[0] == tb[j]);
            assert(tb[j] == '#');
            if j == 0 {
                assert(tb.subrange(j, j + en.len())[2] == tb[2]);
                assert(tb[2] == bg[2]);
            } else if j < bg.len() {
                assert(tb[j] == bg[j]);
            } else if j == bg.len() {
                assert(tb[j] == '\n');
            } else {
                assert(tb[j] == f[j - bg.len() - 1]);
            }
        }
    }
}

/// After installing a managed block, the first opening line of the text is
/// where the block, without its trailing white space, stands.
pub proof fn lemma_installed_block_comes_first(current: Seq<char>, block: Seq<char>)
    requires
        is_managed_block(block),
        !has_unclosed_block(current),
    ensures
        first_occurrence(replaced_block(current, block), BELAY_BEGIN@) matches Some(start)
            && occurs_at(replaced_block(current, block), trim_end(block), start),
{
    let b = BELAY_BEGIN@;
    let tb = trim_end(block);
    lemma_trim_end_is_prefix(block);
    let r1 = replaced_block(current, block);
    match first_occurrence(current, b) {
        None => {
            let c2 = current + block_separator(current);
            lemma_newlines_hold_no_begin(current, block_separator(current));
            assert(block.subrange(0, b.len() as int) =~= tb.subrange(0, b.len() as int));
            lemma_begin_first_at(c2, block);
            assert(r1 =~= c2 + block);
            assert(r1.subrange(c2.len() as int, (c2.len() + tb.len()) as int) =~= tb);
        },
        Some(start) => {
            let w = choose|i: int| occurs_at(current, b, i);
            lemma_first_occurrence_exists(current, b, w);
            lemma_begin_line();
            lemma_nothing_before_first(current, b, start);
            let p = current.take(start);
            let u = r1.skip(start);
            assert(r1 =~= p + u);
            assert(u.take(tb.len() as int) =~= tb);
            assert(u.subrange(0, b.len() as int) =~= tb.subrange(0, b.len() as int));
            lemma_begin_first_at(p, u);
            assert(r1.subrange(start, start + tb.len()) =~= tb);
        },
    }
}

/// Installing the shell integration of a shell a second time leaves a
/// startup file as the first installation left it, for every file except one
/// whose first opening line has no closing line after it.
pub proof fn lemma_install_integration_idempotent(current: Seq<char>, shell: Shell)
    requires
        !has_unclosed_block(current),
    ensures
        replaced_block(replaced_block(current, managed_block_text(shell)), managed_block_text(shell))
            == replaced_block(current, managed_block_text(shell)),
{
    lemma_managed_block_is_managed(shell);
    lemma_replace_block_idempotent(current, managed_block_text(shell));
}

pub open spec fn unsupported_shell_message(name: Seq<char>) -> Seq<char> {
    "unsupported shell `"@ + name + "`; pass fish, bash, or zsh"@
}

/// The shell that a shell program's file name names (`bash`, `fish` or `zsh`).
pub fn shell_from_file_name(name: &str) -> (r: Result<Shell, BelayError>)
    ensures
        match r {
            Ok(shell) => shell_name_text(shell) == name@,
            Err(e) => name@ != "bash"@ && name@ != "fish"@ && name@ != "zsh"@
                && e.message@ == unsupported_shell_message(name@),
        },
{
    if same_text(name, "bash") {
        Ok(Shell::Bash)
    } else if same_text(name, "fish") {
        Ok(Shell::Fish)
    } else if same_text(name, "zsh") {
        Ok(Shell::Zsh)
    } else {
        let mut message = String::from_str("unsupported shell `");
        message.append(name);
        message.append("`; pass fish, bash, or zsh");
        Err(BelayError::from_message(message))
    }
}

/// What `Path::file_name` gives for a path: its final component, unless the
/// path ends in `..` or has none. How a path splits into components is the
/// platform's (separators, prefixes), so the result is named, not spelled out.
pub uninterp spec fn path_file_name(path: Seq<char>) -> Option<Seq<char>>;

/// `std::path::Path::file_name` on a path held in a string. The contract names
/// the result and states nothing more of it.
#[verifier::external_body]
fn file_name_of(path: &str) -> (r: Option<String>)
    ensures
        match r {
            Some(n) => path_file_name(path@) == Some(n@),
            None => path_file_name(path@) is None,
        },
{
    std::path::Path::new(path).file_name().and_then(|n| n.to_str()).map(|n| n.to_string())
}

/// The shell that the value of `SHELL` names: the file name of the program
/// (empty where the path has none), or the error's message where the
/// variable is unset or names another program.
pub open spec fn detected_shell(shell_var: Option<Seq<char>>) -> Result<Shell, Seq<char>> {
    match shell_var {
        None => Err(MSG_SHELL_UNSET@),
        Some(path) => {
            let name = match path_file_name(path) {
                Some(n) => n,
                None => Seq::<char>::empty(),
            };
            if name == "bash"@ {
                Ok(Shell::Bash)
            } else if name == "fish"@ {
                Ok(Shell::Fish)
            } else if name == "zsh"@ {
                Ok(Shell::Zsh)
            } else {
                Err(unsupported_shell_message(name))
            }
        },
    }
}

/// The shell named by the value of `SHELL`: the file name of the program,
/// or an error where the variable is unset or names another program.
pub fn detect_shell(shell_var: Option<&str>) -> (r: Result<Shell, BelayError>)
    ensures
        match r {
            Ok(shell) => detected_shell(
                match shell_var {
                    Some(v) => Some(v@),
                    None => None,
                },
            ) == Ok::<Shell, Seq<char>>(shell),
            Err(e) => detected_shell(
                match shell_var {
                    Some(v) => Some(v@),
                    None => None,
                },
            ) == Err::<Shell, Seq<char>>(e.message@),
        },
{
    proof {
        reveal_strlit("bash");
        reveal_strlit("fish");
        reveal_strlit("zsh");
    }
    match shell_var {
        None => Err(BelayError::usage(MSG_SHELL_UNSET)),
        Some(path) => {
            let ghost name = match path_file_name(path@) {
                Some(n) => n,
                None => Seq::<char>::empty(),
            };
            let r = match file_name_of(path) {
                Some(n) => shell_from_file_name(n.as_str()),
                None => {
                    proof {
                        reveal_strlit("");
                    }
                    assert(""@ =~= Seq::<char>::empty());
                    shell_from_file_name("")
                },
            };
            proof {
                if let Ok(shell) = r {
                    assert(shell_name_text(shell) == name);
                    match shell {
                        Shell::Bash => assert(name == "bash"@),
                        Shell::Fish => {
                            assert(name == "fish"@);
                            assert(name[0] != "bash"@[0]);
                        },
                        Shell::Zsh => {
                            assert(name == "zsh"@);
                            assert(name.len() != "bash"@.len());
                            assert(name.len() != "fish"@.len());
                        },
                    }
                }
            }
            r
        },
    }
}

/// The directory that a shell's integration file lies under.
#[derive(Clone, Copy, Debug, PartialEq, Eq, Structural)]
pub enum IntegrationBase {
    /// The user's home directory.
    Home,
    /// The directory that `XDG_CONFIG_HOME` names.
    ConfigHome,
}

/// Where a shell's integration is installed: a path below a base directory,
/// and whether the file holds a managed block among other lines (bash and
/// zsh startup files) or is belay's own file holding only the function (fish).
pub struct IntegrationTarget {
    pub base: IntegrationBase,
    pub parts: Vec<String>,
    pub managed_block: bool,
}

/// The base, path components and kind of the integration file of a shell:
/// `~/.bashrc` and `~/.zshrc` hold a managed block; fish gets
/// `fish/conf.d/belay.fish` under `XDG_CONFIG_HOME`, or under `~/.config`
/// where that is unset.
pub open spec fn integration_target_of(shell: Shell, config_home_set: bool) -> (
    IntegrationBase,
    Seq<Seq<char>>,
    bool,
) {
    match shell {
        Shell::Bash => (IntegrationBase::Home, seq![".bashrc"@], true),
        Shell::Zsh => (IntegrationBase::Home, seq![".zshrc"@], true),
        Shell::Fish => if config_home_set {
            (IntegrationBase::ConfigHome, seq!["fish"@, "conf.d"@, "belay.fish"@], false)
        } else {
            (IntegrationBase::Home, seq![".config"@, "fish"@, "conf.d"@, "belay.fish"@], false)
        },
    }
}

/// Where the integration of a shell goes, given whether `XDG_CONFIG_HOME` is set.
pub fn integration_target(shell: Shell, config_home_set: bool) -> (r: IntegrationTarget)
    ensures
        (r.base, strings_view(r.parts), r.managed_block) == integration_target_of(
            shell,
            config_home_set,
        ),
{
    let mut parts: Vec<String> = Vec::new();
    match shell {
        Shell::Bash => {
            parts.push(String::from_str(".bashrc"));
            assert(strings_view(parts) =~= seq![".bashrc"@]);
            IntegrationTarget { base: IntegrationBase::Home, parts, managed_block: true }
        },
        Shell::Zsh => {
            parts.push(String::from_str(".zshrc"));
            assert(strings_view(parts) =~= seq![".zshrc"@]);
            IntegrationTarget { base: IntegrationBase::Home, parts, managed_block: true }
        },
        Shell::Fish => {
            let base = if config_home_set {
                IntegrationBase::ConfigHome
            } else {
                parts.push(String::from_str(".config"));
                IntegrationBase::Home
            };
            parts.push(String::from_str("fish"));
            parts.push(String::from_str("conf.d"));
            parts.push(String::from_str("belay.fish"));
            if config_home_set {
                assert(strings_view(parts) =~= seq!["fish"@, "conf.d"@, "belay.fish"@]);
            } else {
                assert(strings_view(parts) =~= seq![".config"@, "fish"@, "conf.d"@, "belay.fish"@]);
            }
            IntegrationTarget { base, parts, managed_block: false }
        },
    }
}

/// `pat` stands in `s` at one index at most.
pub open spec fn occurs_at_most_once<T>(s: Seq<T>, pat: Seq<T>) -> bool {
    forall|i: int, j: int| #[trigger] occurs_at(s, pat, i) && #[trigger] occurs_at(s, pat, j) ==> i == j
}

/// `pat` stands in `s` at exactly one index.
pub open spec fn occurs_exactly_once<T>(s: Seq<T>, pat: Seq<T>) -> bool {
    contains_seq(s, pat) && occurs_at_most_once(s, pat)
}

/// The managed block without its final line feed: the opening line, a line
/// feed, the shell function and the closing line.
pub open spec fn block_body(shell: Shell) -> Seq<char> {
    BELAY_BEGIN@ + seq!['\n'] + shell_function_text(shell) + BELAY_END@
}

/// Between text and a line without the opening line, the body of a managed
/// block brings exactly one opening line: its own.
proof fn lemma_only_opening_line(p: Seq<char>, shell: Shell, r: Seq<char>)
    requires
        !contains_seq(p, BELAY_BEGIN@),
        !contains_seq(r, BELAY_BEGIN@),
    ensures
        occurs_at(p + block_body(shell) + r, BELAY_BEGIN@, p.len() as int),
        forall|j: int| #[trigger] occurs_at(p + block_body(shell) + r, BELAY_BEGIN@, j) ==> j == p.len(),
{
    lemma_begin_line();
    lemma_end_line();
    lemma_shell_function_has_no_hash(shell);
    let b = BELAY_BEGIN@;
    let e = BELAY_END@;
    let f = shell_function_text(shell);
    let tb = block_body(shell);
    let t = p + tb + r;
    assert((tb + r).subrange(0, b.len() as int) =~= b);
    assert(t =~= p + (tb + r));
    lemma_begin_first_at(p, tb + r);
    let fe = b.len() + 1 + f.len();
    assert forall|j: int| #[trigger] occurs_at(t, b, j) implies j == p.len() by {
        assert(t.subrange(j, j + b.len())[0] == t[j]);
        if j < p.len() {
            assert(!occurs_at(t, b, j));
        } else if j < p.len() + tb.len() {
            let k = j - p.len();
            assert(t[j] == tb[k]);
            if k > 0 {
                if k < b.len() {
                    assert(tb[k] == b[k]);
                } else if k == b.len() {
                    assert(tb[k] == '\n');
                } else if k < fe {
                    assert(tb[k] == f[k - b.len() - 1]);
                } else {
                    let m = k - fe;
                    assert(tb[k] == e[m]);
                    if m == 0 {
                        assert(t.subrange(j, j + b.len())[2] == t[j + 2]);
                        assert(t[j + 2] == tb[k + 2]);
                        assert(tb[k + 2] == e[2]);
                    }
                }
            }
        } else {
            let i = j - p.len() - tb.len();
            assert(r.subrange(i, i + b.len()) =~= t.subrange(j, j + b.len()));
            assert(occurs_at(r, b, i));
        }
    }
}

/// Installing the shell integration into a startup file that holds at most
/// one opening line, and no opening line without a closing line after it,
/// leaves exactly one opening line.
pub proof fn lemma_install_leaves_one_opening_line(current: Seq<char>, shell: Shell)
    requires
        !has_unclosed_block(current),
        occurs_at_most_once(current, BELAY_BEGIN@),
    ensures
        occurs_exactly_once(replaced_block(current, managed_block_text(shell)), BELAY_BEGIN@),
{
    lemma_begin_line();
    lemma_end_line();
    let b = BELAY_BEGIN@;
    let e = BELAY_END@;
    let block = managed_block_text(shell);
    let tb = block_body(shell);
    assert(block =~= tb + seq!['\n']);
    assert(block.drop_last() =~= tb);
    assert(tb.last() == e.last());
    assert(trim_end(tb) == tb);
    assert(trim_end(block) == tb);
    let r1 = replaced_block(current, block);
    match first_occurrence(current, b) {
        None => {
            let sep = block_separator(current);
            let c2 = current + sep;
            lemma_newlines_hold_no_begin(current, sep);
            assert forall|j: int| !#[trigger] occurs_at(seq!['\n'], b, j) by {}
            lemma_only_opening_line(c2, shell, seq!['\n']);
            assert(r1 =~= c2 + tb + seq!['\n']);
        },
        Some(start) => {
            let w = choose|i: int| occurs_at(current, b, i);
            lemma_first_occurrence_exists(current, b, w);
            lemma_nothing_before_first(current, b, start);
            let tail = current.skip(start);
            let w2 = choose|i: int| occurs_at(tail, e, i);
            lemma_first_occurrence_exists(tail, e, w2);
            let rel = first_occurrence(tail, e)->0;
            let p = current.take(start);
            let cut = start + rel + e.len();
            let rest = current.skip(cut);
            assert forall|j: int| !#[trigger] occurs_at(rest, b, j) by {
                if occurs_at(rest, b, j) {
                    assert(current.subrange(cut + j, cut + j + b.len()) =~= rest.subrange(
                        j,
                        j + b.len(),
                    ));
                    assert(occurs_at(current, b, cut + j));
                    assert(occurs_at(current, b, start));
                }
            }
            let end_r = with_final_newline(rest);
            assert(!contains_seq(rest, b));
            if !ends_with_newline(rest) {
                lemma_newlines_hold_no_begin(rest, seq!['\n']);
                assert(end_r =~= rest + seq!['\n']);
            }
            assert(!contains_seq(end_r, b));
            if rest.len() > 0 {
                assert((p + tb + rest).last() == rest.last());
            } else {
                assert(p + tb + rest =~= p + tb);
            }
            assert(r1 =~= p + tb + end_r);
            lemma_only_opening_line(p, shell, end_r);
        },
    }
}

} // verus!

