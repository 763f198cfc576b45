//! Reading what a traced process writes out of `strace` lines.
use vstd::prelude::*;

use crate::text::{
    lemma_unescape_append, lemma_unescape_complete, lemma_unescape_plain, no_pair, unescape_newlines,
    unescape_newlines_string,
};

verus! {

broadcast use vstd::string::group_string_axioms;

/// The pattern of an `strace` line reporting a `write`, with the written
/// text in the group `stdout`.
pub const STRACE_WRITE_PATTERN: &'static str = r#"write\(\d+, "(?<stdout>.*)".*, \d+\)"#;

/// The name of the group holding the written text.
pub const STDOUT_GROUP: &'static str = "stdout";

/// Whether `pattern` is a regular expression the `regex` crate accepts.
pub uninterp spec fn regex_compiles(pattern: Seq<char>) -> bool;

/// The text the group `group` of the first match of `pattern` in `text`
/// captures, as the `regex` crate finds it; `None` when there is no match
/// or the group takes no part in it.
pub uninterp spec fn regex_capture(pattern: Seq<char>, group: Seq<char>, text: Seq<char>) -> Option<
    Seq<char>,
>;

/// `regex::Regex::new(pattern)`: whether it succeeds, as named by
/// [`regex_compiles`].
#[verifier::external_body]
fn regex_is_valid(pattern: &str) -> (b: bool)
    ensures
        b == regex_compiles(pattern@),
{
    regex::Regex::new(pattern).is_ok()
}

/// `regex::Regex::captures` and `Captures::name`: the text of the group
/// `group` in the first match of `pattern` in `text`, as named by
/// [`regex_capture`]. The pattern must compile (`Regex::new` is unwrapped).
#[verifier::external_body]
fn regex_named_capture(pattern: &str, group: &str, text: &str) -> (r: Option<String>)
    requires
        regex_compiles(pattern@),
    ensures
        match r {
            Some(s) => regex_capture(pattern@, group@, text@) == Some(s@),
            None => regex_capture(pattern@, group@, text@) is None,
        },
{
    let re = regex::Regex::new(pattern).unwrap();
    match re.captures(text) {
        Some(captures) => match captures.name(group) {
            Some(m) => Some(m.as_str().to_string()),
            None => None,
        },
        None => None,
    }
}

/// What an `strace` line shows the traced process writing: the captured
/// text with its `\n` escapes turned into newlines; `None` for other lines.
pub open spec fn strace_output(line: Seq<char>) -> Option<Seq<char>> {
    match regex_capture(STRACE_WRITE_PATTERN@, STDOUT_GROUP@, line) {
        Some(s) => Some(unescape_newlines(s)),
        None => None,
    }
}

/// What the `strace` line `output` shows the traced process writing.
pub fn strace_write_output(output: &str) -> (r: Option<String>)
    requires
        regex_compiles(STRACE_WRITE_PATTERN@),
    ensures
        match r {
            Some(s) => strace_output(output@) == Some(s@),
            None => strace_output(output@) is None,
        },
{
    match regex_named_capture(STRACE_WRITE_PATTERN, STDOUT_GROUP, output) {
        Some(stdout) => Some(unescape_newlines_string(stdout.as_str())),
        None => None,
    }
}

/// What the `strace` line `output` shows the traced process writing; an
/// error when the write pattern does not compile.
pub fn parse_strace_output(output: &str) -> (r: Result<Option<String>, String>)
    ensures
        r is Err <==> !regex_compiles(STRACE_WRITE_PATTERN@),
        r matches Ok(o) ==> match o {
            Some(s) => strace_output(output@) == Some(s@),
            None => strace_output(output@) is None,
        },
{
    if !regex_is_valid(STRACE_WRITE_PATTERN) {
        return Err(String::from_str("The strace write pattern does not compile"));
    }
    Ok(strace_write_output(output))
}

/// Law: what an `strace` write line shows is its captured text with every
/// `\n` escape turned into a newline: nothing but a write line shows
/// anything; text without backslashes is shown as it is; and where no
/// backslash is doubled, no `\n` escape is left in what is shown.
pub proof fn law_strace_output_unescapes_all(line: Seq<char>)
    ensures
        match regex_capture(STRACE_WRITE_PATTERN@, STDOUT_GROUP@, line) {
            None => strace_output(line) is None,
            Some(c) => strace_output(line) matches Some(o) && (!c.contains('\\') ==> o == c) && (
            no_pair(c, '\\', '\\') ==> no_pair(o, '\\', 'n')),
        },
{
    if let Some(c) = regex_capture(STRACE_WRITE_PATTERN@, STDOUT_GROUP@, line) {
        if !c.contains('\\') {
            lemma_unescape_plain(c);
        }
        if no_pair(c, '\\', '\\') {
            lemma_unescape_complete(c);
        }
    }
}

/// Law: the captured text is shown piece by piece: where it is `a`
/// followed by `b` and `a` does not end in a backslash (no escape spans
/// the boundary), what is shown is `a` shown, then `b` shown.
pub proof fn law_strace_output_split(line: Seq<char>, a: Seq<char>, b: Seq<char>)
    requires
        regex_capture(STRACE_WRITE_PATTERN@, STDOUT_GROUP@, line) == Some(a + b),
        a.len() == 0 || a.last() != '\\',
    ensures
        strace_output(line) == Some(unescape_newlines(a) + unescape_newlines(b)),
{
    lemma_unescape_append(a, b);
}

} // verus!
