//! Dockerfile parsing for the image builder: one instruction per line,
//! `#` comment lines skipped.
use vstd::prelude::*;

use crate::text::{
    all_words, ends_lines, join, join_strings, lemma_join_avoids, lemma_join_no_whitespace, lemma_lines_append,
    lemma_lines_single, lemma_words_are_words, lemma_words_join, lemma_words_single,
    lemma_words_split, lines, no_whitespace, strip_cr, split_lines, split_whitespace, text_eq, views, words,
};

verus! {

broadcast use vstd::string::group_string_axioms;

/// An instruction of a Dockerfile.
#[allow(non_camel_case_types)]
#[derive(Debug, Clone, PartialEq, Eq)]
pub enum DockerfileInstruction {
    /// Start from a copy of another image's contents.
    FROM(String),
    /// Run a shell command inside the image.
    RUN(String),
    /// Copy a path (relative to the Dockerfile) to a path inside the image.
    COPY(String, String),
    /// Record a command to run when a container of the image starts.
    ENTRYPOINT(String),
}

/// The mathematical value of a [`DockerfileInstruction`].
pub enum InstructionView {
    From(Seq<char>),
    Run(Seq<char>),
    Copy(Seq<char>, Seq<char>),
    Entrypoint(Seq<char>),
}

impl View for DockerfileInstruction {
    type V = InstructionView;

    open spec fn view(&self) -> InstructionView {
        match self {
            DockerfileInstruction::FROM(s) => InstructionView::From(s@),
            DockerfileInstruction::RUN(s) => InstructionView::Run(s@),
            DockerfileInstruction::COPY(a, b) => InstructionView::Copy(a@, b@),
            DockerfileInstruction::ENTRYPOINT(s) => InstructionView::Entrypoint(s@),
        }
    }
}

/// The views of a sequence of instructions.
pub open spec fn instruction_views(v: Seq<DockerfileInstruction>) -> Seq<InstructionView> {
    v.map_values(|i: DockerfileInstruction| i@)
}

/// The value of an instruction result.
pub open spec fn instruction_result_view(r: Result<DockerfileInstruction, String>) -> Result<
    InstructionView,
    Seq<char>,
> {
    match r {
        Ok(i) => Ok(i@),
        Err(e) => Err(e@),
    }
}

/// The error for an unknown instruction name.
pub open spec fn invalid_instruction_message(name: Seq<char>) -> Seq<char> {
    "Instruction "@ + name + " is invalid"@
}

/// The instruction named `name` with the words `values` after it.
/// `FROM` glues the words together, `RUN` and `ENTRYPOINT` join them with
/// single spaces, `COPY` takes the first two (empty where missing).
pub open spec fn instruction_of(name: Seq<char>, values: Seq<Seq<char>>) -> Result<
    InstructionView,
    Seq<char>,
> {
    if name == "FROM"@ {
        Ok(InstructionView::From(join(values, seq![])))
    } else if name == "RUN"@ {
        Ok(InstructionView::Run(join(values, seq![' '])))
    } else if name == "ENTRYPOINT"@ {
        Ok(InstructionView::Entrypoint(join(values, seq![' '])))
    } else if name == "COPY"@ {
        Ok(
            InstructionView::Copy(
                if values.len() > 0 {
                    values[0]
                } else {
                    seq![]
                },
                if values.len() > 1 {
                    values[1]
                } else {
                    seq![]
                },
            ),
        )
    } else {
        Err(invalid_instruction_message(name))
    }
}

/// Whether a line is a comment: it starts with `#` (no leading blanks).
pub open spec fn is_comment(line: Seq<char>) -> bool {
    line.len() > 0 && line[0] == '#'
}

/// What one line of a Dockerfile contributes.
pub enum LineOutcome {
    /// A comment line: nothing.
    Skip,
    /// An instruction.
    Instruction(InstructionView),
    /// An unknown instruction name, with the error message.
    Invalid(Seq<char>),
    /// A line with no words that is not a comment: parsing panics here.
    Blank,
}

/// What `line` contributes.
pub open spec fn line_outcome(line: Seq<char>) -> LineOutcome {
    if is_comment(line) {
        LineOutcome::Skip
    } else if words(line).len() == 0 {
        LineOutcome::Blank
    } else {
        match instruction_of(words(line)[0], words(line).drop_first()) {
            Ok(i) => LineOutcome::Instruction(i),
            Err(e) => LineOutcome::Invalid(e),
        }
    }
}

/// The result of parsing the lines `ls` in order: the instructions, or the
/// error of the first invalid line; `None` when a blank line is reached
/// first (the parse panics there).
pub open spec fn parse_lines(ls: Seq<Seq<char>>) -> Option<Result<Seq<InstructionView>, Seq<char>>>
    decreases ls.len(),
{
    if ls.len() == 0 {
        Some(Ok(seq![]))
    } else {
        match parse_lines(ls.drop_last()) {
            Some(Ok(p)) => match line_outcome(ls.last()) {
                LineOutcome::Skip => Some(Ok(p)),
                LineOutcome::Instruction(i) => Some(Ok(p.push(i))),
                LineOutcome::Invalid(e) => Some(Err(e)),
                LineOutcome::Blank => None,
            },
            other => other,
        }
    }
}

/// The result of parsing Dockerfile text.
pub open spec fn parse_dockerfile_text(contents: Seq<char>) -> Option<
    Result<Seq<InstructionView>, Seq<char>>,
> {
    parse_lines(lines(contents))
}

/// Once a prefix of the lines stops the parse (an error or a panic), the
/// whole parse ends the same way.
pub proof fn lemma_parse_stops(ls: Seq<Seq<char>>, k: int)
    requires
        0 <= k <= ls.len(),
        !(parse_lines(ls.take(k)) matches Some(Ok(_))),
    ensures
        parse_lines(ls) == parse_lines(ls.take(k)),
    decreases ls.len() - k,
{
    if k < ls.len() {
        assert(ls.take(k + 1).drop_last() == ls.take(k));
        lemma_parse_stops(ls, k + 1);
    } else {
        assert(ls.take(k) == ls);
    }
}

/// Whether `line` is a comment (`line.starts_with("#")`).
pub fn is_line_comment(line: &str) -> (b: bool)
    ensures
        b == is_comment(line@),
{
    let v = crate::text::chars_of(line);
    v.len() > 0 && v[0] == '#'
}

/// The instruction named `instruction` with the words `values` after it;
/// an unknown name is an error naming it.
pub fn map_dockerfile_instruction(instruction: &str, values: &[String]) -> (r: Result<
    DockerfileInstruction,
    String,
>)
    ensures
        instruction_result_view(r) == instruction_of(instruction@, views(values@)),
{
    proof {
        reveal_strlit("");
        reveal_strlit(" ");
        assert(""@ =~= Seq::<char>::empty());
        assert(" "@ =~= seq![' ']);
    }
    if text_eq(instruction, "FROM") {
        Ok(DockerfileInstruction::FROM(join_strings(values, "")))
    } else if text_eq(instruction, "RUN") {
        Ok(DockerfileInstruction::RUN(join_strings(values, " ")))
    } else if text_eq(instruction, "ENTRYPOINT") {
        Ok(DockerfileInstruction::ENTRYPOINT(join_strings(values, " ")))
    } else if text_eq(instruction, "COPY") {
        let source = if values.len() > 0 {
            values[0].clone()
        } else {
            String::new()
        };
        let destination = if values.len() > 1 {
            values[1].clone()
        } else {
            String::new()
        };
        assert(values@.len() > 0 ==> views(values@)[0] == values@[0]@);
        assert(values@.len() > 1 ==> views(values@)[1] == values@[1]@);
        Ok(DockerfileInstruction::COPY(source, destination))
    } else {
        let mut message = String::from_str("Instruction ");
        message.append(instruction);
        message.append(" is invalid");
        assert(message@ == invalid_instruction_message(instruction@));
        Err(message)
    }
}


/// What the line `line` contributes, computed.
fn parse_line(line: &str) -> (r: (bool, Result<Option<DockerfileInstruction>, String>))
    ensures
        r.0 <==> line_outcome(line@) is Blank,
        !r.0 ==> match line_outcome(line@) {
            LineOutcome::Skip => r.1 == Ok::<Option<DockerfileInstruction>, String>(None),
            LineOutcome::Instruction(i) => r.1 matches Ok(Some(x)) && x@ == i,
            LineOutcome::Invalid(e) => r.1 matches Err(m) && m@ == e,
            LineOutcome::Blank => false,
        },
{
    if is_line_comment(line) {
        return (false, Ok(None));
    }
    let mut parts = split_whitespace(line);
    if parts.len() == 0 {
        return (true, Ok(None));
    }
    let ghost ws = views(parts@);
    let name = parts.remove(0);
    assert(views(parts@) =~= ws.drop_first());
    match map_dockerfile_instruction(name.as_str(), parts.as_slice()) {
        Ok(i) => (false, Ok(Some(i))),
        Err(e) => (false, Err(e)),
    }
}

/// The instructions of the Dockerfile text `contents`, one per line that
/// is not a comment, in order; the first invalid instruction name is an
/// error. Every line up to that point must hold a word or be a comment.
pub fn parse_dockerfile_contents(contents: &str) -> (r: Result<Vec<DockerfileInstruction>, String>)
    requires
        parse_dockerfile_text(contents@) is Some,
    ensures
        match r {
            Ok(v) => parse_dockerfile_text(contents@) == Some(
                Ok::<Seq<InstructionView>, Seq<char>>(instruction_views(v@)),
            ),
            Err(e) => parse_dockerfile_text(contents@) == Some(
                Err::<Seq<InstructionView>, Seq<char>>(e@),
            ),
        },
{
    let ls = split_lines(contents);
    let ghost all = views(ls@);
    let mut out: Vec<DockerfileInstruction> = Vec::new();
    assert(all.take(0) =~= Seq::<Seq<char>>::empty());
    assert(instruction_views(out@) =~= Seq::<InstructionView>::empty());
    for i in 0..ls.len()
        invariant
            all == views(ls@),
            all == lines(contents@),
            parse_lines(all) is Some,
            parse_lines(all.take(i as int)) == Some(
                Ok::<Seq<InstructionView>, Seq<char>>(instruction_views(out@)),
            ),
    {
        assert(all.take(i + 1).drop_last() == all.take(i as int));
        assert(all.take(i + 1).last() == ls@[i as int]@);
        let (blank, outcome) = parse_line(ls[i].as_str());
        if blank {
            proof {
                lemma_parse_stops(all, i + 1);
            }
            assert(false);
        }
        match outcome {
            Ok(None) => {},
            Ok(Some(instruction)) => {
                let ghost prev = out@;
                out.push(instruction);
                assert(instruction_views(out@) =~= instruction_views(prev).push(out@.last()@));
            },
            Err(e) => {
                proof {
                    lemma_parse_stops(all, i + 1);
                }
                return Err(e);
            },
        }
    }
    assert(all.take(ls.len() as int) == all);
    Ok(out)
}

/// Whether parsing `contents` reaches a line with no words that is not a
/// comment before any invalid instruction (where parsing panics).
pub fn reaches_blank_line(contents: &str) -> (b: bool)
    ensures
        b == (parse_dockerfile_text(contents@) is None),
{
    let ls = split_lines(contents);
    let ghost all = views(ls@);
    assert(all.take(0) =~= Seq::<Seq<char>>::empty());
    for i in 0..ls.len()
        invariant
            all == views(ls@),
            all == lines(contents@),
            parse_lines(all.take(i as int)) matches Some(Ok(_)),
    {
        assert(all.take(i + 1).drop_last() == all.take(i as int));
        assert(all.take(i + 1).last() == ls@[i as int]@);
        let (blank, outcome) = parse_line(ls[i].as_str());
        if blank {
            proof {
                lemma_parse_stops(all, i + 1);
            }
            return true;
        }
        if outcome.is_err() {
            proof {
                lemma_parse_stops(all, i + 1);
            }
            return false;
        }
    }
    assert(all.take(ls.len() as int) == all);
    false
}


// ---------------------------------------------------------------------------
// Laws
// ---------------------------------------------------------------------------

/// Parsing two texts one after the other: the instructions of the first,
/// then those of the second, unless the first stops the parse.
pub open spec fn then_parse(
    first: Option<Result<Seq<InstructionView>, Seq<char>>>,
    second: Option<Result<Seq<InstructionView>, Seq<char>>>,
) -> Option<Result<Seq<InstructionView>, Seq<char>>> {
    match first {
        Some(Ok(p)) => match second {
            Some(Ok(q)) => Some(Ok(p + q)),
            other => other,
        },
        other => other,
    }
}

/// Parsing lines is parsing each part in turn.
pub proof fn lemma_parse_lines_append(x: Seq<Seq<char>>, y: Seq<Seq<char>>)
    ensures
        parse_lines(x + y) == then_parse(parse_lines(x), parse_lines(y)),
    decreases y.len(),
{
    if y.len() == 0 {
        assert(x + y == x);
        if let Some(Ok(p)) = parse_lines(x) {
            assert(p + Seq::<InstructionView>::empty() == p);
        }
    } else {
        lemma_parse_lines_append(x, y.drop_last());
        assert((x + y).drop_last() == x + y.drop_last());
        assert((x + y).last() == y.last());
        if let Some(Ok(p)) = parse_lines(x) {
            if let Some(Ok(q)) = parse_lines(y.drop_last()) {
                if let LineOutcome::Instruction(i) = line_outcome(y.last()) {
                    assert((p + q).push(i) == p + q.push(i));
                }
            }
        }
    }
}

/// Law: a Dockerfile is parsed line by line. For a text `a` made of whole
/// lines, parsing `a` followed by `b` gives the instructions of `a` and
/// then those of `b`; an error or panic in `a` ends the parse there.
pub proof fn law_parse_concatenation(a: Seq<char>, b: Seq<char>)
    requires
        ends_lines(a),
    ensures
        parse_dockerfile_text(a + b) == then_parse(
            parse_dockerfile_text(a),
            parse_dockerfile_text(b),
        ),
{
    lemma_lines_append(a, b);
    lemma_parse_lines_append(lines(a), lines(b));
}

/// Law: a comment line contributes nothing: parsing a line that starts
/// with `#`, whatever follows the `#`, and then `b` is parsing `b`.
pub proof fn law_comment_line_ignored(comment: Seq<char>, b: Seq<char>)
    requires
        comment.len() > 0,
        comment[0] == '#',
        !comment.contains('\n'),
    ensures
        parse_dockerfile_text(comment.push('\n') + b) == parse_dockerfile_text(b),
{
    lemma_lines_single(comment);
    let line = strip_cr(comment);
    assert(is_comment(line)) by {
        if comment.len() > 0 && comment.last() == '\r' {
            assert(comment.len() > 1);
            assert(line[0] == comment[0]);
        }
    }
    assert(seq![line].drop_last() =~= Seq::<Seq<char>>::empty());
    assert(seq![line].last() == line);
    assert(line_outcome(line) is Skip);
    assert(parse_lines(Seq::<Seq<char>>::empty()) == Some(
        Ok::<Seq<InstructionView>, Seq<char>>(Seq::empty()),
    ));
    assert(parse_lines(seq![line]) == Some(
        Ok::<Seq<InstructionView>, Seq<char>>(Seq::empty()),
    ));
    assert(parse_dockerfile_text(comment.push('\n')) == Some(
        Ok::<Seq<InstructionView>, Seq<char>>(Seq::empty()),
    ));
    law_parse_concatenation(comment.push('\n'), b);
    if let Some(Ok(q)) = parse_dockerfile_text(b) {
        assert(Seq::<InstructionView>::empty() + q == q);
    }
}

/// The keyword of an instruction.
pub open spec fn keyword_of(i: InstructionView) -> Seq<char> {
    match i {
        InstructionView::From(_) => "FROM"@,
        InstructionView::Run(_) => "RUN"@,
        InstructionView::Entrypoint(_) => "ENTRYPOINT"@,
        InstructionView::Copy(_, _) => "COPY"@,
    }
}

/// The text after the keyword in an instruction's line: the image, the
/// command, or the source and destination separated by a space.
pub open spec fn argument_text(i: InstructionView) -> Seq<char> {
    match i {
        InstructionView::From(x) => x,
        InstructionView::Run(c) => c,
        InstructionView::Entrypoint(c) => c,
        InstructionView::Copy(src, dst) => src + seq![' '] + dst,
    }
}

/// The Dockerfile line that states `i`: its keyword, a space, and its
/// argument text.
pub open spec fn render_instruction(i: InstructionView) -> Seq<char> {
    keyword_of(i) + seq![' '] + argument_text(i)
}

/// The Dockerfile text that states the instructions `is`, one per line.
pub open spec fn render_dockerfile(is: Seq<InstructionView>) -> Seq<char>
    decreases is.len(),
{
    if is.len() == 0 {
        seq![]
    } else {
        render_dockerfile(is.drop_last()) + render_instruction(is.last()).push('\n')
    }
}

/// The instructions a parse can produce: `FROM` names a word (or nothing),
/// `RUN` and `ENTRYPOINT` hold words separated by single spaces, and
/// `COPY` holds up to two words, the source first.
pub open spec fn well_formed(i: InstructionView) -> bool {
    match i {
        InstructionView::From(x) => no_whitespace(x),
        InstructionView::Run(c) => join(words(c), seq![' ']) == c,
        InstructionView::Entrypoint(c) => join(words(c), seq![' ']) == c,
        InstructionView::Copy(src, dst) => no_whitespace(src) && no_whitespace(dst) && (src.len()
            == 0 ==> dst.len() == 0),
    }
}

/// What `instruction_of` builds from words is well formed.
proof fn lemma_instruction_of_well_formed(name: Seq<char>, values: Seq<Seq<char>>)
    requires
        all_words(values),
    ensures
        instruction_of(name, values) matches Ok(i) ==> well_formed(i),
{
    assert(no_whitespace(Seq::<char>::empty()));
    lemma_join_no_whitespace(values, seq![]);
    lemma_words_join(values);
    if values.len() > 0 {
        assert(values[0].len() > 0);
    }
    if values.len() > 1 {
        assert(values[1].len() > 0);
    }
}

/// Every instruction of a successful parse is well formed.
proof fn lemma_parse_well_formed(ls: Seq<Seq<char>>, is: Seq<InstructionView>)
    requires
        parse_lines(ls) == Some(Ok::<Seq<InstructionView>, Seq<char>>(is)),
    ensures
        forall|k: int| 0 <= k < is.len() ==> well_formed(#[trigger] is[k]),
    decreases ls.len(),
{
    if ls.len() > 0 {
        let line = ls.last();
        if let Some(Ok(p)) = parse_lines(ls.drop_last()) {
            lemma_parse_well_formed(ls.drop_last(), p);
            lemma_words_are_words(line);
            if words(line).len() > 0 && !is_comment(line) {
                assert(all_words(words(line).drop_first()));
                lemma_instruction_of_well_formed(words(line)[0], words(line).drop_first());
                if let LineOutcome::Instruction(i) = line_outcome(line) {
                    assert(is == p.push(i));
                    assert forall|k: int| 0 <= k < is.len() implies well_formed(#[trigger] is[k]) by {
                        if k < p.len() {
                            assert(is[k] == p[k]);
                        }
                    }
                }
            }
        }
    }
}

/// A line holding a keyword, a space and then `rest`.
proof fn lemma_keyword_line(keyword: Seq<char>, rest: Seq<char>)
    requires
        keyword.len() > 0,
        no_whitespace(keyword),
    ensures
        words(keyword + seq![' '] + rest) == seq![keyword] + words(rest),
{
    lemma_words_single(keyword);
    lemma_words_split(keyword, ' ', rest);
}

/// The keywords are distinct words that do not start a comment.
proof fn lemma_keywords()
    ensures
        "FROM"@ != "RUN"@,
        "FROM"@ != "ENTRYPOINT"@,
        "FROM"@ != "COPY"@,
        "RUN"@ != "ENTRYPOINT"@,
        "RUN"@ != "COPY"@,
        "ENTRYPOINT"@ != "COPY"@,
        forall|i: InstructionView| #![trigger keyword_of(i)]
            keyword_of(i).len() > 0 && no_whitespace(keyword_of(i)) && keyword_of(i)[0] != '#',
{
    reveal_strlit("FROM");
    reveal_strlit("RUN");
    reveal_strlit("ENTRYPOINT");
    reveal_strlit("COPY");
    assert("FROM"@[0] != "RUN"@[0]);
    assert("FROM"@[0] != "ENTRYPOINT"@[0]);
    assert("FROM"@[0] != "COPY"@[0]);
    assert("RUN"@[0] != "ENTRYPOINT"@[0]);
    assert("RUN"@[0] != "COPY"@[0]);
    assert("ENTRYPOINT"@[0] != "COPY"@[0]);
}

/// The words of a well formed instruction's argument text are what the
/// instruction was built from.
proof fn lemma_argument(i: InstructionView)
    requires
        well_formed(i),
    ensures
        instruction_of(keyword_of(i), words(argument_text(i))) == Ok::<InstructionView, Seq<char>>(i),
{
    lemma_keywords();
    let arg = argument_text(i);
    match i {
        InstructionView::From(x) => {
            if x.len() > 0 {
                lemma_words_single(x);
                assert(join(seq![x], seq![]) == x);
            } else {
                assert(words(x) =~= Seq::<Seq<char>>::empty());
                assert(join(words(x), seq![]) =~= x);
            }
            assert(join(words(x), seq![]) == x);
        },
        InstructionView::Run(c) => {},
        InstructionView::Entrypoint(c) => {},
        InstructionView::Copy(src, dst) => {
            lemma_words_split(src, ' ', dst);
            if src.len() > 0 {
                lemma_words_single(src);
            } else {
                assert(words(src) =~= Seq::<Seq<char>>::empty());
            }
            if dst.len() > 0 {
                lemma_words_single(dst);
            } else {
                assert(words(dst) =~= Seq::<Seq<char>>::empty());
            }
            assert(words(arg) == words(src) + words(dst));
            if src.len() == 0 {
                assert(src =~= Seq::<char>::empty());
                assert(dst =~= Seq::<char>::empty());
                assert(words(arg) =~= Seq::<Seq<char>>::empty());
            } else if dst.len() == 0 {
                assert(dst =~= Seq::<char>::empty());
                assert(words(arg) =~= seq![src]);
            } else {
                assert(words(arg) =~= seq![src, dst]);
            }
        },
    }
}

/// The argument text of a well formed instruction holds no whitespace
/// character other than the space.
proof fn lemma_argument_avoids(i: InstructionView, ch: char)
    requires
        well_formed(i),
        crate::text::is_whitespace(ch),
        ch != ' ',
    ensures
        !argument_text(i).contains(ch),
{
    let arg = argument_text(i);
    match i {
        InstructionView::From(x) => {
            if arg.contains(ch) {
                let k = choose|k: int| 0 <= k < arg.len() && arg[k] == ch;
                assert(!crate::text::is_whitespace(x[k]));
            }
        },
        InstructionView::Run(c) => {
            lemma_words_are_words(c);
            lemma_join_avoids(words(c), seq![' '], ch);
        },
        InstructionView::Entrypoint(c) => {
            lemma_words_are_words(c);
            lemma_join_avoids(words(c), seq![' '], ch);
        },
        InstructionView::Copy(src, dst) => {
            if arg.contains(ch) {
                let k = choose|k: int| 0 <= k < arg.len() && arg[k] == ch;
                if k < src.len() {
                    assert(arg[k] == src[k]);
                    assert(!crate::text::is_whitespace(src[k]));
                } else if k > src.len() {
                    assert(arg[k] == dst[k - src.len() - 1]);
                    assert(!crate::text::is_whitespace(dst[k - src.len() - 1]));
                }
            }
        },
    }
}

/// A well formed instruction's line parses back to it and holds neither a
/// newline nor a carriage return.
proof fn lemma_render_line(i: InstructionView)
    requires
        well_formed(i),
    ensures
        line_outcome(render_instruction(i)) == LineOutcome::Instruction(i),
        !render_instruction(i).contains('\n'),
        strip_cr(render_instruction(i)) == render_instruction(i),
{
    lemma_keywords();
    lemma_argument(i);
    lemma_argument_avoids(i, '\n');
    lemma_argument_avoids(i, '\r');
    let kw = keyword_of(i);
    let arg = argument_text(i);
    let line = render_instruction(i);
    lemma_keyword_line(kw, arg);
    assert(!is_comment(line)) by {
        assert(line[0] == kw[0]);
    }
    let ws = words(line);
    assert(ws[0] == kw);
    assert(ws.drop_first() =~= words(arg));
    assert forall|ch: char| ch == '\n' || ch == '\r' implies !line.contains(ch) by {
        if line.contains(ch) {
            let k = choose|k: int| 0 <= k < line.len() && line[k] == ch;
            if k > kw.len() {
                assert(line[k] == arg[k - kw.len() - 1]);
            } else if k < kw.len() {
                assert(line[k] == kw[k]);
            }
        }
    }
    assert(line[line.len() - 1] != '\r');
}

/// Rendered well formed instructions parse back to themselves.
proof fn lemma_render_parse(is: Seq<InstructionView>)
    requires
        forall|k: int| 0 <= k < is.len() ==> well_formed(#[trigger] is[k]),
    ensures
        lines(render_dockerfile(is)) == is.map_values(|i: InstructionView| render_instruction(i)),
        parse_dockerfile_text(render_dockerfile(is)) == Some(
            Ok::<Seq<InstructionView>, Seq<char>>(is),
        ),
    decreases is.len(),
{
    if is.len() == 0 {
        assert(lines(Seq::<char>::empty()) =~= Seq::<Seq<char>>::empty());
        assert(is.map_values(|i: InstructionView| render_instruction(i)) =~= Seq::<
            Seq<char>,
        >::empty());
        assert(is =~= Seq::<InstructionView>::empty());
    } else {
        let dl = is.drop_last();
        assert forall|k: int| 0 <= k < dl.len() implies well_formed(#[trigger] dl[k]) by {
            assert(dl[k] == is[k]);
        }
        lemma_render_parse(dl);
        let head = render_dockerfile(dl);
        let line = render_instruction(is.last());
        assert(well_formed(is[is.len() - 1]));
        lemma_render_line(is.last());
        lemma_lines_single(line);
        assert(strip_cr(line) == line);
        if head.len() > 0 {
            // the rendering of a non-empty list ends with a newline
            assert(head.last() == '\n');
        }
        lemma_lines_append(head, line.push('\n'));
        let ls = lines(render_dockerfile(is));
        assert(ls =~= lines(head).push(line));
        assert(is.map_values(|i: InstructionView| render_instruction(i)) =~= dl.map_values(
            |i: InstructionView| render_instruction(i),
        ).push(line));
        assert(ls.drop_last() =~= lines(head));
        assert(dl.push(is.last()) =~= is);
    }
}

/// Law: what a parse gives back states the file again. Writing the
/// instructions of a successful parse one per line (`FROM x`, `RUN c`,
/// `ENTRYPOINT c`, `COPY src dst`) and parsing that text gives the same
/// instructions.
pub proof fn law_render_parse_roundtrip(contents: Seq<char>, is: Seq<InstructionView>)
    requires
        parse_dockerfile_text(contents) == Some(Ok::<Seq<InstructionView>, Seq<char>>(is)),
    ensures
        parse_dockerfile_text(render_dockerfile(is)) == Some(
            Ok::<Seq<InstructionView>, Seq<char>>(is),
        ),
{
    lemma_parse_well_formed(lines(contents), is);
    lemma_render_parse(is);
}

} // verus!
