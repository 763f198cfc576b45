//! The first Dockerfile format: `RUN` and `COPY` lines, blank lines
//! skipped, no comments.
use vstd::prelude::*;

use crate::text::{
    all_words, ends_lines, join, join_strings, lemma_join_avoids, lemma_lines_append,
    lemma_lines_single, lemma_words_are_words, lemma_words_join, lemma_words_single,
    lemma_words_split, lines, no_whitespace, split_lines, split_whitespace, strip_cr, text_eq, views,
    words,
};

verus! {

broadcast use vstd::string::group_string_axioms;

/// An instruction of the first Dockerfile format.
#[allow(non_camel_case_types)]
#[derive(Debug, PartialEq, Eq)]
pub enum DockerfileInstruction {
    /// Run a shell command inside the image.
    RUN(String),
    /// Copy a path to a path inside the image.
    COPY(String, String),
}

/// The mathematical value of a [`DockerfileInstruction`].
pub enum InstructionView {
    Run(Seq<char>),
    Copy(Seq<char>, Seq<char>),
}

impl View for DockerfileInstruction {
    type V = InstructionView;

    open spec fn view(&self) -> InstructionView {
        match self {
            DockerfileInstruction::RUN(s) => InstructionView::Run(s@),
            DockerfileInstruction::COPY(a, b) => InstructionView::Copy(a@, b@),
        }
    }
}

/// The views of a sequence of instructions.
pub open spec fn instruction_views(v: Seq<DockerfileInstruction>) -> Seq<InstructionView> {
    v.map_values(|i: DockerfileInstruction| i@)
}

/// What one line contributes.
pub enum LineOutcome {
    /// A line with no words: nothing.
    Skip,
    /// An instruction.
    Instruction(InstructionView),
    /// An unknown instruction name, with the error message.
    Invalid(Seq<char>),
    /// `COPY` with fewer than two paths: parsing panics here.
    MissingPath,
}

/// What `line` contributes: `RUN` joins the following words with single
/// spaces, `COPY` takes the next two words.
pub open spec fn line_outcome(line: Seq<char>) -> LineOutcome {
    let ws = words(line);
    if ws.len() == 0 {
        LineOutcome::Skip
    } else if ws[0] == "RUN"@ {
        LineOutcome::Instruction(InstructionView::Run(join(ws.drop_first(), seq![' '])))
    } else if ws[0] == "COPY"@ {
        if ws.len() >= 3 {
            LineOutcome::Instruction(InstructionView::Copy(ws[1], ws[2]))
        } else {
            LineOutcome::MissingPath
        }
    } else {
        LineOutcome::Invalid("Instruction "@ + ws[0] + " is invalid"@)
    }
}

/// The result of parsing the lines `ls` in order; `None` when a `COPY`
/// without two paths is reached before any invalid line.
pub open spec fn parse_lines(ls: Seq<Seq<char>>) -> Option<Result<Seq<InstructionView>, Seq<char>>>
    decreases ls.len(),
{
    if ls.len() == 0 {
        Some(Ok(seq![]))
    } else {
        match parse_lines(ls.drop_last()) {
            Some(Ok(p)) => match line_outcome(ls.last()) {
                LineOutcome::Skip => Some(Ok(p)),
                LineOutcome::Instruction(i) => Some(Ok(p.push(i))),
                LineOutcome::Invalid(e) => Some(Err(e)),
                LineOutcome::MissingPath => None,
            },
            other => other,
        }
    }
}

/// The result of parsing Dockerfile text.
pub open spec fn parse_dockerfile_text(contents: Seq<char>) -> Option<
    Result<Seq<InstructionView>, Seq<char>>,
> {
    parse_lines(lines(contents))
}

/// Once a prefix of the lines stops the parse, the whole parse ends the
/// same way.
pub proof fn lemma_parse_stops(ls: Seq<Seq<char>>, k: int)
    requires
        0 <= k <= ls.len(),
        !(parse_lines(ls.take(k)) matches Some(Ok(_))),
    ensures
        parse_lines(ls) == parse_lines(ls.take(k)),
    decreases ls.len() - k,
{
    if k < ls.len() {
        assert(ls.take(k + 1).drop_last() == ls.take(k));
        lemma_parse_stops(ls, k + 1);
    } else {
        assert(ls.take(k) == ls);
    }
}

/// What the line `line` contributes, computed; the flag is set for a
/// `COPY` without two paths.
fn parse_line(line: &str) -> (r: (bool, Result<Option<DockerfileInstruction>, String>))
    ensures
        r.0 <==> line_outcome(line@) is MissingPath,
        !r.0 ==> match line_outcome(line@) {
            LineOutcome::Skip => r.1 == Ok::<Option<DockerfileInstruction>, String>(None),
            LineOutcome::Instruction(i) => r.1 matches Ok(Some(x)) && x@ == i,
            LineOutcome::Invalid(e) => r.1 matches Err(m) && m@ == e,
            LineOutcome::MissingPath => false,
        },
{
    proof {
        reveal_strlit(" ");
        assert(" "@ =~= seq![' ']);
    }
    let mut parts = split_whitespace(line);
    let ghost ws = views(parts@);
    if parts.len() == 0 {
        return (false, Ok(None));
    }
    let name = parts.remove(0);
    assert(views(parts@) =~= ws.drop_first());
    assert(name@ == ws[0]);
    if text_eq(name.as_str(), "RUN") {
        (false, Ok(Some(DockerfileInstruction::RUN(join_strings(parts.as_slice(), " ")))))
    } else if text_eq(name.as_str(), "COPY") {
        if parts.len() < 2 {
            return (true, Ok(None));
        }
        assert(parts@[0]@ == ws[1] && parts@[1]@ == ws[2]);
        let source = parts[0].clone();
        let destination = parts[1].clone();
        (false, Ok(Some(DockerfileInstruction::COPY(source, destination))))
    } else {
        let mut message = String::from_str("Instruction ");
        message.append(name.as_str());
        message.append(" is invalid");
        (false, Err(message))
    }
}

/// The instructions of the Dockerfile text `contents`, one per line with
/// words, in order; the first invalid instruction name is an error. Every
/// `COPY` up to that point must name two paths.
pub fn parse_dockerfile_contents(contents: &str) -> (r: Result<Vec<DockerfileInstruction>, String>)
    requires
        parse_dockerfile_text(contents@) is Some,
    ensures
        match r {
            Ok(v) => parse_dockerfile_text(contents@) == Some(
                Ok::<Seq<InstructionView>, Seq<char>>(instruction_views(v@)),
            ),
            Err(e) => parse_dockerfile_text(contents@) == Some(
                Err::<Seq<InstructionView>, Seq<char>>(e@),
            ),
        },
{
    let ls = split_lines(contents);
    let ghost all = views(ls@);
    let mut out: Vec<DockerfileInstruction> = Vec::new();
    assert(all.take(0) =~= Seq::<Seq<char>>::empty());
    assert(instruction_views(out@) =~= Seq::<InstructionView>::empty());
    for i in 0..ls.len()
        invariant
            all == views(ls@),
            all == lines(contents@),
            parse_lines(all) is Some,
            parse_lines(all.take(i as int)) == Some(
                Ok::<Seq<InstructionView>, Seq<char>>(instruction_views(out@)),
            ),
    {
        assert(all.take(i + 1).drop_last() == all.take(i as int));
        assert(all.take(i + 1).last() == ls@[i as int]@);
        let (missing, outcome) = parse_line(ls[i].as_str());
        if missing {
            proof {
                lemma_parse_stops(all, i + 1);
            }
            assert(false);
        }
        match outcome {
            Ok(None) => {},
            Ok(Some(instruction)) => {
                let ghost prev = out@;
                out.push(instruction);
                assert(instruction_views(out@) =~= instruction_views(prev).push(out@.last()@));
            },
            Err(e) => {
                proof {
                    lemma_parse_stops(all, i + 1);
                }
                return Err(e);
            },
        }
    }
    assert(all.take(ls.len() as int) == all);
    Ok(out)
}

/// Whether parsing `contents` reaches a `COPY` without two paths before
/// any invalid instruction (where parsing panics).
pub fn reaches_incomplete_copy(contents: &str) -> (b: bool)
    ensures
        b == (parse_dockerfile_text(contents@) is None),
{
    let ls = split_lines(contents);
    let ghost all = views(ls@);
    assert(all.take(0) =~= Seq::<Seq<char>>::empty());
    for i in 0..ls.len()
        invariant
            all == views(ls@),
            all == lines(contents@),
            parse_lines(all.take(i as int)) matches Some(Ok(_)),
    {
        assert(all.take(i + 1).drop_last() == all.take(i as int));
        assert(all.take(i + 1).last() == ls@[i as int]@);
        let (missing, outcome) = parse_line(ls[i].as_str());
        if missing {
            proof {
                lemma_parse_stops(all, i + 1);
            }
            return true;
        }
        if outcome.is_err() {
            proof {
                lemma_parse_stops(all, i + 1);
            }
            return false;
        }
    }
    assert(all.take(ls.len() as int) == all);
    false
}

/// Parsing two texts one after the other: the instructions of the first,
/// then those of the second, unless the first stops the parse.
pub open spec fn then_parse(
    first: Option<Result<Seq<InstructionView>, Seq<char>>>,
    second: Option<Result<Seq<InstructionView>, Seq<char>>>,
) -> Option<Result<Seq<InstructionView>, Seq<char>>> {
    match first {
        Some(Ok(p)) => match second {
            Some(Ok(q)) => Some(Ok(p + q)),
            other => other,
        },
        other => other,
    }
}

/// Parsing lines is parsing each part in turn.
pub proof fn lemma_parse_lines_append(x: Seq<Seq<char>>, y: Seq<Seq<char>>)
    ensures
        parse_lines(x + y) == then_parse(parse_lines(x), parse_lines(y)),
    decreases y.len(),
{
    if y.len() == 0 {
        assert(x + y == x);
        if let Some(Ok(p)) = parse_lines(x) {
            assert(p + Seq::<InstructionView>::empty() == p);
        }
    } else {
        lemma_parse_lines_append(x, y.drop_last());
        assert((x + y).drop_last() == x + y.drop_last());
        assert((x + y).last() == y.last());
        if let Some(Ok(p)) = parse_lines(x) {
            if let Some(Ok(q)) = parse_lines(y.drop_last()) {
                if let LineOutcome::Instruction(i) = line_outcome(y.last()) {
                    assert((p + q).push(i) == p + q.push(i));
                }
            }
        }
    }
}

/// Law: a Dockerfile is parsed line by line. For a text `a` made of whole
/// lines, parsing `a` followed by `b` gives the instructions of `a` and
/// then those of `b`; an error or panic in `a` ends the parse there.
pub proof fn law_parse_concatenation(a: Seq<char>, b: Seq<char>)
    requires
        ends_lines(a),
    ensures
        parse_dockerfile_text(a + b) == then_parse(
            parse_dockerfile_text(a),
            parse_dockerfile_text(b),
        ),
{
    lemma_lines_append(a, b);
    lemma_parse_lines_append(lines(a), lines(b));
}

/// The keyword of an instruction.
pub open spec fn keyword_of(i: InstructionView) -> Seq<char> {
    match i {
        InstructionView::Run(_) => "RUN"@,
        InstructionView::Copy(_, _) => "COPY"@,
    }
}

/// The text after the keyword: the command, or the source and destination
/// separated by a space.
pub open spec fn argument_text(i: InstructionView) -> Seq<char> {
    match i {
        InstructionView::Run(c) => c,
        InstructionView::Copy(src, dst) => src + seq![' '] + dst,
    }
}

/// The Dockerfile line that states `i`: its keyword, a space, and its
/// argument text.
pub open spec fn render_instruction(i: InstructionView) -> Seq<char> {
    keyword_of(i) + seq![' '] + argument_text(i)
}

/// The Dockerfile text that states the instructions `is`, one per line.
pub open spec fn render_dockerfile(is: Seq<InstructionView>) -> Seq<char>
    decreases is.len(),
{
    if is.len() == 0 {
        seq![]
    } else {
        render_dockerfile(is.drop_last()) + render_instruction(is.last()).push('\n')
    }
}

/// The instructions a parse can produce: a command of words separated by
/// single spaces, or a copy between two words.
pub open spec fn well_formed(i: InstructionView) -> bool {
    match i {
        InstructionView::Run(c) => join(words(c), seq![' ']) == c,
        InstructionView::Copy(src, dst) => src.len() > 0 && dst.len() > 0 && no_whitespace(src)
            && no_whitespace(dst),
    }
}

/// The keywords are distinct words that are free of whitespace.
proof fn lemma_keywords()
    ensures
        "RUN"@ != "COPY"@,
        forall|i: InstructionView| #![trigger keyword_of(i)]
            keyword_of(i).len() > 0 && no_whitespace(keyword_of(i)),
{
    reveal_strlit("RUN");
    reveal_strlit("COPY");
    assert("RUN"@[0] != "COPY"@[0]);
}

/// A well formed instruction's line parses back to it and holds neither a
/// newline nor a carriage return.
proof fn lemma_render_line(i: InstructionView)
    requires
        well_formed(i),
    ensures
        line_outcome(render_instruction(i)) == LineOutcome::Instruction(i),
        !render_instruction(i).contains('\n'),
        strip_cr(render_instruction(i)) == render_instruction(i),
{
    lemma_keywords();
    reveal_strlit(" ");
    assert(" "@ =~= seq![' ']);
    let kw = keyword_of(i);
    let arg = argument_text(i);
    let line = render_instruction(i);
    lemma_words_single(kw);
    lemma_words_split(kw, ' ', arg);
    let ws = words(line);
    assert(ws == seq![kw] + words(arg));
    assert(ws[0] == kw);
    assert(ws.drop_first() =~= words(arg));
    match i {
        InstructionView::Run(c) => {
            lemma_words_are_words(c);
            lemma_join_avoids(words(c), seq![' '], '\n');
            lemma_join_avoids(words(c), seq![' '], '\r');
        },
        InstructionView::Copy(src, dst) => {
            lemma_words_split(src, ' ', dst);
            lemma_words_single(src);
            lemma_words_single(dst);
            assert(words(arg) =~= seq![src, dst]);
            assert(ws.len() == 3 && ws[1] == src && ws[2] == dst);
            assert forall|ch: char| ch == '\n' || ch == '\r' implies !arg.contains(ch) by {
                if arg.contains(ch) {
                    let k = choose|k: int| 0 <= k < arg.len() && arg[k] == ch;
                    if k < src.len() {
                        assert(arg[k] == src[k]);
                        assert(!crate::text::is_whitespace(src[k]));
                    } else if k > src.len() {
                        assert(arg[k] == dst[k - src.len() - 1]);
                        assert(!crate::text::is_whitespace(dst[k - src.len() - 1]));
                    }
                }
            }
        },
    }
    assert forall|ch: char| ch == '\n' || ch == '\r' implies !line.contains(ch) by {
        if line.contains(ch) {
            let k = choose|k: int| 0 <= k < line.len() && line[k] == ch;
            if k > kw.len() {
                assert(line[k] == arg[k - kw.len() - 1]);
            } else if k < kw.len() {
                assert(line[k] == kw[k]);
                assert(!crate::text::is_whitespace(kw[k]));
            }
        }
    }
    assert(line[line.len() - 1] != '\r');
}

/// Law: a `COPY` line naming a source and a destination (each a word)
/// copies that source to that destination, and a `RUN` line of words runs
/// those words separated by single spaces.
pub proof fn law_instruction_lines(src: Seq<char>, dst: Seq<char>, ws: Seq<Seq<char>>)
    requires
        src.len() > 0,
        dst.len() > 0,
        no_whitespace(src),
        no_whitespace(dst),
        all_words(ws),
    ensures
        line_outcome("COPY"@ + seq![' '] + src + seq![' '] + dst) == LineOutcome::Instruction(
            InstructionView::Copy(src, dst),
        ),
        line_outcome("RUN"@ + seq![' '] + join(ws, seq![' '])) == LineOutcome::Instruction(
            InstructionView::Run(join(ws, seq![' '])),
        ),
{
    let copy = InstructionView::Copy(src, dst);
    lemma_render_line(copy);
    assert(render_instruction(copy) =~= "COPY"@ + seq![' '] + src + seq![' '] + dst);
    lemma_words_join(ws);
    let run = InstructionView::Run(join(ws, seq![' ']));
    lemma_render_line(run);
}

/// Every instruction of a successful parse is well formed.
proof fn lemma_parse_well_formed(ls: Seq<Seq<char>>, is: Seq<InstructionView>)
    requires
        parse_lines(ls) == Some(Ok::<Seq<InstructionView>, Seq<char>>(is)),
    ensures
        forall|k: int| 0 <= k < is.len() ==> well_formed(#[trigger] is[k]),
    decreases ls.len(),
{
    if ls.len() > 0 {
        let line = ls.last();
        if let Some(Ok(p)) = parse_lines(ls.drop_last()) {
            lemma_parse_well_formed(ls.drop_last(), p);
            if let LineOutcome::Instruction(i) = line_outcome(line) {
                let ws = words(line);
                lemma_words_are_words(line);
                assert(all_words(ws.drop_first()));
                lemma_words_join(ws.drop_first());
                if ws.len() >= 3 {
                    assert(ws[1] == ws.drop_first()[0] && ws[2] == ws.drop_first()[1]);
                    assert(ws[1].len() > 0 && ws[2].len() > 0);
                }
                assert(well_formed(i));
                assert(is == p.push(i));
                assert forall|k: int| 0 <= k < is.len() implies well_formed(#[trigger] is[k]) by {
                    if k < p.len() {
                        assert(is[k] == p[k]);
                    }
                }
            }
        }
    }
}

/// Rendered well formed instructions parse back to themselves.
proof fn lemma_render_parse(is: Seq<InstructionView>)
    requires
        forall|k: int| 0 <= k < is.len() ==> well_formed(#[trigger] is[k]),
    ensures
        parse_dockerfile_text(render_dockerfile(is)) == Some(
            Ok::<Seq<InstructionView>, Seq<char>>(is),
        ),
        ends_lines(render_dockerfile(is)),
    decreases is.len(),
{
    if is.len() == 0 {
        assert(lines(Seq::<char>::empty()) =~= Seq::<Seq<char>>::empty());
        assert(is =~= Seq::<InstructionView>::empty());
    } else {
        let dl = is.drop_last();
        assert forall|k: int| 0 <= k < dl.len() implies well_formed(#[trigger] dl[k]) by {
            assert(dl[k] == is[k]);
        }
        lemma_render_parse(dl);
        let head = render_dockerfile(dl);
        let line = render_instruction(is.last());
        assert(well_formed(is[is.len() - 1]));
        lemma_render_line(is.last());
        lemma_lines_single(line);
        lemma_lines_append(head, line.push('\n'));
        let ls = lines(render_dockerfile(is));
        assert(ls =~= lines(head).push(line));
        assert(ls.drop_last() =~= lines(head));
        assert(dl.push(is.last()) =~= is);
    }
}

/// Law: what a parse gives back states the file again. Writing the
/// instructions of a successful parse one per line (`RUN c`,
/// `COPY src dst`) and parsing that text gives the same instructions.
pub proof fn law_render_parse_roundtrip(contents: Seq<char>, is: Seq<InstructionView>)
    requires
        parse_dockerfile_text(contents) == Some(Ok::<Seq<InstructionView>, Seq<char>>(is)),
    ensures
        parse_dockerfile_text(render_dockerfile(is)) == Some(
            Ok::<Seq<InstructionView>, Seq<char>>(is),
        ),
{
    lemma_parse_well_formed(lines(contents), is);
    lemma_render_parse(is);
}

} // verus!
