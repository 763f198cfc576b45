//! Text primitives the rest of the library is built from: splitting into
//! lines and words, joining, path joining and decimal rendering, each with
//! the mathematical definition it is proved against.
use vstd::prelude::*;

verus! {

broadcast use vstd::string::group_string_axioms;

// ---------------------------------------------------------------------------
// Definitions
// ---------------------------------------------------------------------------

/// The characters with the Unicode `White_Space` property (what
/// `char::is_whitespace` tests).
pub open spec fn is_whitespace(c: char) -> bool {
    ||| c == '\t'
    ||| c == '\n'
    ||| c == '\u{0B}'
    ||| c == '\u{0C}'
    ||| c == '\r'
    ||| c == ' '
    ||| c == '\u{85}'
    ||| c == '\u{A0}'
    ||| c == '\u{1680}'
    ||| ('\u{2000}' as u32 <= c as u32 && c as u32 <= '\u{200A}' as u32)
    ||| c == '\u{2028}'
    ||| c == '\u{2029}'
    ||| c == '\u{202F}'
    ||| c == '\u{205F}'
    ||| c == '\u{3000}'
}

/// The views of a sequence of strings.
pub open spec fn views(v: Seq<String>) -> Seq<Seq<char>> {
    v.map_values(|s: String| s@)
}

/// Adds the pending segment `cur` to `done` unless it is empty.
pub open spec fn flush(done: Seq<Seq<char>>, cur: Seq<char>) -> Seq<Seq<char>> {
    if cur.len() == 0 {
        done
    } else {
        done.push(cur)
    }
}

/// Scanning `s` from the left for words: the words already closed by a
/// whitespace character, and the word still being read.
pub open spec fn word_scan(s: Seq<char>) -> (Seq<Seq<char>>, Seq<char>)
    decreases s.len(),
{
    if s.len() == 0 {
        (seq![], seq![])
    } else {
        let p = word_scan(s.drop_last());
        if is_whitespace(s.last()) {
            (flush(p.0, p.1), seq![])
        } else {
            (p.0, p.1.push(s.last()))
        }
    }
}

/// The maximal runs of non-whitespace characters of `s`, in order
/// (`str::split_whitespace`).
pub open spec fn words(s: Seq<char>) -> Seq<Seq<char>> {
    flush(word_scan(s).0, word_scan(s).1)
}

/// A line ended by a newline, without the carriage return that may come
/// before the newline.
pub open spec fn strip_cr(line: Seq<char>) -> Seq<char> {
    if line.len() > 0 && line.last() == '\r' {
        line.drop_last()
    } else {
        line
    }
}

/// Scanning `s` from the left for lines: the lines already ended by a
/// newline (without a carriage return before it), and the line still
/// being read.
pub open spec fn line_scan(s: Seq<char>) -> (Seq<Seq<char>>, Seq<char>)
    decreases s.len(),
{
    if s.len() == 0 {
        (seq![], seq![])
    } else {
        let p = line_scan(s.drop_last());
        if s.last() == '\n' {
            (p.0.push(strip_cr(p.1)), seq![])
        } else {
            (p.0, p.1.push(s.last()))
        }
    }
}

/// The lines of `s` (`str::lines`): split at each newline, a carriage
/// return just before a newline dropped; a final newline does not start an
/// empty last line.
pub open spec fn lines(s: Seq<char>) -> Seq<Seq<char>> {
    flush(line_scan(s).0, line_scan(s).1)
}

/// `parts` joined with `sep` between neighbours.
pub open spec fn join(parts: Seq<Seq<char>>, sep: Seq<char>) -> Seq<char>
    decreases parts.len(),
{
    if parts.len() == 0 {
        seq![]
    } else if parts.len() == 1 {
        parts[0]
    } else {
        join(parts.drop_last(), sep) + sep + parts.last()
    }
}

/// `Path::new(base).join(part)` on Unix, as text: an absolute `part`
/// replaces `base`; otherwise `part` is appended, after a `/` unless `base`
/// is empty or already ends with one.
pub open spec fn path_join(base: Seq<char>, part: Seq<char>) -> Seq<char> {
    if part.len() > 0 && part[0] == '/' {
        part
    } else if base.len() == 0 || base.last() == '/' {
        base + part
    } else {
        base + seq!['/'] + part
    }
}

/// The digit character for `d < 10`.
pub open spec fn digit_char(d: nat) -> char {
    if d == 0 {
        '0'
    } else if d == 1 {
        '1'
    } else if d == 2 {
        '2'
    } else if d == 3 {
        '3'
    } else if d == 4 {
        '4'
    } else if d == 5 {
        '5'
    } else if d == 6 {
        '6'
    } else if d == 7 {
        '7'
    } else if d == 8 {
        '8'
    } else {
        '9'
    }
}

/// The decimal rendering of `n`, without leading zeros.
pub open spec fn decimal(n: nat) -> Seq<char>
    decreases n,
{
    if n < 10 {
        seq![digit_char(n)]
    } else {
        decimal(n / 10).push(digit_char(n % 10))
    }
}

/// The decimal rendering of `n`, with a leading `-` when negative.
pub open spec fn signed_decimal(n: int) -> Seq<char> {
    if n < 0 {
        seq!['-'] + decimal((-n) as nat)
    } else {
        decimal(n as nat)
    }
}

/// `s` with each `\` immediately followed by `n` replaced by a newline,
/// scanning from the left (`str::replace("\\n", "\n")`).
pub open spec fn unescape_newlines(s: Seq<char>) -> Seq<char>
    decreases s.len(),
{
    if s.len() == 0 {
        seq![]
    } else if s.len() >= 2 && s[0] == '\\' && s[1] == 'n' {
        seq!['\n'] + unescape_newlines(s.skip(2))
    } else {
        seq![s[0]] + unescape_newlines(s.skip(1))
    }
}

/// `s` without its leading occurrences of `c`.
pub open spec fn trim_start_char(s: Seq<char>, c: char) -> Seq<char>
    decreases s.len(),
{
    if s.len() > 0 && s[0] == c {
        trim_start_char(s.drop_first(), c)
    } else {
        s
    }
}

/// `s` without its trailing occurrences of `c`.
pub open spec fn trim_end_char(s: Seq<char>, c: char) -> Seq<char>
    decreases s.len(),
{
    if s.len() > 0 && s.last() == c {
        trim_end_char(s.drop_last(), c)
    } else {
        s
    }
}

/// `s` without its leading and trailing occurrences of `c`
/// (`str::trim_matches(c)`).
pub open spec fn trim_char(s: Seq<char>, c: char) -> Seq<char> {
    trim_end_char(trim_start_char(s, c), c)
}

// ---------------------------------------------------------------------------
// Properties of the definitions
// ---------------------------------------------------------------------------

/// Whether `w` holds no whitespace character.
pub open spec fn no_whitespace(w: Seq<char>) -> bool {
    forall|i: int| 0 <= i < w.len() ==> !is_whitespace(#[trigger] w[i])
}

/// Whether every element of `ws` is a non-empty run of non-whitespace
/// characters (as the words of a text are).
pub open spec fn all_words(ws: Seq<Seq<char>>) -> bool {
    forall|i: int| 0 <= i < ws.len() ==> (#[trigger] ws[i]).len() > 0 && no_whitespace(ws[i])
}

/// Scanning for words across a boundary where no word is pending.
pub proof fn lemma_word_scan_append(s: Seq<char>, y: Seq<char>)
    requires
        word_scan(s).1.len() == 0,
    ensures
        word_scan(s + y) == (word_scan(s).0 + word_scan(y).0, word_scan(y).1),
    decreases y.len(),
{
    if y.len() == 0 {
        assert(s + y == s);
        assert(word_scan(s).0 + word_scan(y).0 == word_scan(s).0);
    } else {
        lemma_word_scan_append(s, y.drop_last());
        assert((s + y).drop_last() == s + y.drop_last());
        assert((s + y).last() == y.last());
        let a = word_scan(s).0;
        let p = word_scan(y.drop_last());
        if p.1.len() != 0 {
            assert((a + p.0).push(p.1) == a + p.0.push(p.1));
        }
    }
}

/// A whitespace character separates the words on each side of it.
pub proof fn lemma_words_split(x: Seq<char>, c: char, y: Seq<char>)
    requires
        is_whitespace(c),
    ensures
        words(x + seq![c] + y) == words(x) + words(y),
{
    let xc = x + seq![c];
    assert(xc.drop_last() == x);
    assert(xc.last() == c);
    assert(word_scan(xc) == (words(x), Seq::<char>::empty()));
    lemma_word_scan_append(xc, y);
    let b = word_scan(y);
    if b.1.len() != 0 {
        assert((words(x) + b.0).push(b.1) == words(x) + b.0.push(b.1));
    }
}

/// Scanning a text without whitespace leaves it all pending.
proof fn lemma_word_scan_plain(w: Seq<char>)
    requires
        no_whitespace(w),
    ensures
        word_scan(w) == (Seq::<Seq<char>>::empty(), w),
    decreases w.len(),
{
    if w.len() > 0 {
        assert(no_whitespace(w.drop_last()));
        lemma_word_scan_plain(w.drop_last());
        assert(w.drop_last().push(w.last()) == w);
    }
}

/// A non-empty text without whitespace is a single word.
pub proof fn lemma_words_single(w: Seq<char>)
    requires
        w.len() > 0,
        no_whitespace(w),
    ensures
        words(w) == seq![w],
{
    lemma_word_scan_plain(w);
}

/// Words joined by single spaces split back into the same words.
pub proof fn lemma_words_join(ws: Seq<Seq<char>>)
    requires
        all_words(ws),
    ensures
        words(join(ws, seq![' '])) == ws,
    decreases ws.len(),
{
    if ws.len() == 0 {
        assert(words(Seq::<char>::empty()) =~= ws);
    } else if ws.len() == 1 {
        lemma_words_single(ws[0]);
        assert(seq![ws[0]] =~= ws);
    } else {
        let dl = ws.drop_last();
        assert(all_words(dl));
        lemma_words_join(dl);
        assert(ws[ws.len() - 1] == ws.last());
        lemma_words_single(ws.last());
        lemma_words_split(join(dl, seq![' ']), ' ', ws.last());
        assert(join(dl, seq![' ']) + seq![' '] + ws.last() == join(ws, seq![' ']));
        assert(dl + seq![ws.last()] =~= ws);
    }
}

/// What a word scan holds: closed words, and a pending run, all free of
/// whitespace.
proof fn lemma_word_scan_words(s: Seq<char>)
    ensures
        all_words(word_scan(s).0),
        no_whitespace(word_scan(s).1),
    decreases s.len(),
{
    if s.len() > 0 {
        lemma_word_scan_words(s.drop_last());
        let p = word_scan(s.drop_last());
        if !is_whitespace(s.last()) {
            assert(no_whitespace(p.1.push(s.last())));
        } else if p.1.len() > 0 {
            assert(all_words(p.0.push(p.1)));
        }
    }
}

/// The words of a text are non-empty and free of whitespace.
pub proof fn lemma_words_are_words(s: Seq<char>)
    ensures
        all_words(words(s)),
{
    lemma_word_scan_words(s);
    let p = word_scan(s);
    if p.1.len() > 0 {
        assert(all_words(p.0.push(p.1)));
    }
}

/// Words joined without separator hold no whitespace.
pub proof fn lemma_join_no_whitespace(ws: Seq<Seq<char>>, sep: Seq<char>)
    requires
        all_words(ws),
        no_whitespace(sep),
    ensures
        no_whitespace(join(ws, sep)),
    decreases ws.len(),
{
    if ws.len() > 1 {
        let dl = ws.drop_last();
        assert(all_words(dl));
        lemma_join_no_whitespace(dl, sep);
        assert(ws[ws.len() - 1] == ws.last());
        let j = join(dl, sep) + sep + ws.last();
        assert forall|i: int| 0 <= i < j.len() implies !is_whitespace(#[trigger] j[i]) by {
            if i < join(dl, sep).len() {
                assert(j[i] == join(dl, sep)[i]);
            } else if i < join(dl, sep).len() + sep.len() {
                assert(j[i] == sep[i - join(dl, sep).len()]);
            } else {
                assert(j[i] == ws.last()[i - join(dl, sep).len() - sep.len()]);
            }
        }
    } else if ws.len() == 1 {
        assert(ws[0].len() > 0);
    }
}

/// Words joined with a separator free of a whitespace character `ch` do
/// not hold `ch`.
pub proof fn lemma_join_avoids(ws: Seq<Seq<char>>, sep: Seq<char>, ch: char)
    requires
        is_whitespace(ch),
        all_words(ws),
        !sep.contains(ch),
    ensures
        !join(ws, sep).contains(ch),
    decreases ws.len(),
{
    if ws.len() > 1 {
        let dl = ws.drop_last();
        assert(all_words(dl));
        lemma_join_avoids(dl, sep, ch);
        assert(ws[ws.len() - 1] == ws.last());
        let j = join(dl, sep) + sep + ws.last();
        if j.contains(ch) {
            let i = choose|i: int| 0 <= i < j.len() && j[i] == ch;
            if i < join(dl, sep).len() {
                assert(j[i] == join(dl, sep)[i]);
            } else if i < join(dl, sep).len() + sep.len() {
                assert(j[i] == sep[i - join(dl, sep).len()]);
            } else {
                assert(j[i] == ws.last()[i - join(dl, sep).len() - sep.len()]);
                assert(!is_whitespace(ws.last()[i - join(dl, sep).len() - sep.len()]));
            }
        }
    } else if ws.len() == 1 {
        if ws[0].contains(ch) {
            let i = choose|i: int| 0 <= i < ws[0].len() && ws[0][i] == ch;
            assert(!is_whitespace(ws[0][i]));
        }
    }
}

/// Scanning for lines across a boundary where no line is pending.
pub proof fn lemma_line_scan_append(s: Seq<char>, y: Seq<char>)
    requires
        line_scan(s).1.len() == 0,
    ensures
        line_scan(s + y) == (line_scan(s).0 + line_scan(y).0, line_scan(y).1),
    decreases y.len(),
{
    if y.len() == 0 {
        assert(s + y == s);
        assert(line_scan(s).0 + line_scan(y).0 == line_scan(s).0);
    } else {
        lemma_line_scan_append(s, y.drop_last());
        assert((s + y).drop_last() == s + y.drop_last());
        assert((s + y).last() == y.last());
        let a = line_scan(s).0;
        let p = line_scan(y.drop_last());
        assert((a + p.0).push(strip_cr(p.1)) == a + p.0.push(strip_cr(p.1)));
    }
}

/// Whether `s` is empty or ends with a newline (a whole number of lines).
pub open spec fn ends_lines(s: Seq<char>) -> bool {
    s.len() == 0 || s.last() == '\n'
}

/// Nothing is pending after a whole number of lines.
proof fn lemma_line_scan_whole(s: Seq<char>)
    requires
        ends_lines(s),
    ensures
        line_scan(s).1.len() == 0,
        lines(s) == line_scan(s).0,
{
}

/// The lines of a text made of whole lines followed by more text.
pub proof fn lemma_lines_append(a: Seq<char>, b: Seq<char>)
    requires
        ends_lines(a),
    ensures
        lines(a + b) == lines(a) + lines(b),
{
    lemma_line_scan_whole(a);
    lemma_line_scan_append(a, b);
    let q = line_scan(b);
    if q.1.len() > 0 {
        assert((line_scan(a).0 + q.0).push(q.1) == line_scan(a).0 + q.0.push(q.1));
    }
}

/// Scanning a text without newlines leaves it all pending.
proof fn lemma_line_scan_plain(l: Seq<char>)
    requires
        !l.contains('\n'),
    ensures
        line_scan(l) == (Seq::<Seq<char>>::empty(), l),
    decreases l.len(),
{
    if l.len() > 0 {
        assert(!l.drop_last().contains('\n')) by {
            if l.drop_last().contains('\n') {
                let k = choose|k: int| 0 <= k < l.drop_last().len() && l.drop_last()[k] == '\n';
                assert(l[k] == '\n');
            }
        }
        lemma_line_scan_plain(l.drop_last());
        assert(l[l.len() - 1] != '\n');
        assert(l.drop_last().push(l.last()) == l);
    }
}

/// A text without newlines, followed by a newline, is one line.
pub proof fn lemma_lines_single(l: Seq<char>)
    requires
        !l.contains('\n'),
    ensures
        lines(l.push('\n')) == seq![strip_cr(l)],
{
    lemma_line_scan_plain(l);
    assert(l.push('\n').drop_last() == l);
}

/// Whether `p` is a relative path (it does not start with `/`).
pub open spec fn is_relative(p: Seq<char>) -> bool {
    p.len() == 0 || p[0] != '/'
}

/// The prefix that joining onto `base` puts before a relative part.
pub open spec fn join_prefix(base: Seq<char>) -> Seq<char> {
    if base.len() == 0 || base.last() == '/' {
        base
    } else {
        base + seq!['/']
    }
}

/// Joining a relative part puts the same prefix before it.
pub proof fn lemma_path_join_relative(base: Seq<char>, part: Seq<char>)
    requires
        is_relative(part),
    ensures
        path_join(base, part) == join_prefix(base) + part,
{
    if !(base.len() == 0 || base.last() == '/') {
        assert(base + seq!['/'] + part == (base + seq!['/']) + part);
    }
}

/// Joining different relative parts onto one base gives different paths.
pub proof fn lemma_path_join_injective(base: Seq<char>, a: Seq<char>, b: Seq<char>)
    requires
        is_relative(a),
        is_relative(b),
        a != b,
    ensures
        path_join(base, a) != path_join(base, b),
{
    lemma_path_join_relative(base, a);
    lemma_path_join_relative(base, b);
    let pre = join_prefix(base);
    if pre + a == pre + b {
        assert((pre + a).skip(pre.len() as int) == a);
        assert((pre + b).skip(pre.len() as int) == b);
    }
}

/// The result of a string computation, as text.
pub open spec fn text_result(r: Result<String, String>) -> Result<Seq<char>, Seq<char>> {
    match r {
        Ok(s) => Ok(s@),
        Err(e) => Err(e@),
    }
}

/// `path_join` applied to a successful result.
pub open spec fn join_result(r: Result<Seq<char>, Seq<char>>, part: Seq<char>) -> Result<
    Seq<char>,
    Seq<char>,
> {
    match r {
        Ok(p) => Ok(path_join(p, part)),
        Err(e) => Err(e),
    }
}

/// The `Debug` rendering of a string: quoted, with quotes, backslashes,
/// control and other non-printable characters escaped as Rust escapes them.
pub uninterp spec fn debug_string(s: Seq<char>) -> Seq<char>;

/// The `Debug` rendering of a list of strings: `[` the items' renderings
/// separated by `, ` then `]`.
pub open spec fn debug_list(items: Seq<Seq<char>>) -> Seq<char> {
    "["@ + join(items.map_values(|s: Seq<char>| debug_string(s)), ", "@) + "]"@
}

/// A decimal rendering has one digit below ten, more from ten on.
proof fn lemma_decimal_len(n: nat)
    ensures
        decimal(n).len() >= 1,
        decimal(n).len() == 1 <==> n < 10,
    decreases n,
{
    if n >= 10 {
        lemma_decimal_len(n / 10);
    }
}

/// Different numbers have different decimal renderings.
pub proof fn lemma_decimal_injective(a: nat, b: nat)
    requires
        decimal(a) == decimal(b),
    ensures
        a == b,
    decreases a,
{
    lemma_decimal_len(a);
    lemma_decimal_len(b);
    if a >= 10 && b >= 10 {
        assert(decimal(a).last() == digit_char(a % 10));
        assert(decimal(b).last() == digit_char(b % 10));
        assert(decimal(a).drop_last() == decimal(a / 10));
        assert(decimal(b).drop_last() == decimal(b / 10));
        lemma_decimal_injective(a / 10, b / 10);
    } else if a < 10 && b < 10 {
        assert(decimal(a)[0] == digit_char(a));
        assert(decimal(b)[0] == digit_char(b));
    }
}

/// Whether `s` never holds `x` immediately followed by `y`.
pub open spec fn no_pair(s: Seq<char>, x: char, y: char) -> bool {
    forall|k: int| 0 <= k && k + 1 < s.len() ==> !(#[trigger] s[k] == x && s[k + 1] == y)
}

/// Text without backslashes is left as it is by unescaping.
pub proof fn lemma_unescape_plain(s: Seq<char>)
    requires
        !s.contains('\\'),
    ensures
        unescape_newlines(s) == s,
    decreases s.len(),
{
    if s.len() > 0 {
        assert(s[0] != '\\');
        let rest = s.skip(1);
        assert(!rest.contains('\\')) by {
            if rest.contains('\\') {
                let k = choose|k: int| 0 <= k < rest.len() && rest[k] == '\\';
                assert(s[k + 1] == '\\');
            }
        }
        lemma_unescape_plain(rest);
        assert(seq![s[0]] + rest =~= s);
    }
}

/// Unescaping text that does not end in a backslash, followed by more
/// text, unescapes each part on its own.
pub proof fn lemma_unescape_append(a: Seq<char>, b: Seq<char>)
    requires
        a.len() == 0 || a.last() != '\\',
    ensures
        unescape_newlines(a + b) == unescape_newlines(a) + unescape_newlines(b),
    decreases a.len(),
{
    if a.len() == 0 {
        assert(a + b =~= b);
        assert(unescape_newlines(a) =~= Seq::<char>::empty());
        assert(Seq::<char>::empty() + unescape_newlines(b) =~= unescape_newlines(b));
    } else {
        let ab = a + b;
        if a.len() >= 2 && a[0] == '\\' && a[1] == 'n' {
            assert(ab[0] == '\\' && ab[1] == 'n');
            let rest = a.skip(2);
            assert(ab.skip(2) =~= rest + b);
            if rest.len() > 0 {
                assert(rest.last() == a.last());
            }
            lemma_unescape_append(rest, b);
            assert(seq!['\n'] + (unescape_newlines(rest) + unescape_newlines(b)) =~= (seq!['\n']
                + unescape_newlines(rest)) + unescape_newlines(b));
        } else {
            if a.len() == 1 {
                assert(a[0] != '\\');
                assert(!(ab.len() >= 2 && ab[0] == '\\' && ab[1] == 'n'));
            } else {
                assert(ab[0] == a[0] && ab[1] == a[1]);
            }
            let rest = a.skip(1);
            assert(ab.skip(1) =~= rest + b);
            if rest.len() > 0 {
                assert(rest.last() == a.last());
            }
            lemma_unescape_append(rest, b);
            assert(seq![a[0]] + (unescape_newlines(rest) + unescape_newlines(b)) =~= (seq![a[0]]
                + unescape_newlines(rest)) + unescape_newlines(b));
        }
    }
}

/// Unescaping starts with the first character when it is no backslash.
proof fn lemma_unescape_first(s: Seq<char>)
    requires
        s.len() > 0,
        s[0] != '\\',
    ensures
        unescape_newlines(s).len() > 0,
        unescape_newlines(s)[0] == s[0],
{
}

/// Where no backslash is doubled, unescaping leaves no `\n` escape behind:
/// every one is turned into a newline.
pub proof fn lemma_unescape_complete(s: Seq<char>)
    requires
        no_pair(s, '\\', '\\'),
    ensures
        no_pair(unescape_newlines(s), '\\', 'n'),
    decreases s.len(),
{
    if s.len() > 0 {
        let out = unescape_newlines(s);
        if s.len() >= 2 && s[0] == '\\' && s[1] == 'n' {
            let rest = s.skip(2);
            assert(no_pair(rest, '\\', '\\')) by {
                assert forall|k: int| 0 <= k && k + 1 < rest.len() implies !(#[trigger] rest[k]
                    == '\\' && rest[k + 1] == '\\') by {
                    assert(rest[k] == s[k + 2] && rest[k + 1] == s[k + 3]);
                }
            }
            lemma_unescape_complete(rest);
            let u = unescape_newlines(rest);
            assert(out == seq!['\n'] + u);
            assert forall|k: int| 0 <= k && k + 1 < out.len() implies !(#[trigger] out[k] == '\\'
                && out[k + 1] == 'n') by {
                if k > 0 {
                    assert(out[k] == u[k - 1] && out[k + 1] == u[k]);
                }
            }
        } else {
            let rest = s.skip(1);
            assert(no_pair(rest, '\\', '\\')) by {
                assert forall|k: int| 0 <= k && k + 1 < rest.len() implies !(#[trigger] rest[k]
                    == '\\' && rest[k + 1] == '\\') by {
                    assert(rest[k] == s[k + 1] && rest[k + 1] == s[k + 2]);
                }
            }
            lemma_unescape_complete(rest);
            let u = unescape_newlines(rest);
            assert(out == seq![s[0]] + u);
            if s[0] == '\\' && rest.len() > 0 {
                assert(rest[0] == s[1]);
                assert(s[1] != '\\');
                assert(s[1] != 'n');
                lemma_unescape_first(rest);
            }
            assert forall|k: int| 0 <= k && k + 1 < out.len() implies !(#[trigger] out[k] == '\\'
                && out[k + 1] == 'n') by {
                if k > 0 {
                    assert(out[k] == u[k - 1] && out[k + 1] == u[k]);
                } else {
                    assert(out[1] == u[0]);
                }
            }
        }
    }
}

/// Unescaping `\n` gives a newline.
pub proof fn lemma_unescape_escape()
    ensures
        unescape_newlines(seq!['\\', 'n']) == seq!['\n'],
{
    let s = seq!['\\', 'n'];
    assert(s.len() == 2 && s[0] == '\\' && s[1] == 'n');
    assert(s.skip(2) =~= Seq::<char>::empty());
    assert(unescape_newlines(Seq::<char>::empty()) =~= Seq::<char>::empty());
    assert(unescape_newlines(s) == seq!['\n'] + unescape_newlines(s.skip(2)));
    assert(seq!['\n'] + Seq::<char>::empty() =~= seq!['\n']);
}

// ---------------------------------------------------------------------------
// Executable text operations
// ---------------------------------------------------------------------------

/// The characters of `s`, in order.
pub fn chars_of(s: &str) -> (v: Vec<char>)
    ensures
        v@ == s@,
{
    let mut v: Vec<char> = Vec::new();
    for c in it: s.chars()
        invariant
            v@ == it.seq().take(it.index() as int),
            it.seq() == s@,
    {
        v.push(c);
    }
    v
}

/// Appends `c` to `s` (`String::push`).
#[verifier::external_body]
fn string_push(s: &mut String, c: char)
    ensures
        final(s)@ == old(s)@.push(c),
{
    s.push(c);
}

/// The string whose characters are `v`.
pub fn string_of(v: &[char]) -> (s: String)
    ensures
        s@ == v@,
{
    let mut s = String::new();
    for i in 0..v.len()
        invariant
            s@ == v@.take(i as int),
    {
        string_push(&mut s, v[i]);
        assert(v@.take(i + 1) == v@.take(i as int).push(v@[i as int]));
    }
    assert(v@.take(v.len() as int) == v@);
    s
}

/// Whether `c` is whitespace (`char::is_whitespace`).
pub fn is_whitespace_char(c: char) -> (b: bool)
    ensures
        b == is_whitespace(c),
{
    let u: u32 = c as u32;
    c == '\t' || c == '\n' || c == '\u{0B}' || c == '\u{0C}' || c == '\r' || c == ' ' || c
        == '\u{85}' || c == '\u{A0}' || c == '\u{1680}' || (0x2000 <= u && u <= 0x200A) || c
        == '\u{2028}' || c == '\u{2029}' || c == '\u{202F}' || c == '\u{205F}' || c == '\u{3000}'
}

/// Whether `a` and `b` hold the same characters.
pub fn text_eq(a: &str, b: &str) -> (r: bool)
    ensures
        r == (a@ == b@),
{
    let x = chars_of(a);
    let y = chars_of(b);
    if x.len() != y.len() {
        return false;
    }
    for i in 0..x.len()
        invariant
            x@ == a@,
            y@ == b@,
            x.len() == y.len(),
            forall|j: int| 0 <= j < i ==> x@[j] == y@[j],
    {
        if x[i] != y[i] {
            return false;
        }
    }
    assert(x@ =~= y@);
    true
}


/// The whitespace-separated words of `s` (`str::split_whitespace`).
pub fn split_whitespace(s: &str) -> (ws: Vec<String>)
    ensures
        views(ws@) == words(s@),
{
    let v = chars_of(s);
    let mut done: Vec<String> = Vec::new();
    let mut cur: Vec<char> = Vec::new();
    for i in 0..v.len()
        invariant
            v@ == s@,
            (views(done@), cur@) == word_scan(s@.take(i as int)),
    {
        let c = v[i];
        proof {
            assert(s@.take(i + 1).drop_last() == s@.take(i as int));
            assert(s@.take(i + 1).last() == c);
        }
        if is_whitespace_char(c) {
            if cur.len() > 0 {
                let ghost prev = done@;
                let w = string_of(cur.as_slice());
                done.push(w);
                assert(views(done@) =~= views(prev).push(cur@));
            }
            cur = Vec::new();
        } else {
            cur.push(c);
        }
    }
    proof {
        assert(s@.take(v.len() as int) == s@);
    }
    if cur.len() > 0 {
        let ghost prev = done@;
        let w = string_of(cur.as_slice());
        done.push(w);
        assert(views(done@) =~= views(prev).push(cur@));
    }
    done
}


/// The lines of `s` (see [`lines`]).
pub fn split_lines(s: &str) -> (ls: Vec<String>)
    ensures
        views(ls@) == lines(s@),
{
    let v = chars_of(s);
    let mut done: Vec<String> = Vec::new();
    let mut cur: Vec<char> = Vec::new();
    for i in 0..v.len()
        invariant
            v@ == s@,
            (views(done@), cur@) == line_scan(s@.take(i as int)),
    {
        let c = v[i];
        proof {
            assert(s@.take(i + 1).drop_last() == s@.take(i as int));
            assert(s@.take(i + 1).last() == c);
        }
        if c == '\n' {
            let ghost prev = done@;
            if cur.len() > 0 && cur[cur.len() - 1] == '\r' {
                cur.pop();
            }
            let w = string_of(cur.as_slice());
            done.push(w);
            assert(views(done@) =~= views(prev).push(w@));
            cur = Vec::new();
        } else {
            cur.push(c);
        }
    }
    proof {
        assert(s@.take(v.len() as int) == s@);
    }
    if cur.len() > 0 {
        let ghost prev = done@;
        let w = string_of(cur.as_slice());
        done.push(w);
        assert(views(done@) =~= views(prev).push(cur@));
    }
    done
}

/// `parts` joined with `sep` between neighbours (`[String]::join`).
pub fn join_strings(parts: &[String], sep: &str) -> (r: String)
    ensures
        r@ == join(views(parts@), sep@),
{
    let mut r = String::new();
    for i in 0..parts.len()
        invariant
            r@ == join(views(parts@.take(i as int)), sep@),
    {
        proof {
            assert(views(parts@.take(i + 1)).drop_last() =~= views(parts@.take(i as int)));
            assert(views(parts@.take(i + 1)).last() == parts@[i as int]@);
        }
        if i > 0 {
            r.append(sep);
        } else {
            assert(views(parts@.take(1)) =~= seq![parts@[0]@]);
        }
        r.append(parts[i].as_str());
    }
    assert(parts@.take(parts.len() as int) == parts@);
    r
}

/// `Path::new(base).join(part)` on Unix, as text (see [`path_join`]).
pub fn join_path(base: &str, part: &str) -> (r: String)
    ensures
        r@ == path_join(base@, part@),
{
    let b = chars_of(base);
    let p = chars_of(part);
    if p.len() > 0 && p[0] == '/' {
        return String::from_str(part);
    }
    let mut r = String::from_str(base);
    if !(b.len() == 0 || b[b.len() - 1] == '/') {
        r.append("/");
        proof {
            reveal_strlit("/");
        }
    }
    r.append(part);
    r
}

/// The digit character for `d`.
fn digit(d: u64) -> (c: char)
    requires
        d < 10,
    ensures
        c == digit_char(d as nat),
{
    if d == 0 {
        '0'
    } else if d == 1 {
        '1'
    } else if d == 2 {
        '2'
    } else if d == 3 {
        '3'
    } else if d == 4 {
        '4'
    } else if d == 5 {
        '5'
    } else if d == 6 {
        '6'
    } else if d == 7 {
        '7'
    } else if d == 8 {
        '8'
    } else {
        '9'
    }
}

/// The decimal rendering of `n` (`u64::to_string`).
pub fn decimal_string(n: u64) -> (r: String)
    ensures
        r@ == decimal(n as nat),
{
    // Digits from least significant to most significant.
    let mut rev: Vec<char> = Vec::new();
    let mut m: u64 = n;
    loop
        invariant_except_break
            decimal(n as nat) == decimal(m as nat) + rev@.reverse(),
        ensures
            decimal(n as nat) == rev@.reverse(),
        decreases m,
    {
        if m < 10 {
            let ghost old_rev = rev@;
            rev.push(digit(m));
            assert(rev@.reverse() =~= seq![digit_char(m as nat)] + old_rev.reverse());
            assert(decimal(m as nat) == seq![digit_char(m as nat)]);
            break;
        }
        let d: u64 = m % 10;
        let ghost old_rev = rev@;
        rev.push(digit(d));
        assert(rev@.reverse() =~= seq![digit_char(d as nat)] + old_rev.reverse());
        assert(decimal(m as nat) == decimal((m / 10) as nat).push(digit_char((m % 10) as nat)));
        m = m / 10;
    }
    let mut out: Vec<char> = Vec::new();
    let len: usize = rev.len();
    for i in 0..len
        invariant
            len == rev.len(),
            out@ == rev@.reverse().take(i as int),
    {
        out.push(rev[len - 1 - i]);
        assert(out@ =~= rev@.reverse().take(i + 1));
    }
    assert(out@ =~= rev@.reverse());
    string_of(out.as_slice())
}


/// The decimal rendering of `n` with its sign (`i32::to_string`).
pub fn signed_decimal_string(n: i32) -> (r: String)
    ensures
        r@ == signed_decimal(n as int),
{
    if n < 0 {
        let m: i64 = -(n as i64);
        let digits = decimal_string(m as u64);
        let mut r = String::from_str("-");
        proof {
            reveal_strlit("-");
        }
        r.append(digits.as_str());
        r
    } else {
        decimal_string(n as u64)
    }
}

/// `s` with every `\n` escape turned into a newline (`str::replace("\\n", "\n")`).
pub fn unescape_newlines_string(s: &str) -> (r: String)
    ensures
        r@ == unescape_newlines(s@),
{
    let v = chars_of(s);
    let mut out: Vec<char> = Vec::new();
    let mut i: usize = 0;
    assert(s@.skip(0) =~= s@);
    assert(out@ + unescape_newlines(s@) =~= unescape_newlines(s@));
    while i < v.len()
        invariant
            v@ == s@,
            i <= v.len(),
            unescape_newlines(s@) == out@ + unescape_newlines(s@.skip(i as int)),
        decreases v.len() - i,
    {
        let ghost rest = s@.skip(i as int);
        if v[i] == '\\' && i + 1 < v.len() && v[i + 1] == 'n' {
            assert(rest[0] == '\\' && rest[1] == 'n');
            assert(rest.skip(2) =~= s@.skip(i + 2));
            out.push('\n');
            i = i + 2;
        } else {
            assert(rest[0] == v@[i as int]);
            assert(rest.skip(1) =~= s@.skip(i + 1));
            out.push(v[i]);
            i = i + 1;
        }
    }
    assert(s@.skip(i as int) =~= Seq::<char>::empty());
    assert(out@ + Seq::<char>::empty() =~= out@);
    string_of(out.as_slice())
}


/// The `Debug` rendering of `s` (`format!("{:?}", s)`); what that is, is
/// named by [`debug_string`] and not spelled out.
#[verifier::external_body]
pub(crate) fn debug_text(s: &str) -> (r: String)
    ensures
        r@ == debug_string(s@),
{
    format!("{:?}", s)
}

/// The `Debug` rendering of a list of strings (`format!("{:?}", items)`).
pub fn debug_list_string(items: &[String]) -> (r: String)
    ensures
        r@ == debug_list(views(items@)),
{
    let mut rendered: Vec<String> = Vec::new();
    for i in 0..items.len()
        invariant
            rendered.len() == i,
            views(rendered@) == views(items@).take(i as int).map_values(
                |s: Seq<char>| debug_string(s),
            ),
    {
        let ghost prev = rendered@;
        rendered.push(debug_text(items[i].as_str()));
        let ghost target = views(items@).take(i + 1).map_values(|s: Seq<char>| debug_string(s));
        assert forall|j: int| 0 <= j < i + 1 implies views(rendered@)[j] == target[j] by {
            if j < i {
                assert(rendered@[j] == prev[j]);
                assert(views(prev)[j] == views(items@).take(i as int).map_values(
                    |s: Seq<char>| debug_string(s),
                )[j]);
            }
        }
        assert(views(rendered@) =~= views(items@).take(i + 1).map_values(
            |s: Seq<char>| debug_string(s),
        ));
    }
    assert(views(items@).take(items.len() as int) == views(items@));
    let mut r = String::from_str("[");
    let inner = join_strings(rendered.as_slice(), ", ");
    r.append(inner.as_str());
    r.append("]");
    r
}


/// `s` without its leading and trailing occurrences of `c`
/// (`str::trim_matches(c)`).
pub fn trim_matches_char(s: &str, c: char) -> (r: String)
    ensures
        r@ == trim_char(s@, c),
{
    let v = chars_of(s);
    let mut i: usize = 0;
    assert(s@.skip(0) =~= s@);
    while i < v.len() && v[i] == c
        invariant
            v@ == s@,
            i <= v.len(),
            trim_start_char(s@, c) == trim_start_char(s@.skip(i as int), c),
        decreases v.len() - i,
    {
        assert(s@.skip(i as int).drop_first() =~= s@.skip(i + 1));
        i = i + 1;
    }
    let ghost start = s@.skip(i as int);
    assert(trim_start_char(s@, c) == start);
    let mut j: usize = v.len();
    assert(s@.subrange(i as int, j as int) =~= start);
    while j > i && v[j - 1] == c
        invariant
            v@ == s@,
            i <= j <= v.len(),
            start == s@.skip(i as int),
            trim_char(s@, c) == trim_end_char(s@.subrange(i as int, j as int), c),
        decreases j,
    {
        assert(s@.subrange(i as int, j as int).drop_last() =~= s@.subrange(i as int, j - 1));
        j = j - 1;
    }
    let mut out: Vec<char> = Vec::new();
    let mut k: usize = i;
    while k < j
        invariant
            v@ == s@,
            i <= k <= j <= v.len(),
            out@ == s@.subrange(i as int, k as int),
        decreases j - k,
    {
        out.push(v[k]);
        assert(out@ =~= s@.subrange(i as int, k + 1));
        k = k + 1;
    }
    string_of(out.as_slice())
}

} // verus!
