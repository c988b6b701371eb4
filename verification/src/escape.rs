//! The two output encodings: escaping for the markup dialect and for the
//! lightweight-markup dialect, and the collapsible block quote of the latter.

use crate::text::{chars_of, string_of, extend_chars};
use vstd::prelude::*;

verus! {

/// What one character becomes in the markup dialect.
pub open spec fn html_escape_char(c: char) -> Seq<char> {
    if c == '<' {
        seq!['&', 'l', 't', ';']
    } else if c == '>' {
        seq!['&', 'g', 't', ';']
    } else if c == '&' {
        seq!['&', 'a', 'm', 'p', ';']
    } else if c == '"' {
        seq!['&', 'q', 'u', 'o', 't', ';']
    } else {
        seq![c]
    }
}

/// `s` with each character replaced by its markup-dialect form.
pub open spec fn html_escaped(s: Seq<char>) -> Seq<char>
    decreases s.len(),
{
    if s.len() == 0 {
        Seq::empty()
    } else {
        html_escaped(s.drop_last()) + html_escape_char(s.last())
    }
}

/// The characters that the lightweight-markup dialect reserves.
pub open spec fn is_markdown_reserved(c: char) -> bool {
    ||| c == '('
    ||| c == ')'
    ||| c == '['
    ||| c == ']'
    ||| c == '{'
    ||| c == '}'
    ||| c == '<'
    ||| c == '>'
    ||| c == '`'
    ||| c == '#'
    ||| c == '+'
    ||| c == '-'
    ||| c == '='
    ||| c == '|'
    ||| c == '.'
    ||| c == '!'
    ||| c == '*'
    ||| c == '_'
    ||| c == '\\'
}

/// What one character becomes in the lightweight-markup dialect: a reserved
/// character gets a backslash in front, any other stays.
pub open spec fn markdown_escape_char(c: char) -> Seq<char> {
    if is_markdown_reserved(c) {
        seq!['\\', c]
    } else {
        seq![c]
    }
}

/// `s` with each character replaced by its lightweight-markup form.
pub open spec fn markdown_escaped(s: Seq<char>) -> Seq<char>
    decreases s.len(),
{
    if s.len() == 0 {
        Seq::empty()
    } else {
        markdown_escaped(s.drop_last()) + markdown_escape_char(s.last())
    }
}

/// The pieces of `s` between its line feeds: one more than there are line
/// feeds, the last being what follows the last line feed.
pub open spec fn segments(s: Seq<char>) -> Seq<Seq<char>>
    decreases s.len(),
{
    if s.len() == 0 {
        seq![Seq::empty()]
    } else {
        let before = segments(s.drop_last());
        if s.last() == '\n' {
            before.push(Seq::empty())
        } else {
            before.update(before.len() - 1, before.last().push(s.last()))
        }
    }
}

/// `s` without one trailing carriage return.
pub open spec fn strip_cr(s: Seq<char>) -> Seq<char> {
    if s.len() > 0 && s.last() == '\r' {
        s.drop_last()
    } else {
        s
    }
}

/// The lines of `s` as `str::lines` gives them: each piece that a line feed
/// ends, without the carriage return that may stand before the line feed,
/// then what follows the last line feed unless that is empty.
pub open spec fn lines(s: Seq<char>) -> Seq<Seq<char>> {
    let segs = segments(s);
    let ended = Seq::new((segs.len() - 1) as nat, |i: int| strip_cr(segs[i]));
    if segs.last().len() == 0 {
        ended
    } else {
        ended.push(segs.last())
    }
}

/// The views of a vector of lines.
pub open spec fn views(v: Seq<Vec<char>>) -> Seq<Seq<char>> {
    Seq::new(v.len(), |i: int| v[i]@)
}

/// The marker that opens a quoted line.
pub open spec fn quote_marker() -> Seq<char> {
    seq!['>', ' ']
}

/// The marker that opens the first quoted line.
pub open spec fn first_quote_marker() -> Seq<char> {
    seq!['*', '*', '>', ' ']
}

/// The marker that closes the quote.
pub open spec fn closing_marker() -> Seq<char> {
    seq!['|', '|']
}

/// Line number `index` of a quote: its marker, then the escaped line.
pub open spec fn quote_line(index: int, line: Seq<char>) -> Seq<char> {
    (if index == 0 {
        first_quote_marker()
    } else {
        quote_marker()
    }) + markdown_escaped(line)
}

/// Every line of `ls` as a quote line.
pub open spec fn quoted(ls: Seq<Seq<char>>) -> Seq<Seq<char>> {
    Seq::new(ls.len(), |i: int| quote_line(i, ls[i]))
}

/// `r` with an empty quote line after its third line, if it has more than
/// three lines.
pub open spec fn with_fold_marker(r: Seq<Seq<char>>) -> Seq<Seq<char>> {
    if r.len() > 3 {
        r.insert(3, quote_marker())
    } else {
        r
    }
}

/// `r` with the closing marker at the end of its last line, if it has a line.
pub open spec fn with_closing(r: Seq<Seq<char>>) -> Seq<Seq<char>> {
    if r.len() > 0 {
        r.update(r.len() - 1, r.last() + closing_marker())
    } else {
        r
    }
}

/// The lines of `r` with a line feed between each two.
pub open spec fn joined(r: Seq<Seq<char>>) -> Seq<char>
    decreases r.len(),
{
    if r.len() == 0 {
        Seq::empty()
    } else if r.len() == 1 {
        r[0]
    } else {
        joined(r.drop_last()) + seq!['\n'] + r.last()
    }
}

/// The rendered lines of the collapsible quote of `text`.
pub open spec fn quote_lines(text: Seq<char>) -> Seq<Seq<char>> {
    with_closing(with_fold_marker(quoted(lines(text))))
}

/// The collapsible quote of `text`.
pub open spec fn expandable_quote(text: Seq<char>) -> Seq<char> {
    joined(quote_lines(text))
}

/// Escapes the characters of `v` for the markup dialect.
pub fn html_escape_chars(v: &Vec<char>) -> (out: Vec<char>)
    ensures
        out@ == html_escaped(v@),
{
    let mut out: Vec<char> = Vec::new();
    let mut i: usize = 0;
    while i < v.len()
        invariant
            i <= v.len(),
            out@ == html_escaped(v@.take(i as int)),
        decreases v.len() - i,
    {
        let c = v[i];
        let ghost before = out@;
        if c == '<' {
            out.push('&');
            out.push('l');
            out.push('t');
            out.push(';');
        } else if c == '>' {
            out.push('&');
            out.push('g');
            out.push('t');
            out.push(';');
        } else if c == '&' {
            out.push('&');
            out.push('a');
            out.push('m');
            out.push('p');
            out.push(';');
        } else if c == '"' {
            out.push('&');
            out.push('q');
            out.push('u');
            out.push('o');
            out.push('t');
            out.push(';');
        } else {
            out.push(c);
        }
        proof {
            assert(out@ =~= before + html_escape_char(c));
            assert(v@.take(i + 1).drop_last() == v@.take(i as int));
        }
        i += 1;
    }
    assert(v@.take(v.len() as int) == v@);
    out
}

/// Escapes `text` for the markup dialect: `<`, `>`, `&` and `"` become
/// entities, every other character stays.
pub fn html_escape(text: &str) -> (out: String)
    ensures
        out@ == html_escaped(text@),
{
    let v = chars_of(text);
    let e = html_escape_chars(&v);
    string_of(&e)
}

/// Tells whether the lightweight-markup dialect reserves `c`.
pub fn char_is_markdown_reserved(c: char) -> (r: bool)
    ensures
        r == is_markdown_reserved(c),
{
    c == '(' || c == ')' || c == '[' || c == ']' || c == '{' || c == '}' || c == '<' || c == '>'
        || c == '`' || c == '#' || c == '+' || c == '-' || c == '=' || c == '|' || c == '.' || c
        == '!' || c == '*' || c == '_' || c == '\\'
}

/// Escapes the characters of `v` for the lightweight-markup dialect.
pub fn escape_markdown_chars(v: &Vec<char>) -> (out: Vec<char>)
    ensures
        out@ == markdown_escaped(v@),
{
    let mut out: Vec<char> = Vec::new();
    let mut i: usize = 0;
    while i < v.len()
        invariant
            i <= v.len(),
            out@ == markdown_escaped(v@.take(i as int)),
        decreases v.len() - i,
    {
        let c = v[i];
        let ghost before = out@;
        if char_is_markdown_reserved(c) {
            out.push('\\');
        }
        out.push(c);
        proof {
            assert(out@ =~= before + markdown_escape_char(c));
            assert(v@.take(i + 1).drop_last() == v@.take(i as int));
        }
        i += 1;
    }
    assert(v@.take(v.len() as int) == v@);
    out
}

/// Escapes `text` for the lightweight-markup dialect: each reserved
/// character gets a backslash in front, every other character stays.
pub fn escape_markdown(text: &str) -> (out: String)
    ensures
        out@ == markdown_escaped(text@),
{
    let v = chars_of(text);
    let e = escape_markdown_chars(&v);
    string_of(&e)
}

/// `v` without one trailing carriage return.
fn strip_cr_chars(v: Vec<char>) -> (r: Vec<char>)
    ensures
        r@ == strip_cr(v@),
{
    let mut v = v;
    if v.len() > 0 && v[v.len() - 1] == '\r' {
        v.pop();
    }
    v
}

/// Splits `v` into its lines.
pub fn split_lines(v: &Vec<char>) -> (ls: Vec<Vec<char>>)
    ensures
        views(ls@) == lines(v@),
{
    let mut done: Vec<Vec<char>> = Vec::new();
    let mut cur: Vec<char> = Vec::new();
    let mut i: usize = 0;
    assert(views(done@) =~= Seq::new(0, |k: int| strip_cr(segments(v@.take(0))[k])));
    while i < v.len()
        invariant
            i <= v.len(),
            segments(v@.take(i as int)).len() == done.len() + 1,
            segments(v@.take(i as int)).last() == cur@,
            views(done@) == Seq::new(
                done.len() as nat,
                |k: int| strip_cr(segments(v@.take(i as int))[k]),
            ),
        decreases v.len() - i,
    {
        let c = v[i];
        let ghost old_segs = segments(v@.take(i as int));
        let ghost old_done = done@;
        proof {
            assert(v@.take(i + 1).drop_last() == v@.take(i as int));
        }
        if c == '\n' {
            let line = strip_cr_chars(cur);
            done.push(line);
            cur = Vec::new();
            proof {
                let new_segs = segments(v@.take(i + 1));
                assert(new_segs == old_segs.push(Seq::empty()));
                assert(views(done@) =~= Seq::new(
                    done.len() as nat,
                    |k: int| strip_cr(new_segs[k]),
                )) by {
                    assert forall|k: int| 0 <= k < done.len() implies views(done@)[k] == strip_cr(
                        new_segs[k],
                    ) by {
                        if k < old_done.len() {
                            assert(views(old_done)[k] == strip_cr(old_segs[k]));
                        }
                    }
                }
            }
        } else {
            cur.push(c);
            proof {
                let new_segs = segments(v@.take(i + 1));
                assert(new_segs == old_segs.update(
                    old_segs.len() - 1,
                    old_segs.last().push(c),
                ));
                assert(views(done@) =~= Seq::new(
                    done.len() as nat,
                    |k: int| strip_cr(new_segs[k]),
                )) by {
                    assert forall|k: int| 0 <= k < done.len() implies views(done@)[k] == strip_cr(
                        new_segs[k],
                    ) by {
                        assert(views(old_done)[k] == strip_cr(old_segs[k]));
                    }
                }
            }
        }
        i += 1;
    }
    assert(v@.take(v.len() as int) == v@);
    if cur.len() > 0 {
        let ghost ended = views(done@);
        done.push(cur);
        assert(views(done@) =~= ended.push(cur@));
    }
    done
}

/// Renders the lines `ls` as a collapsible quote.
pub fn quote_of_lines(ls: &Vec<Vec<char>>) -> (out: Vec<Vec<char>>)
    ensures
        views(out@) == with_closing(with_fold_marker(quoted(views(ls@)))),
{
    let mut out: Vec<Vec<char>> = Vec::new();
    let mut i: usize = 0;
    while i < ls.len()
        invariant
            i <= ls.len(),
            out.len() == i,
            forall|k: int| 0 <= k < i ==> (#[trigger] out@[k])@ == quote_line(k, ls@[k]@),
        decreases ls.len() - i,
    {
        let mut line: Vec<char> = Vec::new();
        if i == 0 {
            line.push('*');
            line.push('*');
        }
        line.push('>');
        line.push(' ');
        let ghost marker = line@;
        let escaped = escape_markdown_chars(&ls[i]);
        extend_chars(&mut line, &escaped);
        proof {
            assert(marker =~= if i == 0 {
                first_quote_marker()
            } else {
                quote_marker()
            });
            assert(line@ == quote_line(i as int, ls@[i as int]@));
        }
        out.push(line);
        i += 1;
    }
    assert(views(out@) =~= quoted(views(ls@)));
    if out.len() > 3 {
        let mut marker: Vec<char> = Vec::new();
        marker.push('>');
        marker.push(' ');
        assert(marker@ =~= quote_marker());
        let ghost before = views(out@);
        out.insert(3, marker);
        assert(views(out@) =~= before.insert(3, quote_marker()));
    }
    match out.pop() {
        Some(last) => {
            let ghost rest = views(out@);
            let ghost last_view = last@;
            let mut last = last;
            last.push('|');
            last.push('|');
            assert(last@ =~= last_view + closing_marker());
            out.push(last);
            assert(views(out@) =~= with_closing(rest.push(last_view)));
            assert(rest.push(last_view) =~= with_fold_marker(quoted(views(ls@))));
        },
        None => {},
    }
    out
}

/// Joins the lines `ls` with a line feed between each two.
pub fn join_lines(ls: &Vec<Vec<char>>) -> (out: Vec<char>)
    ensures
        out@ == joined(views(ls@)),
{
    let mut out: Vec<char> = Vec::new();
    let mut i: usize = 0;
    while i < ls.len()
        invariant
            i <= ls.len(),
            out@ == joined(views(ls@).take(i as int)),
        decreases ls.len() - i,
    {
        let ghost before = out@;
        if i > 0 {
            out.push('\n');
        }
        extend_chars(&mut out, &ls[i]);
        proof {
            let t = views(ls@).take(i + 1);
            assert(t.drop_last() =~= views(ls@).take(i as int));
            assert(t.last() == ls@[i as int]@);
            if i > 0 {
                assert(out@ =~= before + seq!['\n'] + ls@[i as int]@);
            } else {
                assert(out@ =~= ls@[i as int]@);
            }
        }
        i += 1;
    }
    assert(views(ls@).take(ls.len() as int) =~= views(ls@));
    out
}

/// Renders the characters `v` as a collapsible quote.
pub fn expandable_quote_chars(v: &Vec<char>) -> (out: Vec<char>)
    ensures
        out@ == expandable_quote(v@),
{
    let ls = split_lines(v);
    let q = quote_of_lines(&ls);
    join_lines(&q)
}

/// Renders `text` as a collapsible block quote of the lightweight-markup
/// dialect: every line escaped behind a quote marker, the first marker in
/// bold; an empty quote line after the third line where there are more than
/// three; the closing marker at the end of the last line; line feeds between
/// the lines. A text without lines gives the empty string.
pub fn format_expandable_quote(text: &str) -> (out: String)
    ensures
        out@ == expandable_quote(text@),
{
    let v = chars_of(text);
    let q = expandable_quote_chars(&v);
    string_of(&q)
}

/// Escaped text of the markup dialect holds no `<`, no `>` and no `"`:
/// whatever the input, no markup of its own reaches the output.
pub proof fn lemma_html_escaped_has_no_markup(s: Seq<char>)
    ensures
        forall|i: int|
            0 <= i < html_escaped(s).len() ==> {
                let c = #[trigger] html_escaped(s)[i];
                c != '<' && c != '>' && c != '"'
            },
    decreases s.len(),
{
    if s.len() > 0 {
        lemma_html_escaped_has_no_markup(s.drop_last());
        let front = html_escaped(s.drop_last());
        let tail = html_escape_char(s.last());
        assert forall|i: int| 0 <= i < html_escaped(s).len() implies {
            let c = #[trigger] html_escaped(s)[i];
            c != '<' && c != '>' && c != '"'
        } by {
            if i < front.len() {
                assert(html_escaped(s)[i] == front[i]);
            } else {
                assert(html_escaped(s)[i] == tail[i - front.len()]);
            }
        }
    }
}

/// The shape of a collapsible quote. Up to three lines are rendered one for
/// one. More than three lines are rendered with one empty quote line right
/// after the third. Either way the last rendered line is the last line's
/// quote followed by the closing marker.
pub proof fn lemma_quote_shape(ls: Seq<Seq<char>>)
    ensures
        ({
            let r = with_closing(with_fold_marker(quoted(ls)));
            let n = ls.len() as int;
            &&& n <= 3 ==> r.len() == n
            &&& n > 3 ==> r.len() == n + 1 && r[3] == quote_marker()
            &&& forall|i: int| 0 <= i < n - 1 && i < 3 ==> #[trigger] r[i] == quote_line(i, ls[i])
            &&& forall|i: int| 3 <= i < n - 1 ==> #[trigger] r[i + 1] == quote_line(i, ls[i])
            &&& n > 0 ==> r.last() == quote_line(n - 1, ls.last()) + closing_marker()
        }),
{
}

/// Escaping for the markup dialect goes character by character: the escaped
/// form of two texts in a row is their escaped forms in a row.
pub proof fn lemma_html_escaped_concat(a: Seq<char>, b: Seq<char>)
    ensures
        html_escaped(a + b) == html_escaped(a) + html_escaped(b),
    decreases b.len(),
{
    if b.len() == 0 {
        assert(a + b =~= a);
        assert(html_escaped(a) + html_escaped(b) =~= html_escaped(a));
    } else {
        lemma_html_escaped_concat(a, b.drop_last());
        assert((a + b).drop_last() =~= a + b.drop_last());
        assert((a + b).last() == b.last());
        assert(html_escaped(a + b) =~= html_escaped(a) + html_escaped(b));
    }
}

/// Escaping for the lightweight-markup dialect goes character by character:
/// the escaped form of two texts in a row is their escaped forms in a row.
pub proof fn lemma_markdown_escaped_concat(a: Seq<char>, b: Seq<char>)
    ensures
        markdown_escaped(a + b) == markdown_escaped(a) + markdown_escaped(b),
    decreases b.len(),
{
    if b.len() == 0 {
        assert(a + b =~= a);
        assert(markdown_escaped(a) + markdown_escaped(b) =~= markdown_escaped(a));
    } else {
        lemma_markdown_escaped_concat(a, b.drop_last());
        assert((a + b).drop_last() =~= a + b.drop_last());
        assert((a + b).last() == b.last());
        assert(markdown_escaped(a + b) =~= markdown_escaped(a) + markdown_escaped(b));
    }
}

/// Text without a reserved character is its own escaped form in the
/// lightweight-markup dialect.
pub proof fn lemma_markdown_escaped_plain(s: Seq<char>)
    requires
        forall|i: int| 0 <= i < s.len() ==> !is_markdown_reserved(#[trigger] s[i]),
    ensures
        markdown_escaped(s) == s,
    decreases s.len(),
{
    if s.len() > 0 {
        let front = s.drop_last();
        assert forall|i: int| 0 <= i < front.len() implies !is_markdown_reserved(
            #[trigger] front[i],
        ) by {
            assert(front[i] == s[i]);
        }
        lemma_markdown_escaped_plain(front);
        assert(!is_markdown_reserved(s[s.len() - 1]));
        assert(markdown_escaped(s) =~= s);
    } else {
        assert(markdown_escaped(s) =~= s);
    }
}

/// Escaped text of the lightweight-markup dialect has one more character
/// than the input for each reserved character of the input.
pub proof fn lemma_markdown_escaped_len(s: Seq<char>)
    ensures
        markdown_escaped(s).len() == s.len() + s.filter(|c: char| is_markdown_reserved(c)).len(),
    decreases s.len(),
{
    reveal(Seq::filter);
    if s.len() > 0 {
        lemma_markdown_escaped_len(s.drop_last());
    }
}

} // verus!
