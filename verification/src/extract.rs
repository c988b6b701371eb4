//! The message extractor: from the lines of a data block to a subject and a
//! plain-text body.

use crate::text::{
    chars_of, extend_chars, has_prefix_folded, slice_chars, starts_with_folded, string_of, trim,
    trim_chars, trim_end, trim_end_len,
};
use vstd::prelude::*;
use vstd::string::StringExecFns;

verus! {

/// The header name that introduces the subject, in lower case.
pub open spec fn subject_prefix() -> Seq<char> {
    seq!['s', 'u', 'b', 'j', 'e', 'c', 't', ':']
}

/// The subject of a message that names none.
pub open spec fn placeholder_subject() -> Seq<char> {
    seq!['[', 'N', 'o', ' ', 'S', 'u', 'b', 'j', 'e', 'c', 't', ']']
}

/// The line that ends a data block.
pub open spec fn end_marker() -> Seq<char> {
    seq!['.']
}

/// A header line that carries the subject: it begins with `subject:` in any
/// mix of ASCII upper and lower case.
pub open spec fn is_subject_line(t: Seq<char>) -> bool {
    starts_with_folded(t, subject_prefix())
}

/// What a subject line carries: what follows the header name, without white
/// space at either end.
pub open spec fn subject_value(t: Seq<char>) -> Seq<char> {
    trim(t.skip(8))
}

/// What has been gathered of a message so far.
pub struct CaptureView {
    /// The header block has not ended yet.
    pub in_headers: bool,
    /// The value of the first subject line, once one was seen.
    pub subject: Option<Seq<char>>,
    /// The body lines so far, each followed by a line feed.
    pub body: Seq<char>,
}

/// A message as extracted.
pub struct MessageView {
    pub subject: Seq<char>,
    pub body: Seq<char>,
}

/// Nothing gathered yet.
pub open spec fn capture_start() -> CaptureView {
    CaptureView { in_headers: true, subject: None, body: Seq::empty() }
}

/// The state after one more line `t`, which has lost its trailing white space
/// and is not the end marker. In the header block an empty line ends the
/// block, the first subject line sets the subject and any other line is
/// dropped; after it every line joins the body.
pub open spec fn capture_after(c: CaptureView, t: Seq<char>) -> CaptureView {
    if c.in_headers {
        if t.len() == 0 {
            CaptureView { in_headers: false, ..c }
        } else if c.subject is None && is_subject_line(t) {
            CaptureView { subject: Some(subject_value(t)), ..c }
        } else {
            c
        }
    } else {
        CaptureView { body: c.body + t + seq!['\n'], ..c }
    }
}

/// The message that a capture amounts to: the subject that was found, or the
/// placeholder where none was found or it was empty, and the body without
/// white space at either end.
pub open spec fn extracted(c: CaptureView) -> MessageView {
    MessageView {
        subject: match c.subject {
            Some(s) => if s.len() > 0 {
                s
            } else {
                placeholder_subject()
            },
            None => placeholder_subject(),
        },
        body: trim(c.body),
    }
}

/// The state after the raw lines `raw`, taken in order up to the first one
/// that is the end marker once its trailing white space is dropped; the
/// second part tells whether the marker was met.
pub open spec fn capture_lines(raw: Seq<Seq<char>>) -> (CaptureView, bool)
    decreases raw.len(),
{
    if raw.len() == 0 {
        (capture_start(), false)
    } else {
        let (c, ended) = capture_lines(raw.drop_last());
        let t = trim_end(raw.last());
        if ended {
            (c, true)
        } else if t == end_marker() {
            (c, true)
        } else {
            (capture_after(c, t), false)
        }
    }
}

/// The message that the raw lines `raw` of a data block hold.
pub open spec fn message_of(raw: Seq<Seq<char>>) -> MessageView {
    extracted(capture_lines(raw).0)
}

/// The views of a vector of strings.
pub open spec fn string_views(v: Seq<String>) -> Seq<Seq<char>> {
    Seq::new(v.len(), |i: int| v[i]@)
}

/// A subject and a plain-text body.
#[derive(Clone, PartialEq, Eq, Debug)]
pub struct ExtractedMessage {
    pub subject: String,
    pub body: String,
}

impl View for ExtractedMessage {
    type V = MessageView;

    open spec fn view(&self) -> MessageView {
        MessageView { subject: self.subject@, body: self.body@ }
    }
}

/// The extractor's state while a data block is read.
#[derive(Clone, PartialEq, Eq, Debug)]
pub struct Capture {
    pub in_headers: bool,
    pub subject: Option<Vec<char>>,
    pub body: Vec<char>,
}

impl View for Capture {
    type V = CaptureView;

    open spec fn view(&self) -> CaptureView {
        CaptureView {
            in_headers: self.in_headers,
            subject: match self.subject {
                Some(s) => Some(s@),
                None => None,
            },
            body: self.body@,
        }
    }
}

impl Capture {
    /// A capture that has seen no line.
    pub fn new() -> (c: Capture)
        ensures
            c@ == capture_start(),
    {
        Capture { in_headers: true, subject: None, body: Vec::new() }
    }

    /// Takes one raw line. Returns `true`, and changes nothing, where the
    /// line is the end marker once its trailing white space is dropped;
    /// otherwise gathers the line and returns `false`.
    pub fn feed(&mut self, line: &Vec<char>) -> (ended: bool)
        ensures
            ended == (trim_end(line@) == end_marker()),
            final(self)@ == if ended {
                old(self)@
            } else {
                capture_after(old(self)@, trim_end(line@))
            },
    {
        let n = trim_end_len(line);
        let t = slice_chars(line, 0, n);
        assert(t@ == trim_end(line@)) by {
            assert(line@.subrange(0, n as int) == line@.take(n as int));
        }
        if t.len() == 1 && t[0] == '.' {
            assert(t@ =~= end_marker());
            return true;
        }
        assert(t@ != end_marker()) by {
            if t@ == end_marker() {
                assert(t@.len() == 1 && t@[0] == '.');
            }
        }
        if self.in_headers {
            if t.len() == 0 {
                self.in_headers = false;
            } else if self.subject.is_none() {
                proof {
                    reveal_strlit("subject:");
                    assert("subject:"@ =~= subject_prefix());
                }
                if has_prefix_folded(&t, "subject:") {
                    let rest = slice_chars(&t, 8, t.len());
                    assert(rest@ == t@.skip(8));
                    let value = trim_chars(&rest);
                    self.subject = Some(value);
                }
            }
        } else {
            let ghost before = self.body@;
            extend_chars(&mut self.body, &t);
            self.body.push('\n');
            assert(self.body@ =~= before + t@ + seq!['\n']);
        }
        false
    }

    /// The message gathered so far.
    pub fn finish(&self) -> (m: ExtractedMessage)
        ensures
            m@ == extracted(self@),
            m.subject@.len() > 0,
    {
        let body = trim_chars(&self.body);
        let subject = match &self.subject {
            Some(s) => {
                if s.len() > 0 {
                    string_of(s)
                } else {
                    placeholder()
                }
            },
            None => placeholder(),
        };
        ExtractedMessage { subject, body: string_of(&body) }
    }
}

/// The placeholder subject as a string.
fn placeholder() -> (s: String)
    ensures
        s@ == placeholder_subject(),
{
    proof {
        reveal_strlit("[No Subject]");
        assert("[No Subject]"@ =~= placeholder_subject());
    }
    String::from_str("[No Subject]")
}

/// Extracts the message from the raw lines of a data block: the lines up to
/// the first end marker, or all of them where there is none.
pub fn extract(raw: &Vec<String>) -> (m: ExtractedMessage)
    ensures
        m@ == message_of(string_views(raw@)),
        m.subject@.len() > 0,
{
    let mut capture = Capture::new();
    let mut i: usize = 0;
    let mut ended = false;
    assert(string_views(raw@).take(0) =~= Seq::empty());
    while i < raw.len() && !ended
        invariant
            i <= raw.len(),
            (capture@, ended) == capture_lines(string_views(raw@).take(i as int)),
            ended ==> capture_lines(string_views(raw@)) == (capture@, true),
        decreases raw.len() - i,
    {
        let line = chars_of(raw[i].as_str());
        proof {
            let t = string_views(raw@).take(i + 1);
            assert(t.drop_last() =~= string_views(raw@).take(i as int));
            assert(t.last() == line@);
        }
        ended = capture.feed(&line);
        i += 1;
        proof {
            if ended {
                lemma_capture_stays_ended(string_views(raw@), i as int);
            }
        }
    }
    proof {
        if !ended {
            assert(string_views(raw@).take(raw.len() as int) =~= string_views(raw@));
        }
    }
    capture.finish()
}

/// Once the end marker was met among the first `n` lines, later lines change
/// nothing.
pub proof fn lemma_capture_stays_ended(raw: Seq<Seq<char>>, n: int)
    requires
        0 <= n <= raw.len(),
        capture_lines(raw.take(n)).1,
    ensures
        capture_lines(raw) == capture_lines(raw.take(n)),
    decreases raw.len() - n,
{
    if n < raw.len() {
        assert(raw.drop_last().take(n) =~= raw.take(n));
        lemma_capture_stays_ended(raw.drop_last(), n);
    } else {
        assert(raw.take(n) =~= raw);
    }
}

/// A data block without an empty line and without a subject line is all
/// header: the message has the placeholder subject and an empty body.
pub proof fn lemma_headers_only(raw: Seq<Seq<char>>)
    requires
        forall|i: int|
            0 <= i < raw.len() ==> trim_end(#[trigger] raw[i]).len() > 0 && !is_subject_line(
                trim_end(raw[i]),
            ),
    ensures
        message_of(raw).subject == placeholder_subject(),
        message_of(raw).body == Seq::<char>::empty(),
        capture_lines(raw).0 == capture_start(),
    decreases raw.len(),
{
    if raw.len() > 0 {
        let front = raw.drop_last();
        assert forall|i: int| 0 <= i < front.len() implies trim_end(#[trigger] front[i]).len() > 0
            && !is_subject_line(trim_end(front[i])) by {
            assert(front[i] == raw[i]);
        }
        lemma_headers_only(front);
        assert(trim_end(raw[raw.len() - 1]).len() > 0);
    }
    assert(trim_end(Seq::<char>::empty()) == Seq::<char>::empty());
    assert(trim(Seq::<char>::empty()) =~= Seq::<char>::empty());
}

/// The lines `ls`, each without its trailing white space and followed by a
/// line feed.
pub open spec fn body_text(ls: Seq<Seq<char>>) -> Seq<char>
    decreases ls.len(),
{
    if ls.len() == 0 {
        Seq::empty()
    } else {
        body_text(ls.drop_last()) + trim_end(ls.last()) + seq!['\n']
    }
}

/// A data block that begins with an empty line has no header: the message
/// has the placeholder subject, and its body is all the lines that follow,
/// joined by line feeds, without white space at either end.
pub proof fn lemma_body_after_blank_line(blank: Seq<char>, rest: Seq<Seq<char>>)
    requires
        trim_end(blank).len() == 0,
        forall|i: int| 0 <= i < rest.len() ==> trim_end(#[trigger] rest[i]) != end_marker(),
    ensures
        capture_lines(seq![blank] + rest) == (
            CaptureView { in_headers: false, subject: None, body: body_text(rest) },
            false,
        ),
        message_of(seq![blank] + rest) == (MessageView {
            subject: placeholder_subject(),
            body: trim(body_text(rest)),
        }),
    decreases rest.len(),
{
    let all = seq![blank] + rest;
    if rest.len() == 0 {
        assert(all.drop_last() =~= Seq::<Seq<char>>::empty());
        assert(all.last() == blank);
        assert(capture_lines(all.drop_last()) == (capture_start(), false));
    } else {
        let front = rest.drop_last();
        assert forall|i: int| 0 <= i < front.len() implies trim_end(#[trigger] front[i])
            != end_marker() by {
            assert(front[i] == rest[i]);
        }
        lemma_body_after_blank_line(blank, front);
        assert(all.drop_last() =~= seq![blank] + front);
        assert(all.last() == rest[rest.len() - 1]);
        assert(trim_end(rest[rest.len() - 1]) != end_marker());
    }
}

/// An extracted message always has a subject.
pub proof fn lemma_subject_is_never_empty(c: CaptureView)
    ensures
        extracted(c).subject.len() > 0,
{
}

} // verus!
