//! The command interpreter: the free text of an invocation is split into lines, the first of
//! which names a meme template while the others caption it.

use crate::address::parsed_url;
use crate::reply::{usage, usage_view, ReplyPayload, ReplyView, ICON_URL};
use vstd::prelude::*;
use vstd::string::*;

verus! {

/// The line feed that ends a line.
pub open spec fn is_break(c: char) -> bool {
    c == '\n'
}

/// The index of the first line feed in `s`, or the length of `s` where it holds none.
pub open spec fn first_break(s: Seq<char>) -> int
    decreases s.len(),
{
    if s.len() == 0 || is_break(s[0]) {
        0
    } else {
        1 + first_break(s.skip(1))
    }
}

/// `line` without the one carriage return that may end it.
pub open spec fn strip_return(line: Seq<char>) -> Seq<char> {
    if line.len() > 0 && line.last() == '\r' {
        line.drop_last()
    } else {
        line
    }
}

/// The lines of `s`.
///
/// A line ends with a line feed, or with a carriage return and a line feed; neither belongs to
/// the line. The last line needs no line feed, and keeps a carriage return that ends it. What
/// follows the last line feed is a line only if it is not empty.
pub open spec fn lines_of(s: Seq<char>) -> Seq<Seq<char>>
    decreases s.len(),
{
    let i = first_break(s);
    if s.len() == 0 {
        Seq::empty()
    } else if 0 <= i < s.len() {
        seq![strip_return(s.take(i))] + lines_of(s.skip(i + 1))
    } else {
        seq![s]
    }
}

/// The texts that a list of strings holds, in order.
pub open spec fn texts(v: Seq<String>) -> Seq<Seq<char>> {
    Seq::new(v.len(), |i: int| v[i]@)
}

/// `first_break` finds `n` when no line feed stands before `n` and `n` is a line feed or the end.
pub proof fn lemma_first_break(s: Seq<char>, n: int)
    requires
        0 <= n <= s.len(),
        forall|j: int| 0 <= j < n ==> !is_break(#[trigger] s[j]),
        n < s.len() ==> is_break(s[n]),
    ensures
        first_break(s) == n,
    decreases n,
{
    if n > 0 {
        let t = s.skip(1);
        assert forall|j: int| 0 <= j < n - 1 implies !is_break(#[trigger] t[j]) by {
            assert(t[j] == s[j + 1]);
        }
        lemma_first_break(t, n - 1);
    }
}

/// `first_break` stays inside `s`, nothing before it is a line feed, and it is one itself unless
/// it is the end.
pub proof fn lemma_first_break_is_first(s: Seq<char>)
    ensures
        0 <= first_break(s) <= s.len(),
        forall|j: int| 0 <= j < first_break(s) ==> !is_break(#[trigger] s[j]),
        first_break(s) < s.len() ==> is_break(s[first_break(s)]),
    decreases s.len(),
{
    if s.len() > 0 && !is_break(s[0]) {
        let t = s.skip(1);
        lemma_first_break_is_first(t);
        assert forall|j: int| 0 <= j < first_break(s) implies !is_break(#[trigger] s[j]) by {
            if j > 0 {
                assert(s[j] == t[j - 1]);
            }
        }
        if first_break(s) < s.len() {
            assert(s[first_break(s)] == t[first_break(t)]);
        }
    }
}

/// A text has a line exactly when it is not empty.
pub proof fn lemma_lines_of_nothing(s: Seq<char>)
    ensures
        lines_of(s).len() >= 1 <==> s.len() > 0,
{
    lemma_first_break_is_first(s);
}

/// No line holds a line feed.
pub proof fn lemma_lines_hold_no_break(s: Seq<char>)
    ensures
        forall|k: int, j: int|
            0 <= k < lines_of(s).len() && 0 <= j < lines_of(s)[k].len() ==> !is_break(
                #[trigger] lines_of(s)[k][j],
            ),
    decreases s.len(),
{
    lemma_first_break_is_first(s);
    let i = first_break(s);
    if s.len() > 0 && i < s.len() {
        let head = strip_return(s.take(i));
        let tail = lines_of(s.skip(i + 1));
        lemma_lines_hold_no_break(s.skip(i + 1));
        assert forall|k: int, j: int|
            0 <= k < lines_of(s).len() && 0 <= j < lines_of(s)[k].len() implies !is_break(
            #[trigger] lines_of(s)[k][j],
        ) by {
            if k == 0 {
                assert(lines_of(s)[0] == head);
                assert(head[j] == s[j]);
            } else {
                assert(lines_of(s)[k] == tail[k - 1]);
            }
        }
    }
}

/// Splits `text` into its lines.
pub fn split_lines(text: &str) -> (lines: Vec<String>)
    ensures
        texts(lines@) == lines_of(text@),
{
    let n = text.unicode_len();
    let mut lines: Vec<String> = Vec::new();
    let mut start: usize = 0;
    let mut at: usize = 0;
    let mut after_return: bool = false;
    assert(text@.skip(0) == text@);
    assert(texts(lines@) + lines_of(text@) == lines_of(text@));
    for c in it: text.chars()
        invariant
            n == text@.len(),
            it.seq() == text@,
            at == it.index(),
            start <= at <= n,
            forall|j: int| start <= j < at ==> !is_break(#[trigger] text@[j]),
            after_return <==> (start < at && text@[at - 1] == '\r'),
            texts(lines@) + lines_of(text@.skip(start as int)) == lines_of(text@),
    {
        let ghost rest = text@.skip(start as int);
        if c == '\n' {
            let end: usize = if after_return { at - 1 } else { at };
            let line = text.substring_char(start, end).to_owned();
            proof {
                lemma_first_break(rest, at - start);
                assert(rest.take(at - start) == text@.subrange(start as int, at as int));
                assert(strip_return(text@.subrange(start as int, at as int)) == line@);
                assert(rest.skip(at - start + 1) == text@.skip(at + 1));
                assert(texts(lines@.push(line)) == texts(lines@) + seq![line@]);
            }
            lines.push(line);
            start = at + 1;
            after_return = false;
        } else {
            after_return = c == '\r';
        }
        at += 1;
    }
    if start < n {
        let ghost rest = text@.skip(start as int);
        let line = text.substring_char(start, n).to_owned();
        proof {
            lemma_first_break(rest, n - start);
            assert(rest == text@.subrange(start as int, n as int));
            assert(texts(lines@.push(line)) == texts(lines@) + seq![line@]);
        }
        lines.push(line);
    } else {
        assert(text@.skip(start as int).len() == 0);
    }
    lines
}

/// What is sent to the captioning service: a meme template and the text of each of its boxes.
#[derive(Debug, PartialEq, Eq)]
pub struct CaptionRequest {
    /// The identifier of the meme template.
    pub template: String,
    /// The text of each caption box, first box first.
    pub boxes: Vec<String>,
}

/// A `CaptionRequest` as plain values.
pub struct CaptionRequestView {
    pub template: Seq<char>,
    pub boxes: Seq<Seq<char>>,
}

impl View for CaptionRequest {
    type V = CaptionRequestView;

    open spec fn view(&self) -> CaptionRequestView {
        CaptionRequestView { template: self.template@, boxes: texts(self.boxes@) }
    }
}

impl CaptionRequest {
    /// A request is worth sending only with a caption: it has at least one box.
    pub open spec fn wf(&self) -> bool {
        self.boxes.len() >= 1
    }
}

/// What the text of an invocation turned out to be.
#[derive(Debug, PartialEq, Eq)]
pub enum Interpretation {
    /// The text names no template or gives no caption: the user is told how to use the command.
    Usage(ReplyPayload),
    /// The text names a template and captions it.
    Caption(CaptionRequest),
}

/// An `Interpretation` as plain values.
pub enum InterpretationView {
    Usage(ReplyView),
    Caption(CaptionRequestView),
}

impl View for Interpretation {
    type V = InterpretationView;

    open spec fn view(&self) -> InterpretationView {
        match self {
            Interpretation::Usage(reply) => InterpretationView::Usage(reply@),
            Interpretation::Caption(request) => InterpretationView::Caption(request@),
        }
    }
}

/// Whether `text` both names a template and gives a caption: it has two lines or more.
pub open spec fn is_caption(text: Seq<char>) -> bool {
    lines_of(text).len() >= 2
}

/// The request that `text` stands for: its first line is the template, each further line is
/// one box.
pub open spec fn caption_of(text: Seq<char>) -> CaptionRequestView {
    CaptionRequestView { template: lines_of(text)[0], boxes: lines_of(text).skip(1) }
}

/// What the free text `text` of the command `command` stands for, where the usage hint carries
/// the icon `icon`.
pub open spec fn interpretation_of(
    command: Seq<char>,
    text: Seq<char>,
    icon: Option<Seq<char>>,
) -> InterpretationView {
    if is_caption(text) {
        InterpretationView::Caption(caption_of(text))
    } else {
        InterpretationView::Usage(usage_view(command, icon))
    }
}

/// A text names a template and gives a caption exactly when a line feed stands before its last
/// character: a text of no line or of one line is none.
pub proof fn lemma_caption_has_inner_break(text: Seq<char>)
    ensures
        is_caption(text) <==> first_break(text) + 1 < text.len(),
        !is_caption(text) <==> lines_of(text).len() == 0 || lines_of(text).len() == 1,
{
    lemma_first_break_is_first(text);
    let i = first_break(text);
    if text.len() > 0 && i < text.len() {
        lemma_lines_of_nothing(text.skip(i + 1));
    }
}

/// Reads the free text of an invocation of `slash_command`.
///
/// A text of two or more lines is a caption request. Any other text is answered with the usage
/// hint.
pub fn interpret(slash_command: &str, text: &str) -> (r: Interpretation)
    ensures
        r@ == interpretation_of(slash_command@, text@, parsed_url(ICON_URL@)),
        r matches Interpretation::Caption(request) ==> request.wf(),
{
    let mut lines = split_lines(text);
    if lines.len() < 2 {
        Interpretation::Usage(usage(slash_command))
    } else {
        let ghost all = lines@;
        let template = lines.remove(0);
        assert(texts(lines@) == texts(all).skip(1));
        Interpretation::Caption(CaptionRequest { template, boxes: lines })
    }
}

} // verus!
