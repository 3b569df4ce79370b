//! Preparing Markdown for display: keeping indentation visible and
//! turning parser events into styled lines.
use vstd::prelude::*;
use crate::text::{chars_of, push_char};

verus! {

/// Number of spaces a tab stands for in rendered output.
pub const TAB_WIDTH: usize = 4;

/// The non-breaking space used to keep indentation visible.
pub open spec fn nbsp() -> char {
    '\u{a0}'
}

/// Position of the last line feed in `s`.
pub open spec fn last_newline(s: Seq<char>) -> Option<int>
    decreases s.len(),
{
    if s.len() == 0 {
        None
    } else if s.last() == '\n' {
        Some(s.len() - 1)
    } else {
        last_newline(s.drop_last())
    }
}

/// The lines of `s`: the pieces between line feeds (always at least one).
pub open spec fn split_lines(s: Seq<char>) -> Seq<Seq<char>>
    decreases s.len(),
{
    match last_newline(s) {
        None => seq![s],
        Some(j) => if 0 <= j < s.len() {
            split_lines(s.take(j)).push(s.skip(j + 1))
        } else {
            seq![s]
        },
    }
}

/// A line with its leading spaces and tabs turned into non-breaking spaces
/// (four for a tab); the rest of the line is unchanged.
pub open spec fn keep_indent(line: Seq<char>) -> Seq<char>
    decreases line.len(),
{
    if line.len() > 0 && line[0] == ' ' {
        seq![nbsp()] + keep_indent(line.drop_first())
    } else if line.len() > 0 && line[0] == '\t' {
        seq![nbsp(), nbsp(), nbsp(), nbsp()] + keep_indent(line.drop_first())
    } else {
        line
    }
}

/// Joins the re-indented lines, with a line feed between each two.
pub open spec fn join_lines(lines: Seq<Seq<char>>) -> Seq<char>
    decreases lines.len(),
{
    if lines.len() == 0 {
        Seq::empty()
    } else if lines.len() == 1 {
        keep_indent(lines[0])
    } else {
        join_lines(lines.drop_last()) + seq!['\n'] + keep_indent(lines.last())
    }
}

/// The text `preserve_leading_whitespace` produces.
pub open spec fn preserved(s: Seq<char>) -> Seq<char> {
    join_lines(split_lines(s))
}

proof fn lemma_last_newline(s: Seq<char>)
    ensures
        last_newline(s) matches Some(j) ==> 0 <= j < s.len() && s[j] == '\n'
            && forall|k: int| j < k < s.len() ==> s[k] != '\n',
        last_newline(s) is None ==> forall|k: int| 0 <= k < s.len() ==> s[k] != '\n',
    decreases s.len(),
{
    if s.len() > 0 && s.last() != '\n' {
        lemma_last_newline(s.drop_last());
        assert forall|k: int| 0 <= k < s.len() - 1 implies s[k] == s.drop_last()[k] by {}
    }
}

proof fn lemma_split_push(s: Seq<char>, c: char)
    ensures
        c == '\n' ==> split_lines(s.push(c)) == split_lines(s).push(Seq::<char>::empty()),
        c != '\n' ==> split_lines(s.push(c)) == split_lines(s).drop_last().push(
            split_lines(s).last().push(c),
        ),
        split_lines(s).len() >= 1,
    decreases s.len(),
{
    lemma_last_newline(s);
    let t = s.push(c);
    assert(t.drop_last() =~= s);
    if c == '\n' {
        assert(t.take(s.len() as int) =~= s);
        assert(t.skip((s.len() + 1) as int) =~= Seq::<char>::empty());
    } else {
        match last_newline(s) {
            None => {
                assert(split_lines(s) =~= seq![s]);
            },
            Some(j) => {
                assert(t.take(j) =~= s.take(j));
                assert(t.skip(j + 1) =~= s.skip(j + 1).push(c));
                assert(split_lines(s) == split_lines(s.take(j)).push(s.skip(j + 1)));
                assert(split_lines(s).drop_last() =~= split_lines(s.take(j)));
            },
        }
    }
    match last_newline(s) {
        None => {},
        Some(j) => {},
    }
}

/// Splits `s` into its lines.
pub(crate) fn split_into_lines(s: &Vec<char>) -> (r: Vec<Vec<char>>)
    ensures
        r@.map_values(|l: Vec<char>| l@) == split_lines(s@),
{
    let mut done: Vec<Vec<char>> = Vec::new();
    let mut cur: Vec<char> = Vec::new();
    let mut i: usize = 0;
    assert(s@.take(0) =~= Seq::<char>::empty());
    assert(split_lines(Seq::<char>::empty()) =~= seq![Seq::<char>::empty()]);
    while i < s.len()
        invariant
            i <= s.len(),
            done@.map_values(|l: Vec<char>| l@).push(cur@) == split_lines(s@.take(i as int)),
        decreases s.len() - i,
    {
        let c = s[i];
        proof {
            lemma_split_push(s@.take(i as int), c);
            assert(s@.take(i + 1) =~= s@.take(i as int).push(c));
        }
        if c == '\n' {
            let ghost before = done@.map_values(|l: Vec<char>| l@).push(cur@);
            let finished = cur;
            done.push(finished);
            cur = Vec::new();
            assert(done@.map_values(|l: Vec<char>| l@) =~= before);
        } else {
            let ghost old_done = done@.map_values(|l: Vec<char>| l@);
            let ghost old_cur = cur@;
            cur.push(c);
            assert(old_done.push(old_cur).drop_last() =~= old_done);
            assert(old_done.push(old_cur).last() == old_cur);
            assert(old_done.push(cur@) =~= old_done.push(old_cur).drop_last().push(old_cur.push(c)));
        }
        i = i + 1;
    }
    assert(s@.take(s.len() as int) =~= s@);
    let ghost before = done@.map_values(|l: Vec<char>| l@).push(cur@);
    done.push(cur);
    assert(done@.map_values(|l: Vec<char>| l@) =~= before);
    done
}

proof fn lemma_keep_indent_skip(line: Seq<char>, i: int)
    requires
        0 <= i <= line.len(),
        forall|k: int| 0 <= k < i ==> line[k] == ' ' || line[k] == '\t',
    ensures
        keep_indent(line) == keep_indent(line.take(i)) + keep_indent(line.skip(i)),
    decreases i,
{
    if i == 0 {
        assert(line.take(0) =~= Seq::<char>::empty());
        assert(line.skip(0) =~= line);
        assert(keep_indent(Seq::<char>::empty()) =~= Seq::<char>::empty());
        assert(Seq::<char>::empty() + keep_indent(line) =~= keep_indent(line));
    } else {
        lemma_keep_indent_skip(line.drop_first(), i - 1);
        assert(line.drop_first().take(i - 1) =~= line.take(i).drop_first());
        assert(line.drop_first().skip(i - 1) =~= line.skip(i));
        if line[0] == ' ' {
            assert(keep_indent(line.take(i)) == seq![nbsp()] + keep_indent(line.take(i).drop_first()));
            assert(seq![nbsp()] + keep_indent(line.take(i).drop_first()) + keep_indent(line.skip(i))
                =~= seq![nbsp()] + (keep_indent(line.take(i).drop_first()) + keep_indent(line.skip(i))));
        } else {
            assert(keep_indent(line.take(i)) == seq![nbsp(), nbsp(), nbsp(), nbsp()] + keep_indent(
                line.take(i).drop_first(),
            ));
            assert(seq![nbsp(), nbsp(), nbsp(), nbsp()] + keep_indent(line.take(i).drop_first())
                + keep_indent(line.skip(i)) =~= seq![nbsp(), nbsp(), nbsp(), nbsp()] + (keep_indent(
                line.take(i).drop_first(),
            ) + keep_indent(line.skip(i))));
        }
    }
}

/// Appends one line, re-indented, to `out`.
fn push_indented(out: &mut String, line: &Vec<char>)
    ensures
        final(out)@ == old(out)@ + keep_indent(line@),
{
    let mut i: usize = 0;
    while i < line.len() && (line[i] == ' ' || line[i] == '\t')
        invariant
            i <= line.len(),
            forall|k: int| 0 <= k < i ==> line@[k] == ' ' || line@[k] == '\t',
            out@ == old(out)@ + keep_indent(line@.take(i as int)),
        decreases line.len() - i,
    {
        proof {
            lemma_keep_indent_skip(line@.take(i + 1), i as int);
            assert(line@.take(i + 1).take(i as int) =~= line@.take(i as int));
            assert(line@.take(i + 1).skip(i as int) =~= seq![line@[i as int]]);
            assert(keep_indent(seq![line@[i as int]].drop_first()) =~= Seq::<char>::empty());
        }
        if line[i] == ' ' {
            push_char(out, '\u{a0}');
            assert(keep_indent(seq![' ']) =~= seq![nbsp()] + Seq::<char>::empty());
        } else {
            push_char(out, '\u{a0}');
            push_char(out, '\u{a0}');
            push_char(out, '\u{a0}');
            push_char(out, '\u{a0}');
            assert(keep_indent(seq!['\t']) =~= seq![nbsp(), nbsp(), nbsp(), nbsp()] + Seq::<char>::empty());
        }
        i = i + 1;
    }
    let ghost mid = out@;
    let mut j = i;
    while j < line.len()
        invariant
            i <= j <= line.len(),
            out@ == mid + line@.subrange(i as int, j as int),
        decreases line.len() - j,
    {
        push_char(out, line[j]);
        assert(line@.subrange(i as int, j + 1) =~= line@.subrange(i as int, j as int).push(line@[j as int]));
        j = j + 1;
    }
    proof {
        lemma_keep_indent_skip(line@, i as int);
        assert(line@.subrange(i as int, line.len() as int) =~= line@.skip(i as int));
        if i < line.len() {
            assert(line@.skip(i as int)[0] == line@[i as int]);
        }
        assert(keep_indent(line@.skip(i as int)) == line@.skip(i as int));
    }
}

/// Replaces the leading whitespace of every line with non-breaking spaces
/// (a tab counts as four) so a Markdown parser keeps the indentation as
/// text. Every line is kept, empty ones included.
pub fn preserve_leading_whitespace(content: &str) -> (r: String)
    ensures
        r@ == preserved(content@),
{
    let cs = chars_of(content);
    let lines = split_into_lines(&cs);
    let ghost ls = lines@.map_values(|l: Vec<char>| l@);
    let mut r = String::new();
    let mut i: usize = 0;
    while i < lines.len()
        invariant
            i <= lines.len(),
            ls == lines@.map_values(|l: Vec<char>| l@),
            r@ == join_lines(ls.take(i as int)),
        decreases lines.len() - i,
    {
        let ghost before = r@;
        if i > 0 {
            push_char(&mut r, '\n');
        }
        push_indented(&mut r, &lines[i]);
        proof {
            assert(ls.take(i + 1).drop_last() =~= ls.take(i as int));
            assert(ls.take(i + 1).last() == lines@[i as int]@);
            if i > 0 {
                assert(r@ =~= before + seq!['\n'] + keep_indent(lines@[i as int]@));
            } else {
                assert(ls.take(1)[0] == lines@[0]@);
                assert(r@ =~= keep_indent(lines@[0]@));
            }
        }
        i = i + 1;
    }
    assert(ls.take(lines.len() as int) =~= ls);
    r
}

} // verus!

verus! {

/// The style of a piece of rendered text.
#[derive(Debug, Clone, Copy, PartialEq, Eq, Structural)]
pub struct Style {
    /// Foreground colour, when one is set.
    pub fg: Option<crate::theme::Color>,
    pub bold: bool,
    pub italic: bool,
}

/// A run of text with one style.
pub struct Span {
    pub content: String,
    pub style: Style,
}

/// A rendered line: a sequence of styled runs.
pub struct Line {
    pub spans: Vec<Span>,
}

/// The plain-data view of a span.
pub struct SpanView {
    pub content: Seq<char>,
    pub style: Style,
}

impl View for Span {
    type V = SpanView;

    open spec fn view(&self) -> SpanView {
        SpanView { content: self.content@, style: self.style }
    }
}

impl View for Line {
    type V = Seq<SpanView>;

    open spec fn view(&self) -> Seq<SpanView> {
        self.spans@.map_values(|s: Span| s@)
    }
}

/// The views of a list of lines.
pub open spec fn lines_view(lines: Seq<Line>) -> Seq<Seq<SpanView>> {
    lines.map_values(|l: Line| l@)
}

/// The default style: no colour, no emphasis.
pub open spec fn plain_style() -> Style {
    Style { fg: None, bold: false, italic: false }
}

/// A line holding one unstyled run of text.
pub fn plain_line(text: String) -> (r: Line)
    ensures
        r@ == seq![SpanView { content: text@, style: plain_style() }],
{
    let mut spans: Vec<Span> = Vec::new();
    spans.push(Span { content: text, style: Style { fg: None, bold: false, italic: false } });
    let r = Line { spans };
    assert(r@ =~= seq![SpanView { content: r.spans@[0].content@, style: plain_style() }]);
    r
}

} // verus!
