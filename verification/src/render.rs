//! Rendering Markdown into styled lines for the preview panel.
use vstd::prelude::*;
use pulldown_cmark::{Event, Tag, TagEnd};
use crate::markdown::{Line, Span, SpanView, Style, lines_view, preserve_leading_whitespace, preserved, split_lines, split_into_lines};
use crate::note::{decimal, digit_char};
use crate::theme::{Color, Theme, ThemeView};
use crate::text::{chars_of, push_char, string_from_chars};

verus! {

#[verifier::external_type_specification]
#[verifier::external_body]
pub struct ExEvent<'a>(Event<'a>);

#[verifier::external_type_specification]
#[verifier::external_body]
pub struct ExTag<'a>(Tag<'a>);

#[verifier::external_type_specification]
#[verifier::external_body]
pub struct ExTagEnd(TagEnd);

/// A Markdown parser event, as far as the preview renders it.
pub enum MdEvent {
    /// A heading of the given level (1 to 6) starts.
    StartHeading(u8),
    /// A heading of the given level ends.
    EndHeading(u8),
    /// A paragraph ends.
    EndParagraph,
    StartQuote,
    EndQuote,
    StartCode,
    EndCode,
    /// A list starts: ordered from the given number, or unordered.
    StartList(Option<u64>),
    EndList,
    StartItem,
    EndItem,
    StartEmphasis,
    EndEmphasis,
    StartStrong,
    EndStrong,
    /// Text.
    Text(String),
    /// Inline code.
    Code(String),
    SoftBreak,
    HardBreak,
    /// A thematic break.
    Rule,
    /// Anything the preview ignores.
    Other,
}

/// An event as plain values.
pub enum MdEventView {
    StartHeading(u8),
    EndHeading(u8),
    EndParagraph,
    StartQuote,
    EndQuote,
    StartCode,
    EndCode,
    StartList(Option<u64>),
    EndList,
    StartItem,
    EndItem,
    StartEmphasis,
    EndEmphasis,
    StartStrong,
    EndStrong,
    Text(Seq<char>),
    Code(Seq<char>),
    SoftBreak,
    HardBreak,
    Rule,
    Other,
}

impl View for MdEvent {
    type V = MdEventView;

    open spec fn view(&self) -> MdEventView {
        match self {
            MdEvent::StartHeading(l) => MdEventView::StartHeading(*l),
            MdEvent::EndHeading(l) => MdEventView::EndHeading(*l),
            MdEvent::EndParagraph => MdEventView::EndParagraph,
            MdEvent::StartQuote => MdEventView::StartQuote,
            MdEvent::EndQuote => MdEventView::EndQuote,
            MdEvent::StartCode => MdEventView::StartCode,
            MdEvent::EndCode => MdEventView::EndCode,
            MdEvent::StartList(n) => MdEventView::StartList(*n),
            MdEvent::EndList => MdEventView::EndList,
            MdEvent::StartItem => MdEventView::StartItem,
            MdEvent::EndItem => MdEventView::EndItem,
            MdEvent::StartEmphasis => MdEventView::StartEmphasis,
            MdEvent::EndEmphasis => MdEventView::EndEmphasis,
            MdEvent::StartStrong => MdEventView::StartStrong,
            MdEvent::EndStrong => MdEventView::EndStrong,
            MdEvent::Text(t) => MdEventView::Text(t@),
            MdEvent::Code(t) => MdEventView::Code(t@),
            MdEvent::SoftBreak => MdEventView::SoftBreak,
            MdEvent::HardBreak => MdEventView::HardBreak,
            MdEvent::Rule => MdEventView::Rule,
            MdEvent::Other => MdEventView::Other,
        }
    }
}

/// The views of a list of events.
pub open spec fn events_view(es: Seq<MdEvent>) -> Seq<MdEventView> {
    es.map_values(|e: MdEvent| e@)
}

/// The events pulldown-cmark (strikethrough enabled) yields for a text,
/// converted to library events.
pub uninterp spec fn md_events(text: Seq<char>) -> Seq<MdEventView>;

/// A pulldown-cmark start tag as a library event (one arm per tag kind).
#[verifier::external_body]
fn convert_start(tag: Tag<'_>) -> MdEvent {
    match tag {
        Tag::Heading { level, .. } => MdEvent::StartHeading(level as u8),
        Tag::BlockQuote(_) => MdEvent::StartQuote,
        Tag::CodeBlock(_) => MdEvent::StartCode,
        Tag::List(n) => MdEvent::StartList(n),
        Tag::Item => MdEvent::StartItem,
        Tag::Emphasis => MdEvent::StartEmphasis,
        Tag::Strong => MdEvent::StartStrong,
        _ => MdEvent::Other,
    }
}

/// A pulldown-cmark end tag as a library event (one arm per tag kind).
#[verifier::external_body]
fn convert_end(tag: TagEnd) -> MdEvent {
    match tag {
        TagEnd::Heading(level) => MdEvent::EndHeading(level as u8),
        TagEnd::Paragraph => MdEvent::EndParagraph,
        TagEnd::BlockQuote(_) => MdEvent::EndQuote,
        TagEnd::CodeBlock => MdEvent::EndCode,
        TagEnd::List(_) => MdEvent::EndList,
        TagEnd::Item => MdEvent::EndItem,
        TagEnd::Emphasis => MdEvent::EndEmphasis,
        TagEnd::Strong => MdEvent::EndStrong,
        _ => MdEvent::Other,
    }
}

/// A pulldown-cmark event as a library event (one arm per event kind).
#[verifier::external_body]
fn convert_event(e: Event<'_>) -> MdEvent {
    match e {
        Event::Start(tag) => convert_start(tag),
        Event::End(tag) => convert_end(tag),
        Event::Text(t) => MdEvent::Text(t.into_string()),
        Event::Code(t) => MdEvent::Code(t.into_string()),
        Event::SoftBreak => MdEvent::SoftBreak,
        Event::HardBreak => MdEvent::HardBreak,
        Event::Rule => MdEvent::Rule,
        _ => MdEvent::Other,
    }
}

/// `pulldown_cmark::Parser::new_ext` with strikethrough enabled, run over
/// `text`, each event converted; named `md_events`.
#[verifier::external_body]
fn parse_markdown(text: &str) -> (r: Vec<MdEvent>)
    ensures
        events_view(r@) == md_events(text@),
{
    let mut options = pulldown_cmark::Options::empty();
    options.insert(pulldown_cmark::Options::ENABLE_STRIKETHROUGH);
    pulldown_cmark::Parser::new_ext(text, options).map(convert_event).collect()
}

/// A style with a colour and no emphasis.
pub open spec fn fg(c: Color) -> Style {
    Style { fg: Some(c), bold: false, italic: false }
}

/// A run of text with a style.
pub open spec fn run(text: Seq<char>, style: Style) -> SpanView {
    SpanView { content: text, style }
}

/// The style of a heading: bold, and coloured by level (accent, highlight,
/// success for the first three levels).
pub open spec fn heading_style(level: u8, t: ThemeView) -> Style {
    if level == 1 {
        Style { fg: Some(t.accent), bold: true, italic: false }
    } else if level == 2 {
        Style { fg: Some(t.highlight), bold: true, italic: false }
    } else if level == 3 {
        Style { fg: Some(t.success), bold: true, italic: false }
    } else {
        Style { fg: None, bold: true, italic: false }
    }
}

/// The style of body text: the heading style inside a heading, otherwise
/// bold for strong and italic for emphasis.
pub open spec fn inline_style(heading: Option<u8>, strong: bool, emphasis: bool, t: ThemeView) -> Style {
    match heading {
        Some(l) => heading_style(l, t),
        None => Style { fg: None, bold: strong, italic: emphasis },
    }
}

/// `s` repeated `n` times.
pub open spec fn repeated(s: Seq<char>, n: nat) -> Seq<char>
    decreases n,
{
    if n == 0 {
        Seq::empty()
    } else {
        repeated(s, (n - 1) as nat) + s
    }
}

/// The rendering state after some events: the finished lines, the runs of
/// the line being built, and the open structures (lists with their next
/// number, or `None` when unordered).
pub struct RenderState {
    pub lines: Seq<Seq<SpanView>>,
    pub spans: Seq<SpanView>,
    pub heading: Option<u8>,
    pub in_code: bool,
    pub in_quote: bool,
    pub emphasis: bool,
    pub strong: bool,
    pub lists: Seq<Option<nat>>,
    pub item_start: bool,
}

/// Nothing rendered yet.
pub open spec fn initial_state() -> RenderState {
    RenderState {
        lines: Seq::empty(),
        spans: Seq::empty(),
        heading: None,
        in_code: false,
        in_quote: false,
        emphasis: false,
        strong: false,
        lists: Seq::empty(),
        item_start: false,
    }
}

/// The line being built, when it has runs, becomes a finished line.
pub open spec fn flushed(s: RenderState) -> RenderState {
    if s.spans.len() > 0 {
        RenderState { lines: s.lines.push(s.spans), spans: Seq::empty(), ..s }
    } else {
        s
    }
}

/// The lines of a code block text: each line of the text behind a gutter;
/// empty lines are dropped while no line is being built.
pub open spec fn code_lines(pieces: Seq<Seq<char>>, spans_empty: bool, t: ThemeView) -> Seq<Seq<SpanView>>
    decreases pieces.len(),
{
    if pieces.len() == 0 {
        Seq::empty()
    } else {
        let prev = code_lines(pieces.drop_last(), spans_empty, t);
        let p = pieces.last();
        if p.len() == 0 && spans_empty {
            prev
        } else {
            prev.push(seq![run("  \u{2502} "@, fg(t.fg_secondary)), run(p, fg(t.success))])
        }
    }
}

/// The bullet or number put before the first text of a list item,
/// indented by the list depth.
pub open spec fn item_prefix(lists: Seq<Option<nat>>) -> Seq<char> {
    let indent = repeated("  "@, lists.len());
    match lists.last() {
        None => indent + "\u{2022} "@,
        Some(n) => indent + decimal(n) + ". "@,
    }
}

/// Rendering one more event.
pub open spec fn render_step(s: RenderState, e: MdEventView, width: u16, t: ThemeView) -> RenderState {
    match e {
        MdEventView::StartHeading(l) => RenderState { heading: Some(l), ..s },
        MdEventView::EndHeading(l) => {
            let line = s.spans.map_values(|r: SpanView| run(r.content, heading_style(l, t)));
            let lines = s.lines.push(line);
            RenderState {
                lines: if l <= 2 { lines.push(Seq::empty()) } else { lines },
                spans: Seq::empty(),
                heading: None,
                ..s
            }
        },
        MdEventView::EndParagraph => {
            let f = flushed(s);
            RenderState { lines: f.lines.push(Seq::empty()), ..f }
        },
        MdEventView::StartQuote => RenderState { in_quote: true, ..s },
        MdEventView::EndQuote => RenderState { in_quote: false, ..s },
        MdEventView::StartCode => RenderState { in_code: true, ..s },
        MdEventView::EndCode => RenderState { in_code: false, ..s },
        MdEventView::StartList(n) => RenderState {
            lists: s.lists.push(
                match n {
                    Some(k) => Some(k as nat),
                    None => None,
                },
            ),
            ..s
        },
        MdEventView::EndList => {
            let lists = if s.lists.len() > 0 { s.lists.drop_last() } else { s.lists };
            RenderState {
                lists,
                lines: if lists.len() == 0 { s.lines.push(Seq::empty()) } else { s.lines },
                ..s
            }
        },
        MdEventView::StartItem => RenderState { item_start: true, ..s },
        MdEventView::EndItem => {
            let f = flushed(s);
            RenderState {
                lists: if f.lists.len() > 0 && f.lists.last() is Some {
                    f.lists.update(f.lists.len() - 1, Some(f.lists.last()->0 + 1))
                } else {
                    f.lists
                },
                ..f
            }
        },
        MdEventView::StartEmphasis => RenderState { emphasis: true, ..s },
        MdEventView::EndEmphasis => RenderState { emphasis: false, ..s },
        MdEventView::StartStrong => RenderState { strong: true, ..s },
        MdEventView::EndStrong => RenderState { strong: false, ..s },
        MdEventView::Text(text) => if s.in_code {
            RenderState {
                lines: s.lines + code_lines(crate::markdown::split_lines(text), s.spans.len() == 0, t),
                ..s
            }
        } else if s.in_quote {
            let spans = if s.spans.len() == 0 {
                seq![run("\u{2502} "@, fg(t.fg_secondary))]
            } else {
                s.spans
            };
            RenderState { spans: spans.push(run(text, Style { fg: None, bold: false, italic: true })), ..s }
        } else {
            let spans = if s.item_start && s.lists.len() > 0 {
                s.spans.push(run(item_prefix(s.lists), Style { fg: None, bold: false, italic: false }))
            } else {
                s.spans
            };
            RenderState {
                spans: spans.push(run(text, inline_style(s.heading, s.strong, s.emphasis, t))),
                item_start: false,
                ..s
            }
        },
        MdEventView::Code(text) => RenderState { spans: s.spans.push(run(text, fg(t.highlight))), ..s },
        MdEventView::SoftBreak => if s.in_code {
            s
        } else {
            flushed(s)
        },
        MdEventView::HardBreak => flushed(s),
        MdEventView::Rule => {
            let f = flushed(s);
            let w: nat = if width > 0 { width as nat } else { 40 };
            RenderState {
                lines: f.lines.push(seq![run(repeated("\u{2500}"@, w), fg(t.fg_secondary))]).push(Seq::empty()),
                ..f
            }
        },
        MdEventView::Other => s,
    }
}

/// The state after rendering the events in order.
pub open spec fn render_all(es: Seq<MdEventView>, width: u16, t: ThemeView) -> RenderState
    decreases es.len(),
{
    if es.len() == 0 {
        initial_state()
    } else {
        render_step(render_all(es.drop_last(), width, t), es.last(), width, t)
    }
}

/// The lines rendered from the events: every event in order, then the
/// line being built.
pub open spec fn rendered(es: Seq<MdEventView>, width: u16, t: ThemeView) -> Seq<Seq<SpanView>> {
    flushed(render_all(es, width, t)).lines
}

/// Appends `piece` to `s` `n` times.
fn push_repeated(s: &mut String, piece: &str, n: usize)
    ensures
        final(s)@ == old(s)@ + repeated(piece@, n as nat),
{
    let mut i: usize = 0;
    while i < n
        invariant
            i <= n,
            s@ == old(s)@ + repeated(piece@, i as nat),
        decreases n - i,
    {
        s.append(piece);
        assert(repeated(piece@, (i + 1) as nat) == repeated(piece@, i as nat) + piece@);
        i = i + 1;
    }
}

/// Appends the decimal representation of a `u128` to `s`.
fn push_decimal_u128(s: &mut String, n: u128)
    ensures
        final(s)@ == old(s)@ + decimal(n as nat),
    decreases n,
{
    if n >= 10 {
        push_decimal_u128(s, n / 10);
    }
    let d = (n % 10) as u32;
    crate::note::push_decimal(s, d);
    proof {
        assert(decimal(d as nat) =~= seq![digit_char(d as nat)]);
        if n >= 10 {
            assert(decimal(n as nat) =~= decimal((n / 10) as nat).push(digit_char((n % 10) as nat)));
        }
    }
}

/// The list numbers as plain values.
pub open spec fn lists_view(l: Seq<Option<u128>>) -> Seq<Option<nat>> {
    l.map_values(|o: Option<u128>| match o {
        Some(n) => Some(n as nat),
        None => None,
    })
}

/// The executable rendering state.
struct Renderer {
    lines: Vec<Line>,
    spans: Vec<Span>,
    heading: Option<u8>,
    in_code: bool,
    in_quote: bool,
    emphasis: bool,
    strong: bool,
    lists: Vec<Option<u128>>,
    item_start: bool,
}

impl Renderer {
    spec fn state(&self) -> RenderState {
        RenderState {
            lines: lines_view(self.lines@),
            spans: self.spans@.map_values(|r: Span| r@),
            heading: self.heading,
            in_code: self.in_code,
            in_quote: self.in_quote,
            emphasis: self.emphasis,
            strong: self.strong,
            lists: lists_view(self.lists@),
            item_start: self.item_start,
        }
    }

    /// Every list number is at most `b`.
    spec fn numbers_below(&self, b: int) -> bool {
        forall|k: int| 0 <= k < self.lists@.len() ==> (#[trigger] self.lists@[k] matches Some(n) ==> n <= b)
    }

    fn flush(&mut self)
        ensures
            final(self).state() == flushed(old(self).state()),
            final(self).lists == old(self).lists,
    {
        if self.spans.len() > 0 {
            let mut done: Vec<Span> = Vec::new();
            std::mem::swap(&mut done, &mut self.spans);
            let ghost before = self.lines@;
            self.lines.push(Line { spans: done });
            assert(lines_view(self.lines@) =~= lines_view(before).push(old(self).state().spans));
            assert(self.spans@.map_values(|r: Span| r@) =~= Seq::<SpanView>::empty());
        }
    }

    fn push_line(&mut self, spans: Vec<Span>)
        ensures
            final(self).state() == (RenderState {
                lines: old(self).state().lines.push(spans@.map_values(|r: Span| r@)),
                ..old(self).state()
            }),
            final(self).lists == old(self).lists,
    {
        let ghost before = self.lines@;
        let l = Line { spans };
        self.lines.push(l);
        assert(lines_view(self.lines@) =~= lines_view(before).push(l@));
    }

    fn push_span(&mut self, content: String, style: Style)
        ensures
            final(self).state() == (RenderState {
                spans: old(self).state().spans.push(run(content@, style)),
                ..old(self).state()
            }),
            final(self).lists == old(self).lists,
    {
        self.spans.push(Span { content, style });
        assert(self.spans@.map_values(|r: Span| r@) =~= old(self).state().spans.push(run(content@, style)));
    }

    fn end_heading(&mut self, level: u8, theme: &Theme, Ghost(w): Ghost<u16>)
        ensures
            final(self).state() == render_step(old(self).state(), MdEventView::EndHeading(level), w, theme@),
            final(self).lists == old(self).lists,
    {
        let style = heading_style_exec(level, theme);
        let ghost sv = self.state().spans;
        let mut line: Vec<Span> = Vec::new();
        let mut k: usize = 0;
        while k < self.spans.len()
            invariant
                k <= self.spans@.len(),
                style == heading_style(level, theme@),
                sv == self.spans@.map_values(|r: Span| r@),
                line@.map_values(|r: Span| r@) == sv.take(k as int).map_values(
                    |r: SpanView| run(r.content, heading_style(level, theme@)),
                ),
            decreases self.spans@.len() - k,
        {
            let ghost before = line@;
            let c = self.spans[k].content.clone();
            assert(c@ == sv[k as int].content);
            let sp = Span { content: c, style };
            assert(sp@ == run(sv[k as int].content, heading_style(level, theme@)));
            line.push(sp);
            proof {
                assert(line@ == before.push(sp));
                assert(sv.take(k + 1) =~= sv.take(k as int).push(sv[k as int]));
                assert(line@.map_values(|r: Span| r@) =~= before.map_values(|r: Span| r@).push(
                    run(sv[k as int].content, heading_style(level, theme@)),
                ));
                assert(sv.take(k + 1).map_values(|r: SpanView| run(r.content, heading_style(level, theme@)))
                    =~= sv.take(k as int).map_values(|r: SpanView| run(r.content, heading_style(level, theme@))).push(
                    run(sv[k as int].content, heading_style(level, theme@)),
                ));
            }
            k = k + 1;
        }
        assert(sv.take(self.spans@.len() as int) =~= sv);
        self.push_line(line);
        if level <= 2 {
            let blank: Vec<Span> = Vec::new();
            assert(blank@.map_values(|r: Span| r@) =~= Seq::<SpanView>::empty());
            self.push_line(blank);
        }
        self.spans = Vec::new();
        assert(self.spans@.map_values(|r: Span| r@) =~= Seq::<SpanView>::empty());
        self.heading = None;
    }

    fn code_text(&mut self, text: &str, theme: &Theme)
        ensures
            final(self).state() == (RenderState {
                lines: old(self).state().lines + code_lines(split_lines(text@), old(self).state().spans.len() == 0, theme@),
                ..old(self).state()
            }),
            final(self).lists == old(self).lists,
    {
        let cs = chars_of(text);
        let pieces = split_into_lines(&cs);
        let ghost pv = pieces@.map_values(|l: Vec<char>| l@);
        let spans_empty = self.spans.len() == 0;
        let ghost start = self.state();
        let mut k: usize = 0;
        while k < pieces.len()
            invariant
                k <= pieces@.len(),
                pv == pieces@.map_values(|l: Vec<char>| l@),
                pv == split_lines(text@),
                spans_empty == (start.spans.len() == 0),
                self.state() == (RenderState { lines: start.lines + code_lines(pv.take(k as int), spans_empty, theme@), ..start }),
                self.lists == old(self).lists,
            decreases pieces@.len() - k,
        {
            proof {
                assert(pv.take(k + 1).drop_last() =~= pv.take(k as int));
                assert(pv.take(k + 1).last() == pieces@[k as int]@);
            }
            if !(pieces[k].len() == 0 && spans_empty) {
                let mut line: Vec<Span> = Vec::new();
                line.push(Span { content: String::from_str("  \u{2502} "), style: Style { fg: Some(theme.fg_secondary), bold: false, italic: false } });
                line.push(Span { content: string_from_chars(&pieces[k], 0), style: Style { fg: Some(theme.success), bold: false, italic: false } });
                proof {
                    assert(pieces@[k as int]@.skip(0) =~= pieces@[k as int]@);
                    assert(line@.map_values(|r: Span| r@) =~= seq![run("  \u{2502} "@, fg(theme@.fg_secondary)), run(pv[k as int], fg(theme@.success))]);
                }
                self.push_line(line);
                assert(start.lines + code_lines(pv.take(k + 1), spans_empty, theme@) =~= start.lines + code_lines(pv.take(k as int), spans_empty, theme@).push(
                    seq![run("  \u{2502} "@, fg(theme@.fg_secondary)), run(pv[k as int], fg(theme@.success))]));
            } else {
                assert(code_lines(pv.take(k + 1), spans_empty, theme@) == code_lines(pv.take(k as int), spans_empty, theme@));
            }
            k = k + 1;
        }
        assert(pv.take(pieces@.len() as int) =~= pv);
    }

    /// The bullet or number for a new list item.
    fn item_prefix_exec(&self) -> (r: String)
        requires
            self.lists@.len() > 0,
        ensures
            r@ == item_prefix(self.state().lists),
    {
        let mut r = String::new();
        push_repeated(&mut r, "  ", self.lists.len());
        let ghost indent = r@;
        match self.lists[self.lists.len() - 1] {
            None => {
                r.append("\u{2022} ");
            },
            Some(n) => {
                push_decimal_u128(&mut r, n);
                r.append(". ");
            },
        }
        assert(Seq::<char>::empty() + repeated("  "@, self.lists@.len() as nat) =~= indent);
        r
    }

    fn end_paragraph(&mut self, Ghost(w): Ghost<u16>, Ghost(t): Ghost<ThemeView>)
        ensures
            final(self).state() == render_step(old(self).state(), MdEventView::EndParagraph, w, t),
            final(self).lists == old(self).lists,
    {
        self.flush();
        let blank: Vec<Span> = Vec::new();
        assert(blank@.map_values(|r: Span| r@) =~= Seq::<SpanView>::empty());
        self.push_line(blank);
    }

    fn start_list(&mut self, n: Option<u64>, Ghost(w): Ghost<u16>, Ghost(t): Ghost<ThemeView>)
        ensures
            final(self).state() == render_step(old(self).state(), MdEventView::StartList(n), w, t),
            final(self).lines == old(self).lines,
            final(self).lists@ == old(self).lists@.push(
                match n {
                    Some(k) => Some(k as u128),
                    None => None,
                },
            ),
    {
        let ghost s0 = self.state();
        let v: Option<u128> = match n {
            Some(k) => Some(k as u128),
            None => None,
        };
        self.lists.push(v);
        assert(lists_view(self.lists@) =~= s0.lists.push(
            match n {
                Some(k) => Some(k as nat),
                None => None,
            },
        ));
    }

    fn end_list(&mut self, Ghost(w): Ghost<u16>, Ghost(t): Ghost<ThemeView>)
        ensures
            final(self).state() == render_step(old(self).state(), MdEventView::EndList, w, t),
            final(self).lists@.len() <= old(self).lists@.len(),
            forall|k: int| 0 <= k < final(self).lists@.len() ==> final(self).lists@[k] == old(self).lists@[k],
    {
        let ghost s0 = self.state();
        if self.lists.len() > 0 {
            self.lists.pop();
            assert(lists_view(self.lists@) =~= s0.lists.drop_last());
        }
        if self.lists.len() == 0 {
            let blank: Vec<Span> = Vec::new();
            assert(blank@.map_values(|r: Span| r@) =~= Seq::<SpanView>::empty());
            self.push_line(blank);
        }
    }

    fn end_item(&mut self, Ghost(b): Ghost<int>, Ghost(w): Ghost<u16>, Ghost(t): Ghost<ThemeView>)
        requires
            old(self).numbers_below(b),
            b < u128::MAX,
        ensures
            final(self).state() == render_step(old(self).state(), MdEventView::EndItem, w, t),
            final(self).numbers_below(b + 1),
    {
        self.flush();
        let ghost s1 = self.state();
        let n = self.lists.len();
        if n > 0 {
            if let Some(k) = self.lists[n - 1] {
                assert(self.lists@[n - 1] matches Some(m) && m <= b);
                self.lists.set(n - 1, Some(k + 1));
                assert(lists_view(self.lists@) =~= s1.lists.update(n - 1, Some(s1.lists.last()->0 + 1)));
            }
        }
    }

    fn text(&mut self, text: &String, theme: &Theme, Ghost(w): Ghost<u16>)
        ensures
            final(self).state() == render_step(old(self).state(), MdEventView::Text(text@), w, theme@),
            final(self).lists == old(self).lists,
    {
        if self.in_code {
            self.code_text(text.as_str(), theme);
        } else if self.in_quote {
            if self.spans.len() == 0 {
                self.push_span(String::from_str("\u{2502} "), Style { fg: Some(theme.fg_secondary), bold: false, italic: false });
                assert(self.state().spans =~= seq![run("\u{2502} "@, fg(theme@.fg_secondary))]);
            }
            self.push_span(text.clone(), Style { fg: None, bold: false, italic: true });
        } else {
            if self.item_start && self.lists.len() > 0 {
                let prefix = self.item_prefix_exec();
                self.push_span(prefix, Style { fg: None, bold: false, italic: false });
            }
            self.item_start = false;
            let style = match self.heading {
                Some(l) => heading_style_exec(l, theme),
                None => Style { fg: None, bold: self.strong, italic: self.emphasis },
            };
            self.push_span(text.clone(), style);
        }
    }

    fn rule(&mut self, width: u16, theme: &Theme)
        ensures
            final(self).state() == render_step(old(self).state(), MdEventView::Rule, width, theme@),
            final(self).lists == old(self).lists,
    {
        self.flush();
        let w: usize = if width > 0 { width as usize } else { 40 };
        let mut rule = String::new();
        push_repeated(&mut rule, "\u{2500}", w);
        assert(rule@ =~= repeated("\u{2500}"@, w as nat));
        let mut line: Vec<Span> = Vec::new();
        line.push(Span { content: rule, style: Style { fg: Some(theme.fg_secondary), bold: false, italic: false } });
        assert(line@.map_values(|r: Span| r@) =~= seq![run(repeated("\u{2500}"@, w as nat), fg(theme@.fg_secondary))]);
        self.push_line(line);
        let blank: Vec<Span> = Vec::new();
        assert(blank@.map_values(|r: Span| r@) =~= Seq::<SpanView>::empty());
        self.push_line(blank);
    }

    /// Renders one event.
    #[verifier::spinoff_prover]
    fn step(&mut self, e: &MdEvent, width: u16, theme: &Theme, Ghost(b): Ghost<int>)
        requires
            old(self).numbers_below(b),
            u64::MAX <= b < u128::MAX,
        ensures
            final(self).state() == render_step(old(self).state(), e@, width, theme@),
            final(self).numbers_below(b + 1),
    {
        match e {
            MdEvent::StartHeading(l) => {
                self.heading = Some(*l);
            },
            MdEvent::EndHeading(l) => {
                self.end_heading(*l, theme, Ghost(width));
            },
            MdEvent::EndParagraph => {
                self.end_paragraph(Ghost(width), Ghost(theme@));
            },
            MdEvent::StartQuote => {
                self.in_quote = true;
            },
            MdEvent::EndQuote => {
                self.in_quote = false;
            },
            MdEvent::StartCode => {
                self.in_code = true;
            },
            MdEvent::EndCode => {
                self.in_code = false;
            },
            MdEvent::StartList(n) => {
                self.start_list(*n, Ghost(width), Ghost(theme@));
            },
            MdEvent::EndList => {
                self.end_list(Ghost(width), Ghost(theme@));
            },
            MdEvent::StartItem => {
                self.item_start = true;
            },
            MdEvent::EndItem => {
                self.end_item(Ghost(b), Ghost(width), Ghost(theme@));
            },
            MdEvent::StartEmphasis => {
                self.emphasis = true;
            },
            MdEvent::EndEmphasis => {
                self.emphasis = false;
            },
            MdEvent::StartStrong => {
                self.strong = true;
            },
            MdEvent::EndStrong => {
                self.strong = false;
            },
            MdEvent::Text(text) => {
                self.text(text, theme, Ghost(width));
            },
            MdEvent::Code(text) => {
                self.push_span(text.clone(), Style { fg: Some(theme.highlight), bold: false, italic: false });
            },
            MdEvent::SoftBreak => {
                if !self.in_code {
                    self.flush();
                }
            },
            MdEvent::HardBreak => {
                self.flush();
            },
            MdEvent::Rule => {
                self.rule(width, theme);
            },
            MdEvent::Other => {},
        }
        proof {
            assert forall|k: int| 0 <= k < self.lists@.len() implies (#[trigger] self.lists@[k] matches Some(n) ==> n <= b + 1) by {
                if k < old(self).lists@.len() && self.lists@[k] == old(self).lists@[k] {
                    assert(old(self).lists@[k] matches Some(n) ==> n <= b);
                }
            }
        }
    }
}

/// The style of a heading of the given level.
fn heading_style_exec(level: u8, theme: &Theme) -> (r: Style)
    ensures
        r == heading_style(level, theme@),
{
    if level == 1 {
        Style { fg: Some(theme.accent), bold: true, italic: false }
    } else if level == 2 {
        Style { fg: Some(theme.highlight), bold: true, italic: false }
    } else if level == 3 {
        Style { fg: Some(theme.success), bold: true, italic: false }
    } else {
        Style { fg: None, bold: true, italic: false }
    }
}

/// Renders parser events into styled lines: headings bold and coloured
/// by level (a blank line after the first two levels), paragraphs followed
/// by a blank line, block quotes behind a bar in italics, code blocks
/// behind a gutter, list items with bullets or numbers indented by depth,
/// inline code highlighted, line breaks kept, rules as wide as `width`
/// (40 when it is 0).
pub fn render_events(events: &[MdEvent], width: u16, theme: &Theme) -> (r: Vec<Line>)
    ensures
        lines_view(r@) == rendered(events_view(events@), width, theme@),
{
    let ghost ev = events_view(events@);
    let mut st = Renderer {
        lines: Vec::new(),
        spans: Vec::new(),
        heading: None,
        in_code: false,
        in_quote: false,
        emphasis: false,
        strong: false,
        lists: Vec::new(),
        item_start: false,
    };
    assert(st.state() == initial_state()) by {
        assert(lines_view(st.lines@) =~= Seq::<Seq<SpanView>>::empty());
        assert(st.spans@.map_values(|r: Span| r@) =~= Seq::<SpanView>::empty());
        assert(lists_view(st.lists@) =~= Seq::<Option<nat>>::empty());
    }
    let mut i: usize = 0;
    while i < events.len()
        invariant
            i <= events@.len(),
            ev == events_view(events@),
            st.state() == render_all(ev.take(i as int), width, theme@),
            st.numbers_below(u64::MAX + i),
        decreases events@.len() - i,
    {
        proof {
            assert(ev.take(i + 1).drop_last() =~= ev.take(i as int));
            assert(ev.take(i + 1).last() == events@[i as int]@);
        }
        st.step(&events[i], width, theme, Ghost(u64::MAX + i));
        i = i + 1;
    }
    assert(ev.take(events@.len() as int) =~= ev);
    st.flush();
    st.lines
}

/// The preview lines of a Markdown text: none for an empty text; otherwise
/// the text with its indentation kept visible, parsed and rendered.
pub open spec fn markdown_lines(content: Seq<char>, width: u16, t: ThemeView) -> Seq<Seq<SpanView>> {
    if content.len() == 0 {
        Seq::empty()
    } else {
        rendered(md_events(preserved(content)), width, t)
    }
}

/// Renders Markdown for the preview: nothing for an empty text; otherwise
/// the text with its indentation kept visible, parsed and rendered.
pub fn render_markdown(content: &str, width: u16, theme: &Theme) -> (r: Vec<Line>)
    ensures
        lines_view(r@) == markdown_lines(content@, width, theme@),
{
    if content.unicode_len() == 0 {
        let r: Vec<Line> = Vec::new();
        assert(lines_view(r@) =~= Seq::<Seq<SpanView>>::empty());
        return r;
    }
    let text = preserve_leading_whitespace(content);
    let events = parse_markdown(text.as_str());
    render_events(events.as_slice(), width, theme)
}

} // verus!
