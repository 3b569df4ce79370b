//! What the panels and bars of the interface show: their texts, styled runs
//! and lines (drawing them is left to the terminal front end).
use vstd::prelude::*;
use crate::app::{AppMode, AppState, PanelFocus, concat};
use crate::markdown::{Line, Span, SpanView, Style, lines_view};
use crate::note::{Note, decimal};
use crate::note_manager::push_decimal_usize;
use crate::render::{fg, run};
use crate::settings::UiConfig;
use crate::text::{str_eq, push_char};
use crate::theme::{Theme, ThemeView};
use crate::update::{UpdateStatus, hint_for};
use crate::browse::format_local_date;
use ratatui::layout::{Constraint, Layout};

verus! {

/// The left part of the status bar: search results, or the note count
/// (with the tag filter when one is active).
pub open spec fn left_info_text(s: AppState, total: nat) -> Seq<char> {
    let visible = s.filtered_indices@.len();
    if s.search_query@.len() > 0 {
        decimal(visible) + " results for '"@ + s.search_query@ + "'"@
    } else {
        match s.active_tag_filter {
            Some(t) => decimal(visible) + "/"@ + decimal(total) + " notes (filtered by: "@ + t@ + ")"@,
            None => decimal(total) + " notes"@,
        }
    }
}

/// The left part of the status bar for `total` notes.
pub fn left_info(state: &AppState, total: usize) -> (r: String)
    ensures
        r@ == left_info_text(*state, total as nat),
{
    let visible = state.filtered_indices.len();
    let mut r = String::new();
    if state.search_query.as_str().unicode_len() > 0 {
        push_decimal_usize(&mut r, visible);
        r.append(" results for '");
        r.append(state.search_query.as_str());
        r.append("'");
        assert(r@ =~= left_info_text(*state, total as nat));
        return r;
    }
    match &state.active_tag_filter {
        Some(t) => {
            push_decimal_usize(&mut r, visible);
            r.append("/");
            push_decimal_usize(&mut r, total);
            r.append(" notes (filtered by: ");
            r.append(t.as_str());
            r.append(")");
        },
        None => {
            push_decimal_usize(&mut r, total);
            r.append(" notes");
        },
    }
    assert(r@ =~= left_info_text(*state, total as nat));
    r
}

/// The key hints of a mode: pairs of key and description.
pub open spec fn shortcuts(mode: AppMode) -> Seq<(Seq<char>, Seq<char>)> {
    match mode {
        AppMode::Normal => seq![
            ("^N"@, " New"@),
            ("^E"@, " Edit"@),
            ("^V"@, " View"@),
            ("^D"@, " Del"@),
            ("^F"@, " Search"@),
            ("^T"@, " Tags"@),
            ("^S"@, " Sort"@),
            ("^P"@, " Theme"@),
            ("^Q"@, " Quit"@),
        ],
        AppMode::Search => seq![("Esc"@, " Cancel"@), ("Enter"@, " Select"@)],
        AppMode::TagFilter | AppMode::SortMenu | AppMode::ThemeMenu | AppMode::MoveNote => seq![
            ("\u{2191}\u{2193}"@, " Navigate"@),
            ("Enter"@, " Select"@),
            ("Esc"@, " Cancel"@),
        ],
        AppMode::CreateNote | AppMode::Rename | AppMode::CreateFolder => seq![
            ("Enter"@, " Confirm"@),
            ("Esc"@, " Cancel"@),
        ],
        AppMode::ConfirmDelete | AppMode::ConfirmDeleteFolder => seq![("y"@, " Yes"@), ("n"@, " No"@)],
        AppMode::Help => seq![("Esc"@, " Close"@)],
    }
}

/// Key hints as runs: each key bold in the primary colour, its description
/// in the secondary colour, hints separated by two spaces.
pub open spec fn hint_runs(pairs: Seq<(Seq<char>, Seq<char>)>, t: ThemeView) -> Seq<SpanView>
    decreases pairs.len(),
{
    if pairs.len() == 0 {
        Seq::empty()
    } else {
        let prev = hint_runs(pairs.drop_last(), t);
        let sep: Seq<SpanView> = if pairs.len() > 1 {
            seq![run("  "@, fg(t.fg_secondary))]
        } else {
            Seq::empty()
        };
        prev + sep + seq![
            run(pairs.last().0, Style { fg: Some(t.fg_primary), bold: true, italic: false }),
            run(pairs.last().1, fg(t.fg_secondary)),
        ]
    }
}

/// The right part of the status bar: the key hints of the mode; while
/// searching, followed by a prompt.
pub open spec fn shortcut_runs(mode: AppMode, t: ThemeView) -> Seq<SpanView> {
    let base = hint_runs(shortcuts(mode), t);
    if mode == AppMode::Search {
        base + seq![run("  "@, fg(t.fg_secondary)), run("Type to search..."@, fg(t.fg_secondary))]
    } else {
        base
    }
}

/// The key hints of a mode, as exec texts.
fn shortcut_pairs(mode: AppMode) -> (r: Vec<(&'static str, &'static str)>)
    ensures
        r@.map_values(|p: (&'static str, &'static str)| (p.0@, p.1@)) == shortcuts(mode),
{
    let mut v: Vec<(&'static str, &'static str)> = Vec::new();
    match mode {
        AppMode::Normal => {
            v.push(("^N", " New"));
            v.push(("^E", " Edit"));
            v.push(("^V", " View"));
            v.push(("^D", " Del"));
            v.push(("^F", " Search"));
            v.push(("^T", " Tags"));
            v.push(("^S", " Sort"));
            v.push(("^P", " Theme"));
            v.push(("^Q", " Quit"));
        },
        AppMode::Search => {
            v.push(("Esc", " Cancel"));
            v.push(("Enter", " Select"));
        },
        AppMode::TagFilter | AppMode::SortMenu | AppMode::ThemeMenu | AppMode::MoveNote => {
            v.push(("\u{2191}\u{2193}", " Navigate"));
            v.push(("Enter", " Select"));
            v.push(("Esc", " Cancel"));
        },
        AppMode::CreateNote | AppMode::Rename | AppMode::CreateFolder => {
            v.push(("Enter", " Confirm"));
            v.push(("Esc", " Cancel"));
        },
        AppMode::ConfirmDelete | AppMode::ConfirmDeleteFolder => {
            v.push(("y", " Yes"));
            v.push(("n", " No"));
        },
        AppMode::Help => {
            v.push(("Esc", " Close"));
        },
    }
    assert(v@.map_values(|p: (&'static str, &'static str)| (p.0@, p.1@)) =~= shortcuts(mode));
    v
}

/// The runs of a list of spans.
pub open spec fn spans_view(v: Seq<Span>) -> Seq<SpanView> {
    v.map_values(|s: Span| s@)
}

/// The styled key hints shown on the right of the status bar.
pub fn shortcut_spans(mode: AppMode, theme: &Theme) -> (r: Vec<Span>)
    ensures
        spans_view(r@) == shortcut_runs(mode, theme@),
{
    let pairs = shortcut_pairs(mode);
    let ghost pv = pairs@.map_values(|p: (&'static str, &'static str)| (p.0@, p.1@));
    let key_style = Style { fg: Some(theme.fg_primary), bold: true, italic: false };
    let desc_style = Style { fg: Some(theme.fg_secondary), bold: false, italic: false };
    let mut spans: Vec<Span> = Vec::new();
    let mut i: usize = 0;
    while i < pairs.len()
        invariant
            i <= pairs@.len(),
            pv == pairs@.map_values(|p: (&'static str, &'static str)| (p.0@, p.1@)),
            key_style == (Style { fg: Some(theme@.fg_primary), bold: true, italic: false }),
            desc_style == fg(theme@.fg_secondary),
            spans_view(spans@) == hint_runs(pv.take(i as int), theme@),
        decreases pairs@.len() - i,
    {
        let ghost before = spans_view(spans@);
        proof {
            assert(pv.take(i + 1).drop_last() =~= pv.take(i as int));
            assert(pv.take(i + 1).last() == pv[i as int]);
        }
        if i > 0 {
            spans.push(Span { content: String::from_str("  "), style: desc_style });
        }
        let (key, desc) = pairs[i];
        spans.push(Span { content: String::from_str(key), style: key_style });
        spans.push(Span { content: String::from_str(desc), style: desc_style });
        proof {
            let sep: Seq<SpanView> = if i + 1 > 1 { seq![run("  "@, fg(theme@.fg_secondary))] } else { Seq::empty() };
            assert(spans_view(spans@) =~= before + sep + seq![
                run(pv[i as int].0, Style { fg: Some(theme@.fg_primary), bold: true, italic: false }),
                run(pv[i as int].1, fg(theme@.fg_secondary)),
            ]);
        }
        i = i + 1;
    }
    assert(pv.take(pairs@.len() as int) =~= pv);
    if let AppMode::Search = mode {
        let ghost before = spans_view(spans@);
        spans.push(Span { content: String::from_str("  "), style: desc_style });
        spans.push(Span { content: String::from_str("Type to search..."), style: desc_style });
        assert(spans_view(spans@) =~= before + seq![run("  "@, fg(theme@.fg_secondary)), run("Type to search..."@, fg(theme@.fg_secondary))]);
    }
    spans
}

/// The title of the side panel: the displayed note count, and the browsed
/// folder away from the root.
pub open spec fn side_panel_title_text(s: AppState) -> Seq<char> {
    let n = decimal(s.filtered_indices@.len());
    if s.current_folder@.len() == 0 {
        " Notes ("@ + n + ") "@
    } else {
        " Notes ("@ + n + ") \u{2014} /"@ + s.current_folder@ + " "@
    }
}

/// The title of the side panel.
pub fn side_panel_title(state: &AppState) -> (r: String)
    ensures
        r@ == side_panel_title_text(*state),
{
    let mut r = String::from_str(" Notes (");
    push_decimal_usize(&mut r, state.filtered_indices.len());
    if state.current_folder.as_str().unicode_len() == 0 {
        r.append(") ");
    } else {
        r.append(") \u{2014} /");
        r.append(state.current_folder.as_str());
        r.append(" ");
    }
    assert(r@ =~= side_panel_title_text(*state));
    r
}

/// The colour of the side panel border: the accent when focused.
pub fn side_panel_border(state: &AppState, theme: &Theme) -> (r: Option<crate::theme::Color>)
    ensures
        r == (if state.focus == PanelFocus::SidePanel { Some(theme@.accent) } else { None }),
{
    match state.focus {
        PanelFocus::SidePanel => Some(theme.accent),
        PanelFocus::MainPanel => None,
    }
}

/// The colour of the preview border: cyan when focused.
pub fn main_panel_border(state: &AppState) -> (r: Option<crate::theme::Color>)
    ensures
        r == (if state.focus == PanelFocus::MainPanel { Some(crate::theme::Color::Cyan) } else { None }),
{
    match state.focus {
        PanelFocus::MainPanel => Some(crate::theme::Color::Cyan),
        PanelFocus::SidePanel => None,
    }
}

/// The line of a folder entry: a folder icon and `..`, or the name and `/`;
/// bold in the highlight colour.
pub open spec fn folder_entry_runs(name: Seq<char>, t: ThemeView) -> Seq<SpanView> {
    let text = if name == ".."@ {
        "\u{1F4C1} .."@
    } else {
        "\u{1F4C1} "@ + name + "/"@
    };
    seq![run(text, Style { fg: Some(t.highlight), bold: true, italic: false })]
}

/// The line of a folder entry.
pub fn folder_entry(name: &str, theme: &Theme) -> (r: Line)
    ensures
        r@ == folder_entry_runs(name@, theme@),
{
    let text = if str_eq(name, "..") {
        String::from_str("\u{1F4C1} ..")
    } else {
        let mut t = String::from_str("\u{1F4C1} ");
        t.append(name);
        t.append("/");
        t
    };
    let mut spans: Vec<Span> = Vec::new();
    spans.push(Span { content: text, style: Style { fg: Some(theme.highlight), bold: true, italic: false } });
    let r = Line { spans };
    assert(r@ =~= folder_entry_runs(name@, theme@));
    r
}

/// The colour of the `i`-th tag of a note: the theme's tag colours in
/// turn, or the primary colour when it has none.
pub open spec fn tag_color(t: ThemeView, i: int) -> crate::theme::Color {
    if t.tag_colors.len() == 0 {
        t.fg_primary
    } else {
        t.tag_colors[i % (t.tag_colors.len() as int)]
    }
}

/// The runs of a note's line in the side panel, given its formatted date:
/// its title; then, when dates are shown, ` | ` and the date in the
/// secondary colour; then, when tags are shown, each tag in brackets in its
/// tag colour.
pub open spec fn note_runs(n: Note, ui: UiConfig, t: ThemeView, date: Seq<char>) -> Seq<SpanView> {
    let head = seq![run(n.title@, Style { fg: None, bold: false, italic: false })];
    let dated = if ui.show_dates {
        head.push(run(" | "@ + date, fg(t.fg_secondary)))
    } else {
        head
    };
    if ui.show_tags {
        dated + Seq::new(n.tags@.len(), |j: int| run(" ["@ + n.tags@[j]@ + "]"@, fg(tag_color(t, j))))
    } else {
        dated
    }
}

/// `l` is the line of note `n` for some date text (the text comes from the
/// local time zone, so which one is left open).
pub open spec fn note_entry_ok(l: Seq<SpanView>, n: Note, ui: UiConfig, t: ThemeView) -> bool {
    exists|d: Seq<char>| l == note_runs(n, ui, t, d)
}

/// The line of a note in the side panel, with `date` as its formatted
/// modification date.
pub fn note_entry_with_date(note: &Note, ui: &UiConfig, theme: &Theme, date: &str) -> (r: Line)
    ensures
        r@ == note_runs(*note, *ui, theme@, date@),
{
    let mut spans: Vec<Span> = Vec::new();
    spans.push(Span { content: note.title.clone(), style: Style { fg: None, bold: false, italic: false } });
    if ui.show_dates {
        let mut text = String::from_str(" | ");
        text.append(date);
        spans.push(Span { content: text, style: Style { fg: Some(theme.fg_secondary), bold: false, italic: false } });
    }
    let ghost d: int = if ui.show_dates { 1 } else { 0 };
    let ghost head = spans_view(spans@);
    proof {
        let h = seq![run(note.title@, Style { fg: None, bold: false, italic: false })];
        if ui.show_dates {
            assert(head =~= h.push(run(" | "@ + date@, fg(theme@.fg_secondary))));
        } else {
            assert(head =~= h);
        }
    }
    if ui.show_tags {
        let mut j: usize = 0;
        while j < note.tags.len()
            invariant
                j <= note.tags@.len(),
                ui.show_tags,
                d == (if ui.show_dates { 1int } else { 0int }),
                head.len() == 1 + d,
                spans@.len() == 1 + d + j,
                forall|q: int| 0 <= q < 1 + d ==> #[trigger] spans_view(spans@)[q] == head[q],
                forall|q: int|
                    0 <= q < j ==> #[trigger] spans_view(spans@)[1 + d + q] == run(
                        " ["@ + note.tags@[q]@ + "]"@,
                        fg(tag_color(theme@, q)),
                    ),
            decreases note.tags@.len() - j,
        {
            let color = if theme.tag_colors.len() == 0 {
                theme.fg_primary
            } else {
                theme.tag_colors[j % theme.tag_colors.len()]
            };
            let mut text = String::from_str(" [");
            text.append(note.tags[j].as_str());
            text.append("]");
            let ghost before = spans_view(spans@);
            let sp = Span { content: text, style: Style { fg: Some(color), bold: false, italic: false } };
            spans.push(sp);
            assert(spans_view(spans@) =~= before.push(sp@));
            assert(sp@ == run(" ["@ + note.tags@[j as int]@ + "]"@, fg(tag_color(theme@, j as int))));
            j = j + 1;
        }
        let ghost tags = Seq::new(note.tags@.len(), |q: int| run(" ["@ + note.tags@[q]@ + "]"@, fg(tag_color(theme@, q))));
        assert forall|k: int| 0 <= k < spans@.len() implies #[trigger] spans_view(spans@)[k] == (head + tags)[k] by {
            if k >= 1 + d {
                let q = k - 1 - d;
                assert(spans_view(spans@)[1 + d + q] == run(" ["@ + note.tags@[q]@ + "]"@, fg(tag_color(theme@, q))));
            }
        }
        assert(spans_view(spans@) =~= head + tags);
    }
    let r = Line { spans };
    r
}

/// The line of a note in the side panel: its modification date is
/// formatted with the configured format in the local time zone (left empty
/// when the format cannot be used).
pub fn note_entry(note: &Note, ui: &UiConfig, theme: &Theme) -> (r: Line)
    ensures
        note_entry_ok(r@, *note, *ui, theme@),
{
    let date = if ui.show_dates {
        match format_local_date(note.modified, ui.date_format.as_str()) {
            Some(d) => d,
            None => String::new(),
        }
    } else {
        String::new()
    };
    let r = note_entry_with_date(note, ui, theme, date.as_str());
    assert(r@ == note_runs(*note, *ui, theme@, date@));
    r
}

/// The side panel lines: the folder entries, then the displayed notes.
pub fn side_panel_lines(state: &AppState, notes: &[Note], ui: &UiConfig, theme: &Theme) -> (r: Vec<Line>)
    requires
        forall|i: int| 0 <= i < state.filtered_indices@.len() ==> #[trigger] state.filtered_indices@[i] < notes@.len(),
    ensures
        r@.len() == state.display_folders@.len() + state.filtered_indices@.len(),
        forall|i: int|
            0 <= i < state.display_folders@.len() ==> #[trigger] lines_view(r@)[i] == folder_entry_runs(
                state.display_folders@[i]@,
                theme@,
            ),
        forall|i: int|
            0 <= i < state.filtered_indices@.len() ==> note_entry_ok(
                lines_view(r@)[state.display_folders@.len() + i],
                notes@[#[trigger] state.filtered_indices@[i] as int],
                *ui,
                theme@,
            ),
{
    let mut r: Vec<Line> = Vec::new();
    let mut i: usize = 0;
    while i < state.display_folders.len()
        invariant
            i <= state.display_folders@.len(),
            r@.len() == i,
            forall|q: int| 0 <= q < i ==> #[trigger] lines_view(r@)[q] == folder_entry_runs(state.display_folders@[q]@, theme@),
        decreases state.display_folders@.len() - i,
    {
        let ghost before = lines_view(r@);
        let l = folder_entry(state.display_folders[i].as_str(), theme);
        r.push(l);
        assert(lines_view(r@) =~= before.push(l@));
        i = i + 1;
    }
    let f = state.display_folders.len();
    let mut j: usize = 0;
    while j < state.filtered_indices.len()
        invariant
            j <= state.filtered_indices@.len(),
            f == state.display_folders@.len(),
            r@.len() == f + j,
            forall|i: int| 0 <= i < state.filtered_indices@.len() ==> #[trigger] state.filtered_indices@[i] < notes@.len(),
            forall|q: int| 0 <= q < f ==> #[trigger] lines_view(r@)[q] == folder_entry_runs(state.display_folders@[q]@, theme@),
            forall|q: int|
                0 <= q < j ==> note_entry_ok(
                    lines_view(r@)[f + q],
                    notes@[#[trigger] state.filtered_indices@[q] as int],
                    *ui,
                    theme@,
                ),
        decreases state.filtered_indices@.len() - j,
    {
        let ghost before = lines_view(r@);
        let l = note_entry(&notes[state.filtered_indices[j]], ui, theme);
        r.push(l);
        assert(lines_view(r@) =~= before.push(l@));
        j = j + 1;
    }
    r
}

/// The search bar: a prompt, then the query with a cursor while searching,
/// a hint when there is no query, or the active query.
pub open spec fn search_bar_runs(s: AppState, t: ThemeView) -> Seq<SpanView> {
    let content = if s.mode == AppMode::Search {
        run(s.search_query@.push('\u{258C}'), fg(t.fg_primary))
    } else if s.search_query@.len() == 0 {
        run("Press Ctrl+F to search..."@, fg(t.fg_secondary))
    } else {
        run(s.search_query@, fg(t.highlight))
    };
    seq![run(" Search: "@, fg(t.accent)), content]
}

/// The search bar line.
pub fn search_bar_line(state: &AppState, theme: &Theme) -> (r: Line)
    ensures
        r@ == search_bar_runs(*state, theme@),
{
    let content = if state.mode == AppMode::Search {
        let mut text = state.search_query.clone();
        push_char(&mut text, '\u{258C}');
        Span { content: text, style: Style { fg: Some(theme.fg_primary), bold: false, italic: false } }
    } else if state.search_query.as_str().unicode_len() == 0 {
        Span { content: String::from_str("Press Ctrl+F to search..."), style: Style { fg: Some(theme.fg_secondary), bold: false, italic: false } }
    } else {
        Span { content: state.search_query.clone(), style: Style { fg: Some(theme.highlight), bold: false, italic: false } }
    };
    let mut spans: Vec<Span> = Vec::new();
    spans.push(Span { content: String::from_str(" Search: "), style: Style { fg: Some(theme.accent), bold: false, italic: false } });
    spans.push(content);
    let r = Line { spans };
    assert(r@ =~= search_bar_runs(*state, theme@));
    r
}

/// The tag filter indicator: shown only while a tag filter is active.
pub open spec fn filter_runs(tag: Seq<char>, t: ThemeView) -> Seq<SpanView> {
    seq![
        run("Filter: "@, fg(t.fg_secondary)),
        run("["@ + tag + "]"@, Style { fg: Some(t.accent), bold: true, italic: false }),
        run(" (Ctrl+T to change)"@, fg(t.fg_secondary)),
    ]
}

/// The tag filter indicator line, when a tag filter is active.
pub fn filter_indicator(state: &AppState, theme: &Theme) -> (r: Option<Line>)
    ensures
        match state.active_tag_filter {
            Some(tag) => r matches Some(l) && l@ == filter_runs(tag@, theme@),
            None => r is None,
        },
{
    match &state.active_tag_filter {
        Some(tag) => {
            let mut spans: Vec<Span> = Vec::new();
            spans.push(Span { content: String::from_str("Filter: "), style: Style { fg: Some(theme.fg_secondary), bold: false, italic: false } });
            let inner = concat(tag.as_str(), "]");
            let bracketed = concat("[", inner.as_str());
            assert(bracketed@ =~= "["@ + tag@ + "]"@);
            spans.push(Span { content: bracketed, style: Style { fg: Some(theme.accent), bold: true, italic: false } });
            spans.push(Span { content: String::from_str(" (Ctrl+T to change)"), style: Style { fg: Some(theme.fg_secondary), bold: false, italic: false } });
            let l = Line { spans };
            assert(l@ =~= filter_runs(tag@, theme@));
            Some(l)
        },
        None => None,
    }
}

/// The texts of the update banner: the versions, then the update hint.
pub fn update_banner_text(status: &UpdateStatus) -> (r: Option<(String, String)>)
    ensures
        match status {
            UpdateStatus::Available { current, latest, install_method } => r matches Some(p) && p.0@
                == " Update available: v"@ + current@ + " \u{2192} v"@ + latest@ && p.1@ == " | "@ + hint_for(
                *install_method,
            ),
            _ => r is None,
        },
{
    match status {
        UpdateStatus::Available { current, latest, .. } => {
            let mut a = String::from_str(" Update available: v");
            a.append(current.as_str());
            a.append(" \u{2192} v");
            a.append(latest.as_str());
            let hint = match status.update_hint() {
                Some(h) => h,
                None => "",
            };
            let b = concat(" | ", hint);
            Some((a, b))
        },
        _ => None,
    }
}

/// What the preview panel shows.
pub enum NoteContent {
    /// Nothing selected.
    Nothing,
    /// The selected note's body is not loaded yet.
    Loading { title: String },
    /// The selected note's title and body.
    Ready { title: String, content: String },
}

/// The note the preview shows: the displayed note at the selection index
/// (counted among the notes), with its body when loaded.
pub fn selected_note_content(state: &AppState, notes: &[Note]) -> (r: NoteContent)
    requires
        forall|i: int| 0 <= i < state.filtered_indices@.len() ==> #[trigger] state.filtered_indices@[i] < notes@.len(),
    ensures
        if state.selected_index < state.filtered_indices@.len() {
            let n = notes@[state.filtered_indices@[state.selected_index as int] as int];
            match n.content {
                Some(c) => r matches NoteContent::Ready { title, content } && title@ == n.title@ && content@ == c@,
                None => r matches NoteContent::Loading { title } && title@ == n.title@,
            }
        } else {
            r is Nothing
        },
{
    if state.filtered_indices.len() == 0 || state.selected_index >= state.filtered_indices.len() {
        return NoteContent::Nothing;
    }
    let note = &notes[state.filtered_indices[state.selected_index]];
    match &note.content {
        Some(text) => NoteContent::Ready { title: note.title.clone(), content: text.clone() },
        None => NoteContent::Loading { title: note.title.clone() },
    }
}

/// Where the parts of the status bar go on a bar `width` cells wide: the
/// left text cut to the width; the shortcuts right-aligned when they fit
/// (their start); the message centred in what is left between the two
/// with a two-cell gap on each side (its start and how much of it shows,
/// when any of it does).
pub struct StatusLayout {
    pub left_shown: usize,
    pub right_start: Option<usize>,
    pub message: Option<(usize, usize)>,
}

/// The room for the message between the left text and the shortcuts.
pub open spec fn message_room(width: int, left: int, right: int) -> int {
    if left + 2 + right + 2 < width { width - (left + 2 + right + 2) } else { 0 }
}

/// The status bar layout for the given lengths.
pub open spec fn status_layout_is(r: StatusLayout, width: usize, left_len: usize, right_len: usize, msg_len: usize) -> bool {
    let left = if left_len < width { left_len } else { width };
    let room = message_room(width as int, left as int, right_len as int);
    let shown = if (msg_len as int) < room { msg_len as int } else { room };
    &&& r.left_shown == left
    &&& r.right_start == (if right_len < width { Some((width - right_len) as usize) } else { None::<usize> })
    &&& r.message == (if shown > 0 {
        Some(((left + 2 + (room - shown) / 2) as usize, shown as usize))
    } else {
        None::<(usize, usize)>
    })
}

/// Lays out the status bar: left text, centred message, right shortcuts.
pub fn status_layout(width: usize, left_len: usize, right_len: usize, msg_len: usize) -> (r: StatusLayout)
    ensures
        status_layout_is(r, width, left_len, right_len, msg_len),
{
    let left = if left_len < width { left_len } else { width };
    let right_start = if right_len < width { Some(width - right_len) } else { None };
    let room: usize = if right_len < width {
        let rest = width - right_len;
        if left < rest && rest - left > 4 { rest - left - 4 } else { 0 }
    } else {
        0
    };
    let shown = if msg_len < room { msg_len } else { room };
    let message = if shown > 0 {
        Some((left + 2 + (room - shown) / 2, shown))
    } else {
        None
    };
    StatusLayout { left_shown: left, right_start, message }
}

/// The regions of the screen.
pub struct AppLayout {
    pub side_panel: crate::mouse::Rect,
    pub main_panel: crate::mouse::Rect,
    pub search_bar: crate::mouse::Rect,
    pub status_bar: crate::mouse::Rect,
}

/// What ratatui's layout solver gives when splitting `area` by rows into
/// a bar of `top` rows, a content area of at least `middle_min` rows and a
/// bar of `bottom` rows.
pub uninterp spec fn row_split(area: crate::mouse::Rect, top: u16, middle_min: u16, bottom: u16) -> (
    crate::mouse::Rect,
    crate::mouse::Rect,
    crate::mouse::Rect,
);

/// `ratatui::layout::Layout::split` of `area` by rows with the constraints
/// length `top`, minimum `middle_min`, length `bottom`; named `row_split`.
#[verifier::external_body]
fn split_rows(area: crate::mouse::Rect, top: u16, middle_min: u16, bottom: u16) -> (r: (
    crate::mouse::Rect,
    crate::mouse::Rect,
    crate::mouse::Rect,
))
    ensures
        r == row_split(area, top, middle_min, bottom),
{
    let v = Layout::vertical([Constraint::Length(top), Constraint::Min(middle_min), Constraint::Length(bottom)])
        .split(ratatui::layout::Rect::new(area.x, area.y, area.width, area.height));
    let conv = |q: ratatui::layout::Rect| crate::mouse::Rect { x: q.x, y: q.y, width: q.width, height: q.height };
    (conv(v[0]), conv(v[1]), conv(v[2]))
}

/// What ratatui's layout solver gives when splitting `area` into two
/// columns of `left` and `right` percent.
pub uninterp spec fn column_split(area: crate::mouse::Rect, left: u16, right: u16) -> (crate::mouse::Rect, crate::mouse::Rect);

/// `ratatui::layout::Layout::split` of `area` by columns of `left` and
/// `right` percent; named `column_split`.
#[verifier::external_body]
fn split_columns(area: crate::mouse::Rect, left: u16, right: u16) -> (r: (crate::mouse::Rect, crate::mouse::Rect))
    ensures
        r == column_split(area, left, right),
{
    let v = Layout::horizontal([Constraint::Percentage(left), Constraint::Percentage(right)])
        .split(ratatui::layout::Rect::new(area.x, area.y, area.width, area.height));
    let conv = |q: ratatui::layout::Rect| crate::mouse::Rect { x: q.x, y: q.y, width: q.width, height: q.height };
    (conv(v[0]), conv(v[1]))
}

/// The side panel width kept between 10 and 80 percent.
pub open spec fn panel_percent(p: u16) -> u16 {
    if p < 10 {
        10
    } else if p > 80 {
        80
    } else {
        p
    }
}

/// The screen regions: a one-row search bar on top, a one-row status bar
/// below, and between them (at least three rows) the side panel (its width in percent kept within 10..=80)
/// beside the preview.
pub fn compute_layout(area: crate::mouse::Rect, side_panel_width_percent: u16) -> (r: AppLayout)
    ensures
        ({
            let rows = row_split(area, 1, 3, 1);
            let p = panel_percent(side_panel_width_percent);
            let cols = column_split(rows.1, p, (100 - p) as u16);
            r.search_bar == rows.0 && r.status_bar == rows.2 && r.side_panel == cols.0 && r.main_panel == cols.1
        }),
{
    let pct = if side_panel_width_percent < 10 {
        10
    } else if side_panel_width_percent > 80 {
        80
    } else {
        side_panel_width_percent
    };
    let rows = split_rows(area, 1, 3, 1);
    let cols = split_columns(rows.1, pct, 100 - pct);
    AppLayout { side_panel: cols.0, main_panel: cols.1, search_bar: rows.0, status_bar: rows.2 }
}

} // verus!
