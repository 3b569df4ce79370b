//! Properties of the library as a whole, stated over the specifications of
//! its functions and proved from them.
use vstd::prelude::*;
use crate::actions::{normal_step, sort_menu_step, sort_mode_at, sort_position, step};
use crate::app::{App, AppAction, AppMode, Effect, KeyAction, SortMode};
use crate::sort::note_sort_keys;
use crate::browse::{refreshed, clamped, same_but_display};
use crate::mouse::{Rect, centered_rect_spec};
use crate::note::{Note, decimal, digit_char, slug_base, name_suffix};
use crate::order::{
    is_selection, is_stable_sort, lemma_stable_sort_members, lemma_selection_members, lemma_lex_order_refl,
    lemma_selection_unique, lemma_stable_sort_unique,
};
use crate::app::display_list;
use crate::note_manager::{is_subfolder_list, is_child_folder, subfolder_keys};
use crate::tags::is_sorted_tag_list;
use crate::text::code_points;
use crate::render::{MdEventView, RenderState, render_all, render_step, run, repeated, inline_style};
use crate::markdown::{SpanView, Style};
use crate::theme::ThemeView;
use crate::keybindings::{KeyCode, key_action};
use crate::update::{InstallMethod, hint_for};
use crate::ui::left_info_text;
use crate::app::AppState;

verus! {

/// The displayed notes are exactly the notes the filters let through:
/// a note is listed if and only if it is visible in the current state.
pub proof fn law_display_is_visible_notes(a: App, f: Seq<usize>, x: usize)
    requires
        a.is_display_list(f),
    ensures
        f.contains(x) <==> (x < a.note_manager.notes@.len() && a.shows(x as int)),
{
    let n = a.note_manager.notes@.len() as int;
    let keys = crate::sort::note_sort_keys(a.note_manager.notes@, a.state.sort_mode);
    let desc = !a.state.sort_ascending;
    let vis = crate::app::visible_pred(
        a.note_manager,
        a.state.current_folder@,
        a.state.search_query@,
        crate::app::tag_view(a.state.active_tag_filter),
        a.config.ui.search_content,
    );
    let sel = choose|sel: Seq<usize>|
        #![trigger is_stable_sort(f, sel, keys, desc)]
        is_selection(sel, n, vis) && is_stable_sort(f, sel, keys, desc);
    lemma_stable_sort_members(f, sel, keys, desc, x);
    if x < n {
        assert(n == a.note_manager.notes.len());
        lemma_selection_members(sel, n, vis, x as int);
    } else if sel.contains(x) {
        let k = choose|k: int| 0 <= k < sel.len() && sel[k] == x;
        assert(sel[k] < n);
    }
}

/// After the display is rebuilt the selection is on a displayed item (or
/// at 0 when nothing is displayed), and never further down than before.
pub proof fn law_selection_in_range(a: App, prev: usize)
    requires
        refreshed(a, prev),
    ensures
        a.display_count() == 0 ==> a.state.selected_index == 0,
        a.display_count() > 0 ==> a.state.selected_index < a.display_count(),
        a.state.selected_index <= prev,
{
}

/// A display list is determined by the notes, the filters and the sort.
proof fn lemma_display_list_unique(a: App, b: App, f1: Seq<usize>, f2: Seq<usize>)
    requires
        same_but_display(a, b),
        a.is_display_list(f1),
        b.is_display_list(f2),
    ensures
        f1 == f2,
{
    let nm = a.note_manager;
    let pred = crate::app::visible_pred(
        nm,
        a.state.current_folder@,
        a.state.search_query@,
        crate::app::tag_view(a.state.active_tag_filter),
        a.config.ui.search_content,
    );
    let keys = note_sort_keys(nm.notes@, a.state.sort_mode);
    let desc = !a.state.sort_ascending;
    let s1 = choose|sel: Seq<usize>|
        #![trigger is_stable_sort(f1, sel, keys, desc)]
        is_selection(sel, nm.notes@.len() as int, pred) && is_stable_sort(f1, sel, keys, desc);
    let s2 = choose|sel: Seq<usize>|
        #![trigger is_stable_sort(f2, sel, keys, desc)]
        is_selection(sel, nm.notes@.len() as int, pred) && is_stable_sort(f2, sel, keys, desc);
    lemma_selection_unique(s1, s2, nm.notes@.len() as int, pred);
    assert forall|i: int, j: int| 0 <= i < j < s1.len() implies s1[i] != s1[j] by {
        assert(s1[i] < s1[j]);
    }
    lemma_stable_sort_unique(f1, f2, s1, keys, desc);
}

/// A subfolder list is determined, as texts, by the folders and the parent.
proof fn lemma_subfolder_list_unique(r1: Seq<String>, r2: Seq<String>, folders: Seq<String>, parent: Seq<char>)
    requires
        is_subfolder_list(r1, folders, parent),
        is_subfolder_list(r2, folders, parent),
    ensures
        r1.len() == r2.len(),
        forall|k: int| 0 <= k < r1.len() ==> #[trigger] r1[k]@ == r2[k]@,
{
    let pred = |i: int| is_child_folder(folders[i]@, parent);
    let keys = subfolder_keys(folders);
    let (s1, o1) = choose|sel: Seq<usize>, order: Seq<usize>|
        #![trigger is_stable_sort(order, sel, keys, false)]
        is_selection(sel, folders.len() as int, pred) && is_stable_sort(order, sel, keys, false)
            && r1.len() == order.len() && forall|k: int|
            0 <= k < order.len() ==> #[trigger] r1[k]@ == crate::note_manager::folder_name(folders[order[k] as int]@);
    let (s2, o2) = choose|sel: Seq<usize>, order: Seq<usize>|
        #![trigger is_stable_sort(order, sel, keys, false)]
        is_selection(sel, folders.len() as int, pred) && is_stable_sort(order, sel, keys, false)
            && r2.len() == order.len() && forall|k: int|
            0 <= k < order.len() ==> #[trigger] r2[k]@ == crate::note_manager::folder_name(folders[order[k] as int]@);
    lemma_selection_unique(s1, s2, folders.len() as int, pred);
    assert forall|i: int, j: int| 0 <= i < j < s1.len() implies s1[i] != s1[j] by {
        assert(s1[i] < s1[j]);
    }
    lemma_stable_sort_unique(o1, o2, s1, keys, false);
    assert forall|k: int| 0 <= k < r1.len() implies #[trigger] r1[k]@ == r2[k]@ by {
        assert(r1[k]@ == crate::note_manager::folder_name(folders[o1[k] as int]@));
        assert(r2[k]@ == crate::note_manager::folder_name(folders[o2[k] as int]@));
    }
}

/// Rebuilding the display a second time, with nothing else changed, changes
/// nothing: the displayed notes, the folder entries (as texts), the
/// selection and the scroll offset stay as the first rebuild left them.
pub proof fn law_refilter_twice(a: App, b: App, c: App)
    requires
        same_but_display(a, b),
        refreshed(b, a.state.selected_index),
        same_but_display(b, c),
        refreshed(c, b.state.selected_index),
    ensures
        c.state.filtered_indices@ == b.state.filtered_indices@,
        c.state.display_folders@.len() == b.state.display_folders@.len(),
        forall|k: int|
            0 <= k < c.state.display_folders@.len() ==> #[trigger] c.state.display_folders@[k]@
                == b.state.display_folders@[k]@,
        c.state.selected_index == b.state.selected_index,
        c.state.scroll_offset == b.state.scroll_offset,
{
    lemma_display_list_unique(b, c, b.state.filtered_indices@, c.state.filtered_indices@);
    let bf = b.state.display_folders@;
    let cf = c.state.display_folders@;
    let folders = b.note_manager.folders@;
    let cur = b.state.current_folder@;
    if b.state.search_query@.len() > 0 || b.state.active_tag_filter is Some {
    } else if cur.len() == 0 {
        lemma_subfolder_list_unique(bf, cf, folders, cur);
    } else {
        lemma_subfolder_list_unique(bf.skip(1), cf.skip(1), folders, cur);
        assert forall|k: int| 0 <= k < cf.len() implies #[trigger] cf[k]@ == bf[k]@ by {
            if k > 0 {
                assert(bf.skip(1)[k - 1]@ == cf.skip(1)[k - 1]@);
            }
        }
    }
}

/// Toggling the focus twice in normal mode restores the state it started
/// from; each toggle moves the focus and asks for nothing.
pub proof fn law_toggle_focus_twice(a: App, b: App, c: App, r1: Effect, r2: Effect)
    requires
        a.state.mode == AppMode::Normal,
        step(a, KeyAction::ToggleFocus, b, r1),
        step(b, KeyAction::ToggleFocus, c, r2),
    ensures
        b.state.focus != a.state.focus,
        c@ == a@,
        r1 == Effect::Done(AppAction::Nothing),
        r2 == Effect::Done(AppAction::Nothing),
{
    assert(b@.mode == a@.mode);
    assert(b.state.mode == AppMode::Normal);
}

/// In normal mode every action but a refresh leaves the notes' metadata,
/// the folders and the configuration as they were, and asks for no file
/// work: its effect is only to continue, open a note, or quit.
pub proof fn law_normal_touches_no_files(a: App, action: KeyAction, b: App, r: Effect)
    requires
        a.wf(),
        a.state.mode == AppMode::Normal,
        action != KeyAction::Refresh,
        step(a, action, b, r),
    ensures
        r is Done,
        b.note_manager.notes@.len() == a.note_manager.notes@.len(),
        forall|i: int|
            0 <= i < a.note_manager.notes@.len() ==> {
                let x = #[trigger] a.note_manager.notes@[i];
                let y = b.note_manager.notes@[i];
                &&& y.path == x.path
                &&& y.title == x.title
                &&& y.tags == x.tags
                &&& y.created == x.created
                &&& y.modified == x.modified
            },
        b.note_manager.folders == a.note_manager.folders,
        b.note_manager.notes_dir == a.note_manager.notes_dir,
        b.config == a.config,
{
}

/// Picking a sort in the sort menu saves it in the configuration so that
/// reading the configuration back (as a new session does) gives the same
/// sort mode and direction.
pub proof fn law_sort_choice_saved(a: App, b: App, r: Effect)
    requires
        a.state.mode == AppMode::SortMenu,
        step(a, KeyAction::Select, b, r),
    ensures
        r == Effect::SaveConfig,
        crate::settings::sort_mode_named(b.config.sort.default_mode@) == b.state.sort_mode,
        b.config.sort.default_ascending == b.state.sort_ascending,
{
    reveal_strlit("modified");
    reveal_strlit("created");
    reveal_strlit("title");
    assert("modified"@[0] != "created"@[0]);
    assert("modified"@[0] != "title"@[0]);
    assert("created"@[0] != "title"@[0]);
}

/// The tag list holds no tag twice.
pub proof fn law_tags_distinct(notes: Seq<Note>, tags: Seq<String>, i: int, j: int)
    requires
        is_sorted_tag_list(notes, tags),
        0 <= i < j < tags.len(),
    ensures
        tags[i]@ != tags[j]@,
{
    if tags[i]@ == tags[j]@ {
        lemma_lex_order_refl(code_points(tags[i]@));
    }
}

/// A decimal representation has at least one digit.
pub proof fn lemma_decimal_nonempty(n: nat)
    ensures
        decimal(n).len() >= 1,
    decreases n,
{
    if n >= 10 {
        lemma_decimal_nonempty(n / 10);
    }
}

/// Different numbers have different decimal representations.
pub proof fn lemma_decimal_injective(a: nat, b: nat)
    requires
        decimal(a) == decimal(b),
    ensures
        a == b,
    decreases a,
{
    if a >= 10 {
        lemma_decimal_nonempty(a / 10);
    }
    if b >= 10 {
        lemma_decimal_nonempty(b / 10);
    }
    let da = decimal(a);
    let db = decimal(b);
    assert(da.last() == db.last());
    if a >= 10 && b >= 10 {
        assert(da.drop_last() =~= decimal(a / 10));
        assert(db.drop_last() =~= decimal(b / 10));
        lemma_decimal_injective(a / 10, b / 10);
    }
}

/// Every collision counter gives a different file name, so trying counters
/// in turn never tries a name twice.
pub proof fn law_file_names_distinct(title: Seq<char>, c1: nat, c2: nat)
    requires
        c1 != c2,
    ensures
        slug_base(title) + name_suffix(c1) != slug_base(title) + name_suffix(c2),
{
    let b = slug_base(title);
    let s1 = name_suffix(c1);
    let s2 = name_suffix(c2);
    if b + s1 == b + s2 {
        assert((b + s1).skip(b.len() as int) =~= s1);
        assert((b + s2).skip(b.len() as int) =~= s2);
        assert(s1 == s2);
        lemma_decimal_nonempty(c1);
        lemma_decimal_nonempty(c2);
        if c1 == 0 || c2 == 0 {
            assert(s1.len() != s2.len());
        } else {
            let d1 = decimal(c1);
            let d2 = decimal(c2);
            assert(s1 =~= "-"@ + d1 + ".md"@);
            assert(s2 =~= "-"@ + d2 + ".md"@);
            reveal_strlit("-");
            reveal_strlit(".md");
            assert(s1.subrange(1, s1.len() - 3) =~= d1);
            assert(s2.subrange(1, s2.len() - 3) =~= d2);
            lemma_decimal_injective(c1, c2);
        }
    }
}

/// Opening the sort menu highlights the current sort mode.
pub proof fn law_sort_menu_opens_on_current(a: App, b: App, r: Effect)
    requires
        a.state.mode == AppMode::Normal,
        step(a, KeyAction::Sort, b, r),
    ensures
        b.state.mode == AppMode::SortMenu,
        sort_mode_at(b.sort_menu_index) == a.state.sort_mode,
        b.state.sort_ascending == a.state.sort_ascending,
{
}

/// Picking the current sort mode again flips the sort direction and keeps
/// the mode; picking another mode keeps the direction.
pub proof fn law_sort_pick(a: App, b: App, r: Effect)
    requires
        a.state.mode == AppMode::SortMenu,
        step(a, KeyAction::Select, b, r),
    ensures
        sort_mode_at(a.sort_menu_index) == a.state.sort_mode ==> b.state.sort_mode == a.state.sort_mode
            && b.state.sort_ascending == !a.state.sort_ascending,
        sort_mode_at(a.sort_menu_index) != a.state.sort_mode ==> b.state.sort_mode == sort_mode_at(
            a.sort_menu_index,
        ) && b.state.sort_ascending == a.state.sort_ascending,
        b.state.mode == AppMode::Normal,
{
}

/// A centred popup lies within its area.
pub proof fn law_centered_rect_inside(width: u16, height: u16, area: Rect)
    requires
        area.x + area.width <= u16::MAX,
        area.y + area.height <= u16::MAX,
    ensures
        ({
            let r = centered_rect_spec(width, height, area);
            &&& area.x <= r.x
            &&& r.x + r.width <= area.x + area.width
            &&& area.y <= r.y
            &&& r.y + r.height <= area.y + area.height
            &&& r.width <= width && r.height <= height
        }),
{
}


/// Rendering the events `es` one after another, starting from `s`.
pub open spec fn render_from(s: RenderState, es: Seq<MdEventView>, width: u16, t: ThemeView) -> RenderState
    decreases es.len(),
{
    if es.len() == 0 {
        s
    } else {
        render_step(render_from(s, es.drop_last(), width, t), es.last(), width, t)
    }
}

/// The events of list items holding the given texts, one item per text.
pub open spec fn item_events(texts: Seq<Seq<char>>) -> Seq<MdEventView>
    decreases texts.len(),
{
    if texts.len() == 0 {
        Seq::empty()
    } else {
        item_events(texts.drop_last()) + seq![
            MdEventView::StartItem,
            MdEventView::Text(texts.last()),
            MdEventView::EndItem,
        ]
    }
}

/// Rendering `a` then `b` is rendering `b` from where `a` left off.
proof fn lemma_render_concat(a: Seq<MdEventView>, b: Seq<MdEventView>, width: u16, t: ThemeView)
    ensures
        render_all(a + b, width, t) == render_from(render_all(a, width, t), b, width, t),
    decreases b.len(),
{
    if b.len() == 0 {
        assert(a + b =~= a);
    } else {
        lemma_render_concat(a, b.drop_last(), width, t);
        assert((a + b).drop_last() =~= a + b.drop_last());
        assert((a + b).last() == b.last());
    }
}

/// Rendering from a state splits over concatenated events.
proof fn lemma_render_from_concat(s: RenderState, a: Seq<MdEventView>, b: Seq<MdEventView>, width: u16, t: ThemeView)
    ensures
        render_from(s, a + b, width, t) == render_from(render_from(s, a, width, t), b, width, t),
    decreases b.len(),
{
    if b.len() == 0 {
        assert(a + b =~= a);
    } else {
        lemma_render_from_concat(s, a, b.drop_last(), width, t);
        assert((a + b).drop_last() =~= a + b.drop_last());
        assert((a + b).last() == b.last());
    }
}

/// Each finished item of the innermost ordered list raises its number by
/// one; nothing else about the open lists, code or quote changes.
proof fn lemma_items_count(s: RenderState, texts: Seq<Seq<char>>, n: nat, width: u16, t: ThemeView)
    requires
        s.lists.len() > 0,
        s.lists.last() == Some(n),
    ensures
        render_from(s, item_events(texts), width, t).lists == s.lists.update(
            s.lists.len() - 1,
            Some((n + texts.len()) as nat),
        ),
        render_from(s, item_events(texts), width, t).in_code == s.in_code,
        render_from(s, item_events(texts), width, t).in_quote == s.in_quote,
    decreases texts.len(),
{
    if texts.len() == 0 {
        assert(s.lists.update(s.lists.len() - 1, Some((n + 0) as nat)) =~= s.lists);
    } else {
        let k = texts.len() - 1;
        let before = item_events(texts.drop_last());
        let three = seq![MdEventView::StartItem, MdEventView::Text(texts.last()), MdEventView::EndItem];
        lemma_items_count(s, texts.drop_last(), n, width, t);
        lemma_render_from_concat(s, before, three, width, t);
        let p = render_from(s, before, width, t);
        assert(three.drop_last().drop_last().drop_last() =~= Seq::<MdEventView>::empty());
        assert(three.drop_last().drop_last().last() == MdEventView::StartItem);
        assert(three.drop_last().last() == MdEventView::Text(texts.last()));
        assert(three.last() == MdEventView::EndItem);
        let p1 = render_step(p, MdEventView::StartItem, width, t);
        let p2 = render_step(p1, MdEventView::Text(texts.last()), width, t);
        assert(render_from(p, three.drop_last().drop_last().drop_last(), width, t) == p);
        assert(render_from(p, three.drop_last().drop_last(), width, t) == p1);
        assert(render_from(p, three.drop_last(), width, t) == p2);
        assert(render_from(p, three, width, t) == render_step(p2, MdEventView::EndItem, width, t));
        assert(p2.lists == p.lists);
        assert(p.lists.last() == Some((n + k) as nat));
        assert(render_step(p2, MdEventView::EndItem, width, t).lists =~= s.lists.update(
            s.lists.len() - 1,
            Some((n + texts.len()) as nat),
        ));
    }
}

/// Ordered lists count their items: in a list opened with start number
/// `start`, after `k` finished items (whatever their texts) the list's
/// next number is `start + k`, so the text of the next item is preceded by
/// the list's indentation (two spaces per open list), the decimal of
/// `start + k`, and ". ".
pub proof fn law_ordered_list_numbering(
    es: Seq<MdEventView>,
    start: u64,
    texts: Seq<Seq<char>>,
    x: Seq<char>,
    width: u16,
    t: ThemeView,
)
    requires
        !render_all(es, width, t).in_code,
        !render_all(es, width, t).in_quote,
    ensures
        ({
            let opened = es.push(MdEventView::StartList(Some(start)));
            let after = render_all(opened + item_events(texts), width, t);
            let depth = render_all(es, width, t).lists.len() + 1;
            &&& after.lists.len() == depth
            &&& after.lists.last() == Some((start + texts.len()) as nat)
            &&& render_all(opened + item_events(texts) + seq![MdEventView::StartItem, MdEventView::Text(x)], width, t).spans
                == after.spans.push(run(
                    repeated("  "@, depth as nat) + crate::note::decimal((start + texts.len()) as nat) + ". "@,
                    Style { fg: None, bold: false, italic: false },
                )).push(run(x, inline_style(after.heading, after.strong, after.emphasis, t)))
        }),
{
    let opened = es.push(MdEventView::StartList(Some(start)));
    let base = render_all(opened, width, t);
    assert(opened.drop_last() =~= es);
    assert(base.lists == render_all(es, width, t).lists.push(Some(start as nat)));
    lemma_render_concat(opened, item_events(texts), width, t);
    lemma_items_count(base, texts, start as nat, width, t);
    let after = render_all(opened + item_events(texts), width, t);
    let tail = seq![MdEventView::StartItem, MdEventView::Text(x)];
    lemma_render_concat(opened + item_events(texts), tail, width, t);
    assert(tail.drop_last().drop_last() =~= Seq::<MdEventView>::empty());
    assert(tail.drop_last().last() == MdEventView::StartItem);
    assert(tail.last() == MdEventView::Text(x));
    let q1 = render_step(after, MdEventView::StartItem, width, t);
    assert(render_from(after, tail.drop_last().drop_last(), width, t) == after);
    assert(render_from(after, tail.drop_last(), width, t) == q1);
    assert(render_from(after, tail, width, t) == render_step(q1, MdEventView::Text(x), width, t));
    assert(!after.in_code && !after.in_quote);
    assert(after.lists.len() > 0);
}

/// In an unordered list the open list stays unnumbered however many items
/// are finished.
proof fn lemma_items_unordered(s: RenderState, texts: Seq<Seq<char>>, width: u16, t: ThemeView)
    requires
        s.lists.len() > 0,
        s.lists.last() == None::<nat>,
    ensures
        render_from(s, item_events(texts), width, t).lists == s.lists,
        render_from(s, item_events(texts), width, t).in_code == s.in_code,
        render_from(s, item_events(texts), width, t).in_quote == s.in_quote,
    decreases texts.len(),
{
    if texts.len() > 0 {
        let before = item_events(texts.drop_last());
        let three = seq![MdEventView::StartItem, MdEventView::Text(texts.last()), MdEventView::EndItem];
        lemma_items_unordered(s, texts.drop_last(), width, t);
        lemma_render_from_concat(s, before, three, width, t);
        let p = render_from(s, before, width, t);
        let p1 = render_step(p, MdEventView::StartItem, width, t);
        let p2 = render_step(p1, MdEventView::Text(texts.last()), width, t);
        assert(three.drop_last().drop_last().drop_last() =~= Seq::<MdEventView>::empty());
        assert(three.drop_last().drop_last().last() == MdEventView::StartItem);
        assert(three.drop_last().last() == MdEventView::Text(texts.last()));
        assert(three.last() == MdEventView::EndItem);
        assert(render_from(p, three.drop_last().drop_last().drop_last(), width, t) == p);
        assert(render_from(p, three.drop_last().drop_last(), width, t) == p1);
        assert(render_from(p, three.drop_last(), width, t) == p2);
    }
}

/// Unordered lists use bullets: in a list opened without a start number,
/// after any finished items the text of the next item is preceded by the
/// list's indentation (two spaces per open list) and "\u{2022} ".
pub proof fn law_unordered_list_bullets(es: Seq<MdEventView>, texts: Seq<Seq<char>>, x: Seq<char>, width: u16, t: ThemeView)
    requires
        !render_all(es, width, t).in_code,
        !render_all(es, width, t).in_quote,
    ensures
        ({
            let opened = es.push(MdEventView::StartList(None));
            let after = render_all(opened + item_events(texts), width, t);
            let depth = render_all(es, width, t).lists.len() + 1;
            render_all(opened + item_events(texts) + seq![MdEventView::StartItem, MdEventView::Text(x)], width, t).spans
                == after.spans.push(run(
                    repeated("  "@, depth as nat) + "\u{2022} "@,
                    Style { fg: None, bold: false, italic: false },
                )).push(run(x, inline_style(after.heading, after.strong, after.emphasis, t)))
        }),
{
    let opened = es.push(MdEventView::StartList(None));
    let base = render_all(opened, width, t);
    assert(opened.drop_last() =~= es);
    lemma_render_concat(opened, item_events(texts), width, t);
    lemma_items_unordered(base, texts, width, t);
    let after = render_all(opened + item_events(texts), width, t);
    let tail = seq![MdEventView::StartItem, MdEventView::Text(x)];
    lemma_render_concat(opened + item_events(texts), tail, width, t);
    assert(tail.drop_last().drop_last() =~= Seq::<MdEventView>::empty());
    assert(tail.drop_last().last() == MdEventView::StartItem);
    assert(tail.last() == MdEventView::Text(x));
    let q1 = render_step(after, MdEventView::StartItem, width, t);
    assert(render_from(after, tail.drop_last().drop_last(), width, t) == after);
    assert(render_from(after, tail.drop_last(), width, t) == q1);
    assert(render_from(after, tail, width, t) == render_step(q1, MdEventView::Text(x), width, t));
}

/// Choosing a theme in the theme menu applies it: the current theme
/// becomes the highlighted one of the available themes, its name is
/// announced as "Theme: <name>" and saved as the default theme, and the
/// menu closes with the configuration to be saved.
pub proof fn law_theme_choice_applied(a: App, b: App, r: Effect)
    requires
        a.state.mode == AppMode::ThemeMenu,
        a.theme_menu_index < a.available_themes@.len(),
        step(a, KeyAction::Select, b, r),
    ensures
        ({
            let chosen = a@.available_themes[a.theme_menu_index as int];
            &&& b@.current_theme == chosen
            &&& b.config.ui.default_theme@ == chosen.name
            &&& b@.status_message == Some("Theme: "@ + chosen.name)
            &&& b.state.mode == AppMode::Normal
            &&& r == Effect::SaveConfig
        }),
{
    let mid = choose|mid: App| #[trigger] crate::actions::theme_selected(a, a@.theme_menu_index, mid, r)
        && b@ == crate::actions::in_mode(mid@, AppMode::Normal);
}

/// In every mode that shows a list to choose from (tag filter, sort,
/// theme and move menus), and in normal mode, the Down arrow and a plain
/// `j` move down and the Up arrow and a plain `k` move up; the two
/// directions never share a key.
pub proof fn law_list_keys_navigate(mode: AppMode)
    requires
        mode == AppMode::Normal || mode == AppMode::TagFilter || mode == AppMode::SortMenu || mode
            == AppMode::ThemeMenu || mode == AppMode::MoveNote,
    ensures
        key_action(KeyCode::Down, false, mode) == Some(KeyAction::NavigateDown),
        key_action(KeyCode::Char('j'), false, mode) == Some(KeyAction::NavigateDown),
        key_action(KeyCode::Up, false, mode) == Some(KeyAction::NavigateUp),
        key_action(KeyCode::Char('k'), false, mode) == Some(KeyAction::NavigateUp),
        key_action(KeyCode::Down, false, mode) != key_action(KeyCode::Up, false, mode),
{
}

/// In the text-input modes the arrows still move the selection: Down
/// moves down and Up moves up.
pub proof fn law_text_mode_arrows(mode: AppMode)
    requires
        mode == AppMode::Search || mode == AppMode::CreateNote || mode == AppMode::Rename || mode
            == AppMode::CreateFolder,
    ensures
        key_action(KeyCode::Down, false, mode) == Some(KeyAction::NavigateDown),
        key_action(KeyCode::Up, false, mode) == Some(KeyAction::NavigateUp),
{
}

/// The left of the status bar: while searching, the number of displayed
/// results, " results for '", the query and "'"; with a tag filter and no
/// search, the number of displayed notes, "/", the total number of notes,
/// then " notes (filtered by: <tag>)"; with neither, the total and " notes".
pub proof fn law_status_counts(s: AppState, total: nat)
    ensures
        s.search_query@.len() > 0 ==> left_info_text(s, total) == decimal(s.filtered_indices@.len())
            + " results for '"@ + s.search_query@ + "'"@,
        s.search_query@.len() == 0 ==> (s.active_tag_filter matches Some(tag) ==> left_info_text(s, total) == decimal(s.filtered_indices@.len())
            + "/"@ + decimal(total) + " notes (filtered by: "@ + tag@ + ")"@),
        s.search_query@.len() == 0 && s.active_tag_filter is None ==> left_info_text(s, total) == decimal(total)
            + " notes"@,
{
}

/// Each installation method is told its own way to update: cargo installs
/// "cargo install deez-notes", pacman (AUR) installs
/// "yay -S deez-notes-bin", manual binaries the releases page; different
/// methods get different hints.
pub proof fn law_update_hint_per_method(m1: InstallMethod, m2: InstallMethod)
    ensures
        m1 == InstallMethod::Cargo ==> hint_for(m1) == "cargo install deez-notes"@,
        m1 == InstallMethod::Pacman ==> hint_for(m1) == "yay -S deez-notes-bin"@,
        m1 == InstallMethod::ManualBinary ==> hint_for(m1) == "https://github.com/BaLaurent/deez-notes/releases"@,
        m1 != m2 ==> hint_for(m1) != hint_for(m2),
{
    reveal_strlit("cargo install deez-notes");
    reveal_strlit("yay -S deez-notes-bin");
    reveal_strlit("https://github.com/BaLaurent/deez-notes/releases");
    assert("cargo install deez-notes"@[0] != "yay -S deez-notes-bin"@[0]);
    assert("cargo install deez-notes"@[0] != "https://github.com/BaLaurent/deez-notes/releases"@[0]);
    assert("yay -S deez-notes-bin"@[0] != "https://github.com/BaLaurent/deez-notes/releases"@[0]);
}

} // verus!
