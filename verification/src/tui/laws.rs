//! What holds of the browser as a whole.
use crate::gists;
use crate::gists::GistView;
use crate::sort;
use crate::tui::editor::SaveView;
use crate::tui::events;
use crate::tui::events::{ActionView, BgMessageView};
use crate::tui::highlight;
use crate::tui::highlight::Highlighting;
use crate::tui::keys;
use crate::tui::keys::{KeyCode, KeyEvent, KeyKind};
use crate::tui::model;
use crate::tui::model::{AppView, EditSessionView, EntryKindView, EntryView, Focus};
use vstd::prelude::*;

verus! {

/// Whether a line is that of a gist.
pub open spec fn is_gist_line() -> spec_fn(EntryView) -> bool {
    |e: EntryView| e.kind is Gist
}

/// The gist that a line belongs to.
pub open spec fn gist_of(entry: EntryView) -> Seq<char> {
    match entry.kind {
        EntryKindView::Gist { id, .. } => id,
        EntryKindView::File { gist_id, .. } => gist_id,
    }
}

/// Whether no two gists share an identifier.
pub open spec fn distinct(gists: Seq<GistView>) -> bool {
    forall|i: int, j: int|
        0 <= i < j < gists.len() ==> (#[trigger] gists[i]).id != (#[trigger] gists[j]).id
}

impl AppView {
    /// Whether the lines of the sidebar are those of the gists.
    pub open spec fn fresh(self) -> bool {
        self.entries == model::sidebar(self.gists, self.expanded)
    }
}

/// Of the lines of a gist the first alone is that of a gist.
proof fn lemma_own_gist_line(gist: GistView, open: bool)
    ensures
        model::gist_entries(gist, open).filter(is_gist_line()) == seq![
            model::gist_entry(gist, open),
        ],
{
    let p = is_gist_line();
    let own = model::gist_entries(gist, open);
    let first = seq![model::gist_entry(gist, open)];
    let files = own.skip(1);
    assert(own =~= first + files);
    Seq::filter_distributes_over_add(first, files, p);
    assert forall|i: int| 0 <= i < files.len() implies !p(#[trigger] files[i]) by {
        assert(files[i] == own[i + 1]);
    }
    lemma_filter_none(files, p);
    assert(first.filter(p) == first) by {
        reveal(Seq::filter);
        assert(first.drop_last() =~= Seq::<EntryView>::empty());
        lemma_filter_none(Seq::<EntryView>::empty(), p);
        assert(first.filter(p) =~= first);
    }
    assert(first + Seq::<EntryView>::empty() =~= first);
}

proof fn lemma_gist_lines(gists: Seq<GistView>, expanded: Set<Seq<char>>)
    ensures
        model::all_entries(gists, expanded).filter(is_gist_line()) == gists.map_values(
            |g: GistView| model::gist_entry(g, expanded.contains(g.id)),
        ),
    decreases gists.len(),
{
    let p = is_gist_line();
    let line = |g: GistView| model::gist_entry(g, expanded.contains(g.id));
    if gists.len() == 0 {
        lemma_filter_none(model::all_entries(gists, expanded), p);
        assert(gists.map_values(line) =~= Seq::<EntryView>::empty());
    } else {
        let front = gists.drop_last();
        let gist = gists.last();
        let open = expanded.contains(gist.id);
        lemma_gist_lines(front, expanded);
        lemma_own_gist_line(gist, open);
        Seq::filter_distributes_over_add(
            model::all_entries(front, expanded),
            model::gist_entries(gist, open),
            p,
        );
        assert(gists.map_values(line) =~= front.map_values(line) + seq![line(gist)]);
    }
}

proof fn lemma_filter_none<A>(s: Seq<A>, p: spec_fn(A) -> bool)
    requires
        forall|i: int| 0 <= i < s.len() ==> !p(#[trigger] s[i]),
    ensures
        s.filter(p) == Seq::<A>::empty(),
    decreases s.len(),
{
    reveal(Seq::filter);
    if s.len() > 0 {
        assert(!p(s[s.len() - 1]));
        lemma_filter_none(s.drop_last(), p);
    }
}

/// The sidebar has one line for each gist, the gist that was changed last first.
pub proof fn law_one_line_for_each_gist(gists: Seq<GistView>, expanded: Set<Seq<char>>)
    ensures
        model::sidebar(gists, expanded).filter(is_gist_line()) == gists::by_update(
            gists,
        ).map_values(|g: GistView| model::gist_entry(g, expanded.contains(g.id))),
{
    lemma_gist_lines(gists::by_update(gists), expanded);
}

/// The lines of the first `k` gists are the first lines.
proof fn lemma_prefix(gists: Seq<GistView>, expanded: Set<Seq<char>>, k: int)
    requires
        0 <= k <= gists.len(),
    ensures
        model::all_entries(gists.take(k), expanded).len() <= model::all_entries(
            gists,
            expanded,
        ).len(),
        model::all_entries(gists.take(k), expanded) == model::all_entries(gists, expanded).take(
            model::all_entries(gists.take(k), expanded).len() as int,
        ),
    decreases gists.len(),
{
    let all = model::all_entries(gists, expanded);
    let part = model::all_entries(gists.take(k), expanded);
    if k == gists.len() {
        assert(gists.take(k) =~= gists);
        assert(part =~= all.take(part.len() as int));
    } else {
        lemma_prefix(gists.drop_last(), expanded, k);
        assert(gists.drop_last().take(k) =~= gists.take(k));
        assert(part =~= all.take(part.len() as int));
    }
}

/// A line stands for a gist, or for a file of an open gist.
proof fn lemma_line(gists: Seq<GistView>, expanded: Set<Seq<char>>, i: int) -> (k: int)
    requires
        0 <= i < model::all_entries(gists, expanded).len(),
    ensures
        0 <= k < gists.len(),
        gist_of(model::all_entries(gists, expanded)[i]) == gists[k].id,
        match model::all_entries(gists, expanded)[i].kind {
            EntryKindView::Gist { .. } => i == model::all_entries(gists.take(k), expanded).len()
                && model::all_entries(gists, expanded)[i] == model::gist_entry(
                gists[k],
                expanded.contains(gists[k].id),
            ),
            EntryKindView::File { filename, .. } => expanded.contains(gists[k].id)
                && gists[k].has_file(filename) && model::all_entries(gists, expanded)[i]
                == model::file_entry(gists[k].id, filename),
        },
    decreases gists.len(),
{
    let front = gists.drop_last();
    let before = model::all_entries(front, expanded);
    let gist = gists.last();
    if i < before.len() {
        let k = lemma_line(front, expanded, i);
        assert(front.take(k) =~= gists.take(k));
        k
    } else {
        let k = gists.len() - 1;
        let own = model::gist_entries(gist, expanded.contains(gist.id));
        assert(model::all_entries(gists, expanded)[i] == own[i - before.len()]);
        assert(gists.take(k) =~= front);
        if i > before.len() {
            let name = gist.sorted_names()[i - before.len() - 1];
            assert(own[i - before.len()] == model::file_entry(gist.id, name));
            assert(gist.sorted_names().contains(name));
            sort::lemma_sort_contains(gist.names(), gists::name_order(), name);
        }
        k
    }
}

/// The first line of gist `k`, and where it is open a line for each of its files, is among the
/// lines.
pub proof fn lemma_lines_of_gist(gists: Seq<GistView>, expanded: Set<Seq<char>>, k: int)
    requires
        0 <= k < gists.len(),
    ensures
        ({
            let all = model::all_entries(gists, expanded);
            let own = model::gist_entries(gists[k], expanded.contains(gists[k].id));
            let start = model::all_entries(gists.take(k), expanded).len();
            start + own.len() <= all.len() && all.subrange(
                start as int,
                (start + own.len()) as int,
            ) == own
        }),
{
    let all = model::all_entries(gists, expanded);
    let own = model::gist_entries(gists[k], expanded.contains(gists[k].id));
    let front = model::all_entries(gists.take(k), expanded);
    lemma_prefix(gists, expanded, k + 1);
    assert(gists.take(k + 1).drop_last() =~= gists.take(k));
    assert(gists.take(k + 1).last() == gists[k]);
    let both = model::all_entries(gists.take(k + 1), expanded);
    assert(both == front + own);
    assert(all.subrange(front.len() as int, (front.len() + own.len()) as int) =~= own) by {
        assert forall|j: int| 0 <= j < own.len() implies all[front.len() + j] == own[j] by {
            assert(both[front.len() + j] == own[j]);
        }
    }
}

/// Each line is that of one of the gists, or of a file of an open gist.
pub proof fn law_lines_belong_to_gists(gists: Seq<GistView>, expanded: Set<Seq<char>>, i: int)
    requires
        0 <= i < model::sidebar(gists, expanded).len(),
    ensures
        ({
            let entry = model::sidebar(gists, expanded)[i];
            exists|g: GistView|
                #[trigger] gists.contains(g) && g.id == gist_of(entry) && match entry.kind {
                    EntryKindView::Gist { .. } => entry == model::gist_entry(
                        g,
                        expanded.contains(g.id),
                    ),
                    EntryKindView::File { filename, .. } => expanded.contains(g.id) && g.has_file(
                        filename,
                    ) && entry == model::file_entry(g.id, filename),
                }
        }),
{
    let sorted = gists::by_update(gists);
    let k = lemma_line(sorted, expanded, i);
    assert(sorted.contains(sorted[k]));
    sort::lemma_sort_contains(gists, gists::update_order(), sorted[k]);
}

/// Each gist has a line and, where it is open, so has each of its files.
pub proof fn law_gists_have_lines(
    gists: Seq<GistView>,
    expanded: Set<Seq<char>>,
    gist: GistView,
    name: Seq<char>,
)
    requires
        gists.contains(gist),
    ensures
        model::sidebar(gists, expanded).contains(
            model::gist_entry(gist, expanded.contains(gist.id)),
        ),
        expanded.contains(gist.id) && gist.has_file(name) ==> model::sidebar(
            gists,
            expanded,
        ).contains(model::file_entry(gist.id, name)),
{
    let sorted = gists::by_update(gists);
    sort::lemma_sort_contains(gists, gists::update_order(), gist);
    let k = choose|k: int| 0 <= k < sorted.len() && sorted[k] == gist;
    let open = expanded.contains(gist.id);
    let own = model::gist_entries(gist, open);
    let all = model::sidebar(gists, expanded);
    lemma_lines_of_gist(sorted, expanded, k);
    let start = model::all_entries(sorted.take(k), expanded).len() as int;
    assert(all[start] == all.subrange(start, start + own.len())[0]);
    assert(own[0] == model::gist_entry(gist, open));
    if open && gist.has_file(name) {
        sort::lemma_sort_contains(gist.names(), gists::name_order(), name);
        let j = choose|j: int| 0 <= j < gist.sorted_names().len() && gist.sorted_names()[j] == name;
        assert(own[j + 1] == model::file_entry(gist.id, name));
        assert(all[start + j + 1] == all.subrange(start, start + own.len())[j + 1]);
    }
}

/// Sorting keeps identifiers distinct.
proof fn lemma_sorted_distinct(gists: Seq<GistView>)
    requires
        distinct(gists),
    ensures
        distinct(gists::by_update(gists)),
    decreases gists.len(),
{
    if gists.len() > 0 {
        let front = gists.drop_last();
        let last = gists.last();
        let before = gists::update_order();
        assert forall|i: int, j: int| 0 <= i < j < front.len() implies (#[trigger] front[i]).id != (
        #[trigger] front[j]).id by {
            assert(gists[i].id != gists[j].id);
        }
        lemma_sorted_distinct(front);
        let sorted = gists::by_update(front);
        assert forall|i: int| 0 <= i < sorted.len() implies (#[trigger] sorted[i]).id != last.id by {
            assert(sorted.contains(sorted[i]));
            sort::lemma_sort_contains(front, before, sorted[i]);
            let j = choose|j: int| 0 <= j < front.len() && front[j] == sorted[i];
            assert(gists[j].id != gists[gists.len() - 1].id);
        }
        lemma_insert_distinct(sorted, last);
    }
}

proof fn lemma_insert_distinct(s: Seq<GistView>, x: GistView)
    requires
        distinct(s),
        forall|i: int| 0 <= i < s.len() ==> (#[trigger] s[i]).id != x.id,
    ensures
        distinct(sort::stable_insert(s, x, gists::update_order())),
    decreases s.len(),
{
    let before = gists::update_order();
    let r = sort::stable_insert(s, x, before);
    if s.len() == 0 || before(s.last(), x) {
    } else {
        let front = s.drop_last();
        assert forall|i: int, j: int| 0 <= i < j < front.len() implies (#[trigger] front[i]).id != (
        #[trigger] front[j]).id by {
            assert(s[i].id != s[j].id);
        }
        assert forall|i: int| 0 <= i < front.len() implies (#[trigger] front[i]).id != x.id by {
            assert(s[i].id != x.id);
        }
        lemma_insert_distinct(front, x);
        let q = sort::stable_insert(front, x, before);
        assert forall|i: int| 0 <= i < q.len() implies (#[trigger] q[i]).id != s.last().id by {
            assert(q.contains(q[i]));
            sort::lemma_insert_contains(front, x, before, q[i]);
            if q[i] == x {
                assert(s[s.len() - 1].id != x.id);
            } else {
                let j = choose|j: int| 0 <= j < front.len() && front[j] == q[i];
                assert(s[j].id != s[s.len() - 1].id);
            }
        }
        assert forall|i: int, j: int| 0 <= i < j < r.len() implies (#[trigger] r[i]).id != (
        #[trigger] r[j]).id by {
            if j == r.len() - 1 {
                assert(r[i] == q[i]);
            } else {
                assert(q[i].id != q[j].id);
            }
        }
    }
}

/// Opening or closing other gists does not change the lines.
proof fn lemma_same_lines(gists: Seq<GistView>, a: Set<Seq<char>>, b: Set<Seq<char>>)
    requires
        forall|i: int|
            0 <= i < gists.len() ==> a.contains((#[trigger] gists[i]).id) == b.contains(gists[i].id),
    ensures
        model::all_entries(gists, a) == model::all_entries(gists, b),
    decreases gists.len(),
{
    if gists.len() > 0 {
        let front = gists.drop_last();
        assert forall|i: int| 0 <= i < front.len() implies a.contains((#[trigger] front[i]).id)
            == b.contains(front[i].id) by {
            assert(front[i] == gists[i]);
        }
        lemma_same_lines(front, a, b);
        assert(a.contains(gists[gists.len() - 1].id) == b.contains(gists[gists.len() - 1].id));
    }
}

/// Where no two gists share an identifier, the line of a gist stays where it is when the gist opens
/// or closes.
proof fn lemma_line_stays(
    gists: Seq<GistView>,
    a: Set<Seq<char>>,
    b: Set<Seq<char>>,
    i: int,
    id: Seq<char>,
)
    requires
        distinct(gists),
        0 <= i < model::sidebar(gists, a).len(),
        model::sidebar(gists, a)[i].kind is Gist,
        gist_of(model::sidebar(gists, a)[i]) == id,
        forall|x: Seq<char>| x != id ==> #[trigger] a.contains(x) == b.contains(x),
    ensures
        i < model::sidebar(gists, b).len(),
        model::sidebar(gists, b)[i].kind is Gist,
        gist_of(model::sidebar(gists, b)[i]) == id,
{
    let sorted = gists::by_update(gists);
    lemma_sorted_distinct(gists);
    let k = lemma_line(sorted, a, i);
    let front = sorted.take(k);
    assert forall|j: int| 0 <= j < front.len() implies a.contains((#[trigger] front[j]).id)
        == b.contains(front[j].id) by {
        assert(sorted[j].id != sorted[k].id);
    }
    lemma_same_lines(front, a, b);
    lemma_lines_of_gist(sorted, b, k);
    let own = model::gist_entries(sorted[k], b.contains(id));
    let all = model::sidebar(gists, b);
    assert(all[i] == all.subrange(i, i + own.len())[0]);
    assert(own[0] == model::gist_entry(sorted[k], b.contains(id)));
}

/// Opening a gist and closing it again, or the other way round, changes nothing.
pub proof fn law_toggling_twice_changes_nothing(app: AppView)
    requires
        app.fresh(),
        distinct(app.gists),
        app.selected_entry() matches Some(entry) && entry.kind is Gist,
    ensures
        app.toggle_expand().toggle_expand() == app,
{
    let id = gist_of(app.selected_entry().unwrap());
    let once = app.toggle_expand();
    lemma_line_stays(app.gists, app.expanded, once.expanded, app.selected, id);
    let twice = once.toggle_expand();
    assert(twice.expanded =~= app.expanded);
    assert(twice =~= app);
}

/// Toggling a gist opens it if it was closed and closes it if it was open, and touches no other.
pub proof fn law_toggling_concerns_one_gist(app: AppView, other: Seq<char>)
    requires
        app.selected_entry() matches Some(entry) && entry.kind is Gist,
    ensures
        ({
            let id = gist_of(app.selected_entry().unwrap());
            let after = app.toggle_expand();
            &&& after.expanded.contains(id) == !app.expanded.contains(id)
            &&& other != id ==> after.expanded.contains(other) == app.expanded.contains(other)
            &&& after.gists == app.gists
            &&& after.selected == app.selected
        }),
{
}

/// Leaving a file in the sidebar closes its gist and selects the line of the gist.
pub proof fn law_back_from_a_file(app: AppView)
    requires
        app.fresh(),
        app.focus == Focus::Sidebar,
        app.selected_entry() matches Some(entry) && entry.kind is File,
    ensures
        ({
            let id = gist_of(app.selected_entry().unwrap());
            let after = app.collapse_or_back();
            &&& !after.expanded.contains(id)
            &&& after.selected_entry() matches Some(entry) && entry.kind is Gist && gist_of(entry)
                == id
        }),
{
    let id = gist_of(app.selected_entry().unwrap());
    let after = app.collapse_or_back();
    let sorted = gists::by_update(app.gists);
    let k = lemma_line(sorted, app.expanded, app.selected);
    let expanded = app.expanded.remove(id);
    lemma_lines_of_gist(sorted, expanded, k);
    let all = model::sidebar(app.gists, expanded);
    let start = model::all_entries(sorted.take(k), expanded).len() as int;
    let own = model::gist_entries(sorted[k], expanded.contains(id));
    assert(own[0] == model::gist_entry(sorted[k], expanded.contains(id)));
    assert(all[start] == all.subrange(start, start + own.len())[0]);
    let ids = model::gist_ids(all);
    assert(ids[start] == Some(id));
    assert(ids.contains(Some(id)));
    sort::lemma_first_position(ids, Some(id));
    let i = sort::first_position(ids, Some(id)).unwrap();
    assert(ids[i] == Some(id));
    assert(after.selected == i);
}

/// After a listing, after a gist opens or closes, and after a gist was made or deleted, the lines are
/// those of the gists.
pub proof fn law_lines_are_made_anew(
    app: AppView,
    listing: Seq<GistView>,
    gist: GistView,
    url: Seq<char>,
    name: Seq<char>,
    content: Seq<char>,
    id: Seq<char>,
)
    ensures
        app.set_gists(listing).fresh(),
        app.set_gists(listing).gists == listing,
        app.gist_created(gist, url, name, content).fresh(),
        app.gist_deleted(id).fresh(),
        app.selected_entry() matches Some(entry) && entry.kind is Gist ==> app.toggle_expand().fresh(),
        app.focus == Focus::Sidebar && app.selected_entry() is Some
            ==> app.collapse_or_back().fresh(),
{
}

/// A step down and a step up lead back: to the same line in the sidebar, to the same place in the
/// content.
pub proof fn law_down_and_up(app: AppView)
    ensures
        app.focus == Focus::Sidebar && 0 <= app.selected && app.selected + 1 < app.entries.len()
            ==> app.move_down().move_up().selected == app.selected,
        app.focus == Focus::Content && 0 <= app.content_scroll < u16::MAX
            ==> app.move_down().move_up() == app,
{
    if app.focus == Focus::Content && 0 <= app.content_scroll < u16::MAX {
        assert(app.move_down().move_up() =~= app);
    }
}

/// A step in the sidebar stays on the lines, and changes neither the gists nor the lines.
pub proof fn law_steps_stay_on_lines(app: AppView)
    requires
        0 <= app.selected < app.entries.len(),
    ensures
        0 <= app.move_up().selected < app.move_up().entries.len(),
        0 <= app.move_down().selected < app.move_down().entries.len(),
        app.move_up().entries == app.entries,
        app.move_down().entries == app.entries,
        app.move_up().gists == app.gists,
        app.move_down().gists == app.gists,
{
}

/// Moving the content to one side and back leads to the same columns, unless an end was reached.
pub proof fn law_sideways_and_back(app: AppView)
    ensures
        0 <= app.content_hscroll && app.content_hscroll + events::COLUMN_STEP <= u16::MAX
            ==> app.scroll_right().scroll_left() == app,
        events::COLUMN_STEP <= app.content_hscroll <= u16::MAX ==> app.scroll_left().scroll_right()
            == app,
{
    if 0 <= app.content_hscroll && app.content_hscroll + events::COLUMN_STEP <= u16::MAX {
        assert(app.scroll_right().scroll_left() =~= app);
    }
    if events::COLUMN_STEP <= app.content_hscroll <= u16::MAX {
        assert(app.scroll_left().scroll_right() =~= app);
    }
}

/// Switching the pane twice changes nothing.
pub proof fn law_switching_twice_changes_nothing(app: AppView)
    ensures
        app.switch_pane().switch_pane() == app,
{
    assert(app.switch_pane().switch_pane() =~= app);
}

/// A gist is deleted only if the user was asked about this gist and then pressed `y`.
pub proof fn law_deleting_is_confirmed(app: AppView, key: KeyEvent, id: Seq<char>)
    requires
        app.handle_key(key).1 == ActionView::Delete(id),
    ensures
        app.confirm_delete == Some(id),
        key.code == KeyCode::Char('y'),
        key.kind == KeyKind::Press,
        app.editor is None,
{
}

/// The user is asked only on the key `d`, and only about the gist of the selected line.
pub proof fn law_question_names_the_selected_gist(app: AppView, key: KeyEvent, id: Seq<char>)
    requires
        app.confirm_delete is None,
        app.handle_key(key).0.confirm_delete == Some(id),
    ensures
        key.code == KeyCode::Char('d'),
        app.selected_gist_id() == Some(id),
{
}

/// The next key ends the question. If it is not `y`, nothing is done.
pub proof fn law_one_key_answers(app: AppView, key: KeyEvent)
    requires
        app.confirm_delete is Some,
        app.editor is None,
        key.kind == KeyKind::Press,
    ensures
        app.handle_key(key).0.confirm_delete is None,
        app.handle_key(key).0.gists == app.gists,
        key.code != KeyCode::Char('y') ==> app.handle_key(key).1 == ActionView::Nothing,
{
}

/// While a file is edited, every key goes to the text editor and the browser stays as it is.
pub proof fn law_keys_go_to_the_editor(app: AppView, key: KeyEvent)
    requires
        app.editor is Some,
    ensures
        app.handle_key(key).0 == app,
        app.handle_key(key).1 == if key.kind == KeyKind::Press && keys::key_bytes(
            key.code,
            key.modifiers,
        ).len() > 0 {
            ActionView::Forward(keys::key_bytes(key.code, key.modifiers))
        } else {
            ActionView::Nothing
        },
{
}

/// A key that is held or goes up does nothing.
pub proof fn law_only_presses_count(app: AppView, key: KeyEvent)
    requires
        key.kind != KeyKind::Press,
    ensures
        app.handle_key(key) == (app, ActionView::Nothing),
{
}

/// The browser ends on the key `q` alone, and not while a file is edited or a question is open.
pub proof fn law_quitting(app: AppView, key: KeyEvent)
    ensures
        app.handle_key(key).1 is Quit <==> key.code == KeyCode::Char('q') && key.kind
            == KeyKind::Press && app.editor is None && app.confirm_delete is None,
{
}

/// A deleted gist has no line any more, and every other gist is still there.
pub proof fn law_deleted_gist_is_gone(app: AppView, id: Seq<char>, i: int, other: GistView)
    ensures
        0 <= i < app.gist_deleted(id).entries.len() ==> gist_of(app.gist_deleted(id).entries[i])
            != id,
        app.gist_deleted(id).gists.contains(other) <==> app.gists.contains(other) && other.id != id,
{
    let kept = |g: GistView| g.id != id;
    let after = app.gist_deleted(id);
    let left = events::others(app.gists, id);
    assert(after.gists == left);
    if 0 <= i < after.entries.len() {
        law_lines_belong_to_gists(left, app.expanded, i);
        let g = choose|g: GistView|
            #[trigger] left.contains(g) && g.id == gist_of(after.entries[i]);
        let j = choose|j: int| 0 <= j < left.len() && left[j] == g;
        app.gists.lemma_filter_pred(kept, j);
    }
    if left.contains(other) {
        let j = choose|j: int| 0 <= j < left.len() && left[j] == other;
        app.gists.lemma_filter_pred(kept, j);
        app.gists.lemma_filter_contains_rev(kept, other);
    }
    if app.gists.contains(other) && other.id != id {
        let j = choose|j: int| 0 <= j < app.gists.len() && app.gists[j] == other;
        app.gists.lemma_filter_contains(kept, j);
    }
}

/// After a gist was deleted the selection is on a line, if there is one.
pub proof fn law_selection_after_deleting(app: AppView, id: Seq<char>)
    requires
        0 <= app.selected,
    ensures
        app.gist_deleted(id).selected_entry() is Some || app.gist_deleted(id).entries.len() == 0,
{
}

/// Whether a message is the answer to the request for the gist `id`.
pub open spec fn answers(message: BgMessageView, id: Seq<char>) -> bool {
    match message {
        BgMessageView::GistDetail(gist) => gist.id == id,
        BgMessageView::DetailError { gist_id, .. } => gist_id == id,
        _ => false,
    }
}

/// While a gist is being fetched it is not asked for again. It stays so until its own answer comes,
/// whatever else arrives and whatever key is pressed, unless the user refreshes.
pub proof fn law_fetched_once(app: AppView, message: BgMessageView, key: KeyEvent, id: Seq<char>)
    requires
        app.fetching.contains(id),
    ensures
        app.fetch_due() != Some(id),
        app.note_fetch().fetching.contains(id),
        app.on_message(message).fetching.contains(id) == !answers(message, id),
        app.handle_key(key).1 !is Refresh ==> app.handle_key(key).0.fetching.contains(id),
{
}

/// A gist whose file is waited for is being fetched once the fetch that is due was noted, and no
/// fetch is due then.
pub proof fn law_fetch_is_noted(app: AppView)
    ensures
        app.note_fetch().fetch_due() is None,
        app.pending_file matches Some((id, _)) ==> app.note_fetch().fetching.contains(id),
        app.fetch_due() matches Some(id) ==> !app.fetching.contains(id),
{
}

/// After a fetch failed, the gist is fetched again as soon as a file of it is selected whose text is
/// not at hand. The failure itself starts no fetch.
pub proof fn law_failed_fetch_is_tried_again(
    app: AppView,
    id: Seq<char>,
    error: Seq<char>,
    filename: Seq<char>,
)
    ensures
        ({
            let failed = app.on_message(BgMessageView::DetailError { gist_id: id, error });
            &&& failed.fetch_due() is None
            &&& failed.fetched_detail == app.fetched_detail
            &&& !failed.has_text(id, filename) ==> failed.select_file(id, filename).fetch_due()
                == Some(id)
        }),
{
}

/// Every failure ends the wait for a file, and the status says what failed.
pub proof fn law_failure_ends_the_wait(app: AppView, message: BgMessageView, error: Seq<char>)
    requires
        match message {
            BgMessageView::Error(e) => e == error,
            BgMessageView::DetailError { error: e, .. } => e == error,
            _ => false,
        },
    ensures
        app.on_message(message).pending_file is None,
        app.on_message(message).status == "Error: "@ + error,
        !app.on_message(message).loading,
        app.on_message(message).file_content == app.file_content,
        app.on_message(message).gists == app.gists,
{
}

/// A gist counts as fetched only once it has come: asking for it, failing to get it, and keys do not
/// make it so.
pub proof fn law_fetched_means_arrived(
    app: AppView,
    message: BgMessageView,
    key: KeyEvent,
    id: Seq<char>,
)
    requires
        !app.fetched_detail.contains(id),
    ensures
        !app.note_fetch().fetched_detail.contains(id),
        !app.handle_key(key).0.fetched_detail.contains(id),
        app.on_message(message).fetched_detail.contains(id) <==> (message matches
            BgMessageView::GistDetail(gist) && gist.id == id),
{
}

/// A file whose text is at hand is shown at once and not fetched.
pub proof fn law_known_text_is_shown(app: AppView, gist_id: Seq<char>, filename: Seq<char>)
    requires
        app.has_text(gist_id, filename),
    ensures
        app.select_file(gist_id, filename).file_content == Some(
            (gist_id, filename, gists::known_content(app.gists, gist_id, filename).unwrap()),
        ),
        app.select_file(gist_id, filename).fetch_due() is None,
{
}

/// The state after several messages.
pub open spec fn after_messages(app: AppView, messages: Seq<BgMessageView>) -> AppView
    decreases messages.len(),
{
    if messages.len() == 0 {
        app
    } else {
        after_messages(app, messages.drop_last()).on_message(messages.last())
    }
}

/// Replacing one gist by another with its identifier keeps the identifiers.
proof fn lemma_replaced_ids(gists: Seq<GistView>, gist: GistView)
    ensures
        model::replaced(gists, gist.id, gist).map_values(|g: GistView| g.id) == gists.map_values(
            |g: GistView| g.id,
        ),
        gists::gist_with_id(gists, gist.id) is Some ==> gists::gist_with_id(
            model::replaced(gists, gist.id, gist),
            gist.id,
        ) == Some(gist),
{
    let ids = gists.map_values(|g: GistView| g.id);
    sort::lemma_first_position(ids, gist.id);
    let next = model::replaced(gists, gist.id, gist);
    if let Some(i) = gists::gist_position(gists, gist.id) {
        assert(ids[i] == gist.id);
    }
    assert(next.map_values(|g: GistView| g.id) =~= ids);
}

/// Whether a message brings a gist other than `id`.
pub open spec fn brings_another(message: BgMessageView, id: Seq<char>) -> bool {
    message matches BgMessageView::GistDetail(gist) && gist.id != id
}

/// Gists other than the awaited one leave the wait alone.
proof fn lemma_wait_goes_on(app: AppView, messages: Seq<BgMessageView>, id: Seq<char>)
    requires
        app.pending_file matches Some((pending_id, _)) && pending_id == id,
        forall|i: int|
            0 <= i < messages.len() ==> brings_another(#[trigger] messages[i], id),
    ensures
        after_messages(app, messages).pending_file == app.pending_file,
        after_messages(app, messages).gists.map_values(|g: GistView| g.id)
            == app.gists.map_values(|g: GistView| g.id),
    decreases messages.len(),
{
    if messages.len() > 0 {
        let front = messages.drop_last();
        assert forall|i: int| 0 <= i < front.len() implies brings_another(
            #[trigger] front[i],
            id,
        ) by {
            assert(front[i] == messages[i]);
        }
        lemma_wait_goes_on(app, front, id);
        let before = after_messages(app, front);
        let last = messages[messages.len() - 1];
        assert(brings_another(last, id));
        if let BgMessageView::GistDetail(gist) = last {
            lemma_replaced_ids(before.gists, gist);
        }
    }
}

/// A file that is asked for is shown when its gist arrives, with the text that arrived, whatever
/// other gists arrive before that.
pub proof fn law_awaited_file_is_shown(
    app: AppView,
    messages: Seq<BgMessageView>,
    gist: GistView,
    filename: Seq<char>,
)
    requires
        !app.has_text(gist.id, filename),
        gists::gist_with_id(app.gists, gist.id) is Some,
        forall|i: int|
            0 <= i < messages.len() ==> brings_another(#[trigger] messages[i], gist.id),
    ensures
        ({
            let waiting = app.select_file(gist.id, filename).note_fetch();
            let after = after_messages(waiting, messages).apply_gist_detail(gist);
            &&& after.file_content == Some(
                (
                    gist.id,
                    filename,
                    match gist.content_of(filename) {
                        Some(content) => content,
                        None => Seq::empty(),
                    },
                ),
            )
            &&& after.pending_file is None
            &&& after.status.len() == 0
            &&& after.fetched_detail.contains(gist.id)
            &&& !after.fetching.contains(gist.id)
        }),
{
    let waiting = app.select_file(gist.id, filename).note_fetch();
    lemma_wait_goes_on(waiting, messages, gist.id);
    lemma_replaced_ids(after_messages(waiting, messages).gists, gist);
}

/// In the content pane the file to edit is the one that is shown.
pub proof fn law_shown_file_is_edited(
    app: AppView,
    gist_id: Seq<char>,
    filename: Seq<char>,
    content: Seq<char>,
)
    requires
        app.focus == Focus::Content,
    ensures
        app.show_content(gist_id, filename, content).resolve_edit_target() == Some(
            (gist_id, filename),
        ),
        app.file_content is None ==> app.resolve_edit_target() is None,
{
}

/// A gist that arrives takes the place of the one with its identifier, and leaves the others alone.
pub proof fn law_arriving_gist_takes_its_place(app: AppView, gist: GistView)
    ensures
        app.apply_gist_detail(gist).gists.len() == app.gists.len(),
        gists::gist_with_id(app.gists, gist.id) is Some ==> gists::gist_with_id(
            app.apply_gist_detail(gist).gists,
            gist.id,
        ) == Some(gist),
        forall|i: int|
            0 <= i < app.gists.len() && app.gists[i].id != gist.id
                ==> #[trigger] app.apply_gist_detail(gist).gists[i] == app.gists[i],
{
    let ids = app.gists.map_values(|g: GistView| g.id);
    sort::lemma_first_position(ids, gist.id);
    lemma_replaced_ids(app.gists, gist);
    if let Some(i) = gists::gist_position(app.gists, gist.id) {
        assert(ids[i] == gist.id);
    }
    assert(app.apply_gist_detail(gist).gists == model::replaced(app.gists, gist.id, gist));
}

/// A text that was edited is saved under the gist and the name that it was opened from, and only if
/// it is another text. The saved text is the one that is shown.
pub proof fn law_saving(
    app: AppView,
    gist_id: Seq<char>,
    filename: Seq<char>,
    content: Seq<char>,
    updated: GistView,
)
    requires
        app.resolve_edit_target() == Some((gist_id, filename)),
    ensures
        ({
            let started = app.edit_started(
                EditSessionView {
                    filename,
                    gist_id,
                    original_content: app.text_to_edit(gist_id, filename),
                },
            );
            let save = SaveView { gist_id, filename, content };
            &&& started.save_due(content) == if content == app.text_to_edit(gist_id, filename) {
                None
            } else {
                Some(save)
            }
            &&& started.edit_finished(content).editor is None
            &&& started.edit_finished(content).edit_saved(save, updated).file_content == Some(
                (gist_id, filename, content),
            )
        }),
{
}

/// A refresh keeps the gists and the lines until the new listing arrives. No gist counts as fetched
/// or asked for any more, so that every gist is fetched again when a file of it is selected whose
/// text is not at hand.
pub proof fn law_refreshing(app: AppView, id: Seq<char>, filename: Seq<char>)
    ensures
        app.refresh().gists == app.gists,
        app.refresh().entries == app.entries,
        !app.refresh().fetched_detail.contains(id),
        app.refresh().loading,
        app.refresh().fetch_due() is None,
        !app.refresh().has_text(id, filename) ==> app.refresh().select_file(
            id,
            filename,
        ).fetch_due() == Some(id),
{
}

/// Wherever a file is shown, the coloured lines are those of its text, unless they are still to be
/// made: this holds at the start.
pub proof fn law_coloured_at_the_start(highlighting: Highlighting)
    ensures
        AppView::initial().coloured(highlighting),
{
}

/// Wherever a file is shown, the coloured lines are those of its text, unless they are still to be
/// made: keys and messages keep this.
pub proof fn law_events_keep_colours(
    app: AppView,
    highlighting: Highlighting,
    key: KeyEvent,
    message: BgMessageView,
)
    requires
        app.coloured(highlighting),
    ensures
        app.handle_key(key).0.coloured(highlighting),
        app.on_message(message).coloured(highlighting),
        app.note_fetch().coloured(highlighting),
{
}

/// Wherever a file is shown, the coloured lines are those of its text, unless they are still to be
/// made: what follows a key keeps this, too.
pub proof fn law_actions_keep_colours(
    app: AppView,
    highlighting: Highlighting,
    id: Seq<char>,
    session: EditSessionView,
    content: Seq<char>,
    save: SaveView,
    gist: GistView,
    url: Seq<char>,
    filename: Seq<char>,
    status: Seq<char>,
)
    requires
        app.coloured(highlighting),
    ensures
        app.gist_deleted(id).coloured(highlighting),
        app.edit_started(session).coloured(highlighting),
        app.edit_finished(content).coloured(highlighting),
        app.edit_saved(save, gist).coloured(highlighting),
        app.gist_created(gist, url, filename, content).coloured(highlighting),
        app.with_status(status).coloured(highlighting),
{
}

/// Wherever a file is shown, the coloured lines are those of its text, unless they are still to be
/// made: each step of the browser by itself keeps this.
pub proof fn law_steps_keep_colours(
    app: AppView,
    highlighting: Highlighting,
    gists: Seq<GistView>,
    gist: GistView,
    gist_id: Seq<char>,
    filename: Seq<char>,
    content: Seq<char>,
)
    requires
        app.coloured(highlighting),
    ensures
        app.set_gists(gists).coloured(highlighting),
        app.apply_gist_detail(gist).coloured(highlighting),
        app.rebuild_entries().coloured(highlighting),
        app.toggle_expand().coloured(highlighting),
        app.collapse_or_back().coloured(highlighting),
        app.move_up().coloured(highlighting),
        app.move_down().coloured(highlighting),
        app.preview_selected().coloured(highlighting),
        app.select_file(gist_id, filename).coloured(highlighting),
        app.show_content(gist_id, filename, content).coloured(highlighting),
        app.clamp_selection().coloured(highlighting),
{
}

/// Once the coloured lines were made, they are those of the text that is shown, and they keep the
/// text.
pub proof fn law_recoloured(app: AppView, highlighting: Highlighting, after: AppView)
    requires
        app.coloured(highlighting),
        app.recoloured(highlighting, after),
    ensures
        !after.highlight_due,
        after.coloured(highlighting),
        after.file_content == app.file_content,
        after.file_content matches Some((_, filename, content)) ==> highlighting.may_show(
            filename,
            content,
            after.highlighted_lines,
        ) && highlight::keeps_text(after.highlighted_lines, content),
{
}

} // verus!
