//! What each step of the browser does to what the user sees, and what it leaves alone.
use crate::editing;
use crate::gists;
use crate::gists::GistView;
use crate::sort;
use crate::text;
use crate::tui::editor::{EditPlan, SaveView};
use crate::tui::events;
use crate::tui::events::{ActionView, BgMessageView};
use crate::tui::keys::{KeyCode, KeyEvent, KeyKind, Modifiers};
use crate::tui::laws;
use crate::tui::layout::Area;
use crate::tui::model;
use crate::tui::model::{AppView, EditSessionView, EntryKindView, EntryView, Focus};
use crate::tui::view::{
    Colour, ContentBodyView, Look, PaneView, SidebarBodyView,
};
use vstd::prelude::*;

verus! {

/// Whether the text `content` of a file can be shown: a gist holds it, and it is not empty, or it is
/// empty in a gist that has come by itself.
pub open spec fn at_hand(app: AppView, id: Seq<char>, name: Seq<char>, content: Seq<char>) -> bool {
    gists::holds_text(app.gists, id, name, content) && (content.len() > 0
        || app.fetched_detail.contains(id))
}

/// Whether `after` is `app` with the file `name` of the gist `id` in the content pane, from its
/// start, and all else as it was.
pub open spec fn shows(
    app: AppView,
    after: AppView,
    id: Seq<char>,
    name: Seq<char>,
    content: Seq<char>,
) -> bool {
    after == AppView {
        file_content: Some((id, name, content)),
        highlight_due: true,
        content_scroll: 0,
        content_hscroll: 0,
        pending_file: None,
        ..app
    }
}

/// Whether `after` is `app` waiting for the file `name` of the gist `id`, and all else as it was.
pub open spec fn awaits(app: AppView, after: AppView, id: Seq<char>, name: Seq<char>) -> bool {
    after == AppView {
        pending_file: Some((id, name)),
        status: "Fetching content..."@,
        ..app
    }
}

/// Whether `after` is `app` with the file shown if its text is at hand, and awaited if it is not.
pub open spec fn shows_or_awaits(app: AppView, after: AppView, id: Seq<char>, name: Seq<char>) -> bool {
    &&& forall|content: Seq<char>| #[trigger]
        at_hand(app, id, name, content) ==> shows(app, after, id, name, content)
    &&& (forall|content: Seq<char>| !#[trigger] at_hand(app, id, name, content)) ==> awaits(
        app,
        after,
        id,
        name,
    )
}

/// A file that is selected is shown with its text, character for character, if that is at hand. It is
/// awaited if it is not. Nothing else changes.
pub proof fn law_selecting_a_file(app: AppView, id: Seq<char>, name: Seq<char>)
    ensures
        shows_or_awaits(app, app.select_file(id, name), id, name),
{
    let after = app.select_file(id, name);
    assert forall|content: Seq<char>| #[trigger] at_hand(app, id, name, content) implies shows(
        app,
        after,
        id,
        name,
        content,
    ) by {
        gists::law_known_text(app.gists, id, name, content);
    }
    if let Some(content) = gists::known_content(app.gists, id, name) {
        gists::law_known_text(app.gists, id, name, content);
        if app.has_text(id, name) {
            assert(at_hand(app, id, name, content));
        }
    }
}

/// Enter on the line of a file leaves gists, lines, open gists and the selection as they are, and
/// shows that file of that gist with its known text, or waits for it.
pub proof fn law_expanding_a_file_selects_it(app: AppView, id: Seq<char>, name: Seq<char>)
    requires
        0 <= app.selected < app.entries.len(),
        app.entries[app.selected].kind == (EntryKindView::File { gist_id: id, filename: name }),
    ensures
        ({
            let after = app.toggle_expand();
            &&& after.gists == app.gists
            &&& after.entries == app.entries
            &&& after.expanded == app.expanded
            &&& after.selected == app.selected
            &&& after.focus == app.focus
            &&& shows_or_awaits(app, after, id, name)
            &&& (after.file_content matches Some((shown_id, shown_name, content)) && shown_id == id
                && shown_name == name && gists::holds_text(app.gists, id, name, content))
                || after.pending_file == Some((id, name))
        }),
{
    law_selecting_a_file(app, id, name);
    if let Some(content) = gists::known_content(app.gists, id, name) {
        gists::law_known_text(app.gists, id, name, content);
        if app.has_text(id, name) {
            assert(at_hand(app, id, name, content));
        }
    }
}

/// Enter on the line of a gist opens it if it is closed and closes it if it is open. The sidebar is
/// made anew, and nothing else changes. Without a selected line nothing happens.
pub proof fn law_expanding_a_gist_opens_or_closes_it(app: AppView, id: Seq<char>, public: bool)
    ensures
        !(0 <= app.selected < app.entries.len()) ==> app.toggle_expand() == app,
        0 <= app.selected < app.entries.len() && app.entries[app.selected].kind == (
        EntryKindView::Gist { id, public }) ==> ({
            let after = app.toggle_expand();
            &&& after.expanded.contains(id) == !app.expanded.contains(id)
            &&& forall|other: Seq<char>|
                other != id ==> #[trigger] after.expanded.contains(other) == app.expanded.contains(
                    other,
                )
            &&& after.fresh()
            &&& after == AppView { expanded: after.expanded, entries: after.entries, ..app }
        }),
{
}

/// Going back leaves the content pane and does nothing else there. In the sidebar it closes the gist
/// of the selected line; from a file the selection goes to the line of its gist.
pub proof fn law_going_back(app: AppView)
    ensures
        app.focus == Focus::Content ==> app.collapse_or_back() == (AppView {
            focus: Focus::Sidebar,
            ..app
        }),
        app.focus == Focus::Sidebar && !(0 <= app.selected < app.entries.len())
            ==> app.collapse_or_back() == app,
        app.focus == Focus::Sidebar && 0 <= app.selected < app.entries.len() ==> ({
            let entry = app.entries[app.selected];
            let id = laws::gist_of(entry);
            let after = app.collapse_or_back();
            &&& !after.expanded.contains(id)
            &&& forall|other: Seq<char>|
                other != id ==> #[trigger] after.expanded.contains(other) == app.expanded.contains(
                    other,
                )
            &&& after.fresh()
            &&& entry.kind is Gist ==> after.selected == app.selected
            &&& entry.kind is File && after.selected != app.selected ==> 0 <= after.selected
                < after.entries.len() && after.entries[after.selected].kind is Gist
                && laws::gist_of(after.entries[after.selected]) == id
            &&& after == AppView {
                expanded: after.expanded,
                entries: after.entries,
                selected: after.selected,
                ..app
            }
        }),
{
    if app.focus == Focus::Sidebar && 0 <= app.selected < app.entries.len() {
        let entry = app.entries[app.selected];
        if let EntryKindView::File { gist_id, .. } = entry.kind {
            let after = app.collapse_or_back();
            let ids = model::gist_ids(after.entries);
            sort::lemma_first_position(ids, Some(gist_id));
            if let Some(i) = sort::first_position(ids, Some(gist_id)) {
                assert(ids[i] == Some(gist_id));
            }
        }
    }
}

/// The file that a line stands for: its own, or the first file by name of its gist.
pub open spec fn line_means(app: AppView, entry: EntryView, id: Seq<char>, name: Seq<char>) -> bool {
    match entry.kind {
        EntryKindView::File { gist_id, filename } => gist_id == id && filename == name,
        EntryKindView::Gist { id: gist_id, .. } => gist_id == id && exists|i: int| #[trigger]
            gists::stands_first(app.gists, id, i) && gists::is_first_name(app.gists[i], name),
    }
}

/// The selected line means exactly one file, or none: a gist that is not there or has no files means
/// none.
pub proof fn law_selected_file(app: AppView, id: Seq<char>, name: Seq<char>)
    requires
        0 <= app.selected < app.entries.len(),
    ensures
        app.selected_file() == Some((id, name)) <==> line_means(
            app,
            app.entries[app.selected],
            id,
            name,
        ),
{
    let entry = app.entries[app.selected];
    if let EntryKindView::Gist { id: gist_id, .. } = entry.kind {
        if let Some(i) = gists::gist_position(app.gists, gist_id) {
            gists::law_gist_is_found(app.gists, gist_id, i);
            gists::law_first_name(app.gists[i], name);
            if line_means(app, entry, id, name) {
                let k = choose|k: int| #[trigger]
                    gists::stands_first(app.gists, id, k) && gists::is_first_name(
                        app.gists[k],
                        name,
                    );
                gists::law_gist_is_found(app.gists, gist_id, k);
            }
        } else {
            gists::law_gist_is_found(app.gists, gist_id, 0);
            if line_means(app, entry, id, name) {
                let k = choose|k: int| #[trigger]
                    gists::stands_first(app.gists, id, k) && gists::is_first_name(
                        app.gists[k],
                        name,
                    );
                assert(app.gists[k].id == id);
            }
        }
    }
}

/// A preview shows the file that the selected line means, or waits for it, and changes nothing where
/// the line means none.
pub proof fn law_preview(app: AppView, id: Seq<char>, name: Seq<char>)
    ensures
        !(0 <= app.selected < app.entries.len()) ==> app.preview_selected() == app,
        0 <= app.selected < app.entries.len() && line_means(
            app,
            app.entries[app.selected],
            id,
            name,
        ) ==> shows_or_awaits(app, app.preview_selected(), id, name),
        0 <= app.selected < app.entries.len() && (forall|i: Seq<char>, n: Seq<char>|
            !#[trigger] line_means(app, app.entries[app.selected], i, n)) ==> app.preview_selected()
            == app,
{
    if 0 <= app.selected < app.entries.len() {
        law_selected_file(app, id, name);
        law_selecting_a_file(app, id, name);
        if let Some((i, n)) = app.selected_file() {
            law_selected_file(app, i, n);
        }
    }
}

/// A step in the sidebar moves the selection by one line and previews the new line. At an end nothing
/// happens. A step in the content pane moves the text by one line and nothing else.
pub proof fn law_steps(app: AppView)
    ensures
        app.focus == Focus::Sidebar && app.selected > 0 ==> app.move_up() == (AppView {
            selected: app.selected - 1,
            ..app
        }).preview_selected(),
        app.focus == Focus::Sidebar && app.selected <= 0 ==> app.move_up() == app,
        app.focus == Focus::Sidebar && app.selected + 1 < app.entries.len() ==> app.move_down() == (
        AppView { selected: app.selected + 1, ..app }).preview_selected(),
        app.focus == Focus::Sidebar && app.selected + 1 >= app.entries.len() ==> app.move_down()
            == app,
        app.focus == Focus::Content && app.content_scroll > 0 ==> app.move_up() == (AppView {
            content_scroll: app.content_scroll - 1,
            ..app
        }),
        app.focus == Focus::Content && app.content_scroll == 0 ==> app.move_up() == app,
        app.focus == Focus::Content && 0 <= app.content_scroll < 65535 ==> app.move_down() == (
        AppView { content_scroll: app.content_scroll + 1, ..app }),
        app.focus == Focus::Content && app.content_scroll == 65535 ==> app.move_down() == app,
{
}

/// A listing replaces the gists, ends the loading, remakes the lines and previews the selected one.
/// The open gists, the selection and the focus stay.
pub proof fn law_listing_arrives(app: AppView, listing: Seq<GistView>)
    ensures
        ({
            let after = app.set_gists(listing);
            let listed = AppView {
                gists: listing,
                loading: false,
                entries: model::sidebar(listing, app.expanded),
                ..app
            };
            &&& after == listed.preview_selected()
            &&& after.gists == listing
            &&& !after.loading
            &&& after.fresh()
            &&& after.expanded == app.expanded
            &&& after.selected == app.selected
            &&& after.focus == app.focus
        }),
{
}

/// Text that is put into the content pane is shown from its start, and nothing is awaited any more.
pub proof fn law_showing(app: AppView, id: Seq<char>, name: Seq<char>, content: Seq<char>)
    ensures
        shows(app, app.show_content(id, name, content), id, name, content),
{
}

/// A gist that arrives replaces the listed one. If a file of it is awaited, that file is shown with
/// the text that arrived, and the status is cleared. Otherwise the content pane, the status and the
/// wait stay as they are.
pub proof fn law_gist_arrives(app: AppView, gist: GistView, name: Seq<char>, content: Seq<char>)
    ensures
        ({
            let after = app.apply_gist_detail(gist);
            let merged = AppView {
                gists: after.gists,
                fetched_detail: app.fetched_detail.insert(gist.id),
                fetching: app.fetching.remove(gist.id),
                ..app
            };
            &&& app.pending_file is None ==> after == merged
            &&& (app.pending_file matches Some((id, _)) && id != gist.id) ==> after == merged
            &&& app.pending_file == Some((gist.id, name)) && gists::holds_text(
                after.gists,
                gist.id,
                name,
                content,
            ) ==> shows(
                AppView { status: Seq::empty(), ..merged },
                after,
                gist.id,
                name,
                content,
            )
            &&& app.pending_file == Some((gist.id, name)) && (forall|c: Seq<char>|
                !#[trigger] gists::holds_text(after.gists, gist.id, name, c)) ==> shows(
                AppView { status: Seq::empty(), ..merged },
                after,
                gist.id,
                name,
                Seq::empty(),
            )
        }),
{
    let after = app.apply_gist_detail(gist);
    gists::law_known_text(after.gists, gist.id, name, content);
    if let Some(c) = gists::known_content(after.gists, gist.id, name) {
        gists::law_known_text(after.gists, gist.id, name, c);
    }
}

/// A failure is reported and ends loading and waiting. A gist that could not be had is no longer
/// under way. Nothing else changes.
pub proof fn law_failure_arrives(app: AppView, error: Seq<char>, id: Seq<char>)
    ensures
        app.on_message(BgMessageView::Error(error)) == (AppView {
            loading: false,
            pending_file: None,
            status: "Error: "@ + error,
            ..app
        }),
        app.on_message(BgMessageView::DetailError { gist_id: id, error }) == (AppView {
            loading: false,
            pending_file: None,
            status: "Error: "@ + error,
            fetching: app.fetching.remove(id),
            ..app
        }),
{
}

/// A listing and a gist that arrive are taken over as such.
pub proof fn law_answers_are_taken_over(app: AppView, listing: Seq<GistView>, gist: GistView)
    ensures
        app.on_message(BgMessageView::GistList(listing)) == app.set_gists(listing),
        app.on_message(BgMessageView::GistDetail(gist)) == app.apply_gist_detail(gist),
{
}

/// The gist of the awaited file is fetched unless it is under way, and then it is under way. Nothing
/// else changes.
pub proof fn law_fetching(app: AppView, id: Seq<char>, name: Seq<char>)
    ensures
        app.pending_file is None ==> app.fetch_due() is None,
        app.pending_file == Some((id, name)) ==> (app.fetch_due() is None
            <==> app.fetching.contains(id)),
        app.pending_file == Some((id, name)) && !app.fetching.contains(id) ==> app.fetch_due()
            == Some(id) && app.note_fetch() == (AppView {
            fetching: app.fetching.insert(id),
            ..app
        }),
        app.fetch_due() is None ==> app.note_fetch() == app,
{
}

/// The selected gist is that of the selected line.
pub proof fn law_selected_gist(app: AppView)
    ensures
        !(0 <= app.selected < app.entries.len()) ==> app.selected_gist_id() is None,
        0 <= app.selected < app.entries.len() ==> app.selected_gist_id() == Some(
            laws::gist_of(app.entries[app.selected]),
        ),
{
}

/// A selection behind the last line moves to the last line. Any other stays.
pub proof fn law_clamping(app: AppView)
    ensures
        app.entries.len() > 0 && app.selected >= app.entries.len() ==> app.clamp_selection() == (
        AppView { selected: app.entries.len() - 1, ..app }),
        app.entries.len() == 0 || app.selected < app.entries.len() ==> app.clamp_selection() == app,
{
}

/// In the content pane the file to edit is the one that is shown, in the sidebar the one that the
/// selected line means.
pub proof fn law_file_to_edit(app: AppView, id: Seq<char>, name: Seq<char>)
    ensures
        app.focus == Focus::Content ==> (app.resolve_edit_target() == Some((id, name)) <==> (
        app.file_content matches Some((shown, shown_name, _)) && shown == id && shown_name == name)),
        app.focus == Focus::Sidebar && 0 <= app.selected < app.entries.len() ==> (
        app.resolve_edit_target() == Some((id, name)) <==> line_means(
            app,
            app.entries[app.selected],
            id,
            name,
        )),
        app.focus == Focus::Sidebar && !(0 <= app.selected < app.entries.len())
            ==> app.resolve_edit_target() is None,
{
    if 0 <= app.selected < app.entries.len() {
        law_selected_file(app, id, name);
    }
}

/// The text editor is started on the text that the gist holds, character for character. The edited
/// text is compared with that text, and is to be saved, as it is, exactly if it differs.
pub proof fn law_editing_starts_on_the_text(
    app: AppView,
    plan: EditPlan,
    i: int,
    j: int,
    name: Seq<char>,
    content: Seq<char>,
    process: u32,
    pane: Area,
    edited: Seq<char>,
)
    requires
        0 <= i < app.gists.len(),
        gists::stands_first(app.gists, app.gists[i].id, i),
        gists::file_stands_first(app.gists[i], name, j),
        app.gists[i].files[j].1.content == Some(content),
        plan.edits(app, app.gists[i].id, name, process, pane),
    ensures
        plan.content@ == content,
        plan.gist_id@ == app.gists[i].id,
        plan.filename@ == name,
        ({
            let started = app.edit_started(
                EditSessionView {
                    filename: plan.filename@,
                    gist_id: plan.gist_id@,
                    original_content: plan.content@,
                },
            );
            &&& edited == content ==> started.save_due(edited) is None
            &&& edited != content ==> started.save_due(edited) == Some(
                SaveView { gist_id: app.gists[i].id, filename: name, content: edited },
            )
        }),
{
    let id = app.gists[i].id;
    assert(gists::holds_text(app.gists, id, name, content));
    gists::law_known_text(app.gists, id, name, content);
}

/// The text editor is started on an empty text where the gist holds none.
pub proof fn law_editing_without_a_text(
    app: AppView,
    plan: EditPlan,
    id: Seq<char>,
    name: Seq<char>,
    process: u32,
    pane: Area,
)
    requires
        forall|content: Seq<char>| !#[trigger] gists::holds_text(app.gists, id, name, content),
        plan.edits(app, id, name, process, pane),
    ensures
        plan.content@.len() == 0,
{
    if let Some(content) = gists::known_content(app.gists, id, name) {
        gists::law_known_text(app.gists, id, name, content);
    }
}

/// The text editor has the size of the pane without its border, and one row and column at least.
pub proof fn law_editor_fills_the_pane(
    app: AppView,
    plan: EditPlan,
    id: Seq<char>,
    name: Seq<char>,
    process: u32,
    pane: Area,
)
    requires
        plan.edits(app, id, name, process, pane),
    ensures
        pane.height >= 3 ==> plan.rows + 2 == pane.height,
        pane.height < 3 ==> plan.rows == 1,
        pane.width >= 3 ==> plan.cols + 2 == pane.width,
        pane.width < 3 ==> plan.cols == 1,
{
}

/// The file that is edited in place of the file of the gist is named for this process and has the
/// extension of that file, or `txt` if it has none.
pub proof fn law_edited_file_is_named(
    app: AppView,
    plan: EditPlan,
    id: Seq<char>,
    stem: Seq<char>,
    extension: Seq<char>,
    process: u32,
    pane: Area,
)
    requires
        stem.len() > 0,
        !stem.contains('/'),
        !extension.contains('.'),
        !extension.contains('/'),
        ({
            let name = stem.push('.') + extension;
            name != ".."@ && editing::plain_name(name) && plan.edits(app, id, name, process, pane)
        }),
    ensures
        plan.temp_file@ == "gist-edit-"@ + text::decimal(process as nat) + "."@ + extension,
{
    editing::law_edited_file_keeps_extension(process, Seq::empty(), stem, extension);
}

/// The sidebar is remade from the gists and the set of open ones, and nothing else changes.
pub proof fn law_lines_are_remade(app: AppView)
    ensures
        app.rebuild_entries() == (AppView {
            entries: model::sidebar(app.gists, app.expanded),
            ..app
        }),
{
}

/// Editing begins and ends without touching anything but the editor and the status.
pub proof fn law_editing_touches_little(app: AppView, session: EditSessionView, edited: Seq<char>)
    ensures
        app.edit_started(session) == (AppView { editor: Some(session), ..app }),
        ({
            let started = AppView { editor: Some(session), ..app };
            let after = started.edit_finished(edited);
            &&& after == AppView { editor: None, status: after.status, ..app }
            &&& edited == session.original_content ==> after.status == "No changes."@
            &&& edited != session.original_content ==> after.status == "Saving..."@
        }),
{
    let started = AppView { editor: Some(session), ..app };
    assert(started.edit_finished(edited) =~= (AppView {
        editor: None,
        status: started.edit_finished(edited).status,
        ..app
    }));
}

/// A saved text is shown under its gist and name. The gist that the service answered with takes the
/// place of the one that was edited, and no other is touched.
pub proof fn law_text_is_saved(app: AppView, save: SaveView, updated: GistView, i: int)
    ensures
        ({
            let after = app.edit_saved(save, updated);
            let merged = AppView {
                gists: after.gists,
                fetched_detail: app.fetched_detail.insert(save.gist_id),
                status: "Saved."@,
                ..app
            };
            &&& shows(merged, after, save.gist_id, save.filename, save.content)
            &&& after.gists.len() == app.gists.len()
            &&& gists::stands_first(app.gists, save.gist_id, i) ==> after.gists[i] == updated
            &&& 0 <= i < app.gists.len() && !gists::stands_first(app.gists, save.gist_id, i)
                ==> after.gists[i] == app.gists[i]
        }),
{
    gists::law_gist_is_found(app.gists, save.gist_id, i);
    if let Some(k) = gists::gist_position(app.gists, save.gist_id) {
        gists::law_gist_is_found(app.gists, save.gist_id, k);
    }
}

/// A gist that arrives or is saved takes the place of the first with its identifier, and no other is
/// touched.
pub proof fn law_replacing(gists: Seq<GistView>, id: Seq<char>, gist: GistView, i: int)
    ensures
        model::replaced(gists, id, gist).len() == gists.len(),
        gists::stands_first(gists, id, i) ==> model::replaced(gists, id, gist)[i] == gist,
        0 <= i < gists.len() && !gists::stands_first(gists, id, i) ==> model::replaced(
            gists,
            id,
            gist,
        )[i] == gists[i],
{
    gists::law_gist_is_found(gists, id, i);
    if let Some(k) = gists::gist_position(gists, id) {
        gists::law_gist_is_found(gists, id, k);
    }
}

/// A gist that arrives is merged by taking the place of the first with its identifier.
pub proof fn law_arriving_gist_is_merged(app: AppView, gist: GistView, i: int)
    ensures
        app.apply_gist_detail(gist).gists.len() == app.gists.len(),
        gists::stands_first(app.gists, gist.id, i) ==> app.apply_gist_detail(gist).gists[i] == gist,
        0 <= i < app.gists.len() && !gists::stands_first(app.gists, gist.id, i)
            ==> app.apply_gist_detail(gist).gists[i] == app.gists[i],
{
    law_replacing(app.gists, gist.id, gist, i);
}

/// A gist that was made is put before the others, open and fetched. Its text is shown, the first line
/// is selected, and the status says where the gist is.
pub proof fn law_gist_is_made(
    app: AppView,
    gist: GistView,
    url: Seq<char>,
    name: Seq<char>,
    content: Seq<char>,
)
    ensures
        ({
            let after = app.gist_created(gist, url, name, content);
            let made = AppView {
                gists: seq![gist] + app.gists,
                expanded: app.expanded.insert(gist.id),
                fetched_detail: app.fetched_detail.insert(gist.id),
                entries: after.entries,
                selected: 0,
                status: "Created: "@ + url,
                ..app
            };
            &&& shows(made, after, gist.id, name, content)
            &&& after.fresh()
        }),
{
    assert(app.gists.insert(0, gist) =~= seq![gist] + app.gists);
}

/// Gists are left out by their identifier alone, and the others keep their order.
pub proof fn law_leaving_out(a: Seq<GistView>, b: Seq<GistView>, gist: GistView, id: Seq<char>)
    ensures
        events::others(a + b, id) == events::others(a, id) + events::others(b, id),
        gist.id != id ==> events::others(seq![gist], id) == seq![gist],
        gist.id == id ==> events::others(seq![gist], id).len() == 0,
        events::others(Seq::empty(), id).len() == 0,
{
    let kept = |g: GistView| g.id != id;
    Seq::filter_distributes_over_add(a, b, kept);
    reveal_with_fuel(Seq::filter, 2);
    assert(seq![gist].drop_last() =~= Seq::<GistView>::empty());
    if gist.id != id {
        assert(events::others(seq![gist], id) =~= seq![gist]);
    }
}

/// Deleting a gist takes it out, empties the content pane and says so. The selection stays, or moves
/// to the last line if it would be behind it. All else stays.
pub proof fn law_gist_is_deleted(app: AppView, id: Seq<char>)
    requires
        0 <= app.selected,
    ensures
        ({
            let after = app.gist_deleted(id);
            &&& after == AppView {
                gists: events::others(app.gists, id),
                fetched_detail: app.fetched_detail.remove(id),
                fetching: app.fetching.remove(id),
                file_content: None,
                entries: after.entries,
                selected: after.selected,
                status: "Gist deleted."@,
                ..app
            }
            &&& after.fresh()
            &&& app.selected < after.entries.len() || after.entries.len() == 0 ==> after.selected
                == app.selected
            &&& app.selected >= after.entries.len() > 0 ==> after.selected == after.entries.len() - 1
        }),
{
}

/// Whether a key is a command: it goes down while no file is edited and no question is open.
pub open spec fn is_command(app: AppView, key: KeyEvent) -> bool {
    key.kind == KeyKind::Press && app.editor is None && app.confirm_delete is None
}

/// Whether no modifier key is held.
pub open spec fn unmodified(m: Modifiers) -> bool {
    !m.shift && !m.control && !m.alt && !m.super_key && !m.hyper && !m.meta
}

/// Whether control is held and no other modifier key.
pub open spec fn with_control(m: Modifiers) -> bool {
    !m.shift && m.control && !m.alt && !m.super_key && !m.hyper && !m.meta
}

/// The keys that move: `j` and down, `k` and up, enter and right, left and escape, and the two tabs
/// do what their names say, whatever modifier keys are held.
pub proof fn law_moving_keys(app: AppView, key: KeyEvent)
    requires
        is_command(app, key),
    ensures
        key.code == KeyCode::Char('j') || key.code == KeyCode::Down ==> app.handle_key(key) == (
            app.move_down(),
            ActionView::Nothing,
        ),
        key.code == KeyCode::Char('k') || key.code == KeyCode::Up ==> app.handle_key(key) == (
            app.move_up(),
            ActionView::Nothing,
        ),
        key.code == KeyCode::Enter || key.code == KeyCode::Right ==> app.handle_key(key) == (
            app.toggle_expand(),
            ActionView::Nothing,
        ),
        key.code == KeyCode::Left || key.code == KeyCode::Esc ==> app.handle_key(key) == (
            app.collapse_or_back(),
            ActionView::Nothing,
        ),
        key.code == KeyCode::Tab || key.code == KeyCode::BackTab ==> app.handle_key(key) == (
            AppView {
                focus: if app.focus == Focus::Sidebar {
                    Focus::Content
                } else {
                    Focus::Sidebar
                },
                ..app
            },
            ActionView::Nothing,
        ),
{
}

/// The keys `h` and `l`: with control they choose the pane. Alone they close and open gists in the
/// sidebar, and move the content by 32 columns in the content pane, as far as it goes. With other
/// modifier keys they do nothing.
pub proof fn law_sideways_keys(app: AppView, key: KeyEvent)
    requires
        is_command(app, key),
        0 <= app.content_hscroll <= 65535,
    ensures
        key.code == KeyCode::Char('l') ==> app.handle_key(key).1 is Nothing && app.handle_key(key).0
            == if with_control(key.modifiers) {
            AppView { focus: Focus::Content, ..app }
        } else if !unmodified(key.modifiers) {
            app
        } else if app.focus == Focus::Sidebar {
            app.toggle_expand()
        } else {
            AppView {
                content_hscroll: if app.content_hscroll + 32 <= 65535 {
                    app.content_hscroll + 32
                } else {
                    65535
                },
                ..app
            }
        },
        key.code == KeyCode::Char('h') ==> app.handle_key(key).1 is Nothing && app.handle_key(key).0
            == if with_control(key.modifiers) {
            AppView { focus: Focus::Sidebar, ..app }
        } else if !unmodified(key.modifiers) {
            app
        } else if app.focus == Focus::Sidebar {
            app.collapse_or_back()
        } else {
            AppView {
                content_hscroll: if app.content_hscroll >= 32 {
                    app.content_hscroll - 32
                } else {
                    0
                },
                ..app
            }
        },
{
}

/// The keys that act: `q` ends, `e` edits, `n` makes a gist, `o` opens the address of the gist of the
/// selected line, `d` asks about that gist, and `r` fetches all anew.
pub proof fn law_acting_keys(app: AppView, key: KeyEvent, i: int)
    requires
        is_command(app, key),
    ensures
        key.code == KeyCode::Char('q') ==> app.handle_key(key) == (app, ActionView::Quit),
        key.code == KeyCode::Char('e') ==> app.handle_key(key) == (app, ActionView::Edit),
        key.code == KeyCode::Char('n') ==> app.handle_key(key) == (app, ActionView::Create),
        key.code == KeyCode::Char('r') ==> app.handle_key(key) == (
            AppView {
                loading: true,
                status: Seq::empty(),
                fetched_detail: Set::empty(),
                fetching: Set::empty(),
                file_content: None,
                pending_file: None,
                ..app
            },
            ActionView::Refresh,
        ),
        key.code == KeyCode::Char('d') && 0 <= app.selected < app.entries.len() ==> app.handle_key(
            key,
        ) == (
            AppView {
                confirm_delete: Some(laws::gist_of(app.entries[app.selected])),
                status: "Delete this gist? (y/n)"@,
                ..app
            },
            ActionView::Nothing,
        ),
        key.code == KeyCode::Char('d') && !(0 <= app.selected < app.entries.len())
            ==> app.handle_key(key) == (app, ActionView::Nothing),
        key.code == KeyCode::Char('o') ==> app.handle_key(key).0 == app,
        key.code == KeyCode::Char('o') && 0 <= app.selected < app.entries.len()
            && gists::stands_first(app.gists, laws::gist_of(app.entries[app.selected]), i)
            ==> app.handle_key(key).1 == ActionView::Open(app.gists[i].html_url),
        key.code == KeyCode::Char('o') && (!(0 <= app.selected < app.entries.len()) || forall|k: int|
            0 <= k < app.gists.len() ==> (#[trigger] app.gists[k]).id != laws::gist_of(
                app.entries[app.selected],
            )) ==> app.handle_key(key).1 is Nothing,
{
    if 0 <= app.selected < app.entries.len() {
        gists::law_gist_is_found(app.gists, laws::gist_of(app.entries[app.selected]), i);
    }
}

/// Every other key does nothing.
pub proof fn law_other_keys(app: AppView, key: KeyEvent)
    requires
        is_command(app, key),
        match key.code {
            KeyCode::Char(c) => c != 'q' && c != 'j' && c != 'k' && c != 'l' && c != 'h' && c != 'o'
                && c != 'e' && c != 'n' && c != 'd' && c != 'r',
            KeyCode::Enter => false,
            KeyCode::Esc => false,
            KeyCode::Tab => false,
            KeyCode::BackTab => false,
            KeyCode::Up => false,
            KeyCode::Down => false,
            KeyCode::Left => false,
            KeyCode::Right => false,
            _ => true,
        },
    ensures
        app.handle_key(key) == (app, ActionView::Nothing),
{
}

/// The answer to the question changes the status and ends the question. `y` deletes the gist that was
/// asked about, whatever modifier keys are held, and any other key does not.
pub proof fn law_answering(app: AppView, key: KeyEvent, id: Seq<char>)
    requires
        key.kind == KeyKind::Press,
        app.editor is None,
        app.confirm_delete == Some(id),
    ensures
        key.code == KeyCode::Char('y') ==> app.handle_key(key) == (
            AppView { confirm_delete: None, status: "Deleting..."@, ..app },
            ActionView::Delete(id),
        ),
        key.code != KeyCode::Char('y') ==> app.handle_key(key) == (
            AppView { confirm_delete: None, status: Seq::empty(), ..app },
            ActionView::Nothing,
        ),
{
}

/// A status is put in place of the one before, and nothing else changes.
pub proof fn law_status_is_replaced(app: AppView, status: Seq<char>)
    ensures
        app.with_status(status) == (AppView { status, ..app }),
{
}

/// Making the coloured lines touches nothing else, and leaves lines alone that are up to date.
pub proof fn law_colouring_touches_lines_alone(
    app: AppView,
    highlighting: crate::tui::highlight::Highlighting,
    after: AppView,
)
    requires
        app.recoloured(highlighting, after),
    ensures
        after == (AppView {
            highlighted_lines: after.highlighted_lines,
            highlight_due: false,
            ..app
        }),
        !app.highlight_due ==> after == app,
        app.highlight_due ==> (app.file_content matches Some((_, filename, content))
            ==> highlighting.may_show(filename, content, after.highlighted_lines)),
{
    if !app.highlight_due {
        assert(after =~= app);
    }
}

/// Whether a line of the sidebar is that of a gist: an arrow that tells whether it is open, the first
/// of its names, and who can see it.
pub open spec fn is_line_of(entry: EntryView, gist: GistView, open: bool) -> bool {
    let arrow = if open {
        "▼ "@
    } else {
        "▶ "@
    };
    let visibility = if gist.public {
        " (public)"@
    } else {
        " (secret)"@
    };
    &&& entry.indent == 0
    &&& entry.kind == EntryKindView::Gist { id: gist.id, public: gist.public }
    &&& gist.files.len() == 0 ==> entry.label == arrow + "(empty)"@ + visibility
    &&& forall|name: Seq<char>| #[trigger]
        gists::is_first_name(gist, name) ==> entry.label == arrow + name + visibility
}

/// Whether the lines of the gists stand one gist after the other, from the positions `starts`: the
/// line of the gist and, where it is open, one for each file in ascending order.
pub open spec fn laid_out(
    gists: Seq<GistView>,
    expanded: Set<Seq<char>>,
    entries: Seq<EntryView>,
    starts: Seq<int>,
) -> bool {
    &&& starts.len() == gists.len() + 1
    &&& starts[0] == 0
    &&& starts[gists.len() as int] == entries.len()
    &&& forall|k: int|
        #![trigger gists[k]]
        0 <= k < gists.len() ==> {
            let open = expanded.contains(gists[k].id);
            &&& 0 <= starts[k]
            &&& starts[k + 1] == starts[k] + 1 + if open {
                gists[k].files.len() as int
            } else {
                0
            }
            &&& is_line_of(entries[starts[k]], gists[k], open)
        }
    &&& forall|k: int, j: int|
        #![trigger gists[k].sorted_names()[j]]
        0 <= k < gists.len() && expanded.contains(gists[k].id) && 0 <= j < gists[k].files.len()
            ==> entries[starts[k] + 1 + j] == (EntryView {
            label: gists[k].sorted_names()[j],
            kind: EntryKindView::File {
                gist_id: gists[k].id,
                filename: gists[k].sorted_names()[j],
            },
            indent: 2,
        })
}

/// Where the lines of gist `k` start.
spec fn start_of(gists: Seq<GistView>, expanded: Set<Seq<char>>, k: int) -> int {
    model::all_entries(gists.take(k), expanded).len() as int
}

/// The line of a gist tells what [`is_line_of`] asks of it.
proof fn lemma_line_of_gist(gist: GistView, open: bool)
    ensures
        is_line_of(model::gist_entry(gist, open), gist, open),
{
    gists::law_first_name(gist, Seq::empty());
    let entry = model::gist_entry(gist, open);
    let arrow = if open {
        "▼ "@
    } else {
        "▶ "@
    };
    let visibility = if gist.public {
        " (public)"@
    } else {
        " (secret)"@
    };
    assert forall|name: Seq<char>| #[trigger] gists::is_first_name(gist, name) implies entry.label
        == arrow + name + visibility by {
        gists::law_first_name(gist, name);
    }
}

/// The lines of gist `k` start with its own and, where it is open, go on with one for each file.
proof fn lemma_lines_in_place(gists: Seq<GistView>, expanded: Set<Seq<char>>, k: int)
    requires
        0 <= k < gists.len(),
    ensures
        ({
            let entries = model::all_entries(gists, expanded);
            let open = expanded.contains(gists[k].id);
            let start = start_of(gists, expanded, k);
            &&& 0 <= start
            &&& start_of(gists, expanded, k + 1) == start + 1 + if open {
                gists[k].files.len() as int
            } else {
                0
            }
            &&& entries[start] == model::gist_entry(gists[k], open)
            &&& open ==> forall|j: int|
                #![trigger gists[k].sorted_names()[j]]
                0 <= j < gists[k].files.len() ==> entries[start + 1 + j] == model::file_entry(
                    gists[k].id,
                    gists[k].sorted_names()[j],
                )
        }),
{
    let entries = model::all_entries(gists, expanded);
    let gist = gists[k];
    let open = expanded.contains(gist.id);
    let start = start_of(gists, expanded, k);
    let own = model::gist_entries(gist, open);
    laws::lemma_lines_of_gist(gists, expanded, k);
    gists::law_first_name(gist, Seq::empty());
    assert(gists.take(k + 1).drop_last() =~= gists.take(k));
    assert(gists.take(k + 1).last() == gist);
    assert(entries[start] == entries.subrange(start, start + own.len())[0]);
    if open {
        assert forall|j: int| #![trigger gist.sorted_names()[j]] 0 <= j < gist.files.len() implies
            entries[start + 1 + j] == model::file_entry(gist.id, gist.sorted_names()[j]) by {
            assert(own[1 + j] == model::file_entry(gist.id, gist.sorted_names()[j]));
            assert(entries[start + 1 + j] == entries.subrange(start, start + own.len())[1 + j]);
        }
    }
}

/// The sidebar lists the gists from the one changed last, each with its line and, where it is open,
/// directly below it one line for each file in ascending order, and holds no other line.
pub proof fn law_sidebar_is_laid_out(gists: Seq<GistView>, expanded: Set<Seq<char>>)
    ensures
        exists|starts: Seq<int>| #[trigger]
            laid_out(
                gists::by_update(gists),
                expanded,
                model::sidebar(gists, expanded),
                starts,
            ),
{
    let sorted = gists::by_update(gists);
    let entries = model::sidebar(gists, expanded);
    let starts = Seq::new(sorted.len() + 1, |k: int| start_of(sorted, expanded, k));
    assert(sorted.take(0) =~= Seq::<GistView>::empty());
    assert(sorted.take(sorted.len() as int) =~= sorted);
    assert forall|k: int| #![trigger sorted[k]] 0 <= k < sorted.len() implies {
        let open = expanded.contains(sorted[k].id);
        &&& 0 <= starts[k]
        &&& starts[k + 1] == starts[k] + 1 + if open {
            sorted[k].files.len() as int
        } else {
            0
        }
        &&& is_line_of(entries[starts[k]], sorted[k], open)
    } by {
        lemma_lines_in_place(sorted, expanded, k);
        lemma_line_of_gist(sorted[k], expanded.contains(sorted[k].id));
    }
    assert forall|k: int, j: int|
        #![trigger sorted[k].sorted_names()[j]]
        0 <= k < sorted.len() && expanded.contains(sorted[k].id) && 0 <= j
            < sorted[k].files.len() implies entries[starts[k] + 1 + j] == (EntryView {
        label: sorted[k].sorted_names()[j],
        kind: EntryKindView::File {
            gist_id: sorted[k].id,
            filename: sorted[k].sorted_names()[j],
        },
        indent: 2,
    }) by {
        lemma_lines_in_place(sorted, expanded, k);
    }
    assert(laid_out(sorted, expanded, entries, starts));
}

/// While a file is edited the content pane is the text editor's, whatever else is shown.
pub proof fn law_content_while_editing(app: AppView, session: EditSessionView)
    requires
        app.editor == Some(session),
    ensures
        app.render_content() == (PaneView {
            title: " "@ + session.filename + " (editing) "@,
            border: Colour::Yellow,
            body: ContentBodyView::Editor,
        }),
{
}

/// Whenever no file is edited and a file is shown, the content pane holds its coloured lines, moved as
/// far as they were scrolled, under its name, whichever pane has the focus and whatever is awaited.
pub proof fn law_content_shows_the_file(
    app: AppView,
    id: Seq<char>,
    name: Seq<char>,
    content: Seq<char>,
)
    requires
        app.editor is None,
        app.file_content == Some((id, name, content)),
    ensures
        app.render_content().body == (ContentBodyView::Lines {
            rows: app.content_scroll,
            cols: app.content_hscroll,
        }),
        app.render_content().title == " "@ + name + " "@,
{
}

/// Without a file to show the content pane says what is awaited, or how to get a file.
pub proof fn law_content_without_a_file(app: AppView, id: Seq<char>, name: Seq<char>)
    requires
        app.editor is None,
        app.file_content is None,
    ensures
        app.pending_file == Some((id, name)) ==> app.render_content().title == " "@ + name
            + " (loading...) "@ && app.render_content().body == ContentBodyView::Message(
            "Loading..."@,
        ),
        app.pending_file is None ==> app.render_content().title == " Content "@
            && app.render_content().body == ContentBodyView::Message(
            "Select a file to view its content."@,
        ),
{
}

/// Switching the pane changes the borders, and the mark of the selected line, and nothing else that
/// is shown. The border of the pane in focus is blue, the other dark gray, but for an edited file.
pub proof fn law_focus_changes_borders(app: AppView, i: int)
    ensures
        ({
            let other = app.switch_pane();
            &&& other.focus != app.focus
            &&& other == AppView { focus: other.focus, ..app }
            &&& other.render_content().title == app.render_content().title
            &&& other.render_content().body == app.render_content().body
            &&& other.render_status() == app.render_status()
            &&& other.render_sidebar().title == app.render_sidebar().title
            &&& app.editor is None ==> app.render_content().border == if app.focus == Focus::Content {
                Colour::Blue
            } else {
                Colour::DarkGray
            }
            &&& app.render_sidebar().border == if app.focus == Focus::Sidebar {
                Colour::Blue
            } else {
                Colour::DarkGray
            }
            &&& i != app.selected ==> other.item(i) == app.item(i)
        }),
{
}

/// The sidebar has an item for each line, in order, with the indentation and the label of the line.
/// The selected line is bold and white while the sidebar has the focus; all others are cyan for a
/// gist and white for a file.
pub proof fn law_sidebar_shows_the_lines(app: AppView, i: int)
    requires
        app.entries.len() > 0,
    ensures
        app.render_sidebar().body matches SidebarBodyView::Items { items, selected } && items.len()
            == app.entries.len() && selected == app.selected && (0 <= i < items.len() ==> {
            let item = items[i];
            &&& item.label == app.entries[i].label
            &&& item.indent.len() == app.entries[i].indent
            &&& forall|k: int| 0 <= k < item.indent.len() ==> #[trigger] item.indent[k] == ' '
            &&& i == app.selected && app.focus == Focus::Sidebar ==> item.look == (Look {
                colour: Colour::White,
                bold: true,
            })
            &&& !(i == app.selected && app.focus == Focus::Sidebar) && app.entries[i].kind is Gist
                ==> item.look == (Look { colour: Colour::Cyan, bold: false })
            &&& !(i == app.selected && app.focus == Focus::Sidebar) && app.entries[i].kind is File
                ==> item.look == (Look { colour: Colour::White, bold: false })
        }),
{
}

/// The title of the sidebar tells whether gists are being loaded. Without lines the sidebar says why
/// there are none.
pub proof fn law_sidebar_tells_loading(app: AppView)
    ensures
        app.loading ==> app.render_sidebar().title == " Gists (loading...) "@,
        !app.loading ==> app.render_sidebar().title == " Gists "@,
        app.entries.len() == 0 && app.loading ==> app.render_sidebar().body
            == SidebarBodyView::Message("Loading..."@),
        app.entries.len() == 0 && !app.loading ==> app.render_sidebar().body
            == SidebarBodyView::Message("No gists found. Press 'n' to create one."@),
{
}

/// The status line says that a file is edited, else the status, else the keys. It is bold and yellow
/// while a file is edited or a question is open, green for a status, and dark gray for the keys.
pub proof fn law_status_line(app: AppView)
    ensures
        ({
            let label = app.render_status();
            &&& app.editor is Some ==> label.text
                == " editing — save & quit from your editor to return"@
            &&& app.editor is None && app.status.len() > 0 ==> label.text == app.status
            &&& app.editor is None && app.status.len() == 0 ==> label.text
                == " j/k: navigate  h/l: collapse/expand  tab: switch pane  o: open  n: new  e: edit  d: delete  r: refresh  q: quit"@
            &&& app.editor is Some || app.confirm_delete is Some ==> label.look == (Look {
                colour: Colour::Yellow,
                bold: true,
            })
            &&& app.editor is None && app.confirm_delete is None && app.status.len() > 0 ==> label.look
                == (Look { colour: Colour::Green, bold: false })
            &&& app.editor is None && app.confirm_delete is None && app.status.len() == 0
                ==> label.look == (Look { colour: Colour::DarkGray, bold: false })
        }),
{
}

/// The browser starts with nothing loaded, shown, open, selected or asked for, in the sidebar.
pub proof fn law_browser_starts_empty(id: Seq<char>)
    ensures
        ({
            let app = AppView::initial();
            &&& app.loading
            &&& app.focus == Focus::Sidebar
            &&& app.gists.len() == 0 && app.entries.len() == 0 && app.selected == 0
            &&& app.content_scroll == 0 && app.content_hscroll == 0
            &&& app.status.len() == 0 && app.highlighted_lines.len() == 0 && !app.highlight_due
            &&& !app.expanded.contains(id) && !app.fetched_detail.contains(id)
                && !app.fetching.contains(id)
            &&& app.confirm_delete is None && app.file_content is None && app.pending_file is None
                && app.editor is None
        }),
{
}

} // verus!
