use gist::commands::create::NewGist;
use gist::error::CliError;
use gist::gists::{Gist, GistFile};
use gist::tui::app::{App, EditSession, EntryKind};
use gist::tui::editor::{pty_failed, EditPlan, PtyStep, Save};
use gist::tui::events::{Action, BgMessage};
use gist::tui::highlight::Highlighting;
use gist::tui::keys::{KeyCode, KeyEvent, KeyKind, Modifiers};
use gist::tui::layout::Area;
use gist::tui::model::Focus;
use gist::tui::view::{Colour, ContentBody, Look, SidebarBody};

fn gist(id: &str, updated: &str, public: bool, files: &[(&str, Option<&str>)]) -> Gist {
    Gist {
        id: id.to_string(),
        html_url: format!("https://gist.github.com/{id}"),
        description: None,
        public,
        created_at: "2024-01-01T00:00:00Z".to_string(),
        updated_at: updated.to_string(),
        files: files
            .iter()
            .map(|(name, content)| {
                (
                    name.to_string(),
                    GistFile {
                        filename: name.to_string(),
                        content: content.map(String::from),
                        raw_url: None,
                        size: None,
                        language: None,
                    },
                )
            })
            .collect(),
    }
}

/// Two gists: `new` with two files whose texts are known, and `old` with one whose text is not.
fn loaded() -> App {
    let mut app = App::new();
    app.set_gists(vec![
        gist("old", "2024-01-01", false, &[("notes.md", None)]),
        gist("new", "2024-06-01", true, &[("b.rs", Some("fn b() {}")), ("a.txt", Some("text"))]),
    ]);
    app
}

fn no_modifiers() -> Modifiers {
    Modifiers { shift: false, control: false, alt: false, super_key: false, hyper: false, meta: false }
}

fn press(app: &mut App, code: KeyCode) -> Action {
    app.handle_key(&KeyEvent { code, modifiers: no_modifiers(), kind: KeyKind::Press })
}

fn type_char(app: &mut App, c: char) -> Action {
    press(app, KeyCode::Char(c))
}

fn press_control(app: &mut App, c: char) -> Action {
    let modifiers = Modifiers { control: true, ..no_modifiers() };
    app.handle_key(&KeyEvent { code: KeyCode::Char(c), modifiers, kind: KeyKind::Press })
}

fn labels(app: &App) -> Vec<&str> {
    app.entries.iter().map(|e| e.label.as_str()).collect()
}

fn shown(app: &App) -> Option<(&str, &str)> {
    app.file_content.as_ref().map(|(_, name, text)| (name.as_str(), text.as_str()))
}

fn shown_gist(app: &App) -> Option<&str> {
    app.file_content.as_ref().map(|(id, _, _)| id.as_str())
}

fn pending(app: &App) -> Option<(&str, &str)> {
    app.pending_file.as_ref().map(|(id, name)| (id.as_str(), name.as_str()))
}

#[test]
fn browser_starts_empty() {
    let app = App::new();
    assert!(app.gists.is_empty());
    assert!(app.entries.is_empty());
    assert_eq!(app.selected, 0);
    assert_eq!(app.focus, Focus::Sidebar);
    assert!(app.loading);
    assert_eq!(app.status, "");
    assert!(app.confirm_delete.is_none());
    assert!(app.file_content.is_none());
    assert!(app.pending_file.is_none());
    assert!(app.editor.is_none());
    assert!(!app.highlight_due);
}

#[test]
fn newest_gist_comes_first() {
    let app = loaded();
    assert_eq!(labels(&app), ["▶ a.txt (public)", "▶ notes.md (secret)"]);
    assert!(!app.loading);
    assert_eq!(shown(&app), Some(("a.txt", "text")));
    assert_eq!(app.entries[0].kind, EntryKind::Gist { id: "new".to_string(), public: true });
    assert_eq!(app.entries[0].indent, 0);
}

#[test]
fn gists_of_the_same_time_keep_their_order() {
    let mut app = App::new();
    app.set_gists(vec![
        gist("1", "t1", true, &[("one", None)]),
        gist("2", "t2", true, &[("two", None)]),
        gist("3", "t1", true, &[]),
        gist("4", "t2", true, &[("four", None)]),
    ]);
    assert_eq!(
        labels(&app),
        ["▶ two (public)", "▶ four (public)", "▶ one (public)", "▶ (empty) (public)"]
    );
}

#[test]
fn gists_open_and_close() {
    let mut app = loaded();
    for code in [KeyCode::Char('l'), KeyCode::Enter, KeyCode::Right] {
        assert!(matches!(press(&mut app, code), Action::Nothing));
        assert_eq!(labels(&app), ["▼ a.txt (public)", "a.txt", "b.rs", "▶ notes.md (secret)"]);
        assert_eq!(app.entries[2].indent, 2);
        assert_eq!(
            app.entries[2].kind,
            EntryKind::File { gist_id: "new".to_string(), filename: "b.rs".to_string() }
        );
        press(&mut app, code);
        assert_eq!(labels(&app), ["▶ a.txt (public)", "▶ notes.md (secret)"]);
    }
    for code in [KeyCode::Char('h'), KeyCode::Left, KeyCode::Esc] {
        app.toggle_expand();
        assert_eq!(app.entries.len(), 4);
        press(&mut app, code);
        assert_eq!(app.entries.len(), 2);
        assert_eq!(app.selected, 0);
    }
}

#[test]
fn closing_from_a_file_selects_the_gist() {
    let mut app = App::new();
    app.set_gists(vec![
        gist("x", "t9", true, &[("x1", Some("1")), ("x2", Some("2"))]),
        gist("y", "t8", true, &[("y1", Some("1")), ("y2", Some("2"))]),
    ]);
    app.selected = 1;
    app.toggle_expand();
    app.selected = 3;
    assert_eq!(shown(&app), Some(("x1", "1")));
    type_char(&mut app, 'h');
    assert_eq!(app.selected, 1);
    assert_eq!(labels(&app), ["▶ x1 (public)", "▶ y1 (public)"]);
    assert!(!app.expanded.contains("y"));
}

#[test]
fn steps_preview_the_selected_line() {
    let mut app = loaded();
    app.toggle_expand();
    type_char(&mut app, 'j');
    type_char(&mut app, 'j');
    assert_eq!(app.selected, 2);
    assert_eq!(shown(&app), Some(("b.rs", "fn b() {}")));
    press(&mut app, KeyCode::Down);
    assert_eq!(app.selected, 3);
    assert_eq!(pending(&app), Some(("old", "notes.md")));
    assert_eq!(app.status, "Fetching content...");
    press(&mut app, KeyCode::Down);
    assert_eq!(app.selected, 3);
    type_char(&mut app, 'k');
    assert_eq!(app.selected, 2);
    press(&mut app, KeyCode::Up);
    press(&mut app, KeyCode::Up);
    press(&mut app, KeyCode::Up);
    assert_eq!(app.selected, 0);
    assert_eq!(shown(&app), Some(("a.txt", "text")));
}

#[test]
fn listing_may_leave_the_selection_behind_the_lines() {
    let mut app = loaded();
    app.selected = 1;
    app.set_gists(vec![gist("only", "t", true, &[("f", Some("x"))])]);
    assert_eq!(app.selected, 1);
    assert_eq!(app.entries.len(), 1);
    app.clamp_selection();
    assert_eq!(app.selected, 0);
    let mut empty = App::new();
    empty.selected = 4;
    empty.clamp_selection();
    assert_eq!(empty.selected, 4);
}

#[test]
fn content_scrolls_within_bounds() {
    let mut app = loaded();
    press(&mut app, KeyCode::Tab);
    assert_eq!(app.focus, Focus::Content);
    type_char(&mut app, 'j');
    type_char(&mut app, 'j');
    type_char(&mut app, 'k');
    assert_eq!(app.content_scroll, 1);
    assert_eq!(app.selected, 0);
    type_char(&mut app, 'k');
    type_char(&mut app, 'k');
    assert_eq!(app.content_scroll, 0);
    type_char(&mut app, 'l');
    type_char(&mut app, 'l');
    assert_eq!(app.content_hscroll, 64);
    type_char(&mut app, 'h');
    assert_eq!(app.content_hscroll, 32);
    app.content_hscroll = 20;
    type_char(&mut app, 'h');
    assert_eq!(app.content_hscroll, 0);
    app.content_hscroll = 65520;
    type_char(&mut app, 'l');
    assert_eq!(app.content_hscroll, 65535);
    app.content_scroll = 65535;
    type_char(&mut app, 'j');
    assert_eq!(app.content_scroll, 65535);
    app.show_content("new", "n", "c");
    assert_eq!((app.content_scroll, app.content_hscroll), (0, 0));
}

#[test]
fn keys_choose_the_pane() {
    let mut app = loaded();
    press_control(&mut app, 'l');
    assert_eq!(app.focus, Focus::Content);
    press_control(&mut app, 'l');
    assert_eq!(app.focus, Focus::Content);
    press_control(&mut app, 'h');
    assert_eq!(app.focus, Focus::Sidebar);
    press(&mut app, KeyCode::Tab);
    press(&mut app, KeyCode::BackTab);
    assert_eq!(app.focus, Focus::Sidebar);
    press(&mut app, KeyCode::BackTab);
    assert_eq!(app.focus, Focus::Content);
    press(&mut app, KeyCode::Esc);
    assert_eq!(app.focus, Focus::Sidebar);
    // With another modifier key the two letters have no meaning.
    let modifiers = Modifiers { control: true, shift: true, ..no_modifiers() };
    app.handle_key(&KeyEvent { code: KeyCode::Char('l'), modifiers, kind: KeyKind::Press });
    assert_eq!(app.focus, Focus::Sidebar);
    assert_eq!(app.entries.len(), 2);
}

#[test]
fn other_keys_do_nothing() {
    let mut app = loaded();
    for code in [KeyCode::Char('x'), KeyCode::Home, KeyCode::F(1), KeyCode::Other, KeyCode::Char('J')] {
        assert!(matches!(press(&mut app, code), Action::Nothing));
    }
    for kind in [KeyKind::Release, KeyKind::Repeat] {
        let key = KeyEvent { code: KeyCode::Char('q'), modifiers: no_modifiers(), kind };
        assert!(matches!(app.handle_key(&key), Action::Nothing));
    }
    assert_eq!(app.selected, 0);
    assert_eq!(app.status, "");
}

#[test]
fn command_keys_ask_for_actions() {
    let mut app = loaded();
    assert!(matches!(type_char(&mut app, 'q'), Action::Quit));
    assert!(matches!(type_char(&mut app, 'e'), Action::Edit));
    assert!(matches!(type_char(&mut app, 'n'), Action::Create));
    match type_char(&mut app, 'o') {
        Action::Open(url) => assert_eq!(url, "https://gist.github.com/new"),
        other => panic!("{other:?}"),
    }
    assert!(matches!(type_char(&mut App::new(), 'o'), Action::Nothing));
    assert!(matches!(press_control(&mut app, 'q'), Action::Quit));
}

#[test]
fn deleting_asks_first() {
    let mut app = loaded();
    assert!(matches!(type_char(&mut app, 'd'), Action::Nothing));
    assert_eq!(app.confirm_delete.as_deref(), Some("new"));
    assert_eq!(app.status, "Delete this gist? (y/n)");
    assert!(matches!(type_char(&mut app, 'n'), Action::Nothing));
    assert!(app.confirm_delete.is_none());
    assert_eq!(app.status, "");
    type_char(&mut app, 'd');
    assert!(matches!(type_char(&mut app, 'q'), Action::Nothing));
    type_char(&mut app, 'd');
    match type_char(&mut app, 'y') {
        Action::Delete(id) => assert_eq!(id, "new"),
        other => panic!("{other:?}"),
    }
    assert_eq!(app.status, "Deleting...");
    assert!(app.confirm_delete.is_none());
    assert!(matches!(type_char(&mut app, 'y'), Action::Nothing));
    let mut empty = App::new();
    type_char(&mut empty, 'd');
    assert!(empty.confirm_delete.is_none());
    assert_eq!(empty.status, "");
}

#[test]
fn deleted_gist_disappears() {
    let mut app = loaded();
    app.selected = 1;
    app.fetched_detail.insert("old".to_string());
    app.fetched_detail.insert("new".to_string());
    app.fetching.insert("old".to_string());
    app.gist_deleted("old");
    assert_eq!(labels(&app), ["▶ a.txt (public)"]);
    assert_eq!(app.gists.len(), 1);
    assert_eq!(app.selected, 0);
    assert_eq!(app.status, "Gist deleted.");
    assert!(app.file_content.is_none());
    assert!(!app.fetched_detail.contains("old"));
    assert!(!app.fetching.contains("old"));
    assert!(app.fetched_detail.contains("new"));
    app.gist_deleted("nobody");
    assert_eq!(app.gists.len(), 1);
    app.gist_deleted("new");
    assert!(app.entries.is_empty());
}

#[test]
fn every_gist_with_the_identifier_is_deleted() {
    let mut app = App::new();
    app.set_gists(vec![
        gist("a", "t1", true, &[]),
        gist("b", "t2", true, &[]),
        gist("a", "t3", true, &[]),
        gist("a", "t4", true, &[]),
    ]);
    app.gist_deleted("a");
    let ids: Vec<&str> = app.gists.iter().map(|g| g.id.as_str()).collect();
    assert_eq!(ids, ["b"]);
}

#[test]
fn refreshing_forgets_what_was_fetched() {
    let mut app = loaded();
    app.fetched_detail.insert("new".to_string());
    app.status = "x".to_string();
    assert!(matches!(type_char(&mut app, 'r'), Action::Refresh));
    assert!(app.loading);
    assert_eq!(app.status, "");
    assert!(app.file_content.is_none());
    assert!(app.pending_file.is_none());
    assert!(!app.fetched_detail.contains("new"));
    assert_eq!(app.entries.len(), 2);
    // What was asked for before is asked for again.
    type_char(&mut app, 'j');
    assert_eq!(app.next_fetch().as_deref(), Some("old"));
    type_char(&mut app, 'r');
    assert_eq!(app.next_fetch(), None);
    app.select_file("old", "notes.md");
    assert_eq!(app.next_fetch().as_deref(), Some("old"));
    assert_eq!(app.next_fetch(), None);
}

#[test]
fn missing_text_is_fetched_once() {
    let mut app = loaded();
    assert_eq!(app.next_fetch(), None);
    type_char(&mut app, 'j');
    assert_eq!(app.next_fetch().as_deref(), Some("old"));
    assert_eq!(app.next_fetch(), None);
    assert_eq!(pending(&app), Some(("old", "notes.md")));
    app.on_message(BgMessage::GistDetail(gist("old", "2024-01-01", false, &[("notes.md", Some("n"))])));
    assert_eq!(shown(&app), Some(("notes.md", "n")));
    assert_eq!(app.status, "");
    assert!(app.pending_file.is_none());
    type_char(&mut app, 'k');
    type_char(&mut app, 'j');
    assert_eq!(shown(&app), Some(("notes.md", "n")));
    assert_eq!(app.next_fetch(), None);
}

#[test]
fn empty_text_counts_only_when_fetched() {
    let mut app = App::new();
    app.set_gists(vec![gist("a", "t", true, &[("f", Some(""))])]);
    assert_eq!(pending(&app), Some(("a", "f")));
    assert_eq!(app.next_fetch().as_deref(), Some("a"));
    app.apply_gist_detail(gist("a", "t", true, &[("f", Some(""))]));
    assert_eq!(shown(&app), Some(("f", "")));
    app.select_file("a", "f");
    assert!(app.pending_file.is_none());
    // A file that the fetched gist lacks is shown empty.
    app.select_file("a", "gone");
    assert_eq!(pending(&app), Some(("a", "gone")));
    app.apply_gist_detail(gist("a", "t", true, &[]));
    assert_eq!(shown(&app), Some(("gone", "")));
}

#[test]
fn other_gist_does_not_end_the_wait() {
    let mut app = loaded();
    type_char(&mut app, 'j');
    assert_eq!(app.next_fetch().as_deref(), Some("old"));
    app.on_message(BgMessage::GistDetail(gist("new", "2024-06-01", true, &[("a.txt", Some("t2"))])));
    assert_eq!(pending(&app), Some(("old", "notes.md")));
    assert_eq!(app.status, "Fetching content...");
    assert_eq!(app.gists[1].content_of("a.txt").as_deref(), Some("t2"));
    app.on_message(BgMessage::GistDetail(gist("stranger", "t", true, &[])));
    assert_eq!(app.gists.len(), 2);
    assert_eq!(app.next_fetch(), None);
    app.on_message(BgMessage::GistDetail(gist("old", "2024-01-01", false, &[("notes.md", Some("n"))])));
    assert_eq!(shown(&app), Some(("notes.md", "n")));
    assert_eq!(shown_gist(&app), Some("old"));
    assert!(app.pending_file.is_none());
    assert_eq!(app.status, "");
}

fn detail_error(id: &str) -> BgMessage {
    BgMessage::DetailError { gist_id: id.to_string(), error: "failed to get gist".to_string() }
}

#[test]
fn failed_fetch_is_tried_again() {
    let mut app = loaded();
    type_char(&mut app, 'j');
    assert_eq!(app.next_fetch().as_deref(), Some("old"));
    assert!(app.fetching.contains("old"));
    assert!(!app.fetched_detail.contains("old"));
    app.on_message(detail_error("old"));
    assert_eq!(app.status, "Error: failed to get gist");
    assert!(!app.loading);
    assert!(app.pending_file.is_none());
    assert!(!app.fetching.contains("old"));
    assert!(!app.fetched_detail.contains("old"));
    assert_eq!(app.next_fetch(), None);
    type_char(&mut app, 'k');
    type_char(&mut app, 'j');
    assert_eq!(pending(&app), Some(("old", "notes.md")));
    assert_eq!(app.next_fetch().as_deref(), Some("old"));
    assert_eq!(app.next_fetch(), None);
}

#[test]
fn every_failure_ends_the_wait() {
    for message in [BgMessage::Error("e".to_string()), detail_error("new"), detail_error("old")] {
        let mut app = loaded();
        type_char(&mut app, 'j');
        assert_eq!(app.next_fetch().as_deref(), Some("old"));
        app.loading = true;
        app.on_message(message);
        assert!(app.pending_file.is_none());
        assert!(!app.loading);
        assert!(app.status.starts_with("Error: "));
        assert_eq!(shown(&app), Some(("a.txt", "text")));
    }
    // The gist that is still under way is not asked for again, and is shown if it is selected.
    let mut app = loaded();
    type_char(&mut app, 'j');
    app.next_fetch();
    app.on_message(detail_error("new"));
    app.select_file("old", "notes.md");
    assert_eq!(app.next_fetch(), None);
    app.on_message(BgMessage::GistDetail(gist("old", "2024-01-01", false, &[("notes.md", Some("n"))])));
    assert_eq!(shown(&app), Some(("notes.md", "n")));
}

#[test]
fn empty_text_does_not_count_while_it_is_fetched() {
    let mut app = App::new();
    app.set_gists(vec![gist("a", "t", true, &[("f", Some("")), ("g", Some(""))])]);
    assert_eq!(app.next_fetch().as_deref(), Some("a"));
    app.select_file("a", "g");
    assert_eq!(pending(&app), Some(("a", "g")));
    assert!(app.file_content.is_none());
    assert_eq!(app.next_fetch(), None);
    app.on_message(BgMessage::GistDetail(gist("a", "t", true, &[("f", Some("")), ("g", Some("now"))])));
    assert_eq!(shown(&app), Some(("g", "now")));
    assert!(!app.fetching.contains("a"));
    assert!(app.fetched_detail.contains("a"));
}

#[test]
fn missing_text_of_a_fetched_gist_is_fetched_again() {
    let mut app = App::new();
    app.fetched_detail.insert("a".to_string());
    app.set_gists(vec![gist("a", "t", true, &[("f", None)])]);
    assert_eq!(pending(&app), Some(("a", "f")));
    assert_eq!(app.next_fetch().as_deref(), Some("a"));
}

#[test]
fn failed_listing_is_shown() {
    let mut app = App::new();
    app.select_file("a", "f");
    app.on_message(BgMessage::Error("failed to list gists".to_string()));
    assert!(!app.loading);
    assert!(app.pending_file.is_none());
    assert_eq!(app.status, "Error: failed to list gists");
    app.on_message(BgMessage::GistList(vec![gist("a", "t", false, &[("f", Some("x"))])]));
    assert_eq!(labels(&app), ["▶ f (secret)"]);
    assert_eq!(shown(&app), Some(("f", "x")));
    assert!(app.pending_file.is_none());
    assert_eq!(app.status, "Error: failed to list gists");
}

#[test]
fn viewed_file_is_edited() {
    let mut app = App::new();
    app.set_gists(vec![
        gist("A", "2", true, &[("n.md", Some("a"))]),
        gist("B", "1", true, &[("n.md", Some("b"))]),
    ]);
    app.move_down();
    app.focus = Focus::Content;
    assert_eq!(shown(&app), Some(("n.md", "b")));
    assert_eq!(target(&app), pair("B", "n.md"));
    let p = plan(&mut app);
    assert_eq!((p.gist_id.as_str(), p.content.as_str()), ("B", "b"));
    app.edit_started(p);
    let save = app.finish_edit("b2".to_string()).unwrap();
    assert_eq!(save.gist_id, "B");
    app.edit_saved(&save, gist("B", "3", true, &[("n.md", Some("b2"))]));
    assert_eq!(app.gists[0].content_of("n.md").as_deref(), Some("a"));
    assert_eq!(app.gists[1].content_of("n.md").as_deref(), Some("b2"));
    assert_eq!(shown_gist(&app), Some("B"));
    assert_eq!(target(&app), pair("B", "n.md"));
}

#[test]
fn selected_gist_is_that_of_the_line() {
    let mut app = loaded();
    assert_eq!(app.selected_gist_id().as_deref(), Some("new"));
    app.toggle_expand();
    app.selected = 2;
    assert_eq!(app.selected_gist_id().as_deref(), Some("new"));
    app.selected = 3;
    assert_eq!(app.selected_gist_id().as_deref(), Some("old"));
    app.selected = 9;
    assert_eq!(app.selected_gist_id(), None);
    assert_eq!(app.resolve_edit_target(), None);
}

fn target(app: &App) -> Option<(String, String)> {
    app.resolve_edit_target()
}

fn pair(a: &str, b: &str) -> Option<(String, String)> {
    Some((a.to_string(), b.to_string()))
}

#[test]
fn file_to_edit_depends_on_the_pane() {
    let mut app = loaded();
    assert_eq!(target(&app), pair("new", "a.txt"));
    app.toggle_expand();
    app.selected = 2;
    assert_eq!(target(&app), pair("new", "b.rs"));
    app.focus = Focus::Content;
    assert_eq!(target(&app), pair("new", "a.txt"));
    app.show_content("old", "notes.md", "");
    assert_eq!(target(&app), pair("old", "notes.md"));
    app.file_content = None;
    assert_eq!(target(&app), None);
}

const PANE: Area = Area { x: 40, y: 0, width: 80, height: 49 };

fn plan(app: &mut App) -> EditPlan {
    app.plan_edit(Some("vi".to_string()), 7, PANE).unwrap().unwrap()
}

#[test]
fn edit_is_planned() {
    let mut app = loaded();
    app.toggle_expand();
    app.selected = 2;
    let p = plan(&mut app);
    assert_eq!(p.editor, "vi");
    assert_eq!(p.gist_id, "new");
    assert_eq!(p.filename, "b.rs");
    assert_eq!(p.content, "fn b() {}");
    assert_eq!(p.temp_file, "gist-edit-7.rs");
    assert_eq!((p.rows, p.cols), (47, 78));
    app.selected = 3;
    let p = app.plan_edit(Some("vi".to_string()), 7, Area { x: 0, y: 0, width: 0, height: 0 });
    let p = p.unwrap().unwrap();
    assert_eq!(p.content, "");
    assert_eq!((p.rows, p.cols), (1, 1));
    assert_eq!(app.status, "");
}

#[test]
fn edit_needs_a_file_and_an_editor() {
    let mut app = App::new();
    assert!(app.plan_edit(None, 7, PANE).unwrap().is_none());
    assert_eq!(app.status, "No file selected to edit.");
    let mut app = loaded();
    for variable in [None, Some(String::new())] {
        let e = app.plan_edit(variable, 7, PANE).unwrap_err();
        assert!(matches!(e, CliError::Api { .. }));
        assert_eq!(e.message(), "EDITOR is not set");
    }
    assert_eq!(app.status, "");
}

#[test]
fn steps_of_starting_the_editor_can_fail() {
    for (step, expected) in [
        (PtyStep::Open, "failed to open pty: x"),
        (PtyStep::Spawn, "failed to spawn editor: x"),
        (PtyStep::Reader, "failed to get pty reader: x"),
        (PtyStep::Writer, "failed to get pty writer: x"),
    ] {
        let e = pty_failed(step, "x");
        assert!(matches!(e, CliError::Api { .. }));
        assert_eq!(e.message(), expected);
        assert_eq!(e.hint(), None);
    }
}

#[test]
fn keys_reach_the_editor() {
    let mut app = loaded();
    let p = plan(&mut app);
    app.edit_started(p);
    app.confirm_delete = Some("new".to_string());
    for (code, expected) in [
        (KeyCode::Char('q'), b"q".to_vec()),
        (KeyCode::Char('y'), b"y".to_vec()),
        (KeyCode::Up, b"\x1b[A".to_vec()),
    ] {
        match press(&mut app, code) {
            Action::Forward(bytes) => assert_eq!(bytes, expected),
            other => panic!("{other:?}"),
        }
    }
    assert!(matches!(press(&mut app, KeyCode::Other), Action::Nothing));
    assert_eq!(app.confirm_delete.as_deref(), Some("new"));
    let screen = Area { x: 0, y: 0, width: 120, height: 50 };
    assert_eq!(app.resized(screen), Some((47, 78)));
    assert_eq!(app.resized(Area { x: 0, y: 0, width: 10, height: 2 }), Some((1, 1)));
    assert_eq!(loaded().resized(screen), None);
}

#[test]
fn unchanged_text_is_not_saved() {
    let mut app = loaded();
    let p = plan(&mut app);
    app.edit_started(p);
    let session: &EditSession = app.editor.as_ref().unwrap();
    assert_eq!(session.original_content, "text");
    assert!(app.finish_edit("text".to_string()).is_none());
    assert!(app.editor.is_none());
    assert_eq!(app.status, "No changes.");
}

#[test]
fn changed_text_is_saved_and_shown() {
    let mut app = loaded();
    let p = plan(&mut app);
    app.edit_started(p);
    let save: Save = app.finish_edit("text 2".to_string()).unwrap();
    assert!(app.editor.is_none());
    assert_eq!(app.status, "Saving...");
    assert_eq!((save.gist_id.as_str(), save.filename.as_str()), ("new", "a.txt"));
    assert_eq!(save.content, "text 2");
    app.edit_saved(&save, gist("new", "2024-07-01", true, &[("a.txt", Some("text 2"))]));
    assert_eq!(app.status, "Saved.");
    assert_eq!(shown(&app), Some(("a.txt", "text 2")));
    assert!(app.fetched_detail.contains("new"));
    assert_eq!(app.gists[1].updated_at, "2024-07-01");
    assert_eq!(app.gists[0].id, "old");
}

#[test]
fn new_gist_needs_a_name_and_a_text() {
    let mut app = loaded();
    assert_eq!(app.new_gist_filename(" x.py \n").as_deref(), Some("x.py"));
    assert_eq!(app.status, "");
    assert_eq!(app.new_gist_filename(" \n"), None);
    assert_eq!(app.status, "Cancelled.");
    assert!(app.new_gist_editor_ended(true));
    assert_eq!(app.status, "Cancelled.");
    assert!(!app.new_gist_editor_ended(false));
    assert_eq!(app.status, "Editor exited without saving.");
    assert!(app.new_gist("x.py".to_string(), " \n".to_string()).is_none());
    assert_eq!(app.status, "Empty content, gist not created.");
    let new: NewGist = app.new_gist("x.py".to_string(), "pass\n".to_string()).unwrap();
    assert_eq!(app.status, "Creating gist...");
    assert_eq!((new.filename.as_str(), new.content.as_str()), ("x.py", "pass\n"));
    assert!(!new.public);
    assert_eq!(new.description, "");
}

#[test]
fn made_gist_is_open_and_shown() {
    let mut app = loaded();
    app.selected = 1;
    let new = app.new_gist("x.py".to_string(), "pass".to_string()).unwrap();
    app.gist_created(gist("made", "2025-01-01", false, &[("x.py", Some("pass"))]), "https://u", &new);
    assert_eq!(labels(&app), ["▼ x.py (secret)", "x.py", "▶ a.txt (public)", "▶ notes.md (secret)"]);
    assert_eq!(app.selected, 0);
    assert_eq!(app.gists[0].id, "made");
    assert_eq!(shown(&app), Some(("x.py", "pass")));
    assert_eq!(shown_gist(&app), Some("made"));
    assert_eq!(app.status, "Created: https://u");
    assert!(app.fetched_detail.contains("made"));
    assert!(app.expanded.contains("made"));
}

#[test]
fn shown_text_is_coloured() {
    let highlighting = Highlighting::load();
    let mut app = loaded();
    assert!(app.highlight_due);
    app.show_content("new", "main.rs", "fn a() {}\nfn b() {}\n");
    app.highlight(&highlighting);
    assert!(!app.highlight_due);
    assert_eq!(app.highlighted_lines.len(), 2);
    let line: String = app.highlighted_lines[0].iter().map(|p| p.text.as_str()).collect();
    assert_eq!(line, "fn a() {}\n");
    // Nothing is due, so the lines stay.
    app.highlight(&highlighting);
    assert_eq!(app.highlighted_lines.len(), 2);
    type_char(&mut app, 'r');
    app.show_content("new", "x.txt", "one line");
    assert_eq!(app.highlighted_lines.len(), 2);
    assert!(app.highlight_due);
    app.highlight(&highlighting);
    assert_eq!(app.highlighted_lines.len(), 1);
}

fn look(colour: Colour, bold: bool) -> Look {
    Look { colour, bold }
}

#[test]
fn sidebar_tells_what_is_loaded() {
    let mut app = App::new();
    let pane = app.render_sidebar();
    assert_eq!(pane.title, " Gists (loading...) ");
    assert_eq!(pane.border, Colour::Blue);
    match pane.body {
        SidebarBody::Message(text) => assert_eq!(text, "Loading..."),
        other => panic!("{other:?}"),
    }
    app.set_gists(Vec::new());
    app.focus = Focus::Content;
    let pane = app.render_sidebar();
    assert_eq!(pane.title, " Gists ");
    assert_eq!(pane.border, Colour::DarkGray);
    match pane.body {
        SidebarBody::Message(text) => assert_eq!(text, "No gists found. Press 'n' to create one."),
        other => panic!("{other:?}"),
    }
}

#[test]
fn sidebar_lists_the_lines() {
    let mut app = loaded();
    app.toggle_expand();
    app.loading = true;
    let pane = app.render_sidebar();
    assert_eq!(pane.title, " Gists (loading...) ");
    match pane.body {
        SidebarBody::Items { items, selected } => {
            assert_eq!(selected, 0);
            let got: Vec<(&str, &str, Look)> =
                items.iter().map(|i| (i.indent.as_str(), i.label.as_str(), i.look)).collect();
            assert_eq!(
                got,
                vec![
                    ("", "▼ a.txt (public)", look(Colour::White, true)),
                    ("  ", "a.txt", look(Colour::White, false)),
                    ("  ", "b.rs", look(Colour::White, false)),
                    ("", "▶ notes.md (secret)", look(Colour::Cyan, false)),
                ]
            );
        }
        other => panic!("{other:?}"),
    }
    app.focus = Focus::Content;
    match app.render_sidebar().body {
        SidebarBody::Items { items, .. } => assert_eq!(items[0].look, look(Colour::Cyan, false)),
        other => panic!("{other:?}"),
    }
}

#[test]
fn content_pane_tells_what_it_shows() {
    let mut app = App::new();
    let pane = app.render_content();
    assert_eq!((pane.title.as_str(), pane.border), (" Content ", Colour::DarkGray));
    match pane.body {
        ContentBody::Message(text) => assert_eq!(text, "Select a file to view its content."),
        other => panic!("{other:?}"),
    }
    app.select_file("a", "f");
    let pane = app.render_content();
    assert_eq!(pane.title, " f (loading...) ");
    match pane.body {
        ContentBody::Message(text) => assert_eq!(text, "Loading..."),
        other => panic!("{other:?}"),
    }
    app.show_content("a", "g", "text");
    app.pending_file = Some(("a".to_string(), "f".to_string()));
    app.focus = Focus::Content;
    app.content_scroll = 3;
    app.content_hscroll = 32;
    let pane = app.render_content();
    assert_eq!((pane.title.as_str(), pane.border), (" g ", Colour::Blue));
    match pane.body {
        ContentBody::Lines { rows, cols } => assert_eq!((rows, cols), (3, 32)),
        other => panic!("{other:?}"),
    }
    app.editor = Some(EditSession {
        filename: "e.rs".to_string(),
        gist_id: "a".to_string(),
        original_content: String::new(),
    });
    let pane = app.render_content();
    assert_eq!((pane.title.as_str(), pane.border), (" e.rs (editing) ", Colour::Yellow));
    assert!(matches!(pane.body, ContentBody::Editor));
}

#[test]
fn status_line_tells_what_goes_on() {
    let mut app = App::new();
    let label = app.render_status();
    assert_eq!(
        label.text,
        " j/k: navigate  h/l: collapse/expand  tab: switch pane  o: open  n: new  e: edit  d: delete  r: refresh  q: quit"
    );
    assert_eq!(label.look, look(Colour::DarkGray, false));
    app.status = "Saved.".to_string();
    let label = app.render_status();
    assert_eq!((label.text.as_str(), label.look), ("Saved.", look(Colour::Green, false)));
    app.confirm_delete = Some("a".to_string());
    assert_eq!(app.render_status().look, look(Colour::Yellow, true));
    app.editor = Some(EditSession {
        filename: String::new(),
        gist_id: String::new(),
        original_content: String::new(),
    });
    let label = app.render_status();
    assert_eq!(label.text, " editing — save & quit from your editor to return");
    assert_eq!(label.look, look(Colour::Yellow, true));
}

#[test]
fn toggling_twice_restores_the_lines() {
    let mut app = loaded();
    app.selected = 1;
    let before: Vec<String> = labels(&app).into_iter().map(String::from).collect();
    app.toggle_expand();
    assert_ne!(labels(&app), before);
    app.toggle_expand();
    assert_eq!(labels(&app), before);
    assert_eq!(app.selected, 1);
}
