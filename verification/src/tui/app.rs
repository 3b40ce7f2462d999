//! The state of the browser and its steps.
use crate::gists;
use crate::gists::{Gist, GistView};
use crate::sort;
use crate::text;
use crate::tui::highlight::{Highlighting, StyledText};
use crate::tui::model;
use crate::tui::model::{AppView, EditSessionView, EntryKindView, EntryView, Focus};
use vstd::hash_set::StringHashSet;
use vstd::prelude::*;

verus! {

/// What a line of the sidebar stands for.
#[derive(Clone, Debug, PartialEq)]
pub enum EntryKind {
    Gist { id: String, public: bool },
    File { gist_id: String, filename: String },
}

/// A line of the sidebar.
#[derive(Debug)]
pub struct Entry {
    pub label: String,
    pub kind: EntryKind,
    pub indent: u16,
}

/// A file that is being edited in the content pane.
#[derive(Debug)]
pub struct EditSession {
    pub filename: String,
    pub gist_id: String,
    pub original_content: String,
}

/// The state of the browser.
pub struct App {
    pub gists: Vec<Gist>,
    pub entries: Vec<Entry>,
    pub selected: usize,
    /// The gists whose files are listed.
    pub expanded: StringHashSet,
    pub focus: Focus,
    pub content_scroll: u16,
    pub content_hscroll: u16,
    pub status: String,
    pub loading: bool,
    pub confirm_delete: Option<String>,
    /// The gist, the name and the text of the file in the content pane.
    pub file_content: Option<(String, String, String)>,
    pub highlighted_lines: Vec<Vec<StyledText>>,
    /// Whether the text in the content pane is newer than `highlighted_lines`.
    pub highlight_due: bool,
    /// The gists that have come by themselves, with their texts.
    pub fetched_detail: StringHashSet,
    /// The gists that were asked for, since the last refresh, and have not come yet.
    pub fetching: StringHashSet,
    /// The gist and the name of the file that is waited for.
    pub pending_file: Option<(String, String)>,
    pub editor: Option<EditSession>,
}

impl View for EntryKind {
    type V = EntryKindView;

    open spec fn view(&self) -> EntryKindView {
        match self {
            EntryKind::Gist { id, public } => EntryKindView::Gist { id: id@, public: *public },
            EntryKind::File { gist_id, filename } => EntryKindView::File {
                gist_id: gist_id@,
                filename: filename@,
            },
        }
    }
}

impl View for Entry {
    type V = EntryView;

    open spec fn view(&self) -> EntryView {
        EntryView { label: self.label@, kind: self.kind@, indent: self.indent }
    }
}

impl View for EditSession {
    type V = EditSessionView;

    open spec fn view(&self) -> EditSessionView {
        EditSessionView {
            filename: self.filename@,
            gist_id: self.gist_id@,
            original_content: self.original_content@,
        }
    }
}

impl DeepView for EditSession {
    type V = EditSessionView;

    open spec fn deep_view(&self) -> EditSessionView {
        self@
    }
}

/// The views of the lines of the sidebar.
pub open spec fn entry_views(entries: Seq<Entry>) -> Seq<EntryView> {
    entries.map_values(|e: Entry| e@)
}

impl View for App {
    type V = AppView;

    open spec fn view(&self) -> AppView {
        AppView {
            gists: gists::gist_views(self.gists@),
            entries: entry_views(self.entries@),
            selected: self.selected as int,
            expanded: self.expanded@,
            focus: self.focus,
            content_scroll: self.content_scroll as int,
            content_hscroll: self.content_hscroll as int,
            status: self.status@,
            loading: self.loading,
            confirm_delete: self.confirm_delete.deep_view(),
            file_content: self.file_content.deep_view(),
            highlighted_lines: self.highlighted_lines.deep_view(),
            highlight_due: self.highlight_due,
            fetched_detail: self.fetched_detail@,
            fetching: self.fetching@,
            pending_file: self.pending_file.deep_view(),
            editor: self.editor.deep_view(),
        }
    }
}

/// The text of the line of a gist.
fn label_of(gist: &Gist, names: &Vec<String>, expanded: bool) -> (r: String)
    requires
        text::views(names@) == gist@.sorted_names(),
    ensures
        r@ == model::gist_label(gist@, expanded),
{
    let arrow: &str = if expanded {
        "▼ "
    } else {
        "▶ "
    };
    let visibility: &str = if gist.public {
        " (public)"
    } else {
        " (secret)"
    };
    assert(names@.len() == text::views(names@).len());
    if names.len() == 0 {
        text::join3(arrow, "(empty)", visibility)
    } else {
        assert(text::views(names@)[0] == names@[0]@);
        text::join3(arrow, names[0].as_str(), visibility)
    }
}

/// Puts the lines of a gist behind `entries`.
fn push_gist_entries(entries: &mut Vec<Entry>, gist: &Gist, expanded: bool)
    ensures
        entry_views(final(entries)@) == entry_views(old(entries)@) + model::gist_entries(
            gist@,
            expanded,
        ),
{
    let names: Vec<String> = gist.sorted_names();
    let ghost before = entry_views(entries@);
    let ghost sorted = gist@.sorted_names();
    entries.push(
        Entry {
            label: label_of(gist, &names, expanded),
            kind: EntryKind::Gist { id: gist.id.clone(), public: gist.public },
            indent: 0,
        },
    );
    let ghost head = before.push(model::gist_entry(gist@, expanded));
    assert(entry_views(entries@) =~= head);
    if expanded {
        let ghost lines = sorted.map_values(|name: Seq<char>| model::file_entry(gist@.id, name));
        let n: usize = names.len();
        assert(lines.take(0) =~= Seq::<EntryView>::empty());
        assert(head + lines.take(0) =~= head);
        for i in 0..n
            invariant
                n == names@.len(),
                text::views(names@) == sorted,
                lines == sorted.map_values(|name: Seq<char>| model::file_entry(gist@.id, name)),
                entry_views(entries@) == head + lines.take(i as int),
        {
            let name: &String = &names[i];
            assert(sorted[i as int] == name@);
            let ghost done = entry_views(entries@);
            entries.push(
                Entry {
                    label: name.clone(),
                    kind: EntryKind::File { gist_id: gist.id.clone(), filename: name.clone() },
                    indent: 2,
                },
            );
            assert(entry_views(entries@) =~= done.push(lines[i as int]));
            assert(lines.take(i + 1) =~= lines.take(i as int).push(lines[i as int]));
            assert(head + lines.take(i + 1) =~= (head + lines.take(i as int)).push(
                lines[i as int],
            ));
        }
        assert(sorted.len() == n);
        assert(lines.take(n as int) =~= lines);
        assert(head + lines =~= before + model::gist_entries(gist@, expanded));
    } else {
        assert(head =~= before + model::gist_entries(gist@, expanded));
    }
}

impl App {
    /// The state before anything was loaded.
    pub fn new() -> (r: App)
        ensures
            r@ == AppView::initial(),
    {
        let r = App {
            gists: Vec::new(),
            entries: Vec::new(),
            selected: 0,
            expanded: StringHashSet::new(),
            focus: Focus::Sidebar,
            content_scroll: 0,
            content_hscroll: 0,
            status: String::new(),
            loading: true,
            confirm_delete: None,
            file_content: None,
            highlighted_lines: Vec::new(),
            highlight_due: false,
            fetched_detail: StringHashSet::new(),
            fetching: StringHashSet::new(),
            pending_file: None,
            editor: None,
        };
        assert(r@ =~= AppView::initial());
        r
    }

    /// Takes a listing: the sidebar is made anew and the selected line previewed.
    pub fn set_gists(&mut self, gists: Vec<Gist>)
        ensures
            final(self)@ == old(self)@.set_gists(gists::gist_views(gists@)),
    {
        self.gists = gists;
        self.loading = false;
        self.rebuild_entries();
        self.preview_selected();
    }

    /// Makes the lines of the sidebar anew from the gists.
    pub fn rebuild_entries(&mut self)
        ensures
            final(self)@ == old(self)@.rebuild_entries(),
    {
        let order: Vec<usize> = gists::positions_by_update(&self.gists);
        let ghost all = gists::gist_views(self.gists@);
        let ghost sorted = gists::by_update(all);
        let mut entries: Vec<Entry> = Vec::new();
        let n: usize = order.len();
        assert(order@.map_values(|i: usize| all[i as int]).len() == n);
        assert(sorted.take(0) =~= Seq::<GistView>::empty());
        assert(entry_views(entries@) =~= model::all_entries(sorted.take(0), self.expanded@));
        for i in 0..n
            invariant
                n == order@.len(),
                n == sorted.len(),
                all == gists::gist_views(self.gists@),
                sorted == gists::by_update(all),
                sorted == order@.map_values(|i: usize| all[i as int]),
                forall|j: int| 0 <= j < order@.len() ==> #[trigger] order@[j] < self.gists@.len(),
                entry_views(entries@) == model::all_entries(
                    sorted.take(i as int),
                    self.expanded@,
                ),
        {
            let gist: &Gist = &self.gists[order[i]];
            let expanded: bool = self.expanded.contains(gist.id.as_str());
            push_gist_entries(&mut entries, gist, expanded);
            proof {
                assert(sorted[i as int] == gist@);
                assert(sorted.take(i + 1).drop_last() =~= sorted.take(i as int));
                assert(sorted.take(i + 1).last() == gist@);
            }
        }
        assert(sorted.take(n as int) =~= sorted);
        self.entries = entries;
        assert(self@ =~= old(self)@.rebuild_entries());
    }

    /// Opens or closes the selected gist, or shows the selected file.
    pub fn toggle_expand(&mut self)
        ensures
            final(self)@ == old(self)@.toggle_expand(),
    {
        if self.selected >= self.entries.len() {
            return;
        }
        let ghost entry = self.entries@[self.selected as int]@;
        assert(self@.selected_entry() == Some(entry));
        match &self.entries[self.selected].kind {
            EntryKind::Gist { id, .. } => {
                let id: String = id.clone();
                if self.expanded.contains(id.as_str()) {
                    self.expanded.remove(id.as_str());
                } else {
                    self.expanded.insert(id);
                }
                self.rebuild_entries();
            },
            EntryKind::File { gist_id, filename } => {
                let gist_id: String = gist_id.clone();
                let filename: String = filename.clone();
                self.select_file(gist_id.as_str(), filename.as_str());
            },
        }
    }

    /// Shows a file if its text is at hand; otherwise notes that it has to be fetched.
    pub fn select_file(&mut self, gist_id: &str, filename: &str)
        ensures
            final(self)@ == old(self)@.select_file(gist_id@, filename@),
    {
        match gists::find_content(&self.gists, gist_id, filename) {
            Some(content) => {
                if !content.as_str().is_empty() || self.fetched_detail.contains(gist_id) {
                    self.show_content(gist_id, filename, content.as_str());
                    return;
                }
            },
            None => {},
        }
        self.pending_file = Some((gist_id.to_owned(), filename.to_owned()));
        self.status = "Fetching content...".to_owned();
    }

    /// Puts a text into the content pane.
    pub fn show_content(&mut self, gist_id: &str, filename: &str, content: &str)
        ensures
            final(self)@ == old(self)@.show_content(gist_id@, filename@, content@),
    {
        self.file_content = Some((gist_id.to_owned(), filename.to_owned(), content.to_owned()));
        self.highlight_due = true;
        self.content_scroll = 0;
        self.content_hscroll = 0;
        self.pending_file = None;
    }

    /// Brings the coloured lines up to date with the text in the content pane.
    pub fn highlight(&mut self, highlighting: &Highlighting)
        ensures
            old(self)@.recoloured(*highlighting, final(self)@),
    {
        if self.highlight_due {
            if let Some((_, filename, content)) = &self.file_content {
                self.highlighted_lines =
                highlighting.highlight_content(filename.as_str(), content.as_str());
            }
            self.highlight_due = false;
        }
    }

    /// Replaces the first gist with the identifier `id`, if there is one.
    fn replace_gist(&mut self, id: &str, gist: Gist)
        ensures
            final(self)@ == (AppView {
                gists: model::replaced(old(self)@.gists, id@, gist@),
                ..old(self)@
            }),
    {
        match gists::find_gist(&self.gists, id) {
            Some(i) => {
                self.gists.set(i, gist);
                assert(self@.gists =~= old(self)@.gists.update(i as int, gist@));
            },
            None => {},
        }
    }

    /// Takes a gist that was fetched by itself.
    pub fn apply_gist_detail(&mut self, gist: Gist)
        ensures
            final(self)@ == old(self)@.apply_gist_detail(gist@),
    {
        let gist_id: String = gist.id.clone();
        self.fetched_detail.insert(gist_id.clone());
        self.fetching.remove(gist_id.as_str());
        self.replace_gist(gist_id.as_str(), gist);
        let filename: String = match &self.pending_file {
            Some((pending_id, filename)) => {
                if !text::str_eq(pending_id.as_str(), gist_id.as_str()) {
                    return;
                }
                filename.clone()
            },
            None => {
                return;
            },
        };
        let content: String = match gists::find_content(
            &self.gists,
            gist_id.as_str(),
            filename.as_str(),
        ) {
            Some(content) => content,
            None => String::new(),
        };
        self.show_content(gist_id.as_str(), filename.as_str(), content.as_str());
        self.status = String::new();
    }

    /// The position of the line of the gist `id`.
    fn gist_line(&self, id: &str) -> (r: Option<usize>)
        ensures
            match r {
                Some(i) => i < self.entries@.len() && sort::first_position(
                    model::gist_ids(self@.entries),
                    Some(id@),
                ) == Some(i as int),
                None => sort::first_position(model::gist_ids(self@.entries), Some(id@)) is None,
            },
    {
        let ghost ids = model::gist_ids(self@.entries);
        let n: usize = self.entries.len();
        for i in 0..n
            invariant
                n == self.entries@.len(),
                ids == model::gist_ids(self@.entries),
                forall|j: int| 0 <= j < i ==> ids[j] != Some(id@),
        {
            assert(self@.entries[i as int] == self.entries@[i as int]@);
            if let EntryKind::Gist { id: line_id, .. } = &self.entries[i].kind {
                if text::str_eq(line_id.as_str(), id) {
                    proof {
                        sort::lemma_first_position_is(ids, Some(id@), i as int);
                    }
                    return Some(i);
                }
            }
        }
        proof {
            sort::lemma_first_position(ids, Some(id@));
        }
        None
    }

    /// Goes back to the sidebar, or closes the gist of the selected line.
    pub fn collapse_or_back(&mut self)
        ensures
            final(self)@ == old(self)@.collapse_or_back(),
    {
        if self.focus == Focus::Content {
            self.focus = Focus::Sidebar;
            return;
        }
        if self.selected >= self.entries.len() {
            return;
        }
        let ghost entry = self.entries@[self.selected as int]@;
        assert(self@.selected_entry() == Some(entry));
        match &self.entries[self.selected].kind {
            EntryKind::Gist { id, .. } => {
                let id: String = id.clone();
                self.expanded.remove(id.as_str());
                self.rebuild_entries();
            },
            EntryKind::File { gist_id, .. } => {
                let gist_id: String = gist_id.clone();
                self.expanded.remove(gist_id.as_str());
                self.rebuild_entries();
                if let Some(i) = self.gist_line(gist_id.as_str()) {
                    self.selected = i;
                }
            },
        }
    }

    /// Moves one line up in the pane that has the focus.
    pub fn move_up(&mut self)
        ensures
            final(self)@ == old(self)@.move_up(),
    {
        if self.focus == Focus::Content {
            self.content_scroll = self.content_scroll.saturating_sub(1);
            return;
        }
        if self.selected > 0 {
            self.selected = self.selected - 1;
            self.preview_selected();
        }
    }

    /// Moves one line down in the pane that has the focus.
    pub fn move_down(&mut self)
        ensures
            final(self)@ == old(self)@.move_down(),
    {
        if self.focus == Focus::Content {
            self.content_scroll = self.content_scroll.saturating_add(1);
            return;
        }
        if self.selected < self.entries.len() && self.selected + 1 < self.entries.len() {
            self.selected = self.selected + 1;
            self.preview_selected();
        }
    }

    /// The file that the selected line stands for.
    fn selected_file(&self) -> (r: Option<(String, String)>)
        ensures
            r.deep_view() == self@.selected_file(),
    {
        if self.selected >= self.entries.len() {
            return None;
        }
        let ghost entry = self.entries@[self.selected as int]@;
        assert(self@.selected_entry() == Some(entry));
        match &self.entries[self.selected].kind {
            EntryKind::File { gist_id, filename } => Some((gist_id.clone(), filename.clone())),
            EntryKind::Gist { id, .. } => match gists::find_gist(&self.gists, id.as_str()) {
                Some(i) => {
                    let names: Vec<String> = self.gists[i].sorted_names();
                    assert(text::views(names@).len() == names@.len());
                    if names.len() == 0 {
                        None
                    } else {
                        assert(text::views(names@)[0] == names@[0]@);
                        Some((id.clone(), names[0].clone()))
                    }
                },
                None => None,
            },
        }
    }

    /// Shows, or asks for, the file of the selected line.
    pub fn preview_selected(&mut self)
        ensures
            final(self)@ == old(self)@.preview_selected(),
    {
        match self.selected_file() {
            Some((gist_id, filename)) => {
                self.select_file(gist_id.as_str(), filename.as_str());
            },
            None => {},
        }
    }

    /// The gist that the selected line belongs to.
    pub fn selected_gist_id(&self) -> (r: Option<String>)
        ensures
            r.deep_view() == self@.selected_gist_id(),
    {
        if self.selected >= self.entries.len() {
            return None;
        }
        let ghost entry = self.entries@[self.selected as int]@;
        assert(self@.selected_entry() == Some(entry));
        match &self.entries[self.selected].kind {
            EntryKind::Gist { id, .. } => Some(id.clone()),
            EntryKind::File { gist_id, .. } => Some(gist_id.clone()),
        }
    }

    /// The gist and the name of the file to edit.
    pub fn resolve_edit_target(&self) -> (r: Option<(String, String)>)
        ensures
            r.deep_view() == self@.resolve_edit_target(),
    {
        if self.focus == Focus::Content {
            match &self.file_content {
                Some((gist_id, filename, _)) => Some((gist_id.clone(), filename.clone())),
                None => None,
            }
        } else {
            self.selected_file()
        }
    }

    /// Moves a selection behind the last line to the last line.
    pub fn clamp_selection(&mut self)
        ensures
            final(self)@ == old(self)@.clamp_selection(),
    {
        if self.selected >= self.entries.len() && self.entries.len() > 0 {
            self.selected = self.entries.len() - 1;
        }
    }
}

} // verus!
