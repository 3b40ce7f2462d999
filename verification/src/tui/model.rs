//! What the browser shows and remembers, and how each step changes it.
use crate::gists;
use crate::gists::GistView;
use crate::sort;
use crate::tui::highlight::{Highlighting, StyledTextView};
use vstd::prelude::*;

verus! {

/// The pane that the keys go to.
#[derive(Clone, Copy, Debug, PartialEq, Eq, Structural)]
pub enum Focus {
    Sidebar,
    Content,
}

/// What a line of the sidebar stands for.
pub enum EntryKindView {
    Gist { id: Seq<char>, public: bool },
    File { gist_id: Seq<char>, filename: Seq<char> },
}

/// A line of the sidebar.
pub struct EntryView {
    pub label: Seq<char>,
    pub kind: EntryKindView,
    pub indent: u16,
}

/// A file that is being edited in the content pane.
pub struct EditSessionView {
    pub filename: Seq<char>,
    pub gist_id: Seq<char>,
    pub original_content: Seq<char>,
}

/// The state of the browser.
#[verifier::ext_equal]
pub struct AppView {
    pub gists: Seq<GistView>,
    pub entries: Seq<EntryView>,
    pub selected: int,
    pub expanded: Set<Seq<char>>,
    pub focus: Focus,
    pub content_scroll: int,
    pub content_hscroll: int,
    pub status: Seq<char>,
    pub loading: bool,
    pub confirm_delete: Option<Seq<char>>,
    pub file_content: Option<(Seq<char>, Seq<char>, Seq<char>)>,
    pub highlighted_lines: Seq<Seq<StyledTextView>>,
    pub highlight_due: bool,
    pub fetched_detail: Set<Seq<char>>,
    pub fetching: Set<Seq<char>>,
    pub pending_file: Option<(Seq<char>, Seq<char>)>,
    pub editor: Option<EditSessionView>,
}

/// The text of the line of a gist: whether it is open, its first file by name, and who can see
/// it.
pub open spec fn gist_label(gist: GistView, expanded: bool) -> Seq<char> {
    let arrow = if expanded {
        "▼ "@
    } else {
        "▶ "@
    };
    let name = if gist.sorted_names().len() == 0 {
        "(empty)"@
    } else {
        gist.sorted_names()[0]
    };
    let visibility = if gist.public {
        " (public)"@
    } else {
        " (secret)"@
    };
    arrow + name + visibility
}

/// The line of a gist.
pub open spec fn gist_entry(gist: GistView, expanded: bool) -> EntryView {
    EntryView {
        label: gist_label(gist, expanded),
        kind: EntryKindView::Gist { id: gist.id, public: gist.public },
        indent: 0,
    }
}

/// The line of a file.
pub open spec fn file_entry(gist_id: Seq<char>, filename: Seq<char>) -> EntryView {
    EntryView { label: filename, kind: EntryKindView::File { gist_id, filename }, indent: 2 }
}

/// The lines of a gist: its own and, where it is open, one for each file in ascending order.
pub open spec fn gist_entries(gist: GistView, expanded: bool) -> Seq<EntryView> {
    seq![gist_entry(gist, expanded)] + if expanded {
        gist.sorted_names().map_values(|name: Seq<char>| file_entry(gist.id, name))
    } else {
        Seq::empty()
    }
}

/// The lines of several gists, one gist after the other.
pub open spec fn all_entries(gists: Seq<GistView>, expanded: Set<Seq<char>>) -> Seq<EntryView>
    decreases gists.len(),
{
    if gists.len() == 0 {
        Seq::empty()
    } else {
        all_entries(gists.drop_last(), expanded) + gist_entries(
            gists.last(),
            expanded.contains(gists.last().id),
        )
    }
}

/// The lines of the sidebar: the gist that was changed last comes first.
pub open spec fn sidebar(gists: Seq<GistView>, expanded: Set<Seq<char>>) -> Seq<EntryView> {
    all_entries(gists::by_update(gists), expanded)
}

/// The identifiers of the gists that the lines stand for; `None` for a line of a file.
pub open spec fn gist_ids(entries: Seq<EntryView>) -> Seq<Option<Seq<char>>> {
    entries.map_values(
        |e: EntryView|
            match e.kind {
                EntryKindView::Gist { id, .. } => Some(id),
                EntryKindView::File { .. } => None,
            },
    )
}

/// The gists with the first one that has the identifier `id` replaced by `gist`.
pub open spec fn replaced(gists: Seq<GistView>, id: Seq<char>, gist: GistView) -> Seq<GistView> {
    match gists::gist_position(gists, id) {
        Some(i) => gists.update(i, gist),
        None => gists,
    }
}

impl AppView {
    /// The state before anything was loaded.
    pub open spec fn initial() -> AppView {
        AppView {
            gists: Seq::empty(),
            entries: Seq::empty(),
            selected: 0,
            expanded: Set::empty(),
            focus: Focus::Sidebar,
            content_scroll: 0,
            content_hscroll: 0,
            status: Seq::empty(),
            loading: true,
            confirm_delete: None,
            file_content: None,
            highlighted_lines: Seq::empty(),
            highlight_due: false,
            fetched_detail: Set::empty(),
            fetching: Set::empty(),
            pending_file: None,
            editor: None,
        }
    }

    /// The selected line, if the selection is on one.
    pub open spec fn selected_entry(self) -> Option<EntryView> {
        if 0 <= self.selected < self.entries.len() {
            Some(self.entries[self.selected])
        } else {
            None
        }
    }

    /// The lines made anew from the gists.
    pub open spec fn rebuild_entries(self) -> AppView {
        AppView { entries: sidebar(self.gists, self.expanded), ..self }
    }

    /// A listing has arrived.
    pub open spec fn set_gists(self, gists: Seq<GistView>) -> AppView {
        AppView { gists, loading: false, ..self }.rebuild_entries().preview_selected()
    }

    /// A gist opens or closes, a file is shown.
    pub open spec fn toggle_expand(self) -> AppView {
        match self.selected_entry() {
            None => self,
            Some(entry) => match entry.kind {
                EntryKindView::Gist { id, .. } => AppView {
                    expanded: if self.expanded.contains(id) {
                        self.expanded.remove(id)
                    } else {
                        self.expanded.insert(id)
                    },
                    ..self
                }.rebuild_entries(),
                EntryKindView::File { gist_id, filename } => self.select_file(gist_id, filename),
            },
        }
    }

    /// Whether the text of a file is at hand. An empty text counts only once the gist was
    /// fetched by itself, since a listing may leave texts out.
    pub open spec fn has_text(self, gist_id: Seq<char>, filename: Seq<char>) -> bool {
        match gists::known_content(self.gists, gist_id, filename) {
            Some(content) => content.len() > 0 || self.fetched_detail.contains(gist_id),
            None => false,
        }
    }

    /// The file is shown where its text is at hand, and asked for where it is not.
    pub open spec fn select_file(self, gist_id: Seq<char>, filename: Seq<char>) -> AppView {
        if self.has_text(gist_id, filename) {
            self.show_content(
                gist_id,
                filename,
                gists::known_content(self.gists, gist_id, filename).unwrap(),
            )
        } else {
            AppView {
                pending_file: Some((gist_id, filename)),
                status: "Fetching content..."@,
                ..self
            }
        }
    }

    /// The text of a file takes the content pane, from its start.
    pub open spec fn show_content(
        self,
        gist_id: Seq<char>,
        filename: Seq<char>,
        content: Seq<char>,
    ) -> AppView {
        AppView {
            file_content: Some((gist_id, filename, content)),
            highlight_due: true,
            content_scroll: 0,
            content_hscroll: 0,
            pending_file: None,
            ..self
        }
    }

    /// Whether the coloured lines are those of the text that is shown, unless they are still to be
    /// made.
    pub open spec fn coloured(self, highlighting: Highlighting) -> bool {
        match self.file_content {
            Some((_, filename, content)) => self.highlight_due || highlighting.may_show(
                filename,
                content,
                self.highlighted_lines,
            ),
            None => true,
        }
    }

    /// Whether `after` is this state with the coloured lines made, where they were still to be made.
    pub open spec fn recoloured(self, highlighting: Highlighting, after: AppView) -> bool {
        &&& after == AppView {
            highlighted_lines: after.highlighted_lines,
            highlight_due: false,
            ..self
        }
        &&& match self.file_content {
            Some((_, filename, content)) if self.highlight_due => highlighting.may_show(
                filename,
                content,
                after.highlighted_lines,
            ),
            _ => after.highlighted_lines == self.highlighted_lines,
        }
    }

    /// A gist has arrived with its texts: it replaces the one listed, and the awaited file is
    /// shown if it belongs to it. A file of another gist is still waited for.
    pub open spec fn apply_gist_detail(self, gist: GistView) -> AppView {
        let next = AppView {
            gists: replaced(self.gists, gist.id, gist),
            fetched_detail: self.fetched_detail.insert(gist.id),
            fetching: self.fetching.remove(gist.id),
            ..self
        };
        match self.pending_file {
            Some((gist_id, filename)) => if gist_id == gist.id {
                let content = match gists::known_content(next.gists, gist.id, filename) {
                    Some(content) => content,
                    None => Seq::empty(),
                };
                AppView { status: Seq::empty(), ..next.show_content(gist.id, filename, content) }
            } else {
                next
            },
            None => next,
        }
    }

    /// Back to the sidebar; in the sidebar, the gist of the selected line closes. From a file the
    /// selection goes to the line of its gist.
    pub open spec fn collapse_or_back(self) -> AppView {
        if self.focus == Focus::Content {
            AppView { focus: Focus::Sidebar, ..self }
        } else {
            match self.selected_entry() {
                None => self,
                Some(entry) => match entry.kind {
                    EntryKindView::Gist { id, .. } => AppView {
                        expanded: self.expanded.remove(id),
                        ..self
                    }.rebuild_entries(),
                    EntryKindView::File { gist_id, .. } => {
                        let next = AppView {
                            expanded: self.expanded.remove(gist_id),
                            ..self
                        }.rebuild_entries();
                        match sort::first_position(gist_ids(next.entries), Some(gist_id)) {
                            Some(i) => AppView { selected: i, ..next },
                            None => next,
                        }
                    },
                },
            }
        }
    }

    /// One line up, in the pane that has the focus.
    pub open spec fn move_up(self) -> AppView {
        if self.focus == Focus::Content {
            AppView {
                content_scroll: if self.content_scroll > 0 {
                    self.content_scroll - 1
                } else {
                    0
                },
                ..self
            }
        } else if self.selected > 0 {
            AppView { selected: self.selected - 1, ..self }.preview_selected()
        } else {
            self
        }
    }

    /// One line down, in the pane that has the focus.
    pub open spec fn move_down(self) -> AppView {
        if self.focus == Focus::Content {
            AppView {
                content_scroll: if self.content_scroll < u16::MAX {
                    self.content_scroll + 1
                } else {
                    u16::MAX as int
                },
                ..self
            }
        } else if self.selected + 1 < self.entries.len() {
            AppView { selected: self.selected + 1, ..self }.preview_selected()
        } else {
            self
        }
    }

    /// The file that the selected line stands for: for a gist, its first file by name.
    pub open spec fn selected_file(self) -> Option<(Seq<char>, Seq<char>)> {
        match self.selected_entry() {
            None => None,
            Some(entry) => match entry.kind {
                EntryKindView::File { gist_id, filename } => Some((gist_id, filename)),
                EntryKindView::Gist { id, .. } => match gists::gist_with_id(self.gists, id) {
                    Some(gist) => if gist.sorted_names().len() == 0 {
                        None
                    } else {
                        Some((id, gist.sorted_names()[0]))
                    },
                    None => None,
                },
            },
        }
    }

    /// The file of the selected line is shown or asked for.
    pub open spec fn preview_selected(self) -> AppView {
        match self.selected_file() {
            Some((gist_id, filename)) => self.select_file(gist_id, filename),
            None => self,
        }
    }

    /// The gist that the selected line belongs to.
    pub open spec fn selected_gist_id(self) -> Option<Seq<char>> {
        match self.selected_entry() {
            None => None,
            Some(entry) => match entry.kind {
                EntryKindView::Gist { id, .. } => Some(id),
                EntryKindView::File { gist_id, .. } => Some(gist_id),
            },
        }
    }

    /// The file to edit: in the content pane the one that is shown, in the sidebar the one of
    /// the selected line.
    pub open spec fn resolve_edit_target(self) -> Option<(Seq<char>, Seq<char>)> {
        if self.focus == Focus::Content {
            match self.file_content {
                Some((gist_id, filename, _)) => Some((gist_id, filename)),
                None => None,
            }
        } else {
            self.selected_file()
        }
    }

    /// A selection behind the last line moves to the last line.
    pub open spec fn clamp_selection(self) -> AppView {
        if self.selected >= self.entries.len() && self.entries.len() > 0 {
            AppView { selected: self.entries.len() - 1, ..self }
        } else {
            self
        }
    }
}

} // verus!
