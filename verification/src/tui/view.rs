//! What the panes show.
use crate::text;
use crate::tui::app::{App, Entry, EntryKind};
use crate::tui::model::{AppView, EntryKindView, Focus};
use vstd::prelude::*;

verus! {

/// A colour of the terminal.
#[derive(Clone, Copy, Debug, PartialEq, Eq, Structural)]
pub enum Colour {
    Blue,
    Cyan,
    DarkGray,
    Green,
    White,
    Yellow,
}

/// How a text looks.
#[derive(Clone, Copy, Debug, PartialEq, Eq, Structural)]
pub struct Look {
    pub colour: Colour,
    pub bold: bool,
}

/// A pane: its title, the colour of its border, and what is inside.
#[derive(Debug)]
pub struct Pane<B> {
    pub title: String,
    pub border: Colour,
    pub body: B,
}

/// A line of the list in the sidebar.
#[derive(Debug)]
pub struct Item {
    pub indent: String,
    pub label: String,
    pub look: Look,
}

/// What is inside the sidebar.
#[derive(Debug)]
pub enum SidebarBody {
    /// A text in dark gray.
    Message(String),
    /// A list. The line at `selected` stands on dark gray.
    Items { items: Vec<Item>, selected: usize },
}

/// What is inside the content pane.
#[derive(Debug)]
pub enum ContentBody {
    /// The screen of the text editor.
    Editor,
    /// A text in dark gray.
    Message(String),
    /// The coloured lines, without the first `rows` lines and the first `cols` columns.
    Lines { rows: u16, cols: u16 },
}

/// A text in one look.
#[derive(Debug)]
pub struct Label {
    pub text: String,
    pub look: Look,
}

/// What a [`Pane`] holds.
pub struct PaneView<B> {
    pub title: Seq<char>,
    pub border: Colour,
    pub body: B,
}

/// What an [`Item`] holds.
pub struct ItemView {
    pub indent: Seq<char>,
    pub label: Seq<char>,
    pub look: Look,
}

/// What a [`SidebarBody`] holds.
pub enum SidebarBodyView {
    Message(Seq<char>),
    Items { items: Seq<ItemView>, selected: int },
}

/// What a [`ContentBody`] holds.
pub enum ContentBodyView {
    Editor,
    Message(Seq<char>),
    Lines { rows: int, cols: int },
}

/// What a [`Label`] holds.
pub struct LabelView {
    pub text: Seq<char>,
    pub look: Look,
}

impl View for Item {
    type V = ItemView;

    open spec fn view(&self) -> ItemView {
        ItemView { indent: self.indent@, label: self.label@, look: self.look }
    }
}

impl View for SidebarBody {
    type V = SidebarBodyView;

    open spec fn view(&self) -> SidebarBodyView {
        match self {
            SidebarBody::Message(text) => SidebarBodyView::Message(text@),
            SidebarBody::Items { items, selected } => SidebarBodyView::Items {
                items: items@.map_values(|item: Item| item@),
                selected: *selected as int,
            },
        }
    }
}

impl View for ContentBody {
    type V = ContentBodyView;

    open spec fn view(&self) -> ContentBodyView {
        match self {
            ContentBody::Editor => ContentBodyView::Editor,
            ContentBody::Message(text) => ContentBodyView::Message(text@),
            ContentBody::Lines { rows, cols } => ContentBodyView::Lines {
                rows: *rows as int,
                cols: *cols as int,
            },
        }
    }
}

impl<B: View> View for Pane<B> {
    type V = PaneView<B::V>;

    open spec fn view(&self) -> PaneView<B::V> {
        PaneView { title: self.title@, border: self.border, body: self.body@ }
    }
}

impl View for Label {
    type V = LabelView;

    open spec fn view(&self) -> LabelView {
        LabelView { text: self.text@, look: self.look }
    }
}

/// A colour without bold.
pub open spec fn plain(colour: Colour) -> Look {
    Look { colour, bold: false }
}

/// A colour in bold.
pub open spec fn bold(colour: Colour) -> Look {
    Look { colour, bold: true }
}

/// `n` spaces.
pub open spec fn spaces(n: nat) -> Seq<char> {
    Seq::new(n, |i: int| ' ')
}

/// The colour of the border of a pane.
pub open spec fn border_of(focused: bool) -> Colour {
    if focused {
        Colour::Blue
    } else {
        Colour::DarkGray
    }
}

/// The look of a line of the list.
pub open spec fn item_look(kind: EntryKindView, marked: bool) -> Look {
    if marked {
        bold(Colour::White)
    } else {
        match kind {
            EntryKindView::Gist { .. } => plain(Colour::Cyan),
            EntryKindView::File { .. } => plain(Colour::White),
        }
    }
}

impl AppView {
    /// The list line `i` of the sidebar. The selected one is marked while the sidebar has the
    /// focus.
    pub open spec fn item(self, i: int) -> ItemView {
        let entry = self.entries[i];
        ItemView {
            indent: spaces(entry.indent as nat),
            label: entry.label,
            look: item_look(entry.kind, i == self.selected && self.focus == Focus::Sidebar),
        }
    }

    /// What the sidebar shows.
    pub open spec fn render_sidebar(self) -> PaneView<SidebarBodyView> {
        PaneView {
            title: if self.loading {
                " Gists (loading...) "@
            } else {
                " Gists "@
            },
            border: border_of(self.focus == Focus::Sidebar),
            body: if self.entries.len() == 0 {
                SidebarBodyView::Message(
                    if self.loading {
                        "Loading..."@
                    } else {
                        "No gists found. Press 'n' to create one."@
                    },
                )
            } else {
                SidebarBodyView::Items {
                    items: Seq::new(self.entries.len(), |i: int| self.item(i)),
                    selected: self.selected,
                }
            },
        }
    }

    /// What the content pane shows: the text editor while a file is edited, otherwise the text of a
    /// file, and a message where there is none.
    pub open spec fn render_content(self) -> PaneView<ContentBodyView> {
        let border = border_of(self.focus == Focus::Content);
        match (self.editor, self.file_content, self.pending_file) {
            (Some(session), _, _) => PaneView {
                title: " "@ + session.filename + " (editing) "@,
                border: Colour::Yellow,
                body: ContentBodyView::Editor,
            },
            (None, Some((_, filename, _)), _) => PaneView {
                title: " "@ + filename + " "@,
                border,
                body: ContentBodyView::Lines {
                    rows: self.content_scroll,
                    cols: self.content_hscroll,
                },
            },
            (None, None, Some((_, filename))) => PaneView {
                title: " "@ + filename + " (loading...) "@,
                border,
                body: ContentBodyView::Message("Loading..."@),
            },
            (None, None, None) => PaneView {
                title: " Content "@,
                border,
                body: ContentBodyView::Message("Select a file to view its content."@),
            },
        }
    }

    /// What the status line shows: that a file is edited, or the status, or else the keys.
    pub open spec fn render_status(self) -> LabelView {
        LabelView {
            text: if self.editor is Some {
                " editing — save & quit from your editor to return"@
            } else if self.status.len() > 0 {
                self.status
            } else {
                " j/k: navigate  h/l: collapse/expand  tab: switch pane  o: open  n: new  e: edit  d: delete  r: refresh  q: quit"@
            },
            look: if self.editor is Some || self.confirm_delete is Some {
                bold(Colour::Yellow)
            } else if self.status.len() > 0 {
                plain(Colour::Green)
            } else {
                plain(Colour::DarkGray)
            },
        }
    }
}

/// The colour of the border of a pane.
fn border(focused: bool) -> (r: Colour)
    ensures
        r == border_of(focused),
{
    if focused {
        Colour::Blue
    } else {
        Colour::DarkGray
    }
}

/// `n` spaces.
fn indentation(n: u16) -> (r: String)
    ensures
        r@ == spaces(n as nat),
{
    let mut r: String = String::new();
    assert(r@ =~= spaces(0));
    for i in 0..n
        invariant
            r@ == spaces(i as nat),
    {
        r.append(" ");
        proof {
            reveal_strlit(" ");
            assert(r@ =~= spaces((i + 1) as nat));
        }
    }
    r
}

impl App {
    /// The list line `i` of the sidebar.
    fn item(&self, i: usize) -> (r: Item)
        requires
            i < self.entries@.len(),
        ensures
            r@ == self@.item(i as int),
    {
        let entry: &Entry = &self.entries[i];
        assert(self@.entries[i as int] == entry@);
        let look: Look = if i == self.selected && self.focus == Focus::Sidebar {
            Look { colour: Colour::White, bold: true }
        } else {
            match &entry.kind {
                EntryKind::Gist { .. } => Look { colour: Colour::Cyan, bold: false },
                EntryKind::File { .. } => Look { colour: Colour::White, bold: false },
            }
        };
        Item { indent: indentation(entry.indent), label: entry.label.clone(), look }
    }

    /// What the sidebar shows.
    pub fn render_sidebar(&self) -> (r: Pane<SidebarBody>)
        ensures
            r@ == self@.render_sidebar(),
    {
        let title: &str = if self.loading {
            " Gists (loading...) "
        } else {
            " Gists "
        };
        let border: Colour = border(self.focus == Focus::Sidebar);
        if self.entries.len() == 0 {
            let message: &str = if self.loading {
                "Loading..."
            } else {
                "No gists found. Press 'n' to create one."
            };
            return Pane {
                title: title.to_owned(),
                border,
                body: SidebarBody::Message(message.to_owned()),
            };
        }
        let mut items: Vec<Item> = Vec::new();
        let n: usize = self.entries.len();
        for i in 0..n
            invariant
                n == self.entries@.len(),
                items@.len() == i,
                forall|j: int| 0 <= j < i ==> (#[trigger] items@[j])@ == self@.item(j),
        {
            items.push(self.item(i));
        }
        assert(items@.map_values(|item: Item| item@) =~= Seq::new(
            self@.entries.len(),
            |i: int| self@.item(i),
        ));
        Pane {
            title: title.to_owned(),
            border,
            body: SidebarBody::Items { items, selected: self.selected },
        }
    }

    /// What the content pane shows.
    pub fn render_content(&self) -> (r: Pane<ContentBody>)
        ensures
            r@ == self@.render_content(),
    {
        if let Some(session) = &self.editor {
            return Pane {
                title: text::join3(" ", session.filename.as_str(), " (editing) "),
                border: Colour::Yellow,
                body: ContentBody::Editor,
            };
        }
        let border: Colour = border(self.focus == Focus::Content);
        match (&self.file_content, &self.pending_file) {
            (Some((_, filename, _)), _) => Pane {
                title: text::join3(" ", filename.as_str(), " "),
                border,
                body: ContentBody::Lines { rows: self.content_scroll, cols: self.content_hscroll },
            },
            (None, Some((_, filename))) => Pane {
                title: text::join3(" ", filename.as_str(), " (loading...) "),
                border,
                body: ContentBody::Message("Loading...".to_owned()),
            },
            (None, None) => Pane {
                title: " Content ".to_owned(),
                border,
                body: ContentBody::Message("Select a file to view its content.".to_owned()),
            },
        }
    }

    /// What the status line shows.
    pub fn render_status(&self) -> (r: Label)
        ensures
            r@ == self@.render_status(),
    {
        let status: bool = !self.status.as_str().is_empty();
        let text: String = if self.editor.is_some() {
            " editing — save & quit from your editor to return".to_owned()
        } else if status {
            self.status.clone()
        } else {
            " j/k: navigate  h/l: collapse/expand  tab: switch pane  o: open  n: new  e: edit  d: delete  r: refresh  q: quit".to_owned()
        };
        let look: Look = if self.editor.is_some() || self.confirm_delete.is_some() {
            Look { colour: Colour::Yellow, bold: true }
        } else if status {
            Look { colour: Colour::Green, bold: false }
        } else {
            Look { colour: Colour::DarkGray, bold: false }
        };
        Label { text, look }
    }
}

} // verus!
