//! What the browser does on keys, on answers from the service, and on changes of the screen.
use crate::gists;
use crate::gists::{Gist, GistView};
use crate::text;
use crate::tui::app::App;
use crate::tui::keys;
use crate::tui::keys::{KeyCode, KeyEvent, KeyKind, Modifiers};
use crate::tui::layout;
use crate::tui::layout::Area;
use crate::tui::model::{AppView, Focus};
use vstd::prelude::*;

verus! {

/// How many columns the content pane moves at a time.
pub const COLUMN_STEP: u16 = 32;

/// What a request in the background came back with.
#[derive(Debug)]
pub enum BgMessage {
    /// The gists of the user. Texts may be cut or missing.
    GistList(Vec<Gist>),
    /// One gist with its texts.
    GistDetail(Gist),
    /// Why the list of gists could not be had.
    Error(String),
    /// Why the gist with this identifier could not be had.
    DetailError { gist_id: String, error: String },
}

/// What a [`BgMessage`] holds.
pub enum BgMessageView {
    GistList(Seq<GistView>),
    GistDetail(GistView),
    Error(Seq<char>),
    DetailError { gist_id: Seq<char>, error: Seq<char> },
}

impl View for BgMessage {
    type V = BgMessageView;

    open spec fn view(&self) -> BgMessageView {
        match self {
            BgMessage::GistList(gists) => BgMessageView::GistList(gists::gist_views(gists@)),
            BgMessage::GistDetail(gist) => BgMessageView::GistDetail(gist@),
            BgMessage::Error(e) => BgMessageView::Error(e@),
            BgMessage::DetailError { gist_id, error } => BgMessageView::DetailError {
                gist_id: gist_id@,
                error: error@,
            },
        }
    }
}

/// What is to be done after a key.
#[derive(Debug)]
pub enum Action {
    /// Nothing but to show the new state.
    Nothing,
    /// End the browser.
    Quit,
    /// Hand these bytes to the text editor.
    Forward(Vec<u8>),
    /// Delete the gist with this identifier, then call [`App::gist_deleted`].
    Delete(String),
    /// Open this address.
    Open(String),
    /// Start the text editor on a file: see [`App::plan_edit`].
    Edit,
    /// Make a new gist: see [`App::new_gist_filename`].
    Create,
    /// Fetch the list of gists.
    Refresh,
}

/// What an [`Action`] holds.
pub enum ActionView {
    Nothing,
    Quit,
    Forward(Seq<u8>),
    Delete(Seq<char>),
    Open(Seq<char>),
    Edit,
    Create,
    Refresh,
}

impl View for Action {
    type V = ActionView;

    open spec fn view(&self) -> ActionView {
        match self {
            Action::Nothing => ActionView::Nothing,
            Action::Quit => ActionView::Quit,
            Action::Forward(bytes) => ActionView::Forward(bytes@),
            Action::Delete(id) => ActionView::Delete(id@),
            Action::Open(url) => ActionView::Open(url@),
            Action::Edit => ActionView::Edit,
            Action::Create => ActionView::Create,
            Action::Refresh => ActionView::Refresh,
        }
    }
}

/// The gists that do not have the identifier `id`, in their order.
pub open spec fn others(gists: Seq<GistView>, id: Seq<char>) -> Seq<GistView> {
    gists.filter(|g: GistView| g.id != id)
}

impl AppView {
    /// An answer has arrived from the service.
    pub open spec fn on_message(self, message: BgMessageView) -> AppView {
        match message {
            BgMessageView::GistList(gists) => self.set_gists(gists),
            BgMessageView::GistDetail(gist) => self.apply_gist_detail(gist),
            BgMessageView::Error(e) => self.request_failed(e),
            BgMessageView::DetailError { gist_id, error } => AppView {
                fetching: self.fetching.remove(gist_id),
                ..self.request_failed(error)
            },
        }
    }

    /// A request has failed: the status says why, and no file is waited for any more.
    pub open spec fn request_failed(self, error: Seq<char>) -> AppView {
        AppView { loading: false, pending_file: None, status: "Error: "@ + error, ..self }
    }

    /// The gist to fetch: that of the awaited file, unless it was asked for and has not come yet.
    pub open spec fn fetch_due(self) -> Option<Seq<char>> {
        match self.pending_file {
            Some((gist_id, _)) => if self.fetching.contains(gist_id) {
                None
            } else {
                Some(gist_id)
            },
            None => None,
        }
    }

    /// The gist to fetch is noted as asked for.
    pub open spec fn note_fetch(self) -> AppView {
        match self.fetch_due() {
            Some(id) => AppView { fetching: self.fetching.insert(id), ..self },
            None => self,
        }
    }

    /// The other pane takes the focus.
    pub open spec fn switch_pane(self) -> AppView {
        AppView {
            focus: if self.focus == Focus::Sidebar {
                Focus::Content
            } else {
                Focus::Sidebar
            },
            ..self
        }
    }

    /// The content moves to the left: later columns come into view.
    pub open spec fn scroll_right(self) -> AppView {
        AppView {
            content_hscroll: if self.content_hscroll + COLUMN_STEP <= u16::MAX {
                self.content_hscroll + COLUMN_STEP
            } else {
                u16::MAX as int
            },
            ..self
        }
    }

    /// The content moves to the right: earlier columns come into view.
    pub open spec fn scroll_left(self) -> AppView {
        AppView {
            content_hscroll: if self.content_hscroll >= COLUMN_STEP {
                self.content_hscroll - COLUMN_STEP
            } else {
                0
            },
            ..self
        }
    }

    /// The address of the selected gist.
    pub open spec fn selected_url(self) -> Option<Seq<char>> {
        match self.selected_gist_id() {
            Some(id) => match gists::gist_with_id(self.gists, id) {
                Some(gist) => Some(gist.html_url),
                None => None,
            },
            None => None,
        }
    }

    /// The user is asked whether to delete the selected gist.
    pub open spec fn ask_delete(self) -> AppView {
        match self.selected_gist_id() {
            Some(id) => AppView {
                confirm_delete: Some(id),
                status: "Delete this gist? (y/n)"@,
                ..self
            },
            None => self,
        }
    }

    /// What was fetched or asked for is forgotten, since all is fetched anew.
    pub open spec fn refresh(self) -> AppView {
        AppView {
            loading: true,
            status: Seq::empty(),
            fetched_detail: Set::empty(),
            fetching: Set::empty(),
            file_content: None,
            pending_file: None,
            ..self
        }
    }

    /// A key while the user is asked whether to delete the gist `id`: only `y` deletes it, and the
    /// question is over.
    pub open spec fn answer(self, code: KeyCode, id: Seq<char>) -> (AppView, ActionView) {
        if code == KeyCode::Char('y') {
            (
                AppView { confirm_delete: None, status: "Deleting..."@, ..self },
                ActionView::Delete(id),
            )
        } else {
            (AppView { confirm_delete: None, status: Seq::empty(), ..self }, ActionView::Nothing)
        }
    }

    /// The keys `h` and `l`: with control they choose the pane; alone they move the content, or
    /// close and open gists.
    pub open spec fn sideways(self, right: bool, modifiers: Modifiers) -> AppView {
        if modifiers == Modifiers::none() {
            match (self.focus, right) {
                (Focus::Content, true) => self.scroll_right(),
                (Focus::Content, false) => self.scroll_left(),
                (Focus::Sidebar, true) => self.toggle_expand(),
                (Focus::Sidebar, false) => self.collapse_or_back(),
            }
        } else if modifiers == Modifiers::control_only() {
            AppView {
                focus: if right {
                    Focus::Content
                } else {
                    Focus::Sidebar
                },
                ..self
            }
        } else {
            self
        }
    }

    /// A key that is a command.
    pub open spec fn command(self, code: KeyCode, modifiers: Modifiers) -> (AppView, ActionView) {
        match code {
            KeyCode::Char('q') => (self, ActionView::Quit),
            KeyCode::Char('j') => (self.move_down(), ActionView::Nothing),
            KeyCode::Down => (self.move_down(), ActionView::Nothing),
            KeyCode::Char('k') => (self.move_up(), ActionView::Nothing),
            KeyCode::Up => (self.move_up(), ActionView::Nothing),
            KeyCode::Char('l') => (self.sideways(true, modifiers), ActionView::Nothing),
            KeyCode::Char('h') => (self.sideways(false, modifiers), ActionView::Nothing),
            KeyCode::Enter => (self.toggle_expand(), ActionView::Nothing),
            KeyCode::Right => (self.toggle_expand(), ActionView::Nothing),
            KeyCode::Left => (self.collapse_or_back(), ActionView::Nothing),
            KeyCode::Esc => (self.collapse_or_back(), ActionView::Nothing),
            KeyCode::Tab => (self.switch_pane(), ActionView::Nothing),
            KeyCode::BackTab => (self.switch_pane(), ActionView::Nothing),
            KeyCode::Char('o') => (
                self,
                match self.selected_url() {
                    Some(url) => ActionView::Open(url),
                    None => ActionView::Nothing,
                },
            ),
            KeyCode::Char('e') => (self, ActionView::Edit),
            KeyCode::Char('n') => (self, ActionView::Create),
            KeyCode::Char('d') => (self.ask_delete(), ActionView::Nothing),
            KeyCode::Char('r') => (self.refresh(), ActionView::Refresh),
            _ => (self, ActionView::Nothing),
        }
    }

    /// A key event. Only keys that go down count. While a file is edited they all go to the text
    /// editor, and while a question is open they answer it.
    pub open spec fn handle_key(self, key: KeyEvent) -> (AppView, ActionView) {
        if key.kind != KeyKind::Press {
            (self, ActionView::Nothing)
        } else if self.editor is Some {
            let bytes = keys::key_bytes(key.code, key.modifiers);
            (
                self,
                if bytes.len() > 0 {
                    ActionView::Forward(bytes)
                } else {
                    ActionView::Nothing
                },
            )
        } else {
            match self.confirm_delete {
                Some(id) => self.answer(key.code, id),
                None => self.command(key.code, key.modifiers),
            }
        }
    }

    /// The gist `id` was deleted.
    pub open spec fn gist_deleted(self, id: Seq<char>) -> AppView {
        AppView {
            status: "Gist deleted."@,
            ..AppView {
                gists: others(self.gists, id),
                fetched_detail: self.fetched_detail.remove(id),
                fetching: self.fetching.remove(id),
                file_content: None,
                ..self
            }.rebuild_entries().clamp_selection()
        }
    }
}

impl App {
    /// Takes an answer from the service.
    pub fn on_message(&mut self, message: BgMessage)
        ensures
            final(self)@ == old(self)@.on_message(message@),
    {
        match message {
            BgMessage::GistList(gists) => self.set_gists(gists),
            BgMessage::GistDetail(gist) => self.apply_gist_detail(gist),
            BgMessage::Error(e) => self.request_failed(e.as_str()),
            BgMessage::DetailError { gist_id, error } => {
                self.fetching.remove(gist_id.as_str());
                self.request_failed(error.as_str());
            },
        }
    }

    /// Reports a request that failed.
    fn request_failed(&mut self, error: &str)
        ensures
            final(self)@ == old(self)@.request_failed(error@),
    {
        self.loading = false;
        self.pending_file = None;
        self.status = text::join("Error: ", error);
    }

    /// The gist to fetch now, which is noted as asked for.
    pub fn next_fetch(&mut self) -> (r: Option<String>)
        ensures
            r.deep_view() == old(self)@.fetch_due(),
            final(self)@ == old(self)@.note_fetch(),
    {
        let id: String = match &self.pending_file {
            Some((gist_id, _)) => gist_id.clone(),
            None => {
                return None;
            },
        };
        if self.fetching.contains(id.as_str()) {
            return None;
        }
        self.fetching.insert(id.clone());
        Some(id)
    }

    /// The keys `h` and `l`.
    fn sideways(&mut self, right: bool, modifiers: &Modifiers)
        ensures
            final(self)@ == old(self)@.sideways(right, *modifiers),
    {
        if modifiers.is_none() {
            if self.focus == Focus::Content {
                if right {
                    self.content_hscroll = self.content_hscroll.saturating_add(COLUMN_STEP);
                } else {
                    self.content_hscroll = self.content_hscroll.saturating_sub(COLUMN_STEP);
                }
            } else if right {
                self.toggle_expand();
            } else {
                self.collapse_or_back();
            }
        } else if modifiers.is_control_only() {
            self.focus = if right {
                Focus::Content
            } else {
                Focus::Sidebar
            };
        }
    }

    /// A key that is a command.
    fn command(&mut self, code: KeyCode, modifiers: &Modifiers) -> (r: Action)
        ensures
            (final(self)@, r@) == old(self)@.command(code, *modifiers),
    {
        match code {
            KeyCode::Char('q') => {
                return Action::Quit;
            },
            KeyCode::Char('j') | KeyCode::Down => self.move_down(),
            KeyCode::Char('k') | KeyCode::Up => self.move_up(),
            KeyCode::Char('l') => self.sideways(true, modifiers),
            KeyCode::Char('h') => self.sideways(false, modifiers),
            KeyCode::Enter | KeyCode::Right => self.toggle_expand(),
            KeyCode::Left | KeyCode::Esc => self.collapse_or_back(),
            KeyCode::Tab | KeyCode::BackTab => {
                self.focus = if self.focus == Focus::Sidebar {
                    Focus::Content
                } else {
                    Focus::Sidebar
                };
            },
            KeyCode::Char('o') => {
                if let Some(id) = self.selected_gist_id() {
                    if let Some(i) = gists::find_gist(&self.gists, id.as_str()) {
                        assert(self@.gists[i as int] == self.gists@[i as int]@);
                        return Action::Open(self.gists[i].html_url.clone());
                    }
                }
            },
            KeyCode::Char('e') => {
                return Action::Edit;
            },
            KeyCode::Char('n') => {
                return Action::Create;
            },
            KeyCode::Char('d') => {
                if let Some(id) = self.selected_gist_id() {
                    self.confirm_delete = Some(id);
                    self.status = "Delete this gist? (y/n)".to_owned();
                }
            },
            KeyCode::Char('r') => {
                self.loading = true;
                self.status = String::new();
                self.fetched_detail.clear();
                self.fetching.clear();
                self.file_content = None;
                self.pending_file = None;
                return Action::Refresh;
            },
            _ => {},
        }
        Action::Nothing
    }

    /// Takes a key event.
    pub fn handle_key(&mut self, key: &KeyEvent) -> (r: Action)
        ensures
            (final(self)@, r@) == old(self)@.handle_key(*key),
    {
        if key.kind != KeyKind::Press {
            return Action::Nothing;
        }
        if self.editor.is_some() {
            let bytes: Vec<u8> = keys::key_event_to_bytes(key);
            return if bytes.len() > 0 {
                Action::Forward(bytes)
            } else {
                Action::Nothing
            };
        }
        match self.confirm_delete.take() {
            Some(id) => {
                if key.code == KeyCode::Char('y') {
                    self.status = "Deleting...".to_owned();
                    Action::Delete(id)
                } else {
                    self.status = String::new();
                    Action::Nothing
                }
            },
            None => self.command(key.code, &key.modifiers),
        }
    }

    /// Removes a gist that was deleted.
    pub fn gist_deleted(&mut self, id: &str)
        ensures
            final(self)@ == old(self)@.gist_deleted(id@),
    {
        let ghost all = self@.gists;
        let ghost kept = |g: GistView| g.id != id@;
        let mut i: usize = 0;
        assert(self@.gists =~= all.take(0).filter(kept) + all);
        assert(all.skip(0) =~= all);
        let ghost mut seen: int = 0;
        while i < self.gists.len()
            invariant
                0 <= seen <= all.len(),
                i == all.take(seen).filter(kept).len(),
                kept == (|g: GistView| g.id != id@),
                gists::gist_views(self.gists@) == all.take(seen).filter(kept) + all.skip(seen),
                self@ == (AppView { gists: gists::gist_views(self.gists@), ..old(self)@ }),
            decreases self.gists@.len() - i,
        {
            let ghost done = all.take(seen).filter(kept);
            let ghost views = self@.gists;
            proof {
                assert(views[i as int] == self.gists@[i as int]@);
                assert(all.skip(seen).len() > 0);
                assert(views[i as int] == all.skip(seen)[0]);
                assert(all.skip(seen)[0] == all[seen]);
                assert(all.take(seen + 1).drop_last() =~= all.take(seen));
                assert(all.take(seen + 1).last() == all[seen]);
                reveal(Seq::filter);
                assert(all.skip(seen + 1) =~= all.skip(seen).drop_first());
            }
            if text::str_eq(self.gists[i].id.as_str(), id) {
                self.gists.remove(i);
                proof {
                    assert(self@.gists =~= views.remove(i as int));
                    assert(self@.gists =~= done + all.skip(seen + 1));
                }
            } else {
                proof {
                    assert(views =~= done.push(all[seen]) + all.skip(seen + 1));
                }
                i = i + 1;
            }
            proof {
                seen = seen + 1;
            }
        }
        assert(all.skip(seen).len() == 0);
        assert(seen == all.len());
        assert(all.take(seen) =~= all);
        assert(self@.gists =~= others(all, id@));
        self.fetched_detail.remove(id);
        self.fetching.remove(id);
        self.file_content = None;
        self.rebuild_entries();
        self.clamp_selection();
        self.status = "Gist deleted.".to_owned();
    }

    /// The rows and the columns that the text editor is to have now that the screen has changed.
    pub fn resized(&self, screen: Area) -> (r: Option<(u16, u16)>)
        requires
            screen.well_formed(),
        ensures
            r == if self@.editor is Some {
                let content = layout::panes_of(screen).content;
                Some(
                    (
                        layout::at_least_one(layout::within_border(content.height)),
                        layout::at_least_one(layout::within_border(content.width)),
                    ),
                )
            } else {
                None
            },
    {
        if self.editor.is_some() {
            let (rows, cols) = layout::content_pane_size(screen);
            Some((layout::positive(rows), layout::positive(cols)))
        } else {
            None
        }
    }
}

} // verus!
