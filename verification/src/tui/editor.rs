//! Editing a file in the content pane, and making a gist with the text editor.
use crate::commands::create;
use crate::commands::create::{NewGist, NewGistView};
use crate::editing;
use crate::error::CliError;
use crate::gists;
use crate::gists::{Gist, GistView};
use crate::text;
use crate::tui::app::{App, EditSession};
use crate::tui::layout;
use crate::tui::layout::Area;
use crate::tui::model;
use crate::tui::model::{AppView, EditSessionView};
use vstd::prelude::*;

verus! {

/// How to start the text editor on a file.
#[derive(Debug)]
pub struct EditPlan {
    pub editor: String,
    pub gist_id: String,
    pub filename: String,
    /// The text to start with.
    pub content: String,
    /// The name of the file to write the text to.
    pub temp_file: String,
    pub rows: u16,
    pub cols: u16,
}

/// A text that is to replace that of a file.
#[derive(Debug)]
pub struct Save {
    pub gist_id: String,
    pub filename: String,
    pub content: String,
}

/// What a [`Save`] holds.
pub struct SaveView {
    pub gist_id: Seq<char>,
    pub filename: Seq<char>,
    pub content: Seq<char>,
}

impl View for Save {
    type V = SaveView;

    open spec fn view(&self) -> SaveView {
        SaveView { gist_id: self.gist_id@, filename: self.filename@, content: self.content@ }
    }
}

impl DeepView for Save {
    type V = SaveView;

    open spec fn deep_view(&self) -> SaveView {
        self@
    }
}

impl DeepView for NewGist {
    type V = NewGistView;

    open spec fn deep_view(&self) -> NewGistView {
        self@
    }
}

/// A step of starting the text editor in the content pane.
#[derive(Clone, Copy, Debug, PartialEq, Eq, Structural)]
pub enum PtyStep {
    Open,
    Spawn,
    Reader,
    Writer,
}

/// What failed, for a step that failed.
pub open spec fn step_context(step: PtyStep) -> Seq<char> {
    match step {
        PtyStep::Open => "failed to open pty: "@,
        PtyStep::Spawn => "failed to spawn editor: "@,
        PtyStep::Reader => "failed to get pty reader: "@,
        PtyStep::Writer => "failed to get pty writer: "@,
    }
}

/// The failure of a step, given what the system said.
pub fn pty_failed(step: PtyStep, detail: &str) -> (r: CliError)
    ensures
        r is Api,
        r.text() == step_context(step) + detail@,
        r.advice() is None,
{
    let context: &str = match step {
        PtyStep::Open => "failed to open pty: ",
        PtyStep::Spawn => "failed to spawn editor: ",
        PtyStep::Reader => "failed to get pty reader: ",
        PtyStep::Writer => "failed to get pty writer: ",
    };
    CliError::api(text::join(context, detail).as_str())
}

impl AppView {
    /// The known text of a file, or an empty one.
    pub open spec fn text_to_edit(self, gist_id: Seq<char>, filename: Seq<char>) -> Seq<char> {
        match gists::known_content(self.gists, gist_id, filename) {
            Some(content) => content,
            None => Seq::empty(),
        }
    }

    /// The text editor runs on a file.
    pub open spec fn edit_started(self, session: EditSessionView) -> AppView {
        AppView { editor: Some(session), ..self }
    }

    /// The text editor has ended with the text `content`.
    pub open spec fn edit_finished(self, content: Seq<char>) -> AppView {
        AppView {
            editor: None,
            status: if self.editor.unwrap().original_content == content {
                "No changes."@
            } else {
                "Saving..."@
            },
            ..self
        }
    }

    /// What to save after the text editor has ended with the text `content`: nothing if the text is
    /// as it was.
    pub open spec fn save_due(self, content: Seq<char>) -> Option<SaveView> {
        let session = self.editor.unwrap();
        if session.original_content == content {
            None
        } else {
            Some(SaveView { gist_id: session.gist_id, filename: session.filename, content })
        }
    }

    /// A text was saved, and the service answered with the gist `updated`.
    pub open spec fn edit_saved(self, save: SaveView, updated: GistView) -> AppView {
        AppView {
            status: "Saved."@,
            ..AppView {
                fetched_detail: self.fetched_detail.insert(save.gist_id),
                gists: model::replaced(self.gists, save.gist_id, updated),
                ..self
            }.show_content(save.gist_id, save.filename, save.content)
        }
    }

    /// The status says `status`.
    pub open spec fn with_status(self, status: Seq<char>) -> AppView {
        AppView { status, ..self }
    }

    /// A gist was made of the text `content`: it stands first among the gists, is open, and its text
    /// is shown.
    pub open spec fn gist_created(
        self,
        gist: GistView,
        html_url: Seq<char>,
        filename: Seq<char>,
        content: Seq<char>,
    ) -> AppView {
        AppView {
            status: "Created: "@ + html_url,
            ..AppView {
                selected: 0,
                ..AppView {
                    fetched_detail: self.fetched_detail.insert(gist.id),
                    gists: self.gists.insert(0, gist),
                    expanded: self.expanded.insert(gist.id),
                    ..self
                }.rebuild_entries()
            }.show_content(gist.id, filename, content)
        }
    }
}

impl EditPlan {
    /// Whether this is the plan to edit the file `filename` of the gist `gist_id` in `pane`.
    pub open spec fn edits(
        self,
        app: AppView,
        gist_id: Seq<char>,
        filename: Seq<char>,
        process: u32,
        pane: Area,
    ) -> bool {
        &&& self.gist_id@ == gist_id
        &&& self.filename@ == filename
        &&& self.content@ == app.text_to_edit(gist_id, filename)
        &&& self.rows == layout::at_least_one(layout::within_border(pane.height))
        &&& self.cols == layout::at_least_one(layout::within_border(pane.width))
        &&& editing::plain_name(filename) ==> self.temp_file@ == editing::edit_name(
            process,
            editing::kept_extension(editing::extension_in(editing::file_part(filename))),
        )
        &&& exists|extension: Seq<char>|
            !extension.contains('.') && self.temp_file@ == #[trigger] editing::edit_name(
                process,
                extension,
            )
    }
}

impl App {
    /// How to start the text editor in the content pane `pane`, given the environment variable that
    /// names the text editor and the number of this process. Without a file to edit there is no
    /// plan, and the status says so.
    pub fn plan_edit(&mut self, variable: Option<String>, process: u32, pane: Area) -> (r: Result<
        Option<EditPlan>,
        CliError,
    >)
        ensures
            match old(self)@.resolve_edit_target() {
                None => (r matches Ok(None)) && final(self)@ == old(self)@.with_status(
                    "No file selected to edit."@,
                ),
                Some((gist_id, filename)) => final(self)@ == old(self)@
                    && match editing::editor_in(variable.deep_view()) {
                    None => r matches Err(e) && e is Api && e.text() == "EDITOR is not set"@
                        && e.advice() is None,
                    Some(editor) => r matches Ok(Some(plan)) && plan.editor@ == editor
                        && plan.edits(old(self)@, gist_id, filename, process, pane),
                },
            },
    {
        let (gist_id, filename) = match self.resolve_edit_target() {
            Some(target) => target,
            None => {
                self.status = "No file selected to edit.".to_owned();
                return Ok(None);
            },
        };
        let editor: String = match editing::editor_command(variable) {
            Ok(editor) => editor,
            Err(e) => {
                return Err(e);
            },
        };
        let content: String = match gists::find_content(
            &self.gists,
            gist_id.as_str(),
            filename.as_str(),
        ) {
            Some(content) => content,
            None => String::new(),
        };
        let temp_file: String = editing::temp_file_name(process, filename.as_str());
        let (rows, cols) = layout::editor_size(pane);
        Ok(Some(EditPlan { editor, gist_id, filename, content, temp_file, rows, cols }))
    }

    /// Notes that the text editor was started.
    pub fn edit_started(&mut self, plan: EditPlan)
        ensures
            final(self)@ == old(self)@.edit_started(
                (EditSessionView {
                    filename: plan.filename@,
                    gist_id: plan.gist_id@,
                    original_content: plan.content@,
                }),
            ),
    {
        self.editor = Some(
            EditSession {
                filename: plan.filename,
                gist_id: plan.gist_id,
                original_content: plan.content,
            },
        );
    }

    /// Ends editing, with the text `content` in the edited file. What is to be saved is returned.
    pub fn finish_edit(&mut self, content: String) -> (r: Option<Save>)
        requires
            old(self).editor is Some,
        ensures
            r.deep_view() == old(self)@.save_due(content@),
            final(self)@ == old(self)@.edit_finished(content@),
    {
        match self.editor.take() {
            Some(session) => {
                if session.original_content == content {
                    self.status = "No changes.".to_owned();
                    None
                } else {
                    self.status = "Saving...".to_owned();
                    Some(Save { gist_id: session.gist_id, filename: session.filename, content })
                }
            },
            None => None,
        }
    }

    /// Takes the answer of the service to a text that was saved.
    pub fn edit_saved(&mut self, save: &Save, updated: Gist)
        ensures
            final(self)@ == old(self)@.edit_saved(save@, updated@),
    {
        self.fetched_detail.insert(save.gist_id.clone());
        if let Some(i) = gists::find_gist(&self.gists, save.gist_id.as_str()) {
            let ghost before = self@.gists;
            self.gists.set(i, updated);
            assert(self@.gists =~= before.update(i as int, updated@));
        }
        self.show_content(save.gist_id.as_str(), save.filename.as_str(), save.content.as_str());
        self.status = "Saved.".to_owned();
    }

    /// The name for the file of a new gist, given the line that the user typed. A blank line
    /// cancels.
    pub fn new_gist_filename(&mut self, line: &str) -> (r: Option<String>)
        ensures
            if text::trimmed(line@).len() == 0 {
                r is None && final(self)@ == old(self)@.with_status("Cancelled."@)
            } else {
                r matches Some(name) && name@ == text::trimmed(line@) && final(self)@ == old(self)@
            },
    {
        let name: String = text::trim(line);
        if name.as_str().is_empty() {
            self.status = "Cancelled.".to_owned();
            return None;
        }
        Some(name)
    }

    /// Whether to read what the text editor wrote for a new gist, given whether it succeeded.
    pub fn new_gist_editor_ended(&mut self, success: bool) -> (r: bool)
        ensures
            r == success,
            final(self)@ == if success {
                old(self)@
            } else {
                old(self)@.with_status("Editor exited without saving."@)
            },
    {
        if !success {
            self.status = "Editor exited without saving.".to_owned();
        }
        success
    }

    /// The gist to make of the text `content`: secret, and without a description. A text of white
    /// space alone makes none.
    pub fn new_gist(&mut self, filename: String, content: String) -> (r: Option<NewGist>)
        ensures
            r.deep_view() == if text::blank(content@) {
                None
            } else {
                Some(
                    NewGistView {
                        filename: filename@,
                        content: content@,
                        public: false,
                        description: Seq::empty(),
                    },
                )
            },
            r.deep_view() == create::gist_of(content@, Some(filename@), false),
            final(self)@ == old(self)@.with_status(
                if text::blank(content@) {
                    "Empty content, gist not created."@
                } else {
                    "Creating gist..."@
                },
            ),
    {
        if text::is_blank(content.as_str()) {
            self.status = "Empty content, gist not created.".to_owned();
            return None;
        }
        self.status = "Creating gist...".to_owned();
        Some(NewGist { filename, content, public: false, description: String::new() })
    }

    /// Takes a gist that was made of `new`: the gist as it was fetched, and the address that the
    /// service gave it when it was made.
    pub fn gist_created(&mut self, gist: Gist, html_url: &str, new: &NewGist)
        ensures
            final(self)@ == old(self)@.gist_created(
                gist@,
                html_url@,
                new@.filename,
                new@.content,
            ),
    {
        let id: String = gist.id.clone();
        let ghost before = self@.gists;
        self.fetched_detail.insert(id.clone());
        self.gists.insert(0, gist);
        assert(self@.gists =~= before.insert(0, gist@));
        self.expanded.insert(id.clone());
        self.rebuild_entries();
        self.selected = 0;
        self.show_content(id.as_str(), new.filename.as_str(), new.content.as_str());
        self.status = text::join("Created: ", html_url);
    }
}

} // verus!
