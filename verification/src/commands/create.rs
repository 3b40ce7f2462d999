//! Making a gist from standard input or from a text editor.
use crate::editing;
use crate::error;
use crate::error::CliError;
use crate::output;
use crate::output::{Segment, SegmentView, Tone};
use crate::text;
use vstd::prelude::*;

verus! {

/// What is shown while the gist is made.
pub const PROGRESS: &'static str = "Creating gist...";

/// A gist with one file that is to be made.
#[derive(Debug)]
pub struct NewGist {
    pub filename: String,
    pub content: String,
    pub public: bool,
    pub description: String,
}

/// What a [`NewGist`] holds.
pub struct NewGistView {
    pub filename: Seq<char>,
    pub content: Seq<char>,
    pub public: bool,
    pub description: Seq<char>,
}

impl View for NewGist {
    type V = NewGistView;

    open spec fn view(&self) -> NewGistView {
        NewGistView {
            filename: self.filename@,
            content: self.content@,
            public: self.public,
            description: self.description@,
        }
    }
}

/// The gist to make of a text, under a name if one was given: none of a text of white space alone.
pub open spec fn gist_of(
    content: Seq<char>,
    name: Option<Seq<char>>,
    public: bool,
) -> Option<NewGistView> {
    if text::blank(content) {
        None
    } else {
        Some(
            NewGistView {
                filename: match name {
                    Some(name) => name,
                    None => "gistfile1.txt"@,
                },
                content,
                public,
                description: Seq::empty(),
            },
        )
    }
}

/// The gist to make of the text `content`, under the name `name` if one was given. There is no
/// description. A text of white space alone is refused.
pub fn execute(content: String, name: Option<String>, public: bool) -> (r: Result<NewGist, CliError>)
    ensures
        match r {
            Ok(gist) => !text::blank(content@) && gist@ == (NewGistView {
                filename: match name.deep_view() {
                    Some(name) => name,
                    None => "gistfile1.txt"@,
                },
                content: content@,
                public,
                description: Seq::empty(),
            }),
            Err(e) => text::blank(content@) && e is Api && e.text() == "no content provided"@
                && e.advice() is None,
        },
        match r {
            Ok(gist) => gist_of(content@, name.deep_view(), public) == Some(gist@),
            Err(_) => gist_of(content@, name.deep_view(), public) is None,
        },
{
    if text::is_blank(content.as_str()) {
        return Err(CliError::api("no content provided"));
    }
    let filename: String = match name {
        Some(name) => name,
        None => "gistfile1.txt".to_owned(),
    };
    Ok(NewGist { filename, content, public, description: String::new() })
}

/// What is printed before the text is typed in at a terminal.
pub open spec fn prompt_line() -> Seq<SegmentView> {
    seq![output::piece(Tone::Dimmed, "Enter content, then press Ctrl-D to save:"@)]
}

/// What to print before standard input is read: nothing unless it is a terminal.
pub fn stdin_prompt(terminal: bool) -> (r: Option<Vec<Segment>>)
    ensures
        r.deep_view() == if terminal {
            Some(prompt_line())
        } else {
            None
        },
{
    if terminal {
        let line: Vec<Segment> = vec![
            output::segment(Tone::Dimmed, "Enter content, then press Ctrl-D to save:"),
        ];
        assert(line.deep_view() =~= prompt_line());
        Some(line)
    } else {
        None
    }
}

/// The name of the file that the text editor is started on.
pub fn temp_file_name(process: u32) -> (r: String)
    ensures
        r@ == "gist-"@ + text::decimal(process as nat) + ".txt"@,
{
    text::join3("gist-", text::to_decimal(process).as_str(), ".txt")
}

/// The text editor and the name of the file to start it on.
pub fn read_from_editor(variable: Option<String>, process: u32) -> (r: Result<
    (String, String),
    CliError,
>)
    ensures
        match r {
            Ok((editor, file)) => editing::editor_in(variable.deep_view()) == Some(editor@) && file@
                == "gist-"@ + text::decimal(process as nat) + ".txt"@,
            Err(e) => editing::editor_in(variable.deep_view()) is None && e is Api && e.text()
                == "EDITOR is not set"@ && e.advice() is None,
        },
{
    match editing::editor_command(variable) {
        Ok(editor) => Ok((editor, temp_file_name(process))),
        Err(e) => Err(e),
    }
}

/// Judges how the text editor ended.
pub fn editor_finished(success: bool) -> (r: Result<(), CliError>)
    ensures
        match r {
            Ok(_) => success,
            Err(e) => !success && e is Api && e.text() == "editor exited with non-zero status"@
                && e.advice() is None,
        },
{
    if success {
        Ok(())
    } else {
        Err(CliError::api("editor exited with non-zero status"))
    }
}

/// The line to print for a gist that was made, given where it can be seen.
pub fn report(html_url: &str) -> (r: Vec<Segment>)
    ensures
        r.deep_view() == error::success_line(html_url@),
{
    error::print_success(html_url)
}

/// A text that is not blank makes a gist that holds it character for character, under the given name,
/// and that is public exactly if that was asked for. Nothing else decides whether there is a gist.
pub proof fn law_gist_is_as_asked(content: Seq<char>, name: Seq<char>, public: bool)
    ensures
        text::blank(content) <==> gist_of(content, Some(name), public) is None,
        text::blank(content) <==> gist_of(content, None, public) is None,
        gist_of(content, Some(name), public) matches Some(gist) ==> gist.filename == name
            && gist.content == content && gist.public == public && gist.description.len() == 0,
        gist_of(content, None, public) matches Some(gist) ==> gist.filename == "gistfile1.txt"@
            && gist.content == content && gist.public == public && gist.description.len() == 0,
        text::trimmed(content).len() == 0 <==> gist_of(content, None, public) is None,
{
    text::law_trimmed_empty(content);
}

} // verus!
