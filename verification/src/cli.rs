//! What the command line asks for.
use vstd::prelude::*;

verus! {

/// The commands that have a name.
#[derive(Debug)]
pub enum Command {
    List,
    Delete { url: String },
    Tui,
}

/// The command line.
#[derive(Debug)]
pub struct Cli {
    /// Whether failures are printed with their causes.
    pub verbose: bool,
    /// Whether a new gist is public.
    pub public: bool,
    /// The name of the file of a new gist.
    pub name: Option<String>,
    /// Whether the text of a new gist comes from the text editor.
    pub editor: bool,
    pub command: Option<Command>,
    /// The gist to show.
    pub url: Option<String>,
}

/// What is to be done.
#[derive(Debug)]
pub enum Task {
    List,
    Delete { url: String },
    Tui,
    Show { url: String },
    Create { name: Option<String>, public: bool, editor: bool },
}

/// What a [`Task`] holds.
pub enum TaskView {
    List,
    Delete { url: Seq<char> },
    Tui,
    Show { url: Seq<char> },
    Create { name: Option<Seq<char>>, public: bool, editor: bool },
}

impl View for Task {
    type V = TaskView;

    open spec fn view(&self) -> TaskView {
        match self {
            Task::List => TaskView::List,
            Task::Delete { url } => TaskView::Delete { url: url@ },
            Task::Tui => TaskView::Tui,
            Task::Show { url } => TaskView::Show { url: url@ },
            Task::Create { name, public, editor } => TaskView::Create {
                name: name.deep_view(),
                public: *public,
                editor: *editor,
            },
        }
    }
}

impl Cli {
    /// A command by name comes first, a gist to show second. Without either a gist is made.
    pub open spec fn asked(self) -> TaskView {
        match self.command {
            Some(Command::List) => TaskView::List,
            Some(Command::Delete { url }) => TaskView::Delete { url: url@ },
            Some(Command::Tui) => TaskView::Tui,
            None => match self.url {
                Some(url) => TaskView::Show { url: url@ },
                None => TaskView::Create {
                    name: self.name.deep_view(),
                    public: self.public,
                    editor: self.editor,
                },
            },
        }
    }

    /// What the command line asks for.
    pub fn task(self) -> (r: Task)
        ensures
            r@ == self.asked(),
            self.command is None && self.url is None ==> (r matches Task::Create {
                name,
                public,
                editor,
            } && name == self.name && public == self.public && editor == self.editor),
    {
        match self.command {
            Some(Command::List) => Task::List,
            Some(Command::Delete { url }) => Task::Delete { url },
            Some(Command::Tui) => Task::Tui,
            None => match self.url {
                Some(url) => Task::Show { url },
                None => Task::Create {
                    name: self.name,
                    public: self.public,
                    editor: self.editor,
                },
            },
        }
    }
}

/// Without a named command and without a URL a gist is made: public exactly if the flag was given,
/// from the text editor exactly if that flag was given, and under the given name.
pub proof fn law_gist_is_made_as_asked(line: Cli, task: Task)
    requires
        task@ == line.asked(),
        line.command is None,
        line.url is None,
    ensures
        task matches Task::Create { name, public, editor } && public == line.public && editor
            == line.editor && name.deep_view() == line.name.deep_view(),
{
}

/// A URL without a named command is shown, whatever the other flags are.
pub proof fn law_url_is_shown(line: Cli, task: Task, url: String)
    requires
        task@ == line.asked(),
        line.command is None,
        line.url == Some(url),
    ensures
        task matches Task::Show { url: shown } && shown@ == url@,
{
}

/// A named command is carried out, whatever else the command line holds.
pub proof fn law_named_command_is_carried_out(line: Cli, task: Task, command: Command)
    requires
        task@ == line.asked(),
        line.command == Some(command),
    ensures
        command is List <==> task is List,
        command is Tui <==> task is Tui,
        command matches Command::Delete { url } ==> (task matches Task::Delete { url: named } && named@
            == url@),
        !(task is Show) && !(task is Create),
{
}

} // verus!
