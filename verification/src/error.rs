//! Failures, and how they are reported.
use crate::output;
use crate::output::{Segment, SegmentView, Tone};
use crate::text;
use vstd::prelude::*;

verus! {

/// The error of an HTTP request.
#[verifier::external_type_specification]
#[verifier::external_body]
pub struct ExHttpError(reqwest::Error);

/// The error of an input or output operation.
#[verifier::external_type_specification]
#[verifier::external_body]
pub struct ExIoError(std::io::Error);

/// The error of reading JSON.
#[verifier::external_type_specification]
#[verifier::external_body]
pub struct ExJsonError(serde_json::Error);

/// Why a command failed.
#[derive(Debug)]
pub enum CliError {
    /// No access.
    Auth { message: String, hint: Option<String> },
    /// The request, or what was asked for, is at fault.
    Api { message: String, hint: Option<String> },
    /// The request did not get through.
    Http { context: String, hint: Option<String>, source: reqwest::Error },
    /// Reading or writing failed.
    Io { context: String, source: std::io::Error },
    /// JSON could not be read.
    Json { context: String, source: serde_json::Error },
}

impl CliError {
    /// The message for the user.
    pub open spec fn text(self) -> Seq<char> {
        match self {
            CliError::Auth { message, .. } => message@,
            CliError::Api { message, .. } => message@,
            CliError::Http { context, .. } => context@,
            CliError::Io { context, .. } => context@,
            CliError::Json { context, .. } => context@,
        }
    }

    /// The advice that goes with the message.
    pub open spec fn advice(self) -> Option<Seq<char>> {
        match self {
            CliError::Auth { hint, .. } => hint.deep_view(),
            CliError::Api { hint, .. } => hint.deep_view(),
            CliError::Http { hint, .. } => hint.deep_view(),
            CliError::Io { .. } => None,
            CliError::Json { .. } => None,
        }
    }

    pub fn auth(message: &str) -> (r: CliError)
        ensures
            r is Auth,
            r.text() == message@,
            r.advice() is None,
    {
        CliError::Auth { message: message.to_owned(), hint: None }
    }

    pub fn auth_with_hint(message: &str, hint: &str) -> (r: CliError)
        ensures
            r is Auth,
            r.text() == message@,
            r.advice() == Some(hint@),
    {
        CliError::Auth { message: message.to_owned(), hint: Some(hint.to_owned()) }
    }

    pub fn api(message: &str) -> (r: CliError)
        ensures
            r is Api,
            r.text() == message@,
            r.advice() is None,
    {
        CliError::Api { message: message.to_owned(), hint: None }
    }

    /// The message for the user.
    pub fn message(&self) -> (r: &str)
        ensures
            r@ == self.text(),
    {
        match self {
            CliError::Auth { message, .. } => message.as_str(),
            CliError::Api { message, .. } => message.as_str(),
            CliError::Http { context, .. } => context.as_str(),
            CliError::Io { context, .. } => context.as_str(),
            CliError::Json { context, .. } => context.as_str(),
        }
    }

    /// The advice that goes with the message.
    pub fn hint(&self) -> (r: Option<&str>)
        ensures
            match r {
                Some(hint) => self.advice() == Some(hint@),
                None => self.advice() is None,
            },
    {
        let hint: &Option<String> = match self {
            CliError::Auth { hint, .. } => hint,
            CliError::Api { hint, .. } => hint,
            CliError::Http { hint, .. } => hint,
            CliError::Io { .. } => &None,
            CliError::Json { .. } => &None,
        };
        match hint {
            Some(hint) => Some(hint.as_str()),
            None => None,
        }
    }
}

/// An operation of the program that reads or writes.
#[derive(Debug)]
pub enum Operation {
    ReadStdin,
    CreateTempFile,
    /// Starting the text editor with this name.
    LaunchEditor(String),
    ReadTempFile,
    ReadFilename,
    EnableRawMode,
    EnterAlternateScreen,
    CreateTerminal,
    ReenableRawMode,
    ReenterAlternateScreen,
    ClearTerminal,
    DrawFrame,
    PollEvents,
    ReadEvent,
}

impl Operation {
    /// What failed, for an operation that failed.
    pub open spec fn context(self) -> Seq<char> {
        match self {
            Operation::ReadStdin => "failed to read from stdin"@,
            Operation::CreateTempFile => "failed to create temp file"@,
            Operation::LaunchEditor(editor) => "failed to launch editor ("@ + editor@ + ")"@,
            Operation::ReadTempFile => "failed to read temp file"@,
            Operation::ReadFilename => "failed to read filename"@,
            Operation::EnableRawMode => "failed to enable raw mode"@,
            Operation::EnterAlternateScreen => "failed to enter alternate screen"@,
            Operation::CreateTerminal => "failed to create terminal"@,
            Operation::ReenableRawMode => "failed to re-enable raw mode"@,
            Operation::ReenterAlternateScreen => "failed to re-enter alternate screen"@,
            Operation::ClearTerminal => "failed to clear terminal"@,
            Operation::DrawFrame => "failed to draw frame"@,
            Operation::PollEvents => "failed to poll events"@,
            Operation::ReadEvent => "failed to read event"@,
        }
    }

    /// The failure of an operation.
    pub fn failed(self, source: std::io::Error) -> (r: CliError)
        ensures
            r matches CliError::Io { context, source: cause } && context@ == self.context() && cause
                == source,
    {
        let context: String = match self {
            Operation::ReadStdin => "failed to read from stdin".to_owned(),
            Operation::CreateTempFile => "failed to create temp file".to_owned(),
            Operation::LaunchEditor(editor) => text::join3(
                "failed to launch editor (",
                editor.as_str(),
                ")",
            ),
            Operation::ReadTempFile => "failed to read temp file".to_owned(),
            Operation::ReadFilename => "failed to read filename".to_owned(),
            Operation::EnableRawMode => "failed to enable raw mode".to_owned(),
            Operation::EnterAlternateScreen => "failed to enter alternate screen".to_owned(),
            Operation::CreateTerminal => "failed to create terminal".to_owned(),
            Operation::ReenableRawMode => "failed to re-enable raw mode".to_owned(),
            Operation::ReenterAlternateScreen => "failed to re-enter alternate screen".to_owned(),
            Operation::ClearTerminal => "failed to clear terminal".to_owned(),
            Operation::DrawFrame => "failed to draw frame".to_owned(),
            Operation::PollEvents => "failed to poll events".to_owned(),
            Operation::ReadEvent => "failed to read event".to_owned(),
        };
        CliError::Io { context, source }
    }
}

/// The exit status of the program for a failure.
pub open spec fn exit_status(e: CliError) -> i32 {
    match e {
        CliError::Auth { .. } => 4,
        CliError::Api { .. } => 5,
        CliError::Http { .. } => 5,
        CliError::Io { .. } => 1,
        CliError::Json { .. } => 1,
    }
}

/// The exit status of the program for a failure.
pub fn exit_code(e: &CliError) -> (r: i32)
    ensures
        r == exit_status(*e),
{
    match e {
        CliError::Auth { .. } => 4,
        CliError::Api { .. } | CliError::Http { .. } => 5,
        CliError::Io { .. } | CliError::Json { .. } => 1,
    }
}

/// The line for a success.
pub open spec fn success_line(message: Seq<char>) -> Seq<SegmentView> {
    seq![output::piece(Tone::Success, "✔"@), output::piece(Tone::Plain, " "@ + message)]
}

/// The line that names a cause.
pub open spec fn cause_line(cause: Seq<char>) -> Seq<SegmentView> {
    seq![
        output::piece(Tone::Plain, "  "@),
        output::piece(Tone::Dimmed, "caused by:"@),
        output::piece(Tone::Plain, " "@ + cause),
    ]
}

/// The lines for a failure: the message, the advice if there is any and, if the user asked for
/// details, the causes.
pub open spec fn failure_lines(e: CliError, causes: Seq<Seq<char>>, verbose: bool) -> Seq<
    Seq<SegmentView>,
> {
    let message = seq![
        seq![output::piece(Tone::Failure, "error:"@), output::piece(Tone::Plain, " "@ + e.text())],
    ];
    let advice = match e.advice() {
        Some(hint) => seq![
            seq![
                output::piece(Tone::Plain, "  "@),
                output::piece(Tone::Advice, "hint:"@),
                output::piece(Tone::Plain, " "@),
                output::piece(Tone::Dimmed, hint),
            ],
        ],
        None => Seq::empty(),
    };
    let details = if verbose {
        causes.map_values(|cause: Seq<char>| cause_line(cause))
    } else {
        Seq::empty()
    };
    message + advice + details
}

/// The line to print for a success.
pub fn print_success(message: &str) -> (r: Vec<Segment>)
    ensures
        r.deep_view() == success_line(message@),
{
    let r: Vec<Segment> = vec![
        output::segment(Tone::Success, "✔"),
        output::segment(Tone::Plain, text::join(" ", message).as_str()),
    ];
    assert(r.deep_view() =~= success_line(message@));
    r
}

/// The lines to print for a failure with the causes `causes`, the nearest first.
pub fn print_error(e: &CliError, causes: &Vec<String>, verbose: bool) -> (r: Vec<Vec<Segment>>)
    ensures
        r.deep_view() == failure_lines(*e, text::views(causes@), verbose),
{
    let mut lines: Vec<Vec<Segment>> = Vec::new();
    let first: Vec<Segment> = vec![
        output::segment(Tone::Failure, "error:"),
        output::segment(Tone::Plain, text::join(" ", e.message()).as_str()),
    ];
    assert(first.deep_view() =~= failure_lines(*e, text::views(causes@), verbose)[0]);
    lines.push(first);
    if let Some(hint) = e.hint() {
        let line: Vec<Segment> = vec![
            output::segment(Tone::Plain, "  "),
            output::segment(Tone::Advice, "hint:"),
            output::segment(Tone::Plain, " "),
            output::segment(Tone::Dimmed, hint),
        ];
        assert(line.deep_view() =~= failure_lines(*e, text::views(causes@), verbose)[1]);
        lines.push(line);
    }
    let ghost all = failure_lines(*e, text::views(causes@), verbose);
    let ghost head = lines.deep_view();
    assert(head =~= all.take(head.len() as int));
    if verbose {
        let n: usize = causes.len();
        for i in 0..n
            invariant
                n == causes@.len(),
                all.len() == head.len() + n,
                forall|j: int| 0 <= j < n ==> all[head.len() + j] == cause_line(#[trigger] causes@[j]@),
                lines.deep_view() == all.take(head.len() + i),
        {
            let line: Vec<Segment> = vec![
                output::segment(Tone::Plain, "  "),
                output::segment(Tone::Dimmed, "caused by:"),
                output::segment(Tone::Plain, text::join(" ", causes[i].as_str()).as_str()),
            ];
            assert(line.deep_view() =~= cause_line(causes@[i as int]@));
            let ghost done = lines.deep_view();
            lines.push(line);
            assert(lines.deep_view() =~= done.push(line.deep_view()));
            assert(all.take(head.len() + i + 1) =~= all.take(head.len() + i).push(
                all[head.len() + i],
            ));
        }
    }
    assert(all.take(all.len() as int) =~= all);
    lines
}

/// The message of a failure is the text that it was made with, and only those that can have advice
/// give any.
pub proof fn law_messages_are_kept(e: CliError)
    ensures
        e matches CliError::Auth { message, hint } ==> e.text() == message@ && e.advice()
            == hint.deep_view(),
        e matches CliError::Api { message, hint } ==> e.text() == message@ && e.advice()
            == hint.deep_view(),
        e matches CliError::Http { context, hint, .. } ==> e.text() == context@ && e.advice()
            == hint.deep_view(),
        e matches CliError::Io { context, .. } ==> e.text() == context@ && e.advice() is None,
        e matches CliError::Json { context, .. } ==> e.text() == context@ && e.advice() is None,
{
}

/// The exit status tells missing access, a fault of the service or the request, and a fault of this
/// machine apart, and is never that of success.
pub proof fn law_exit_status_tells_failures_apart(a: CliError, b: CliError)
    ensures
        a is Auth ==> exit_status(a) == 4,
        a is Api || a is Http ==> exit_status(a) == 5,
        a is Io || a is Json ==> exit_status(a) == 1,
        exit_status(a) != 0,
        a is Auth && !(b is Auth) ==> exit_status(a) != exit_status(b),
{
}

/// The line for a success is a tick and the message.
pub proof fn law_success_line(message: Seq<char>)
    ensures
        success_line(message).len() == 2,
        success_line(message)[0] == (SegmentView { tone: Tone::Success, text: "✔"@ }),
        success_line(message)[1] == (SegmentView { tone: Tone::Plain, text: " "@ + message }),
{
}

/// The message of a failure comes first, then the advice if there is any, then, only if the user
/// asked for details, each cause, the nearest first.
pub proof fn law_failure_lines(e: CliError, causes: Seq<Seq<char>>, verbose: bool, i: int)
    ensures
        ({
            let lines = failure_lines(e, causes, verbose);
            let advised: int = if e.advice() is Some {
                1
            } else {
                0
            };
            &&& lines.len() == 1 + advised + if verbose {
                causes.len() as int
            } else {
                0
            }
            &&& lines[0] == seq![
                SegmentView { tone: Tone::Failure, text: "error:"@ },
                SegmentView { tone: Tone::Plain, text: " "@ + e.text() },
            ]
            &&& e.advice() matches Some(hint) ==> lines[1] == seq![
                SegmentView { tone: Tone::Plain, text: "  "@ },
                SegmentView { tone: Tone::Advice, text: "hint:"@ },
                SegmentView { tone: Tone::Plain, text: " "@ },
                SegmentView { tone: Tone::Dimmed, text: hint },
            ]
            &&& verbose && 0 <= i < causes.len() ==> lines[1 + advised + i] == seq![
                SegmentView { tone: Tone::Plain, text: "  "@ },
                SegmentView { tone: Tone::Dimmed, text: "caused by:"@ },
                SegmentView { tone: Tone::Plain, text: " "@ + causes[i] },
            ]
        }),
{
}

/// A text editor that could not be started is named as it was given.
pub proof fn law_failed_editor_is_named(editor: String)
    ensures
        Operation::LaunchEditor(editor).context() == "failed to launch editor ("@ + editor@ + ")"@,
{
}

} // verus!
