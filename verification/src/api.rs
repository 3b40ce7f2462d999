//! Requests to the gist service and the answers to them.
use crate::error::CliError;
use crate::text;
use vstd::prelude::*;
use vstd::utf8::*;

verus! {

/// A JSON value.
#[verifier::external_type_specification]
#[verifier::external_body]
pub struct ExJsonValue(serde_json::Value);

/// Where the service is.
pub const BASE_URL: &'static str = "https://api.github.com";

/// The method of a request.
#[derive(Clone, Copy, Debug, PartialEq, Eq, Structural)]
pub enum Method {
    Get,
    Post,
    Patch,
    Delete,
}

/// What a request is for.
#[derive(Clone, Copy, Debug, PartialEq, Eq, Structural)]
pub enum Call {
    Create,
    List,
    Get,
    Update,
    Delete,
}

/// The text of a file, as it is sent.
#[derive(Debug)]
pub struct CreateGistFile {
    pub content: String,
}

/// What is sent to make a gist.
#[derive(Debug)]
pub struct CreateGistRequest {
    pub description: String,
    pub public: bool,
    pub files: Vec<(String, CreateGistFile)>,
}

/// What is sent to change the files of a gist.
#[derive(Debug)]
pub struct UpdateGistRequest {
    pub files: Vec<(String, CreateGistFile)>,
}

/// What a request carries.
#[derive(Debug)]
pub enum Body {
    Empty,
    Create(CreateGistRequest),
    Update(UpdateGistRequest),
}

/// A request.
#[derive(Debug)]
pub struct Request {
    pub method: Method,
    pub url: String,
    pub headers: Vec<(String, String)>,
    pub query: Vec<(String, String)>,
    pub body: Body,
}

/// What a [`Body`] holds. Files are pairs of a name and a text.
pub enum BodyView {
    Empty,
    Create { description: Seq<char>, public: bool, files: Seq<(Seq<char>, Seq<char>)> },
    Update { files: Seq<(Seq<char>, Seq<char>)> },
}

/// What a [`Request`] holds.
#[verifier::ext_equal]
pub struct RequestView {
    pub method: Method,
    pub url: Seq<char>,
    pub headers: Seq<(Seq<char>, Seq<char>)>,
    pub query: Seq<(Seq<char>, Seq<char>)>,
    pub body: BodyView,
}

/// The names and texts of the files that are sent.
pub open spec fn sent_files(files: Seq<(String, CreateGistFile)>) -> Seq<(Seq<char>, Seq<char>)> {
    files.map_values(|p: (String, CreateGistFile)| (p.0@, p.1.content@))
}

impl View for Body {
    type V = BodyView;

    open spec fn view(&self) -> BodyView {
        match self {
            Body::Empty => BodyView::Empty,
            Body::Create(c) => BodyView::Create {
                description: c.description@,
                public: c.public,
                files: sent_files(c.files@),
            },
            Body::Update(u) => BodyView::Update { files: sent_files(u.files@) },
        }
    }
}

impl View for Request {
    type V = RequestView;

    open spec fn view(&self) -> RequestView {
        RequestView {
            method: self.method,
            url: self.url@,
            headers: self.headers.deep_view(),
            query: self.query.deep_view(),
            body: self.body@,
        }
    }
}

/// The headers of every request: the token that gives access, and the format that is read.
pub open spec fn standard_headers(token: Seq<char>) -> Seq<(Seq<char>, Seq<char>)> {
    seq![
        ("Authorization"@, "Bearer "@ + token),
        ("Accept"@, "application/vnd.github+json"@),
    ]
}

/// A request for all gists or, with an identifier, for one gist.
pub open spec fn request(
    method: Method,
    gist_id: Option<Seq<char>>,
    token: Seq<char>,
    query: Seq<(Seq<char>, Seq<char>)>,
    body: BodyView,
) -> RequestView {
    RequestView {
        method,
        url: match gist_id {
            Some(id) => BASE_URL@ + "/gists/"@ + id,
            None => BASE_URL@ + "/gists"@,
        },
        headers: standard_headers(token),
        query,
        body,
    }
}

/// The request that makes a gist with one file.
pub open spec fn creation(
    token: Seq<char>,
    filename: Seq<char>,
    content: Seq<char>,
    public: bool,
    description: Seq<char>,
) -> RequestView {
    request(
        Method::Post,
        None,
        token,
        Seq::empty(),
        BodyView::Create { description, public, files: seq![(filename, content)] },
    )
}

/// The request that lists the gists.
pub open spec fn enumeration(token: Seq<char>) -> RequestView {
    request(Method::Get, None, token, seq![("per_page"@, "100"@)], BodyView::Empty)
}

/// The request that fetches one gist.
pub open spec fn retrieval(token: Seq<char>, gist_id: Seq<char>) -> RequestView {
    request(Method::Get, Some(gist_id), token, Seq::empty(), BodyView::Empty)
}

/// The request that sets the text of one file of a gist.
pub open spec fn change(
    token: Seq<char>,
    gist_id: Seq<char>,
    filename: Seq<char>,
    content: Seq<char>,
) -> RequestView {
    request(
        Method::Patch,
        Some(gist_id),
        token,
        Seq::empty(),
        BodyView::Update { files: seq![(filename, content)] },
    )
}

/// The request that deletes a gist.
pub open spec fn deletion(token: Seq<char>, gist_id: Seq<char>) -> RequestView {
    request(Method::Delete, Some(gist_id), token, Seq::empty(), BodyView::Empty)
}

/// What failed, for a call whose request did not get through or was refused.
pub open spec fn call_context(call: Call) -> Seq<char> {
    match call {
        Call::Create => "failed to create gist"@,
        Call::List => "failed to list gists"@,
        Call::Get => "failed to get gist"@,
        Call::Update => "failed to update gist"@,
        Call::Delete => "failed to delete gist"@,
    }
}

/// What failed, for a call whose answer could not be read.
pub open spec fn parse_context(call: Call) -> Seq<char> {
    match call {
        Call::Create => "failed to parse create gist response"@,
        Call::List => "failed to parse list gists response"@,
        Call::Get => "failed to parse get gist response"@,
        Call::Update => "failed to parse update gist response"@,
        Call::Delete => "failed to parse delete gist response"@,
    }
}

fn headers(token: &str) -> (r: Vec<(String, String)>)
    ensures
        r.deep_view() == standard_headers(token@),
{
    let r: Vec<(String, String)> = vec![
        ("Authorization".to_owned(), text::join("Bearer ", token)),
        ("Accept".to_owned(), "application/vnd.github+json".to_owned()),
    ];
    assert(r.deep_view() =~= standard_headers(token@));
    r
}

fn one_file(filename: &str, content: &str) -> (r: Vec<(String, CreateGistFile)>)
    ensures
        sent_files(r@) == seq![(filename@, content@)],
{
    let mut files: Vec<(String, CreateGistFile)> = Vec::new();
    files.push((filename.to_owned(), CreateGistFile { content: content.to_owned() }));
    assert(sent_files(files@) =~= seq![(filename@, content@)]);
    files
}

/// The request that makes a gist with one file.
pub fn create_gist(
    token: &str,
    filename: &str,
    content: &str,
    public: bool,
    description: &str,
) -> (r: Request)
    ensures
        r@ == creation(token@, filename@, content@, public, description@),
        r@ == request(
            Method::Post,
            None,
            token@,
            Seq::empty(),
            (BodyView::Create {
                description: description@,
                public,
                files: seq![(filename@, content@)],
            }),
        ),
{
    Request {
        method: Method::Post,
        url: text::join(BASE_URL, "/gists"),
        headers: headers(token),
        query: Vec::new(),
        body: Body::Create(
            CreateGistRequest {
                description: description.to_owned(),
                public,
                files: one_file(filename, content),
            },
        ),
    }
}

/// The request that lists the gists, up to a hundred.
pub fn list_gists(token: &str) -> (r: Request)
    ensures
        r@ == enumeration(token@),
        r@ == request(
            Method::Get,
            None,
            token@,
            seq![("per_page"@, "100"@)],
            BodyView::Empty,
        ),
{
    let query: Vec<(String, String)> = vec![("per_page".to_owned(), "100".to_owned())];
    assert(query.deep_view() =~= seq![("per_page"@, "100"@)]);
    Request {
        method: Method::Get,
        url: text::join(BASE_URL, "/gists"),
        headers: headers(token),
        query,
        body: Body::Empty,
    }
}

/// The request that fetches one gist.
pub fn get_gist(token: &str, gist_id: &str) -> (r: Request)
    ensures
        r@ == retrieval(token@, gist_id@),
        r@ == request(Method::Get, Some(gist_id@), token@, Seq::empty(), BodyView::Empty),
{
    Request {
        method: Method::Get,
        url: text::join3(BASE_URL, "/gists/", gist_id),
        headers: headers(token),
        query: Vec::new(),
        body: Body::Empty,
    }
}

/// The request that sets the text of one file of a gist.
pub fn update_gist_file(token: &str, gist_id: &str, filename: &str, content: &str) -> (r: Request)
    ensures
        r@ == change(token@, gist_id@, filename@, content@),
        r@ == request(
            Method::Patch,
            Some(gist_id@),
            token@,
            Seq::empty(),
            (BodyView::Update { files: seq![(filename@, content@)] }),
        ),
{
    Request {
        method: Method::Patch,
        url: text::join3(BASE_URL, "/gists/", gist_id),
        headers: headers(token),
        query: Vec::new(),
        body: Body::Update(UpdateGistRequest { files: one_file(filename, content) }),
    }
}

/// The request that deletes a gist.
pub fn delete_gist(token: &str, gist_id: &str) -> (r: Request)
    ensures
        r@ == deletion(token@, gist_id@),
        r@ == request(Method::Delete, Some(gist_id@), token@, Seq::empty(), BodyView::Empty),
{
    Request {
        method: Method::Delete,
        url: text::join3(BASE_URL, "/gists/", gist_id),
        headers: headers(token),
        query: Vec::new(),
        body: Body::Empty,
    }
}

/// How the program introduces itself to the service.
pub fn user_agent(version: &str) -> (r: String)
    ensures
        r@ == "gist-cli-"@ + version@,
{
    text::join("gist-cli-", version)
}

/// What failed, for a call whose request did not get through or was refused.
pub fn context(call: Call) -> (r: &'static str)
    ensures
        r@ == call_context(call),
{
    match call {
        Call::Create => "failed to create gist",
        Call::List => "failed to list gists",
        Call::Get => "failed to get gist",
        Call::Update => "failed to update gist",
        Call::Delete => "failed to delete gist",
    }
}

/// The failure of a call whose request did not get through.
pub fn request_failed(call: Call, source: reqwest::Error) -> (r: CliError)
    ensures
        r matches CliError::Http { context, hint, source: cause } && context@ == call_context(call)
            && hint is None && cause == source,
{
    CliError::Http { context: context(call).to_owned(), hint: None, source }
}

/// The failure of a call whose answer could not be read.
pub fn response_unreadable(call: Call, source: reqwest::Error) -> (r: CliError)
    ensures
        r matches CliError::Http { context, hint, source: cause } && context@ == parse_context(call)
            && hint is None && cause == source,
{
    let context: &str = match call {
        Call::Create => "failed to parse create gist response",
        Call::List => "failed to parse list gists response",
        Call::Get => "failed to parse get gist response",
        Call::Update => "failed to parse update gist response",
        Call::Delete => "failed to parse delete gist response",
    };
    CliError::Http { context: context.to_owned(), hint: None, source }
}

/// What the status of an answer says.
#[derive(Debug)]
pub enum StatusCheck {
    /// The request was granted.
    Granted,
    /// The request was refused for this reason.
    Refused(CliError),
    /// The request was refused, and the text of the answer gives the reason.
    ReadText,
}

/// Judges the status of an answer to a request whose failure is described by `context`.
pub fn check_status(status: u16, context: &str) -> (r: StatusCheck)
    ensures
        r is Granted <==> 200 <= status < 300,
        r is Refused <==> status == 401 || status == 403 || status == 404,
        (status == 401 || status == 403) ==> (r matches StatusCheck::Refused(e) && e is Auth && e.text()
            == context@ + ": unauthorized"@ && e.advice() == Some(
            "check that your `gh` token or GH_GIST_TOKEN is valid and has the gist scope"@,
        )),
        status == 404 ==> (r matches StatusCheck::Refused(e) && e is Api && e.text() == context@
            + ": not found"@ && e.advice() is None),
{
    if 200 <= status && status < 300 {
        return StatusCheck::Granted;
    }
    if status == 401 || status == 403 {
        return StatusCheck::Refused(
            CliError::auth_with_hint(
                text::join(context, ": unauthorized").as_str(),
                "check that your `gh` token or GH_GIST_TOKEN is valid and has the gist scope",
            ),
        );
    }
    if status == 404 {
        return StatusCheck::Refused(CliError::api(text::join(context, ": not found").as_str()));
    }
    StatusCheck::ReadText
}

/// How a status is written out: its number and its name.
pub uninterp spec fn status_display(status: u16) -> Seq<char>;

/// Writes a status out by `reqwest::StatusCode` and its `Display`: the number, a space and a name,
/// of which it is claimed only that the number decides it. The type holds numbers from 100 to 999
/// only.
#[verifier::external_body]
fn display_status(status: u16) -> (r: String)
    requires
        100 <= status <= 999,
    ensures
        r@ == status_display(status),
        (text::decimal(status as nat) + " "@).is_prefix_of(r@),
{
    reqwest::StatusCode::from_u16(status).unwrap().to_string()
}

/// The members of a JSON object that are strings. A value that is no object has none.
pub uninterp spec fn string_members(value: serde_json::Value) -> Map<Seq<char>, Seq<char>>;

/// What a text holds as JSON: `None` where it is not JSON, otherwise the members that are
/// strings.
pub uninterp spec fn json_document(text: Seq<char>) -> Option<Map<Seq<char>, Seq<char>>>;

/// Reads a text as JSON by `serde_json::from_str`. Nothing is claimed of what is accepted, but
/// that the text alone decides it and the value.
#[verifier::external_body]
fn parse_json(text: &str) -> (r: Result<serde_json::Value, serde_json::Error>)
    ensures
        match r {
            Ok(value) => json_document(text@) == Some(string_members(value)),
            Err(_) => json_document(text@) is None,
        },
{
    serde_json::from_str::<serde_json::Value>(text)
}

/// The member `name` of a JSON value, if it is a string, by `serde_json::Value::get` and
/// `serde_json::Value::as_str`.
#[verifier::external_body]
fn string_member(value: &serde_json::Value, name: &str) -> (r: Option<String>)
    ensures
        match r {
            Some(s) => string_members(*value).contains_key(name@) && string_members(*value)[name@]
                == s@,
            None => !string_members(*value).contains_key(name@),
        },
{
    value.get(name)?.as_str().map(String::from)
}

/// The message that the service put into the text of its answer.
pub open spec fn reported_message(text: Seq<char>) -> Option<Seq<char>> {
    match json_document(text) {
        Some(members) => if members.contains_key("message"@) {
            Some(members["message"@])
        } else {
            None
        },
        None => None,
    }
}

/// The message that the service put into the text of its answer.
pub fn message_in(text: &str) -> (r: Option<String>)
    ensures
        r.deep_view() == reported_message(text@),
{
    match parse_json(text) {
        Ok(value) => string_member(&value, "message"),
        Err(_) => None,
    }
}

/// The failure that an answer stands for, given the message that the service reported and how the
/// status is written out.
pub fn refusal(context: &str, status: &str, reported: Option<String>) -> (r: CliError)
    ensures
        r is Api,
        r.advice() is None,
        r.text() == match reported.deep_view() {
            Some(message) => message,
            None => context@ + ": "@ + status@,
        },
{
    match reported {
        Some(message) => CliError::api(message.as_str()),
        None => CliError::api(text::join3(context, ": ", status).as_str()),
    }
}

/// The failure that an answer with the status `status` and the text `body` stands for.
pub fn status_failure(status: u16, context: &str, body: &str) -> (r: CliError)
    requires
        100 <= status <= 999,
    ensures
        r is Api,
        r.advice() is None,
        r.text() == match reported_message(body@) {
            Some(message) => message,
            None => context@ + ": "@ + status_display(status),
        },
        (text::decimal(status as nat) + " "@).is_prefix_of(status_display(status)),
{
    refusal(context, display_status(status).as_str(), message_in(body))
}

/// What the command-line client of the service printed, and whether it succeeded.
#[derive(Debug)]
pub struct ClientOutput {
    pub success: bool,
    pub stdout: Vec<u8>,
}

/// The text of bytes that are meant to be UTF-8.
pub uninterp spec fn utf8_lossy(bytes: Seq<u8>) -> Seq<char>;

/// The text of bytes, by `String::from_utf8_lossy`. Valid UTF-8 is decoded; of other bytes nothing
/// is claimed but that they decide the text.
#[verifier::external_body]
fn decode_lossy(bytes: &[u8]) -> (r: String)
    ensures
        r@ == utf8_lossy(bytes@),
        valid_utf8(bytes@) ==> r@ == decode_utf8(bytes@),
{
    String::from_utf8_lossy(bytes).into_owned()
}

/// The text of bytes: valid UTF-8 is decoded.
pub open spec fn lossy_text(bytes: Seq<u8>) -> Seq<char> {
    if valid_utf8(bytes) {
        decode_utf8(bytes)
    } else {
        utf8_lossy(bytes)
    }
}

/// The token in what the client printed: the text without white space at its ends, unless the
/// client failed or nothing is left.
pub open spec fn printed_token(success: bool, printed: Seq<char>) -> Option<Seq<char>> {
    if success && text::trimmed(printed).len() > 0 {
        Some(text::trimmed(printed))
    } else {
        None
    }
}

/// The token to use, given the one that the client printed and the value of the environment
/// variable.
pub open spec fn chosen_token(printed: Option<Seq<char>>, variable: Option<Seq<char>>) -> Option<
    Seq<char>,
> {
    match printed {
        Some(token) => Some(token),
        None => match variable {
            Some(value) => if value.len() > 0 {
                Some(value)
            } else {
                None
            },
            None => None,
        },
    }
}

/// The token in what the client printed.
pub fn token_in(success: bool, printed: &str) -> (r: Option<String>)
    ensures
        r.deep_view() == printed_token(success, printed@),
{
    if success {
        let token: String = text::trim(printed);
        if !token.as_str().is_empty() {
            return Some(token);
        }
    }
    None
}

/// The token to use, or the failure for want of one.
pub fn choose_token(printed: Option<String>, variable: Option<String>) -> (r: Result<
    String,
    CliError,
>)
    ensures
        match r {
            Ok(token) => chosen_token(printed.deep_view(), variable.deep_view()) == Some(token@),
            Err(e) => {
                &&& chosen_token(printed.deep_view(), variable.deep_view()) is None
                &&& e is Auth
                &&& e.text() == "no GitHub token found"@
                &&& e.advice() == Some("authenticate with `gh auth login` or set GH_GIST_TOKEN"@)
            },
        },
{
    if let Some(token) = printed {
        return Ok(token);
    }
    if let Some(value) = variable {
        if !value.as_str().is_empty() {
            return Ok(value);
        }
    }
    Err(
        CliError::auth_with_hint(
            "no GitHub token found",
            "authenticate with `gh auth login` or set GH_GIST_TOKEN",
        ),
    )
}

/// The token to use, given what the client printed, if it could be run, and the value of the
/// environment variable.
pub fn resolve_token(client: Option<ClientOutput>, variable: Option<String>) -> (r: Result<
    String,
    CliError,
>)
    ensures
        ({
            let printed = match client {
                Some(output) => printed_token(output.success, lossy_text(output.stdout@)),
                None => None,
            };
            match r {
                Ok(token) => chosen_token(printed, variable.deep_view()) == Some(token@),
                Err(e) => {
                    &&& chosen_token(printed, variable.deep_view()) is None
                    &&& e is Auth
                    &&& e.text() == "no GitHub token found"@
                    &&& e.advice() == Some(
                        "authenticate with `gh auth login` or set GH_GIST_TOKEN"@,
                    )
                },
            }
        }),
{
    let printed: Option<String> = match client {
        Some(output) => token_in(
            output.success,
            decode_lossy(output.stdout.as_slice()).as_str(),
        ),
        None => None,
    };
    choose_token(printed, variable)
}

/// Every request goes to the service with the token and the accepted format, and to the gist that is
/// named.
pub proof fn law_requests_are_addressed(
    r: Request,
    method: Method,
    gist_id: Option<Seq<char>>,
    token: Seq<char>,
    query: Seq<(Seq<char>, Seq<char>)>,
    body: BodyView,
)
    requires
        r@ == request(method, gist_id, token, query, body),
    ensures
        r.method == method,
        r.headers@.len() == 2,
        r.headers@[0].0@ == "Authorization"@,
        r.headers@[0].1@ == "Bearer "@ + token,
        r.headers@[1].0@ == "Accept"@,
        r.headers@[1].1@ == "application/vnd.github+json"@,
        gist_id is None ==> r.url@ == "https://api.github.com"@ + "/gists"@,
        gist_id matches Some(id) ==> r.url@ == "https://api.github.com"@ + "/gists/"@ + id,
        r.query.deep_view() == query,
        r.body@ == body,
{
    let headers = r.headers.deep_view();
    assert(headers.len() == 2);
    assert(headers[0] == (r.headers@[0].0@, r.headers@[0].1@));
    assert(headers[1] == (r.headers@[1].0@, r.headers@[1].1@));
    assert(headers[0] == ("Authorization"@, "Bearer "@ + token));
    assert(headers[1] == ("Accept"@, "application/vnd.github+json"@));
}

/// What is sent to make a gist is what was asked for, field by field.
pub proof fn law_new_gist_is_sent_as_asked(
    body: Body,
    description: Seq<char>,
    public: bool,
    files: Seq<(Seq<char>, Seq<char>)>,
    i: int,
)
    requires
        body@ == (BodyView::Create { description, public, files }),
    ensures
        body matches Body::Create(c) && c.public == public && c.description@ == description
            && c.files@.len() == files.len() && (0 <= i < files.len() ==> c.files@[i].0@ == files[i].0
            && c.files@[i].1.content@ == files[i].1),
{
    if let Body::Create(c) = body {
        assert(sent_files(c.files@) == files);
        if 0 <= i < files.len() {
            assert(sent_files(c.files@)[i] == (c.files@[i].0@, c.files@[i].1.content@));
        }
    }
}

/// What is sent to change a gist holds the named files with their new texts and nothing else.
pub proof fn law_change_is_sent_as_asked(
    body: Body,
    files: Seq<(Seq<char>, Seq<char>)>,
    i: int,
)
    requires
        body@ == (BodyView::Update { files }),
    ensures
        body matches Body::Update(u) && u.files@.len() == files.len() && (0 <= i < files.len()
            ==> u.files@[i].0@ == files[i].0 && u.files@[i].1.content@ == files[i].1),
{
    if let Body::Update(u) = body {
        assert(sent_files(u.files@) == files);
        if 0 <= i < files.len() {
            assert(sent_files(u.files@)[i] == (u.files@[i].0@, u.files@[i].1.content@));
        }
    }
}

/// The message that is reported is the string under the name `message`, if the answer has one.
pub proof fn law_reported_message(text: Seq<char>, members: Map<Seq<char>, Seq<char>>)
    ensures
        json_document(text) is None ==> reported_message(text) is None,
        json_document(text) == Some(members) && members.contains_key("message"@)
            ==> reported_message(text) == Some(members["message"@]),
        json_document(text) == Some(members) && !members.contains_key("message"@)
            ==> reported_message(text) is None,
{
}

/// The token that the client printed comes before the variable. An empty one counts for neither.
/// The variable is taken as it is.
pub proof fn law_token_that_is_used(
    success: bool,
    printed: Seq<char>,
    variable: Option<Seq<char>>,
    value: Seq<char>,
)
    ensures
        success && text::trimmed(printed).len() > 0 ==> chosen_token(
            printed_token(success, printed),
            variable,
        ) == Some(text::trimmed(printed)),
        (!success || text::blank(printed)) && value.len() > 0 ==> chosen_token(
            printed_token(success, printed),
            Some(value),
        ) == Some(value),
        (!success || text::blank(printed)) && value.len() == 0 ==> chosen_token(
            printed_token(success, printed),
            Some(value),
        ) is None,
        !success || text::blank(printed) ==> chosen_token(printed_token(success, printed), None) is None,
        chosen_token(None, None) is None,
{
    text::law_trimmed_empty(printed);
}

/// What the client printed is read as UTF-8 where it is UTF-8.
pub proof fn law_printed_text_is_decoded(text: Seq<char>)
    ensures
        lossy_text(encode_utf8(text)) == text,
{
    encode_utf8_valid_utf8(text);
    encode_utf8_decode_utf8(text);
}

/// A new gist is posted with its one file, name and text as they are, with its description, and
/// public exactly if that was asked for.
pub proof fn law_creation(
    r: Request,
    token: Seq<char>,
    filename: Seq<char>,
    content: Seq<char>,
    public: bool,
    description: Seq<char>,
)
    requires
        r@ == creation(token, filename, content, public, description),
    ensures
        r.method == Method::Post,
        r.url@ == "https://api.github.com"@ + "/gists"@,
        r.query@.len() == 0,
        r.body matches Body::Create(c) && c.public == public && c.description@ == description
            && c.files@.len() == 1 && c.files@[0].0@ == filename && c.files@[0].1.content@ == content,
{
    let files = seq![(filename, content)];
    assert(r.query.deep_view().len() == 0);
    law_new_gist_is_sent_as_asked(r.body, description, public, files, 0);
}

/// The gists are listed a hundred at a time.
pub proof fn law_enumeration(r: Request, token: Seq<char>)
    requires
        r@ == enumeration(token),
    ensures
        r.method == Method::Get,
        r.url@ == "https://api.github.com"@ + "/gists"@,
        r.query@.len() == 1,
        r.query@[0].0@ == "per_page"@,
        r.query@[0].1@ == "100"@,
        r.body is Empty,
{
    let query = r.query.deep_view();
    assert(query.len() == 1);
    assert(query[0] == (r.query@[0].0@, r.query@[0].1@));
    assert(query[0] == ("per_page"@, "100"@));
}

/// One gist is fetched, and one is deleted, by its identifier and without anything else.
pub proof fn law_retrieval_and_deletion(r: Request, token: Seq<char>, id: Seq<char>)
    requires
        r@ == retrieval(token, id) || r@ == deletion(token, id),
    ensures
        r@ == retrieval(token, id) <==> r.method == Method::Get,
        r@ == deletion(token, id) <==> r.method == Method::Delete,
        r.url@ == "https://api.github.com"@ + "/gists/"@ + id,
        r.query@.len() == 0,
        r.body is Empty,
{
    assert(r.query.deep_view().len() == 0);
}

/// A changed text is sent as it is, for one file of one gist.
pub proof fn law_change(
    r: Request,
    token: Seq<char>,
    id: Seq<char>,
    filename: Seq<char>,
    content: Seq<char>,
)
    requires
        r@ == change(token, id, filename, content),
    ensures
        r.method == Method::Patch,
        r.url@ == "https://api.github.com"@ + "/gists/"@ + id,
        r.query@.len() == 0,
        r.body matches Body::Update(u) && u.files@.len() == 1 && u.files@[0].0@ == filename
            && u.files@[0].1.content@ == content,
{
    let files = seq![(filename, content)];
    assert(r.query.deep_view().len() == 0);
    law_change_is_sent_as_asked(r.body, files, 0);
}

} // verus!
