use gist::api::{
    check_status, choose_token, context, create_gist, delete_gist, get_gist, list_gists,
    message_in, refusal, resolve_token, status_failure, token_in, update_gist_file, user_agent,
    Body, Call, ClientOutput, Method, Request, StatusCheck, BASE_URL,
};
use gist::error::{exit_code, print_error, print_success, CliError, Operation};
use gist::output::{Segment, Tone};

fn pairs(list: &[(String, String)]) -> Vec<(&str, &str)> {
    list.iter().map(|(a, b)| (a.as_str(), b.as_str())).collect()
}

fn check_headers(request: &Request) {
    assert_eq!(
        pairs(&request.headers),
        vec![("Authorization", "Bearer tok"), ("Accept", "application/vnd.github+json")]
    );
}

fn pieces(line: &[Segment]) -> Vec<(Tone, &str)> {
    line.iter().map(|s| (s.tone, s.text.as_str())).collect()
}

#[test]
fn requests_go_to_the_service() {
    assert_eq!(BASE_URL, "https://api.github.com");
    let r = list_gists("tok");
    check_headers(&r);
    assert_eq!(r.method, Method::Get);
    assert_eq!(r.url, "https://api.github.com/gists");
    assert_eq!(pairs(&r.query), vec![("per_page", "100")]);
    assert!(matches!(r.body, Body::Empty));

    let r = get_gist("tok", "abc");
    check_headers(&r);
    assert_eq!(r.method, Method::Get);
    assert_eq!(r.url, "https://api.github.com/gists/abc");
    assert!(r.query.is_empty());
    assert!(matches!(r.body, Body::Empty));

    let r = delete_gist("tok", "abc");
    check_headers(&r);
    assert_eq!(r.method, Method::Delete);
    assert_eq!(r.url, "https://api.github.com/gists/abc");
    assert!(r.query.is_empty());
    assert!(matches!(r.body, Body::Empty));
}

#[test]
fn new_gist_carries_its_file() {
    let r = create_gist("tok", "a.txt", "hello", true, "about");
    check_headers(&r);
    assert_eq!(r.method, Method::Post);
    assert_eq!(r.url, "https://api.github.com/gists");
    assert!(r.query.is_empty());
    match r.body {
        Body::Create(c) => {
            assert_eq!(c.description, "about");
            assert!(c.public);
            assert_eq!(c.files.len(), 1);
            assert_eq!(c.files[0].0, "a.txt");
            assert_eq!(c.files[0].1.content, "hello");
        }
        other => panic!("{other:?}"),
    }
    match create_gist("tok", "a.txt", "hello", false, "").body {
        Body::Create(c) => {
            assert!(!c.public);
            assert_eq!(c.description, "");
        }
        other => panic!("{other:?}"),
    }
}

#[test]
fn changed_file_is_sent_alone() {
    let r = update_gist_file("tok", "abc", "a.txt", "new");
    check_headers(&r);
    assert_eq!(r.method, Method::Patch);
    assert_eq!(r.url, "https://api.github.com/gists/abc");
    match r.body {
        Body::Update(u) => {
            assert_eq!(u.files.len(), 1);
            assert_eq!(u.files[0].0, "a.txt");
            assert_eq!(u.files[0].1.content, "new");
        }
        other => panic!("{other:?}"),
    }
}

#[test]
fn agent_names_the_version() {
    assert_eq!(user_agent("0.1.0"), "gist-cli-0.1.0");
}

#[test]
fn calls_have_contexts() {
    assert_eq!(context(Call::Create), "failed to create gist");
    assert_eq!(context(Call::List), "failed to list gists");
    assert_eq!(context(Call::Get), "failed to get gist");
    assert_eq!(context(Call::Update), "failed to update gist");
    assert_eq!(context(Call::Delete), "failed to delete gist");
}

#[test]
fn success_statuses_are_granted() {
    for status in 200..300 {
        assert!(matches!(check_status(status, "c"), StatusCheck::Granted));
    }
    for status in [100, 199, 300, 302, 400, 402, 405, 418, 500, 599, 999] {
        assert!(matches!(check_status(status, "c"), StatusCheck::ReadText), "{status}");
    }
}

#[test]
fn missing_rights_are_reported() {
    for status in [401, 403] {
        match check_status(status, "failed to get gist") {
            StatusCheck::Refused(e) => {
                assert!(matches!(e, CliError::Auth { .. }));
                assert_eq!(e.message(), "failed to get gist: unauthorized");
                assert_eq!(
                    e.hint(),
                    Some("check that your `gh` token or GH_GIST_TOKEN is valid and has the gist scope")
                );
                assert_eq!(exit_code(&e), 4);
            }
            other => panic!("{other:?}"),
        }
    }
}

#[test]
fn missing_gist_is_reported() {
    match check_status(404, "failed to get gist") {
        StatusCheck::Refused(e) => {
            assert!(matches!(e, CliError::Api { .. }));
            assert_eq!(e.message(), "failed to get gist: not found");
            assert_eq!(e.hint(), None);
            assert_eq!(exit_code(&e), 5);
        }
        other => panic!("{other:?}"),
    }
}

#[test]
fn message_of_the_service_is_passed_on() {
    assert_eq!(message_in(r#"{"message":"Validation Failed","x":1}"#).as_deref(), Some("Validation Failed"));
    assert_eq!(message_in(r#"{"message":""}"#).as_deref(), Some(""));
    assert_eq!(message_in(r#"{"message":7}"#), None);
    assert_eq!(message_in(r#"{"other":"x"}"#), None);
    assert_eq!(message_in(r#"["message"]"#), None);
    assert_eq!(message_in(r#""message""#), None);
    assert_eq!(message_in("<html>"), None);
    assert_eq!(message_in(""), None);
    let e = status_failure(422, "failed to create gist", r#"{"message":"Validation Failed"}"#);
    assert!(matches!(e, CliError::Api { .. }));
    assert_eq!(e.message(), "Validation Failed");
    assert_eq!(e.hint(), None);
}

#[test]
fn status_stands_in_for_a_message() {
    assert_eq!(
        status_failure(500, "failed to list gists", "oops").message(),
        "failed to list gists: 500 Internal Server Error"
    );
    assert_eq!(
        status_failure(799, "failed to list gists", "").message(),
        "failed to list gists: 799 <unknown status code>"
    );
    assert_eq!(refusal("c", "418 I'm a teapot", None).message(), "c: 418 I'm a teapot");
    assert_eq!(refusal("c", "418 I'm a teapot", Some("m".to_string())).message(), "m");
}

#[test]
fn statuses_from_100_to_999_can_be_written() {
    for status in 100..=999u16 {
        let text = status_failure(status, "c", "");
        assert!(text.message().starts_with(&format!("c: {status} ")));
    }
}

fn printed(success: bool, bytes: &[u8]) -> Option<ClientOutput> {
    Some(ClientOutput { success, stdout: bytes.to_vec() })
}

#[test]
fn token_of_the_client_comes_first() {
    let var = || Some("env".to_string());
    assert_eq!(resolve_token(printed(true, b" tok\n"), var()).unwrap(), "tok");
    assert_eq!(resolve_token(printed(true, b"a\xffb\n"), None).unwrap(), "a\u{fffd}b");
    assert_eq!(resolve_token(printed(true, " tök\u{a0}".as_bytes()), None).unwrap(), "tök");
    assert_eq!(resolve_token(printed(true, b" \n"), var()).unwrap(), "env");
    assert_eq!(resolve_token(printed(false, b"tok"), var()).unwrap(), "env");
    assert_eq!(resolve_token(None, var()).unwrap(), "env");
    assert_eq!(token_in(true, "  x "), Some("x".to_string()));
    assert_eq!(token_in(false, "x"), None);
    assert_eq!(choose_token(Some("a".to_string()), Some("b".to_string())).unwrap(), "a");
    // The variable is taken as it is.
    assert_eq!(resolve_token(None, Some(" env ".to_string())).unwrap(), " env ");
}

#[test]
fn missing_token_is_reported() {
    for variable in [None, Some(String::new())] {
        let e = resolve_token(None, variable).unwrap_err();
        assert!(matches!(e, CliError::Auth { .. }));
        assert_eq!(e.message(), "no GitHub token found");
        assert_eq!(e.hint(), Some("authenticate with `gh auth login` or set GH_GIST_TOKEN"));
        assert_eq!(exit_code(&e), 4);
    }
}

fn io_error() -> std::io::Error {
    std::io::Error::new(std::io::ErrorKind::Other, "disk")
}

fn json_error() -> serde_json::Error {
    serde_json::from_str::<serde_json::Value>("{").unwrap_err()
}

#[test]
fn exit_codes_tell_failures_apart() {
    assert_eq!(exit_code(&CliError::auth("m")), 4);
    assert_eq!(exit_code(&CliError::auth_with_hint("m", "h")), 4);
    assert_eq!(exit_code(&CliError::api("m")), 5);
    assert_eq!(exit_code(&Operation::ReadStdin.failed(io_error())), 1);
    assert_eq!(exit_code(&CliError::Json { context: "c".to_string(), source: json_error() }), 1);
}

#[test]
fn http_failures_keep_their_source() {
    let source = reqwest::Client::new().get("not a url").build().unwrap_err();
    let e = gist::api::request_failed(Call::Get, source);
    assert_eq!(e.message(), "failed to get gist");
    assert_eq!(e.hint(), None);
    assert_eq!(exit_code(&e), 5);
    assert!(matches!(e, CliError::Http { .. }));
    for (call, expected) in [
        (Call::Create, "failed to parse create gist response"),
        (Call::List, "failed to parse list gists response"),
        (Call::Get, "failed to parse get gist response"),
        (Call::Update, "failed to parse update gist response"),
        (Call::Delete, "failed to parse delete gist response"),
    ] {
        let source = reqwest::Client::new().get("not a url").build().unwrap_err();
        assert_eq!(gist::api::response_unreadable(call, source).message(), expected);
    }
}

#[test]
fn operations_have_contexts() {
    let editor = Operation::LaunchEditor("vi".to_string());
    for (operation, expected) in [
        (Operation::ReadStdin, "failed to read from stdin"),
        (Operation::CreateTempFile, "failed to create temp file"),
        (editor, "failed to launch editor (vi)"),
        (Operation::ReadTempFile, "failed to read temp file"),
        (Operation::ReadFilename, "failed to read filename"),
        (Operation::EnableRawMode, "failed to enable raw mode"),
        (Operation::EnterAlternateScreen, "failed to enter alternate screen"),
        (Operation::CreateTerminal, "failed to create terminal"),
        (Operation::ReenableRawMode, "failed to re-enable raw mode"),
        (Operation::ReenterAlternateScreen, "failed to re-enter alternate screen"),
        (Operation::ClearTerminal, "failed to clear terminal"),
        (Operation::DrawFrame, "failed to draw frame"),
        (Operation::PollEvents, "failed to poll events"),
        (Operation::ReadEvent, "failed to read event"),
    ] {
        let e = operation.failed(io_error());
        assert_eq!(e.message(), expected);
        assert_eq!(e.hint(), None);
        match e {
            CliError::Io { source, .. } => assert_eq!(source.to_string(), "disk"),
            other => panic!("{other:?}"),
        }
    }
}

#[test]
fn success_has_a_tick() {
    assert_eq!(
        pieces(&print_success("https://x")),
        vec![(Tone::Success, "\u{2714}"), (Tone::Plain, " https://x")]
    );
}

#[test]
fn failure_is_printed_with_advice_and_causes() {
    let causes = vec!["one".to_string(), "two".to_string()];
    let e = CliError::auth_with_hint("m", "h");
    let lines = print_error(&e, &causes, true);
    assert_eq!(lines.len(), 4);
    assert_eq!(pieces(&lines[0]), vec![(Tone::Failure, "error:"), (Tone::Plain, " m")]);
    assert_eq!(
        pieces(&lines[1]),
        vec![(Tone::Plain, "  "), (Tone::Advice, "hint:"), (Tone::Plain, " "), (Tone::Dimmed, "h")]
    );
    assert_eq!(
        pieces(&lines[2]),
        vec![(Tone::Plain, "  "), (Tone::Dimmed, "caused by:"), (Tone::Plain, " one")]
    );
    assert_eq!(
        pieces(&lines[3]),
        vec![(Tone::Plain, "  "), (Tone::Dimmed, "caused by:"), (Tone::Plain, " two")]
    );
    assert_eq!(print_error(&e, &causes, false).len(), 2);
    assert_eq!(print_error(&CliError::api("m"), &causes, false).len(), 1);
    assert_eq!(print_error(&CliError::api("m"), &causes, true).len(), 3);
    assert_eq!(print_error(&CliError::api("m"), &Vec::new(), true).len(), 1);
}
