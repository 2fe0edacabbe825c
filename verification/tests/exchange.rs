use mcp_client::client::McpClientManager;
use mcp_client::codec::parse_json;
use mcp_client::error::McpError;
use mcp_client::http::{show_status, HttpError, HttpReply};
use mcp_client::retry::{Attempt, BASE_DELAY_MS, MAX_RETRIES};

fn reply(status: u16, headers: Vec<(&str, &[u8])>, body: &str) -> HttpReply {
    HttpReply {
        status,
        headers: headers.into_iter().map(|(n, v)| (n.to_string(), v.to_vec())).collect(),
        body: Ok(body.to_string()),
    }
}

fn transport(connect: bool, timeout: bool, request: bool) -> HttpError {
    HttpError { connect, timeout, request, message: "no luck".to_string() }
}

#[test]
fn statuses_show_with_their_reason() {
    assert_eq!(show_status(200), "200 OK");
    assert_eq!(show_status(404), "404 Not Found");
    assert_eq!(show_status(503), "503 Service Unavailable");
    assert_eq!(show_status(100), "100 Continue");
    assert_eq!(show_status(799), "799 <unknown status code>");
    assert_eq!(show_status(999), "999 <unknown status code>");
}

#[test]
fn success_is_two_hundred_and_something() {
    assert!(!reply(199, vec![], "").success());
    assert!(reply(200, vec![], "").success());
    assert!(reply(299, vec![], "").success());
    assert!(!reply(300, vec![], "").success());
}

#[test]
fn header_names_ignore_case() {
    let r = reply(200, vec![("mcp-session-id", b"abc"), ("Content-Type", b"text/plain")], "");
    assert_eq!(r.header("Mcp-Session-Id"), Some("abc".to_string()));
    assert_eq!(r.header("mcp-session-id"), Some("abc".to_string()));
    assert_eq!(r.header("content-type"), Some("text/plain".to_string()));
    assert_eq!(r.header("content-typ"), None);
    assert_eq!(r.header("accept"), None);
}

#[test]
fn the_first_header_of_a_name_counts() {
    let r = reply(200, vec![("a", b"1"), ("A", b"2")], "");
    assert_eq!(r.header("a"), Some("1".to_string()));
    let hidden = reply(200, vec![("a", b"\x01"), ("a", b"2")], "");
    assert_eq!(hidden.header("a"), None);
}

#[test]
fn header_values_are_visible_ascii() {
    let r = reply(
        200,
        vec![("tab", b"a\tb"), ("umlaut", "ä".as_bytes()), ("del", b"\x7f"), ("tilde", b" ~")],
        "",
    );
    assert_eq!(r.header("tab"), Some("a\tb".to_string()));
    assert_eq!(r.header("umlaut"), None);
    assert_eq!(r.header("del"), None);
    assert_eq!(r.header("tilde"), Some(" ~".to_string()));
}

#[test]
fn an_unreadable_body_counts_as_empty() {
    let mut r = reply(500, vec![], "text");
    assert_eq!(r.body_or_empty(), "text");
    r.body = Err(transport(false, false, false));
    assert_eq!(r.body_or_empty(), "");
}

#[test]
fn transport_errors_become_plain() {
    let error = reqwest::Client::new().get("no address").build().unwrap_err();
    let plain = HttpError::of(&error);
    assert!(!plain.connect);
    assert!(!plain.timeout);
    assert!(!plain.request);
    assert_eq!(plain.message, "builder error");
    assert_eq!(plain.message, error.to_string());
}

#[test]
fn errors_speak() {
    assert_eq!(
        McpError::Http(transport(true, false, false)).message(),
        "HTTP request error: no luck"
    );
    assert_eq!(McpError::Connection("c".to_string()).message(), "Connection failed: c");
    assert_eq!(McpError::Protocol("p".to_string()).message(), "Protocol error: p");
    assert_eq!(McpError::Initialization("i".to_string()).message(), "Initialization failed: i");
    assert_eq!(McpError::Other("o".to_string()).message(), "Other error: o");
    let broken = parse_json("{").unwrap_err();
    let words = broken.to_string();
    assert_eq!(
        McpError::Serialization(broken).message(),
        format!("Serialization error: {}", words)
    );
    assert_eq!(words, "EOF while parsing an object at line 1 column 1");
}

#[test]
fn errors_are_wrapped() {
    assert!(matches!(McpError::from(transport(false, true, false)), McpError::Http(e) if e.timeout));
    assert!(matches!(
        McpError::from(parse_json("x").unwrap_err()),
        McpError::Serialization(_)
    ));
}

#[test]
fn passing_failures_are_worth_another_try() {
    assert!(McpClientManager::is_retryable_error(&McpError::Http(transport(true, false, false))));
    assert!(McpClientManager::is_retryable_error(&McpError::Http(transport(false, true, false))));
    assert!(McpClientManager::is_retryable_error(&McpError::Http(transport(false, false, true))));
    assert!(McpClientManager::is_retryable_error(&McpError::Connection(String::new())));
    for status in ["404", "503", "502", "500"] {
        let error = McpError::Protocol(format!("status: {} and so on", status));
        assert!(McpClientManager::is_retryable_error(&error));
    }
}

#[test]
fn other_failures_stand() {
    assert!(!McpClientManager::is_retryable_error(&McpError::Http(transport(false, false, false))));
    assert!(!McpClientManager::is_retryable_error(&McpError::Protocol("401".to_string())));
    assert!(!McpClientManager::is_retryable_error(&McpError::Protocol(String::new())));
    assert!(!McpClientManager::is_retryable_error(&McpError::Initialization("404".to_string())));
    assert!(!McpClientManager::is_retryable_error(&McpError::Other("500".to_string())));
    let broken = McpError::Serialization(parse_json("404 x").unwrap_err());
    assert!(!McpClientManager::is_retryable_error(&broken));
}

#[test]
fn waits_double_and_tries_run_out() {
    assert_eq!(MAX_RETRIES, 3);
    assert_eq!(BASE_DELAY_MS, 1000);
    let fail = || -> Result<u8, McpError> { Err(McpError::Connection("down".to_string())) };
    match McpClientManager::retry_with_backoff(0, fail()) {
        Attempt::Again { attempt, delay_ms } => assert_eq!((attempt, delay_ms), (1, 1000)),
        other => panic!("unexpected {:?}", other),
    }
    match McpClientManager::retry_with_backoff(1, fail()) {
        Attempt::Again { attempt, delay_ms } => assert_eq!((attempt, delay_ms), (2, 2000)),
        other => panic!("unexpected {:?}", other),
    }
    match McpClientManager::retry_with_backoff(2, fail()) {
        Attempt::Finished(Err(McpError::Connection(text))) => assert_eq!(text, "down"),
        other => panic!("unexpected {:?}", other),
    }
}

#[test]
fn success_and_lasting_failures_end_the_tries() {
    assert!(matches!(
        McpClientManager::retry_with_backoff(0, Ok(5u8)),
        Attempt::Finished(Ok(5))
    ));
    let lasting: Result<u8, McpError> = Err(McpError::Other("no".to_string()));
    assert!(matches!(
        McpClientManager::retry_with_backoff(0, lasting),
        Attempt::Finished(Err(McpError::Other(_)))
    ));
}

#[test]
fn no_words_of_a_status_hold_a_digit() {
    for status in 100u16..=999 {
        let text = show_status(status);
        assert_eq!(text[..4].to_string(), format!("{} ", status));
        assert!(!text[4..].chars().any(|c| c.is_ascii_digit()), "{}", text);
    }
}
