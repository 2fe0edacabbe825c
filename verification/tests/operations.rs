use mcp_client::client::McpClientManager;
use mcp_client::codec::{json_to_string, parse_json};
use mcp_client::error::McpError;
use mcp_client::http::{Answer, HttpError, HttpReply, HttpRequest, Method};
use mcp_client::json::Json;
use mcp_client::operation::{
    CallStage, InitStage, Probe, Step, ToolsStage, CACHE_NANOS, REFRESH_DELAY_MS,
};

const URL: &str = "https://example.org/mcp";
const INITIALIZE: &str = "{\"id\":1,\"jsonrpc\":\"2.0\",\"method\":\"initialize\",\"params\":{\"capabilities\":{\"roots\":{\"listChanged\":true},\"sampling\":{}},\"clientInfo\":{\"name\":\"ethereum-forum-workshop\",\"version\":\"0.1.0\"},\"protocolVersion\":\"2025-03-26\"}}";
const LIST: &str = "{\"id\":2,\"jsonrpc\":\"2.0\",\"method\":\"tools/list\",\"params\":{}}";
const ONE_TOOL: &str = "{\"result\":{\"tools\":[{\"name\":\"search\"}]}}";

fn client() -> McpClientManager {
    McpClientManager::new(Some(URL.to_string()))
}

fn status(status: u16, body: &str) -> Answer {
    Ok(HttpReply { status, headers: vec![], body: Ok(body.to_string()) })
}

fn granted(session: &str) -> Answer {
    Ok(HttpReply {
        status: 200,
        headers: vec![("mcp-session-id".to_string(), session.as_bytes().to_vec())],
        body: Ok("{\"result\":{\"serverInfo\":{\"name\":\"s\",\"version\":\"1\"}}}".to_string()),
    })
}

fn unreachable_server() -> Answer {
    Err(HttpError { connect: true, timeout: false, request: true, message: "refused".to_string() })
}

fn lasting_failure() -> Answer {
    Err(HttpError { connect: false, timeout: false, request: false, message: "bad".to_string() })
}

fn exchange<S: std::fmt::Debug, T: std::fmt::Debug>(step: Step<S, T>) -> (S, u64, HttpRequest) {
    match step {
        Step::Exchange { stage, delay_ms, request } => (stage, delay_ms, request),
        other => panic!("unexpected {:?}", other),
    }
}

fn outcome<S: std::fmt::Debug, T: std::fmt::Debug>(step: Step<S, T>) -> Result<T, McpError> {
    match step {
        Step::Done(outcome) => outcome,
        other => panic!("unexpected {:?}", other),
    }
}

fn body(request: &HttpRequest) -> String {
    json_to_string(request.body.as_ref().unwrap())
}

fn pairs(headers: &[(&str, &str)]) -> Vec<(String, String)> {
    headers.iter().map(|(n, v)| (n.to_string(), v.to_string())).collect()
}

fn base_headers() -> Vec<(String, String)> {
    pairs(&[
        ("Content-Type", "application/json"),
        ("Accept", "application/json, text/event-stream"),
        ("User-Agent", "ethereum-forum-workshop/0.1.0"),
    ])
}

/// Lists one tool at the time `now`.
fn list_one_tool(client: &mut McpClientManager, now: u128) {
    let (stage, _, _) = exchange(client.get_tools(now));
    let (stage, _, _) = exchange(client.resume_get_tools(stage, granted("s"), now));
    let tools = outcome(client.resume_get_tools(stage, status(200, ONE_TOOL), now)).unwrap();
    assert_eq!(tools.len(), 1);
}

#[test]
fn a_new_client_knows_its_address() {
    assert_eq!(McpClientManager::new(None).get_base_url(), "https://ethereum.forum/mcp");
    assert_eq!(client().get_base_url(), URL);
    assert_eq!(client().list_servers().unwrap(), vec![URL.to_string()]);
    assert!(client().is_enabled());
    assert!(!McpClientManager::new(Some(String::new())).is_enabled());
}

#[test]
fn the_request_for_a_session() {
    let (stage, delay_ms, request) = exchange(client().initialize_connection());
    assert_eq!(stage, 0);
    assert_eq!(delay_ms, 0);
    assert_eq!(request.method, Method::Post);
    assert_eq!(request.url, URL);
    assert_eq!(request.headers, base_headers());
    assert_eq!(body(&request), INITIALIZE);
}

#[test]
fn a_session_is_tried_three_times() {
    let mut c = client();
    let (stage, delay_ms, request) =
        exchange(c.resume_initialize_connection(0, unreachable_server()));
    assert_eq!((stage, delay_ms), (1, 1000));
    assert_eq!(body(&request), INITIALIZE);
    let (stage, delay_ms, request) = exchange(c.resume_initialize_connection(stage, status(503, "")));
    assert_eq!((stage, delay_ms), (2, 2000));
    assert_eq!(body(&request), INITIALIZE);
    match outcome(c.resume_initialize_connection(stage, status(500, "down"))) {
        Err(McpError::Protocol(text)) => assert_eq!(
            text,
            "Initialization failed with status: 500 Internal Server Error - Response: down"
        ),
        other => panic!("unexpected {:?}", other),
    }
}

#[test]
fn a_lasting_failure_is_not_tried_again() {
    let mut c = client();
    assert!(matches!(
        outcome(c.resume_initialize_connection(0, lasting_failure())),
        Err(McpError::Http(e)) if e.message == "bad"
    ));
    assert!(matches!(
        outcome(c.resume_initialize_connection(0, status(401, "who?"))),
        Err(McpError::Protocol(_))
    ));
}

#[test]
fn a_body_that_names_a_passing_status_is_tried_again() {
    let mut c = client();
    let (stage, delay_ms, _) =
        exchange(c.resume_initialize_connection(0, status(400, "code 500")));
    assert_eq!((stage, delay_ms), (1, 1000));
}

#[test]
fn a_greeting_must_be_json() {
    let mut c = client();
    assert!(matches!(
        outcome(c.resume_initialize_connection(0, status(200, "hello"))),
        Err(McpError::Serialization(_))
    ));
    let cut = HttpError { connect: true, timeout: true, request: true, message: "cut".to_string() };
    let answer = Ok(HttpReply { status: 200, headers: vec![], body: Err(cut) });
    assert!(matches!(
        outcome(c.resume_initialize_connection(0, answer)),
        Err(McpError::Http(e)) if e.message == "cut"
    ));
}

#[test]
fn a_session_stays_though_the_greeting_is_no_json() {
    let mut c = client();
    let answer = Ok(HttpReply {
        status: 200,
        headers: vec![("Mcp-Session-Id".to_string(), b"kept".to_vec())],
        body: Ok("hello".to_string()),
    });
    assert!(outcome(c.resume_initialize_connection(0, answer)).is_err());
    let (stage, _, request) = exchange(c.call_tool("t", &Json::Null));
    assert_eq!(stage, CallStage::Calling(0));
    assert_eq!(request.headers.last().unwrap().1, "kept");
}

#[test]
fn a_client_is_connected_once_the_server_took_it_in() {
    let mut c = client();
    assert!(!c.is_connected());
    let (stage, _, _) = exchange(c.initialize_connection());
    assert!(!c.is_connected());
    let (stage, _, _) = exchange(c.resume_initialize_connection(stage, unreachable_server()));
    assert!(!c.is_connected());
    assert!(outcome(c.resume_initialize_connection(stage, status(200, "hello"))).is_err());
    assert!(!c.is_connected());
    assert!(outcome(c.resume_initialize_connection(0, status(200, "{}"))).is_ok());
    assert!(c.is_connected());
    assert!(outcome(c.resume_initialize_connection(0, lasting_failure())).is_err());
    assert!(c.is_connected());
    c.reset_connection();
    assert!(!c.is_connected());
    assert!(c.is_enabled());
}

#[test]
fn a_client_that_moves_is_not_connected() {
    let mut c = client();
    assert!(outcome(c.resume_initialize_connection(0, granted("s"))).is_ok());
    exchange(c.init_default_client(URL.to_string()));
    assert!(c.is_connected());
    let (stage, _, _) = exchange(c.init_default_client("http://other".to_string()));
    assert!(!c.is_connected());
    let (stage, _, _) = exchange(c.resume_init(stage, unreachable_server()));
    assert!(!c.is_connected());
    assert!(outcome(c.resume_init(stage, granted("s"))).is_ok());
    assert!(c.is_connected());
}

#[test]
fn tools_and_calls_connect_the_client() {
    let mut c = client();
    list_one_tool(&mut c, 0);
    assert!(c.is_connected());
    exchange(c.get_tools(CACHE_NANOS));
    assert!(!c.is_connected());
    let (stage, _, _) = exchange(c.call_tool("t", &Json::Null));
    assert!(!c.is_connected());
    exchange(c.resume_call_tool("t", &Json::Null, stage, granted("s")));
    assert!(c.is_connected());
}

#[test]
fn the_test_of_the_server() {
    let c = client();
    let (stage, _, request) = exchange(c.test_connectivity());
    assert_eq!(stage, Probe::Get);
    assert_eq!(request.method, Method::Get);
    assert_eq!(request.url, URL);
    assert_eq!(request.headers, pairs(&[("User-Agent", "ethereum-forum-workshop/0.1.0")]));
    assert!(request.body.is_none());
    let (stage, _, request) = exchange(c.resume_test_connectivity(stage, status(500, "")));
    assert_eq!(stage, Probe::Options);
    assert_eq!(request.method, Method::Options);
    assert!(request.body.is_none());
    let (stage, _, request) = exchange(c.resume_test_connectivity(stage, unreachable_server()));
    assert_eq!(stage, Probe::Post);
    assert_eq!(request.method, Method::Post);
    assert_eq!(
        request.headers,
        pairs(&[
            ("Content-Type", "application/json"),
            ("User-Agent", "ethereum-forum-workshop/0.1.0"),
        ])
    );
    assert_eq!(body(&request), "{\"test\":\"connectivity\"}");
    assert!(outcome(c.resume_test_connectivity(stage, status(404, ""))).is_ok());
}

#[test]
fn the_test_of_a_server_that_is_away() {
    let c = client();
    match outcome(c.resume_test_connectivity(Probe::Get, unreachable_server())) {
        Err(McpError::Connection(text)) => {
            assert_eq!(text, "Basic connectivity test failed: refused")
        }
        other => panic!("unexpected {:?}", other),
    }
    match outcome(c.resume_test_connectivity(Probe::Post, lasting_failure())) {
        Err(McpError::Connection(text)) => assert_eq!(text, "POST connectivity test failed: bad"),
        other => panic!("unexpected {:?}", other),
    }
}

#[test]
fn the_start_goes_on_when_the_test_fails() {
    let mut c = client();
    let (stage, _, request) = exchange(c.init());
    assert_eq!(stage, InitStage::Probing(Probe::Get));
    assert_eq!(request.method, Method::Get);
    let (stage, delay_ms, request) = exchange(c.resume_init(stage, unreachable_server()));
    assert_eq!(stage, InitStage::Connecting(0));
    assert_eq!(delay_ms, 0);
    assert_eq!(body(&request), INITIALIZE);
    assert!(outcome(c.resume_init(stage, granted("s"))).is_ok());
}

#[test]
fn the_start_runs_the_whole_test() {
    let mut c = client();
    let (mut stage, _, _) = exchange(c.init());
    let expected =
        [InitStage::Probing(Probe::Options), InitStage::Probing(Probe::Post), InitStage::Connecting(0)];
    for wanted in expected {
        let (next, _, _) = exchange(c.resume_init(stage, status(200, "")));
        assert_eq!(next, wanted);
        stage = next;
    }
    let (stage, delay_ms, _) = exchange(c.resume_init(stage, unreachable_server()));
    assert_eq!((stage, delay_ms), (InitStage::Connecting(1), 1000));
    assert!(matches!(
        outcome(c.resume_init(stage, lasting_failure())),
        Err(McpError::Http(_))
    ));
}

#[test]
fn a_client_can_move() {
    let mut c = client();
    let (stage, _, request) = exchange(c.init_default_client("http://other".to_string()));
    assert_eq!(stage, InitStage::Probing(Probe::Get));
    assert_eq!(request.url, "http://other");
    assert_eq!(c.get_base_url(), "http://other");
}

#[test]
fn tools_are_listed_in_a_new_session() {
    let mut c = client();
    let (stage, delay_ms, request) = exchange(c.get_tools(0));
    assert_eq!((stage, delay_ms), (ToolsStage::Connecting(0), 0));
    assert_eq!(body(&request), INITIALIZE);
    let (stage, delay_ms, request) = exchange(c.resume_get_tools(stage, granted("abc"), 5));
    assert_eq!((stage, delay_ms), (ToolsStage::Listing(0), 0));
    assert_eq!(body(&request), LIST);
    let mut expected = base_headers();
    expected.push(("Mcp-Session-Id".to_string(), "abc".to_string()));
    assert_eq!(request.headers, expected);
    let tools = outcome(c.resume_get_tools(stage, status(200, ONE_TOOL), 9)).unwrap();
    assert_eq!(tools.len(), 1);
    assert_eq!(tools[0].name, "search");
}

#[test]
fn a_server_may_grant_no_session_id() {
    let mut c = client();
    let (stage, _, _) = exchange(c.get_tools(0));
    let (_, _, request) = exchange(c.resume_get_tools(stage, status(200, "{}"), 0));
    assert_eq!(body(&request), LIST);
    assert_eq!(request.headers, base_headers());
}

#[test]
fn listed_tools_are_good_for_five_minutes() {
    let mut c = client();
    list_one_tool(&mut c, 1000);
    assert_eq!(CACHE_NANOS, 300_000_000_000);
    let tools = outcome(c.get_tools(1000 + CACHE_NANOS - 1)).unwrap();
    assert_eq!(tools[0].name, "search");
    assert_eq!(outcome(c.list_all_tools(1000)).unwrap().len(), 1);
    assert_eq!(outcome(c.get_tools(0)).unwrap().len(), 1);
    let (stage, _, request) = exchange(c.get_tools(1000 + CACHE_NANOS));
    assert_eq!(stage, ToolsStage::Connecting(0));
    assert_eq!(body(&request), INITIALIZE);
    assert!(matches!(c.get_tools(1000), Step::Exchange { .. }));
}

#[test]
fn a_reset_forgets_the_tools_and_the_session() {
    let mut c = client();
    list_one_tool(&mut c, 0);
    assert!(matches!(c.call_tool("t", &Json::Null), Step::Exchange { stage: CallStage::Calling(0), .. }));
    c.reset_connection();
    assert!(matches!(c.get_tools(1), Step::Exchange { .. }));
    assert!(matches!(
        c.call_tool("t", &Json::Null),
        Step::Exchange { stage: CallStage::Connecting(0), .. }
    ));
    assert_eq!(c.get_base_url(), URL);
}

#[test]
fn an_empty_list_is_kept_too() {
    let mut c = client();
    let (stage, _, _) = exchange(c.get_tools(0));
    let (stage, _, _) = exchange(c.resume_get_tools(stage, granted("s"), 0));
    assert!(outcome(c.resume_get_tools(stage, status(200, "{}"), 0)).unwrap().is_empty());
    assert!(outcome(c.get_tools(1)).unwrap().is_empty());
}

#[test]
fn a_lost_session_is_renewed() {
    let mut c = client();
    let (stage, _, _) = exchange(c.get_tools(0));
    let (mut stage, _, _) = exchange(c.resume_get_tools(stage, granted("old"), 0));
    for (attempt, wait) in [(1, 1000), (2, 2000)] {
        let (next, delay_ms, request) = exchange(c.resume_get_tools(stage, status(404, "gone"), 0));
        assert_eq!((next, delay_ms), (ToolsStage::Listing(attempt), wait));
        assert_eq!(request.headers.last().unwrap().1, "old");
        stage = next;
    }
    let (stage, delay_ms, request) = exchange(c.resume_get_tools(stage, status(404, "gone"), 0));
    assert_eq!((stage, delay_ms), (ToolsStage::Reconnecting(0), REFRESH_DELAY_MS));
    assert_eq!(REFRESH_DELAY_MS, 500);
    assert_eq!(body(&request), INITIALIZE);
    assert_eq!(request.headers, base_headers());
    let (stage, _, request) = exchange(c.resume_get_tools(stage, granted("new"), 0));
    assert_eq!(stage, ToolsStage::Relisting(0));
    assert_eq!(request.headers.last().unwrap().1, "new");
    let tools = outcome(c.resume_get_tools(stage, status(200, ONE_TOOL), 7)).unwrap();
    assert_eq!(tools.len(), 1);
    assert_eq!(outcome(c.get_tools(7)).unwrap().len(), 1);
}

#[test]
fn a_session_is_renewed_only_once() {
    let mut c = client();
    let (stage, delay_ms, _) =
        exchange(c.resume_get_tools(ToolsStage::Relisting(1), status(404, ""), 0));
    assert_eq!((stage, delay_ms), (ToolsStage::Relisting(2), 2000));
    match outcome(c.resume_get_tools(stage, status(404, "still"), 0)) {
        Err(McpError::Protocol(text)) => assert_eq!(
            text,
            "Tools list retry failed with status: 404 Not Found\nResponse: still"
        ),
        other => panic!("unexpected {:?}", other),
    }
}

#[test]
fn other_failures_of_the_list_stand() {
    let mut c = client();
    let (stage, _, _) = exchange(c.resume_get_tools(ToolsStage::Listing(0), status(500, ""), 0));
    assert_eq!(stage, ToolsStage::Listing(1));
    assert!(matches!(
        outcome(c.resume_get_tools(ToolsStage::Listing(2), status(500, ""), 0)),
        Err(McpError::Protocol(_))
    ));
    assert!(matches!(
        outcome(c.resume_get_tools(ToolsStage::Listing(0), status(200, "x"), 0)),
        Err(McpError::Serialization(_))
    ));
    assert!(matches!(
        outcome(c.resume_get_tools(ToolsStage::Connecting(0), lasting_failure(), 0)),
        Err(McpError::Http(_))
    ));
    assert!(matches!(
        outcome(c.resume_get_tools(ToolsStage::Reconnecting(2), unreachable_server(), 0)),
        Err(McpError::Http(_))
    ));
}

#[test]
fn listing_takes_twelve_answers_at_most() {
    let mut c = client();
    let (mut stage, _, _) = exchange(c.get_tools(0));
    let script: Vec<Answer> = vec![
        unreachable_server(),
        unreachable_server(),
        granted("a"),
        status(404, ""),
        status(404, ""),
        status(404, ""),
        unreachable_server(),
        unreachable_server(),
        granted("b"),
        status(404, ""),
        status(404, ""),
    ];
    for answer in script {
        let (next, _, _) = exchange(c.resume_get_tools(stage, answer, 0));
        stage = next;
    }
    assert!(outcome(c.resume_get_tools(stage, status(404, ""), 0)).is_err());
}

#[test]
fn tools_for_a_chat_model_are_those_of_the_server() {
    let mut c = client();
    let (stage, _, _) = exchange(c.get_openai_tools(0));
    let (stage, _, _) = exchange(c.resume_get_openai_tools(stage, granted("s"), 0));
    let tools = outcome(c.resume_get_openai_tools(stage, status(200, ONE_TOOL), 0)).unwrap();
    assert_eq!(tools.len(), 1);
    assert_eq!(tools[0].function.name, "search");
    assert_eq!(outcome(c.get_openai_tools(1)).unwrap().len(), 1);
    assert!(outcome(c.resume_get_openai_tools(ToolsStage::Listing(0), lasting_failure(), 0)).is_err());
}

#[test]
fn a_call_sets_up_a_session_first() {
    let mut c = client();
    let arguments = parse_json("{\"q\":\"x\"}").unwrap();
    let (stage, _, request) = exchange(c.call_tool("search", &arguments));
    assert_eq!(stage, CallStage::Connecting(0));
    assert_eq!(body(&request), INITIALIZE);
    let (stage, delay_ms, request) =
        exchange(c.resume_call_tool("search", &arguments, stage, granted("abc")));
    assert_eq!((stage, delay_ms), (CallStage::Calling(0), 0));
    assert_eq!(request.method, Method::Post);
    assert_eq!(
        request.headers,
        pairs(&[
            ("Content-Type", "application/json"),
            ("Accept", "application/json, text/event-stream"),
            ("Mcp-Session-Id", "abc"),
        ])
    );
    assert_eq!(
        body(&request),
        "{\"id\":3,\"jsonrpc\":\"2.0\",\"method\":\"tools/call\",\"params\":{\"arguments\":{\"q\":\"x\"},\"name\":\"search\"}}"
    );
    let reply = status(200, "{\"result\":{\"content\":[{\"type\":\"text\",\"text\":\"found\"}]}}");
    let response = outcome(c.resume_call_tool("search", &arguments, stage, reply)).unwrap();
    assert_eq!(response.content[0].text, Some("found".to_string()));
    let (stage, _, _) = exchange(c.call_tool("search", &arguments));
    assert_eq!(stage, CallStage::Calling(0));
}

#[test]
fn a_call_is_tried_three_times() {
    let mut c = client();
    let (stage, delay_ms, _) =
        exchange(c.resume_call_tool("t", &Json::Null, CallStage::Calling(0), status(404, "")));
    assert_eq!((stage, delay_ms), (CallStage::Calling(1), 1000));
    let (stage, delay_ms, _) =
        exchange(c.resume_call_tool("t", &Json::Null, stage, unreachable_server()));
    assert_eq!((stage, delay_ms), (CallStage::Calling(2), 2000));
    match outcome(c.resume_call_tool("t", &Json::Null, stage, status(502, "x"))) {
        Err(McpError::Protocol(text)) => {
            assert_eq!(text, "Tool call failed with status: 502 Bad Gateway\nResponse: x")
        }
        other => panic!("unexpected {:?}", other),
    }
}

#[test]
fn a_call_that_the_tool_failed_is_not_tried_again() {
    let mut c = client();
    let reply = status(200, "{\"error\":\"500\"}");
    assert!(matches!(
        outcome(c.resume_call_tool("t", &Json::Null, CallStage::Calling(0), reply)),
        Err(McpError::Protocol(text)) if text == "Tool call error: \"500\""
    ));
    assert!(matches!(
        outcome(c.resume_call_tool("t", &Json::Null, CallStage::Connecting(0), lasting_failure())),
        Err(McpError::Http(_))
    ));
}

#[test]
fn a_call_leaves_the_kept_tools_alone() {
    let mut c = client();
    list_one_tool(&mut c, 0);
    let reply = status(200, "{\"result\":{}}");
    assert!(outcome(c.resume_call_tool("t", &Json::Null, CallStage::Calling(0), reply)).is_ok());
    assert_eq!(outcome(c.get_tools(1)).unwrap().len(), 1);
}

#[test]
fn a_refusal_for_good_ends_every_operation() {
    let mut c = client();
    assert!(outcome(c.resume_initialize_connection(0, status(401, ""))).is_err());
    assert!(outcome(c.resume_init(InitStage::Connecting(0), status(401, ""))).is_err());
    for stage in [
        ToolsStage::Connecting(0),
        ToolsStage::Listing(0),
        ToolsStage::Reconnecting(0),
        ToolsStage::Relisting(0),
    ] {
        assert!(outcome(c.resume_get_tools(stage, status(401, ""), 0)).is_err());
        assert!(outcome(c.resume_get_openai_tools(stage, status(401, ""), 0)).is_err());
    }
    for stage in [CallStage::Connecting(0), CallStage::Calling(0)] {
        assert!(outcome(c.resume_call_tool("t", &Json::Null, stage, status(401, ""))).is_err());
    }
}
