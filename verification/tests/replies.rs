use mcp_client::client::McpClientManager;
use mcp_client::codec::{json_to_string, parse_json};
use mcp_client::error::McpError;
use mcp_client::http::{HttpError, HttpReply};
use mcp_client::reply::{
    check_call, check_initialize, check_list, find_document, read_call_result, read_document,
    read_tools,
};
use mcp_client::tool::{to_openai_tools, McpToolResponse};

fn typed(kind: &str, body: &str) -> HttpReply {
    HttpReply {
        status: 200,
        headers: vec![("content-type".to_string(), kind.as_bytes().to_vec())],
        body: Ok(body.to_string()),
    }
}

fn failed(status: u16, body: &str) -> HttpReply {
    HttpReply { status, headers: vec![], body: Ok(body.to_string()) }
}

fn broken_body(status: u16) -> HttpReply {
    let error =
        HttpError { connect: false, timeout: true, request: false, message: "cut".to_string() };
    HttpReply { status, headers: vec![], body: Err(error) }
}

fn document(reply: HttpReply) -> String {
    json_to_string(&read_document(reply).unwrap())
}

fn protocol(error: McpError) -> String {
    match error {
        McpError::Protocol(text) => text,
        other => panic!("unexpected {:?}", other),
    }
}

fn call(text: &str) -> Result<McpToolResponse, McpError> {
    read_call_result(&parse_json(text).unwrap())
}

#[test]
fn a_plain_reply_is_its_body() {
    assert_eq!(document(typed("application/json", "{\"a\":1}")), "{\"a\":1}");
    assert_eq!(document(failed(200, " [1, 2] ")), "[1,2]");
}

#[test]
fn a_plain_reply_that_is_no_json_fails() {
    assert!(matches!(
        read_document(typed("application/json", "data: {}")),
        Err(McpError::Serialization(_))
    ));
}

#[test]
fn an_event_stream_is_its_first_document() {
    let body = "event: message\r\ndata: nonsense\ndata:{\"no\":0}\n: data: 1\ndata: {\"a\":1}\n\ndata: 2\n";
    assert_eq!(document(typed("text/event-stream", body)), "{\"a\":1}");
    assert_eq!(document(typed("text/event-stream; charset=utf-8", body)), "{\"a\":1}");
}

#[test]
fn an_event_stream_like_the_plain_reply() {
    let text = "{\"result\":{\"tools\":[]}}";
    let stream = format!("data: {}\n\n", text);
    assert_eq!(
        document(typed("text/event-stream", &stream)),
        document(typed("application/json", text))
    );
}

#[test]
fn an_event_stream_without_document_fails() {
    for body in ["", "data: \n", "event: ping\n\n", "{\"a\":1}"] {
        let error = read_document(typed("text/event-stream", body)).unwrap_err();
        assert_eq!(protocol(error), "No valid JSON found in SSE response");
    }
}

#[test]
fn the_first_line_with_a_document_counts() {
    let stream: Vec<String> =
        ["data: x", "data: 1", "data: 2"].iter().map(|l| l.to_string()).collect();
    assert_eq!(json_to_string(&find_document(&stream).unwrap()), "1");
    assert!(find_document(&stream[..1].to_vec()).is_none());
}

#[test]
fn a_body_that_cannot_be_read_fails() {
    match read_document(broken_body(200)) {
        Err(McpError::Http(e)) => assert_eq!(e.message, "cut"),
        other => panic!("unexpected {:?}", other),
    }
}

#[test]
fn a_refused_session_names_status_and_body() {
    assert_eq!(
        protocol(check_initialize(Ok(failed(503, "busy"))).unwrap_err()),
        "Initialization failed with status: 503 Service Unavailable - Response: busy"
    );
    assert_eq!(
        protocol(check_initialize(Ok(broken_body(401))).unwrap_err()),
        "Initialization failed with status: 401 Unauthorized - Response: "
    );
    assert!(check_initialize(Ok(broken_body(204))).is_ok());
}

#[test]
fn a_refused_list_names_status_and_body() {
    assert_eq!(
        protocol(check_list(Ok(failed(500, "oops")), true).unwrap_err()),
        "Tools list request failed with status: 500 Internal Server Error\nResponse: oops"
    );
    assert_eq!(
        protocol(check_list(Ok(failed(404, "gone")), true).unwrap_err()),
        "Session invalid (404) - Tools list request failed with status: 404 Not Found\nResponse: gone"
    );
    assert_eq!(
        protocol(check_list(Ok(failed(404, "gone")), false).unwrap_err()),
        "Tools list retry failed with status: 404 Not Found\nResponse: gone"
    );
    assert_eq!(
        protocol(check_list(Ok(broken_body(400)), false).unwrap_err()),
        "Tools list retry failed with status: 400 Bad Request\nResponse: "
    );
}

#[test]
fn a_refused_call_names_status_and_body() {
    assert_eq!(
        protocol(check_call(Ok(failed(502, "x"))).unwrap_err()),
        "Tool call failed with status: 502 Bad Gateway\nResponse: x"
    );
    assert!(matches!(check_call(Ok(broken_body(502))), Err(McpError::Http(e)) if e.timeout));
    assert!(matches!(check_call(Ok(failed(200, "{}"))), Ok(_)));
}

#[test]
fn tools_are_listed() {
    let listed = parse_json(
        "{\"result\":{\"tools\":[{\"name\":\"a\",\"description\":\"does a\",\"inputSchema\":{\"type\":\"object\"}},{\"name\":5,\"description\":null,\"inputSchema\":null},7]}}",
    )
    .unwrap();
    let tools = read_tools(&listed);
    assert_eq!(tools.len(), 3);
    assert_eq!(tools[0].name, "a");
    assert_eq!(tools[0].description, Some("does a".to_string()));
    assert_eq!(
        json_to_string(tools[0].input_schema.as_ref().unwrap()),
        "{\"type\":\"object\"}"
    );
    assert_eq!(tools[1].name, "");
    assert_eq!(tools[1].description, None);
    assert_eq!(json_to_string(tools[1].input_schema.as_ref().unwrap()), "null");
    assert_eq!(tools[2].name, "");
    assert!(tools[2].input_schema.is_none());
}

#[test]
fn tools_are_listed_from_the_first_item_of_an_array() {
    let listed =
        parse_json("[{\"result\":{\"tools\":[{\"name\":\"a\"}]}},{\"result\":{\"tools\":[]}}]")
            .unwrap();
    let tools = read_tools(&listed);
    assert_eq!(tools.len(), 1);
    assert_eq!(tools[0].name, "a");
}

#[test]
fn no_list_means_no_tools() {
    for text in ["[]", "{}", "null", "{\"result\":{\"tools\":{}}}", "{\"error\":{}}", "[[]]"] {
        assert!(read_tools(&parse_json(text).unwrap()).is_empty(), "{}", text);
    }
}

#[test]
fn tools_take_the_form_of_a_chat_model() {
    let listed = parse_json(
        "{\"result\":{\"tools\":[{\"name\":\"a\",\"description\":\"d\",\"inputSchema\":{}},{\"name\":\"b\"}]}}",
    )
    .unwrap();
    let converted = to_openai_tools(&read_tools(&listed));
    assert_eq!(converted.len(), 2);
    assert_eq!(converted[0].function.name, "a");
    assert_eq!(converted[0].function.description, Some("d".to_string()));
    assert_eq!(json_to_string(converted[0].function.parameters.as_ref().unwrap()), "{}");
    assert_eq!(converted[0].function.strict, None);
    assert_eq!(converted[1].function.name, "b");
    assert!(converted[1].function.description.is_none());
    assert!(converted[1].function.parameters.is_none());
}

#[test]
fn a_result_is_read() {
    let response = call(
        "{\"result\":{\"content\":[{\"type\":\"image\",\"data\":\"AAA\"},{\"text\":\"hi\"},3],\"isError\":false}}",
    )
    .unwrap();
    assert_eq!(response.is_error, Some(false));
    assert_eq!(response.content.len(), 3);
    assert_eq!(response.content[0].content_type, "image");
    assert_eq!(response.content[0].text, None);
    assert_eq!(response.content[0].data, Some("AAA".to_string()));
    assert_eq!(response.content[1].content_type, "text");
    assert_eq!(response.content[1].text, Some("hi".to_string()));
    assert_eq!(response.content[2].content_type, "text");
    assert_eq!(response.content[2].text, None);
}

#[test]
fn a_result_may_lack_everything() {
    for text in ["{\"result\":{}}", "{\"result\":null}", "{\"result\":{\"content\":\"x\",\"isError\":1}}"] {
        let response = call(text).unwrap();
        assert!(response.content.is_empty());
        assert_eq!(response.is_error, None);
    }
}

#[test]
fn an_error_member_fails_the_call() {
    assert_eq!(
        protocol(call("{\"result\":{},\"error\":{\"message\":\"m\",\"code\":-1}}").unwrap_err()),
        "Tool call error: {\"code\":-1,\"message\":\"m\"}"
    );
    assert_eq!(protocol(call("{\"error\":null}").unwrap_err()), "Tool call error: null");
}

#[test]
fn a_tool_may_say_that_it_failed() {
    assert_eq!(
        protocol(
            call("{\"result\":{\"content\":[{\"type\":\"image\",\"text\":\"no\"},{\"type\":\"text\",\"text\":\"why\"},{\"type\":\"text\",\"text\":\"later\"}],\"isError\":true}}")
                .unwrap_err()
        ),
        "Tool execution error: why"
    );
    assert_eq!(
        protocol(
            call("{\"result\":{\"content\":[{\"type\":\"text\"},{\"type\":\"text\",\"text\":\"later\"}],\"isError\":true}}")
                .unwrap_err()
        ),
        "Tool execution error: Unknown error"
    );
    assert_eq!(
        protocol(call("{\"result\":{\"isError\":true}}").unwrap_err()),
        "Tool execution error: Unknown error"
    );
}

#[test]
fn a_call_answered_by_an_array_reads_its_first_item() {
    assert!(call("[{\"result\":{}}]").is_ok());
    assert_eq!(protocol(call("[{\"error\":1}]").unwrap_err()), "Tool call error: 1");
}

#[test]
fn neither_result_nor_error_shows_the_whole_document() {
    assert_eq!(
        protocol(call("{\"b\":1,\"a\":[]}").unwrap_err()),
        "Unexpected response format: {\n  \"a\": [],\n  \"b\": 1\n}"
    );
    assert_eq!(
        protocol(call("[]").unwrap_err()),
        "Unexpected response format: []"
    );
    assert_eq!(
        protocol(call("[{}]").unwrap_err()),
        "Unexpected response format: [\n  {}\n]"
    );
}

#[test]
fn a_refusal_passes_by_its_status_or_its_body() {
    for status in 100u16..=999 {
        if (200..300).contains(&status) {
            continue;
        }
        let passing = [404, 500, 502, 503].contains(&status);
        for (body, named) in [("", false), ("40 4", false), ("4", false), ("id 15003", true)] {
            let errors = [
                check_initialize(Ok(failed(status, body))).unwrap_err(),
                check_list(Ok(failed(status, body)), true).unwrap_err(),
                check_list(Ok(failed(status, body)), false).unwrap_err(),
                check_call(Ok(failed(status, body))).unwrap_err(),
            ];
            for error in errors {
                let again = McpClientManager::is_retryable_error(&error);
                assert_eq!(again, passing || named, "{:?}", error);
            }
        }
    }
}

#[test]
fn a_request_that_was_carried_out_is_not_made_again() {
    let empty = check_list(Ok(typed("text/event-stream", "500")), true).unwrap_err();
    assert!(!McpClientManager::is_retryable_error(&empty));
    let broken = check_call(Ok(typed("application/json", "404 503"))).unwrap_err();
    assert!(!McpClientManager::is_retryable_error(&broken));
}
