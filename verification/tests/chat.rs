use mcp_client::client::McpClientManager;
use mcp_client::codec::json_to_string;
use mcp_client::error::McpError;
use mcp_client::helper::{read_arguments, report_call, ToolCallHelper, ToolCallsStage};
use mcp_client::http::{Answer, HttpError, HttpReply, HttpRequest};
use mcp_client::operation::Step;
use mcp_client::tool::{ChatMessage, FunctionCall, McpContent, McpToolResponse, ToolCall};

fn client() -> McpClientManager {
    McpClientManager::new(Some("http://s".to_string()))
}

fn tool_call(id: &str, name: &str, arguments: &str) -> ToolCall {
    ToolCall {
        id: id.to_string(),
        function: FunctionCall { name: name.to_string(), arguments: arguments.to_string() },
    }
}

fn replied(body: &str) -> Answer {
    Ok(HttpReply {
        status: 200,
        headers: vec![("mcp-session-id".to_string(), b"s".to_vec())],
        body: Ok(body.to_string()),
    })
}

fn went_on(step: Step<ToolCallsStage, Vec<(String, String)>>) -> (ToolCallsStage, HttpRequest) {
    match step {
        Step::Exchange { stage, request, .. } => (stage, request),
        other => panic!("unexpected {:?}", other),
    }
}

fn results(step: Step<ToolCallsStage, Vec<(String, String)>>) -> Vec<(String, String)> {
    match step {
        Step::Done(outcome) => outcome.unwrap(),
        other => panic!("unexpected {:?}", other),
    }
}

fn pair(id: &str, text: &str) -> (String, String) {
    (id.to_string(), text.to_string())
}

fn content(text: Option<&str>) -> McpContent {
    McpContent {
        content_type: "text".to_string(),
        text: text.map(|t| t.to_string()),
        data: None,
    }
}

#[test]
fn a_chat_without_calls_has_no_results() {
    assert!(results(ToolCallHelper::process_tool_calls(&client(), &[])).is_empty());
    let silent = [ChatMessage::Other, ChatMessage::Assistant(None)];
    assert!(results(ToolCallHelper::process_tool_calls(&client(), &silent)).is_empty());
    let none = [ChatMessage::Assistant(Some(vec![]))];
    assert!(results(ToolCallHelper::process_tool_calls(&client(), &none)).is_empty());
}

#[test]
fn the_last_message_with_calls_counts() {
    let messages = [
        ChatMessage::Assistant(Some(vec![tool_call("1", "early", "{}")])),
        ChatMessage::Assistant(Some(vec![tool_call("2", "late", "{}")])),
        ChatMessage::Assistant(None),
        ChatMessage::Other,
    ];
    let (stage, _) = went_on(ToolCallHelper::process_tool_calls(&client(), &messages));
    assert_eq!(stage.call.id, "2");
    let empty_last = [
        ChatMessage::Assistant(Some(vec![tool_call("1", "early", "{}")])),
        ChatMessage::Assistant(Some(vec![])),
    ];
    assert!(results(ToolCallHelper::process_tool_calls(&client(), &empty_last)).is_empty());
}

#[test]
fn every_call_gets_a_result_in_order() {
    let mut c = client();
    let messages = [ChatMessage::Assistant(Some(vec![
        tool_call("a", "first", "{\"x\":1}"),
        tool_call("b", "second", "not json"),
        tool_call("a", "third", "[]"),
    ]))];
    let (stage, request) = went_on(ToolCallHelper::process_tool_calls(&c, &messages));
    assert!(json_to_string(request.body.as_ref().unwrap()).contains("initialize"));
    let (stage, request) =
        went_on(ToolCallHelper::resume_process_tool_calls(&mut c, stage, replied("{}")));
    assert_eq!(
        json_to_string(request.body.as_ref().unwrap()),
        "{\"id\":3,\"jsonrpc\":\"2.0\",\"method\":\"tools/call\",\"params\":{\"arguments\":{\"x\":1},\"name\":\"first\"}}"
    );
    let reply = replied(
        "{\"result\":{\"content\":[{\"text\":\"one\"},{\"data\":\"d\"},{\"text\":\"two\"}]}}",
    );
    let (stage, request) =
        went_on(ToolCallHelper::resume_process_tool_calls(&mut c, stage, reply));
    assert_eq!(
        json_to_string(request.body.as_ref().unwrap()),
        "{\"id\":3,\"jsonrpc\":\"2.0\",\"method\":\"tools/call\",\"params\":{\"arguments\":{},\"name\":\"second\"}}"
    );
    let (stage, _) = went_on(ToolCallHelper::resume_process_tool_calls(
        &mut c,
        stage,
        replied("{\"error\":\"no\"}"),
    ));
    assert_eq!(stage.waiting.len(), 0);
    let failure =
        HttpError { connect: false, timeout: false, request: false, message: "bad".to_string() };
    let all = results(ToolCallHelper::resume_process_tool_calls(&mut c, stage, Err(failure)));
    assert_eq!(
        all,
        vec![
            pair("a", "one\ntwo"),
            pair("b", "Tool call failed: Protocol error: Tool call error: \"no\""),
            pair("a", "Tool call failed: HTTP request error: bad"),
        ]
    );
}

#[test]
fn a_call_is_tried_again_within_the_round() {
    let mut c = client();
    let messages = [ChatMessage::Assistant(Some(vec![tool_call("a", "t", "{}")]))];
    let (stage, _) = went_on(ToolCallHelper::process_tool_calls(&c, &messages));
    let busy = Ok(HttpReply { status: 503, headers: vec![], body: Ok(String::new()) });
    match ToolCallHelper::resume_process_tool_calls(&mut c, stage, busy) {
        Step::Exchange { stage, delay_ms, .. } => {
            assert_eq!(delay_ms, 1000);
            assert_eq!(stage.call.id, "a");
            assert!(stage.results.is_empty());
        }
        other => panic!("unexpected {:?}", other),
    }
}

#[test]
fn arguments_that_are_no_json_are_an_empty_object() {
    assert_eq!(json_to_string(&read_arguments("{\"a\":[1]}")), "{\"a\":[1]}");
    assert_eq!(json_to_string(&read_arguments("7")), "7");
    assert_eq!(json_to_string(&read_arguments("")), "{}");
    assert_eq!(json_to_string(&read_arguments("{a}")), "{}");
}

#[test]
fn calls_are_reported() {
    let response = McpToolResponse {
        content: vec![content(Some("x")), content(None), content(Some("")), content(Some("y"))],
        is_error: None,
    };
    assert_eq!(report_call(&Ok(response)), "x\n\ny");
    let empty = McpToolResponse { content: vec![content(None)], is_error: None };
    assert_eq!(report_call(&Ok(empty)), "");
    assert_eq!(
        report_call(&Err(McpError::Other("why".to_string()))),
        "Tool call failed: Other error: why"
    );
}

#[test]
fn results_are_formatted() {
    assert_eq!(ToolCallHelper::format_tool_results(&[]), "");
    assert_eq!(
        ToolCallHelper::format_tool_results(&[pair("1", "one")]),
        "Tool 1 result: one"
    );
    assert_eq!(
        ToolCallHelper::format_tool_results(&[pair("1", "one"), pair("2", "")]),
        "Tool 1 result: one\n\nTool 2 result: "
    );
}

#[test]
fn formatted_results_add_up() {
    let first = vec![pair("1", "one"), pair("2", "two")];
    let second = vec![pair("3", "three")];
    let both: Vec<(String, String)> = first.iter().chain(second.iter()).cloned().collect();
    assert_eq!(
        ToolCallHelper::format_tool_results(&both),
        format!(
            "{}\n\n{}",
            ToolCallHelper::format_tool_results(&first),
            ToolCallHelper::format_tool_results(&second)
        )
    );
}
