//! What the replies of a server mean.

use crate::codec::{
    compact_text, json_to_string, json_to_string_pretty, parse_json, parsed, pretty_text,
};
use crate::error::{names_passing_status, passing_status, McpError, McpErrorView};
use crate::http::{
    answer_view, reason_phrase, show_status, status_digits, status_text, valid_answer, Answer,
    AnswerView, HttpReply, HttpReplyView,
};
use crate::json::{found_view, lemma_array_tree, text_member, Json, JsonView};
use crate::text::{
    begins_with, is_digit, lines, occurs_in, slice_to_string, stands_at, starts_with, text_lines,
    to_chars, without_digits,
};
use crate::tool::{
    McpContent, McpContentView, McpTool, McpToolResponse, McpToolResponseView, McpToolView,
};
use vstd::prelude::*;

verus! {

/// What an outcome says: a document, or an error.
pub open spec fn document_view(outcome: Result<Json, McpError>) -> Result<JsonView, McpErrorView> {
    match outcome {
        Ok(json) => Ok(json@),
        Err(e) => Err(e@),
    }
}

/// The document that a line of an event stream brings: the line is a data line, and its data
/// are JSON.
pub open spec fn line_document(line: Seq<char>) -> Option<JsonView> {
    if begins_with(line, "data: "@) {
        match parsed(line.skip(6)) {
            Ok(document) => Some(document),
            Err(_) => None,
        }
    } else {
        None
    }
}

/// The document of the first line that brings one.
pub open spec fn first_document(stream: Seq<Seq<char>>) -> Option<JsonView>
    decreases stream.len(),
{
    if stream.len() == 0 {
        None
    } else if line_document(stream[0]) is Some {
        line_document(stream[0])
    } else {
        first_document(stream.skip(1))
    }
}

/// The reply is an event stream.
pub open spec fn is_event_stream(reply: HttpReplyView) -> bool {
    match reply.header("content-type"@) {
        Some(kind) => begins_with(kind, "text/event-stream"@),
        None => false,
    }
}

/// The document that a reply brings: the first one of an event stream, or else the whole body.
pub open spec fn reply_document(reply: HttpReplyView) -> Result<JsonView, McpErrorView> {
    match reply.body {
        Err(e) => Err(McpErrorView::Http(e)),
        Ok(text) => if is_event_stream(reply) {
            match first_document(text_lines(text)) {
                Some(document) => Ok(document),
                None => Err(McpErrorView::Protocol("No valid JSON found in SSE response"@)),
            }
        } else {
            match parsed(text) {
                Ok(document) => Ok(document),
                Err(e) => Err(McpErrorView::Serialization(e)),
            }
        },
    }
}

/// An error message on a status: what failed, the status, and the body of the reply.
pub open spec fn status_message(
    what: Seq<char>,
    status: u16,
    link: Seq<char>,
    body: Seq<char>,
) -> Seq<char> {
    what + status_text(status) + link + body
}

/// What the answer to a request for a session comes to: the reply of a server that carried it
/// out.
pub open spec fn initialize_outcome(answer: AnswerView) -> Result<HttpReplyView, McpErrorView> {
    match answer {
        Err(e) => Err(McpErrorView::Http(e)),
        Ok(reply) => if reply.success() {
            Ok(reply)
        } else {
            Err(
                McpErrorView::Protocol(
                    status_message(
                        "Initialization failed with status: "@,
                        reply.status,
                        " - Response: "@,
                        reply.body_or_empty(),
                    ),
                ),
            )
        },
    }
}

/// What a request for the tools says that failed. Only the first round singles out that the
/// server no longer knows the session.
pub open spec fn list_failure(status: u16, first_round: bool) -> Seq<char> {
    if !first_round {
        "Tools list retry failed with status: "@
    } else if status == 404 {
        "Session invalid (404) - Tools list request failed with status: "@
    } else {
        "Tools list request failed with status: "@
    }
}

/// What the answer to a request for the tools comes to.
pub open spec fn list_outcome(answer: AnswerView, first_round: bool) -> Result<
    JsonView,
    McpErrorView,
> {
    match answer {
        Err(e) => Err(McpErrorView::Http(e)),
        Ok(reply) => if reply.success() {
            reply_document(reply)
        } else {
            Err(
                McpErrorView::Protocol(
                    status_message(
                        list_failure(reply.status, first_round),
                        reply.status,
                        "\nResponse: "@,
                        reply.body_or_empty(),
                    ),
                ),
            )
        },
    }
}

/// What the answer to a tool call comes to.
pub open spec fn call_outcome(answer: AnswerView) -> Result<JsonView, McpErrorView> {
    match answer {
        Err(e) => Err(McpErrorView::Http(e)),
        Ok(reply) => if reply.success() {
            reply_document(reply)
        } else {
            match reply.body {
                Err(e) => Err(McpErrorView::Http(e)),
                Ok(body) => Err(
                    McpErrorView::Protocol(
                        status_message(
                            "Tool call failed with status: "@,
                            reply.status,
                            "\nResponse: "@,
                            body,
                        ),
                    ),
                ),
            }
        },
    }
}

/// The reply object in a document: the document itself, or its first item where it is an array,
/// and null where that array is empty.
pub open spec fn reply_object(document: JsonView) -> JsonView {
    match document {
        JsonView::Array(items) => if items.len() > 0 {
            items[0]
        } else {
            JsonView::Null
        },
        _ => document,
    }
}

/// The tool that an item of a tools list describes.
pub open spec fn listed_tool(item: JsonView) -> McpToolView {
    McpToolView {
        name: match item.at("name"@).as_text() {
            Some(name) => name,
            None => Seq::empty(),
        },
        description: item.at("description"@).as_text(),
        input_schema: item.get("inputSchema"@),
    }
}

/// The tools that a document lists: none where it holds no list.
pub open spec fn listed_tools(document: JsonView) -> Seq<McpToolView> {
    match reply_object(document).at("result"@).at("tools"@).as_array() {
        Some(items) => items.map_values(|item: JsonView| listed_tool(item)),
        None => Seq::empty(),
    }
}

/// The content that an item of a tool result describes.
pub open spec fn content_item(item: JsonView) -> McpContentView {
    McpContentView {
        content_type: match item.at("type"@).as_text() {
            Some(kind) => kind,
            None => "text"@,
        },
        text: item.at("text"@).as_text(),
        data: item.at("data"@).as_text(),
    }
}

/// What a tool result says.
pub open spec fn tool_response(result: JsonView) -> McpToolResponseView {
    McpToolResponseView {
        content: match result.at("content"@).as_array() {
            Some(items) => items.map_values(|item: JsonView| content_item(item)),
            None => Seq::empty(),
        },
        is_error: result.at("isError"@).as_bool(),
    }
}

/// The text of the first content item of type `text`, where there is such an item with a text.
pub open spec fn error_detail(content: Seq<McpContentView>) -> Seq<char>
    decreases content.len(),
{
    if content.len() == 0 {
        "Unknown error"@
    } else if content[0].content_type == "text"@ {
        match content[0].text {
            Some(text) => text,
            None => "Unknown error"@,
        }
    } else {
        error_detail(content.skip(1))
    }
}

/// What the document that answers a tool call comes to.
pub open spec fn call_result(document: JsonView) -> Result<McpToolResponseView, McpErrorView> {
    let object = reply_object(document);
    match object.get("error"@) {
        Some(error) => Err(McpErrorView::Protocol("Tool call error: "@ + compact_text(error))),
        None => match object.get("result"@) {
            Some(result) => if tool_response(result).is_error == Some(true) {
                Err(
                    McpErrorView::Protocol(
                        "Tool execution error: "@ + error_detail(tool_response(result).content),
                    ),
                )
            } else {
                Ok(tool_response(result))
            },
            None => Err(
                McpErrorView::Protocol(
                    "Unexpected response format: "@ + match pretty_text(document) {
                        Some(text) => text,
                        None => Seq::empty(),
                    },
                ),
            ),
        },
    }
}

/// The document of the first line that brings one.
pub fn find_document(stream: &Vec<String>) -> (document: Option<Json>)
    ensures
        document.deep_view() == first_document(stream.deep_view()),
{
    let ghost all = stream.deep_view();
    let mut i: usize = 0;
    assert(all.skip(0) =~= all);
    while i < stream.len()
        invariant
            i <= stream@.len(),
            all == stream.deep_view(),
            first_document(all.skip(i as int)) == first_document(all),
        decreases stream.len() - i,
    {
        let ghost rest = all.skip(i as int);
        assert(rest[0] == stream@[i as int]@);
        if starts_with(stream[i].as_str(), "data: ") {
            let chars = to_chars(stream[i].as_str());
            proof {
                reveal_strlit("data: ");
            }
            let data = slice_to_string(&chars, 6, chars.len());
            assert(data@ =~= rest[0].skip(6));
            if let Ok(json) = parse_json(data.as_str()) {
                return Some(json);
            }
        }
        assert(rest.skip(1) =~= all.skip(i + 1));
        i = i + 1;
    }
    None
}

/// Whether the reply is an event stream.
fn event_stream(reply: &HttpReply) -> (stream: bool)
    ensures
        stream == is_event_stream(reply@),
{
    match reply.header("content-type") {
        Some(kind) => starts_with(kind.as_str(), "text/event-stream"),
        None => false,
    }
}

/// The document that a reply brings.
pub fn read_document(reply: HttpReply) -> (outcome: Result<Json, McpError>)
    ensures
        document_view(outcome) == reply_document(reply@),
{
    let stream = event_stream(&reply);
    match reply.body {
        Err(e) => Err(McpError::Http(e)),
        Ok(text) => if stream {
            match find_document(&lines(text.as_str())) {
                Some(json) => Ok(json),
                None => Err(
                    McpError::Protocol("No valid JSON found in SSE response".to_string()),
                ),
            }
        } else {
            match parse_json(text.as_str()) {
                Ok(json) => Ok(json),
                Err(e) => Err(McpError::Serialization(e)),
            }
        },
    }
}

/// A number that makes up a status stands in the message on that status.
proof fn lemma_status_in_message(
    what: Seq<char>,
    status: u16,
    link: Seq<char>,
    body: Seq<char>,
)
    ensures
        occurs_in(status_digits(status), status_message(what, status, link, body)),
{
    let message = status_message(what, status, link, body);
    let at = what.len() as int;
    assert(message.subrange(at, at + 3) =~= status_digits(status));
    assert(stands_at(message, status_digits(status), at));
}

/// What stands in the body stands in the message.
proof fn lemma_body_in_message(
    what: Seq<char>,
    status: u16,
    link: Seq<char>,
    body: Seq<char>,
    number: Seq<char>,
)
    requires
        occurs_in(number, body),
    ensures
        occurs_in(number, status_message(what, status, link, body)),
{
    let message = status_message(what, status, link, body);
    let at = choose|at: int| stands_at(body, number, at);
    let start = message.len() - body.len();
    assert(message.subrange(start + at, start + at + number.len()) =~= body.subrange(
        at,
        at + number.len(),
    ));
    assert(stands_at(message, number, start + at));
}

/// A number of three digits that stands in a message on a status is the status, or stands in the
/// body.
proof fn lemma_number_in_message(
    what: Seq<char>,
    status: u16,
    link: Seq<char>,
    body: Seq<char>,
    number: Seq<char>,
)
    requires
        without_digits(what),
        without_digits(reason_phrase(status)),
        without_digits(link),
        number.len() == 3,
        forall|i: int| 0 <= i < 3 ==> is_digit(#[trigger] number[i]),
        occurs_in(number, status_message(what, status, link, body)),
    ensures
        number == status_digits(status) || occurs_in(number, body),
{
    let message = status_message(what, status, link, body);
    let at = choose|at: int| stands_at(message, number, at);
    let n = what.len() as int;
    let start = message.len() - body.len();
    let found = message.subrange(at, at + 3);
    assert(forall|i: int| 0 <= i < 3 ==> number[i] == #[trigger] message[at + i]) by {
        assert forall|i: int| 0 <= i < 3 implies number[i] == #[trigger] message[at + i] by {
            assert(found[i] == message[at + i]);
        }
    }
    assert forall|k: int| 0 <= k < start && !(n <= k < n + 3) implies !is_digit(
        #[trigger] message[k],
    ) by {
        if k < n {
            assert(message[k] == what[k]);
        } else if k == n + 3 {
            assert(message[k] == ' ');
        } else if k < n + 4 + reason_phrase(status).len() {
            assert(message[k] == reason_phrase(status)[k - n - 4]);
        } else {
            assert(message[k] == link[k - n - 4 - reason_phrase(status).len()]);
        }
    }
    assert(is_digit(number[0]) && is_digit(number[1]) && is_digit(number[2]));
    assert(message[at + 0] == number[0]);
    assert(message[at + 1] == number[1]);
    assert(message[at + 2] == number[2]);
    if at == n {
        assert(found =~= status_digits(status));
    } else {
        assert(at >= start);
        assert(body.subrange(at - start, at - start + 3) =~= found);
        assert(stands_at(body, number, at - start));
    }
}

/// A message on a status names a status that passes exactly if the status is one, or the body
/// names one. What failed may itself hold digits where the status passes.
proof fn lemma_message_passes(what: Seq<char>, status: u16, link: Seq<char>, body: Seq<char>)
    requires
        100 <= status <= 999,
        passing_status(status) || without_digits(what),
        without_digits(reason_phrase(status)),
        without_digits(link),
    ensures
        names_passing_status(status_message(what, status, link, body)) <==> passing_status(status)
            || names_passing_status(body),
{
    reveal_strlit("404");
    reveal_strlit("503");
    reveal_strlit("502");
    reveal_strlit("500");
    let digits = status_digits(status);
    let message = status_message(what, status, link, body);
    assert(status == 404 <==> digits =~= "404"@);
    assert(status == 503 <==> digits =~= "503"@);
    assert(status == 502 <==> digits =~= "502"@);
    assert(status == 500 <==> digits =~= "500"@);
    lemma_status_in_message(what, status, link, body);
    if occurs_in("404"@, body) {
        lemma_body_in_message(what, status, link, body, "404"@);
    }
    if occurs_in("503"@, body) {
        lemma_body_in_message(what, status, link, body, "503"@);
    }
    if occurs_in("502"@, body) {
        lemma_body_in_message(what, status, link, body, "502"@);
    }
    if occurs_in("500"@, body) {
        lemma_body_in_message(what, status, link, body, "500"@);
    }
    if !passing_status(status) {
        if occurs_in("404"@, message) {
            lemma_number_in_message(what, status, link, body, "404"@);
        }
        if occurs_in("503"@, message) {
            lemma_number_in_message(what, status, link, body, "503"@);
        }
        if occurs_in("502"@, message) {
            lemma_number_in_message(what, status, link, body, "502"@);
        }
        if occurs_in("500"@, message) {
            lemma_number_in_message(what, status, link, body, "500"@);
        }
    }
}

/// A message on a passing status names it.
pub proof fn lemma_passing_status_named(
    what: Seq<char>,
    status: u16,
    link: Seq<char>,
    body: Seq<char>,
)
    requires
        passing_status(status),
    ensures
        names_passing_status(status_message(what, status, link, body)),
{
    reveal_strlit("404");
    reveal_strlit("503");
    reveal_strlit("502");
    reveal_strlit("500");
    let digits = status_digits(status);
    assert(digits =~= "404"@ || digits =~= "503"@ || digits =~= "502"@ || digits =~= "500"@);
    lemma_status_in_message(what, status, link, body);
}

/// The reply refuses the request in a way that may pass: with a status that does, or with a body
/// that names one.
pub open spec fn refusal_passes(reply: HttpReplyView) -> bool {
    passing_status(reply.status) || names_passing_status(reply.body_or_empty())
}

/// The reply refuses the request, and nothing of it says that this may pass.
pub open spec fn refused_for_good(reply: HttpReplyView) -> bool {
    !reply.success() && !refusal_passes(reply)
}

/// An error message on a status.
fn describe_status(what: &str, status: u16, link: &str, body: &str) -> (message: String)
    requires
        100 <= status <= 999,
    ensures
        message@ == status_message(what@, status, link@, body@),
        (passing_status(status) || without_digits(what@)) && without_digits(link@) ==> (
        names_passing_status(message@) <==> passing_status(status) || names_passing_status(body@)),
{
    let shown = show_status(status);
    proof {
        assert(shown@.skip(4) =~= reason_phrase(status));
        if (passing_status(status) || without_digits(what@)) && without_digits(link@) {
            lemma_message_passes(what@, status, link@, body@);
        }
    }
    what.to_string().concat(shown.as_str()).concat(link).concat(body)
}

/// What an outcome says: a reply, or an error.
pub open spec fn reply_view(outcome: Result<HttpReply, McpError>) -> Result<
    HttpReplyView,
    McpErrorView,
> {
    match outcome {
        Ok(reply) => Ok(reply@),
        Err(e) => Err(e@),
    }
}

/// What the answer to a request for a session comes to.
pub fn check_initialize(answer: Answer) -> (outcome: Result<HttpReply, McpError>)
    requires
        valid_answer(answer_view(answer)),
    ensures
        reply_view(outcome) == initialize_outcome(answer_view(answer)),
        answer_view(answer) matches Ok(reply) ==> !reply.success() ==> (outcome matches Err(e) && (
        e@.retryable() <==> refusal_passes(reply))),
{
    proof {
        reveal_strlit("Initialization failed with status: ");
        reveal_strlit(" - Response: ");
    }
    match answer {
        Err(e) => Err(McpError::Http(e)),
        Ok(reply) => if reply.success() {
            Ok(reply)
        } else {
            let body = reply.body_or_empty();
            Err(
                McpError::Protocol(
                    describe_status(
                        "Initialization failed with status: ",
                        reply.status,
                        " - Response: ",
                        body.as_str(),
                    ),
                ),
            )
        },
    }
}

/// What the answer to a request for the tools comes to.
pub fn check_list(answer: Answer, first_round: bool) -> (outcome: Result<Json, McpError>)
    requires
        valid_answer(answer_view(answer)),
    ensures
        document_view(outcome) == list_outcome(answer_view(answer), first_round),
        answer_view(answer) matches Ok(reply) ==> !reply.success() ==> (outcome matches Err(e) && (
        e@.retryable() <==> refusal_passes(reply))),
{
    proof {
        reveal_strlit("Tools list retry failed with status: ");
        reveal_strlit("Tools list request failed with status: ");
        reveal_strlit("\nResponse: ");
    }
    match answer {
        Err(e) => Err(McpError::Http(e)),
        Ok(reply) => if reply.success() {
            read_document(reply)
        } else {
            let what = if !first_round {
                "Tools list retry failed with status: "
            } else if reply.status == 404 {
                "Session invalid (404) - Tools list request failed with status: "
            } else {
                "Tools list request failed with status: "
            };
            let body = reply.body_or_empty();
            Err(
                McpError::Protocol(
                    describe_status(what, reply.status, "\nResponse: ", body.as_str()),
                ),
            )
        },
    }
}

/// What the answer to a tool call comes to.
pub fn check_call(answer: Answer) -> (outcome: Result<Json, McpError>)
    requires
        valid_answer(answer_view(answer)),
    ensures
        document_view(outcome) == call_outcome(answer_view(answer)),
        answer_view(answer) matches Ok(reply) ==> !reply.success() && reply.body is Ok ==> (
        outcome matches Err(e) && (e@.retryable() <==> refusal_passes(reply))),
{
    proof {
        reveal_strlit("Tool call failed with status: ");
        reveal_strlit("\nResponse: ");
    }
    match answer {
        Err(e) => Err(McpError::Http(e)),
        Ok(reply) => if reply.success() {
            read_document(reply)
        } else {
            match reply.body {
                Err(e) => Err(McpError::Http(e)),
                Ok(body) => Err(
                    McpError::Protocol(
                        describe_status(
                            "Tool call failed with status: ",
                            reply.status,
                            "\nResponse: ",
                            body.as_str(),
                        ),
                    ),
                ),
            }
        },
    }
}

/// The reply object in a document; none stands for null.
fn object_of(document: &Json) -> (object: Option<&Json>)
    ensures
        match object {
            Some(json) => json@ == reply_object(document@),
            None => reply_object(document@) == JsonView::Null,
        },
{
    match document {
        Json::Array(items) => {
            proof {
                lemma_array_tree(*items);
            }
            if items.len() > 0 {
                Some(&items[0])
            } else {
                None
            }
        },
        _ => Some(document),
    }
}

/// The member of that name; none stands for an object that is null.
fn member<'a>(object: Option<&'a Json>, key: &str) -> (value: Option<&'a Json>)
    ensures
        found_view(value) == match object {
            Some(json) => json@.get(key@),
            None => None,
        },
{
    match object {
        Some(json) => json.get(key),
        None => None,
    }
}

/// The tool that an item of a tools list describes.
fn read_tool(item: &Json) -> (tool: McpTool)
    ensures
        tool@ == listed_tool(item@),
{
    let name = match text_member(item, "name") {
        Some(name) => name,
        None => String::new(),
    };
    let input_schema = match item.get("inputSchema") {
        Some(schema) => Some(schema.clone()),
        None => None,
    };
    McpTool { name, description: text_member(item, "description"), input_schema }
}

/// The tools that a document lists.
pub fn read_tools(document: &Json) -> (tools: Vec<McpTool>)
    ensures
        tools.deep_view() == listed_tools(document@),
{
    let mut tools: Vec<McpTool> = Vec::new();
    let list = member(member(object_of(document), "result"), "tools");
    if let Some(Json::Array(items)) = list {
        proof {
            lemma_array_tree(*items);
        }
        let ghost described = items.deep_view().map_values(|item: JsonView| listed_tool(item));
        let mut i: usize = 0;
        while i < items.len()
            invariant
                i <= items@.len(),
                described == items.deep_view().map_values(|item: JsonView| listed_tool(item)),
                tools.deep_view() == described.take(i as int),
            decreases items.len() - i,
        {
            let ghost before = tools.deep_view();
            let tool = read_tool(&items[i]);
            tools.push(tool);
            assert(tools.deep_view() =~= before.push(tool@));
            assert(described.take(i + 1) =~= before.push(tool@));
            i = i + 1;
        }
        assert(described.take(i as int) =~= described);
    } else {
        assert(tools.deep_view() =~= Seq::<McpToolView>::empty());
    }
    tools
}

/// The content that an item of a tool result describes.
fn read_content(item: &Json) -> (content: McpContent)
    ensures
        content@ == content_item(item@),
{
    let content_type = match text_member(item, "type") {
        Some(kind) => kind,
        None => "text".to_string(),
    };
    McpContent {
        content_type,
        text: text_member(item, "text"),
        data: text_member(item, "data"),
    }
}

/// What a tool result says.
pub fn read_response(result: &Json) -> (response: McpToolResponse)
    ensures
        response@ == tool_response(result@),
{
    let mut content: Vec<McpContent> = Vec::new();
    let list = result.get("content");
    if let Some(Json::Array(items)) = list {
        proof {
            lemma_array_tree(*items);
        }
        let ghost described = items.deep_view().map_values(|item: JsonView| content_item(item));
        let mut i: usize = 0;
        while i < items.len()
            invariant
                i <= items@.len(),
                described == items.deep_view().map_values(|item: JsonView| content_item(item)),
                content.deep_view() == described.take(i as int),
            decreases items.len() - i,
        {
            let ghost before = content.deep_view();
            let next = read_content(&items[i]);
            content.push(next);
            assert(content.deep_view() =~= before.push(next@));
            assert(described.take(i + 1) =~= before.push(next@));
            i = i + 1;
        }
        assert(described.take(i as int) =~= described);
    } else {
        assert(content.deep_view() =~= Seq::<McpContentView>::empty());
    }
    let is_error = match result.get("isError") {
        Some(flag) => flag.as_bool(),
        None => None,
    };
    McpToolResponse { content, is_error }
}

/// The text of the first content item of type `text`.
pub fn find_error_detail(content: &Vec<McpContent>) -> (detail: String)
    ensures
        detail@ == error_detail(content.deep_view()),
{
    let ghost all = content.deep_view();
    let kind = "text".to_string();
    let mut i: usize = 0;
    assert(all.skip(0) =~= all);
    while i < content.len()
        invariant
            i <= content@.len(),
            kind@ == "text"@,
            all == content.deep_view(),
            error_detail(all.skip(i as int)) == error_detail(all),
        decreases content.len() - i,
    {
        let ghost rest = all.skip(i as int);
        assert(rest[0] == content@[i as int]@);
        if content[i].content_type == kind {
            return match &content[i].text {
                Some(text) => text.clone(),
                None => "Unknown error".to_string(),
            };
        }
        assert(rest.skip(1) =~= all.skip(i + 1));
        i = i + 1;
    }
    "Unknown error".to_string()
}

/// What an outcome says: a tool response, or an error.
pub open spec fn response_view(outcome: Result<McpToolResponse, McpError>) -> Result<
    McpToolResponseView,
    McpErrorView,
> {
    match outcome {
        Ok(response) => Ok(response@),
        Err(e) => Err(e@),
    }
}

/// What the document that answers a tool call comes to.
pub fn read_call_result(document: &Json) -> (outcome: Result<McpToolResponse, McpError>)
    ensures
        response_view(outcome) == call_result(document@),
{
    let object = object_of(document);
    if let Some(error) = member(object, "error") {
        let shown = json_to_string(error);
        return Err(McpError::Protocol("Tool call error: ".to_string().concat(shown.as_str())));
    }
    match member(object, "result") {
        Some(result) => {
            let response = read_response(result);
            if let Some(true) = response.is_error {
                let detail = find_error_detail(&response.content);
                Err(
                    McpError::Protocol(
                        "Tool execution error: ".to_string().concat(detail.as_str()),
                    ),
                )
            } else {
                Ok(response)
            }
        },
        None => {
            let shown = match json_to_string_pretty(document) {
                Some(text) => text,
                None => String::new(),
            };
            Err(
                McpError::Protocol(
                    "Unexpected response format: ".to_string().concat(shown.as_str()),
                ),
            )
        },
    }
}

} // verus!
