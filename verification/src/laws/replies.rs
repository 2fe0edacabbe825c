//! What the answers of a server mean.

use crate::codec::{compact_text, parsed, pretty_text};
use crate::error::McpErrorView;
use crate::http::{status_text, HttpErrorView, HttpReplyView};
use crate::json::JsonView;
use crate::laws::{law_first_document, law_no_document};
use crate::reply::{
    call_outcome, call_result, error_detail, initialize_outcome, line_document,
    list_outcome, listed_tools, refusal_passes, refused_for_good, reply_document, tool_response,
};
use crate::text::{occurs_in, text_lines};
use crate::tool::McpContentView;
use vstd::prelude::*;

verus! {

/// The member of a document under a key, where the document is an object that has one.
pub open spec fn member(json: JsonView, key: Seq<char>) -> Option<JsonView> {
    if json is Object && json->Object_0.contains_key(key) {
        Some(json->Object_0[key])
    } else {
        None
    }
}

/// The text of the member of a document under a key, where it has such a member and that is a
/// string.
pub open spec fn member_text(json: JsonView, key: Seq<char>) -> Option<Seq<char>> {
    if member(json, key) is Some && member(json, key)->0 is Text {
        Some(member(json, key)->0->Text_0)
    } else {
        None
    }
}

/// The object is what a document brings: the document itself, or the first item of an array; an
/// empty array brings null.
pub open spec fn brings(document: JsonView, object: JsonView) -> bool {
    &&& document !is Array ==> object == document
    &&& document matches JsonView::Array(items) ==> {
        &&& items.len() > 0 ==> object == items[0]
        &&& items.len() == 0 ==> object is Null
    }
}

// What an answer comes to.

/// Where there is no answer, every request comes to the failure that left it without one.
pub proof fn law_no_answer(e: HttpErrorView, first_round: bool)
    ensures
        initialize_outcome(Err(e)) == Err::<HttpReplyView, _>(McpErrorView::Http(e)),
        list_outcome(Err(e), first_round) == Err::<JsonView, _>(McpErrorView::Http(e)),
        call_outcome(Err(e)) == Err::<JsonView, _>(McpErrorView::Http(e)),
{
}

/// A refusal is told with what was asked for, the status, and the body. A refused list in the
/// first round says with status 404, and only with that, that the session is invalid; in the second
/// round it says that this is a further try. Of a refused call whose body cannot be read only this
/// is told.
pub proof fn law_refusals_are_told(reply: HttpReplyView)
    requires
        reply.status < 200 || reply.status >= 300,
    ensures
        initialize_outcome(Ok(reply)) == Err::<HttpReplyView, _>(
            McpErrorView::Protocol(
                "Initialization failed with status: "@ + status_text(reply.status)
                    + " - Response: "@ + shown_body(reply),
            ),
        ),
        reply.status == 404 ==> list_outcome(Ok(reply), true) == Err::<JsonView, _>(
            McpErrorView::Protocol(
                "Session invalid (404) - Tools list request failed with status: "@ + status_text(
                    reply.status,
                ) + "\nResponse: "@ + shown_body(reply),
            ),
        ),
        reply.status != 404 ==> list_outcome(Ok(reply), true) == Err::<JsonView, _>(
            McpErrorView::Protocol(
                "Tools list request failed with status: "@ + status_text(reply.status)
                    + "\nResponse: "@ + shown_body(reply),
            ),
        ),
        list_outcome(Ok(reply), false) == Err::<JsonView, _>(
            McpErrorView::Protocol(
                "Tools list retry failed with status: "@ + status_text(reply.status)
                    + "\nResponse: "@ + shown_body(reply),
            ),
        ),
        reply.body matches Ok(text) ==> call_outcome(Ok(reply)) == Err::<JsonView, _>(
            McpErrorView::Protocol(
                "Tool call failed with status: "@ + status_text(reply.status) + "\nResponse: "@
                    + text,
            ),
        ),
        reply.body matches Err(e) ==> call_outcome(Ok(reply)) == Err::<JsonView, _>(
            McpErrorView::Http(e),
        ),
{
}

/// The body of a reply as a message shows it: nothing of one that cannot be read.
pub open spec fn shown_body(reply: HttpReplyView) -> Seq<char> {
    if reply.body is Ok {
        reply.body->Ok_0
    } else {
        Seq::empty()
    }
}

/// A refusal may pass exactly if its status is one of four, or the number of one of these stands in
/// its body; otherwise it is one for good.
pub proof fn law_refusals_that_pass(reply: HttpReplyView)
    ensures
        refusal_passes(reply) <==> {
            ||| reply.status == 404
            ||| reply.status == 500
            ||| reply.status == 502
            ||| reply.status == 503
            ||| occurs_in("404"@, shown_body(reply))
            ||| occurs_in("500"@, shown_body(reply))
            ||| occurs_in("502"@, shown_body(reply))
            ||| occurs_in("503"@, shown_body(reply))
        },
        refused_for_good(reply) <==> (reply.status < 200 || reply.status > 299) && !refusal_passes(
            reply,
        ),
{
}

/// A server that carries out the request for a session is taken at its word: its reply is what the
/// request comes to, and its body is not looked at yet.
pub proof fn law_session_granted(reply: HttpReplyView)
    requires
        200 <= reply.status <= 299,
    ensures
        initialize_outcome(Ok(reply)) == Ok::<_, McpErrorView>(reply),
{
}

/// The type of a reply says that it is an event stream: it begins with that name.
pub open spec fn stream_type(kind: Seq<char>) -> bool {
    exists|more: Seq<char>| kind == #[trigger] ("text/event-stream"@ + more)
}

/// The header of a reply says that it is an event stream.
pub open spec fn declared_stream(reply: HttpReplyView) -> bool {
    reply.header("content-type"@) is Some && stream_type(reply.header("content-type"@)->0)
}

/// The two ways to say that a reply is an event stream agree.
proof fn lemma_declared_stream(reply: HttpReplyView)
    ensures
        crate::reply::is_event_stream(reply) == declared_stream(reply),
{
    if let Some(kind) = reply.header("content-type"@) {
        let name = "text/event-stream"@;
        if crate::reply::is_event_stream(reply) {
            assert(kind =~= name + kind.skip(name.len() as int)) by {
                assert(kind.subrange(0, name.len() as int) =~= name);
                assert forall|i: int| 0 <= i < name.len() implies kind[i] == name[i] by {
                    assert(kind.subrange(0, name.len() as int)[i] == kind[i]);
                }
            }
        }
        if stream_type(kind) {
            let more = choose|more: Seq<char>| kind == #[trigger] (name + more);
            assert(kind.subrange(0, name.len() as int) =~= name);
        }
    }
}

/// A request that was carried out comes, where its header declares no event stream, to the document
/// that the whole body is: of whatever other type the reply says it is, or of none. A body that
/// is no JSON, or that cannot be read, is the failure.
pub proof fn law_plain_reply(reply: HttpReplyView, first_round: bool)
    requires
        200 <= reply.status <= 299,
        !declared_stream(reply),
    ensures
        list_outcome(Ok(reply), first_round) == call_outcome(Ok(reply)),
        reply.body matches Ok(text) ==> {
            &&& parsed(text) matches Ok(document) ==> call_outcome(Ok(reply)) == Ok::<
                _,
                McpErrorView,
            >(document)
            &&& parsed(text) matches Err(e) ==> call_outcome(Ok(reply)) == Err::<JsonView, _>(
                McpErrorView::Serialization(e),
            )
        },
        reply.body matches Err(e) ==> call_outcome(Ok(reply)) == Err::<JsonView, _>(
            McpErrorView::Http(e),
        ),
{
    lemma_declared_stream(reply);
}

/// What a reply brings depends on its headers and its body alone, and is what every request that was
/// carried out comes to.
pub proof fn law_reading_a_reply(reply: HttpReplyView, status: u16, first_round: bool)
    ensures
        reply_document(reply) == reply_document(HttpReplyView { status, ..reply }),
        200 <= reply.status <= 299 ==> reply_document(reply) == call_outcome(Ok(reply))
            && reply_document(reply) == list_outcome(Ok(reply), first_round),
{
}

/// The line is a data line with that data.
pub open spec fn data_line(line: Seq<char>, data: Seq<char>) -> bool {
    line == "data: "@ + data
}

/// A data line brings what its data are, and another line nothing.
proof fn lemma_line_document(line: Seq<char>)
    ensures
        line_document(line) is None <==> forall|data: Seq<char>| #[trigger]
            data_line(line, data) ==> parsed(data) is Err,
        forall|data: Seq<char>| #[trigger]
            data_line(line, data) && parsed(data) is Ok ==> line_document(line) == Some(
                parsed(data)->Ok_0,
            ),
{
    reveal_strlit("data: ");
    let mark = "data: "@;
    assert(mark.len() == 6);
    assert forall|data: Seq<char>| #[trigger] data_line(line, data) implies line.skip(6) == data
        && crate::text::begins_with(line, mark) by {
        assert(line.skip(6) =~= data);
        assert(line.subrange(0, 6) =~= mark);
    }
    if crate::text::begins_with(line, mark) {
        assert forall|i: int| 0 <= i < 6 implies line[i] == mark[i] by {
            assert(line.subrange(0, 6)[i] == line[i]);
        }
        assert(line =~= mark + line.skip(6));
        assert(data_line(line, line.skip(6)));
    }
}

/// A request that was carried out comes, where its header declares an event stream, to the document
/// on the first line that is `data: ` and a JSON text: the lines before it are passed over, those
/// behind it do not matter.
pub proof fn law_stream_reply(
    reply: HttpReplyView,
    text: Seq<char>,
    i: int,
    data: Seq<char>,
    first_round: bool,
)
    requires
        200 <= reply.status <= 299,
        declared_stream(reply),
        reply.body == Ok::<Seq<char>, HttpErrorView>(text),
        0 <= i < text_lines(text).len(),
        data_line(text_lines(text)[i], data),
        parsed(data) is Ok,
        forall|j: int, other: Seq<char>|
            0 <= j < i && #[trigger] data_line(text_lines(text)[j], other) ==> parsed(other) is Err,
    ensures
        list_outcome(Ok(reply), first_round) == Ok::<_, McpErrorView>(parsed(data)->Ok_0),
        call_outcome(Ok(reply)) == Ok::<_, McpErrorView>(parsed(data)->Ok_0),
{
    lemma_declared_stream(reply);
    let stream = text_lines(text);
    lemma_line_document(stream[i]);
    assert forall|j: int| 0 <= j < i implies line_document(#[trigger] stream[j]) is None by {
        lemma_line_document(stream[j]);
    }
    law_first_document(stream, i);
}

/// An event stream without such a line is a breach of the protocol, and one that cannot be read is
/// the failure to read it.
pub proof fn law_stream_without_document(reply: HttpReplyView, first_round: bool)
    requires
        200 <= reply.status <= 299,
        declared_stream(reply),
        reply.body matches Ok(text) ==> forall|j: int, data: Seq<char>|
            0 <= j < text_lines(text).len() && #[trigger] data_line(text_lines(text)[j], data)
                ==> parsed(data) is Err,
    ensures
        list_outcome(Ok(reply), first_round) == call_outcome(Ok(reply)),
        reply.body is Ok ==> call_outcome(Ok(reply)) == Err::<JsonView, _>(
            McpErrorView::Protocol("No valid JSON found in SSE response"@),
        ),
        reply.body matches Err(e) ==> call_outcome(Ok(reply)) == Err::<JsonView, _>(
            McpErrorView::Http(e),
        ),
{
    lemma_declared_stream(reply);
    if let Ok(text) = reply.body {
        let stream = text_lines(text);
        assert forall|j: int| 0 <= j < stream.len() implies line_document(#[trigger] stream[j]) is None by {
            lemma_line_document(stream[j]);
        }
        law_no_document(stream);
    }
}

// Lists of tools.

/// Every item of the list that a document brings describes one tool, in the same order: its name is
/// the item's text `name`, and empty where there is none; its description is the item's text
/// `description`; and its schema is the item's member `inputSchema`, whole and whatever it is, and
/// missing exactly where the item has no such member.
pub proof fn law_listed_tools(
    document: JsonView,
    object: JsonView,
    result: JsonView,
    items: Seq<JsonView>,
    i: int,
)
    requires
        brings(document, object),
        member(object, "result"@) == Some(result),
        member(result, "tools"@) == Some(JsonView::Array(items)),
        0 <= i < items.len(),
    ensures
        listed_tools(document).len() == items.len(),
        member_text(items[i], "name"@) matches Some(name) ==> listed_tools(document)[i].name == name,
        member_text(items[i], "name"@) is None ==> listed_tools(document)[i].name.len() == 0,
        listed_tools(document)[i].description == member_text(items[i], "description"@),
        listed_tools(document)[i].input_schema == member(items[i], "inputSchema"@),
{
}

/// A document that brings no list, or an empty one, lists no tools.
pub proof fn law_nothing_listed(document: JsonView, object: JsonView)
    requires
        brings(document, object),
        member(object, "result"@) matches Some(result) ==> {
            ||| member(result, "tools"@) is None
            ||| member(result, "tools"@)->0 !is Array
            ||| member(result, "tools"@)->0->Array_0.len() == 0
        },
    ensures
        listed_tools(document).len() == 0,
{
}

// Results of calls.

/// A response has one item for each item of the result's list `content`, in the same order: its
/// type is the item's text `type`, or `text` where there is none, its text the item's text `text`
/// and its data the item's text `data`.
pub proof fn law_response_content(result: JsonView, items: Seq<JsonView>, i: int)
    requires
        member(result, "content"@) == Some(JsonView::Array(items)),
        0 <= i < items.len(),
    ensures
        tool_response(result).content.len() == items.len(),
        member_text(items[i], "type"@) matches Some(kind)
            ==> tool_response(result).content[i].content_type == kind,
        member_text(items[i], "type"@) is None ==> tool_response(result).content[i].content_type
            == "text"@,
        tool_response(result).content[i].text == member_text(items[i], "text"@),
        tool_response(result).content[i].data == member_text(items[i], "data"@),
{
}

/// A result without a list `content`, or with an empty one, makes a response without items. A
/// response says that the tool failed, or did not, exactly as the truth value `isError` of the
/// result does, and nothing where there is none.
pub proof fn law_response_flag(result: JsonView)
    ensures
        (member(result, "content"@) is None || member(result, "content"@)->0 !is Array || member(
            result,
            "content"@,
        )->0->Array_0.len() == 0) ==> tool_response(result).content.len() == 0,
        member(result, "isError"@) matches Some(JsonView::Bool(flag)) ==> tool_response(
            result,
        ).is_error == Some(flag),
        (member(result, "isError"@) is None || member(result, "isError"@)->0 !is Bool)
            ==> tool_response(result).is_error is None,
{
}

/// An object with an error fails the call with that error, whatever else it has.
pub proof fn law_call_error(document: JsonView, object: JsonView, error: JsonView)
    requires
        brings(document, object),
        member(object, "error"@) == Some(error),
    ensures
        call_result(document) matches Err(McpErrorView::Protocol(text)) && text
            == "Tool call error: "@ + compact_text(error),
{
}

/// A result of a tool that does not say that it failed is the response of the call, unchanged.
pub proof fn law_call_succeeds(document: JsonView, object: JsonView, result: JsonView)
    requires
        brings(document, object),
        member(object, "error"@) is None,
        member(object, "result"@) == Some(result),
        member(result, "isError"@) != Some(JsonView::Bool(true)),
    ensures
        call_result(document) matches Ok(response) && response == tool_response(result),
{
}

/// A result of a tool that says that it failed fails the call, with the detail that its content
/// gives.
pub proof fn law_tool_failed(document: JsonView, object: JsonView, result: JsonView)
    requires
        brings(document, object),
        member(object, "error"@) is None,
        member(object, "result"@) == Some(result),
        member(result, "isError"@) == Some(JsonView::Bool(true)),
    ensures
        call_result(document) matches Err(McpErrorView::Protocol(text)) && text
            == "Tool execution error: "@ + error_detail(tool_response(result).content),
{
}

/// The detail of a failed tool is the text of the first item of type `text`, and unknown where that
/// item has none.
pub proof fn law_error_detail(content: Seq<McpContentView>, i: int)
    requires
        0 <= i < content.len(),
        content[i].content_type == "text"@,
        forall|j: int| 0 <= j < i ==> (#[trigger] content[j]).content_type != "text"@,
    ensures
        content[i].text matches Some(text) ==> error_detail(content) == text,
        content[i].text is None ==> error_detail(content) == "Unknown error"@,
    decreases i,
{
    if i > 0 {
        let rest = content.skip(1);
        assert(content[0].content_type != "text"@);
        assert(rest[i - 1] == content[i]);
        assert forall|j: int| 0 <= j < i - 1 implies (#[trigger] rest[j]).content_type != "text"@ by {
            assert(rest[j] == content[j + 1]);
        }
        law_error_detail(rest, i - 1);
    }
}

/// Where no item is of type `text`, the detail of a failed tool is unknown.
pub proof fn law_no_error_detail(content: Seq<McpContentView>)
    requires
        forall|j: int| 0 <= j < content.len() ==> (#[trigger] content[j]).content_type != "text"@,
    ensures
        error_detail(content) == "Unknown error"@,
    decreases content.len(),
{
    if content.len() > 0 {
        let rest = content.skip(1);
        assert(content[0].content_type != "text"@);
        assert forall|j: int| 0 <= j < rest.len() implies (#[trigger] rest[j]).content_type
            != "text"@ by {
            assert(rest[j] == content[j + 1]);
        }
        law_no_error_detail(rest);
    }
}

/// An object with neither an error nor a result fails the call, and the whole document is shown.
pub proof fn law_neither_result_nor_error(document: JsonView, object: JsonView)
    requires
        brings(document, object),
        member(object, "error"@) is None,
        member(object, "result"@) is None,
    ensures
        call_result(document) matches Err(McpErrorView::Protocol(text)) && {
            &&& pretty_text(document) matches Some(shown) ==> text
                == "Unexpected response format: "@ + shown
            &&& pretty_text(document) is None ==> text == "Unexpected response format: "@
        },
{
    assert("Unexpected response format: "@ + Seq::<char>::empty()
        =~= "Unexpected response format: "@);
}

} // verus!
