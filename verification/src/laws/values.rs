//! What the values that the library speaks of are: texts, documents, replies and errors.

use crate::client::default_url;
use crate::codec::{parse_view, serde_error_text};
use crate::error::{McpError, McpErrorView};
use crate::helper::ToolCallsStage;
use crate::http::{
    answer_view, reason_phrase, status_text, valid_answer, HttpError, HttpErrorView, HttpReply,
    HttpReplyView, HttpRequest,
};
use crate::json::{found_view, lemma_array_tree, member_map, Json, JsonView};
use crate::operation::{blank_client, Step, StepView};
use crate::reply::{document_view, reply_view, response_view};
use crate::retry::{failure, failure_of};
use crate::text::{
    begins_with, joined, lemma_first_line, lemma_joined_in_two, lemma_line_length, occurs_in,
    stands_at, text_lines, without_return,
};
use crate::tool::{
    ChatCompletionTool, ChatMessage, ChatMessageView, McpContent, McpTool, McpToolResponse, ToolCall,
};
use vstd::prelude::*;

verus! {

// Texts.

/// A pattern stands at a place exactly if each of its chars is the one there, and it stands in a
/// text exactly if it stands at some place of it.
pub proof fn law_standing_in_a_text(text: Seq<char>, pattern: Seq<char>, at: int)
    ensures
        stands_at(text, pattern, at) <==> {
            &&& 0 <= at
            &&& at + pattern.len() <= text.len()
            &&& forall|i: int| 0 <= i < pattern.len() ==> text[at + i] == #[trigger] pattern[i]
        },
        stands_at(text, pattern, at) ==> occurs_in(pattern, text),
        occurs_in(pattern, text) ==> exists|place: int| stands_at(text, pattern, place),
        begins_with(text, pattern) <==> {
            &&& pattern.len() <= text.len()
            &&& forall|i: int| 0 <= i < pattern.len() ==> #[trigger] text[i] == pattern[i]
        },
{
    if stands_at(text, pattern, at) {
        assert forall|i: int| 0 <= i < pattern.len() implies text[at + i] == #[trigger] pattern[i] by {
            assert(text.subrange(at, at + pattern.len())[i] == text[at + i]);
        }
    } else if 0 <= at && at + pattern.len() <= text.len() && (forall|i: int|
        0 <= i < pattern.len() ==> text[at + i] == #[trigger] pattern[i]) {
        assert(text.subrange(at, at + pattern.len()) =~= pattern);
    }
    if begins_with(text, pattern) {
        assert forall|i: int| 0 <= i < pattern.len() implies #[trigger] text[i] == pattern[i] by {
            assert(text.subrange(0, pattern.len() as int)[i] == text[i]);
        }
    } else if pattern.len() <= text.len() && (forall|i: int|
        0 <= i < pattern.len() ==> #[trigger] text[i] == pattern[i]) {
        assert(text.subrange(0, pattern.len() as int) =~= pattern);
    }
}

/// An empty text has no lines. What stands before the first line feed is the first line, without
/// the carriage return right before the line feed, and the rest makes up the other lines. A text
/// without a line feed is one line, with whatever it ends in.
pub proof fn law_lines(line: Seq<char>, rest: Seq<char>)
    requires
        !line.contains('\n'),
    ensures
        text_lines(Seq::empty()) == Seq::<Seq<char>>::empty(),
        line.len() > 0 ==> text_lines(line) == seq![line],
        text_lines(line + seq!['\r', '\n'] + rest) == seq![line] + text_lines(rest),
        line.len() == 0 || line.last() != '\r' ==> text_lines(line + seq!['\n'] + rest) == seq![line]
            + text_lines(rest),
{
    assert forall|i: int| 0 <= i < line.len() implies line[i] != '\n' by {
        assert(line.contains(line[i]));
    }
    lemma_line_length(line, line.len() as int);
    let returned = line.push('\r');
    assert forall|i: int| 0 <= i < returned.len() implies returned[i] != '\n' by {
        if i < line.len() {
            assert(returned[i] == line[i]);
        }
    }
    lemma_first_line(returned, rest);
    assert(without_return(returned) =~= line);
    assert(returned + seq!['\n'] + rest =~= line + seq!['\r', '\n'] + rest);
    lemma_first_line(line, rest);
}

/// Nothing joins to nothing, one part to itself, and two lists of parts to what each joins to,
/// with the separator between them.
pub proof fn law_joined(
    part: Seq<char>,
    first: Seq<Seq<char>>,
    second: Seq<Seq<char>>,
    separator: Seq<char>,
)
    ensures
        joined(Seq::empty(), separator) == Seq::<char>::empty(),
        joined(seq![part], separator) == part,
        first.len() > 0 && second.len() > 0 ==> joined(first + second, separator) == joined(
            first,
            separator,
        ) + separator + joined(second, separator),
{
    if first.len() > 0 && second.len() > 0 {
        lemma_joined_in_two(first, second, separator);
    }
}

// Documents.

/// An object has under a key the last of the members that were given under it.
proof fn lemma_last_member(members: Seq<(String, Json)>, key: Seq<char>, i: int)
    requires
        0 <= i < members.len(),
        members[i].0@ == key,
        forall|j: int| i < j < members.len() ==> (#[trigger] members[j]).0@ != key,
    ensures
        member_map(members).contains_key(key),
        member_map(members)[key] == members[i].1@,
    decreases members.len(),
{
    if i < members.len() - 1 {
        let before = members.drop_last();
        assert(members[members.len() - 1].0@ != key);
        assert forall|j: int| i < j < before.len() implies (#[trigger] before[j]).0@ != key by {
            assert(before[j] == members[j]);
        }
        lemma_last_member(before, key, i);
    }
}

/// An object has nothing under a key that was not given.
proof fn lemma_no_member(members: Seq<(String, Json)>, key: Seq<char>)
    requires
        forall|j: int| 0 <= j < members.len() ==> (#[trigger] members[j]).0@ != key,
    ensures
        !member_map(members).contains_key(key),
    decreases members.len(),
{
    if members.len() > 0 {
        let before = members.drop_last();
        assert(members[members.len() - 1].0@ != key);
        assert forall|j: int| 0 <= j < before.len() implies (#[trigger] before[j]).0@ != key by {
            assert(before[j] == members[j]);
        }
        lemma_no_member(before, key);
    }
}

/// Of the members that were given under one key, an object holds the last.
pub proof fn law_last_member_counts(members: Vec<(String, Json)>, key: Seq<char>, i: int)
    requires
        0 <= i < members@.len(),
        members@[i].0@ == key,
        forall|j: int| i < j < members@.len() ==> (#[trigger] members@[j]).0@ != key,
    ensures
        Json::Object(members)@ matches JsonView::Object(held) && held.contains_key(key) && held[key]
            == members@[i].1@,
{
    lemma_last_member(members@, key, i);
}

/// An object holds nothing under a key that was not given.
pub proof fn law_no_other_members(members: Vec<(String, Json)>, key: Seq<char>)
    requires
        forall|j: int| 0 <= j < members@.len() ==> (#[trigger] members@[j]).0@ != key,
    ensures
        Json::Object(members)@ matches JsonView::Object(held) && !held.contains_key(key),
{
    lemma_no_member(members@, key);
}

/// A document is what it was made of: an array its items in order, and each other kind its value.
pub proof fn law_plain_documents(
    items: Vec<Json>,
    i: int,
    text: String,
    flag: bool,
    number: serde_json::Number,
)
    ensures
        Json::Null@ is Null,
        Json::Bool(flag)@ == JsonView::Bool(flag),
        Json::Number(number)@ == JsonView::Number(number),
        Json::Text(text)@ == JsonView::Text(text@),
        Json::Array(items)@ matches JsonView::Array(held) && held.len() == items@.len() && (0 <= i
            < items@.len() ==> held[i] == items@[i]@),
{
    lemma_array_tree(items);
}

/// Only an object has members, those under its keys; only a string has a text, only a truth value
/// is one, and only an array has items.
pub proof fn law_reading_documents(
    members: Map<Seq<char>, JsonView>,
    key: Seq<char>,
    other: JsonView,
    text: Seq<char>,
    flag: bool,
    items: Seq<JsonView>,
)
    ensures
        members.contains_key(key) ==> JsonView::Object(members).get(key) == Some(members[key])
            && JsonView::Object(members).at(key) == members[key],
        !members.contains_key(key) ==> JsonView::Object(members).get(key) is None
            && JsonView::Object(members).at(key) is Null,
        other !is Object ==> other.get(key) is None && other.at(key) is Null,
        JsonView::Text(text).as_text() == Some(text),
        other !is Text ==> other.as_text() is None,
        JsonView::Bool(flag).as_bool() == Some(flag),
        other !is Bool ==> other.as_bool() is None,
        JsonView::Array(items).as_array() == Some(items),
        other !is Array ==> other.as_array() is None,
{
}

// Replies.

/// Two letters are the same but for their case.
pub open spec fn same_letter(c: char, d: char) -> bool {
    ||| c == d
    ||| 'A' <= c && c <= 'Z' && d as int == c as int + 32
    ||| 'A' <= d && d <= 'Z' && c as int == d as int + 32
}

/// Two names are the same but for the case of their letters.
pub open spec fn same_but_for_case(a: Seq<char>, b: Seq<char>) -> bool {
    a.len() == b.len() && forall|i: int| 0 <= i < a.len() ==> same_letter(#[trigger] a[i], b[i])
}

/// The two ways to say that names are the same agree.
proof fn lemma_same_name(a: Seq<char>, b: Seq<char>)
    ensures
        crate::http::same_name(a, b) == same_but_for_case(a, b),
{
    if a.len() == b.len() {
        assert forall|i: int| 0 <= i < a.len() implies (crate::http::lower(#[trigger] a[i])
            == crate::http::lower(b[i]) <==> same_letter(a[i], b[i])) by {}
        if crate::http::same_name(a, b) {
            assert forall|i: int| 0 <= i < a.len() implies same_letter(#[trigger] a[i], b[i]) by {
                assert(crate::http::lower(a[i]) == crate::http::lower(b[i]));
            }
        }
        if same_but_for_case(a, b) {
            assert forall|i: int| 0 <= i < a.len() implies crate::http::lower(#[trigger] a[i])
                == crate::http::lower(b[i]) by {
                assert(same_letter(a[i], b[i]));
            }
        }
    }
}

/// The value of the first header of a name is found.
proof fn lemma_header_value(headers: Seq<(Seq<char>, Seq<u8>)>, name: Seq<char>, i: int)
    requires
        0 <= i < headers.len(),
        same_but_for_case(headers[i].0, name),
        forall|j: int| 0 <= j < i ==> !same_but_for_case((#[trigger] headers[j]).0, name),
    ensures
        crate::http::header_value(headers, name) == Some(headers[i].1),
    decreases i,
{
    lemma_same_name(headers[0].0, name);
    if i > 0 {
        let rest = headers.skip(1);
        assert(!same_but_for_case(headers[0].0, name));
        assert forall|j: int| 0 <= j < i - 1 implies !same_but_for_case(
            (#[trigger] rest[j]).0,
            name,
        ) by {
            assert(rest[j] == headers[j + 1]);
        }
        lemma_header_value(rest, name, i - 1);
    }
}

/// Where no header has the name, no value is found.
proof fn lemma_no_header_value(headers: Seq<(Seq<char>, Seq<u8>)>, name: Seq<char>)
    requires
        forall|j: int|
            0 <= j < headers.len() ==> !same_but_for_case((#[trigger] headers[j]).0, name),
    ensures
        crate::http::header_value(headers, name) is None,
    decreases headers.len(),
{
    if headers.len() > 0 {
        lemma_same_name(headers[0].0, name);
        assert(!same_but_for_case(headers[0].0, name));
        let rest = headers.skip(1);
        assert forall|j: int| 0 <= j < rest.len() implies !same_but_for_case(
            (#[trigger] rest[j]).0,
            name,
        ) by {
            assert(rest[j] == headers[j + 1]);
        }
        lemma_no_header_value(rest, name);
    }
}

/// Of the headers of one name, in whatever case, the first counts. Its text has one char for each
/// byte, of the same number; where a byte is neither printable ASCII nor a tab, there is no text.
pub proof fn law_first_header_counts(reply: HttpReplyView, name: Seq<char>, i: int)
    requires
        0 <= i < reply.headers.len(),
        same_but_for_case(reply.headers[i].0, name),
        forall|j: int| 0 <= j < i ==> !same_but_for_case((#[trigger] reply.headers[j]).0, name),
    ensures
        reply.header(name) is Some <==> forall|k: int|
            0 <= k < reply.headers[i].1.len() ==> (32 <= #[trigger] reply.headers[i].1[k] <= 126
                || reply.headers[i].1[k] == 9),
        reply.header(name) matches Some(text) ==> {
            &&& text.len() == reply.headers[i].1.len()
            &&& forall|k: int|
                0 <= k < text.len() ==> #[trigger] text[k] as int == reply.headers[i].1[k] as int
        },
{
    lemma_header_value(reply.headers, name, i);
    let value = reply.headers[i].1;
    if forall|k: int|
        0 <= k < value.len() ==> (32 <= #[trigger] value[k] <= 126 || value[k] == 9) {
        assert forall|k: int| 0 <= k < value.len() implies crate::http::visible(#[trigger] value[k]) by {}
    }
    if reply.header(name) is Some {
        assert forall|k: int| 0 <= k < value.len() implies (32 <= #[trigger] value[k] <= 126
            || value[k] == 9) by {
            assert(crate::http::visible(value[k]));
        }
    }
}

/// A reply has no text under a name that none of its headers has.
pub proof fn law_no_such_header(reply: HttpReplyView, name: Seq<char>)
    requires
        forall|j: int|
            0 <= j < reply.headers.len() ==> !same_but_for_case(
                (#[trigger] reply.headers[j]).0,
                name,
            ),
    ensures
        reply.header(name) is None,
{
    lemma_no_header_value(reply.headers, name);
}

/// Every status of three digits is one that HTTP has. A request was carried out exactly if the status
/// is in the two hundreds. A body that cannot be read counts as an empty one, where a body is only
/// shown.
pub proof fn law_status_and_body(reply: HttpReplyView, e: HttpErrorView)
    ensures
        valid_answer(Ok(reply)) <==> 100 <= reply.status <= 999,
        valid_answer(Err(e)),
        reply.success() <==> reply.status / 100 == 2,
        reply.body matches Ok(text) ==> reply.body_or_empty() == text,
        reply.body is Err ==> reply.body_or_empty().len() == 0,
{
}

/// A status shows as the three digits that make up its number, a space, and its reason.
pub proof fn law_status_text(status: u16)
    requires
        100 <= status <= 999,
    ensures
        ({
            let text = status_text(status);
            &&& text.len() == 4 + reason_phrase(status).len()
            &&& '0' <= text[0] && text[0] <= '9'
            &&& '0' <= text[1] && text[1] <= '9'
            &&& '0' <= text[2] && text[2] <= '9'
            &&& (text[0] as int - 48) * 100 + (text[1] as int - 48) * 10 + (text[2] as int - 48)
                == status
            &&& text[3] == ' '
            &&& text.skip(4) == reason_phrase(status)
        }),
{
    assert(status_text(status).skip(4) =~= reason_phrase(status));
}

// Errors.

/// An error in words says what kind of error it is, and then what happened.
pub proof fn law_error_messages(e: HttpErrorView, d: serde_json::Error, text: Seq<char>)
    ensures
        McpErrorView::Http(e).message() == "HTTP request error: "@ + e.message,
        McpErrorView::Serialization(d).message() == "Serialization error: "@ + serde_error_text(d),
        McpErrorView::Connection(text).message() == "Connection failed: "@ + text,
        McpErrorView::Protocol(text).message() == "Protocol error: "@ + text,
        McpErrorView::Initialization(text).message() == "Initialization failed: "@ + text,
        McpErrorView::Other(text).message() == "Other error: "@ + text,
{
}

/// Worth another try are failures to connect, to be in time and to send, every failure of the
/// test of a server, and what the server said, where a status that passes stands in it. Nothing
/// else is.
pub proof fn law_what_is_retried(e: HttpErrorView, d: serde_json::Error, text: Seq<char>)
    ensures
        McpErrorView::Http(e).retryable() <==> e.connect || e.timeout || e.request,
        McpErrorView::Connection(text).retryable(),
        McpErrorView::Protocol(text).retryable() <==> {
            ||| occurs_in("404"@, text)
            ||| occurs_in("500"@, text)
            ||| occurs_in("502"@, text)
            ||| occurs_in("503"@, text)
        },
        !McpErrorView::Serialization(d).retryable(),
        !McpErrorView::Initialization(text).retryable(),
        !McpErrorView::Other(text).retryable(),
{
}

// What the values of the program say.

/// An error and a reply say what their fields hold.
pub proof fn law_replies_say_what_they_hold(error: HttpError, reply: HttpReply, i: int)
    ensures
        error@.connect == error.connect,
        error@.timeout == error.timeout,
        error@.request == error.request,
        error@.message == error.message@,
        reply@.status == reply.status,
        reply@.headers.len() == reply.headers@.len(),
        0 <= i < reply.headers@.len() ==> reply@.headers[i].0 == reply.headers@[i].0@
            && reply@.headers[i].1 == reply.headers@[i].1@,
        reply.body matches Ok(text) ==> reply@.body == Ok::<Seq<char>, HttpErrorView>(text@),
        reply.body matches Err(e) ==> reply@.body == Err::<Seq<char>, HttpErrorView>(e@),
        answer_view(Ok(reply)) == Ok::<HttpReplyView, HttpErrorView>(reply@),
        answer_view(Err(error)) == Err::<HttpReplyView, HttpErrorView>(error@),
{
    if 0 <= i < reply.headers@.len() {
        assert(reply@.headers[i].1 =~= reply.headers@[i].1@);
    }
}

/// A request says what its fields hold.
pub proof fn law_requests_say_what_they_hold(request: HttpRequest, i: int)
    ensures
        request@.method == request.method,
        request@.url == request.url@,
        request@.headers.len() == request.headers@.len(),
        0 <= i < request.headers@.len() ==> request@.headers[i] == (
            request.headers@[i].0@,
            request.headers@[i].1@,
        ),
        request.body matches Some(json) ==> request@.body == Some(json@),
        request.body is None ==> request@.body is None,
{
}

/// An error of the client says what it holds, as the kind of error that it is.
pub proof fn law_errors_say_what_they_hold(e: HttpError, d: serde_json::Error, text: String)
    ensures
        McpError::Http(e)@ == McpErrorView::Http(e@),
        McpError::Serialization(d)@ == McpErrorView::Serialization(d),
        McpError::Connection(text)@ == McpErrorView::Connection(text@),
        McpError::Protocol(text)@ == McpErrorView::Protocol(text@),
        McpError::Initialization(text)@ == McpErrorView::Initialization(text@),
        McpError::Other(text)@ == McpErrorView::Other(text@),
{
}

/// A tool says its name, its description and its schema, each where it has one.
pub proof fn law_tools_say_what_they_hold(tool: McpTool, converted: ChatCompletionTool)
    ensures
        tool@.name == tool.name@,
        tool.description matches Some(text) ==> tool@.description == Some(text@),
        tool.description is None ==> tool@.description is None,
        tool.input_schema matches Some(json) ==> tool@.input_schema == Some(json@),
        tool.input_schema is None ==> tool@.input_schema is None,
        converted@.function.name == converted.function.name@,
        converted.function.description matches Some(text) ==> converted@.function.description
            == Some(text@),
        converted.function.description is None ==> converted@.function.description is None,
        converted.function.parameters matches Some(json) ==> converted@.function.parameters == Some(
            json@,
        ),
        converted.function.parameters is None ==> converted@.function.parameters is None,
        converted@.function.strict == converted.function.strict,
{
}

/// The response of a tool says its items in order, and each item its type, text and data.
pub proof fn law_responses_say_what_they_hold(response: McpToolResponse, item: McpContent, i: int)
    ensures
        response@.is_error == response.is_error,
        response@.content.len() == response.content@.len(),
        0 <= i < response.content@.len() ==> response@.content[i] == response.content@[i]@,
        item@.content_type == item.content_type@,
        item.text matches Some(text) ==> item@.text == Some(text@),
        item.text is None ==> item@.text is None,
        item.data matches Some(data) ==> item@.data == Some(data@),
        item.data is None ==> item@.data is None,
{
}

/// A tool call says its id, its name and its arguments, and a message its calls in order.
pub proof fn law_messages_say_what_they_hold(call: ToolCall, calls: Vec<ToolCall>, i: int)
    ensures
        call@.id == call.id@,
        call@.name == call.function.name@,
        call@.arguments == call.function.arguments@,
        ChatMessage::Other@ is Other,
        ChatMessage::Assistant(None)@ == ChatMessageView::Assistant(None),
        ChatMessage::Assistant(Some(calls))@ matches ChatMessageView::Assistant(Some(said))
            && said.len() == calls@.len() && (0 <= i < calls@.len() ==> said[i] == calls@[i]@),
{
}

/// The stage of a round of calls says what its fields hold.
pub proof fn law_rounds_say_what_they_hold(stage: ToolCallsStage, i: int)
    ensures
        stage@.call == stage.call@,
        stage@.arguments == stage.arguments@,
        stage@.stage == stage.stage,
        stage@.waiting.len() == stage.waiting@.len(),
        0 <= i < stage.waiting@.len() ==> stage@.waiting[i] == stage.waiting@[i]@,
        stage@.results.len() == stage.results@.len(),
        0 <= i < stage.results@.len() ==> stage@.results[i] == (
            stage.results@[i].0@,
            stage.results@[i].1@,
        ),
{
}

/// A step says its stage, its delay and its request, or its outcome.
pub proof fn law_steps_say_what_they_hold<S: View, T: DeepView>(step: Step<S, T>)
    ensures
        step matches Step::Exchange { stage, delay_ms, request } ==> (step@ matches
            StepView::Exchange { stage: where_to, delay_ms: wait, request: asked } && where_to
            == stage@ && wait == delay_ms && asked == request@),
        step matches Step::Done(Ok(value)) ==> (step@ matches StepView::Done(Ok(said)) && said
            == value.deep_view()),
        step matches Step::Done(Err(error)) ==> (step@ matches StepView::Done(Err(said)) && said
            == error@),
{
}

/// An outcome says what came out, or what went wrong.
pub proof fn law_outcomes_say_what_they_hold(
    json: Json,
    reply: HttpReply,
    response: McpToolResponse,
    error: McpError,
    rejected: serde_json::Error,
)
    ensures
        document_view(Ok(json)) matches Ok(said) && said == json@,
        document_view(Err(error)) matches Err(said) && said == error@,
        reply_view(Ok(reply)) matches Ok(said) && said == reply@,
        reply_view(Err(error)) matches Err(said) && said == error@,
        response_view(Ok(response)) matches Ok(said) && said == response@,
        response_view(Err(error)) matches Err(said) && said == error@,
        parse_view(Ok(json)) matches Ok(said) && said == json@,
        parse_view(Err(rejected)) matches Err(said) && said == rejected,
        found_view(Some(&json)) == Some(json@),
        found_view(None) is None,
{
}

/// What went wrong in an outcome is its error, and nothing where it has none.
pub proof fn law_failures<T>(outcome: Result<T, McpError>, said: Result<T, McpErrorView>)
    ensures
        outcome is Ok ==> failure_of(outcome) is None,
        outcome matches Err(e) ==> failure_of(outcome) == Some(e@),
        said is Ok ==> failure(said) is None,
        said matches Err(e) ==> failure(said) == Some(e),
{
}

/// A new client knows an address, the default one where none is given, and nothing else.
pub proof fn law_new_client(url: Seq<char>)
    ensures
        default_url() == "https://ethereum.forum/mcp"@,
        blank_client(url).server_url == url,
        !blank_client(url).connected,
        blank_client(url).session_id is None,
        blank_client(url).server_info is None,
        blank_client(url).tools_cache is None,
        blank_client(url).last_update is None,
{
}

} // verus!
