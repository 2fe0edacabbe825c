//! What the client sends, and in which stage of which operation.

use crate::helper::{calls_first, calls_next, ToolCallsStageView};
use crate::http::{AnswerView, HttpRequestView};
use crate::json::JsonView;
use crate::operation::{
    call_first, call_next, connect_first, connect_next, init_first, init_next, probe_first,
    probe_next, tools_first, tools_next, CallStage, ClientView, InitStage, Probe, StepView,
    ToolsStage, ToolsStepView,
};
use crate::request::{
    call_request, get_request, initialize_request, list_request, options_request, post_request,
    whole_number,
};
use crate::tool::ChatMessageView;
use vstd::prelude::*;

verus! {

/// A request to the address that calls a method of the server: a JSON-RPC call with that name,
/// those parameters and that number, and no other members.
pub open spec fn calls_method(
    request: HttpRequestView,
    url: Seq<char>,
    method: Seq<char>,
    params: JsonView,
    id: u64,
) -> bool {
    &&& request.method is Post
    &&& request.url == url
    &&& request.body matches Some(JsonView::Object(members))
    &&& members.dom() == set!["jsonrpc"@, "method"@, "params"@, "id"@]
    &&& members["jsonrpc"@] == JsonView::Text("2.0"@)
    &&& members["method"@] == JsonView::Text(method)
    &&& members["params"@] == params
    &&& members["id"@] == JsonView::Number(whole_number(id))
}

/// The parameters of a request for a session: the version of the protocol, what the client can do,
/// and what it is.
pub open spec fn introduces_client(params: JsonView) -> bool {
    &&& params matches JsonView::Object(members)
    &&& members.dom() == set!["protocolVersion"@, "capabilities"@, "clientInfo"@]
    &&& members["protocolVersion"@] == JsonView::Text("2025-03-26"@)
    &&& members["capabilities"@] matches JsonView::Object(can)
    &&& can.dom() == set!["roots"@, "sampling"@]
    &&& can["roots"@] matches JsonView::Object(roots)
    &&& roots.dom() == set!["listChanged"@]
    &&& roots["listChanged"@] == JsonView::Bool(true)
    &&& can["sampling"@] matches JsonView::Object(sampling)
    &&& sampling.dom() == Set::<Seq<char>>::empty()
    &&& members["clientInfo"@] matches JsonView::Object(info)
    &&& info.dom() == set!["name"@, "version"@]
    &&& info["name"@] == JsonView::Text("ethereum-forum-workshop"@)
    &&& info["version"@] == JsonView::Text("0.1.0"@)
}

/// The request asks the server at the address for a session, and is made outside any session.
pub open spec fn asks_for_session(request: HttpRequestView, url: Seq<char>) -> bool {
    &&& exists|params: JsonView|
        #![trigger introduces_client(params)]
        introduces_client(params) && calls_method(request, url, "initialize"@, params, 1)
    &&& request.headers == seq![
        ("Content-Type"@, "application/json"@),
        ("Accept"@, "application/json, text/event-stream"@),
        ("User-Agent"@, "ethereum-forum-workshop/0.1.0"@),
    ]
}

/// The request asks the server at the address for its tools, within that session.
pub open spec fn asks_for_tools(
    request: HttpRequestView,
    url: Seq<char>,
    session: Option<Seq<char>>,
) -> bool {
    &&& calls_method(request, url, "tools/list"@, JsonView::Object(Map::empty()), 2)
    &&& request.headers.take(3) == seq![
        ("Content-Type"@, "application/json"@),
        ("Accept"@, "application/json, text/event-stream"@),
        ("User-Agent"@, "ethereum-forum-workshop/0.1.0"@),
    ]
    &&& session matches Some(id) ==> request.headers.len() == 4 && request.headers[3] == (
        "Mcp-Session-Id"@,
        id,
    )
    &&& session is None ==> request.headers.len() == 3
}

/// The request calls the tool of that name of the server at the address, with those arguments and
/// within that session.
pub open spec fn calls_tool(
    request: HttpRequestView,
    url: Seq<char>,
    session: Option<Seq<char>>,
    name: Seq<char>,
    arguments: JsonView,
) -> bool {
    &&& request.body matches Some(JsonView::Object(members))
    &&& members["params"@] matches JsonView::Object(params)
    &&& params.dom() == set!["name"@, "arguments"@]
    &&& params["name"@] == JsonView::Text(name)
    &&& params["arguments"@] == arguments
    &&& calls_method(request, url, "tools/call"@, JsonView::Object(params), 3)
    &&& request.headers.take(2) == seq![
        ("Content-Type"@, "application/json"@),
        ("Accept"@, "application/json, text/event-stream"@),
    ]
    &&& session matches Some(id) ==> request.headers.len() == 3 && request.headers[2] == (
        "Mcp-Session-Id"@,
        id,
    )
    &&& session is None ==> request.headers.len() == 2
}

/// The request is the one of that stage of the test of a server: two that bring nothing, and one
/// that brings a small document.
pub open spec fn tests_server(request: HttpRequestView, url: Seq<char>, stage: Probe) -> bool {
    let agent = ("User-Agent"@, "ethereum-forum-workshop/0.1.0"@);
    &&& request.url == url
    &&& match stage {
        Probe::Get => {
            &&& request.method is Get
            &&& request.headers == seq![agent]
            &&& request.body is None
        },
        Probe::Options => {
            &&& request.method is Options
            &&& request.headers == seq![agent]
            &&& request.body is None
        },
        Probe::Post => {
            &&& request.method is Post
            &&& request.headers == seq![("Content-Type"@, "application/json"@), agent]
            &&& request.body matches Some(JsonView::Object(members))
            &&& members.dom() == set!["test"@]
            &&& members["test"@] == JsonView::Text("connectivity"@)
        },
    }
}

/// The names of the members of a JSON-RPC call differ.
proof fn lemma_call_members()
    ensures
        "jsonrpc"@ != "method"@,
        "jsonrpc"@ != "params"@,
        "jsonrpc"@ != "id"@,
        "method"@ != "params"@,
        "method"@ != "id"@,
        "params"@ != "id"@,
{
    reveal_strlit("jsonrpc");
    reveal_strlit("method");
    reveal_strlit("params");
    reveal_strlit("id");
    assert("jsonrpc"@.len() == 7 && "method"@.len() == 6 && "params"@.len() == 6);
    assert("id"@.len() == 2);
    assert("method"@[0] == 'm' && "params"@[0] == 'p');
}

/// The request for a session asks for one.
proof fn lemma_initialize_request(url: Seq<char>)
    ensures
        asks_for_session(initialize_request(url), url),
{
    lemma_call_members();
    reveal_strlit("protocolVersion");
    reveal_strlit("capabilities");
    reveal_strlit("clientInfo");
    reveal_strlit("roots");
    reveal_strlit("sampling");
    reveal_strlit("name");
    reveal_strlit("version");
    let params = crate::request::initialize_params();
    let members = params->Object_0;
    assert("protocolVersion"@.len() == 15 && "capabilities"@.len() == 12 && "clientInfo"@.len() == 10);
    assert("roots"@.len() == 5 && "sampling"@.len() == 8 && "name"@.len() == 4 && "version"@.len() == 7);
    assert(members.dom() =~= set!["protocolVersion"@, "capabilities"@, "clientInfo"@]);
    let can = members["capabilities"@]->Object_0;
    assert(can.dom() =~= set!["roots"@, "sampling"@]);
    assert(can["roots"@]->Object_0.dom() =~= set!["listChanged"@]);
    assert(can["sampling"@]->Object_0.dom() =~= Set::<Seq<char>>::empty());
    let info = members["clientInfo"@]->Object_0;
    assert(info.dom() =~= set!["name"@, "version"@]);
    assert(introduces_client(params));
    let body = initialize_request(url).body->0->Object_0;
    assert(body.dom() =~= set!["jsonrpc"@, "method"@, "params"@, "id"@]);
    assert(calls_method(initialize_request(url), url, "initialize"@, params, 1));
}

/// The request for the tools asks for them.
proof fn lemma_list_request(url: Seq<char>, session: Option<Seq<char>>)
    ensures
        asks_for_tools(list_request(url, session), url, session),
{
    lemma_call_members();
    let request = list_request(url, session);
    let body = request.body->0->Object_0;
    assert(body.dom() =~= set!["jsonrpc"@, "method"@, "params"@, "id"@]);
    assert(request.headers.take(3) =~= seq![
        ("Content-Type"@, "application/json"@),
        ("Accept"@, "application/json, text/event-stream"@),
        ("User-Agent"@, "ethereum-forum-workshop/0.1.0"@),
    ]);
}

/// The request of a tool call calls the tool.
proof fn lemma_call_request(
    url: Seq<char>,
    session: Option<Seq<char>>,
    name: Seq<char>,
    arguments: JsonView,
)
    ensures
        calls_tool(call_request(url, session, name, arguments), url, session, name, arguments),
{
    lemma_call_members();
    reveal_strlit("name");
    reveal_strlit("arguments");
    assert("name"@.len() == 4 && "arguments"@.len() == 9);
    let request = call_request(url, session, name, arguments);
    let body = request.body->0->Object_0;
    assert(body.dom() =~= set!["jsonrpc"@, "method"@, "params"@, "id"@]);
    let params = body["params"@]->Object_0;
    assert(params.dom() =~= set!["name"@, "arguments"@]);
    assert(request.headers.take(2) =~= seq![
        ("Content-Type"@, "application/json"@),
        ("Accept"@, "application/json, text/event-stream"@),
    ]);
}

/// The requests of the test test the server.
proof fn lemma_probe_requests(url: Seq<char>)
    ensures
        tests_server(get_request(url), url, Probe::Get),
        tests_server(options_request(url), url, Probe::Options),
        tests_server(post_request(url), url, Probe::Post),
{
    let body = post_request(url).body->0->Object_0;
    assert(body.dom() =~= set!["test"@]);
}

/// Every request of setting up a session, the first as well as each further one, asks the client's
/// server for a session.
pub proof fn law_connect_requests(client: ClientView, attempt: u32, answer: AnswerView)
    ensures
        connect_first(client) matches StepView::Exchange { request, .. } && asks_for_session(
            request,
            client.server_url,
        ),
        connect_next(client, attempt, answer).1 matches StepView::Exchange { request, .. }
            ==> asks_for_session(request, client.server_url),
{
    lemma_initialize_request(client.server_url);
}

/// A step of listing the tools asks for a session while one is set up, and otherwise for the
/// tools, within the session that the client has.
pub open spec fn listing_request(after: ClientView, step: ToolsStepView, url: Seq<char>) -> bool {
    step matches StepView::Exchange { stage, request, .. } ==> match stage {
        ToolsStage::Connecting(_) => asks_for_session(request, url),
        ToolsStage::Reconnecting(_) => asks_for_session(request, url),
        ToolsStage::Listing(_) => asks_for_tools(request, url, after.session_id),
        ToolsStage::Relisting(_) => asks_for_tools(request, url, after.session_id),
    }
}

/// Every request of listing the tools, whatever came before and however often it is tried, is the
/// one that belongs to its stage: for a session while one is set up, and otherwise for the tools,
/// within the session that the client has.
pub proof fn law_listing_requests(
    client: ClientView,
    stage: ToolsStage,
    answer: AnswerView,
    now: u128,
)
    ensures
        ({
            let (after, step) = tools_first(client, now);
            listing_request(after, step, client.server_url)
        }),
        ({
            let (after, step) = tools_next(client, stage, answer, now);
            listing_request(after, step, client.server_url)
        }),
{
    let after = tools_next(client, stage, answer, now).0;
    lemma_initialize_request(client.server_url);
    lemma_list_request(client.server_url, after.session_id);
}

/// A step of a tool call asks for a session while one is set up, and otherwise calls the tool,
/// within the session that the client has.
pub open spec fn calling_request(
    after: ClientView,
    stage: CallStage,
    request: HttpRequestView,
    url: Seq<char>,
    name: Seq<char>,
    arguments: JsonView,
) -> bool {
    match stage {
        CallStage::Connecting(_) => asks_for_session(request, url),
        CallStage::Calling(_) => calls_tool(request, url, after.session_id, name, arguments),
    }
}

/// Every request of a tool call, whatever came before and however often it is tried, is the one
/// that belongs to its stage: for a session while one is set up, and otherwise the call of that
/// very tool with those very arguments, within the session that the client has.
pub proof fn law_calling_requests(
    client: ClientView,
    name: Seq<char>,
    arguments: JsonView,
    stage: CallStage,
    answer: AnswerView,
)
    ensures
        call_first(client, name, arguments) matches StepView::Exchange { stage: first, request, .. }
            && calling_request(client, first, request, client.server_url, name, arguments),
        ({
            let (after, step) = call_next(client, name, arguments, stage, answer);
            step matches StepView::Exchange { stage: next, request, .. } ==> calling_request(
                after,
                next,
                request,
                client.server_url,
                name,
                arguments,
            )
        }),
{
    let after = call_next(client, name, arguments, stage, answer).0;
    lemma_initialize_request(client.server_url);
    lemma_call_request(client.server_url, after.session_id, name, arguments);
    lemma_call_request(client.server_url, client.session_id, name, arguments);
}

/// Within a session every further try of a tool call sends the very request of the first try, and
/// changes nothing of the client.
pub proof fn law_call_repeats_its_request(
    client: ClientView,
    name: Seq<char>,
    arguments: JsonView,
    attempt: u32,
    answer: AnswerView,
)
    requires
        client.session_id is Some,
    ensures
        ({
            let (after, step) = call_next(
                client,
                name,
                arguments,
                CallStage::Calling(attempt),
                answer,
            );
            &&& after == client
            &&& step matches StepView::Exchange { request, .. } ==> (call_first(
                client,
                name,
                arguments,
            ) matches StepView::Exchange { request: first, .. } && request == first)
        }),
{
}

/// Every request of a round of tool calls belongs to the call that the stage names: it asks for a
/// session while one is set up, and otherwise calls that call's tool with that call's arguments,
/// within the session that the client has.
pub proof fn law_round_requests(
    client: ClientView,
    messages: Seq<ChatMessageView>,
    stage: ToolCallsStageView,
    answer: AnswerView,
)
    ensures
        calls_first(client, messages) matches StepView::Exchange { stage: first, request, .. }
            ==> calling_request(
            client,
            first.stage,
            request,
            client.server_url,
            first.call.name,
            first.arguments,
        ),
        ({
            let (after, step) = calls_next(client, stage, answer);
            step matches StepView::Exchange { stage: next, request, .. } ==> calling_request(
                after,
                next.stage,
                request,
                client.server_url,
                next.call.name,
                next.arguments,
            )
        }),
{
    lemma_initialize_request(client.server_url);
    if let StepView::Exchange { stage: first, .. } = calls_first(client, messages) {
        lemma_call_request(
            client.server_url,
            client.session_id,
            first.call.name,
            first.arguments,
        );
    }
    let (after, step) = calls_next(client, stage, answer);
    if let StepView::Exchange { stage: next, .. } = step {
        lemma_call_request(client.server_url, after.session_id, next.call.name, next.arguments);
    }
}

/// The test of a server begins with a GET and sends, as long as it goes on, the request of its
/// stage.
pub proof fn law_test_requests(client: ClientView, stage: Probe, answer: AnswerView)
    ensures
        probe_first(client) matches StepView::Exchange { stage: first, request, .. } && first is Get
            && tests_server(request, client.server_url, first),
        probe_next(client, stage, answer) matches StepView::Exchange { stage: next, request, .. }
            ==> tests_server(request, client.server_url, next),
{
    lemma_probe_requests(client.server_url);
}

/// The start of a client begins as the test does, and sends the request of its stage: one of the
/// test while the server is tested, and then one for a session.
pub proof fn law_start_requests(client: ClientView, stage: InitStage, answer: AnswerView)
    ensures
        init_first(client) matches StepView::Exchange { stage: first, request, .. } && first
            == InitStage::Probing(Probe::Get) && tests_server(
            request,
            client.server_url,
            Probe::Get,
        ),
        init_next(client, stage, answer).1 matches StepView::Exchange { stage: next, request, .. }
            ==> match next {
            InitStage::Probing(probe) => tests_server(request, client.server_url, probe),
            InitStage::Connecting(_) => asks_for_session(request, client.server_url),
        },
{
    lemma_probe_requests(client.server_url);
    lemma_initialize_request(client.server_url);
}

} // verus!
