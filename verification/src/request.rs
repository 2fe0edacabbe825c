//! The requests that the client sends.

use crate::http::{HttpRequest, HttpRequestView, Method};
use crate::json::{member_map, Json, JsonView};
use vstd::prelude::*;

verus! {

/// The number that `serde_json` makes of an integer.
pub uninterp spec fn whole_number(n: u64) -> serde_json::Number;

/// `serde_json::Number::from` of an integer: the number depends on the integer alone.
#[verifier::external_body]
fn number_from(n: u64) -> (number: serde_json::Number)
    ensures
        number == whole_number(n),
{
    serde_json::Number::from(n)
}

/// A call of a method of the server.
pub open spec fn rpc_body(method: Seq<char>, params: JsonView, id: u64) -> JsonView {
    JsonView::Object(
        map![
            "jsonrpc"@ => JsonView::Text("2.0"@),
            "method"@ => JsonView::Text(method),
            "params"@ => params,
            "id"@ => JsonView::Number(whole_number(id)),
        ],
    )
}

/// What the client says of itself when it asks for a session.
pub open spec fn initialize_params() -> JsonView {
    JsonView::Object(
        map![
            "protocolVersion"@ => JsonView::Text("2025-03-26"@),
            "capabilities"@ => JsonView::Object(
                map![
                    "roots"@ => JsonView::Object(map!["listChanged"@ => JsonView::Bool(true)]),
                    "sampling"@ => JsonView::Object(Map::empty()),
                ],
            ),
            "clientInfo"@ => JsonView::Object(
                map![
                    "name"@ => JsonView::Text("ethereum-forum-workshop"@),
                    "version"@ => JsonView::Text("0.1.0"@),
                ],
            ),
        ],
    )
}

/// Which tool to call, and with what arguments.
pub open spec fn call_params(name: Seq<char>, arguments: JsonView) -> JsonView {
    JsonView::Object(map!["name"@ => JsonView::Text(name), "arguments"@ => arguments])
}

/// The header that tells the server what kind of body comes.
pub open spec fn content_type_header() -> (Seq<char>, Seq<char>) {
    ("Content-Type"@, "application/json"@)
}

/// The header that tells the server what kinds of reply the client reads.
pub open spec fn accept_header() -> (Seq<char>, Seq<char>) {
    ("Accept"@, "application/json, text/event-stream"@)
}

/// The header that names the client.
pub open spec fn agent_header() -> (Seq<char>, Seq<char>) {
    ("User-Agent"@, "ethereum-forum-workshop/0.1.0"@)
}

/// The header that names the session, where there is one.
pub open spec fn session_headers(session: Option<Seq<char>>) -> Seq<(Seq<char>, Seq<char>)> {
    match session {
        Some(id) => seq![("Mcp-Session-Id"@, id)],
        None => Seq::empty(),
    }
}

/// Asks for a session.
pub open spec fn initialize_request(url: Seq<char>) -> HttpRequestView {
    HttpRequestView {
        method: Method::Post,
        url,
        headers: seq![content_type_header(), accept_header(), agent_header()],
        body: Some(rpc_body("initialize"@, initialize_params(), 1)),
    }
}

/// Asks for the tools, within the session where there is one.
pub open spec fn list_request(url: Seq<char>, session: Option<Seq<char>>) -> HttpRequestView {
    HttpRequestView {
        method: Method::Post,
        url,
        headers: seq![content_type_header(), accept_header(), agent_header()] + session_headers(
            session,
        ),
        body: Some(rpc_body("tools/list"@, JsonView::Object(Map::empty()), 2)),
    }
}

/// Calls a tool, within the session where there is one.
pub open spec fn call_request(
    url: Seq<char>,
    session: Option<Seq<char>>,
    name: Seq<char>,
    arguments: JsonView,
) -> HttpRequestView {
    HttpRequestView {
        method: Method::Post,
        url,
        headers: seq![content_type_header(), accept_header()] + session_headers(session),
        body: Some(rpc_body("tools/call"@, call_params(name, arguments), 3)),
    }
}

/// Asks whether anything answers at the address.
pub open spec fn get_request(url: Seq<char>) -> HttpRequestView {
    HttpRequestView { method: Method::Get, url, headers: seq![agent_header()], body: None }
}

/// Asks which methods the address takes.
pub open spec fn options_request(url: Seq<char>) -> HttpRequestView {
    HttpRequestView { method: Method::Options, url, headers: seq![agent_header()], body: None }
}

/// Asks whether the address takes a document.
pub open spec fn post_request(url: Seq<char>) -> HttpRequestView {
    HttpRequestView {
        method: Method::Post,
        url,
        headers: seq![content_type_header(), agent_header()],
        body: Some(JsonView::Object(map!["test"@ => JsonView::Text("connectivity"@)])),
    }
}

/// A JSON string.
fn text(s: &str) -> (json: Json)
    ensures
        json@ == JsonView::Text(s@),
{
    Json::Text(s.to_string())
}

/// Gives an object a further member.
fn put(members: &mut Vec<(String, Json)>, key: &str, value: Json)
    ensures
        member_map(final(members)@) == member_map(old(members)@).insert(key@, value@),
{
    let ghost before = members@;
    members.push((key.to_string(), value));
    assert(members@.drop_last() =~= before);
}

/// Gives a request a further header.
fn put_header(headers: &mut Vec<(String, String)>, name: &str, value: &str)
    ensures
        final(headers).deep_view() == old(headers).deep_view().push((name@, value@)),
{
    let ghost before = headers.deep_view();
    headers.push((name.to_string(), value.to_string()));
    assert(headers.deep_view() =~= before.push((name@, value@)));
}

/// A call of a method of the server.
fn rpc(method: &str, params: Json, id: u64) -> (json: Json)
    ensures
        json@ == rpc_body(method@, params@, id),
{
    let mut members: Vec<(String, Json)> = Vec::new();
    put(&mut members, "jsonrpc", text("2.0"));
    put(&mut members, "method", text(method));
    put(&mut members, "params", params);
    put(&mut members, "id", Json::Number(number_from(id)));
    Json::Object(members)
}

/// What the client says of itself when it asks for a session.
fn client_params() -> (json: Json)
    ensures
        json@ == initialize_params(),
{
    let mut roots: Vec<(String, Json)> = Vec::new();
    put(&mut roots, "listChanged", Json::Bool(true));
    let mut capabilities: Vec<(String, Json)> = Vec::new();
    put(&mut capabilities, "roots", Json::Object(roots));
    put(&mut capabilities, "sampling", Json::Object(Vec::new()));
    let mut info: Vec<(String, Json)> = Vec::new();
    put(&mut info, "name", text("ethereum-forum-workshop"));
    put(&mut info, "version", text("0.1.0"));
    let mut params: Vec<(String, Json)> = Vec::new();
    put(&mut params, "protocolVersion", text("2025-03-26"));
    put(&mut params, "capabilities", Json::Object(capabilities));
    put(&mut params, "clientInfo", Json::Object(info));
    Json::Object(params)
}

/// The headers of a request that brings a document: what comes, what may come back, and, as
/// asked, the client and the session.
fn document_headers(agent: bool, session: &Option<String>) -> (headers: Vec<(String, String)>)
    ensures
        headers.deep_view() == (if agent {
            seq![content_type_header(), accept_header(), agent_header()]
        } else {
            seq![content_type_header(), accept_header()]
        }) + session_headers(session.deep_view()),
{
    let mut headers: Vec<(String, String)> = Vec::new();
    put_header(&mut headers, "Content-Type", "application/json");
    put_header(&mut headers, "Accept", "application/json, text/event-stream");
    if agent {
        put_header(&mut headers, "User-Agent", "ethereum-forum-workshop/0.1.0");
    }
    if let Some(id) = session {
        put_header(&mut headers, "Mcp-Session-Id", id.as_str());
    }
    headers
}

/// The request that asks for a session.
pub fn make_initialize_request(url: &String) -> (request: HttpRequest)
    ensures
        request@ == initialize_request(url@),
{
    let headers = document_headers(true, &None);
    assert(headers.deep_view() =~= initialize_request(url@).headers);
    HttpRequest {
        method: Method::Post,
        url: url.clone(),
        headers,
        body: Some(rpc("initialize", client_params(), 1)),
    }
}

/// The request that asks for the tools.
pub fn make_list_request(url: &String, session: &Option<String>) -> (request: HttpRequest)
    ensures
        request@ == list_request(url@, session.deep_view()),
{
    let members: Vec<(String, Json)> = Vec::new();
    assert(member_map(members@) == Map::<Seq<char>, JsonView>::empty());
    HttpRequest {
        method: Method::Post,
        url: url.clone(),
        headers: document_headers(true, session),
        body: Some(rpc("tools/list", Json::Object(members), 2)),
    }
}

/// The request that calls a tool.
pub fn make_call_request(
    url: &String,
    session: &Option<String>,
    name: &str,
    arguments: &Json,
) -> (request: HttpRequest)
    ensures
        request@ == call_request(url@, session.deep_view(), name@, arguments@),
{
    let mut params: Vec<(String, Json)> = Vec::new();
    put(&mut params, "name", text(name));
    put(&mut params, "arguments", arguments.clone());
    HttpRequest {
        method: Method::Post,
        url: url.clone(),
        headers: document_headers(false, session),
        body: Some(rpc("tools/call", Json::Object(params), 3)),
    }
}

/// A request that brings nothing and names the client.
fn bare_request(method: Method, url: &String) -> (request: HttpRequest)
    ensures
        request@ == (HttpRequestView { method, url: url@, headers: seq![agent_header()], body: None }),
{
    let mut headers: Vec<(String, String)> = Vec::new();
    put_header(&mut headers, "User-Agent", "ethereum-forum-workshop/0.1.0");
    assert(headers.deep_view() =~= seq![agent_header()]);
    HttpRequest { method, url: url.clone(), headers, body: None }
}

/// The request that asks whether anything answers.
pub fn make_get_request(url: &String) -> (request: HttpRequest)
    ensures
        request@ == get_request(url@),
{
    bare_request(Method::Get, url)
}

/// The request that asks which methods are taken.
pub fn make_options_request(url: &String) -> (request: HttpRequest)
    ensures
        request@ == options_request(url@),
{
    bare_request(Method::Options, url)
}

/// The request that asks whether a document is taken.
pub fn make_post_request(url: &String) -> (request: HttpRequest)
    ensures
        request@ == post_request(url@),
{
    let mut headers: Vec<(String, String)> = Vec::new();
    put_header(&mut headers, "Content-Type", "application/json");
    put_header(&mut headers, "User-Agent", "ethereum-forum-workshop/0.1.0");
    assert(headers.deep_view() =~= post_request(url@).headers);
    let mut members: Vec<(String, Json)> = Vec::new();
    put(&mut members, "test", text("connectivity"));
    HttpRequest { method: Method::Post, url: url.clone(), headers, body: Some(Json::Object(members)) }
}

} // verus!
