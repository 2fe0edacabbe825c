//! The operations of a client, as sequences of exchanges with the server.
//!
//! An operation takes steps. A step either asks its caller to wait, send a request and come
//! back with the answer, or it is the last one and gives the outcome of the operation.

use crate::codec::parsed;
use crate::error::{McpError, McpErrorView};
use crate::http::{AnswerView, HttpReplyView, HttpRequest, HttpRequestView};
use crate::json::JsonView;
use crate::reply::{
    call_outcome, call_result, initialize_outcome, list_outcome, listed_tools,
};
use crate::request::{
    call_request, get_request, initialize_request, list_request, options_request, post_request,
};
use crate::retry::{failure, verdict, Verdict};
use crate::text::{occurs_in, stands_at};
use crate::tool::{McpToolResponseView, McpToolView};
use vstd::prelude::*;

verus! {

/// For how long the listed tools are good, in nanoseconds: five minutes.
pub const CACHE_NANOS: u128 = 300_000_000_000;

/// How long to wait before asking for a new session, in milliseconds.
pub const REFRESH_DELAY_MS: u64 = 500;

/// A step of an operation. `S` is where the operation stands, `T` what it is after.
#[derive(Debug)]
pub enum Step<S, T> {
    /// Wait, send the request, and go on from `stage` with the answer.
    Exchange { stage: S, delay_ms: u64, request: HttpRequest },
    /// The operation is over.
    Done(Result<T, McpError>),
}

/// What a `Step` says.
pub enum StepView<S, V> {
    Exchange { stage: S, delay_ms: u64, request: HttpRequestView },
    Done(Result<V, McpErrorView>),
}

impl<S: View, T: DeepView> View for Step<S, T> {
    type V = StepView<S::V, T::V>;

    open spec fn view(&self) -> StepView<S::V, T::V> {
        match *self {
            Step::Exchange { stage, delay_ms, request } => StepView::Exchange {
                stage: stage@,
                delay_ms,
                request: request@,
            },
            Step::Done(Ok(value)) => StepView::Done(Ok(value.deep_view())),
            Step::Done(Err(e)) => StepView::Done(Err(e@)),
        }
    }
}

/// The state of a client.
pub struct ClientView {
    /// Where the server is.
    pub server_url: Seq<char>,
    /// The server has taken the client in, and the client has neither forgotten that nor moved to
    /// another address since.
    pub connected: bool,
    /// What the server calls the session.
    pub session_id: Option<Seq<char>>,
    /// What the server said of itself.
    pub server_info: Option<JsonView>,
    /// The tools that the server listed last.
    pub tools_cache: Option<Seq<McpToolView>>,
    /// When it listed them, in nanoseconds of the caller's clock.
    pub last_update: Option<u128>,
}

/// A client that knows only where the server is.
pub open spec fn blank_client(server_url: Seq<char>) -> ClientView {
    ClientView {
        server_url,
        connected: false,
        session_id: None,
        server_info: None,
        tools_cache: None,
        last_update: None,
    }
}

impl ClientView {
    /// The client with nothing left but where the server is.
    pub open spec fn reset(self) -> ClientView {
        blank_client(self.server_url)
    }

    /// The client with the server at that address: it is not connected to another one.
    pub open spec fn moved(self, url: Seq<char>) -> ClientView {
        ClientView { server_url: url, connected: self.connected && url == self.server_url, ..self }
    }

    /// The listed tools are known and still good.
    pub open spec fn fresh(self, now: u128) -> bool {
        &&& self.tools_cache is Some
        &&& self.last_update is Some
        &&& now < self.last_update->0 + CACHE_NANOS
    }

    /// The client with the session that the server granted.
    pub open spec fn with_session(self, reply: HttpReplyView) -> ClientView {
        ClientView { session_id: reply.header("Mcp-Session-Id"@), ..self }
    }

    /// The client once the server has taken it in. What the server is, it says in the result of its
    /// document.
    pub open spec fn taken_in(self, document: JsonView) -> ClientView {
        match document.get("result"@) {
            Some(info) => ClientView { connected: true, server_info: Some(info), ..self },
            None => ClientView { connected: true, ..self },
        }
    }

    /// The client once the server has listed its tools.
    pub open spec fn with_tools(self, tools: Seq<McpToolView>, now: u128) -> ClientView {
        ClientView { tools_cache: Some(tools), last_update: Some(now), ..self }
    }
}

// Setting up a session. The stage is the number of the try.

/// What a server that carried out the request for a session makes of the client.
pub open spec fn welcomed(client: ClientView, reply: HttpReplyView) -> (
    ClientView,
    Result<(), McpErrorView>,
) {
    let granted = client.with_session(reply);
    match reply.body {
        Err(e) => (granted, Err(McpErrorView::Http(e))),
        Ok(text) => match parsed(text) {
            Err(e) => (granted, Err(McpErrorView::Serialization(e))),
            Ok(document) => (granted.taken_in(document), Ok(())),
        },
    }
}

/// The first step of setting up a session.
pub open spec fn connect_first(client: ClientView) -> StepView<u32, ()> {
    StepView::Exchange { stage: 0, delay_ms: 0, request: initialize_request(client.server_url) }
}

/// The step that follows an answer.
pub open spec fn connect_next(client: ClientView, attempt: u32, answer: AnswerView) -> (
    ClientView,
    StepView<u32, ()>,
) {
    match verdict(attempt, failure(initialize_outcome(answer))) {
        Verdict::Again { attempt, delay_ms } => (
            client,
            StepView::Exchange {
                stage: attempt,
                delay_ms,
                request: initialize_request(client.server_url),
            },
        ),
        Verdict::Settle => match initialize_outcome(answer) {
            Err(e) => (client, StepView::Done(Err(e))),
            Ok(reply) => (welcomed(client, reply).0, StepView::Done(welcomed(client, reply).1)),
        },
    }
}

// Listing the tools.

/// Where listing the tools stands, with the number of the try.
#[derive(Clone, Copy, PartialEq, Eq, Structural, Debug)]
pub enum ToolsStage {
    /// Setting up a session.
    Connecting(u32),
    /// Asking for the tools.
    Listing(u32),
    /// Setting up a session again, for the server no longer knew the one before.
    Reconnecting(u32),
    /// Asking for the tools again.
    Relisting(u32),
}

impl View for ToolsStage {
    type V = ToolsStage;

    open spec fn view(&self) -> ToolsStage {
        *self
    }
}

/// A step of listing the tools.
pub type ToolsStepView = StepView<ToolsStage, Seq<McpToolView>>;

/// Asks for the tools.
pub open spec fn list_step(client: ClientView, stage: ToolsStage, delay_ms: u64) -> ToolsStepView {
    StepView::Exchange {
        stage,
        delay_ms,
        request: list_request(client.server_url, client.session_id),
    }
}

/// The server listed its tools: they are kept, and are the outcome.
pub open spec fn tools_listed(client: ClientView, document: JsonView, now: u128) -> (
    ClientView,
    ToolsStepView,
) {
    let tools = listed_tools(document);
    (client.with_tools(tools, now), StepView::Done(Ok(tools)))
}

/// The server says that it does not know the session.
pub open spec fn session_lost(error: McpErrorView) -> bool {
    match error {
        McpErrorView::Protocol(text) => occurs_in("Session invalid (404)"@, text),
        _ => false,
    }
}

/// A lost session is a failure that is worth another try.
pub proof fn lemma_lost_session_passes(error: McpErrorView)
    requires
        session_lost(error),
    ensures
        error.retryable(),
{
    reveal_strlit("404");
    reveal_strlit("Session invalid (404)");
    let text = error->Protocol_0;
    let lost = "Session invalid (404)"@;
    let at = choose|at: int| stands_at(text, lost, at);
    assert(text.subrange(at + 17, at + 20) =~= text.subrange(at, at + lost.len()).subrange(17, 20));
    assert(lost.subrange(17, 20) =~= "404"@);
    assert(stands_at(text, "404"@, at + 17));
}

/// The first step of listing the tools: the known ones are given while they are good, and
/// otherwise everything is forgotten and a session set up.
pub open spec fn tools_first(client: ClientView, now: u128) -> (ClientView, ToolsStepView) {
    if client.fresh(now) {
        (client, StepView::Done(Ok(client.tools_cache->0)))
    } else {
        (
            client.reset(),
            StepView::Exchange {
                stage: ToolsStage::Connecting(0),
                delay_ms: 0,
                request: initialize_request(client.server_url),
            },
        )
    }
}

/// The step that follows an answer while the session is set up: `again` is the stage of a
/// further try, `onward` the one of asking for the tools.
pub open spec fn tools_connect(
    client: ClientView,
    attempt: u32,
    answer: AnswerView,
    again: spec_fn(u32) -> ToolsStage,
    onward: ToolsStage,
) -> (ClientView, ToolsStepView) {
    let (after, step) = connect_next(client, attempt, answer);
    match step {
        StepView::Exchange { stage, delay_ms, request } => (
            after,
            StepView::Exchange { stage: again(stage), delay_ms, request },
        ),
        StepView::Done(Err(e)) => (after, StepView::Done(Err(e))),
        StepView::Done(Ok(_)) => (after, list_step(after, onward, 0)),
    }
}

/// The step that follows an answer.
pub open spec fn tools_next(
    client: ClientView,
    stage: ToolsStage,
    answer: AnswerView,
    now: u128,
) -> (ClientView, ToolsStepView) {
    match stage {
        ToolsStage::Connecting(attempt) => tools_connect(
            client,
            attempt,
            answer,
            |n: u32| ToolsStage::Connecting(n),
            ToolsStage::Listing(0),
        ),
        ToolsStage::Listing(attempt) => {
            let outcome = list_outcome(answer, true);
            match verdict(attempt, failure(outcome)) {
                Verdict::Again { attempt, delay_ms } => (
                    client,
                    list_step(client, ToolsStage::Listing(attempt), delay_ms),
                ),
                Verdict::Settle => match outcome {
                    Ok(document) => tools_listed(client, document, now),
                    Err(e) => if session_lost(e) {
                        (
                            client.reset(),
                            StepView::Exchange {
                                stage: ToolsStage::Reconnecting(0),
                                delay_ms: REFRESH_DELAY_MS,
                                request: initialize_request(client.server_url),
                            },
                        )
                    } else {
                        (client, StepView::Done(Err(e)))
                    },
                },
            }
        },
        ToolsStage::Reconnecting(attempt) => tools_connect(
            client,
            attempt,
            answer,
            |n: u32| ToolsStage::Reconnecting(n),
            ToolsStage::Relisting(0),
        ),
        ToolsStage::Relisting(attempt) => {
            let outcome = list_outcome(answer, false);
            match verdict(attempt, failure(outcome)) {
                Verdict::Again { attempt, delay_ms } => (
                    client,
                    list_step(client, ToolsStage::Relisting(attempt), delay_ms),
                ),
                Verdict::Settle => match outcome {
                    Ok(document) => tools_listed(client, document, now),
                    Err(e) => (client, StepView::Done(Err(e))),
                },
            }
        },
    }
}

// Calling a tool.

/// Where a tool call stands, with the number of the try.
#[derive(Clone, Copy, PartialEq, Eq, Structural, Debug)]
pub enum CallStage {
    /// Setting up a session.
    Connecting(u32),
    /// Calling the tool.
    Calling(u32),
}

impl View for CallStage {
    type V = CallStage;

    open spec fn view(&self) -> CallStage {
        *self
    }
}

/// A step of a tool call.
pub type CallStepView = StepView<CallStage, McpToolResponseView>;

/// Calls the tool.
pub open spec fn call_step(
    client: ClientView,
    name: Seq<char>,
    arguments: JsonView,
    attempt: u32,
    delay_ms: u64,
) -> CallStepView {
    StepView::Exchange {
        stage: CallStage::Calling(attempt),
        delay_ms,
        request: call_request(client.server_url, client.session_id, name, arguments),
    }
}

/// Where a tool call begins, and with what request: a session is set up where there is none.
pub open spec fn call_opening(client: ClientView, name: Seq<char>, arguments: JsonView) -> (
    CallStage,
    HttpRequestView,
) {
    if client.session_id is None {
        (CallStage::Connecting(0), initialize_request(client.server_url))
    } else {
        (
            CallStage::Calling(0),
            call_request(client.server_url, client.session_id, name, arguments),
        )
    }
}

/// The first step of a tool call.
pub open spec fn call_first(
    client: ClientView,
    name: Seq<char>,
    arguments: JsonView,
) -> CallStepView {
    StepView::Exchange {
        stage: call_opening(client, name, arguments).0,
        delay_ms: 0,
        request: call_opening(client, name, arguments).1,
    }
}

/// The step that follows an answer.
pub open spec fn call_next(
    client: ClientView,
    name: Seq<char>,
    arguments: JsonView,
    stage: CallStage,
    answer: AnswerView,
) -> (ClientView, CallStepView) {
    match stage {
        CallStage::Connecting(attempt) => {
            let (after, step) = connect_next(client, attempt, answer);
            match step {
                StepView::Exchange { stage, delay_ms, request } => (
                    after,
                    StepView::Exchange { stage: CallStage::Connecting(stage), delay_ms, request },
                ),
                StepView::Done(Err(e)) => (after, StepView::Done(Err(e))),
                StepView::Done(Ok(_)) => (after, call_step(after, name, arguments, 0, 0)),
            }
        },
        CallStage::Calling(attempt) => {
            let outcome = call_outcome(answer);
            match verdict(attempt, failure(outcome)) {
                Verdict::Again { attempt, delay_ms } => (
                    client,
                    call_step(client, name, arguments, attempt, delay_ms),
                ),
                Verdict::Settle => match outcome {
                    Ok(document) => (client, StepView::Done(call_result(document))),
                    Err(e) => (client, StepView::Done(Err(e))),
                },
            }
        },
    }
}

// Testing whether the server can be reached.

/// Which request the test of the server waits for.
#[derive(Clone, Copy, PartialEq, Eq, Structural, Debug)]
pub enum Probe {
    Get,
    Options,
    Post,
}

impl View for Probe {
    type V = Probe;

    open spec fn view(&self) -> Probe {
        *self
    }
}

/// The first step of the test.
pub open spec fn probe_first(client: ClientView) -> StepView<Probe, ()> {
    StepView::Exchange { stage: Probe::Get, delay_ms: 0, request: get_request(client.server_url) }
}

/// The step that follows an answer: any reply will do, and the middle request may even get none.
pub open spec fn probe_next(client: ClientView, stage: Probe, answer: AnswerView) -> StepView<
    Probe,
    (),
> {
    match stage {
        Probe::Get => match answer {
            Ok(_) => StepView::Exchange {
                stage: Probe::Options,
                delay_ms: 0,
                request: options_request(client.server_url),
            },
            Err(e) => StepView::Done(
                Err(McpErrorView::Connection("Basic connectivity test failed: "@ + e.message)),
            ),
        },
        Probe::Options => StepView::Exchange {
            stage: Probe::Post,
            delay_ms: 0,
            request: post_request(client.server_url),
        },
        Probe::Post => match answer {
            Ok(_) => StepView::Done(Ok(())),
            Err(e) => StepView::Done(
                Err(McpErrorView::Connection("POST connectivity test failed: "@ + e.message)),
            ),
        },
    }
}

// Starting a client: the test, whatever it comes to, and then a session.

/// Where the start of a client stands.
#[derive(Clone, Copy, PartialEq, Eq, Structural, Debug)]
pub enum InitStage {
    /// Testing whether the server can be reached.
    Probing(Probe),
    /// Setting up a session, with the number of the try.
    Connecting(u32),
}

impl View for InitStage {
    type V = InitStage;

    open spec fn view(&self) -> InitStage {
        *self
    }
}

/// The first step of the start.
pub open spec fn init_first(client: ClientView) -> StepView<InitStage, ()> {
    StepView::Exchange {
        stage: InitStage::Probing(Probe::Get),
        delay_ms: 0,
        request: get_request(client.server_url),
    }
}

/// The step that follows an answer.
pub open spec fn init_next(client: ClientView, stage: InitStage, answer: AnswerView) -> (
    ClientView,
    StepView<InitStage, ()>,
) {
    match stage {
        InitStage::Probing(probe) => match probe_next(client, probe, answer) {
            StepView::Exchange { stage, delay_ms, request } => (
                client,
                StepView::Exchange { stage: InitStage::Probing(stage), delay_ms, request },
            ),
            StepView::Done(_) => (
                client,
                StepView::Exchange {
                    stage: InitStage::Connecting(0),
                    delay_ms: 0,
                    request: initialize_request(client.server_url),
                },
            ),
        },
        InitStage::Connecting(attempt) => {
            let (after, step) = connect_next(client, attempt, answer);
            match step {
                StepView::Exchange { stage, delay_ms, request } => (
                    after,
                    StepView::Exchange { stage: InitStage::Connecting(stage), delay_ms, request },
                ),
                StepView::Done(outcome) => (after, StepView::Done(outcome)),
            }
        },
    }
}

} // verus!
