//! The client: its state and its operations.

use crate::codec::parse_json;
use crate::error::McpError;
use crate::http::{answer_view, valid_answer, Answer, HttpReply, HttpRequest};
use crate::json::Json;
use crate::operation::{
    blank_client, call_first, call_next, call_opening, call_step, connect_first, connect_next,
    init_first, init_next, lemma_lost_session_passes, list_step, probe_first, probe_next,
    session_lost, tools_first, tools_listed, tools_next, welcomed, CallStage, ClientView, InitStage,
    Probe, Step, StepView, ToolsStage, CACHE_NANOS, REFRESH_DELAY_MS,
};
use crate::reply::{
    check_call, check_initialize, check_list, read_call_result, read_tools, refusal_passes,
    refused_for_good,
};
use crate::request::{
    make_call_request, make_get_request, make_initialize_request, make_list_request,
    make_options_request, make_post_request,
};
use crate::retry::{Attempt, MAX_RETRIES};
use crate::text::contains;
use crate::tool::{
    copy_tools, openai_tools, to_openai_tools, ChatCompletionTool, ChatCompletionToolView, McpTool,
    McpToolResponse, McpToolView,
};
use vstd::prelude::*;

verus! {

/// The client of one server.
pub struct McpClientManager {
    server_url: String,
    connected: bool,
    session_id: Option<String>,
    server_info: Option<Json>,
    tools_cache: Option<Vec<McpTool>>,
    last_update: Option<u128>,
}

impl View for McpClientManager {
    type V = ClientView;

    closed spec fn view(&self) -> ClientView {
        ClientView {
            server_url: self.server_url@,
            connected: self.connected,
            session_id: self.session_id.deep_view(),
            server_info: self.server_info.deep_view(),
            tools_cache: self.tools_cache.deep_view(),
            last_update: self.last_update,
        }
    }
}

/// Where the server is, unless the caller knows better.
pub open spec fn default_url() -> Seq<char> {
    "https://ethereum.forum/mcp"@
}

impl McpClientManager {
    /// A client of the server at that address, or at the default one.
    pub fn new(server_url: Option<String>) -> (client: McpClientManager)
        ensures
            client@ == blank_client(
                match server_url {
                    Some(url) => url@,
                    None => default_url(),
                },
            ),
    {
        let server_url = match server_url {
            Some(url) => url,
            None => "https://ethereum.forum/mcp".to_string(),
        };
        McpClientManager {
            server_url,
            connected: false,
            session_id: None,
            server_info: None,
            tools_cache: None,
            last_update: None,
        }
    }

    /// Starts to set up a session.
    pub fn initialize_connection(&self) -> (step: Step<u32, ()>)
        ensures
            step@ == connect_first(self@),
    {
        Step::Exchange {
            stage: 0,
            delay_ms: 0,
            request: make_initialize_request(&self.server_url),
        }
    }

    /// Takes the session that a server granted, and what it says of itself.
    fn welcome(&mut self, reply: HttpReply) -> (outcome: Result<(), McpError>)
        ensures
            final(self)@ == welcomed(old(self)@, reply@).0,
            match outcome {
                Ok(_) => welcomed(old(self)@, reply@).1 is Ok,
                Err(e) => welcomed(old(self)@, reply@).1 == Err::<(), _>(e@),
            },
    {
        self.session_id = reply.header("Mcp-Session-Id");
        match reply.body {
            Err(e) => Err(McpError::Http(e)),
            Ok(text) => match parse_json(text.as_str()) {
                Err(e) => Err(McpError::Serialization(e)),
                Ok(document) => {
                    if let Some(info) = document.get("result") {
                        self.server_info = Some(info.clone());
                    }
                    self.connected = true;
                    Ok(())
                },
            },
        }
    }

    /// Goes on to set up a session, after the answer to the try number `attempt`.
    pub fn resume_initialize_connection(&mut self, attempt: u32, answer: Answer) -> (step: Step<
        u32,
        (),
    >)
        requires
            valid_answer(answer_view(answer)),
        ensures
            (final(self)@, step@) == connect_next(old(self)@, attempt, answer_view(answer)),
            answer_view(answer) matches Ok(reply) ==> !reply.success() ==> (step is Exchange <==>
                refusal_passes(reply) && attempt + 1 < MAX_RETRIES),
    {
        let outcome = check_initialize(answer);
        match Self::retry_with_backoff(attempt, outcome) {
            Attempt::Again { attempt, delay_ms } => Step::Exchange {
                stage: attempt,
                delay_ms,
                request: make_initialize_request(&self.server_url),
            },
            Attempt::Finished(Err(e)) => Step::Done(Err(e)),
            Attempt::Finished(Ok(reply)) => Step::Done(self.welcome(reply)),
        }
    }

    /// Starts the client: tests whether the server can be reached, and sets up a session.
    pub fn init(&self) -> (step: Step<InitStage, ()>)
        ensures
            step@ == init_first(self@),
    {
        Step::Exchange {
            stage: InitStage::Probing(Probe::Get),
            delay_ms: 0,
            request: make_get_request(&self.server_url),
        }
    }

    /// Goes on to start the client, after an answer. What the test comes to does not matter.
    pub fn resume_init(&mut self, stage: InitStage, answer: Answer) -> (step: Step<InitStage, ()>)
        requires
            valid_answer(answer_view(answer)),
        ensures
            (final(self)@, step@) == init_next(old(self)@, stage, answer_view(answer)),
            answer_view(answer) matches Ok(reply) ==> stage is Connecting && refused_for_good(reply)
                ==> step matches Step::Done(Err(_)),
    {
        match stage {
            InitStage::Probing(probe) => match self.resume_test_connectivity(probe, answer) {
                Step::Exchange { stage, delay_ms, request } => Step::Exchange {
                    stage: InitStage::Probing(stage),
                    delay_ms,
                    request,
                },
                Step::Done(_) => Step::Exchange {
                    stage: InitStage::Connecting(0),
                    delay_ms: 0,
                    request: make_initialize_request(&self.server_url),
                },
            },
            InitStage::Connecting(attempt) => match self.resume_initialize_connection(
                attempt,
                answer,
            ) {
                Step::Exchange { stage, delay_ms, request } => Step::Exchange {
                    stage: InitStage::Connecting(stage),
                    delay_ms,
                    request,
                },
                Step::Done(outcome) => Step::Done(outcome),
            },
        }
    }

    /// Starts the client with the server at that address. The start goes on as that of `init`
    /// does. Until a session is set up, the client is not connected to an address that is new.
    pub fn init_default_client(&mut self, base_url: String) -> (step: Step<InitStage, ()>)
        ensures
            final(self)@ == old(self)@.moved(base_url@),
            step@ == init_first(final(self)@),
    {
        self.connected = self.connected && base_url == self.server_url;
        self.server_url = base_url;
        self.init()
    }

    /// Whether the client is connected: the server has taken it in.
    pub fn is_connected(&self) -> (connected: bool)
        ensures
            connected == self@.connected,
    {
        self.connected
    }

    /// Starts to list the tools: the known ones while they are good, at the time `now` of the
    /// caller's clock, and otherwise those that the server lists.
    pub fn get_tools(&mut self, now: u128) -> (step: Step<ToolsStage, Vec<McpTool>>)
        ensures
            (final(self)@, step@) == tools_first(old(self)@, now),
    {
        if let (Some(tools), Some(last_update)) = (&self.tools_cache, self.last_update) {
            if now.saturating_sub(last_update) < CACHE_NANOS {
                return Step::Done(Ok(copy_tools(tools)));
            }
        }
        self.reset_connection();
        Step::Exchange {
            stage: ToolsStage::Connecting(0),
            delay_ms: 0,
            request: make_initialize_request(&self.server_url),
        }
    }

    /// Asks for the tools.
    fn ask_for_tools(&self, stage: ToolsStage, delay_ms: u64) -> (step: Step<
        ToolsStage,
        Vec<McpTool>,
    >)
        ensures
            step@ == list_step(self@, stage, delay_ms),
    {
        Step::Exchange {
            stage,
            delay_ms,
            request: make_list_request(&self.server_url, &self.session_id),
        }
    }

    /// Keeps the tools that the server listed, and gives them out.
    fn take_tools(&mut self, document: &Json, now: u128) -> (step: Step<ToolsStage, Vec<McpTool>>)
        ensures
            (final(self)@, step@) == tools_listed(old(self)@, document@, now),
    {
        let tools = read_tools(document);
        self.tools_cache = Some(copy_tools(&tools));
        self.last_update = Some(now);
        Step::Done(Ok(tools))
    }

    /// Goes on to list the tools, after an answer that came at the time `now`.
    pub fn resume_get_tools(&mut self, stage: ToolsStage, answer: Answer, now: u128) -> (step: Step<
        ToolsStage,
        Vec<McpTool>,
    >)
        requires
            valid_answer(answer_view(answer)),
        ensures
            (final(self)@, step@) == tools_next(old(self)@, stage, answer_view(answer), now),
            answer_view(answer) matches Ok(reply) ==> refused_for_good(reply) ==> step matches
                Step::Done(Err(_)),
    {
        match stage {
            ToolsStage::Connecting(attempt) => match self.resume_initialize_connection(
                attempt,
                answer,
            ) {
                Step::Exchange { stage, delay_ms, request } => Step::Exchange {
                    stage: ToolsStage::Connecting(stage),
                    delay_ms,
                    request,
                },
                Step::Done(Err(e)) => Step::Done(Err(e)),
                Step::Done(Ok(_)) => self.ask_for_tools(ToolsStage::Listing(0), 0),
            },
            ToolsStage::Listing(attempt) => {
                let outcome = check_list(answer, true);
                match Self::retry_with_backoff(attempt, outcome) {
                    Attempt::Again { attempt, delay_ms } => self.ask_for_tools(
                        ToolsStage::Listing(attempt),
                        delay_ms,
                    ),
                    Attempt::Finished(Ok(document)) => self.take_tools(&document, now),
                    Attempt::Finished(Err(e)) => {
                        let lost = match &e {
                            McpError::Protocol(text) => contains(
                                text.as_str(),
                                "Session invalid (404)",
                            ),
                            _ => false,
                        };
                        proof {
                            assert(lost == session_lost(e@));
                            if lost {
                                lemma_lost_session_passes(e@);
                            }
                        }
                        if lost {
                            self.reset_connection();
                            Step::Exchange {
                                stage: ToolsStage::Reconnecting(0),
                                delay_ms: REFRESH_DELAY_MS,
                                request: make_initialize_request(&self.server_url),
                            }
                        } else {
                            Step::Done(Err(e))
                        }
                    },
                }
            },
            ToolsStage::Reconnecting(attempt) => match self.resume_initialize_connection(
                attempt,
                answer,
            ) {
                Step::Exchange { stage, delay_ms, request } => Step::Exchange {
                    stage: ToolsStage::Reconnecting(stage),
                    delay_ms,
                    request,
                },
                Step::Done(Err(e)) => Step::Done(Err(e)),
                Step::Done(Ok(_)) => self.ask_for_tools(ToolsStage::Relisting(0), 0),
            },
            ToolsStage::Relisting(attempt) => {
                let outcome = check_list(answer, false);
                match Self::retry_with_backoff(attempt, outcome) {
                    Attempt::Again { attempt, delay_ms } => self.ask_for_tools(
                        ToolsStage::Relisting(attempt),
                        delay_ms,
                    ),
                    Attempt::Finished(Ok(document)) => self.take_tools(&document, now),
                    Attempt::Finished(Err(e)) => Step::Done(Err(e)),
                }
            },
        }
    }

    /// Brings a step of listing the tools into the form that a chat model takes.
    fn openai_step(step: Step<ToolsStage, Vec<McpTool>>) -> (converted: Step<
        ToolsStage,
        Vec<ChatCompletionTool>,
    >)
        ensures
            converted@ == openai_step_view(step@),
    {
        match step {
            Step::Exchange { stage, delay_ms, request } => Step::Exchange {
                stage,
                delay_ms,
                request,
            },
            Step::Done(Ok(tools)) => Step::Done(Ok(to_openai_tools(&tools))),
            Step::Done(Err(e)) => Step::Done(Err(e)),
        }
    }

    /// Starts to list the tools in the form that a chat model takes.
    pub fn get_openai_tools(&mut self, now: u128) -> (step: Step<
        ToolsStage,
        Vec<ChatCompletionTool>,
    >)
        ensures
            final(self)@ == tools_first(old(self)@, now).0,
            step@ == openai_step_view(tools_first(old(self)@, now).1),
    {
        let step = self.get_tools(now);
        Self::openai_step(step)
    }

    /// Goes on to list the tools in the form that a chat model takes.
    pub fn resume_get_openai_tools(&mut self, stage: ToolsStage, answer: Answer, now: u128) -> (step:
        Step<ToolsStage, Vec<ChatCompletionTool>>)
        requires
            valid_answer(answer_view(answer)),
        ensures
            final(self)@ == tools_next(old(self)@, stage, answer_view(answer), now).0,
            step@ == openai_step_view(tools_next(old(self)@, stage, answer_view(answer), now).1),
            answer_view(answer) matches Ok(reply) ==> refused_for_good(reply) ==> step matches
                Step::Done(Err(_)),
    {
        let step = self.resume_get_tools(stage, answer, now);
        Self::openai_step(step)
    }

    /// Calls the tool.
    fn ask_for_call(&self, name: &str, arguments: &Json, attempt: u32, delay_ms: u64) -> (step: Step<
        CallStage,
        McpToolResponse,
    >)
        ensures
            step@ == call_step(self@, name@, arguments@, attempt, delay_ms),
    {
        Step::Exchange {
            stage: CallStage::Calling(attempt),
            delay_ms,
            request: make_call_request(&self.server_url, &self.session_id, name, arguments),
        }
    }

    /// Where a tool call begins, and with what request.
    pub(crate) fn open_call(&self, name: &str, arguments: &Json) -> (opening: (
        CallStage,
        HttpRequest,
    ))
        ensures
            (opening.0, opening.1@) == call_opening(self@, name@, arguments@),
    {
        if self.session_id.is_none() {
            (CallStage::Connecting(0), make_initialize_request(&self.server_url))
        } else {
            (
                CallStage::Calling(0),
                make_call_request(&self.server_url, &self.session_id, name, arguments),
            )
        }
    }

    /// Starts to call a tool.
    pub fn call_tool(&self, name: &str, arguments: &Json) -> (step: Step<
        CallStage,
        McpToolResponse,
    >)
        ensures
            step@ == call_first(self@, name@, arguments@),
    {
        let (stage, request) = self.open_call(name, arguments);
        Step::Exchange { stage, delay_ms: 0, request }
    }

    /// Goes on to call a tool, after an answer.
    pub fn resume_call_tool(
        &mut self,
        name: &str,
        arguments: &Json,
        stage: CallStage,
        answer: Answer,
    ) -> (step: Step<CallStage, McpToolResponse>)
        requires
            valid_answer(answer_view(answer)),
        ensures
            (final(self)@, step@) == call_next(
                old(self)@,
                name@,
                arguments@,
                stage,
                answer_view(answer),
            ),
            answer_view(answer) matches Ok(reply) ==> refused_for_good(reply) && (reply.body is Ok
                || stage is Connecting) ==> step matches Step::Done(Err(_)),
    {
        match stage {
            CallStage::Connecting(attempt) => match self.resume_initialize_connection(
                attempt,
                answer,
            ) {
                Step::Exchange { stage, delay_ms, request } => Step::Exchange {
                    stage: CallStage::Connecting(stage),
                    delay_ms,
                    request,
                },
                Step::Done(Err(e)) => Step::Done(Err(e)),
                Step::Done(Ok(_)) => self.ask_for_call(name, arguments, 0, 0),
            },
            CallStage::Calling(attempt) => {
                let outcome = check_call(answer);
                match Self::retry_with_backoff(attempt, outcome) {
                    Attempt::Again { attempt, delay_ms } => self.ask_for_call(
                        name,
                        arguments,
                        attempt,
                        delay_ms,
                    ),
                    Attempt::Finished(Ok(document)) => Step::Done(read_call_result(&document)),
                    Attempt::Finished(Err(e)) => Step::Done(Err(e)),
                }
            },
        }
    }

    /// Forgets the session, and all that the server said.
    pub fn reset_connection(&mut self)
        ensures
            final(self)@ == old(self)@.reset(),
    {
        self.connected = false;
        self.session_id = None;
        self.server_info = None;
        self.tools_cache = None;
        self.last_update = None;
    }

    /// Whether the client has an address to talk to.
    pub fn is_enabled(&self) -> (enabled: bool)
        ensures
            enabled == (self@.server_url.len() != 0),
    {
        !self.server_url.as_str().is_empty()
    }

    /// Where the server is.
    pub fn get_base_url(&self) -> (url: String)
        ensures
            url@ == self@.server_url,
    {
        self.server_url.clone()
    }

    /// The servers of the client: the one.
    pub fn list_servers(&self) -> (servers: Result<Vec<String>, McpError>)
        ensures
            servers is Ok,
            servers->Ok_0.deep_view() == seq![self@.server_url],
    {
        let mut servers: Vec<String> = Vec::new();
        servers.push(self.server_url.clone());
        assert(servers.deep_view() =~= seq![self@.server_url]);
        Ok(servers)
    }

    /// Starts to list the tools, as `get_tools` does. It goes on as that does.
    pub fn list_all_tools(&mut self, now: u128) -> (step: Step<ToolsStage, Vec<McpTool>>)
        ensures
            (final(self)@, step@) == tools_first(old(self)@, now),
    {
        self.get_tools(now)
    }

    /// Starts to test whether the server can be reached.
    pub fn test_connectivity(&self) -> (step: Step<Probe, ()>)
        ensures
            step@ == probe_first(self@),
    {
        Step::Exchange {
            stage: Probe::Get,
            delay_ms: 0,
            request: make_get_request(&self.server_url),
        }
    }

    /// Goes on to test whether the server can be reached, after an answer.
    pub fn resume_test_connectivity(&self, stage: Probe, answer: Answer) -> (step: Step<Probe, ()>)
        ensures
            step@ == probe_next(self@, stage, answer_view(answer)),
    {
        match stage {
            Probe::Get => match answer {
                Ok(_) => Step::Exchange {
                    stage: Probe::Options,
                    delay_ms: 0,
                    request: make_options_request(&self.server_url),
                },
                Err(e) => Step::Done(
                    Err(
                        McpError::Connection(
                            "Basic connectivity test failed: ".to_string().concat(
                                e.message.as_str(),
                            ),
                        ),
                    ),
                ),
            },
            Probe::Options => Step::Exchange {
                stage: Probe::Post,
                delay_ms: 0,
                request: make_post_request(&self.server_url),
            },
            Probe::Post => match answer {
                Ok(_) => Step::Done(Ok(())),
                Err(e) => Step::Done(
                    Err(
                        McpError::Connection(
                            "POST connectivity test failed: ".to_string().concat(
                                e.message.as_str(),
                            ),
                        ),
                    ),
                ),
            },
        }
    }
}

/// A step of listing the tools, in the form that a chat model takes.
pub open spec fn openai_step_view(step: StepView<ToolsStage, Seq<McpToolView>>) -> StepView<
    ToolsStage,
    Seq<ChatCompletionToolView>,
> {
    match step {
        StepView::Exchange { stage, delay_ms, request } => StepView::Exchange {
            stage,
            delay_ms,
            request,
        },
        StepView::Done(Ok(tools)) => StepView::Done(Ok(openai_tools(tools))),
        StepView::Done(Err(e)) => StepView::Done(Err(e)),
    }
}

} // verus!
