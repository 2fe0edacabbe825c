//! What holds of the client as a whole.

pub mod chat;
pub mod operations;
pub mod replies;
pub mod requests;
pub mod values;

use crate::codec::parsed;
use crate::error::{lemma_names_nothing, passing_status, McpErrorView};
use crate::helper::{
    call_arguments, call_report, calls_first, calls_next, calls_step, last_tool_calls, result_line,
    results_text, ToolCallsStageView, ToolCallsStepView,
};
use crate::http::{AnswerView, HttpErrorView, HttpReplyView};
use crate::json::JsonView;
use crate::operation::{
    blank_client, call_first, call_next, connect_first, connect_next, init_first, init_next,
    list_step, session_lost, tools_first, tools_next, welcomed, CallStage, CallStepView,
    ClientView, InitStage, Probe, StepView, ToolsStage, ToolsStepView, CACHE_NANOS,
    REFRESH_DELAY_MS,
};
use crate::reply::{
    call_outcome, call_result, first_document, initialize_outcome, is_event_stream,
    lemma_passing_status_named, line_document, list_failure, list_outcome, listed_tools, reply_document, reply_object, status_message,
    tool_response,
};
use crate::request::{call_request, initialize_request, list_request};
use crate::retry::{verdict, Verdict, BASE_DELAY_MS, MAX_RETRIES};
use crate::text::{lemma_first_line, lemma_joined_in_two, stands_at, text_lines, without_return};
use crate::tool::{openai_tools, ChatMessageView, McpToolView, ToolCallView};
use vstd::arithmetic::power2::{lemma2_to64, pow2};
use vstd::prelude::*;

verus! {

// Trying again.

/// A reply with a passing status is a failure that is worth another try, whatever was asked for.
/// A tool call whose reply has no body that can be read is left out: there the failure to read
/// it is what counts.
pub proof fn law_passing_status_is_retried(reply: HttpReplyView)
    requires
        passing_status(reply.status),
    ensures
        initialize_outcome(Ok(reply)) matches Err(e) && e.retryable(),
        list_outcome(Ok(reply), true) matches Err(e) && e.retryable(),
        list_outcome(Ok(reply), false) matches Err(e) && e.retryable(),
        reply.body is Ok ==> (call_outcome(Ok(reply)) matches Err(e) && e.retryable()),
{
    let body = reply.body_or_empty();
    let status = reply.status;
    let link = "\nResponse: "@;
    lemma_passing_status_named(
        "Initialization failed with status: "@,
        status,
        " - Response: "@,
        body,
    );
    lemma_passing_status_named(list_failure(status, true), status, link, body);
    lemma_passing_status_named(list_failure(status, false), status, link, body);
    lemma_passing_status_named("Tool call failed with status: "@, status, link, body);
}

/// A reply that says that the request was carried out, with a body that can be read, is never a
/// failure that is worth another try, whatever the body holds.
pub proof fn law_carried_out_is_final(reply: HttpReplyView, first_round: bool)
    requires
        reply.success(),
        reply.body is Ok,
    ensures
        initialize_outcome(Ok(reply)) is Ok,
        list_outcome(Ok(reply), first_round) matches Err(e) ==> !e.retryable(),
        call_outcome(Ok(reply)) matches Err(e) ==> !e.retryable(),
{
    reveal_strlit("No valid JSON found in SSE response");
    lemma_names_nothing("No valid JSON found in SSE response"@);
}

/// An operation is tried three times at most, only passing failures are tried again, the waits
/// are one second and two, and a success stands at once.
pub proof fn law_backoff(attempt: u32, failed: Option<McpErrorView>)
    ensures
        verdict(attempt, failed) is Again <==> attempt + 1 < MAX_RETRIES && (failed matches Some(e)
            && e.retryable()),
        verdict(attempt, failed) matches Verdict::Again { attempt: next, delay_ms } ==> {
            &&& next == attempt + 1
            &&& attempt == 0 ==> delay_ms == 1000
            &&& attempt == 1 ==> delay_ms == 2000
        },
{
    lemma2_to64();
}

/// The answer to a request for a session is a failure that is worth another try.
pub open spec fn initialize_passes(answer: AnswerView) -> bool {
    initialize_outcome(answer) matches Err(e) && e.retryable()
}

/// Setting up a session, as far as the answers go.
pub open spec fn connect_run(
    client: ClientView,
    step: StepView<u32, ()>,
    answers: Seq<AnswerView>,
) -> (ClientView, StepView<u32, ()>)
    decreases answers.len(),
{
    match step {
        StepView::Exchange { stage, .. } if answers.len() > 0 => {
            let (after, next) = connect_next(client, stage, answers[0]);
            connect_run(after, next, answers.skip(1))
        },
        _ => (client, step),
    }
}

/// After one passing failure, or two, setting up a session waits, one second and then two, and
/// sends the same request again. Nothing of the client changes.
pub proof fn law_connect_tries_again(client: ClientView, answers: Seq<AnswerView>)
    requires
        1 <= answers.len() <= 2,
        forall|i: int| 0 <= i < answers.len() ==> initialize_passes(#[trigger] answers[i]),
    ensures
        connect_run(client, connect_first(client), answers) == (
            client,
            StepView::<u32, ()>::Exchange {
                stage: answers.len() as u32,
                delay_ms: (BASE_DELAY_MS * pow2((answers.len() - 1) as nat)) as u64,
                request: initialize_request(client.server_url),
            },
        ),
{
    reveal_with_fuel(connect_run, 3);
    lemma2_to64();
    assert(initialize_passes(answers[0]));
    if answers.len() == 2 {
        assert(answers.skip(1)[0] == answers[1]);
        assert(initialize_passes(answers[1]));
    }
}

/// Setting up a session comes to what the first answer says that is no passing failure, or the
/// third answer where the first two are: an error, or the session that the server granted.
pub proof fn law_connect_settles(client: ClientView, answers: Seq<AnswerView>)
    requires
        1 <= answers.len() <= 3,
        forall|i: int| 0 <= i < answers.len() - 1 ==> initialize_passes(#[trigger] answers[i]),
        answers.len() < 3 ==> !initialize_passes(answers.last()),
    ensures
        connect_run(client, connect_first(client), answers) == match initialize_outcome(
            answers.last(),
        ) {
            Err(e) => (client, StepView::<u32, ()>::Done(Err(e))),
            Ok(reply) => (
                welcomed(client, reply).0,
                StepView::<u32, ()>::Done(welcomed(client, reply).1),
            ),
        },
{
    reveal_with_fuel(connect_run, 4);
    if answers.len() >= 2 {
        assert(initialize_passes(answers[0]));
        assert(answers.skip(1)[0] == answers[1]);
    }
    if answers.len() == 3 {
        assert(initialize_passes(answers[1]));
        assert(answers.skip(1).skip(1)[0] == answers[2]);
    }
}

// Every operation ends.

/// How many tries are left, the one under way among them.
pub open spec fn tries_left(attempt: u32) -> nat {
    if attempt < MAX_RETRIES {
        (MAX_RETRIES - attempt) as nat
    } else {
        1
    }
}

/// How many more answers listing the tools takes at most.
pub open spec fn tools_rank(step: ToolsStepView) -> nat {
    match step {
        StepView::Done(_) => 0,
        StepView::Exchange { stage, .. } => match stage {
            ToolsStage::Connecting(attempt) => 9 + tries_left(attempt),
            ToolsStage::Listing(attempt) => 6 + tries_left(attempt),
            ToolsStage::Reconnecting(attempt) => 3 + tries_left(attempt),
            ToolsStage::Relisting(attempt) => tries_left(attempt),
        },
    }
}

/// How many more answers a tool call takes at most.
pub open spec fn call_rank(step: CallStepView) -> nat {
    match step {
        StepView::Done(_) => 0,
        StepView::Exchange { stage, .. } => call_stage_rank(stage),
    }
}

/// How many more answers a tool call takes at most from that stage on.
pub open spec fn call_stage_rank(stage: CallStage) -> nat {
    match stage {
        CallStage::Connecting(attempt) => 3 + tries_left(attempt),
        CallStage::Calling(attempt) => tries_left(attempt),
    }
}

/// How many more answers the start of a client takes at most.
pub open spec fn init_rank(step: StepView<InitStage, ()>) -> nat {
    match step {
        StepView::Done(_) => 0,
        StepView::Exchange { stage, .. } => match stage {
            InitStage::Probing(Probe::Get) => 6,
            InitStage::Probing(Probe::Options) => 5,
            InitStage::Probing(Probe::Post) => 4,
            InitStage::Connecting(attempt) => tries_left(attempt),
        },
    }
}

/// How many more answers a round of tool calls takes at most.
pub open spec fn calls_rank(step: ToolCallsStepView) -> nat {
    match step {
        StepView::Done(_) => 0,
        StepView::Exchange { stage, .. } => call_stage_rank(stage.stage) + 6 * stage.waiting.len(),
    }
}

/// Listing the tools, as far as the answers go, each with the time at which it came.
pub open spec fn tools_run(
    client: ClientView,
    step: ToolsStepView,
    answers: Seq<(AnswerView, u128)>,
) -> (ClientView, ToolsStepView)
    decreases answers.len(),
{
    match step {
        StepView::Exchange { stage, .. } if answers.len() > 0 => {
            let (after, next) = tools_next(client, stage, answers[0].0, answers[0].1);
            tools_run(after, next, answers.skip(1))
        },
        _ => (client, step),
    }
}

/// A tool call, as far as the answers go.
pub open spec fn call_run(
    client: ClientView,
    name: Seq<char>,
    arguments: JsonView,
    step: CallStepView,
    answers: Seq<AnswerView>,
) -> (ClientView, CallStepView)
    decreases answers.len(),
{
    match step {
        StepView::Exchange { stage, .. } if answers.len() > 0 => {
            let (after, next) = call_next(client, name, arguments, stage, answers[0]);
            call_run(after, name, arguments, next, answers.skip(1))
        },
        _ => (client, step),
    }
}

/// The start of a client, as far as the answers go.
pub open spec fn init_run(
    client: ClientView,
    step: StepView<InitStage, ()>,
    answers: Seq<AnswerView>,
) -> (ClientView, StepView<InitStage, ()>)
    decreases answers.len(),
{
    match step {
        StepView::Exchange { stage, .. } if answers.len() > 0 => {
            let (after, next) = init_next(client, stage, answers[0]);
            init_run(after, next, answers.skip(1))
        },
        _ => (client, step),
    }
}

/// A round of tool calls, as far as the answers go.
pub open spec fn calls_run(
    client: ClientView,
    step: ToolCallsStepView,
    answers: Seq<AnswerView>,
) -> (ClientView, ToolCallsStepView)
    decreases answers.len(),
{
    match step {
        StepView::Exchange { stage, .. } if answers.len() > 0 => {
            let (after, next) = calls_next(client, stage, answers[0]);
            calls_run(after, next, answers.skip(1))
        },
        _ => (client, step),
    }
}

/// Listing the tools is over after as many answers as its rank says.
proof fn lemma_tools_end(
    client: ClientView,
    step: ToolsStepView,
    answers: Seq<(AnswerView, u128)>,
)
    requires
        answers.len() >= tools_rank(step),
    ensures
        tools_run(client, step, answers).1 is Done,
    decreases answers.len(),
{
    if let StepView::Exchange { stage, .. } = step {
        let (after, next) = tools_next(client, stage, answers[0].0, answers[0].1);
        assert(tools_rank(next) < tools_rank(step));
        lemma_tools_end(after, next, answers.skip(1));
    }
}

/// Listing the tools takes twelve answers at most, whatever they are: three tries to set up a
/// session, three to list the tools, and both once more where the session was lost.
pub proof fn law_get_tools_ends(client: ClientView, now: u128, answers: Seq<(AnswerView, u128)>)
    requires
        answers.len() >= 12,
    ensures
        ({
            let (after, step) = tools_first(client, now);
            tools_run(after, step, answers).1 is Done
        }),
{
    let (after, step) = tools_first(client, now);
    lemma_tools_end(after, step, answers);
}

/// A tool call is over after as many answers as its rank says.
proof fn lemma_call_ends(
    client: ClientView,
    name: Seq<char>,
    arguments: JsonView,
    step: CallStepView,
    answers: Seq<AnswerView>,
)
    requires
        answers.len() >= call_rank(step),
    ensures
        call_run(client, name, arguments, step, answers).1 is Done,
    decreases answers.len(),
{
    if let StepView::Exchange { stage, .. } = step {
        let (after, next) = call_next(client, name, arguments, stage, answers[0]);
        assert(call_rank(next) < call_rank(step));
        lemma_call_ends(after, name, arguments, next, answers.skip(1));
    }
}

/// A tool call takes six answers at most, whatever they are, and three where there is a session.
pub proof fn law_call_tool_ends(
    client: ClientView,
    name: Seq<char>,
    arguments: JsonView,
    answers: Seq<AnswerView>,
)
    requires
        answers.len() >= if client.session_id is None {
            6int
        } else {
            3
        },
    ensures
        call_run(client, name, arguments, call_first(client, name, arguments), answers).1 is Done,
{
    lemma_call_ends(client, name, arguments, call_first(client, name, arguments), answers);
}

/// The start of a client is over after as many answers as its rank says.
proof fn lemma_init_ends(
    client: ClientView,
    step: StepView<InitStage, ()>,
    answers: Seq<AnswerView>,
)
    requires
        answers.len() >= init_rank(step),
    ensures
        init_run(client, step, answers).1 is Done,
    decreases answers.len(),
{
    if let StepView::Exchange { stage, .. } = step {
        let (after, next) = init_next(client, stage, answers[0]);
        assert(init_rank(next) < init_rank(step));
        lemma_init_ends(after, next, answers.skip(1));
    }
}

/// The start of a client takes six answers at most, whatever they are.
pub proof fn law_init_ends(client: ClientView, answers: Seq<AnswerView>)
    requires
        answers.len() >= 6,
    ensures
        init_run(client, init_first(client), answers).1 is Done,
{
    lemma_init_ends(client, init_first(client), answers);
}

/// A round of tool calls is over after as many answers as its rank says.
proof fn lemma_calls_end(client: ClientView, step: ToolCallsStepView, answers: Seq<AnswerView>)
    requires
        answers.len() >= calls_rank(step),
    ensures
        calls_run(client, step, answers).1 is Done,
    decreases answers.len(),
{
    if let StepView::Exchange { stage, .. } = step {
        let (after, next) = calls_next(client, stage, answers[0]);
        let (_, inner) = call_next(
            client,
            stage.call.name,
            stage.arguments,
            stage.stage,
            answers[0],
        );
        assert(call_rank(inner) < call_stage_rank(stage.stage));
        assert(calls_rank(next) < calls_rank(step));
        lemma_calls_end(after, next, answers.skip(1));
    }
}

/// A round of tool calls takes six answers at most for each call, whatever they are.
pub proof fn law_process_tool_calls_ends(
    client: ClientView,
    messages: Seq<ChatMessageView>,
    answers: Seq<AnswerView>,
)
    requires
        last_tool_calls(messages) matches Some(calls) ==> answers.len() >= 6 * calls.len(),
    ensures
        calls_run(client, calls_first(client, messages), answers).1 is Done,
{
    lemma_calls_end(client, calls_first(client, messages), answers);
}

// Sessions.

/// The answer to a tool call is a failure that is worth another try.
pub open spec fn call_passes(answer: AnswerView) -> bool {
    call_outcome(answer) matches Err(e) && e.retryable()
}

/// Within a session, a tool call comes to what the first answer says that is no passing failure,
/// or the third answer where the first two are. Nothing of the client changes.
pub proof fn law_call_settles(
    client: ClientView,
    name: Seq<char>,
    arguments: JsonView,
    answers: Seq<AnswerView>,
)
    requires
        client.session_id is Some,
        1 <= answers.len() <= 3,
        forall|i: int| 0 <= i < answers.len() - 1 ==> call_passes(#[trigger] answers[i]),
        answers.len() < 3 ==> !call_passes(answers.last()),
    ensures
        call_run(client, name, arguments, call_first(client, name, arguments), answers) == (
            client,
            CallStepView::Done(
                match call_outcome(answers.last()) {
                    Err(e) => Err(e),
                    Ok(document) => call_result(document),
                },
            ),
        ),
{
    reveal_with_fuel(call_run, 4);
    if answers.len() >= 2 {
        assert(call_passes(answers[0]));
        assert(answers.skip(1)[0] == answers[1]);
    }
    if answers.len() == 3 {
        assert(call_passes(answers[1]));
        assert(answers.skip(1).skip(1)[0] == answers[2]);
    }
}

/// Without a session, a tool call first sets one up, and then calls the tool within the session
/// that the server granted.
pub proof fn law_call_sets_up_session(
    client: ClientView,
    name: Seq<char>,
    arguments: JsonView,
    reply: HttpReplyView,
)
    requires
        client.session_id is None,
        reply.success(),
        welcomed(client, reply).1 is Ok,
    ensures
        call_first(client, name, arguments) == (CallStepView::Exchange {
            stage: CallStage::Connecting(0),
            delay_ms: 0,
            request: initialize_request(client.server_url),
        }),
        call_next(client, name, arguments, CallStage::Connecting(0), Ok(reply)) == (
            welcomed(client, reply).0,
            CallStepView::Exchange {
                stage: CallStage::Calling(0),
                delay_ms: 0,
                request: call_request(
                    client.server_url,
                    reply.header("Mcp-Session-Id"@),
                    name,
                    arguments,
                ),
            },
        ),
{
}

/// A reply of status 404 in the first round counts as a lost session, and as worth another try.
proof fn lemma_unknown_session(reply: HttpReplyView)
    requires
        reply.status == 404,
    ensures
        list_outcome(Ok(reply), true) matches Err(e) && session_lost(e) && e.retryable(),
{
    law_passing_status_is_retried(reply);
    let lost = "Session invalid (404)"@;
    let what = "Session invalid (404) - Tools list request failed with status: "@;
    reveal_strlit("Session invalid (404)");
    reveal_strlit("Session invalid (404) - Tools list request failed with status: ");
    let text = status_message(what, 404, "\nResponse: "@, reply.body_or_empty());
    assert(text.subrange(0, lost.len() as int) =~= lost);
    assert(stands_at(text, lost, 0));
}

/// Where the server does not know the session when the tools are asked for, they are asked for
/// three times; then everything but the address is forgotten, and after half a second a session
/// is set up again.
pub proof fn law_lost_session_is_renewed(client: ClientView, answers: Seq<(AnswerView, u128)>)
    requires
        answers.len() == 3,
        forall|i: int|
            0 <= i < 3 ==> (#[trigger] answers[i].0 matches Ok(reply) && reply.status == 404),
    ensures
        tools_run(client, list_step(client, ToolsStage::Listing(0), 0), answers) == (
            client.reset(),
            ToolsStepView::Exchange {
                stage: ToolsStage::Reconnecting(0),
                delay_ms: REFRESH_DELAY_MS,
                request: initialize_request(client.server_url),
            },
        ),
{
    reveal_with_fuel(tools_run, 4);
    lemma_unknown_session(answers[0].0->Ok_0);
    lemma_unknown_session(answers[1].0->Ok_0);
    lemma_unknown_session(answers[2].0->Ok_0);
    assert(answers.skip(1)[0] == answers[1]);
    assert(answers.skip(1).skip(1)[0] == answers[2]);
}

/// The answer to a request for the tools is a failure that is worth another try.
pub open spec fn list_passes(answer: AnswerView, first_round: bool) -> bool {
    list_outcome(answer, first_round) matches Err(e) && e.retryable()
}

/// Asking for the tools comes to what the first answer says that is no passing failure, or the
/// third answer where the first two are: the tools, or an error. This is said of both rounds, and
/// of the first round where the server knows the session.
pub proof fn law_list_settles(
    client: ClientView,
    first_round: bool,
    answers: Seq<(AnswerView, u128)>,
)
    requires
        1 <= answers.len() <= 3,
        forall|i: int|
            0 <= i < answers.len() - 1 ==> list_passes(#[trigger] answers[i].0, first_round),
        answers.len() < 3 ==> !list_passes(answers.last().0, first_round),
        first_round ==> !(list_outcome(answers.last().0, true) matches Err(e) && session_lost(e)),
    ensures
        ({
            let stage = if first_round {
                ToolsStage::Listing(0)
            } else {
                ToolsStage::Relisting(0)
            };
            let (answer, now) = answers.last();
            tools_run(client, list_step(client, stage, 0), answers) == match list_outcome(
                answer,
                first_round,
            ) {
                Err(e) => (client, ToolsStepView::Done(Err(e))),
                Ok(document) => (
                    client.with_tools(listed_tools(document), now),
                    ToolsStepView::Done(Ok(listed_tools(document))),
                ),
            }
        }),
{
    reveal_with_fuel(tools_run, 4);
    if answers.len() >= 2 {
        assert(list_passes(answers[0].0, first_round));
        assert(answers.skip(1)[0] == answers[1]);
    }
    if answers.len() == 3 {
        assert(list_passes(answers[1].0, first_round));
        assert(answers.skip(1).skip(1)[0] == answers[2]);
    }
}

/// The start of a client sets up a session whatever the test of the server comes to: at once
/// where the first request gets no reply, and otherwise after three requests.
pub proof fn law_init_connects(client: ClientView, answers: Seq<AnswerView>)
    requires
        answers.len() >= 1,
        answers[0] is Ok ==> answers.len() >= 3,
    ensures
        init_run(
            client,
            init_first(client),
            answers.take(
                if answers[0] is Ok {
                    3
                } else {
                    1
                },
            ),
        ) == (
            client,
            StepView::<InitStage, ()>::Exchange {
                stage: InitStage::Connecting(0),
                delay_ms: 0,
                request: initialize_request(client.server_url),
            },
        ),
{
    reveal_with_fuel(init_run, 4);
    if answers[0] is Ok {
        let three = answers.take(3);
        assert(three.skip(1)[0] == answers[1]);
        assert(three.skip(1).skip(1)[0] == answers[2]);
    }
}

/// Where the server grants a session, the tools are asked for within that very session, the first
/// time as well as after a session was lost.
pub proof fn law_tools_are_listed_in_new_session(
    client: ClientView,
    reply: HttpReplyView,
    attempt: u32,
    now: u128,
)
    requires
        reply.success(),
        welcomed(client, reply).1 is Ok,
    ensures
        tools_next(client, ToolsStage::Connecting(attempt), Ok(reply), now) == (
            welcomed(client, reply).0,
            ToolsStepView::Exchange {
                stage: ToolsStage::Listing(0),
                delay_ms: 0,
                request: list_request(client.server_url, reply.header("Mcp-Session-Id"@)),
            },
        ),
        tools_next(client, ToolsStage::Reconnecting(attempt), Ok(reply), now) == (
            welcomed(client, reply).0,
            ToolsStepView::Exchange {
                stage: ToolsStage::Relisting(0),
                delay_ms: 0,
                request: list_request(client.server_url, reply.header("Mcp-Session-Id"@)),
            },
        ),
{
}

/// Where the tools are not known, or no longer good, and the server grants a session and lists
/// its tools, two exchanges give these tools.
pub proof fn law_get_tools_lists(
    client: ClientView,
    now: u128,
    granted: (HttpReplyView, u128),
    listed: (HttpReplyView, u128),
)
    requires
        !client.fresh(now),
        granted.0.success(),
        welcomed(client.reset(), granted.0).1 is Ok,
        listed.0.success(),
        reply_document(listed.0) is Ok,
    ensures
        ({
            let (after, step) = tools_first(client, now);
            let answers: Seq<(AnswerView, u128)> = seq![
                (Ok(granted.0), granted.1),
                (Ok(listed.0), listed.1),
            ];
            let tools = listed_tools(reply_document(listed.0)->Ok_0);
            &&& step == (ToolsStepView::Exchange {
                stage: ToolsStage::Connecting(0),
                delay_ms: 0,
                request: initialize_request(client.server_url),
            })
            &&& tools_run(after, step, answers) == (
                welcomed(client.reset(), granted.0).0.with_tools(tools, listed.1),
                ToolsStepView::Done(Ok(tools)),
            )
        }),
{
    reveal_with_fuel(tools_run, 3);
    let answers: Seq<(AnswerView, u128)> = seq![
        (Ok(granted.0), granted.1),
        (Ok(listed.0), listed.1),
    ];
    assert(answers.skip(1)[0] == answers[1]);
}

// Being connected.

/// A client is connected from the moment on at which a server takes it in: a new client is not, nor
/// is one after a reset or at a new address; setting up a session, alone or as a part of the start
/// or of a tool call, connects it where it succeeds, and changes nothing of it where it fails.
pub proof fn law_connected(
    client: ClientView,
    url: Seq<char>,
    name: Seq<char>,
    arguments: JsonView,
    attempt: u32,
    init_stage: InitStage,
    answer: AnswerView,
)
    ensures
        !blank_client(url).connected,
        !client.reset().connected,
        client.moved(url).connected <==> client.connected && url == client.server_url,
        ({
            let (after, step) = connect_next(client, attempt, answer);
            after.connected <==> client.connected || step matches StepView::Done(Ok(_))
        }),
        ({
            let (after, step) = init_next(client, init_stage, answer);
            after.connected <==> client.connected || step matches StepView::Done(Ok(_))
        }),
        ({
            let stage = CallStage::Connecting(attempt);
            let (after, step) = call_next(client, name, arguments, stage, answer);
            after.connected <==> client.connected || (step matches StepView::Exchange {
                stage: CallStage::Calling(_),
                ..
            })
        }),
        ({
            let stage = CallStage::Calling(attempt);
            call_next(client, name, arguments, stage, answer).0.connected == client.connected
        }),
{
}

/// The tools are asked for by a client that is connected.
spec fn asked_while_connected(client: ClientView, step: ToolsStepView) -> bool {
    match step {
        StepView::Done(outcome) => outcome is Ok ==> client.connected,
        StepView::Exchange { stage, .. } => stage is Listing || stage is Relisting
            ==> client.connected,
    }
}

/// A run of listing the tools keeps to it.
proof fn lemma_asked_while_connected(
    client: ClientView,
    step: ToolsStepView,
    answers: Seq<(AnswerView, u128)>,
)
    requires
        asked_while_connected(client, step),
    ensures
        ({
            let (after, last) = tools_run(client, step, answers);
            asked_while_connected(after, last)
        }),
    decreases answers.len(),
{
    if let StepView::Exchange { stage, .. } = step {
        if answers.len() > 0 {
            let (after, next) = tools_next(client, stage, answers[0].0, answers[0].1);
            lemma_asked_while_connected(after, next, answers.skip(1));
        }
    }
}

/// A client that got its tools from the server is connected.
pub proof fn law_get_tools_connects(
    client: ClientView,
    now: u128,
    answers: Seq<(AnswerView, u128)>,
)
    requires
        !client.fresh(now),
    ensures
        ({
            let (after, step) = tools_first(client, now);
            let (end, last) = tools_run(after, step, answers);
            last matches StepView::Done(Ok(_)) ==> end.connected
        }),
{
    let (after, step) = tools_first(client, now);
    lemma_asked_while_connected(after, step, answers);
}

// The tools that are kept.

/// The tools that an operation listed are kept, and for five minutes they are given again
/// without asking the server; after that they are not.
pub proof fn law_listed_tools_are_kept(
    client: ClientView,
    stage: ToolsStage,
    answer: AnswerView,
    now: u128,
    later: u128,
)
    requires
        tools_next(client, stage, answer, now).1 matches StepView::Done(Ok(_)),
    ensures
        ({
            let (after, step) = tools_next(client, stage, answer, now);
            &&& later < now + CACHE_NANOS ==> tools_first(after, later) == (after, step)
            &&& later >= now + CACHE_NANOS ==> tools_first(after, later).1 is Exchange
        }),
{
}

/// A chat model gets every tool, in the same order, with its name, description and schema.
pub proof fn law_openai_tools(tools: Seq<McpToolView>, i: int)
    requires
        0 <= i < tools.len(),
    ensures
        openai_tools(tools).len() == tools.len(),
        openai_tools(tools)[i].function.name == tools[i].name,
        openai_tools(tools)[i].function.description == tools[i].description,
        openai_tools(tools)[i].function.parameters == tools[i].input_schema,
        openai_tools(tools)[i].function.strict is None,
{
}

/// After a reset the client knows its address and nothing else, a second reset changes nothing
/// more, the tools are listed anew, and a tool call sets up a session.
pub proof fn law_reset_forgets(
    client: ClientView,
    now: u128,
    name: Seq<char>,
    arguments: JsonView,
)
    ensures
        client.reset() == blank_client(client.server_url),
        client.reset().reset() == client.reset(),
        tools_first(client.reset(), now).1 is Exchange,
        call_first(client.reset(), name, arguments) matches StepView::Exchange {
            request,
            ..
        } && request == initialize_request(client.server_url),
{
}

/// Tools are known exactly if it is known when they were listed.
pub open spec fn consistent(client: ClientView) -> bool {
    client.tools_cache is Some <==> client.last_update is Some
}

/// A new client is consistent, and every operation keeps it so.
pub proof fn law_consistent(
    client: ClientView,
    url: Seq<char>,
    name: Seq<char>,
    arguments: JsonView,
    attempt: u32,
    tools_stage: ToolsStage,
    call_stage: CallStage,
    init_stage: InitStage,
    calls_stage: ToolCallsStageView,
    answer: AnswerView,
    now: u128,
)
    ensures
        consistent(blank_client(url)),
        consistent(client.reset()),
        consistent(client) ==> {
            &&& consistent(client.moved(url))
            &&& consistent(connect_next(client, attempt, answer).0)
            &&& consistent(tools_first(client, now).0)
            &&& consistent(tools_next(client, tools_stage, answer, now).0)
            &&& consistent(call_next(client, name, arguments, call_stage, answer).0)
            &&& consistent(init_next(client, init_stage, answer).0)
            &&& consistent(calls_next(client, calls_stage, answer).0)
        },
{
}

/// No operation moves the client to another address, and only listing the tools touches the
/// tools that are kept.
pub proof fn law_unchanged(
    client: ClientView,
    name: Seq<char>,
    arguments: JsonView,
    attempt: u32,
    tools_stage: ToolsStage,
    call_stage: CallStage,
    init_stage: InitStage,
    calls_stage: ToolCallsStageView,
    answer: AnswerView,
    now: u128,
)
    ensures
        tools_first(client, now).0.server_url == client.server_url,
        tools_next(client, tools_stage, answer, now).0.server_url == client.server_url,
        ({
            let after = connect_next(client, attempt, answer).0;
            &&& after.server_url == client.server_url
            &&& after.tools_cache == client.tools_cache
            &&& after.last_update == client.last_update
        }),
        ({
            let after = call_next(client, name, arguments, call_stage, answer).0;
            &&& after.server_url == client.server_url
            &&& after.tools_cache == client.tools_cache
            &&& after.last_update == client.last_update
        }),
        ({
            let after = init_next(client, init_stage, answer).0;
            &&& after.server_url == client.server_url
            &&& after.tools_cache == client.tools_cache
            &&& after.last_update == client.last_update
        }),
        ({
            let after = calls_next(client, calls_stage, answer).0;
            &&& after.server_url == client.server_url
            &&& after.tools_cache == client.tools_cache
            &&& after.last_update == client.last_update
        }),
{
}

/// A step asks for no request but one to that address.
pub open spec fn addressed<S, V>(step: StepView<S, V>, url: Seq<char>) -> bool {
    step matches StepView::Exchange { request, .. } ==> request.url == url
}

/// Every request goes to the address of the client.
pub proof fn law_addressed(
    client: ClientView,
    name: Seq<char>,
    arguments: JsonView,
    attempt: u32,
    tools_stage: ToolsStage,
    call_stage: CallStage,
    init_stage: InitStage,
    calls_stage: ToolCallsStageView,
    messages: Seq<ChatMessageView>,
    answer: AnswerView,
    now: u128,
)
    ensures
        addressed(connect_first(client), client.server_url),
        addressed(connect_next(client, attempt, answer).1, client.server_url),
        addressed(tools_first(client, now).1, client.server_url),
        addressed(tools_next(client, tools_stage, answer, now).1, client.server_url),
        addressed(call_first(client, name, arguments), client.server_url),
        addressed(
            call_next(client, name, arguments, call_stage, answer).1,
            client.server_url,
        ),
        addressed(init_first(client), client.server_url),
        addressed(init_next(client, init_stage, answer).1, client.server_url),
        addressed(calls_first(client, messages), client.server_url),
        addressed(calls_next(client, calls_stage, answer).1, client.server_url),
{
}

/// Every request of an operation on tools asks for a session, or is made within the session that
/// the client has at that time.
pub proof fn law_within_session(
    client: ClientView,
    name: Seq<char>,
    arguments: JsonView,
    tools_stage: ToolsStage,
    call_stage: CallStage,
    answer: AnswerView,
    now: u128,
)
    ensures
        tools_first(client, now).1 matches StepView::Exchange { request, .. } ==> request
            == initialize_request(client.server_url),
        call_first(client, name, arguments) matches StepView::Exchange { request, .. } ==> {
            ||| request == initialize_request(client.server_url)
            ||| request == call_request(client.server_url, client.session_id, name, arguments)
        },
        ({
            let (after, step) = tools_next(client, tools_stage, answer, now);
            step matches StepView::Exchange { request, .. } ==> {
                ||| request == initialize_request(after.server_url)
                ||| request == list_request(after.server_url, after.session_id)
            }
        }),
        ({
            let (after, step) = call_next(client, name, arguments, call_stage, answer);
            step matches StepView::Exchange { request, .. } ==> {
                ||| request == initialize_request(after.server_url)
                ||| request == call_request(after.server_url, after.session_id, name, arguments)
            }
        }),
{
}

// What replies mean.

/// A line of an event stream that brings no document is passed over.
pub proof fn law_stream_passes_over(reply: HttpReplyView, line: Seq<char>, rest: Seq<char>)
    requires
        is_event_stream(reply),
        !line.contains('\n'),
        line_document(without_return(line)) is None,
        reply.body == Ok::<Seq<char>, HttpErrorView>(line + seq!['\n'] + rest),
    ensures
        reply_document(reply) == reply_document(HttpReplyView { body: Ok(rest), ..reply }),
{
    lemma_first_line(line, rest);
    let lines = text_lines(line + seq!['\n'] + rest);
    assert(lines[0] == without_return(line));
    assert(lines.skip(1) =~= text_lines(rest));
}

/// A document comes to the same on the first data line of an event stream, with whatever behind
/// it, as it does alone.
pub proof fn law_stream_like_plain(
    stream: HttpReplyView,
    plain: HttpReplyView,
    text: Seq<char>,
    rest: Seq<char>,
)
    requires
        is_event_stream(stream),
        !is_event_stream(plain),
        !text.contains('\n'),
        text.len() > 0 ==> text.last() != '\r',
        parsed(text) is Ok,
        stream.body == Ok::<Seq<char>, HttpErrorView>("data: "@ + text + seq!['\n'] + rest),
        plain.body == Ok::<Seq<char>, HttpErrorView>(text),
    ensures
        reply_document(stream) == reply_document(plain),
        reply_document(stream) is Ok,
{
    reveal_strlit("data: ");
    let line = "data: "@ + text;
    assert forall|i: int| 0 <= i < line.len() implies line[i] != '\n' by {
        if i >= 6 {
            assert(line[i] == text[i - 6]);
            assert(text.contains(text[i - 6]));
        }
    }
    assert(without_return(line) == line) by {
        if text.len() > 0 {
            assert(line.last() == text.last());
        }
    }
    lemma_first_line(line, rest);
    let lines = text_lines(line + seq!['\n'] + rest);
    assert(lines[0] == line);
    assert(line.subrange(0, 6) =~= "data: "@);
    assert(line.skip(6) =~= text);
}

/// The document of an event stream is that of the first line that brings one.
pub proof fn law_first_document(stream: Seq<Seq<char>>, i: int)
    requires
        0 <= i < stream.len(),
        line_document(stream[i]) is Some,
        forall|j: int| 0 <= j < i ==> line_document(#[trigger] stream[j]) is None,
    ensures
        first_document(stream) == line_document(stream[i]),
    decreases i,
{
    if i > 0 {
        let rest = stream.skip(1);
        assert(rest[i - 1] == stream[i]);
        assert(line_document(stream[0]) is None);
        assert forall|j: int| 0 <= j < i - 1 implies line_document(#[trigger] rest[j]) is None by {
            assert(rest[j] == stream[j + 1]);
        }
        law_first_document(rest, i - 1);
    }
}

/// An event stream in which no line brings a document has none.
pub proof fn law_no_document(stream: Seq<Seq<char>>)
    requires
        forall|j: int| 0 <= j < stream.len() ==> line_document(#[trigger] stream[j]) is None,
    ensures
        first_document(stream) is None,
    decreases stream.len(),
{
    if stream.len() > 0 {
        let rest = stream.skip(1);
        assert(line_document(stream[0]) is None);
        assert forall|j: int| 0 <= j < rest.len() implies line_document(#[trigger] rest[j]) is None by {
            assert(rest[j] == stream[j + 1]);
        }
        law_no_document(rest);
    }
}

/// A reply object comes to the same alone as it does as the first item of an array. Of a tool
/// call this is said where the object has a result or an error: the complaint that it has neither
/// shows the whole document.
pub proof fn law_array_like_single(items: Seq<JsonView>)
    requires
        items.len() > 0,
        items[0] !is Array,
    ensures
        listed_tools(JsonView::Array(items)) == listed_tools(items[0]),
        items[0].get("result"@) is Some || items[0].get("error"@) is Some ==> call_result(
            JsonView::Array(items),
        ) == call_result(items[0]),
{
}

/// A tool call succeeds exactly if the reply object has no error, has a result, and the result
/// does not say that the tool failed. Every other document is a breach of the protocol.
pub proof fn law_call_result(document: JsonView)
    ensures
        call_result(document) is Ok <==> {
            &&& reply_object(document).get("error"@) is None
            &&& reply_object(document).get("result"@) matches Some(result)
            &&& tool_response(result).is_error != Some(true)
        },
        call_result(document) matches Ok(response) ==> response.is_error != Some(true),
        call_result(document) matches Err(e) ==> e is Protocol,
{
}

// Tool calls of a chat.

/// The ids under which a round of tool calls files its results, those still to come among them.
pub open spec fn filed_ids(step: ToolCallsStepView) -> Seq<Seq<char>> {
    match step {
        StepView::Done(Ok(results)) => result_ids(results),
        StepView::Done(Err(_)) => Seq::empty(),
        StepView::Exchange { stage, .. } => result_ids(stage.results) + seq![stage.call.id]
            + call_ids(stage.waiting),
    }
}

/// The ids of results, in order.
pub open spec fn result_ids(results: Seq<(Seq<char>, Seq<char>)>) -> Seq<Seq<char>> {
    results.map_values(|result: (Seq<char>, Seq<char>)| result.0)
}

/// The ids of tool calls, in order.
pub open spec fn call_ids(calls: Seq<ToolCallView>) -> Seq<Seq<char>> {
    calls.map_values(|call: ToolCallView| call.id)
}

/// A step keeps the ids, and does not fail.
proof fn lemma_calls_next(client: ClientView, stage: ToolCallsStageView, answer: AnswerView)
    ensures
        filed_ids(calls_next(client, stage, answer).1) == result_ids(stage.results) + seq![
            stage.call.id,
        ] + call_ids(stage.waiting),
        !(calls_next(client, stage, answer).1 matches StepView::Done(Err(_))),
{
    let before = result_ids(stage.results) + seq![stage.call.id] + call_ids(stage.waiting);
    let (after, inner) = call_next(
        client,
        stage.call.name,
        stage.arguments,
        stage.stage,
        answer,
    );
    if let StepView::Done(outcome) = inner {
        let results = stage.results.push((stage.call.id, call_report(outcome)));
        assert(result_ids(results) =~= result_ids(stage.results).push(stage.call.id));
        lemma_calls_step(after, stage.waiting, results);
        assert(result_ids(results) + call_ids(stage.waiting) =~= before);
    }
}

/// The first step of the calls to come files them behind the results so far.
proof fn lemma_calls_step(
    client: ClientView,
    waiting: Seq<ToolCallView>,
    results: Seq<(Seq<char>, Seq<char>)>,
)
    ensures
        filed_ids(calls_step(client, waiting, results)) == result_ids(results) + call_ids(waiting),
        !(calls_step(client, waiting, results) matches StepView::Done(Err(_))),
{
    if waiting.len() == 0 {
        assert(result_ids(results) + call_ids(waiting) =~= result_ids(results));
    } else {
        assert(call_ids(waiting) =~= seq![waiting[0].id] + call_ids(waiting.skip(1)));
        assert(result_ids(results) + call_ids(waiting) =~= result_ids(results) + seq![
            waiting[0].id,
        ] + call_ids(waiting.skip(1)));
    }
}

/// A run of a round keeps the ids, and does not fail.
proof fn lemma_calls_run(client: ClientView, step: ToolCallsStepView, answers: Seq<AnswerView>)
    requires
        !(step matches StepView::Done(Err(_))),
    ensures
        filed_ids(calls_run(client, step, answers).1) == filed_ids(step),
        !(calls_run(client, step, answers).1 matches StepView::Done(Err(_))),
    decreases answers.len(),
{
    if let StepView::Exchange { stage, .. } = step {
        if answers.len() > 0 {
            let (after, next) = calls_next(client, stage, answers[0]);
            lemma_calls_next(client, stage, answers[0]);
            lemma_calls_run(after, next, answers.skip(1));
        }
    }
}

/// Whatever the answers are, a round of tool calls does not fail: at its end every call has one
/// result, in the order of the calls and under the id of its call. A chat that asks for no calls
/// has no results.
pub proof fn law_every_call_has_a_result(
    client: ClientView,
    messages: Seq<ChatMessageView>,
    answers: Seq<AnswerView>,
)
    ensures
        ({
            let (_, step) = calls_run(client, calls_first(client, messages), answers);
            step matches StepView::Done(outcome) ==> {
                &&& outcome matches Ok(results)
                &&& result_ids(results) == match last_tool_calls(messages) {
                    Some(calls) => call_ids(calls),
                    None => Seq::empty(),
                }
            }
        }),
{
    let first = calls_first(client, messages);
    match last_tool_calls(messages) {
        Some(calls) => {
            lemma_calls_step(client, calls, Seq::empty());
            assert(result_ids(Seq::empty()) + call_ids(calls) =~= call_ids(calls));
        },
        None => {
            assert(result_ids(Seq::empty()) =~= Seq::<Seq<char>>::empty());
        },
    }
    lemma_calls_run(client, first, answers);
}

/// A call within a round, from wherever it stands, goes as it does alone; its report is filed,
/// and the next call begins.
proof fn lemma_call_within_round(
    client: ClientView,
    step: ToolCallsStepView,
    inner: CallStepView,
    answers: Seq<AnswerView>,
    more: Seq<AnswerView>,
)
    requires
        step matches StepView::Exchange { stage, delay_ms, request } && inner
            == (CallStepView::Exchange { stage: stage.stage, delay_ms, request }),
        answers.len() > 0,
        ({
            let stage = step->stage;
            let (name, arguments) = (stage.call.name, stage.arguments);
            &&& call_run(client, name, arguments, inner, answers.drop_last()).1 is Exchange
            &&& call_run(client, name, arguments, inner, answers).1 is Done
        }),
    ensures
        ({
            let stage = step->stage;
            let (name, arguments) = (stage.call.name, stage.arguments);
            let (after, last) = call_run(client, name, arguments, inner, answers);
            calls_run(client, step, answers + more) == calls_run(
                after,
                calls_step(
                    after,
                    stage.waiting,
                    stage.results.push((stage.call.id, call_report(last->Done_0))),
                ),
                more,
            )
        }),
    decreases answers.len(),
{
    reveal_with_fuel(call_run, 2);
    let stage = step->stage;
    let (after, next) = call_next(
        client,
        stage.call.name,
        stage.arguments,
        stage.stage,
        answers[0],
    );
    assert((answers + more)[0] == answers[0]);
    assert((answers + more).skip(1) =~= answers.skip(1) + more);
    if answers.len() == 1 {
        assert(answers.skip(1) + more =~= more);
    } else {
        assert(answers.drop_last()[0] == answers[0]);
        assert(answers.drop_last().skip(1) =~= answers.skip(1).drop_last());
        lemma_call_within_round(
            after,
            calls_next(client, stage, answers[0]).1,
            next,
            answers.skip(1),
            more,
        );
    }
}

/// A round carries out its calls in turn. The first call goes as `call_tool` goes alone with the
/// arguments that the text stands for: where the answers bring it to its end, and no fewer do, what
/// it comes to is reported under the id of the call, and the round goes on with the next call and
/// the client as this one left it.
pub proof fn law_calls_in_turn(
    client: ClientView,
    calls: Seq<ToolCallView>,
    results: Seq<(Seq<char>, Seq<char>)>,
    answers: Seq<AnswerView>,
    more: Seq<AnswerView>,
)
    requires
        calls.len() > 0,
        answers.len() > 0,
        ({
            let name = calls[0].name;
            let arguments = call_arguments(calls[0].arguments);
            let first = call_first(client, name, arguments);
            &&& call_run(client, name, arguments, first, answers.drop_last()).1 is Exchange
            &&& call_run(client, name, arguments, first, answers).1 is Done
        }),
    ensures
        ({
            let name = calls[0].name;
            let arguments = call_arguments(calls[0].arguments);
            let (after, last) = call_run(
                client,
                name,
                arguments,
                call_first(client, name, arguments),
                answers,
            );
            calls_run(client, calls_step(client, calls, results), answers + more) == calls_run(
                after,
                calls_step(
                    after,
                    calls.skip(1),
                    results.push((calls[0].id, call_report(last->Done_0))),
                ),
                more,
            )
        }),
{
    let arguments = call_arguments(calls[0].arguments);
    lemma_call_within_round(
        client,
        calls_step(client, calls, results),
        call_first(client, calls[0].name, arguments),
        answers,
        more,
    );
}

/// The calls are those of the last message that has any to make: it is one of the assistant, and
/// no message behind it is one of the assistant with a list of calls.
pub proof fn law_last_tool_calls(messages: Seq<ChatMessageView>, i: int, calls: Seq<ToolCallView>)
    requires
        0 <= i < messages.len(),
        messages[i] == ChatMessageView::Assistant(Some(calls)),
        forall|j: int|
            i < j < messages.len() ==> !(#[trigger] messages[j] matches ChatMessageView::Assistant(
                Some(_),
            )),
    ensures
        last_tool_calls(messages) == Some(calls),
    decreases messages.len(),
{
    if i < messages.len() - 1 {
        let before = messages.drop_last();
        assert(!(messages[messages.len() - 1] matches ChatMessageView::Assistant(Some(_))));
        assert forall|j: int| i < j < before.len() implies !(#[trigger] before[j] matches
            ChatMessageView::Assistant(Some(_))) by {
            assert(before[j] == messages[j]);
        }
        law_last_tool_calls(before, i, calls);
    }
}

/// No results show as no text, and two lists of results show as the two texts, with an empty line
/// between them.
pub proof fn law_results_text(
    first: Seq<(Seq<char>, Seq<char>)>,
    second: Seq<(Seq<char>, Seq<char>)>,
)
    ensures
        results_text(Seq::empty()) == Seq::<char>::empty(),
        first.len() > 0 && second.len() > 0 ==> results_text(first + second) == results_text(first)
            + "\n\n"@ + results_text(second),
{
    let show = |result: (Seq<char>, Seq<char>)| result_line(result);
    assert((first + second).map_values(show) =~= first.map_values(show) + second.map_values(show));
    if first.len() > 0 && second.len() > 0 {
        lemma_joined_in_two(first.map_values(show), second.map_values(show), "\n\n"@);
    }
}

} // verus!
