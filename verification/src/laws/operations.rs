//! What each step of an operation makes of the client, and where the operation goes from there.

use crate::client::openai_step_view;
use crate::codec::parsed;
use crate::error::McpErrorView;
use crate::http::{AnswerView, HttpErrorView, HttpReplyView};
use crate::json::JsonView;
use crate::laws::replies::member;
use crate::operation::{
    call_first, call_next, connect_first, connect_next, init_first, init_next, probe_next,
    tools_first, tools_next, CallStage, ClientView, InitStage, Probe, StepView, ToolsStage,
    ToolsStepView,
};
use crate::reply::{call_outcome, call_result, initialize_outcome, list_outcome, listed_tools};
use crate::retry::{verdict, Verdict};
use crate::text::occurs_in;
use vstd::arithmetic::power2::lemma2_to64;
use vstd::prelude::*;

verus! {

/// How long to wait before the try that follows the one of that number: a second, and then twice as
/// long. The third try is the last.
pub open spec fn wait_after(attempt: u32) -> u64 {
    if attempt == 0 {
        1000
    } else {
        2000
    }
}

/// A failure is followed by another try exactly if it may pass and fewer than three tries were
/// made, with the next number and after the wait that is due.
pub proof fn law_tries(attempt: u32, failed: Option<McpErrorView>)
    ensures
        failed is None ==> verdict(attempt, failed) is Settle,
        failed matches Some(e) ==> {
            &&& e.retryable() && attempt < 2 ==> verdict(attempt, failed) == (Verdict::Again {
                attempt: (attempt + 1) as u32,
                delay_ms: wait_after(attempt),
            })
            &&& !e.retryable() || attempt >= 2 ==> verdict(attempt, failed) is Settle
        },
{
    lemma2_to64();
}

/// The address and the tools of a client are those of another one.
pub open spec fn same_address_and_tools(a: ClientView, b: ClientView) -> bool {
    &&& a.server_url == b.server_url
    &&& a.tools_cache == b.tools_cache
    &&& a.last_update == b.last_update
}

/// The client knows its address, and nothing else.
pub open spec fn knows_only(client: ClientView, url: Seq<char>) -> bool {
    &&& client.server_url == url
    &&& !client.connected
    &&& client.session_id is None
    &&& client.server_info is None
    &&& client.tools_cache is None
    &&& client.last_update is None
}

/// After a reset a client knows its address and nothing else; at another address it knows what it
/// knew, but is not connected there.
pub proof fn law_reset_and_moved(client: ClientView, url: Seq<char>)
    ensures
        knows_only(client.reset(), client.server_url),
        client.moved(url).server_url == url,
        client.moved(url).connected == (client.connected && url == client.server_url),
        client.moved(url).session_id == client.session_id,
        client.moved(url).server_info == client.server_info,
        client.moved(url).tools_cache == client.tools_cache,
        client.moved(url).last_update == client.last_update,
{
}

// Setting up a session.

/// Setting up a session begins with the first try, at once.
pub proof fn law_connect_begins(client: ClientView)
    ensures
        connect_first(client) matches StepView::Exchange { stage, delay_ms, .. } && stage == 0
            && delay_ms == 0,
{
}

/// Whatever a server says when it carries out the request, its session is the client's from then
/// on: the text of its header, or none. The client is connected once the body is JSON; what the
/// server says of itself is the result in it. A body that is no JSON, or cannot be read, is the
/// failure, and is not tried again.
pub proof fn law_session_is_taken(client: ClientView, attempt: u32, reply: HttpReplyView)
    requires
        200 <= reply.status <= 299,
    ensures
        ({
            let (after, step) = connect_next(client, attempt, Ok(reply));
            &&& same_address_and_tools(after, client)
            &&& after.session_id == reply.header("Mcp-Session-Id"@)
            &&& reply.body matches Err(e) ==> {
                &&& step == StepView::<u32, ()>::Done(Err(McpErrorView::Http(e)))
                &&& after.connected == client.connected
                &&& after.server_info == client.server_info
            }
            &&& reply.body matches Ok(text) ==> {
                &&& parsed(text) matches Err(e) ==> {
                    &&& step == StepView::<u32, ()>::Done(Err(McpErrorView::Serialization(e)))
                    &&& after.connected == client.connected
                    &&& after.server_info == client.server_info
                }
                &&& parsed(text) matches Ok(document) ==> {
                    &&& step == StepView::<u32, ()>::Done(Ok(()))
                    &&& after.connected
                    &&& member(document, "result"@) matches Some(info) ==> after.server_info == Some(
                        info,
                    )
                    &&& member(document, "result"@) is None ==> after.server_info
                        == client.server_info
                }
            }
        }),
{
}

/// A request for a session that failed changes nothing of the client. It is made again while tries
/// are left and the failure may pass, and otherwise the failure is the outcome.
pub proof fn law_session_is_refused(
    client: ClientView,
    attempt: u32,
    answer: AnswerView,
    e: McpErrorView,
)
    requires
        initialize_outcome(answer) == Err::<HttpReplyView, _>(e),
    ensures
        ({
            let (after, step) = connect_next(client, attempt, answer);
            &&& after == client
            &&& e.retryable() && attempt < 2 ==> (step matches StepView::Exchange {
                stage,
                delay_ms,
                ..
            } && stage == attempt + 1 && delay_ms == wait_after(attempt))
            &&& !e.retryable() || attempt >= 2 ==> step == StepView::<u32, ()>::Done(Err(e))
        }),
{
    law_tries(attempt, Some(e));
}

// Listing the tools.

/// The known tools are given, unchanged and without a request, exactly if they were listed less
/// than five minutes ago. Otherwise everything but the address is forgotten, and a session is set
/// up.
pub proof fn law_listing_begins(client: ClientView, now: u128)
    ensures
        ({
            let (after, step) = tools_first(client, now);
            let known = client.tools_cache is Some && client.last_update is Some && now
                - client.last_update->0 < 5 * 60 * 1_000_000_000;
            &&& known ==> after == client && step == ToolsStepView::Done(Ok(client.tools_cache->0))
            &&& !known ==> {
                &&& knows_only(after, client.server_url)
                &&& step matches StepView::Exchange { stage, delay_ms, .. }
                &&& stage == ToolsStage::Connecting(0)
                &&& delay_ms == 0
            }
        }),
{
}

/// Setting up a session in order to list the tools goes as it does alone, tries and waits and
/// failures among it, the first time as well as after a session was lost; the tools are asked for
/// at once when it is done.
pub proof fn law_listing_sets_up_session(
    client: ClientView,
    again: bool,
    attempt: u32,
    answer: AnswerView,
    now: u128,
)
    ensures
        ({
            let stage = if again {
                ToolsStage::Reconnecting(attempt)
            } else {
                ToolsStage::Connecting(attempt)
            };
            let (alone, connected) = connect_next(client, attempt, answer);
            let (after, step) = tools_next(client, stage, answer, now);
            &&& after == alone
            &&& connected matches StepView::Done(Err(e)) ==> step == ToolsStepView::Done(Err(e))
            &&& connected matches StepView::Exchange { stage: next, delay_ms, request } ==> step == (
            ToolsStepView::Exchange {
                stage: if again {
                    ToolsStage::Reconnecting(next)
                } else {
                    ToolsStage::Connecting(next)
                },
                delay_ms,
                request,
            })
            &&& connected matches StepView::Done(Ok(_)) ==> (step matches StepView::Exchange {
                stage: next,
                delay_ms,
                ..
            } && delay_ms == 0 && next == (if again {
                ToolsStage::Relisting(0)
            } else {
                ToolsStage::Listing(0)
            }))
        }),
{
}

/// The tools that the server lists are the outcome, and are kept with the time at which they came;
/// nothing else of the client changes.
pub proof fn law_listing_succeeds(
    client: ClientView,
    again: bool,
    attempt: u32,
    answer: AnswerView,
    document: JsonView,
    now: u128,
)
    requires
        list_outcome(answer, !again) == Ok::<_, McpErrorView>(document),
    ensures
        ({
            let stage = if again {
                ToolsStage::Relisting(attempt)
            } else {
                ToolsStage::Listing(attempt)
            };
            let (after, step) = tools_next(client, stage, answer, now);
            &&& step == ToolsStepView::Done(Ok(listed_tools(document)))
            &&& after.tools_cache == Some(listed_tools(document))
            &&& after.last_update == Some(now)
            &&& after.server_url == client.server_url
            &&& after.connected == client.connected
            &&& after.session_id == client.session_id
            &&& after.server_info == client.server_info
        }),
{
}

/// A request for the tools that failed is made again while tries are left and the failure may pass,
/// and changes nothing of the client. Then, in the first round, a failure that names an invalid
/// session makes the client forget everything but its address and set up a session after half a
/// second. Every other failure is the outcome.
pub proof fn law_listing_fails(
    client: ClientView,
    again: bool,
    attempt: u32,
    answer: AnswerView,
    e: McpErrorView,
    now: u128,
)
    requires
        list_outcome(answer, !again) == Err::<JsonView, _>(e),
    ensures
        ({
            let stage = if again {
                ToolsStage::Relisting(attempt)
            } else {
                ToolsStage::Listing(attempt)
            };
            let lost = !again && (e matches McpErrorView::Protocol(text) && occurs_in(
                "Session invalid (404)"@,
                text,
            ));
            let (after, step) = tools_next(client, stage, answer, now);
            &&& e.retryable() && attempt < 2 ==> {
                &&& after == client
                &&& step matches StepView::Exchange { stage: next, delay_ms, .. }
                &&& delay_ms == wait_after(attempt)
                &&& next == (if again {
                    ToolsStage::Relisting((attempt + 1) as u32)
                } else {
                    ToolsStage::Listing((attempt + 1) as u32)
                })
            }
            &&& (!e.retryable() || attempt >= 2) && lost ==> {
                &&& knows_only(after, client.server_url)
                &&& step matches StepView::Exchange { stage: next, delay_ms, .. }
                &&& next == ToolsStage::Reconnecting(0)
                &&& delay_ms == 500
            }
            &&& (!e.retryable() || attempt >= 2) && !lost ==> after == client && step
                == ToolsStepView::Done(Err(e))
        }),
{
    law_tries(attempt, Some(e));
}

// Tools for a chat model.

/// Where listing the tools ends with tools, listing them for a chat model ends with as many
/// functions, in the same order: each has the name and the description of its tool, the tool's
/// schema as its parameters, and nothing said of strictness. Where listing the tools goes on or
/// fails, so does this, with the same request, or the same error.
pub proof fn law_functions_for_tools(step: ToolsStepView, i: int)
    ensures
        step matches StepView::Done(Ok(tools)) ==> (openai_step_view(step) matches StepView::Done(
            Ok(functions),
        ) && functions.len() == tools.len() && (0 <= i < tools.len() ==> {
            &&& functions[i].function.name == tools[i].name
            &&& functions[i].function.description == tools[i].description
            &&& functions[i].function.parameters == tools[i].input_schema
            &&& functions[i].function.strict is None
        })),
        step matches StepView::Done(Err(e)) ==> (openai_step_view(step) matches StepView::Done(
            Err(same),
        ) && same == e),
        step matches StepView::Exchange { stage, delay_ms, request } ==> (openai_step_view(
            step,
        ) matches StepView::Exchange { stage: where_to, delay_ms: wait, request: asked } && where_to
            == stage && wait == delay_ms && asked == request),
{
}

// Calling a tool.

/// A tool call begins at once: with the call where there is a session, and otherwise with setting
/// one up.
pub proof fn law_call_begins(client: ClientView, name: Seq<char>, arguments: JsonView)
    ensures
        call_first(client, name, arguments) matches StepView::Exchange { stage, delay_ms, .. }
            && delay_ms == 0 && stage == (if client.session_id is Some {
            CallStage::Calling(0)
        } else {
            CallStage::Connecting(0)
        }),
{
}

/// Setting up a session in order to call a tool goes as it does alone, tries and waits and failures
/// among it; the tool is called at once when it is done.
pub proof fn law_calling_sets_up_session(
    client: ClientView,
    name: Seq<char>,
    arguments: JsonView,
    attempt: u32,
    answer: AnswerView,
)
    ensures
        ({
            let (alone, connected) = connect_next(client, attempt, answer);
            let (after, step) = call_next(
                client,
                name,
                arguments,
                CallStage::Connecting(attempt),
                answer,
            );
            &&& after == alone
            &&& connected matches StepView::Done(Err(e)) ==> (step matches StepView::Done(Err(same))
                && same == e)
            &&& connected matches StepView::Exchange { stage: next, delay_ms, request } ==> (
            step matches StepView::Exchange { stage: where_to, delay_ms: wait, request: asked }
                && where_to == CallStage::Connecting(next) && wait == delay_ms && asked == request)
            &&& connected matches StepView::Done(Ok(_)) ==> (step matches StepView::Exchange {
                stage: next,
                delay_ms,
                ..
            } && next == CallStage::Calling(0) && delay_ms == 0)
        }),
{
}

/// The answer to a call changes nothing of the client. What the document says that it brings is the
/// outcome. A failure is followed by another try while tries are left and it may pass, and is
/// otherwise the outcome.
pub proof fn law_calling_settles(
    client: ClientView,
    name: Seq<char>,
    arguments: JsonView,
    attempt: u32,
    answer: AnswerView,
)
    ensures
        ({
            let (after, step) = call_next(
                client,
                name,
                arguments,
                CallStage::Calling(attempt),
                answer,
            );
            &&& after == client
            &&& call_outcome(answer) matches Ok(document) ==> (step matches StepView::Done(outcome)
                && outcome == call_result(document))
            &&& call_outcome(answer) matches Err(e) ==> {
                &&& e.retryable() && attempt < 2 ==> (step matches StepView::Exchange {
                    stage: next,
                    delay_ms,
                    ..
                } && next == CallStage::Calling((attempt + 1) as u32) && delay_ms == wait_after(
                    attempt,
                ))
                &&& !e.retryable() || attempt >= 2 ==> (step matches StepView::Done(Err(same))
                    && same == e)
            }
        }),
{
    if let Err(e) = call_outcome(answer) {
        law_tries(attempt, Some(e));
    }
}

// Testing and starting.

/// The test of a server goes from one request to the next at once, whatever the replies are. It
/// fails where the first or the last request gets no reply, and says why; that the middle one gets
/// none does not matter.
pub proof fn law_test_goes_on(client: ClientView, reply: HttpReplyView, e: HttpErrorView)
    ensures
        probe_next(client, Probe::Get, Ok(reply)) matches StepView::Exchange { stage, delay_ms, .. }
            && stage is Options && delay_ms == 0,
        probe_next(client, Probe::Get, Err(e)) == StepView::<Probe, ()>::Done(
            Err(McpErrorView::Connection("Basic connectivity test failed: "@ + e.message)),
        ),
        probe_next(client, Probe::Options, Ok(reply)) matches StepView::Exchange {
            stage,
            delay_ms,
            ..
        } && stage is Post && delay_ms == 0,
        probe_next(client, Probe::Options, Err(e)) matches StepView::Exchange {
            stage,
            delay_ms,
            ..
        } && stage is Post && delay_ms == 0,
        probe_next(client, Probe::Post, Ok(reply)) == StepView::<Probe, ()>::Done(Ok(())),
        probe_next(client, Probe::Post, Err(e)) == StepView::<Probe, ()>::Done(
            Err(McpErrorView::Connection("POST connectivity test failed: "@ + e.message)),
        ),
{
}

/// The start of a client first goes as the test of the server does, and changes nothing of the
/// client; when the test is over, with success or not, it goes at once as setting up a session
/// does, tries and waits and failures among it, and comes to what that comes to.
pub proof fn law_start_goes_on(client: ClientView, probe: Probe, attempt: u32, answer: AnswerView)
    ensures
        init_first(client) matches StepView::Exchange { delay_ms, .. } && delay_ms == 0,
        ({
            let alone = probe_next(client, probe, answer);
            let (after, step) = init_next(client, InitStage::Probing(probe), answer);
            &&& after == client
            &&& alone matches StepView::Exchange { stage, delay_ms, request } ==> step == (StepView::<
                InitStage,
                (),
            >::Exchange { stage: InitStage::Probing(stage), delay_ms, request })
            &&& alone is Done ==> (step matches StepView::Exchange { stage, delay_ms, .. } && stage
                == InitStage::Connecting(0) && delay_ms == 0)
        }),
        ({
            let (alone, connected) = connect_next(client, attempt, answer);
            let (after, step) = init_next(client, InitStage::Connecting(attempt), answer);
            &&& after == alone
            &&& connected matches StepView::Exchange { stage, delay_ms, request } ==> step == (
            StepView::<InitStage, ()>::Exchange {
                stage: InitStage::Connecting(stage),
                delay_ms,
                request,
            })
            &&& connected matches StepView::Done(outcome) ==> step == StepView::<
                InitStage,
                (),
            >::Done(outcome)
        }),
{
}

} // verus!
