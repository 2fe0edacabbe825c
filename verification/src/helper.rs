//! Tool calls that a chat model asks for.

use crate::client::McpClientManager;
use crate::codec::{parse_json, parsed};
use crate::error::{McpError, McpErrorView};
use crate::http::{answer_view, valid_answer, Answer, AnswerView};
use crate::json::{member_map, Json, JsonView};
use crate::operation::{call_next, call_opening, CallStage, ClientView, Step, StepView};
use crate::reply::response_view;
use crate::text::{join, joined};
use crate::tool::{
    ChatMessage, ChatMessageView, McpContent, McpContentView, McpToolResponse, McpToolResponseView,
    ToolCall, ToolCallView,
};
use vstd::prelude::*;

verus! {

/// The tool calls of the last message that has any to make: one of the assistant, with a list of
/// them.
pub open spec fn last_tool_calls(messages: Seq<ChatMessageView>) -> Option<Seq<ToolCallView>>
    decreases messages.len(),
{
    if messages.len() == 0 {
        None
    } else {
        match messages.last() {
            ChatMessageView::Assistant(Some(calls)) => Some(calls),
            _ => last_tool_calls(messages.drop_last()),
        }
    }
}

/// The arguments that a text stands for: an empty object where it is no JSON.
pub open spec fn call_arguments(text: Seq<char>) -> JsonView {
    match parsed(text) {
        Ok(document) => document,
        Err(_) => JsonView::Object(Map::empty()),
    }
}

/// The texts among content items, in order.
pub open spec fn content_texts(content: Seq<McpContentView>) -> Seq<Seq<char>>
    decreases content.len(),
{
    if content.len() == 0 {
        Seq::empty()
    } else {
        match content.last().text {
            Some(text) => content_texts(content.drop_last()).push(text),
            None => content_texts(content.drop_last()),
        }
    }
}

/// What the model is told of a tool call: the texts that it returned, one to a line, or why it
/// failed.
pub open spec fn call_report(outcome: Result<McpToolResponseView, McpErrorView>) -> Seq<char> {
    match outcome {
        Ok(response) => joined(content_texts(response.content), "\n"@),
        Err(e) => "Tool call failed: "@ + e.message(),
    }
}

/// Where a round of tool calls stands.
#[derive(Debug)]
pub struct ToolCallsStage {
    /// The call that is under way.
    pub call: ToolCall,
    /// The arguments of that call.
    pub arguments: Json,
    /// Where that call stands.
    pub stage: CallStage,
    /// The calls that are still to come.
    pub waiting: Vec<ToolCall>,
    /// What the calls before came to, each under the id of its call.
    pub results: Vec<(String, String)>,
}

/// What a `ToolCallsStage` says.
pub struct ToolCallsStageView {
    pub call: ToolCallView,
    pub arguments: JsonView,
    pub stage: CallStage,
    pub waiting: Seq<ToolCallView>,
    pub results: Seq<(Seq<char>, Seq<char>)>,
}

impl View for ToolCallsStage {
    type V = ToolCallsStageView;

    open spec fn view(&self) -> ToolCallsStageView {
        ToolCallsStageView {
            call: self.call@,
            arguments: self.arguments@,
            stage: self.stage,
            waiting: self.waiting.deep_view(),
            results: self.results.deep_view(),
        }
    }
}

/// A step of a round of tool calls.
pub type ToolCallsStepView = StepView<ToolCallsStageView, Seq<(Seq<char>, Seq<char>)>>;

/// The first step of the calls that are still to come; the end of the round where there are none.
pub open spec fn calls_step(
    client: ClientView,
    waiting: Seq<ToolCallView>,
    results: Seq<(Seq<char>, Seq<char>)>,
) -> ToolCallsStepView {
    if waiting.len() == 0 {
        StepView::Done(Ok(results))
    } else {
        let call = waiting[0];
        let arguments = call_arguments(call.arguments);
        let (stage, request) = call_opening(client, call.name, arguments);
        StepView::Exchange {
            stage: ToolCallsStageView { call, arguments, stage, waiting: waiting.skip(1), results },
            delay_ms: 0,
            request,
        }
    }
}

/// The first step of the round that a chat asks for.
pub open spec fn calls_first(
    client: ClientView,
    messages: Seq<ChatMessageView>,
) -> ToolCallsStepView {
    match last_tool_calls(messages) {
        Some(calls) => calls_step(client, calls, Seq::empty()),
        None => StepView::Done(Ok(Seq::empty())),
    }
}

/// The step that follows an answer.
pub open spec fn calls_next(
    client: ClientView,
    stage: ToolCallsStageView,
    answer: AnswerView,
) -> (ClientView, ToolCallsStepView) {
    let (after, step) = call_next(client, stage.call.name, stage.arguments, stage.stage, answer);
    match step {
        StepView::Exchange { stage: inner, delay_ms, request } => (
            after,
            StepView::Exchange {
                stage: ToolCallsStageView { stage: inner, ..stage },
                delay_ms,
                request,
            },
        ),
        StepView::Done(outcome) => (
            after,
            calls_step(
                after,
                stage.waiting,
                stage.results.push((stage.call.id, call_report(outcome))),
            ),
        ),
    }
}

/// How a result shows to the model.
pub open spec fn result_line(result: (Seq<char>, Seq<char>)) -> Seq<char> {
    "Tool "@ + result.0 + " result: "@ + result.1
}

/// How the results show to the model, one to a paragraph.
pub open spec fn results_text(results: Seq<(Seq<char>, Seq<char>)>) -> Seq<char> {
    joined(results.map_values(|result: (Seq<char>, Seq<char>)| result_line(result)), "\n\n"@)
}

/// A copy of the tool calls of the last message that has any to make.
fn find_tool_calls(messages: &[ChatMessage]) -> (calls: Option<Vec<ToolCall>>)
    ensures
        calls.deep_view() == last_tool_calls(messages.deep_view()),
{
    let ghost all = messages.deep_view();
    let mut i: usize = messages.len();
    assert(all.take(i as int) =~= all);
    while i > 0
        invariant
            i <= messages@.len(),
            all == messages.deep_view(),
            last_tool_calls(all.take(i as int)) == last_tool_calls(all),
        decreases i,
    {
        i = i - 1;
        let ghost seen = all.take(i + 1);
        assert(seen.last() == messages@[i as int]@);
        assert(seen.drop_last() =~= all.take(i as int));
        if let ChatMessage::Assistant(Some(calls)) = &messages[i] {
            return Some(copy_calls(calls));
        }
    }
    None
}

/// A copy of a list of tool calls.
fn copy_calls(calls: &Vec<ToolCall>) -> (copy: Vec<ToolCall>)
    ensures
        copy.deep_view() == calls.deep_view(),
{
    let mut copy: Vec<ToolCall> = Vec::new();
    let mut i: usize = 0;
    while i < calls.len()
        invariant
            i <= calls@.len(),
            copy.deep_view() == calls.deep_view().take(i as int),
        decreases calls.len() - i,
    {
        let ghost before = copy.deep_view();
        let call = calls[i].clone();
        copy.push(call);
        assert(copy.deep_view() =~= before.push(call@));
        assert(calls.deep_view().take(i + 1) =~= before.push(call@));
        i = i + 1;
    }
    assert(calls.deep_view().take(i as int) =~= calls.deep_view());
    copy
}

/// The arguments that a text stands for.
pub fn read_arguments(text: &str) -> (arguments: Json)
    ensures
        arguments@ == call_arguments(text@),
{
    match parse_json(text) {
        Ok(json) => json,
        Err(_) => {
            let members: Vec<(String, Json)> = Vec::new();
            assert(member_map(members@) == Map::<Seq<char>, JsonView>::empty());
            Json::Object(members)
        },
    }
}

/// The texts among content items, in order.
fn collect_texts(content: &Vec<McpContent>) -> (texts: Vec<String>)
    ensures
        texts.deep_view() == content_texts(content.deep_view()),
{
    let ghost all = content.deep_view();
    let mut texts: Vec<String> = Vec::new();
    let mut i: usize = 0;
    assert(texts.deep_view() =~= Seq::<Seq<char>>::empty());
    while i < content.len()
        invariant
            i <= content@.len(),
            all == content.deep_view(),
            texts.deep_view() == content_texts(all.take(i as int)),
        decreases content.len() - i,
    {
        let ghost before = texts.deep_view();
        let ghost seen = all.take(i + 1);
        assert(seen.last() == content@[i as int]@);
        assert(seen.drop_last() =~= all.take(i as int));
        if let Some(text) = &content[i].text {
            texts.push(text.clone());
            assert(texts.deep_view() =~= before.push(text@));
        }
        i = i + 1;
    }
    assert(all.take(i as int) =~= all);
    texts
}

/// What the model is told of a tool call.
pub fn report_call(outcome: &Result<McpToolResponse, McpError>) -> (report: String)
    ensures
        report@ == call_report(response_view(*outcome)),
{
    match outcome {
        Ok(response) => join(&collect_texts(&response.content), "\n"),
        Err(e) => {
            let detail = e.message();
            "Tool call failed: ".to_string().concat(detail.as_str())
        },
    }
}

/// The first step of the calls that are still to come.
fn start_calls(
    mcp_client: &McpClientManager,
    waiting: Vec<ToolCall>,
    results: Vec<(String, String)>,
) -> (step: Step<ToolCallsStage, Vec<(String, String)>>)
    ensures
        step@ == calls_step(mcp_client@, waiting.deep_view(), results.deep_view()),
{
    if waiting.len() == 0 {
        return Step::Done(Ok(results));
    }
    let mut waiting = waiting;
    let ghost all = waiting.deep_view();
    let call = waiting.remove(0);
    assert(all[0] == call@);
    assert(waiting.deep_view() =~= all.skip(1));
    let arguments = read_arguments(call.function.arguments.as_str());
    let (stage, request) = mcp_client.open_call(call.function.name.as_str(), &arguments);
    Step::Exchange {
        stage: ToolCallsStage { call, arguments, stage, waiting, results },
        delay_ms: 0,
        request,
    }
}

/// Carries out the tool calls that a chat model asks for.
pub struct ToolCallHelper;

impl ToolCallHelper {
    /// Starts to carry out the tool calls of the last message that has any to make.
    pub fn process_tool_calls(mcp_client: &McpClientManager, messages: &[ChatMessage]) -> (step:
        Step<ToolCallsStage, Vec<(String, String)>>)
        ensures
            step@ == calls_first(mcp_client@, messages.deep_view()),
    {
        let results: Vec<(String, String)> = Vec::new();
        assert(results.deep_view() =~= Seq::<(Seq<char>, Seq<char>)>::empty());
        match find_tool_calls(messages) {
            Some(calls) => start_calls(mcp_client, calls, results),
            None => Step::Done(Ok(results)),
        }
    }

    /// Goes on to carry out tool calls, after an answer.
    pub fn resume_process_tool_calls(
        mcp_client: &mut McpClientManager,
        stage: ToolCallsStage,
        answer: Answer,
    ) -> (step: Step<ToolCallsStage, Vec<(String, String)>>)
        requires
            valid_answer(answer_view(answer)),
        ensures
            (final(mcp_client)@, step@) == calls_next(
                old(mcp_client)@,
                stage@,
                answer_view(answer),
            ),
    {
        let ToolCallsStage { call, arguments, stage, waiting, results } = stage;
        match mcp_client.resume_call_tool(
            call.function.name.as_str(),
            &arguments,
            stage,
            answer,
        ) {
            Step::Exchange { stage, delay_ms, request } => Step::Exchange {
                stage: ToolCallsStage { call, arguments, stage, waiting, results },
                delay_ms,
                request,
            },
            Step::Done(outcome) => {
                let ghost before = results.deep_view();
                let mut results = results;
                let report = report_call(&outcome);
                results.push((call.id, report));
                assert(results.deep_view() =~= before.push((call.id@, report@)));
                start_calls(mcp_client, waiting, results)
            },
        }
    }

    /// How the results of tool calls show to the model.
    pub fn format_tool_results(tool_results: &[(String, String)]) -> (text: String)
        ensures
            text@ == results_text(tool_results.deep_view()),
    {
        let ghost shown = tool_results.deep_view().map_values(
            |result: (Seq<char>, Seq<char>)| result_line(result),
        );
        let mut lines: Vec<String> = Vec::new();
        let mut i: usize = 0;
        while i < tool_results.len()
            invariant
                i <= tool_results@.len(),
                shown == tool_results.deep_view().map_values(
                    |result: (Seq<char>, Seq<char>)| result_line(result),
                ),
                lines.deep_view() == shown.take(i as int),
            decreases tool_results.len() - i,
        {
            let ghost before = lines.deep_view();
            let line = "Tool ".to_string().concat(tool_results[i].0.as_str()).concat(
                " result: ",
            ).concat(tool_results[i].1.as_str());
            lines.push(line);
            assert(lines.deep_view() =~= before.push(line@));
            assert(shown.take(i + 1) =~= before.push(line@));
            i = i + 1;
        }
        assert(shown.take(i as int) =~= shown);
        join(&lines, "\n\n")
    }
}

} // verus!
