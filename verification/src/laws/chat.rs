//! What comes of the tool calls of a chat.

use crate::codec::parsed;
use crate::error::McpErrorView;
use crate::helper::{
    call_arguments, call_report, calls_first, calls_next, content_texts,
    last_tool_calls, results_text, ToolCallsStageView,
};
use crate::http::AnswerView;
use crate::json::JsonView;
use crate::operation::{call_next, CallStage, ClientView, StepView};
use crate::text::lemma_joined_in_two;
use crate::tool::{ChatMessageView, McpContentView, McpToolResponseView};
use vstd::prelude::*;

verus! {

/// The arguments of a call are the document that their text is, whatever it is, and an object
/// without members where the text is no JSON.
pub proof fn law_arguments(text: Seq<char>)
    ensures
        parsed(text) matches Ok(document) ==> call_arguments(text) == document,
        parsed(text) is Err ==> (call_arguments(text) matches JsonView::Object(members)
            && members.dom() == Set::<Seq<char>>::empty()),
{
    assert(Map::<Seq<char>, JsonView>::empty().dom() =~= Set::<Seq<char>>::empty());
}

/// A chat without a message of the assistant that has a list of calls asks for none.
pub proof fn law_no_tool_calls(messages: Seq<ChatMessageView>)
    requires
        forall|j: int|
            0 <= j < messages.len() ==> !(#[trigger] messages[j] matches ChatMessageView::Assistant(
                Some(_),
            )),
    ensures
        last_tool_calls(messages) is None,
    decreases messages.len(),
{
    if messages.len() > 0 {
        let before = messages.drop_last();
        assert(!(messages[messages.len() - 1] matches ChatMessageView::Assistant(Some(_))));
        assert forall|j: int| 0 <= j < before.len() implies !(#[trigger] before[j] matches
            ChatMessageView::Assistant(Some(_))) by {
            assert(before[j] == messages[j]);
        }
        law_no_tool_calls(before);
    }
}

/// An item has a text.
pub open spec fn has_text(item: McpContentView) -> bool {
    item.text is Some
}

/// The texts of two lists are those of the first and then those of the second.
proof fn lemma_texts_add_up(first: Seq<McpContentView>, second: Seq<McpContentView>)
    ensures
        content_texts(first + second) == content_texts(first) + content_texts(second),
    decreases second.len(),
{
    if second.len() == 0 {
        assert(first + second =~= first);
        assert(content_texts(first) + content_texts(second) =~= content_texts(first));
    } else {
        assert((first + second).drop_last() =~= first + second.drop_last());
        assert((first + second).last() == second.last());
        lemma_texts_add_up(first, second.drop_last());
        assert(content_texts(first + second) =~= content_texts(first) + content_texts(second));
    }
}

/// A list with a text in it has texts.
proof fn lemma_some_text(content: Seq<McpContentView>, i: int)
    requires
        0 <= i < content.len(),
        has_text(content[i]),
    ensures
        content_texts(content).len() > 0,
    decreases content.len(),
{
    if i < content.len() - 1 {
        assert(content.drop_last()[i] == content[i]);
        lemma_some_text(content.drop_last(), i);
    }
}

/// A call that returned one item with a text is reported with exactly that text, all of it.
pub proof fn law_one_text_is_reported(
    response: McpToolResponseView,
    item: McpContentView,
    text: Seq<char>,
)
    requires
        response.content == seq![item],
        item.text == Some(text),
    ensures
        call_report(Ok(response)) == text,
{
    reveal_with_fuel(content_texts, 2);
    assert(seq![item].drop_last() =~= Seq::<McpContentView>::empty());
    assert(content_texts(seq![item]) =~= seq![text]);
}

/// An item without a text adds nothing to the report, wherever it stands.
pub proof fn law_other_items_are_not_reported(
    with: McpToolResponseView,
    without: McpToolResponseView,
    before: Seq<McpContentView>,
    item: McpContentView,
    after: Seq<McpContentView>,
)
    requires
        item.text is None,
        with.content == before + seq![item] + after,
        without.content == before + after,
    ensures
        call_report(Ok(with)) == call_report(Ok(without)),
{
    reveal_with_fuel(content_texts, 2);
    assert(seq![item].drop_last() =~= Seq::<McpContentView>::empty());
    lemma_texts_add_up(before + seq![item], after);
    lemma_texts_add_up(before, seq![item]);
    lemma_texts_add_up(before, after);
    assert(content_texts(before) + content_texts(seq![item]) =~= content_texts(before));
}

/// A call that returned no text is reported with nothing.
pub proof fn law_nothing_to_report(response: McpToolResponseView)
    requires
        forall|i: int| 0 <= i < response.content.len() ==> !has_text(#[trigger] response.content[i]),
    ensures
        call_report(Ok(response)).len() == 0,
{
    lemma_no_text(response.content);
}

/// A list without a text in it has no texts.
proof fn lemma_no_text(content: Seq<McpContentView>)
    requires
        forall|i: int| 0 <= i < content.len() ==> !has_text(#[trigger] content[i]),
    ensures
        content_texts(content).len() == 0,
    decreases content.len(),
{
    if content.len() > 0 {
        let before = content.drop_last();
        assert(!has_text(content[content.len() - 1]));
        assert forall|i: int| 0 <= i < before.len() implies !has_text(#[trigger] before[i]) by {
            assert(before[i] == content[i]);
        }
        lemma_no_text(before);
    }
}

/// Items behind one another are reported behind one another: where both lists hold a text, the
/// report of the whole is that of the first list, a line feed, and that of the second.
pub proof fn law_reports_add_up(
    whole: McpToolResponseView,
    one: McpToolResponseView,
    two: McpToolResponseView,
    i: int,
    j: int,
)
    requires
        whole.content == one.content + two.content,
        0 <= i < one.content.len(),
        has_text(one.content[i]),
        0 <= j < two.content.len(),
        has_text(two.content[j]),
    ensures
        call_report(Ok(whole)) == call_report(Ok(one)) + seq!['\n'] + call_report(Ok(two)),
{
    reveal_strlit("\n");
    assert("\n"@ =~= seq!['\n']);
    lemma_texts_add_up(one.content, two.content);
    lemma_some_text(one.content, i);
    lemma_some_text(two.content, j);
    lemma_joined_in_two(content_texts(one.content), content_texts(two.content), "\n"@);
}

/// A call that failed is reported with its error in words, whole.
pub proof fn law_failures_are_reported(e: McpErrorView)
    ensures
        call_report(Err(e)) == "Tool call failed: "@ + e.message(),
{
}

/// A round begins with the first call of the chat, with the arguments that its text stands for, no
/// results, and the other calls still to come; where there are no calls it is over, without
/// results.
pub proof fn law_round_begins(client: ClientView, messages: Seq<ChatMessageView>)
    ensures
        last_tool_calls(messages) is None || last_tool_calls(messages)->0.len() == 0 ==> (
        calls_first(client, messages) matches StepView::Done(Ok(results)) && results.len() == 0),
        last_tool_calls(messages) matches Some(calls) ==> calls.len() > 0 ==> (calls_first(
            client,
            messages,
        ) matches StepView::Exchange { stage, delay_ms, .. } && {
            &&& delay_ms == 0
            &&& stage.call == calls[0]
            &&& stage.arguments == call_arguments(calls[0].arguments)
            &&& stage.waiting == calls.skip(1)
            &&& stage.results.len() == 0
            &&& stage.stage == (if client.session_id is Some {
                CallStage::Calling(0)
            } else {
                CallStage::Connecting(0)
            })
        }),
{
}

/// Within a round a call takes the steps that it takes alone, and leaves the client as it does
/// alone. While it goes on, nothing else of the round changes. When it is over, its report is filed
/// under its id behind the results before; then the next call begins, and where there is none the
/// results are the outcome.
pub proof fn law_round_goes_on(client: ClientView, stage: ToolCallsStageView, answer: AnswerView)
    ensures
        ({
            let (alone, called) = call_next(
                client,
                stage.call.name,
                stage.arguments,
                stage.stage,
                answer,
            );
            let (after, step) = calls_next(client, stage, answer);
            &&& after == alone
            &&& called matches StepView::Exchange { stage: inner, delay_ms, request } ==> (
            step matches StepView::Exchange { stage: next, delay_ms: wait, request: asked } && {
                &&& next.stage == inner
                &&& wait == delay_ms
                &&& asked == request
                &&& next.call == stage.call
                &&& next.arguments == stage.arguments
                &&& next.waiting == stage.waiting
                &&& next.results == stage.results
            })
            &&& called matches StepView::Done(outcome) ==> {
                let results = stage.results + seq![(stage.call.id, call_report(outcome))];
                &&& stage.waiting.len() == 0 ==> (step matches StepView::Done(Ok(all)) && all
                    == results)
                &&& stage.waiting.len() > 0 ==> (step matches StepView::Exchange {
                    stage: next,
                    delay_ms,
                    ..
                } && {
                    &&& delay_ms == 0
                    &&& next.call == stage.waiting[0]
                    &&& next.arguments == call_arguments(stage.waiting[0].arguments)
                    &&& next.waiting == stage.waiting.skip(1)
                    &&& next.results == results
                    &&& next.stage == (if after.session_id is Some {
                        CallStage::Calling(0)
                    } else {
                        CallStage::Connecting(0)
                    })
                })
            }
        }),
{
    let (_, called) = call_next(
        client,
        stage.call.name,
        stage.arguments,
        stage.stage,
        answer,
    );
    if let StepView::Done(outcome) = called {
        let filed = (stage.call.id, call_report(outcome));
        assert(stage.results.push(filed) =~= stage.results + seq![filed]);
    }
}

/// A result shows with the id of its call and its whole text.
pub proof fn law_one_result_shows(id: Seq<char>, text: Seq<char>)
    ensures
        results_text(seq![(id, text)]) == "Tool "@ + id + " result: "@ + text,
{
    let results = seq![(id, text)];
    let shown = results.map_values(
        |result: (Seq<char>, Seq<char>)| crate::helper::result_line(result),
    );
    assert(shown =~= seq!["Tool "@ + id + " result: "@ + text]);
}

} // verus!
