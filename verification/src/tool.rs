//! Tools of a server, calls of them, and what they return.

use crate::json::{Json, JsonView};
use vstd::prelude::*;

verus! {

/// What a tool call returned.
#[derive(Debug)]
pub struct McpToolResponse {
    /// The content items, in order.
    pub content: Vec<McpContent>,
    /// Whether the tool says that it failed.
    pub is_error: Option<bool>,
}

/// What an `McpToolResponse` says.
pub struct McpToolResponseView {
    pub content: Seq<McpContentView>,
    pub is_error: Option<bool>,
}

impl View for McpToolResponse {
    type V = McpToolResponseView;

    open spec fn view(&self) -> McpToolResponseView {
        McpToolResponseView { content: self.content.deep_view(), is_error: self.is_error }
    }
}

impl DeepView for McpToolResponse {
    type V = McpToolResponseView;

    open spec fn deep_view(&self) -> McpToolResponseView {
        self@
    }
}

/// One content item of a tool response.
#[derive(Debug)]
pub struct McpContent {
    /// What kind of content this is.
    pub content_type: String,
    /// The text, where there is one.
    pub text: Option<String>,
    /// The data, where there are any.
    pub data: Option<String>,
}

/// What an `McpContent` says.
pub struct McpContentView {
    pub content_type: Seq<char>,
    pub text: Option<Seq<char>>,
    pub data: Option<Seq<char>>,
}

impl View for McpContent {
    type V = McpContentView;

    open spec fn view(&self) -> McpContentView {
        McpContentView {
            content_type: self.content_type@,
            text: self.text.deep_view(),
            data: self.data.deep_view(),
        }
    }
}

impl DeepView for McpContent {
    type V = McpContentView;

    open spec fn deep_view(&self) -> McpContentView {
        self@
    }
}

/// A tool that a server offers.
#[derive(Debug)]
pub struct McpTool {
    pub name: String,
    pub description: Option<String>,
    /// The schema of the arguments that the tool takes.
    pub input_schema: Option<Json>,
}

/// What an `McpTool` says.
pub struct McpToolView {
    pub name: Seq<char>,
    pub description: Option<Seq<char>>,
    pub input_schema: Option<JsonView>,
}

impl View for McpTool {
    type V = McpToolView;

    open spec fn view(&self) -> McpToolView {
        McpToolView {
            name: self.name@,
            description: self.description.deep_view(),
            input_schema: self.input_schema.deep_view(),
        }
    }
}

impl DeepView for McpTool {
    type V = McpToolView;

    open spec fn deep_view(&self) -> McpToolView {
        self@
    }
}

/// A copy of an optional string.
fn copy_text(text: &Option<String>) -> (copy: Option<String>)
    ensures
        copy.deep_view() == text.deep_view(),
{
    match text {
        Some(s) => Some(s.clone()),
        None => None,
    }
}

/// A copy of an optional document.
fn copy_json(json: &Option<Json>) -> (copy: Option<Json>)
    ensures
        copy.deep_view() == json.deep_view(),
{
    match json {
        Some(j) => Some(j.clone()),
        None => None,
    }
}

impl Clone for McpTool {
    fn clone(&self) -> (copy: McpTool)
        ensures
            copy@ == self@,
    {
        McpTool {
            name: self.name.clone(),
            description: copy_text(&self.description),
            input_schema: copy_json(&self.input_schema),
        }
    }
}

/// A copy of a list of tools.
pub fn copy_tools(tools: &Vec<McpTool>) -> (copy: Vec<McpTool>)
    ensures
        copy.deep_view() == tools.deep_view(),
{
    let mut copy: Vec<McpTool> = Vec::new();
    let mut i: usize = 0;
    while i < tools.len()
        invariant
            i <= tools@.len(),
            copy.deep_view() == tools.deep_view().take(i as int),
        decreases tools.len() - i,
    {
        let ghost before = copy.deep_view();
        let tool = tools[i].clone();
        copy.push(tool);
        assert(copy.deep_view() =~= before.push(tool@));
        assert(tools.deep_view().take(i + 1) =~= before.push(tool@));
        i = i + 1;
    }
    assert(tools.deep_view().take(i as int) =~= tools.deep_view());
    copy
}

/// A function that a chat model may call.
#[derive(Debug)]
pub struct FunctionObject {
    pub name: String,
    pub description: Option<String>,
    /// The schema of the parameters.
    pub parameters: Option<Json>,
    /// Whether the model must keep to the schema.
    pub strict: Option<bool>,
}

/// What a `FunctionObject` says.
pub struct FunctionObjectView {
    pub name: Seq<char>,
    pub description: Option<Seq<char>>,
    pub parameters: Option<JsonView>,
    pub strict: Option<bool>,
}

/// A tool in the form that a chat model takes: always a function.
#[derive(Debug)]
pub struct ChatCompletionTool {
    pub function: FunctionObject,
}

/// What a `ChatCompletionTool` says.
pub struct ChatCompletionToolView {
    pub function: FunctionObjectView,
}

impl View for ChatCompletionTool {
    type V = ChatCompletionToolView;

    open spec fn view(&self) -> ChatCompletionToolView {
        ChatCompletionToolView {
            function: FunctionObjectView {
                name: self.function.name@,
                description: self.function.description.deep_view(),
                parameters: self.function.parameters.deep_view(),
                strict: self.function.strict,
            },
        }
    }
}

impl DeepView for ChatCompletionTool {
    type V = ChatCompletionToolView;

    open spec fn deep_view(&self) -> ChatCompletionToolView {
        self@
    }
}

/// A tool as a chat model takes it: its name, description and schema, with nothing said of
/// strictness.
pub open spec fn openai_tool(tool: McpToolView) -> ChatCompletionToolView {
    ChatCompletionToolView {
        function: FunctionObjectView {
            name: tool.name,
            description: tool.description,
            parameters: tool.input_schema,
            strict: None,
        },
    }
}

/// The tools as a chat model takes them, in the same order.
pub open spec fn openai_tools(tools: Seq<McpToolView>) -> Seq<ChatCompletionToolView> {
    tools.map_values(|tool: McpToolView| openai_tool(tool))
}

/// Brings tools into the form that a chat model takes.
pub fn to_openai_tools(tools: &Vec<McpTool>) -> (converted: Vec<ChatCompletionTool>)
    ensures
        converted.deep_view() == openai_tools(tools.deep_view()),
{
    let mut converted: Vec<ChatCompletionTool> = Vec::new();
    let mut i: usize = 0;
    while i < tools.len()
        invariant
            i <= tools@.len(),
            converted.deep_view() == openai_tools(tools.deep_view()).take(i as int),
        decreases tools.len() - i,
    {
        let ghost before = converted.deep_view();
        let tool = tools[i].clone();
        let function = FunctionObject {
            name: tool.name,
            description: tool.description,
            parameters: tool.input_schema,
            strict: None,
        };
        let next = ChatCompletionTool { function };
        converted.push(next);
        assert(converted.deep_view() =~= before.push(next@));
        assert(openai_tools(tools.deep_view()).take(i + 1) =~= before.push(next@));
        i = i + 1;
    }
    assert(openai_tools(tools.deep_view()).take(i as int) =~= openai_tools(tools.deep_view()));
    converted
}

/// A function call that a chat model asks for.
#[derive(Debug)]
pub struct FunctionCall {
    pub name: String,
    /// The arguments, as the model wrote them.
    pub arguments: String,
}

/// A tool call that a chat model asks for.
#[derive(Debug)]
pub struct ToolCall {
    /// What the result is to be filed under.
    pub id: String,
    pub function: FunctionCall,
}

/// What a `ToolCall` asks.
pub struct ToolCallView {
    pub id: Seq<char>,
    pub name: Seq<char>,
    pub arguments: Seq<char>,
}

impl View for ToolCall {
    type V = ToolCallView;

    open spec fn view(&self) -> ToolCallView {
        ToolCallView {
            id: self.id@,
            name: self.function.name@,
            arguments: self.function.arguments@,
        }
    }
}

impl DeepView for ToolCall {
    type V = ToolCallView;

    open spec fn deep_view(&self) -> ToolCallView {
        self@
    }
}

impl Clone for ToolCall {
    fn clone(&self) -> (copy: ToolCall)
        ensures
            copy@ == self@,
    {
        ToolCall {
            id: self.id.clone(),
            function: FunctionCall {
                name: self.function.name.clone(),
                arguments: self.function.arguments.clone(),
            },
        }
    }
}

/// A message of a chat, as far as tool calls go.
#[derive(Debug)]
pub enum ChatMessage {
    /// A message of the assistant, with the tool calls that it asks for.
    Assistant(Option<Vec<ToolCall>>),
    /// A message of anyone else.
    Other,
}

/// What a `ChatMessage` says.
pub enum ChatMessageView {
    Assistant(Option<Seq<ToolCallView>>),
    Other,
}

impl View for ChatMessage {
    type V = ChatMessageView;

    open spec fn view(&self) -> ChatMessageView {
        match *self {
            ChatMessage::Assistant(calls) => ChatMessageView::Assistant(calls.deep_view()),
            ChatMessage::Other => ChatMessageView::Other,
        }
    }
}

impl DeepView for ChatMessage {
    type V = ChatMessageView;

    open spec fn deep_view(&self) -> ChatMessageView {
        self@
    }
}

} // verus!
