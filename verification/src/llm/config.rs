//! The messages exchanged with the language-model service.

use vstd::prelude::*;

verus! {

/// The function that a tool call names, with its arguments as text.
#[derive(Debug, PartialEq, Eq)]
pub struct FunctionCall {
    pub name: String,
    pub arguments: String,
}

/// What a `FunctionCall` holds.
pub struct FunctionCallView {
    pub name: Seq<char>,
    pub arguments: Seq<char>,
}

impl View for FunctionCall {
    type V = FunctionCallView;

    open spec fn view(&self) -> FunctionCallView {
        FunctionCallView { name: self.name@, arguments: self.arguments@ }
    }
}

impl DeepView for FunctionCall {
    type V = FunctionCallView;

    open spec fn deep_view(&self) -> FunctionCallView {
        self@
    }
}

impl Clone for FunctionCall {
    fn clone(&self) -> (copy: Self)
        ensures
            copy@ == self@,
    {
        FunctionCall { name: self.name.clone(), arguments: self.arguments.clone() }
    }
}

/// A call of a tool that the model asks for.
#[derive(Debug, PartialEq, Eq)]
pub struct ToolCall {
    pub id: String,
    pub type_: String,
    pub function: FunctionCall,
}

/// What a `ToolCall` holds.
pub struct ToolCallView {
    pub id: Seq<char>,
    pub type_: Seq<char>,
    pub function: FunctionCallView,
}

impl View for ToolCall {
    type V = ToolCallView;

    open spec fn view(&self) -> ToolCallView {
        ToolCallView { id: self.id@, type_: self.type_@, function: self.function@ }
    }
}

impl DeepView for ToolCall {
    type V = ToolCallView;

    open spec fn deep_view(&self) -> ToolCallView {
        self@
    }
}

impl Clone for ToolCall {
    fn clone(&self) -> (copy: Self)
        ensures
            copy@ == self@,
    {
        ToolCall {
            id: self.id.clone(),
            type_: self.type_.clone(),
            function: self.function.clone(),
        }
    }
}

/// One message of a conversation, tagged with the role of its author.
#[derive(Debug, PartialEq, Eq)]
pub struct ChatMessage {
    pub role: String,
    pub content: Option<String>,
    pub tool_calls: Option<Vec<ToolCall>>,
    pub tool_call_id: Option<String>,
    pub name: Option<String>,
}

/// What a `ChatMessage` holds.
pub struct ChatMessageView {
    pub role: Seq<char>,
    pub content: Option<Seq<char>>,
    pub tool_calls: Option<Seq<ToolCallView>>,
    pub tool_call_id: Option<Seq<char>>,
    pub name: Option<Seq<char>>,
}

/// The text of an optional string.
pub open spec fn text_of(s: Option<String>) -> Option<Seq<char>> {
    match s {
        Some(t) => Some(t@),
        None => None,
    }
}

impl View for ChatMessage {
    type V = ChatMessageView;

    open spec fn view(&self) -> ChatMessageView {
        ChatMessageView {
            role: self.role@,
            content: text_of(self.content),
            tool_calls: match self.tool_calls {
                Some(calls) => Some(calls.deep_view()),
                None => None,
            },
            tool_call_id: text_of(self.tool_call_id),
            name: text_of(self.name),
        }
    }
}

impl DeepView for ChatMessage {
    type V = ChatMessageView;

    open spec fn deep_view(&self) -> ChatMessageView {
        self@
    }
}

/// A plain message: a role and a text, nothing else.
pub open spec fn plain_message(role: Seq<char>, text: Seq<char>) -> ChatMessageView {
    ChatMessageView {
        role,
        content: Some(text),
        tool_calls: None,
        tool_call_id: None,
        name: None,
    }
}

impl Clone for ChatMessage {
    fn clone(&self) -> (copy: Self)
        ensures
            copy@ == self@,
    {
        let tool_calls = match &self.tool_calls {
            Some(calls) => {
                let copied = calls.clone();
                assert(copied.deep_view() =~= calls.deep_view());
                Some(copied)
            },
            None => None,
        };
        ChatMessage {
            role: self.role.clone(),
            content: self.content.clone(),
            tool_calls,
            tool_call_id: self.tool_call_id.clone(),
            name: self.name.clone(),
        }
    }
}

impl ChatMessage {
    /// A plain message by `role` that says `text`.
    pub fn plain(role: &str, text: String) -> (message: Self)
        ensures
            message@ == plain_message(role@, text@),
    {
        ChatMessage {
            role: role.to_owned(),
            content: Some(text),
            tool_calls: None,
            tool_call_id: None,
            name: None,
        }
    }
}

/// The reply of the language-model service to a chat request.
#[derive(Debug, PartialEq, Eq)]
pub struct ServiceChatResponse {
    pub content: Option<String>,
}

impl View for ServiceChatResponse {
    type V = Option<Seq<char>>;

    open spec fn view(&self) -> Option<Seq<char>> {
        text_of(self.content)
    }
}

impl Clone for ServiceChatResponse {
    fn clone(&self) -> (copy: Self)
        ensures
            copy@ == self@,
    {
        ServiceChatResponse { content: self.content.clone() }
    }
}

/// A request to the language-model service for the embedding of a text.
#[derive(Debug, PartialEq, Eq)]
pub struct ServiceEmbeddingRequest {
    pub provider: String,
    pub model: String,
    pub input: String,
}

/// What a `ServiceEmbeddingRequest` holds.
pub struct ServiceEmbeddingRequestView {
    pub provider: Seq<char>,
    pub model: Seq<char>,
    pub input: Seq<char>,
}

impl View for ServiceEmbeddingRequest {
    type V = ServiceEmbeddingRequestView;

    open spec fn view(&self) -> ServiceEmbeddingRequestView {
        ServiceEmbeddingRequestView {
            provider: self.provider@,
            model: self.model@,
            input: self.input@,
        }
    }
}

impl Clone for ServiceEmbeddingRequest {
    fn clone(&self) -> (copy: Self)
        ensures
            copy@ == self@,
    {
        ServiceEmbeddingRequest {
            provider: self.provider.clone(),
            model: self.model.clone(),
            input: self.input.clone(),
        }
    }
}

} // verus!
