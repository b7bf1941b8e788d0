//! The shapes of the chat-completions wire protocol, as plain data. The
//! HTTP client that carries them lives outside the library; these types fix
//! what it sends and what it decodes.

use crate::messages::ChatCompletionMessage;
use vstd::prelude::*;

verus! {

/// The endpoint and credential a chat-completions client is built from.
pub struct OpenAIClient {
    pub api_key: String,
    pub api_base: String,
}

impl OpenAIClient {
    /// A client for the default API base.
    pub fn new(api_key: String) -> (client: Self)
        ensures
            client.api_key@ == api_key@,
            client.api_base@ == "https://api.openai.com/v1"@,
    {
        OpenAIClient { api_key, api_base: String::from_str("https://api.openai.com/v1") }
    }
}

/// The request body of one chat-completions call.
pub struct ChatCompletionRequest {
    pub model: String,
    pub messages: Vec<ChatCompletionMessage>,
}

impl ChatCompletionRequest {
    pub fn new(model: String, messages: Vec<ChatCompletionMessage>) -> (r: Self)
        ensures
            r.model@ == model@,
            r.messages.deep_view() == messages.deep_view(),
    {
        ChatCompletionRequest { model, messages }
    }
}

/// The request body the controller always sends: the fixed model over the
/// given conversation snapshot.
pub fn request_for(messages: Vec<ChatCompletionMessage>) -> (r: ChatCompletionRequest)
    ensures
        r.model@ == "gpt-4o-mini"@,
        r.messages.deep_view() == messages.deep_view(),
{
    ChatCompletionRequest::new(String::from_str("gpt-4o-mini"), messages)
}

/// A message role as the wire protocol spells it.
#[allow(non_camel_case_types)]
#[derive(Clone, Copy, Debug, PartialEq, Eq, Structural)]
pub enum MessageRole {
    user,
    system,
    assistant,
    function,
    tool,
}

/// A message body: text for now. The wire encoding writes the text, or
/// null when it is empty.
pub enum Content {
    Text(String),
}

impl Content {
    /// Whether the wire encoding of this body is null.
    pub fn encodes_as_null(&self) -> (b: bool)
        ensures
            b == match self {
                Content::Text(t) => t@.len() == 0,
            },
    {
        match self {
            Content::Text(t) => t.as_str().is_empty(),
        }
    }
}

/// One message in the wire protocol's own spelling.
pub struct WireMessage {
    pub role: MessageRole,
    pub content: Content,
}

impl WireMessage {
    /// The wire spelling of one conversation message: the role name in
    /// lower case, the text as it stands.
    pub fn of_message(m: &ChatCompletionMessage) -> (w: Self)
        ensures
            w.role == match m@.role {
                crate::messages::Role::User => MessageRole::user,
                crate::messages::Role::Assistant => MessageRole::assistant,
                crate::messages::Role::System => MessageRole::system,
            },
            w.content matches Content::Text(t) && t@ == m@.content,
    {
        let role = match m.role {
            crate::messages::Role::User => MessageRole::user,
            crate::messages::Role::Assistant => MessageRole::assistant,
            crate::messages::Role::System => MessageRole::system,
        };
        WireMessage { role, content: Content::Text(m.content.clone()) }
    }
}

/// The decoded response of one chat-completions call, reduced to what the
/// controller reads.
pub struct ChatCompletionResponse {
    pub id: String,
    pub object: String,
    pub created: i64,
    pub model: String,
    pub choices: Vec<String>,
}

} // verus!
