use vstd::prelude::*;

use vstd::string::StringExecFns;

verus! {

/// Chat models the inference backend accepts.
#[derive(Clone, Copy, Debug, PartialEq, Eq, Structural)]
pub enum SupportedChatModel {
    Gpt4,
    Gpt40314,
    Gpt432k,
    Gpt432k0314,
    Gpt35Turbo,
    Gpt35Turbo0301,
}

impl SupportedChatModel {
    /// The wire name the provider knows this model under.
    pub fn api_name(&self) -> (r: String)
        ensures
            *self is Gpt4 ==> r@ == "gpt-4"@,
            *self is Gpt40314 ==> r@ == "gpt-4-0314"@,
            *self is Gpt432k ==> r@ == "gpt-4-32k"@,
            *self is Gpt432k0314 ==> r@ == "gpt-4-32k-0314"@,
            *self is Gpt35Turbo ==> r@ == "gpt-3.5-turbo"@,
            *self is Gpt35Turbo0301 ==> r@ == "gpt-3.5-turbo-0301"@,
    {
        match self {
            SupportedChatModel::Gpt4 => String::from_str("gpt-4"),
            SupportedChatModel::Gpt40314 => String::from_str("gpt-4-0314"),
            SupportedChatModel::Gpt432k => String::from_str("gpt-4-32k"),
            SupportedChatModel::Gpt432k0314 => String::from_str("gpt-4-32k-0314"),
            SupportedChatModel::Gpt35Turbo => String::from_str("gpt-3.5-turbo"),
            SupportedChatModel::Gpt35Turbo0301 => String::from_str("gpt-3.5-turbo-0301"),
        }
    }
}

/// Role of one chat message on the wire.
#[derive(Clone, Copy, Debug, PartialEq, Eq, Structural)]
pub enum MessageRole {
    User,
    System,
    Assistant,
    Function,
}

/// A function call a message may carry.
#[derive(Debug, PartialEq)]
pub struct FunctionCall {
    pub name: String,
    pub arguments: String,
}

/// One rendered chat message, in the order it will be sent.
#[derive(Debug, PartialEq)]
pub struct TemplateMessage {
    pub role: MessageRole,
    pub content: String,
    pub name: Option<String>,
    pub function_call: Option<FunctionCall>,
}

/// One batched chat-completion request: the model to address and the
/// ordered messages to send. Sampling parameters are left to the provider
/// adapter's defaults.
#[derive(Debug, PartialEq)]
pub struct ChatCompletionReq {
    pub model: String,
    pub template_messages: Vec<TemplateMessage>,
}

/// One choice of a chat-completion response.
#[derive(Debug, PartialEq)]
pub struct ChatCompletionChoice {
    pub text: Option<String>,
    pub index: u32,
    pub finish_reason: String,
}

/// Token accounting the provider reports for one call.
#[derive(Clone, Copy, Debug, PartialEq, Eq, Structural)]
pub struct Usage {
    pub prompt_tokens: i32,
    pub completion_tokens: i32,
    pub total_tokens: i32,
}

/// One chat-completion response, with its ordered choices.
#[derive(Debug, PartialEq)]
pub struct ChatCompletionRes {
    pub id: String,
    pub object: String,
    pub created: i64,
    pub model: String,
    pub choices: Vec<ChatCompletionChoice>,
    pub usage: Usage,
}

} // verus!
