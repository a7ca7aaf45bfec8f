//! The OpenAI client's settings and the shaping of its messages. Sending is
//! left to the caller.

use vstd::prelude::*;
use vstd::string::StringExecFns;

verus! {

/// The model used where none is named.
pub open spec fn default_model() -> Seq<char> {
    "gpt-4"@
}

/// Where the service listens unless another endpoint is given.
pub open spec fn default_endpoint() -> Seq<char> {
    "https://api.openai.com/v1"@
}

/// What the model is told it is.
pub open spec fn system_text() -> Seq<char> {
    "You are a helpful assistant."@
}

/// One message of a chat.
#[derive(Debug)]
pub struct ChatMessage {
    /// Who speaks: system, user or assistant.
    pub role: String,
    /// What is said.
    pub content: String,
}

impl Clone for ChatMessage {
    fn clone(&self) -> (copy: Self)
        ensures
            copy.role@ == self.role@,
            copy.content@ == self.content@,
    {
        ChatMessage { role: self.role.clone(), content: self.content.clone() }
    }
}

/// One answer among those that the service offers.
#[derive(Debug)]
pub struct Choice {
    pub message: ChatMessage,
    pub finish_reason: String,
}

/// Tokens used by a request.
#[derive(Debug)]
pub struct Usage {
    pub prompt_tokens: usize,
    pub completion_tokens: usize,
    pub total_tokens: usize,
}

/// An answer of the service.
#[derive(Debug)]
pub struct ChatResponse {
    pub choices: Vec<Choice>,
    pub usage: Option<Usage>,
}

/// The text of an answer: what the first choice says; empty where there is
/// no choice.
pub open spec fn answer_text(choices: Seq<Choice>) -> Seq<char> {
    if choices.len() > 0 {
        choices[0].message.content@
    } else {
        Seq::empty()
    }
}

/// The settings of an OpenAI client.
#[derive(Debug)]
pub struct OpenAILLM {
    api_key: String,
    model: String,
    endpoint: String,
}

impl OpenAILLM {
    /// The key that is presented.
    pub closed spec fn key(&self) -> Seq<char> {
        self.api_key@
    }

    /// The model that is asked.
    pub closed spec fn model(&self) -> Seq<char> {
        self.model@
    }

    /// Where the service listens.
    pub closed spec fn base(&self) -> Seq<char> {
        self.endpoint@
    }

    /// A client for the default model.
    pub fn new(api_key: String) -> (llm: Self)
        ensures
            llm.key() == api_key@,
            llm.model() == default_model(),
            llm.base() == default_endpoint(),
    {
        Self::with_model(api_key, "gpt-4".to_string())
    }

    /// A client for `model`.
    pub fn with_model(api_key: String, model: String) -> (llm: Self)
        ensures
            llm.key() == api_key@,
            llm.model() == model@,
            llm.base() == default_endpoint(),
    {
        OpenAILLM { api_key, model, endpoint: "https://api.openai.com/v1".to_string() }
    }

    /// A client for `model` at `endpoint`.
    pub fn with_endpoint(api_key: String, model: String, endpoint: String) -> (llm: Self)
        ensures
            llm.key() == api_key@,
            llm.model() == model@,
            llm.base() == endpoint@,
    {
        OpenAILLM { api_key, model, endpoint }
    }

    /// Ask another model from now on.
    pub fn set_model(&mut self, model: String)
        ensures
            final(self).model() == model@,
            final(self).key() == old(self).key(),
            final(self).base() == old(self).base(),
    {
        self.model = model;
    }

    /// The model that is asked.
    pub fn get_model(&self) -> (model: &str)
        ensures
            model@ == self.model(),
    {
        self.model.as_str()
    }

    /// The model that is asked.
    pub fn model_name(&self) -> (model: &str)
        ensures
            model@ == self.model(),
    {
        self.model.as_str()
    }

    /// The key that is presented.
    pub fn api_key(&self) -> (key: &str)
        ensures
            key@ == self.key(),
    {
        self.api_key.as_str()
    }

    /// The value of the authorization header: `Bearer`, a blank, the key.
    pub fn authorization(&self) -> (value: String)
        ensures
            value@ == "Bearer "@ + self.key(),
    {
        String::from_str("Bearer ").concat(self.api_key.as_str())
    }

    /// Where chats are sent: the endpoint, then `/chat/completions`.
    pub fn completions_url(&self) -> (url: String)
        ensures
            url@ == self.base() + "/chat/completions"@,
    {
        self.endpoint.clone().concat("/chat/completions")
    }

    /// Where the models are listed: the endpoint, then `/models`.
    pub fn models_url(&self) -> (url: String)
        ensures
            url@ == self.base() + "/models"@,
    {
        self.endpoint.clone().concat("/models")
    }

    /// The chat that asks `prompt`: the system's message, then the user's.
    pub fn request_messages(prompt: &str) -> (messages: Vec<ChatMessage>)
        ensures
            messages@.len() == 2,
            messages@[0].role@ == "system"@,
            messages@[0].content@ == system_text(),
            messages@[1].role@ == "user"@,
            messages@[1].content@ == prompt@,
    {
        let mut messages: Vec<ChatMessage> = Vec::new();
        messages.push(
            ChatMessage {
                role: "system".to_string(),
                content: "You are a helpful assistant.".to_string(),
            },
        );
        messages.push(ChatMessage { role: "user".to_string(), content: prompt.to_owned() });
        messages
    }

    /// The text of an answer: what its first choice says, or nothing.
    pub fn reply_text(response: &ChatResponse) -> (text: String)
        ensures
            text@ == answer_text(response.choices@),
    {
        if response.choices.len() > 0 {
            response.choices[0].message.content.clone()
        } else {
            String::new()
        }
    }
}

} // verus!
