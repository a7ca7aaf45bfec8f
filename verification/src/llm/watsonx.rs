//! The Watsonx client's settings. Sending is left to the caller.

use vstd::prelude::*;
use vstd::string::StringExecFns;

verus! {

/// The model used where none is named.
pub open spec fn default_model() -> Seq<char> {
    "ibm/granite-4-h-small"@
}

/// Where text is generated.
pub open spec fn generation_url() -> Seq<char> {
    "https://api.watsonx.ai/v1/text/generation"@
}

/// The settings of a Watsonx client.
#[derive(Debug)]
pub struct WatsonxLLM {
    api_key: String,
    project_id: String,
    model: String,
}

impl WatsonxLLM {
    /// The key that is presented.
    pub closed spec fn key(&self) -> Seq<char> {
        self.api_key@
    }

    /// The project that is billed.
    pub closed spec fn project(&self) -> Seq<char> {
        self.project_id@
    }

    /// The model that is asked.
    pub closed spec fn model(&self) -> Seq<char> {
        self.model@
    }

    /// A client for `model`.
    pub fn new(api_key: String, project_id: String, model: String) -> (llm: Self)
        ensures
            llm.key() == api_key@,
            llm.project() == project_id@,
            llm.model() == model@,
    {
        WatsonxLLM { api_key, project_id, model }
    }

    /// A client for the default model.
    pub fn with_defaults(api_key: String, project_id: String) -> (llm: Self)
        ensures
            llm.key() == api_key@,
            llm.project() == project_id@,
            llm.model() == default_model(),
    {
        Self::new(api_key, project_id, "ibm/granite-4-h-small".to_string())
    }

    /// The model that is asked.
    pub fn model_name(&self) -> (model: &str)
        ensures
            model@ == self.model(),
    {
        self.model.as_str()
    }

    /// The project that is billed.
    pub fn project_id(&self) -> (project: &str)
        ensures
            project@ == self.project(),
    {
        self.project_id.as_str()
    }

    /// The value of the authorization header: `Bearer`, a blank, the key.
    pub fn authorization(&self) -> (value: String)
        ensures
            value@ == "Bearer "@ + self.key(),
    {
        String::from_str("Bearer ").concat(self.api_key.as_str())
    }

    /// Where text is generated.
    pub fn url() -> (url: &'static str)
        ensures
            url@ == generation_url(),
    {
        "https://api.watsonx.ai/v1/text/generation"
    }
}

} // verus!
