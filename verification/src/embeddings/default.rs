//! The settings of the embedder that asks the Watsonx service. Sending is
//! left to the caller.

use vstd::prelude::*;
use vstd::string::StringExecFns;

verus! {

/// The model used where none is named.
pub open spec fn default_model() -> Seq<char> {
    "sentence-transformers/all-minilm-l6-v2"@
}

/// The dimension of the default model.
pub const DEFAULT_DIMENSION: usize = 384;

/// Where embeddings are asked for.
pub open spec fn embeddings_url() -> Seq<char> {
    "https://api.watsonx.ai/v1/embeddings"@
}

/// The settings of the embedder.
#[derive(Debug)]
pub struct DefaultEmbedder {
    api_key: String,
    project_id: String,
    model: String,
    dimension: usize,
}

impl DefaultEmbedder {
    /// The key that is presented.
    pub closed spec fn key(&self) -> Seq<char> {
        self.api_key@
    }

    /// The project that is billed.
    pub closed spec fn project(&self) -> Seq<char> {
        self.project_id@
    }

    /// The model that is asked.
    pub closed spec fn model(&self) -> Seq<char> {
        self.model@
    }

    /// The number of components of its embeddings.
    pub closed spec fn dim(&self) -> nat {
        self.dimension as nat
    }

    /// An embedder for `model`, whose embeddings have `dimension`
    /// components.
    pub fn new(api_key: String, project_id: String, model: String, dimension: usize) -> (embedder:
        Self)
        ensures
            embedder.key() == api_key@,
            embedder.project() == project_id@,
            embedder.model() == model@,
            embedder.dim() == dimension,
    {
        DefaultEmbedder { api_key, project_id, model, dimension }
    }

    /// An embedder for the default model.
    pub fn with_defaults(api_key: String, project_id: String) -> (embedder: Self)
        ensures
            embedder.key() == api_key@,
            embedder.project() == project_id@,
            embedder.model() == default_model(),
            embedder.dim() == DEFAULT_DIMENSION,
    {
        Self::new(
            api_key,
            project_id,
            "sentence-transformers/all-minilm-l6-v2".to_string(),
            DEFAULT_DIMENSION,
        )
    }

    /// The number of components of its embeddings.
    pub fn dimension(&self) -> (dimension: usize)
        ensures
            dimension == self.dim(),
    {
        self.dimension
    }

    /// The model that is asked.
    pub fn model_id(&self) -> (model: &str)
        ensures
            model@ == self.model(),
    {
        self.model.as_str()
    }

    /// The project that is billed.
    pub fn project_id(&self) -> (project: &str)
        ensures
            project@ == self.project(),
    {
        self.project_id.as_str()
    }

    /// The value of the authorization header: `Bearer`, a blank, the key.
    pub fn authorization(&self) -> (value: String)
        ensures
            value@ == "Bearer "@ + self.key(),
    {
        String::from_str("Bearer ").concat(self.api_key.as_str())
    }

    /// Where embeddings are asked for.
    pub fn url() -> (url: &'static str)
        ensures
            url@ == embeddings_url(),
    {
        "https://api.watsonx.ai/v1/embeddings"
    }
}

} // verus!
