//! Settings of the memory engine.

use crate::text::{clone_opt_text, opt_text};
use vstd::prelude::*;

verus! {

/// The language model used where none is set.
pub open spec fn default_llm_model() -> Seq<char> {
    "ibm/granite-4-h-small"@
}

/// The collection prefix used where none is set.
pub open spec fn default_collection_prefix() -> Seq<char> {
    "mem0"@
}

/// The vector dimension used where none is set.
pub const DEFAULT_VECTOR_DIMENSION: usize = 384;

/// The batch size used where none is set.
pub const DEFAULT_BATCH_SIZE: usize = 32;

/// Settings of the memory engine. A setting that is `None` takes its
/// default.
#[derive(Debug)]
pub struct MemoryConfig {
    /// Where the vector store listens.
    pub vector_store_url: String,
    /// Key for the Watsonx service.
    pub watsonx_api_key: String,
    /// Project at the Watsonx service.
    pub watsonx_project_id: Option<String>,
    /// Name of the language model.
    pub llm_model: Option<String>,
    /// Name of the embedding model.
    pub embedding_model: Option<String>,
    /// Number of components of a vector.
    pub vector_dimension: Option<usize>,
    /// What collection names begin with.
    pub collection_prefix: Option<String>,
    /// Whether telemetry is on.
    pub enable_telemetry: Option<bool>,
    /// How many operations go into one batch.
    pub batch_size: Option<usize>,
}

/// The mathematical content of a `MemoryConfig`.
pub ghost struct ConfigView {
    pub vector_store_url: Seq<char>,
    pub watsonx_api_key: Seq<char>,
    pub watsonx_project_id: Option<Seq<char>>,
    pub llm_model: Option<Seq<char>>,
    pub embedding_model: Option<Seq<char>>,
    pub vector_dimension: Option<usize>,
    pub collection_prefix: Option<Seq<char>>,
    pub enable_telemetry: Option<bool>,
    pub batch_size: Option<usize>,
}

impl View for MemoryConfig {
    type V = ConfigView;

    open spec fn view(&self) -> ConfigView {
        ConfigView {
            vector_store_url: self.vector_store_url@,
            watsonx_api_key: self.watsonx_api_key@,
            watsonx_project_id: opt_text(self.watsonx_project_id),
            llm_model: opt_text(self.llm_model),
            embedding_model: opt_text(self.embedding_model),
            vector_dimension: self.vector_dimension,
            collection_prefix: opt_text(self.collection_prefix),
            enable_telemetry: self.enable_telemetry,
            batch_size: self.batch_size,
        }
    }
}

impl Clone for MemoryConfig {
    fn clone(&self) -> (copy: Self)
        ensures
            copy@ == self@,
    {
        MemoryConfig {
            vector_store_url: self.vector_store_url.clone(),
            watsonx_api_key: self.watsonx_api_key.clone(),
            watsonx_project_id: clone_opt_text(&self.watsonx_project_id),
            llm_model: clone_opt_text(&self.llm_model),
            embedding_model: clone_opt_text(&self.embedding_model),
            vector_dimension: self.vector_dimension,
            collection_prefix: clone_opt_text(&self.collection_prefix),
            enable_telemetry: self.enable_telemetry,
            batch_size: self.batch_size,
        }
    }
}

impl MemoryConfig {
    /// The settings for a store and a key, everything else at its default.
    pub fn new(vector_store_url: String, watsonx_api_key: String) -> (config: Self)
        ensures
            config@ == (ConfigView {
                vector_store_url: vector_store_url@,
                watsonx_api_key: watsonx_api_key@,
                watsonx_project_id: None,
                llm_model: Some(default_llm_model()),
                embedding_model: None,
                vector_dimension: Some(DEFAULT_VECTOR_DIMENSION),
                collection_prefix: Some(default_collection_prefix()),
                enable_telemetry: Some(true),
                batch_size: Some(DEFAULT_BATCH_SIZE),
            }),
    {
        MemoryConfig {
            vector_store_url,
            watsonx_api_key,
            watsonx_project_id: None,
            llm_model: Some("ibm/granite-4-h-small".to_string()),
            embedding_model: None,
            vector_dimension: Some(DEFAULT_VECTOR_DIMENSION),
            collection_prefix: Some("mem0".to_string()),
            enable_telemetry: Some(true),
            batch_size: Some(DEFAULT_BATCH_SIZE),
        }
    }

    /// The same settings with the Watsonx project set.
    pub fn with_project_id(self, project_id: String) -> (config: Self)
        ensures
            config@ == (ConfigView { watsonx_project_id: Some(project_id@), ..self@ }),
    {
        let mut config = self;
        config.watsonx_project_id = Some(project_id);
        config
    }

    /// The same settings with the language model set.
    pub fn with_llm_model(self, model: String) -> (config: Self)
        ensures
            config@ == (ConfigView { llm_model: Some(model@), ..self@ }),
    {
        let mut config = self;
        config.llm_model = Some(model);
        config
    }

    /// The same settings with the embedding model set.
    pub fn with_embedding_model(self, model: String) -> (config: Self)
        ensures
            config@ == (ConfigView { embedding_model: Some(model@), ..self@ }),
    {
        let mut config = self;
        config.embedding_model = Some(model);
        config
    }

    /// The same settings with the vector dimension set.
    pub fn with_vector_dimension(self, dim: usize) -> (config: Self)
        ensures
            config@ == (ConfigView { vector_dimension: Some(dim), ..self@ }),
    {
        let mut config = self;
        config.vector_dimension = Some(dim);
        config
    }

    /// The same settings with the collection prefix set.
    pub fn with_collection_prefix(self, prefix: String) -> (config: Self)
        ensures
            config@ == (ConfigView { collection_prefix: Some(prefix@), ..self@ }),
    {
        let mut config = self;
        config.collection_prefix = Some(prefix);
        config
    }

    /// The same settings with telemetry switched on or off.
    pub fn with_telemetry(self, enabled: bool) -> (config: Self)
        ensures
            config@ == (ConfigView { enable_telemetry: Some(enabled), ..self@ }),
    {
        let mut config = self;
        config.enable_telemetry = Some(enabled);
        config
    }

    /// The same settings with the batch size set.
    pub fn with_batch_size(self, size: usize) -> (config: Self)
        ensures
            config@ == (ConfigView { batch_size: Some(size), ..self@ }),
    {
        let mut config = self;
        config.batch_size = Some(size);
        config
    }

    /// The language model in force.
    pub open spec fn llm_model_in_force(&self) -> Seq<char> {
        match self.llm_model {
            Some(m) => m@,
            None => default_llm_model(),
        }
    }

    /// The collection prefix in force.
    pub open spec fn prefix_in_force(&self) -> Seq<char> {
        match self.collection_prefix {
            Some(p) => p@,
            None => default_collection_prefix(),
        }
    }

    /// The language model: the one set, or the default.
    pub fn get_llm_model(&self) -> (model: String)
        ensures
            model@ == self.llm_model_in_force(),
    {
        match &self.llm_model {
            Some(m) => m.clone(),
            None => "ibm/granite-4-h-small".to_string(),
        }
    }

    /// The vector dimension: the one set, or 384.
    pub fn get_vector_dimension(&self) -> (dim: usize)
        ensures
            dim == match self.vector_dimension {
                Some(d) => d,
                None => DEFAULT_VECTOR_DIMENSION,
            },
    {
        match self.vector_dimension {
            Some(d) => d,
            None => DEFAULT_VECTOR_DIMENSION,
        }
    }

    /// The collection prefix: the one set, or "mem0".
    pub fn get_collection_prefix(&self) -> (prefix: String)
        ensures
            prefix@ == self.prefix_in_force(),
    {
        match &self.collection_prefix {
            Some(p) => p.clone(),
            None => "mem0".to_string(),
        }
    }

    /// Whether telemetry is on: as set, or on.
    pub fn is_telemetry_enabled(&self) -> (enabled: bool)
        ensures
            enabled == match self.enable_telemetry {
                Some(e) => e,
                None => true,
            },
    {
        match self.enable_telemetry {
            Some(e) => e,
            None => true,
        }
    }

    /// The batch size: the one set, or 32.
    pub fn get_batch_size(&self) -> (size: usize)
        ensures
            size == match self.batch_size {
                Some(s) => s,
                None => DEFAULT_BATCH_SIZE,
            },
    {
        match self.batch_size {
            Some(s) => s,
            None => DEFAULT_BATCH_SIZE,
        }
    }
}

} // verus!
