//! The kinds of storage backend and how one is configured.

use crate::text_map::TextMap;
use vstd::prelude::*;

verus! {

/// A kind of storage backend.
#[derive(Debug, Clone, Copy, PartialEq, Eq, Structural)]
pub enum BackendType {
    Qdrant,
    Milvus,
    PostgreSQL,
}

impl BackendType {
    /// The backend's name in lower case.
    pub fn name(&self) -> (name: &'static str)
        ensures
            name@ == match self {
                BackendType::Qdrant => "qdrant"@,
                BackendType::Milvus => "milvus"@,
                BackendType::PostgreSQL => "postgresql"@,
            },
    {
        match self {
            BackendType::Qdrant => "qdrant",
            BackendType::Milvus => "milvus",
            BackendType::PostgreSQL => "postgresql",
        }
    }

    /// One line on what the backend is.
    pub fn description(&self) -> (text: &'static str)
        ensures
            text@ == match self {
                BackendType::Qdrant => "Open-source vector database"@,
                BackendType::Milvus => "Open-source vector database"@,
                BackendType::PostgreSQL => "PostgreSQL with pgvector extension"@,
            },
    {
        match self {
            BackendType::Qdrant => "Open-source vector database",
            BackendType::Milvus => "Open-source vector database",
            BackendType::PostgreSQL => "PostgreSQL with pgvector extension",
        }
    }
}

/// How to reach and set up a backend.
#[derive(Debug, Clone)]
pub struct BackendConfig {
    /// Which backend.
    pub backend_type: BackendType,
    /// Where it listens.
    pub endpoint: String,
    /// The key to present, if any.
    pub api_key: Option<String>,
    /// Further named settings.
    pub config: TextMap<String>,
}

impl BackendConfig {
    /// The settings form a proper map.
    pub open spec fn wf(&self) -> bool {
        self.config.wf()
    }

    /// A configuration with no key and no further settings.
    pub fn new(backend_type: BackendType, endpoint: String) -> (c: Self)
        ensures
            c.backend_type == backend_type,
            c.endpoint@ == endpoint@,
            c.api_key is None,
            c.config@ == Map::<Seq<char>, Seq<char>>::empty(),
            c.wf(),
    {
        BackendConfig { backend_type, endpoint, api_key: None, config: TextMap::new() }
    }

    /// The same configuration with `api_key` as its key.
    pub fn with_api_key(self, api_key: String) -> (c: Self)
        ensures
            c.api_key == Some(api_key),
            c.backend_type == self.backend_type,
            c.endpoint == self.endpoint,
            c.config == self.config,
    {
        let mut c = self;
        c.api_key = Some(api_key);
        c
    }

    /// The same configuration with `key` set to `value`.
    pub fn with_config(self, key: String, value: String) -> (c: Self)
        requires
            self.wf(),
        ensures
            c.config@ == self.config@.insert(key@, value@),
            c.wf(),
            c.backend_type == self.backend_type,
            c.endpoint == self.endpoint,
            c.api_key == self.api_key,
    {
        let mut c = self;
        c.config.insert(key, value);
        c
    }

    /// The setting named `key`, if there is one.
    pub fn get_config(&self, key: &str) -> (value: Option<&str>)
        requires
            self.wf(),
        ensures
            match value {
                Some(v) => self.config@.contains_key(key@) && v@ == self.config@[key@],
                None => !self.config@.contains_key(key@),
            },
    {
        match self.config.get(key) {
            Some(v) => Some(v.as_str()),
            None => None,
        }
    }
}

} // verus!
