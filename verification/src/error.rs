//! The failures that operations report.

use vstd::prelude::*;
use vstd::string::StringExecFns;

verus! {

/// What went wrong, with a message.
#[derive(Debug)]
pub enum Error {
    ConfigError(String),
    VectorStoreError(String),
    LlmError(String),
    EmbeddingError(String),
    MemoryError(String),
    SerializationError(String),
    RequestError(String),
    QdrantError(String),
    InvalidArgument(String),
    NotFound(String),
    InternalError(String),
    Timeout(String),
    AuthenticationError(String),
}

/// Results of this crate's operations.
pub type Result<T> = std::result::Result<T, Error>;

impl Error {
    /// The message that the error carries.
    pub open spec fn message(&self) -> Seq<char> {
        match self {
            Error::ConfigError(m) => m@,
            Error::VectorStoreError(m) => m@,
            Error::LlmError(m) => m@,
            Error::EmbeddingError(m) => m@,
            Error::MemoryError(m) => m@,
            Error::SerializationError(m) => m@,
            Error::RequestError(m) => m@,
            Error::QdrantError(m) => m@,
            Error::InvalidArgument(m) => m@,
            Error::NotFound(m) => m@,
            Error::InternalError(m) => m@,
            Error::Timeout(m) => m@,
            Error::AuthenticationError(m) => m@,
        }
    }

    /// The words that introduce each kind of error in its description.
    pub open spec fn prefix(&self) -> Seq<char> {
        match self {
            Error::ConfigError(_) => "Configuration error: "@,
            Error::VectorStoreError(_) => "Vector store error: "@,
            Error::LlmError(_) => "LLM error: "@,
            Error::EmbeddingError(_) => "Embedding error: "@,
            Error::MemoryError(_) => "Memory error: "@,
            Error::SerializationError(_) => "Serialization error: "@,
            Error::RequestError(_) => "Request error: "@,
            Error::QdrantError(_) => "Qdrant error: "@,
            Error::InvalidArgument(_) => "Invalid argument: "@,
            Error::NotFound(_) => "Not found: "@,
            Error::InternalError(_) => "Internal error: "@,
            Error::Timeout(_) => "Timeout: "@,
            Error::AuthenticationError(_) => "Authentication error: "@,
        }
    }

    /// A configuration error.
    pub fn config(msg: &str) -> (e: Self)
        ensures
            e is ConfigError,
            e.message() == msg@,
    {
        Error::ConfigError(msg.to_owned())
    }

    /// A vector store error.
    pub fn vector_store(msg: &str) -> (e: Self)
        ensures
            e is VectorStoreError,
            e.message() == msg@,
    {
        Error::VectorStoreError(msg.to_owned())
    }

    /// A language model error.
    pub fn llm(msg: &str) -> (e: Self)
        ensures
            e is LlmError,
            e.message() == msg@,
    {
        Error::LlmError(msg.to_owned())
    }

    /// An embedding error.
    pub fn embedding(msg: &str) -> (e: Self)
        ensures
            e is EmbeddingError,
            e.message() == msg@,
    {
        Error::EmbeddingError(msg.to_owned())
    }

    /// A memory error.
    pub fn memory(msg: &str) -> (e: Self)
        ensures
            e is MemoryError,
            e.message() == msg@,
    {
        Error::MemoryError(msg.to_owned())
    }

    /// An invalid argument error.
    pub fn invalid_arg(msg: &str) -> (e: Self)
        ensures
            e is InvalidArgument,
            e.message() == msg@,
    {
        Error::InvalidArgument(msg.to_owned())
    }

    /// A not-found error.
    pub fn not_found(msg: &str) -> (e: Self)
        ensures
            e is NotFound,
            e.message() == msg@,
    {
        Error::NotFound(msg.to_owned())
    }

    /// An internal error.
    pub fn internal(msg: &str) -> (e: Self)
        ensures
            e is InternalError,
            e.message() == msg@,
    {
        Error::InternalError(msg.to_owned())
    }

    /// A timeout.
    pub fn timeout(msg: &str) -> (e: Self)
        ensures
            e is Timeout,
            e.message() == msg@,
    {
        Error::Timeout(msg.to_owned())
    }

    /// An authentication error.
    pub fn auth(msg: &str) -> (e: Self)
        ensures
            e is AuthenticationError,
            e.message() == msg@,
    {
        Error::AuthenticationError(msg.to_owned())
    }

    /// The error in words: the kind's prefix, then the message.
    pub fn describe(&self) -> (text: String)
        ensures
            text@ == self.prefix() + self.message(),
    {
        match self {
            Error::ConfigError(m) => String::from_str("Configuration error: ").concat(m.as_str()),
            Error::VectorStoreError(m) => String::from_str("Vector store error: ").concat(
                m.as_str(),
            ),
            Error::LlmError(m) => String::from_str("LLM error: ").concat(m.as_str()),
            Error::EmbeddingError(m) => String::from_str("Embedding error: ").concat(m.as_str()),
            Error::MemoryError(m) => String::from_str("Memory error: ").concat(m.as_str()),
            Error::SerializationError(m) => String::from_str("Serialization error: ").concat(
                m.as_str(),
            ),
            Error::RequestError(m) => String::from_str("Request error: ").concat(m.as_str()),
            Error::QdrantError(m) => String::from_str("Qdrant error: ").concat(m.as_str()),
            Error::InvalidArgument(m) => String::from_str("Invalid argument: ").concat(m.as_str()),
            Error::NotFound(m) => String::from_str("Not found: ").concat(m.as_str()),
            Error::InternalError(m) => String::from_str("Internal error: ").concat(m.as_str()),
            Error::Timeout(m) => String::from_str("Timeout: ").concat(m.as_str()),
            Error::AuthenticationError(m) => String::from_str("Authentication error: ").concat(
                m.as_str(),
            ),
        }
    }
}

} // verus!
