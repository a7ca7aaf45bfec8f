//! The Pinecone client's settings and the shaping of what it sends and
//! gets. Sending is left to the caller.

use crate::text_map::TextMap;
use crate::vector_store::score::Score;
use crate::vector_store::wire::{
    bare_metadata, metadata_from_properties, metadata_of_id, metadata_of_properties,
    properties_of, wire_properties,
};
use crate::vector_store::{SearchResult, SearchResultView, VectorMetadata};
use vstd::prelude::*;
use vstd::string::StringExecFns;

verus! {

/// A vector as Pinecone takes it. The values are IEEE-754 single-precision
/// bit patterns.
#[derive(Debug)]
pub struct PineconeVector {
    pub id: String,
    pub values: Vec<u32>,
    pub metadata: Option<TextMap<String>>,
}

/// What is sent to store vectors.
#[derive(Debug)]
pub struct UpsertRequest {
    pub vectors: Vec<PineconeVector>,
}

/// What is sent to search.
#[derive(Debug)]
pub struct QueryRequest {
    pub vector: Vec<u32>,
    pub top_k: usize,
    pub include_metadata: bool,
    pub filter: Option<TextMap<String>>,
}

/// One hit of a search as Pinecone gives it.
#[derive(Debug)]
pub struct QueryMatch {
    pub id: String,
    pub score: Score,
    pub metadata: Option<TextMap<String>>,
}

/// What comes back from a search.
#[derive(Debug)]
pub struct QueryResponse {
    pub matches: Vec<QueryMatch>,
}

/// The hit that a match stands for.
pub open spec fn hit_of(m: QueryMatch) -> SearchResultView {
    SearchResultView {
        id: m.id@,
        score: m.score,
        metadata: match m.metadata {
            Some(props) => metadata_of_properties(props@, true),
            None => bare_metadata(m.id@),
        },
    }
}

/// The settings of a Pinecone client.
#[derive(Debug)]
pub struct PineconeStore {
    api_key: String,
    index_name: String,
    endpoint: String,
}

impl PineconeStore {
    /// The key that is presented.
    pub closed spec fn key(&self) -> Seq<char> {
        self.api_key@
    }

    /// The index that is used.
    pub closed spec fn index(&self) -> Seq<char> {
        self.index_name@
    }

    /// Where the service listens.
    pub closed spec fn base(&self) -> Seq<char> {
        self.endpoint@
    }

    /// A client for the index `index_name` at `endpoint`.
    pub fn new(api_key: String, index_name: String, endpoint: String) -> (store: Self)
        ensures
            store.key() == api_key@,
            store.index() == index_name@,
            store.base() == endpoint@,
    {
        PineconeStore { api_key, index_name, endpoint }
    }

    /// The key that is presented.
    pub fn api_key(&self) -> (key: &str)
        ensures
            key@ == self.key(),
    {
        self.api_key.as_str()
    }

    /// The index that is used.
    pub fn index_name(&self) -> (name: &str)
        ensures
            name@ == self.index(),
    {
        self.index_name.as_str()
    }

    /// The address of an operation: the endpoint, then `path`.
    pub fn url(&self, path: &str) -> (url: String)
        ensures
            url@ == self.base() + path@,
    {
        self.endpoint.clone().concat(path)
    }

    /// Where the statistics of the index are asked for.
    pub fn stats_url(&self) -> (url: String)
        ensures
            url@ == self.base() + "/describe_index_stats"@,
    {
        self.url("/describe_index_stats")
    }

    /// Where the index is deleted.
    pub fn delete_index_url(&self) -> (url: String)
        ensures
            url@ == self.base() + "/delete_index"@,
    {
        self.url("/delete_index")
    }

    /// Where vectors are stored.
    pub fn upsert_url(&self) -> (url: String)
        ensures
            url@ == self.base() + "/vectors/upsert"@,
    {
        self.url("/vectors/upsert")
    }

    /// Where searches are sent.
    pub fn query_url(&self) -> (url: String)
        ensures
            url@ == self.base() + "/query"@,
    {
        self.url("/query")
    }

    /// Where vectors are deleted.
    pub fn delete_url(&self) -> (url: String)
        ensures
            url@ == self.base() + "/vectors/delete"@,
    {
        self.url("/vectors/delete")
    }

    /// The vector that stands for one item of a batch.
    pub fn to_vector(id: String, values: Vec<u32>, metadata: &VectorMetadata) -> (vector:
        PineconeVector)
        ensures
            vector.id == id,
            vector.values == values,
            vector.metadata is Some,
            vector.metadata->Some_0.wf(),
            vector.metadata->Some_0@ == wire_properties(metadata@),
    {
        PineconeVector { id, values, metadata: Some(properties_of(metadata)) }
    }

    /// The request for the `limit` nearest vectors, with their metadata and
    /// no filter.
    pub fn query_request(query_vector: Vec<u32>, limit: usize) -> (request: QueryRequest)
        ensures
            request.vector == query_vector,
            request.top_k == limit,
            request.include_metadata,
            request.filter is None,
    {
        QueryRequest { vector: query_vector, top_k: limit, include_metadata: true, filter: None }
    }

    /// The hit that a match stands for: its identifier and score, and the
    /// metadata that its named texts stand for, or its identifier alone
    /// where it came without.
    pub fn to_search_result(found: &QueryMatch) -> (hit: SearchResult)
        requires
            found.metadata is Some ==> found.metadata->Some_0.wf(),
        ensures
            hit@ == hit_of(*found),
            hit.metadata.wf(),
    {
        let metadata = match &found.metadata {
            Some(props) => metadata_from_properties(props, true),
            None => metadata_of_id(found.id.as_str()),
        };
        SearchResult { id: found.id.clone(), score: found.score, metadata }
    }
}

} // verus!
