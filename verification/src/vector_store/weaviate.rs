//! The Weaviate client's settings and the shaping of what it sends and
//! gets. Sending is left to the caller.

use crate::text::{decimal, decimal_text, opt_text};
use crate::text_map::TextMap;
use crate::vector_store::score::Score;
use crate::vector_store::wire::{
    metadata_from_properties, metadata_of_properties, properties_of, wire_properties,
};
use crate::vector_store::{SearchResult, SearchResultView, VectorMetadata};
use vstd::prelude::*;
use vstd::string::StringExecFns;

verus! {

/// An object as Weaviate takes it. The components of the vector are
/// IEEE-754 single-precision bit patterns.
#[derive(Debug)]
pub struct WeaviateObject {
    pub class: String,
    pub vector: Vec<u32>,
    pub properties: TextMap<String>,
}

/// What is sent to store objects.
#[derive(Debug)]
pub struct BatchRequest {
    pub objects: Vec<WeaviateObject>,
}

/// The query that asks for the `limit` objects of `collection` nearest to a
/// vector, which is given as it is to be written.
pub open spec fn search_query(collection: Seq<char>, vector: Seq<char>, limit: nat) -> Seq<char> {
    "{\n                Get {\n                    "@ + collection + " (nearVector: {vector: "@
        + vector + "}, limit: "@ + decimal(limit)
        + ") {\n                        id\n                        user_id\n                        text\n                        memory_type\n                        created_at\n                        updated_at\n                        _additional {\n                            distance\n                            certainty\n                        }\n                    }\n                }\n            }"@
}

/// The query that asks how many objects `collection` holds.
pub open spec fn count_query(collection: Seq<char>) -> Seq<char> {
    "{\n                Aggregate {\n                    "@ + collection
        + " {\n                        meta {\n                            count\n                        }\n                    }\n                }\n            }"@
}

/// The hit that the object at place `idx` of an answer stands for: named
/// by the collection, an underscore and the place.
pub open spec fn hit_at(
    collection: Seq<char>,
    idx: nat,
    score: Score,
    props: Map<Seq<char>, Seq<char>>,
) -> SearchResultView {
    SearchResultView {
        id: collection + "_"@ + decimal(idx),
        score,
        metadata: metadata_of_properties(props, false),
    }
}

/// The settings of a Weaviate client.
#[derive(Debug)]
pub struct WeaviateStore {
    endpoint: String,
    api_key: Option<String>,
}

impl WeaviateStore {
    /// Where the service listens.
    pub closed spec fn base(&self) -> Seq<char> {
        self.endpoint@
    }

    /// The key that is presented, if any.
    pub closed spec fn key(&self) -> Option<Seq<char>> {
        opt_text(self.api_key)
    }

    /// A client without a key.
    pub fn new(endpoint: String) -> (store: Self)
        ensures
            store.base() == endpoint@,
            store.key() is None,
    {
        WeaviateStore { endpoint, api_key: None }
    }

    /// A client with a key.
    pub fn with_api_key(endpoint: String, api_key: String) -> (store: Self)
        ensures
            store.base() == endpoint@,
            store.key() == Some(api_key@),
    {
        WeaviateStore { endpoint, api_key: Some(api_key) }
    }

    /// The key that is presented, if any.
    pub fn api_key(&self) -> (key: Option<&str>)
        ensures
            match key {
                Some(k) => self.key() == Some(k@),
                None => self.key() is None,
            },
    {
        match &self.api_key {
            Some(k) => Some(k.as_str()),
            None => None,
        }
    }

    /// Where the schema of `class_name` is kept.
    pub fn schema_url(&self, class_name: &str) -> (url: String)
        ensures
            url@ == self.base() + "/v1/schema/"@ + class_name@,
    {
        self.endpoint.clone().concat("/v1/schema/").concat(class_name)
    }

    /// Where schemas are made.
    pub fn schemas_url(&self) -> (url: String)
        ensures
            url@ == self.base() + "/v1/schema"@,
    {
        self.endpoint.clone().concat("/v1/schema")
    }

    /// Where objects are stored in batches.
    pub fn batch_url(&self) -> (url: String)
        ensures
            url@ == self.base() + "/v1/batch/objects"@,
    {
        self.endpoint.clone().concat("/v1/batch/objects")
    }

    /// Where the object `id` is deleted.
    pub fn object_url(&self, id: &str) -> (url: String)
        ensures
            url@ == self.base() + "/v1/batch/objects"@ + "/"@ + id@,
    {
        self.batch_url().concat("/").concat(id)
    }

    /// Where queries are sent.
    pub fn graphql_url(&self) -> (url: String)
        ensures
            url@ == self.base() + "/v1/graphql"@,
    {
        self.endpoint.clone().concat("/v1/graphql")
    }

    /// The object that stands for one item of a batch.
    pub fn to_object(collection: &str, vector: Vec<u32>, metadata: &VectorMetadata) -> (object:
        WeaviateObject)
        ensures
            object.class@ == collection@,
            object.vector == vector,
            object.properties.wf(),
            object.properties@ == wire_properties(metadata@),
    {
        WeaviateObject { class: collection.to_owned(), vector, properties: properties_of(metadata) }
    }

    /// The query for the `limit` objects of `collection` nearest to the
    /// vector written as `vector_text`.
    pub fn search_query(collection: &str, vector_text: &str, limit: usize) -> (query: String)
        ensures
            query@ == search_query(collection@, vector_text@, limit as nat),
    {
        let limit_text = decimal_text(limit);
        String::from_str("{\n                Get {\n                    ").concat(collection).concat(
            " (nearVector: {vector: ",
        ).concat(vector_text).concat("}, limit: ").concat(limit_text.as_str()).concat(
            ") {\n                        id\n                        user_id\n                        text\n                        memory_type\n                        created_at\n                        updated_at\n                        _additional {\n                            distance\n                            certainty\n                        }\n                    }\n                }\n            }",
        )
    }

    /// The query for the number of objects of `collection`.
    pub fn count_query(collection: &str) -> (query: String)
        ensures
            query@ == count_query(collection@),
    {
        String::from_str("{\n                Aggregate {\n                    ").concat(
            collection,
        ).concat(
            " {\n                        meta {\n                            count\n                        }\n                    }\n                }\n            }",
        )
    }

    /// The hit that the object at place `idx` of an answer stands for,
    /// with the score that the caller read from it.
    pub fn to_search_result(
        collection: &str,
        idx: usize,
        score: Score,
        properties: &TextMap<String>,
    ) -> (hit: SearchResult)
        requires
            properties.wf(),
        ensures
            hit@ == hit_at(collection@, idx as nat, score, properties@),
            hit.metadata.wf(),
    {
        let place = decimal_text(idx);
        SearchResult {
            id: collection.to_owned().concat("_").concat(place.as_str()),
            score,
            metadata: metadata_from_properties(properties, false),
        }
    }
}

} // verus!
