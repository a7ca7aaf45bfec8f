//! What the tool server takes and gives: the inputs of its tools and the
//! records of its answers. Transport is left to the caller.

use crate::memory::{ItemView, MemoryItem, SearchResultItem};
use crate::vector_store::score::Score;
use vstd::prelude::*;
use vstd::string::StringExecFns;

verus! {

/// Input of the tool that adds a memory.
#[derive(Debug)]
pub struct AddMemoryInput {
    /// The user the memory belongs to.
    pub user_id: String,
    /// What is to be remembered.
    pub content: String,
    /// Its kind, if given.
    pub memory_type: Option<String>,
}

/// Input of the tool that searches.
#[derive(Debug)]
pub struct SearchMemoryInput {
    /// The user whose memories are searched.
    pub user_id: String,
    /// What is looked for.
    pub query: String,
    /// The largest number of results; five where none is given.
    pub limit: Option<usize>,
}

/// Input of the tool that updates a memory.
#[derive(Debug)]
pub struct UpdateMemoryInput {
    /// The memory.
    pub memory_id: String,
    /// Its new content.
    pub content: String,
}

/// Input of the tool that deletes a memory.
#[derive(Debug)]
pub struct DeleteMemoryInput {
    /// The memory.
    pub memory_id: String,
}

/// Input of the tool that lists the memories of a user.
#[derive(Debug)]
pub struct GetAllMemoriesInput {
    /// The user.
    pub user_id: String,
}

/// The number of results of a search that names none.
pub const DEFAULT_SEARCH_LIMIT: usize = 5;

/// What the server says of itself.
pub open spec fn instructions_text() -> Seq<char> {
    "Memory MCP Server - Long-term memory for AI Agents. Use this server to store, search, update, and delete memories for users. Memories are stored with semantic embeddings for intelligent retrieval."@
}

/// What is said when the memory `memory_id` was deleted.
pub open spec fn deleted_text(memory_id: Seq<char>) -> Seq<char> {
    "Memory "@ + memory_id + " deleted successfully"@
}

/// A memory as the server gives it out.
#[derive(Debug)]
pub struct MemoryResponse {
    pub id: String,
    pub user_id: String,
    pub content: String,
    pub memory_type: String,
    pub created_at: String,
    pub updated_at: String,
}

/// The mathematical content of a `MemoryResponse`.
pub ghost struct MemoryResponseView {
    pub id: Seq<char>,
    pub user_id: Seq<char>,
    pub content: Seq<char>,
    pub memory_type: Seq<char>,
    pub created_at: Seq<char>,
    pub updated_at: Seq<char>,
}

impl MemoryResponseView {
    /// What is given out of an item: identifier, user, content, kind and
    /// the two times.
    pub open spec fn of(item: ItemView) -> MemoryResponseView {
        MemoryResponseView {
            id: item.id,
            user_id: item.user_id,
            content: item.content,
            memory_type: item.memory_type,
            created_at: item.created_at,
            updated_at: item.updated_at,
        }
    }
}

impl View for MemoryResponse {
    type V = MemoryResponseView;

    open spec fn view(&self) -> MemoryResponseView {
        MemoryResponseView {
            id: self.id@,
            user_id: self.user_id@,
            content: self.content@,
            memory_type: self.memory_type@,
            created_at: self.created_at@,
            updated_at: self.updated_at@,
        }
    }
}

impl From<MemoryItem> for MemoryResponse {
    /// What is given out of `item`.
    fn from(item: MemoryItem) -> (response: Self) {
        MemoryResponse {
            id: item.id,
            user_id: item.user_id,
            content: item.content,
            memory_type: item.memory_type,
            created_at: item.created_at,
            updated_at: item.updated_at,
        }
    }
}

impl vstd::std_specs::convert::FromSpecImpl<MemoryItem> for MemoryResponse {
    open spec fn obeys_from_spec() -> bool {
        true
    }

    open spec fn from_spec(item: MemoryItem) -> Self {
        MemoryResponse {
            id: item.id,
            user_id: item.user_id,
            content: item.content,
            memory_type: item.memory_type,
            created_at: item.created_at,
            updated_at: item.updated_at,
        }
    }
}

/// A hit of a search as the server gives it out.
#[derive(Debug)]
pub struct SearchResponse {
    pub memory: MemoryResponse,
    pub score: Score,
}

impl From<SearchResultItem> for SearchResponse {
    /// What is given out of a scored item.
    fn from(item: SearchResultItem) -> (response: Self) {
        SearchResponse { memory: MemoryResponse::from(item.memory), score: item.score }
    }
}

impl vstd::std_specs::convert::FromSpecImpl<SearchResultItem> for SearchResponse {
    open spec fn obeys_from_spec() -> bool {
        true
    }

    open spec fn from_spec(item: SearchResultItem) -> Self {
        SearchResponse {
            memory: <MemoryResponse as vstd::std_specs::convert::FromSpec<MemoryItem>>::from_spec(
                item.memory,
            ),
            score: item.score,
        }
    }
}

/// What is given out of each item of a list.
pub fn responses_of(items: Vec<MemoryItem>) -> (responses: Vec<MemoryResponse>)
    ensures
        responses@.len() == items@.len(),
        forall|k: int|
            0 <= k < items@.len() ==> (#[trigger] responses@[k])@ == MemoryResponseView::of(
                items@[k]@,
            ),
{
    let ghost all = items@;
    let mut responses: Vec<MemoryResponse> = Vec::new();
    for item in it: items
        invariant
            it.seq() == all,
            responses@.len() == it.index(),
            forall|k: int|
                0 <= k < responses@.len() ==> (#[trigger] responses@[k])@
                    == MemoryResponseView::of(all[k]@),
    {
        responses.push(MemoryResponse::from(item));
    }
    responses
}

/// What is given out of each hit of a search.
pub fn search_responses_of(items: Vec<SearchResultItem>) -> (responses: Vec<SearchResponse>)
    ensures
        responses@.len() == items@.len(),
        forall|k: int|
            0 <= k < items@.len() ==> (#[trigger] responses@[k]).memory@
                == MemoryResponseView::of(items@[k]@.memory) && responses@[k].score
                == items@[k].score,
{
    let ghost all = items@;
    let mut responses: Vec<SearchResponse> = Vec::new();
    for item in it: items
        invariant
            it.seq() == all,
            responses@.len() == it.index(),
            forall|k: int|
                0 <= k < responses@.len() ==> (#[trigger] responses@[k]).memory@
                    == MemoryResponseView::of(all[k]@.memory) && responses@[k].score
                    == all[k].score,
    {
        responses.push(SearchResponse::from(item));
    }
    responses
}

/// The number of results to search for: as asked, or five.
pub fn search_limit(input: &SearchMemoryInput) -> (limit: usize)
    ensures
        limit == match input.limit {
            Some(n) => n,
            None => DEFAULT_SEARCH_LIMIT,
        },
{
    match input.limit {
        Some(n) => n,
        None => DEFAULT_SEARCH_LIMIT,
    }
}

/// What is said when the memory `memory_id` was deleted.
pub fn deleted_message(memory_id: &str) -> (message: String)
    ensures
        message@ == deleted_text(memory_id@),
{
    String::from_str("Memory ").concat(memory_id).concat(" deleted successfully")
}

/// What the server says of itself.
pub fn instructions() -> (text: &'static str)
    ensures
        text@ == instructions_text(),
{
    "Memory MCP Server - Long-term memory for AI Agents. Use this server to store, search, update, and delete memories for users. Memories are stored with semantic embeddings for intelligent retrieval."
}

} // verus!
