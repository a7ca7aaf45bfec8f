//! Records of a graph of memories: nodes, and typed relationships between
//! them.

pub mod neo4j;

pub use neo4j::{CypherBuilder, Neo4jStore};

use crate::text_map::TextMap;
use vstd::prelude::*;

verus! {

/// How one memory relates to another.
#[derive(Debug, Clone, PartialEq, Eq)]
pub enum RelationType {
    RelatedTo,
    Contradicts,
    Supports,
    PartOf,
    Contains,
    /// A relation with a name of its own.
    Custom(String),
}

/// The upper-case form of a text, as `str::to_uppercase` gives it.
pub uninterp spec fn upper_case(text: Seq<char>) -> Seq<char>;

/// `str::to_uppercase`: each character is replaced by its upper-case
/// equivalent; the result is a function of the text alone.
#[verifier::external_body]
fn to_upper_case(text: &str) -> (upper: String)
    ensures
        upper@ == upper_case(text@),
{
    text.to_uppercase()
}

impl RelationType {
    /// The name of the relation as a spec value.
    pub open spec fn name_text(&self) -> Seq<char> {
        match self {
            RelationType::RelatedTo => "RELATED_TO"@,
            RelationType::Contradicts => "CONTRADICTS"@,
            RelationType::Supports => "SUPPORTS"@,
            RelationType::PartOf => "PART_OF"@,
            RelationType::Contains => "CONTAINS"@,
            RelationType::Custom(name) => upper_case(name@),
        }
    }

    /// The relation's name: fixed for the named relations, the upper-case
    /// form of its own name for a custom one.
    pub fn name(&self) -> (name: String)
        ensures
            name@ == self.name_text(),
    {
        match self {
            RelationType::RelatedTo => "RELATED_TO".to_string(),
            RelationType::Contradicts => "CONTRADICTS".to_string(),
            RelationType::Supports => "SUPPORTS".to_string(),
            RelationType::PartOf => "PART_OF".to_string(),
            RelationType::Contains => "CONTAINS".to_string(),
            RelationType::Custom(name) => Self::custom_name(name.as_str()),
        }
    }

    /// The name of the custom relation called `name`.
    pub fn custom_name(name: &str) -> (upper: String)
        ensures
            upper@ == upper_case(name@),
    {
        to_upper_case(name)
    }
}

/// A memory as a node of the graph.
#[derive(Debug, Clone)]
pub struct GraphNode {
    /// Its identifier.
    pub id: String,
    /// What is remembered.
    pub content: String,
    /// Its labels.
    pub labels: Vec<String>,
    /// Further named values.
    pub properties: TextMap<String>,
}

/// A relationship from one node to another.
#[derive(Debug, Clone)]
pub struct GraphRelationship {
    /// Where it starts.
    pub source_id: String,
    /// Where it ends.
    pub target_id: String,
    /// What kind it is.
    pub rel_type: RelationType,
    /// Further named values.
    pub properties: TextMap<String>,
}

} // verus!
