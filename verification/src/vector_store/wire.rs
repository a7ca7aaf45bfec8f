//! How metadata travels to and from a remote store: as named texts.

use crate::text_map::TextMap;
use crate::vector_store::{MetadataView, VectorMetadata};
use vstd::prelude::*;

verus! {

/// The named texts that stand for metadata on the wire: identifier, user,
/// text, kind, and the two times.
pub open spec fn wire_properties(m: MetadataView) -> Map<Seq<char>, Seq<char>> {
    Map::<Seq<char>, Seq<char>>::empty().insert("id"@, m.id).insert("user_id"@, m.user_id).insert(
        "text"@,
        m.text,
    ).insert("memory_type"@, m.memory_type).insert("created_at"@, m.created_at).insert(
        "updated_at"@,
        m.updated_at,
    )
}

/// The text called `name`; empty where there is none.
pub open spec fn field(props: Map<Seq<char>, Seq<char>>, name: Seq<char>) -> Seq<char> {
    if props.contains_key(name) {
        props[name]
    } else {
        Seq::empty()
    }
}

/// The text called `name`, if there is one.
pub open spec fn optional_field(props: Map<Seq<char>, Seq<char>>, name: Seq<char>) -> Option<
    Seq<char>,
> {
    if props.contains_key(name) {
        Some(props[name])
    } else {
        None
    }
}

/// The metadata that named texts stand for. A text that is missing is
/// empty. Agent and run are read where `with_owner` says so, and absent
/// otherwise. Further values are not carried.
pub open spec fn metadata_of_properties(
    props: Map<Seq<char>, Seq<char>>,
    with_owner: bool,
) -> MetadataView {
    MetadataView {
        id: field(props, "id"@),
        user_id: field(props, "user_id"@),
        agent_id: if with_owner {
            optional_field(props, "agent_id"@)
        } else {
            None
        },
        run_id: if with_owner {
            optional_field(props, "run_id"@)
        } else {
            None
        },
        text: field(props, "text"@),
        memory_type: field(props, "memory_type"@),
        created_at: field(props, "created_at"@),
        updated_at: field(props, "updated_at"@),
        custom_metadata: Map::empty(),
    }
}

/// The metadata of a match that came without any: its identifier alone.
pub open spec fn bare_metadata(id: Seq<char>) -> MetadataView {
    MetadataView {
        id,
        user_id: Seq::empty(),
        agent_id: None,
        run_id: None,
        text: Seq::empty(),
        memory_type: Seq::empty(),
        created_at: Seq::empty(),
        updated_at: Seq::empty(),
        custom_metadata: Map::empty(),
    }
}

/// The named texts that stand for `metadata`.
pub fn properties_of(metadata: &VectorMetadata) -> (props: TextMap<String>)
    ensures
        props.wf(),
        props@ == wire_properties(metadata@),
{
    let mut props: TextMap<String> = TextMap::new();
    props.insert("id".to_string(), metadata.id.clone());
    props.insert("user_id".to_string(), metadata.user_id.clone());
    props.insert("text".to_string(), metadata.text.clone());
    props.insert("memory_type".to_string(), metadata.memory_type.clone());
    props.insert("created_at".to_string(), metadata.created_at.clone());
    props.insert("updated_at".to_string(), metadata.updated_at.clone());
    props
}

/// The text called `name` in `props`; empty where there is none.
pub fn field_of(props: &TextMap<String>, name: &str) -> (text: String)
    requires
        props.wf(),
    ensures
        text@ == field(props@, name@),
{
    match props.get(name) {
        Some(text) => text.clone(),
        None => String::new(),
    }
}

/// The text called `name` in `props`, if there is one.
pub fn optional_field_of(props: &TextMap<String>, name: &str) -> (text: Option<String>)
    requires
        props.wf(),
    ensures
        crate::text::opt_text(text) == optional_field(props@, name@),
{
    match props.get(name) {
        Some(text) => Some(text.clone()),
        None => None,
    }
}

/// The metadata that `props` stand for.
pub fn metadata_from_properties(props: &TextMap<String>, with_owner: bool) -> (metadata:
    VectorMetadata)
    requires
        props.wf(),
    ensures
        metadata.wf(),
        metadata@ == metadata_of_properties(props@, with_owner),
{
    let agent_id = if with_owner {
        optional_field_of(props, "agent_id")
    } else {
        None
    };
    let run_id = if with_owner {
        optional_field_of(props, "run_id")
    } else {
        None
    };
    VectorMetadata {
        id: field_of(props, "id"),
        user_id: field_of(props, "user_id"),
        agent_id,
        run_id,
        text: field_of(props, "text"),
        memory_type: field_of(props, "memory_type"),
        created_at: field_of(props, "created_at"),
        updated_at: field_of(props, "updated_at"),
        custom_metadata: TextMap::new(),
    }
}

/// The metadata of a match that came without any.
pub fn metadata_of_id(id: &str) -> (metadata: VectorMetadata)
    ensures
        metadata.wf(),
        metadata@ == bare_metadata(id@),
{
    VectorMetadata {
        id: id.to_owned(),
        user_id: String::new(),
        agent_id: None,
        run_id: None,
        text: String::new(),
        memory_type: String::new(),
        created_at: String::new(),
        updated_at: String::new(),
        custom_metadata: TextMap::new(),
    }
}

} // verus!
