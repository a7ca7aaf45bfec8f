use memory_rs::graph::{GraphNode, GraphRelationship, RelationType};
use memory_rs::text_map::TextMap;

#[test]
fn test_relation_type_names() {
    assert_eq!(RelationType::RelatedTo.name(), "RELATED_TO");
    assert_eq!(RelationType::Contradicts.name(), "CONTRADICTS");
    assert_eq!(RelationType::Supports.name(), "SUPPORTS");
    assert_eq!(RelationType::PartOf.name(), "PART_OF");
    assert_eq!(RelationType::Contains.name(), "CONTAINS");
}

#[test]
fn test_custom_relation_type() {
    let custom = RelationType::Custom("my_relation".to_string());
    assert_eq!(custom.name(), "MY_RELATION");
}

#[test]
fn mod_test_graph_node_creation() {
    let node = GraphNode {
        id: "node_1".to_string(),
        content: "Test content".to_string(),
        labels: vec!["Memory".to_string()],
        properties: TextMap::new(),
    };

    assert_eq!(node.id, "node_1");
    assert_eq!(node.labels.len(), 1);
}

#[test]
fn mod_test_graph_relationship_creation() {
    let rel = GraphRelationship {
        source_id: "node_1".to_string(),
        target_id: "node_2".to_string(),
        rel_type: RelationType::RelatedTo,
        properties: TextMap::new(),
    };

    assert_eq!(rel.source_id, "node_1");
    assert_eq!(rel.target_id, "node_2");
}

#[test]
fn neo4j_test_graph_node_creation() {
    let node = GraphNode {
        id: "node_1".to_string(),
        content: "Test".to_string(),
        labels: vec!["Memory".to_string()],
        properties: TextMap::new(),
    };

    assert_eq!(node.id, "node_1");
}

#[test]
fn neo4j_test_graph_relationship_creation() {
    let rel = GraphRelationship {
        source_id: "node_1".to_string(),
        target_id: "node_2".to_string(),
        rel_type: RelationType::RelatedTo,
        properties: TextMap::new(),
    };

    assert_eq!(rel.source_id, "node_1");
}

#[test]
fn custom_names_are_upper_cased() {
    assert_eq!(RelationType::custom_name("straße"), "STRASSE");
    assert_eq!(RelationType::Custom("Already_UP".to_string()).name(), "ALREADY_UP");
    assert_eq!(RelationType::Custom(String::new()).name(), "");
}
