//! The Neo4j client's settings and the Cypher queries it sends. Sending is
//! left to the caller.

use crate::graph::{GraphNode, GraphRelationship, RelationType};
use crate::text::{decimal, decimal_text, join, joined, views};
use crate::text_map::TextMap;
use vstd::prelude::*;
use vstd::string::StringExecFns;

verus! {

/// A query with its named parameters.
#[derive(Debug)]
pub struct CypherBuilder {
    query: String,
    params: TextMap<String>,
}

/// The mathematical content of a `CypherBuilder`.
pub ghost struct CypherView {
    pub query: Seq<char>,
    pub params: Map<Seq<char>, Seq<char>>,
}

impl CypherView {
    /// The query without parameters.
    pub open spec fn plain(query: Seq<char>) -> CypherView {
        CypherView { query, params: Map::empty() }
    }

    /// The same query with the parameter `key` set to `value`.
    pub open spec fn with(self, key: Seq<char>, value: Seq<char>) -> CypherView {
        CypherView { params: self.params.insert(key, value), ..self }
    }
}

impl View for CypherBuilder {
    type V = CypherView;

    closed spec fn view(&self) -> CypherView {
        CypherView { query: self.query@, params: self.params@ }
    }
}

impl CypherBuilder {
    /// What every builder upholds.
    pub closed spec fn wf(&self) -> bool {
        self.params.wf()
    }

    /// A query without parameters.
    pub fn new(query: String) -> (builder: Self)
        ensures
            builder.wf(),
            builder@ == CypherView::plain(query@),
    {
        CypherBuilder { query, params: TextMap::new() }
    }

    /// The same query with the parameter `key` set to `value`.
    pub fn param(self, key: String, value: String) -> (builder: Self)
        requires
            self.wf(),
        ensures
            builder.wf(),
            builder@ == self@.with(key@, value@),
    {
        let mut builder = self;
        builder.params.insert(key, value);
        builder
    }

    /// The query and its parameters.
    pub fn build(self) -> (parts: (String, TextMap<String>))
        requires
            self.wf(),
        ensures
            parts.0@ == self@.query,
            parts.1@ == self@.params,
            parts.1.wf(),
    {
        (self.query, self.params)
    }
}

/// The labels written one after the other with a colon between them.
pub open spec fn label_text(labels: Seq<Seq<char>>) -> Seq<char> {
    joined(labels, ":"@)
}

/// The query that makes a node.
pub open spec fn create_node_cypher(id: Seq<char>, content: Seq<char>, labels: Seq<Seq<char>>) -> CypherView {
    CypherView::plain(
        "CREATE (n:"@ + label_text(labels)
            + ":Memory {id: $id, content: $content}) RETURN n"@,
    ).with("id"@, id).with("content"@, content)
}

/// The query that reads a node.
pub open spec fn get_node_cypher(id: Seq<char>) -> CypherView {
    CypherView::plain("MATCH (n {id: $id}) RETURN n, labels(n) as labels"@).with("id"@, id)
}

/// The query that deletes a node with its relationships.
pub open spec fn delete_node_cypher(id: Seq<char>) -> CypherView {
    CypherView::plain("MATCH (n {id: $id}) DETACH DELETE n"@).with("id"@, id)
}

/// The query for the shortest path of at most `max_depth` steps.
pub open spec fn shortest_path_cypher(source: Seq<char>, target: Seq<char>, max_depth: nat) -> CypherView {
    CypherView::plain(
        "MATCH path = shortestPath((s {id: $source}) -[*.."@ + decimal(max_depth)
            + "]- (t {id: $target})) RETURN [n IN nodes(path) | n.id]"@,
    ).with("source"@, source).with("target"@, target)
}

/// The query that makes a relationship called `name`.
pub open spec fn create_relationship_cypher(
    source: Seq<char>,
    target: Seq<char>,
    name: Seq<char>,
) -> CypherView {
    CypherView::plain(
        "MATCH (s {id: $source}), (t {id: $target}) CREATE (s)-[r:"@ + name + "]->(t) RETURN r"@,
    ).with("source"@, source).with("target"@, target)
}

/// The query that deletes the relationship called `name`.
pub open spec fn delete_relationship_cypher(
    source: Seq<char>,
    target: Seq<char>,
    name: Seq<char>,
) -> CypherView {
    CypherView::plain(
        "MATCH (s {id: $source})-[r:"@ + name + "]->(t {id: $target}) DELETE r"@,
    ).with("source"@, source).with("target"@, target)
}

/// The query for the relationships of a node.
pub open spec fn relationships_cypher(id: Seq<char>) -> CypherView {
    CypherView::plain("MATCH (n {id: $id})-[r]-(m) RETURN type(r) as type, m.id as target"@).with(
        "id"@,
        id,
    )
}

/// The query for the nodes with a label.
pub open spec fn nodes_by_label_cypher(label: Seq<char>) -> CypherView {
    CypherView::plain("MATCH (n:"@ + label + ") RETURN n, labels(n) as labels"@)
}

/// How one property is set: `n.`, its name, ` = $`, its name.
pub open spec fn assignment(key: Seq<char>) -> Seq<char> {
    "n."@ + key + " = $"@ + key
}

/// How each of `keys` is set.
pub open spec fn assignments(keys: Seq<Seq<char>>) -> Seq<Seq<char>> {
    Seq::new(keys.len(), |i: int| assignment(keys[i]))
}

/// The parameters with each of `keys` set to its value.
pub open spec fn with_all(
    params: Map<Seq<char>, Seq<char>>,
    keys: Seq<Seq<char>>,
    values: Seq<Seq<char>>,
) -> Map<Seq<char>, Seq<char>>
    decreases keys.len(),
{
    if keys.len() == 0 {
        params
    } else {
        with_all(params, keys.drop_last(), values.drop_last()).insert(keys.last(), values.last())
    }
}

/// The query that sets properties of a node: each in the order of the
/// map, with a comma and a blank between them. A property called `id`
/// takes the place of the node's identifier among the parameters.
pub open spec fn update_node_cypher(
    id: Seq<char>,
    keys: Seq<Seq<char>>,
    values: Seq<Seq<char>>,
) -> CypherView {
    CypherView {
        query: "MATCH (n {id: $id}) SET "@ + joined(assignments(keys), ", "@) + " RETURN n"@,
        params: with_all(Map::<Seq<char>, Seq<char>>::empty().insert("id"@, id), keys, values),
    }
}

/// The settings of a Neo4j client.
#[derive(Debug)]
pub struct Neo4jStore {
    uri: String,
    username: String,
    password: String,
}

impl Neo4jStore {
    /// Where the database listens.
    pub closed spec fn base(&self) -> Seq<char> {
        self.uri@
    }

    /// Who asks.
    pub closed spec fn user(&self) -> Seq<char> {
        self.username@
    }

    /// The password that is presented.
    pub closed spec fn secret(&self) -> Seq<char> {
        self.password@
    }

    /// A client for the database at `uri`.
    pub fn new(uri: String, username: String, password: String) -> (store: Self)
        ensures
            store.base() == uri@,
            store.user() == username@,
            store.secret() == password@,
    {
        Neo4jStore { uri, username, password }
    }

    /// Who asks.
    pub fn username(&self) -> (name: &str)
        ensures
            name@ == self.user(),
    {
        self.username.as_str()
    }

    /// The password that is presented.
    pub fn password(&self) -> (password: &str)
        ensures
            password@ == self.secret(),
    {
        self.password.as_str()
    }

    /// Where queries are sent: the address, then `/db/neo4j/exec`.
    pub fn exec_url(&self) -> (url: String)
        ensures
            url@ == self.base() + "/db/neo4j/exec"@,
    {
        self.uri.clone().concat("/db/neo4j/exec")
    }

    /// The query that makes `node`.
    pub fn create_node(node: &GraphNode) -> (cypher: CypherBuilder)
        ensures
            cypher.wf(),
            cypher@ == create_node_cypher(node.id@, node.content@, views(node.labels@)),
    {
        let labels = join(&node.labels, ":");
        let query = String::from_str("CREATE (n:").concat(labels.as_str()).concat(
            ":Memory {id: $id, content: $content}) RETURN n",
        );
        CypherBuilder::new(query).param("id".to_string(), node.id.clone()).param(
            "content".to_string(),
            node.content.clone(),
        )
    }

    /// The query that reads the node `id`.
    pub fn get_node_by_id(id: &str) -> (cypher: CypherBuilder)
        ensures
            cypher.wf(),
            cypher@ == get_node_cypher(id@),
    {
        CypherBuilder::new("MATCH (n {id: $id}) RETURN n, labels(n) as labels".to_string()).param(
            "id".to_string(),
            id.to_owned(),
        )
    }

    /// The query that sets `properties` on the node `id`.
    pub fn update_node(id: &str, properties: &TextMap<String>) -> (cypher: CypherBuilder)
        requires
            properties.wf(),
        ensures
            cypher.wf(),
            cypher@ == update_node_cypher(id@, properties.keys(), properties.values()),
    {
        let mut clauses: Vec<String> = Vec::new();
        let mut cypher = CypherBuilder::new(String::new()).param(
            "id".to_string(),
            id.to_owned(),
        );
        let ghost keys = properties.keys();
        let ghost values = properties.values();
        let n = properties.len();
        let mut i: usize = 0;
        proof {
            assert(keys.take(0) =~= Seq::<Seq<char>>::empty());
            assert(views(clauses@) =~= assignments(keys.take(0)));
        }
        while i < n
            invariant
                properties.wf(),
                keys == properties.keys(),
                values == properties.values(),
                n == keys.len(),
                0 <= i <= n,
                cypher.wf(),
                views(clauses@) == assignments(keys.take(i as int)),
                cypher@.params == with_all(
                    Map::<Seq<char>, Seq<char>>::empty().insert("id"@, id@),
                    keys.take(i as int),
                    values.take(i as int),
                ),
            decreases n - i,
        {
            let key = properties.key_at(i);
            let value = properties.value_at(i);
            let ghost shown = views(clauses@);
            proof {
                assert(keys.take(i + 1).drop_last() =~= keys.take(i as int));
                assert(values.take(i + 1).drop_last() =~= values.take(i as int));
                assert(keys.take(i + 1).last() == key@);
                assert(values.take(i + 1).last() == value@);
            }
            let clause = String::from_str("n.").concat(key.as_str()).concat(" = $").concat(
                key.as_str(),
            );
            clauses.push(clause);
            cypher = cypher.param(key.clone(), value.clone());
            i += 1;
            proof {
                assert(views(clauses@) =~= shown.push(assignment(key@)));
                assert(views(clauses@) =~= assignments(keys.take(i as int)));
            }
        }
        proof {
            assert(keys.take(n as int) =~= keys);
            assert(values.take(n as int) =~= values);
        }
        let set_clause = join(&clauses, ", ");
        let query = String::from_str("MATCH (n {id: $id}) SET ").concat(set_clause.as_str()).concat(
            " RETURN n",
        );
        let (_, params) = cypher.build();
        CypherBuilder { query, params }
    }

    /// The query that deletes the node `id`.
    pub fn delete_node(id: &str) -> (cypher: CypherBuilder)
        ensures
            cypher.wf(),
            cypher@ == delete_node_cypher(id@),
    {
        CypherBuilder::new("MATCH (n {id: $id}) DETACH DELETE n".to_string()).param(
            "id".to_string(),
            id.to_owned(),
        )
    }

    /// The query for the shortest path from `source_id` to `target_id` of
    /// at most `max_depth` steps.
    pub fn shortest_path(source_id: &str, target_id: &str, max_depth: usize) -> (cypher:
        CypherBuilder)
        ensures
            cypher.wf(),
            cypher@ == shortest_path_cypher(source_id@, target_id@, max_depth as nat),
    {
        let depth = decimal_text(max_depth);
        let query = String::from_str("MATCH path = shortestPath((s {id: $source}) -[*..").concat(
            depth.as_str(),
        ).concat("]- (t {id: $target})) RETURN [n IN nodes(path) | n.id]");
        CypherBuilder::new(query).param("source".to_string(), source_id.to_owned()).param(
            "target".to_string(),
            target_id.to_owned(),
        )
    }

    /// The query for a path from `source_id` to `target_id`: the shortest.
    pub fn find_path(source_id: &str, target_id: &str, max_depth: usize) -> (cypher: CypherBuilder)
        ensures
            cypher.wf(),
            cypher@ == shortest_path_cypher(source_id@, target_id@, max_depth as nat),
    {
        Self::shortest_path(source_id, target_id, max_depth)
    }

    /// The query that makes `relationship`.
    pub fn create_relationship(relationship: &GraphRelationship) -> (cypher: CypherBuilder)
        ensures
            cypher.wf(),
            cypher@ == create_relationship_cypher(
                relationship.source_id@,
                relationship.target_id@,
                relationship.rel_type.name_text(),
            ),
    {
        let rel_name = relationship.rel_type.name();
        let query = String::from_str(
            "MATCH (s {id: $source}), (t {id: $target}) CREATE (s)-[r:",
        ).concat(rel_name.as_str()).concat("]->(t) RETURN r");
        CypherBuilder::new(query).param(
            "source".to_string(),
            relationship.source_id.clone(),
        ).param("target".to_string(), relationship.target_id.clone())
    }

    /// The query for the relationships of the node `node_id`.
    pub fn get_relationships(node_id: &str) -> (cypher: CypherBuilder)
        ensures
            cypher.wf(),
            cypher@ == relationships_cypher(node_id@),
    {
        CypherBuilder::new(
            "MATCH (n {id: $id})-[r]-(m) RETURN type(r) as type, m.id as target".to_string(),
        ).param("id".to_string(), node_id.to_owned())
    }

    /// The query that deletes the relationship of kind `rel_type` from
    /// `source_id` to `target_id`.
    pub fn delete_relationship(source_id: &str, target_id: &str, rel_type: &RelationType) -> (cypher:
        CypherBuilder)
        ensures
            cypher.wf(),
            cypher@ == delete_relationship_cypher(source_id@, target_id@, rel_type.name_text()),
    {
        let rel_name = rel_type.name();
        let query = String::from_str("MATCH (s {id: $source})-[r:").concat(
            rel_name.as_str(),
        ).concat("]->(t {id: $target}) DELETE r");
        CypherBuilder::new(query).param("source".to_string(), source_id.to_owned()).param(
            "target".to_string(),
            target_id.to_owned(),
        )
    }

    /// The query for the nodes labelled `label`.
    pub fn find_nodes_by_label(label: &str) -> (cypher: CypherBuilder)
        ensures
            cypher.wf(),
            cypher@ == nodes_by_label_cypher(label@),
    {
        let query = String::from_str("MATCH (n:").concat(label).concat(
            ") RETURN n, labels(n) as labels",
        );
        CypherBuilder::new(query)
    }

    /// The query for the number of nodes.
    pub fn node_count() -> (cypher: CypherBuilder)
        ensures
            cypher.wf(),
            cypher@ == CypherView::plain("MATCH (n) RETURN count(n) as count"@),
    {
        CypherBuilder::new("MATCH (n) RETURN count(n) as count".to_string())
    }

    /// The query for the number of relationships.
    pub fn relationship_count() -> (cypher: CypherBuilder)
        ensures
            cypher.wf(),
            cypher@ == CypherView::plain("MATCH ()-[r]->() RETURN count(r) as count"@),
    {
        CypherBuilder::new("MATCH ()-[r]->() RETURN count(r) as count".to_string())
    }
}

} // verus!
