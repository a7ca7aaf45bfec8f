//! Descriptions of a cluster: nodes, shards, and how data is spread and
//! agreed on. These are records only; no protocol runs on them here.

use crate::clock::Timestamp;
use vstd::prelude::*;

verus! {

/// What a node does in the cluster.
#[derive(Debug, Clone, Copy, PartialEq, Eq, Structural)]
pub enum NodeRole {
    /// The leader.
    Primary,
    /// A replica.
    Secondary,
    /// A node that only takes part in agreement.
    Arbiter,
}

impl NodeRole {
    /// The role's name in lower case.
    pub fn name(&self) -> (name: &'static str)
        ensures
            name@ == match self {
                NodeRole::Primary => "primary"@,
                NodeRole::Secondary => "secondary"@,
                NodeRole::Arbiter => "arbiter"@,
            },
    {
        match self {
            NodeRole::Primary => "primary",
            NodeRole::Secondary => "secondary",
            NodeRole::Arbiter => "arbiter",
        }
    }
}

/// A node of the cluster.
#[derive(Debug, Clone)]
pub struct NodeInfo {
    /// Its identifier.
    pub id: String,
    /// Where it listens.
    pub address: String,
    /// What it does.
    pub role: NodeRole,
    /// Whether it is healthy.
    pub healthy: bool,
    /// When it was last heard of, in seconds since the epoch.
    pub last_heartbeat: i64,
}

impl NodeInfo {
    /// A healthy node that was heard of just now.
    pub fn new(id: String, address: String, role: NodeRole) -> (node: Self)
        ensures
            node.id@ == id@,
            node.address@ == address@,
            node.role == role,
            node.healthy,
    {
        Self::heard_at(id, address, role, Timestamp::now().secs)
    }

    /// A healthy node that was last heard of at `heartbeat`.
    pub fn heard_at(id: String, address: String, role: NodeRole, heartbeat: i64) -> (node: Self)
        ensures
            node.id@ == id@,
            node.address@ == address@,
            node.role == role,
            node.healthy,
            node.last_heartbeat == heartbeat,
    {
        NodeInfo { id, address, role, healthy: true, last_heartbeat: heartbeat }
    }
}

/// How many further copies of the data are kept.
#[derive(Debug, Clone, Copy, PartialEq, Eq, Structural)]
pub enum ReplicationStrategy {
    /// No copy.
    Off,
    /// One copy.
    Single,
    /// As many copies as given.
    Multiple(usize),
}

impl ReplicationStrategy {
    /// The number of copies.
    pub fn replica_count(&self) -> (count: usize)
        ensures
            count == match self {
                ReplicationStrategy::Off => 0,
                ReplicationStrategy::Single => 1,
                ReplicationStrategy::Multiple(n) => *n,
            },
    {
        match self {
            ReplicationStrategy::Off => 0,
            ReplicationStrategy::Single => 1,
            ReplicationStrategy::Multiple(count) => *count,
        }
    }
}

/// How data is spread over shards.
#[derive(Debug, Clone, Copy, PartialEq, Eq, Structural)]
pub enum ShardingStrategy {
    /// By ranges of keys.
    Range,
    /// By hash of the key.
    Hash,
    /// By a directory of keys.
    Directory,
}

impl ShardingStrategy {
    /// The strategy's name in lower case.
    pub fn name(&self) -> (name: &'static str)
        ensures
            name@ == match self {
                ShardingStrategy::Range => "range"@,
                ShardingStrategy::Hash => "hash"@,
                ShardingStrategy::Directory => "directory"@,
            },
    {
        match self {
            ShardingStrategy::Range => "range",
            ShardingStrategy::Hash => "hash",
            ShardingStrategy::Directory => "directory",
        }
    }
}

/// A shard and the nodes that hold it.
#[derive(Debug, Clone)]
pub struct ShardInfo {
    /// Its number.
    pub id: usize,
    /// The first and last key, where shards are ranges.
    pub range: Option<(String, String)>,
    /// The node that leads it.
    pub primary_node: String,
    /// The nodes that hold copies, in the order in which they were added.
    pub replica_nodes: Vec<String>,
}

impl ShardInfo {
    /// A shard led by `primary_node`, with no range and no copies.
    pub fn new(id: usize, primary_node: String) -> (shard: Self)
        ensures
            shard.id == id,
            shard.range is None,
            shard.primary_node@ == primary_node@,
            shard.replica_nodes@.len() == 0,
    {
        ShardInfo { id, range: None, primary_node, replica_nodes: Vec::new() }
    }

    /// The same shard with one more copy, on `node_id`.
    pub fn add_replica(self, node_id: String) -> (shard: Self)
        ensures
            shard.id == self.id,
            shard.range == self.range,
            shard.primary_node == self.primary_node,
            shard.replica_nodes@ == self.replica_nodes@.push(node_id),
    {
        let mut shard = self;
        shard.replica_nodes.push(node_id);
        shard
    }
}

/// How the nodes agree.
#[derive(Debug, Clone, Copy, PartialEq, Eq, Structural)]
pub enum ConsensusProtocol {
    Raft,
    Paxos,
    Quorum,
}

impl ConsensusProtocol {
    /// The protocol's name in lower case.
    pub fn name(&self) -> (name: &'static str)
        ensures
            name@ == match self {
                ConsensusProtocol::Raft => "raft"@,
                ConsensusProtocol::Paxos => "paxos"@,
                ConsensusProtocol::Quorum => "quorum"@,
            },
    {
        match self {
            ConsensusProtocol::Raft => "raft",
            ConsensusProtocol::Paxos => "paxos",
            ConsensusProtocol::Quorum => "quorum",
        }
    }
}

/// The number of shards of a cluster that sets none.
pub const DEFAULT_SHARD_COUNT: usize = 16;

/// How a node takes part in a cluster.
#[derive(Debug, Clone)]
pub struct DistributedConfig {
    /// The node.
    pub node_id: String,
    /// The cluster.
    pub cluster_name: String,
    /// How many copies are kept.
    pub replication: ReplicationStrategy,
    /// How data is spread.
    pub sharding: ShardingStrategy,
    /// How the nodes agree.
    pub consensus: ConsensusProtocol,
    /// Number of shards.
    pub shard_count: usize,
}

impl DistributedConfig {
    /// One copy, spread by hash, agreed by Raft, sixteen shards.
    pub fn new(node_id: String, cluster_name: String) -> (config: Self)
        ensures
            config.node_id@ == node_id@,
            config.cluster_name@ == cluster_name@,
            config.replication == ReplicationStrategy::Single,
            config.sharding == ShardingStrategy::Hash,
            config.consensus == ConsensusProtocol::Raft,
            config.shard_count == DEFAULT_SHARD_COUNT,
    {
        DistributedConfig {
            node_id,
            cluster_name,
            replication: ReplicationStrategy::Single,
            sharding: ShardingStrategy::Hash,
            consensus: ConsensusProtocol::Raft,
            shard_count: DEFAULT_SHARD_COUNT,
        }
    }

    /// The same settings with another replication.
    pub fn with_replication(self, replication: ReplicationStrategy) -> (config: Self)
        ensures
            config == (DistributedConfig { replication, ..self }),
    {
        let mut config = self;
        config.replication = replication;
        config
    }

    /// The same settings with another sharding.
    pub fn with_sharding(self, sharding: ShardingStrategy) -> (config: Self)
        ensures
            config == (DistributedConfig { sharding, ..self }),
    {
        let mut config = self;
        config.sharding = sharding;
        config
    }

    /// The same settings with another way to agree.
    pub fn with_consensus(self, consensus: ConsensusProtocol) -> (config: Self)
        ensures
            config == (DistributedConfig { consensus, ..self }),
    {
        let mut config = self;
        config.consensus = consensus;
        config
    }

    /// The same settings with another number of shards.
    pub fn with_shard_count(self, count: usize) -> (config: Self)
        ensures
            config == (DistributedConfig { shard_count: count, ..self }),
    {
        let mut config = self;
        config.shard_count = count;
        config
    }
}

/// The state of a cluster.
#[derive(Debug, Clone)]
pub struct ClusterStatus {
    /// Its name.
    pub name: String,
    /// Number of nodes.
    pub total_nodes: usize,
    /// Number of healthy nodes.
    pub healthy_nodes: usize,
    /// Number of shards.
    pub total_shards: usize,
    /// The leader, if one is known.
    pub leader: Option<String>,
}

/// How far replication has come.
#[derive(Debug, Clone)]
pub struct ReplicationStatus {
    /// Items replicated.
    pub total_replicated: usize,
    /// Items waiting.
    pub pending: usize,
    /// Items that failed.
    pub failed: usize,
    /// Lag in milliseconds.
    pub lag_ms: u64,
}

} // verus!
