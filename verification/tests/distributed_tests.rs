use memory_rs::clock::Timestamp;
use memory_rs::distributed::{
    ConsensusProtocol, DistributedConfig, NodeInfo, NodeRole, ReplicationStrategy, ShardInfo,
    ShardingStrategy,
};

#[test]
fn test_node_role_names() {
    assert_eq!(NodeRole::Primary.name(), "primary");
    assert_eq!(NodeRole::Secondary.name(), "secondary");
    assert_eq!(NodeRole::Arbiter.name(), "arbiter");
}

#[test]
fn test_node_info_creation() {
    let node = NodeInfo::new("node_1".to_string(), "localhost:7000".to_string(), NodeRole::Primary);

    assert_eq!(node.id, "node_1");
    assert_eq!(node.role, NodeRole::Primary);
    assert!(node.healthy);
}

#[test]
fn test_replication_strategy() {
    assert_eq!(ReplicationStrategy::Off.replica_count(), 0);
    assert_eq!(ReplicationStrategy::Single.replica_count(), 1);
    assert_eq!(ReplicationStrategy::Multiple(3).replica_count(), 3);
}

#[test]
fn test_sharding_strategy_names() {
    assert_eq!(ShardingStrategy::Range.name(), "range");
    assert_eq!(ShardingStrategy::Hash.name(), "hash");
    assert_eq!(ShardingStrategy::Directory.name(), "directory");
}

#[test]
fn test_shard_info_creation() {
    let shard = ShardInfo::new(0, "node_1".to_string()).add_replica("node_2".to_string());

    assert_eq!(shard.id, 0);
    assert_eq!(shard.replica_nodes.len(), 1);
}

#[test]
fn test_distributed_config() {
    let config = DistributedConfig::new("node_1".to_string(), "cluster_1".to_string())
        .with_shard_count(32)
        .with_replication(ReplicationStrategy::Multiple(3));

    assert_eq!(config.shard_count, 32);
    assert_eq!(config.replication.replica_count(), 3);
}

#[test]
fn test_consensus_protocol_names() {
    assert_eq!(ConsensusProtocol::Raft.name(), "raft");
    assert_eq!(ConsensusProtocol::Paxos.name(), "paxos");
    assert_eq!(ConsensusProtocol::Quorum.name(), "quorum");
}

#[test]
fn distributed_config_defaults() {
    let config = DistributedConfig::new("n".to_string(), "c".to_string());
    assert_eq!(config.node_id, "n");
    assert_eq!(config.cluster_name, "c");
    assert_eq!(config.replication, ReplicationStrategy::Single);
    assert_eq!(config.sharding, ShardingStrategy::Hash);
    assert_eq!(config.consensus, ConsensusProtocol::Raft);
    assert_eq!(config.shard_count, 16);
}

#[test]
fn distributed_config_setters() {
    let config = DistributedConfig::new("n".to_string(), "c".to_string())
        .with_sharding(ShardingStrategy::Range)
        .with_consensus(ConsensusProtocol::Quorum);
    assert_eq!(config.sharding, ShardingStrategy::Range);
    assert_eq!(config.consensus, ConsensusProtocol::Quorum);
    assert_eq!(config.shard_count, 16);
}

#[test]
fn node_heard_at_keeps_the_heartbeat() {
    let node = NodeInfo::heard_at("a".to_string(), "b".to_string(), NodeRole::Arbiter, 42);
    assert_eq!(node.last_heartbeat, 42);
    assert_eq!(node.address, "b");
    assert!(node.healthy);
}

#[test]
fn node_new_is_heard_of_now() {
    let before = Timestamp::now().secs;
    let node = NodeInfo::new("a".to_string(), "b".to_string(), NodeRole::Secondary);
    let after = Timestamp::now().secs;
    assert!(before <= node.last_heartbeat && node.last_heartbeat <= after);
}

#[test]
fn shard_replicas_keep_their_order() {
    let shard = ShardInfo::new(3, "p".to_string())
        .add_replica("r1".to_string())
        .add_replica("r2".to_string());
    assert_eq!(shard.primary_node, "p");
    assert_eq!(shard.range, None);
    assert_eq!(shard.replica_nodes, vec!["r1".to_string(), "r2".to_string()]);
}
