use cluster_core::identifiers::{GenerationalNodeId, PlainNodeId};
use cluster_core::log_nodeset::{LogNodeSetExt, NodeSet, NodesConfiguration, StorageState};

fn set_of(ids: &[u32]) -> NodeSet {
    let mut set = NodeSet::new();
    for id in ids {
        set.insert(PlainNodeId(*id));
    }
    set
}

fn config_of(entries: &[(u32, StorageState)]) -> NodesConfiguration {
    let mut config = NodesConfiguration::new();
    for (id, state) in entries {
        config.log_servers.push((PlainNodeId(*id), *state));
    }
    config
}

#[test]
fn node_set_holds_each_node_once() {
    let mut set = NodeSet::new();
    assert!(set.is_empty());
    assert!(set.insert(PlainNodeId(3)));
    assert!(set.insert(PlainNodeId(1)));
    assert!(!set.insert(PlainNodeId(3)));
    assert_eq!(set.len(), 2);
    assert!(set.contains(PlainNodeId(1)));
    assert!(!set.contains(PlainNodeId(2)));
    assert_eq!(set.position(PlainNodeId(1)), Some(1));
    assert_eq!(set.position(PlainNodeId(9)), None);
}

#[test]
fn unknown_node_counts_as_disabled() {
    let config = config_of(&[(1, StorageState::ReadWrite), (2, StorageState::Provisioning)]);
    assert_eq!(config.get_log_server_storage_state(&PlainNodeId(1)), StorageState::ReadWrite);
    assert_eq!(config.get_log_server_storage_state(&PlainNodeId(2)), StorageState::Provisioning);
    assert_eq!(config.get_log_server_storage_state(&PlainNodeId(3)), StorageState::Disabled);
}

#[test]
fn first_entry_of_a_node_decides() {
    let config = config_of(&[(1, StorageState::ReadOnly), (1, StorageState::DataLoss)]);
    assert_eq!(config.get_log_server_storage_state(&PlainNodeId(1)), StorageState::ReadOnly);
}

#[test]
fn all_disabled_asks_every_node() {
    let config = config_of(&[
        (1, StorageState::Disabled),
        (2, StorageState::Disabled),
        (3, StorageState::ReadWrite),
    ]);
    assert!(set_of(&[]).all_disabled(&config));
    assert!(set_of(&[1, 2]).all_disabled(&config));
    assert!(set_of(&[1, 2, 8]).all_disabled(&config));
    assert!(!set_of(&[1, 2, 3]).all_disabled(&config));
    assert!(!set_of(&[3]).all_disabled(&config));
}

#[test]
fn all_provisioning_asks_every_node() {
    let config = config_of(&[
        (1, StorageState::Provisioning),
        (2, StorageState::Provisioning),
        (3, StorageState::ReadOnly),
    ]);
    assert!(set_of(&[]).all_provisioning(&config));
    assert!(set_of(&[1, 2]).all_provisioning(&config));
    assert!(!set_of(&[1, 3]).all_provisioning(&config));
    assert!(!set_of(&[1, 8]).all_provisioning(&config));
}

#[test]
fn storage_states_know_themselves() {
    assert!(StorageState::Disabled.is_disabled());
    assert!(!StorageState::Provisioning.is_disabled());
    assert!(StorageState::Provisioning.is_provisioning());
    assert!(!StorageState::DataLoss.is_provisioning());
}

#[test]
fn shuffle_keeps_the_nodes() {
    let ids: Vec<u32> = (0..40).collect();
    let set = set_of(&ids);
    for _ in 0..20 {
        let mut shuffled = set.shuffle_for_reads(PlainNodeId(7));
        assert_eq!(shuffled.len(), 40);
        shuffled.sort_by_key(|node| node.0);
        let expected: Vec<PlainNodeId> = ids.iter().map(|id| PlainNodeId(*id)).collect();
        assert_eq!(shuffled, expected);
    }
}

#[test]
fn shuffle_changes_the_order() {
    let ids: Vec<u32> = (0..40).collect();
    let set = set_of(&ids);
    let own_order: Vec<PlainNodeId> = ids.iter().map(|id| PlainNodeId(*id)).collect();
    let mut changed = false;
    for _ in 0..20 {
        if set.shuffle_for_reads(PlainNodeId(1000)) != own_order {
            changed = true;
        }
    }
    assert!(changed);
}

#[test]
fn shuffle_of_small_sets() {
    assert_eq!(set_of(&[]).shuffle_for_reads(PlainNodeId(1)), Vec::<PlainNodeId>::new());
    assert_eq!(set_of(&[4]).shuffle_for_reads(PlainNodeId(4)), vec![PlainNodeId(4)]);
    assert_eq!(set_of(&[4]).shuffle_for_reads(5u32), vec![PlainNodeId(4)]);
    assert_eq!(
        set_of(&[4]).shuffle_for_reads(GenerationalNodeId::new(4, 2)),
        vec![PlainNodeId(4)]
    );
}

#[test]
fn placing_exchanges_the_readers_place_with_the_last() {
    let set = set_of(&[10, 20, 30, 40]);
    let shuffled = vec![PlainNodeId(30), PlainNodeId(40), PlainNodeId(10), PlainNodeId(20)];
    // 20 stands at place 1 of the set's own order
    assert_eq!(
        set.place_for_reads(shuffled.clone(), PlainNodeId(20)),
        vec![PlainNodeId(30), PlainNodeId(20), PlainNodeId(10), PlainNodeId(40)]
    );
    // 40 stands at the last place of the set's own order: nothing moves
    assert_eq!(set.place_for_reads(shuffled.clone(), PlainNodeId(40)), shuffled);
    // a node that the set does not hold moves nothing
    assert_eq!(set.place_for_reads(shuffled.clone(), PlainNodeId(99)), shuffled);
}
