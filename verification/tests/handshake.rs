use cluster_core::envelope::{Hello, Welcome};
use cluster_core::handshake::{
    accept_hello, check_cluster_name, negotiate_protocol_version, HandshakeError,
};
use cluster_core::identifiers::GenerationalNodeId;
use cluster_core::version::{
    ProtocolVersion, VersionRange, CURRENT_PROTOCOL_VERSION, MIN_SUPPORTED_PROTOCOL_VERSION,
};

fn hello(min: i32, max: i32, cluster: &str) -> Hello {
    Hello {
        min_protocol_version: min,
        max_protocol_version: max,
        my_node_id: GenerationalNodeId::new(1, 1),
        cluster_name: cluster.to_string(),
    }
}

#[test]
fn equal_single_version_ranges_negotiate_that_version() {
    assert_eq!(VersionRange::new(1, 1).negotiate(VersionRange::new(1, 1)), Some(1));
}

#[test]
fn disjoint_ranges_do_not_negotiate() {
    assert_eq!(VersionRange::new(2, 3).negotiate(VersionRange::new(1, 1)), None);
    assert_eq!(VersionRange::new(1, 1).negotiate(VersionRange::new(2, 3)), None);
}

#[test]
fn negotiation_picks_the_smaller_upper_bound() {
    assert_eq!(VersionRange::new(1, 5).negotiate(VersionRange::new(3, 9)), Some(5));
    assert_eq!(VersionRange::new(3, 9).negotiate(VersionRange::new(1, 5)), Some(5));
    assert_eq!(VersionRange::new(1, 9).negotiate(VersionRange::new(4, 6)), Some(6));
    assert_eq!(VersionRange::new(4, 4).negotiate(VersionRange::new(1, 4)), Some(4));
}

#[test]
fn ranges_that_only_touch_negotiate_the_touching_version() {
    assert_eq!(VersionRange::new(1, 3).negotiate(VersionRange::new(3, 7)), Some(3));
}

#[test]
fn an_empty_range_negotiates_nothing() {
    assert_eq!(VersionRange::new(3, 2).negotiate(VersionRange::new(1, 5)), None);
}

#[test]
fn negotiation_holds_for_every_small_pair_of_ranges() {
    for a_min in 0..5 {
        for a_max in 0..5 {
            for b_min in 0..5 {
                for b_max in 0..5 {
                    let low = a_min.max(b_min);
                    let high = a_max.min(b_max);
                    let expected = if high >= low { Some(high) } else { None };
                    let a = VersionRange::new(a_min, a_max);
                    let b = VersionRange::new(b_min, b_max);
                    assert_eq!(a.negotiate(b), expected);
                    assert_eq!(b.negotiate(a), expected);
                }
            }
        }
    }
}

#[test]
fn this_build_offers_the_first_version_only() {
    assert_eq!(MIN_SUPPORTED_PROTOCOL_VERSION, ProtocolVersion::V1);
    assert_eq!(CURRENT_PROTOCOL_VERSION, ProtocolVersion::V1);
    assert_eq!(VersionRange::supported(), VersionRange::new(1, 1));
}

#[test]
fn version_numbers_are_read_and_written() {
    assert_eq!(ProtocolVersion::V1.as_i32(), 1);
    assert_eq!(ProtocolVersion::Unknown.as_i32(), 0);
    assert_eq!(ProtocolVersion::from_i32(1), ProtocolVersion::V1);
    assert_eq!(ProtocolVersion::from_i32(0), ProtocolVersion::Unknown);
    assert_eq!(ProtocolVersion::from_i32(7), ProtocolVersion::Unknown);
    assert_eq!(ProtocolVersion::from_i32(-1), ProtocolVersion::Unknown);
    assert!(ProtocolVersion::V1.is_known());
    assert!(!ProtocolVersion::Unknown.is_known());
}

#[test]
fn hello_of_this_build_is_welcomed() {
    let greeting = Hello::new(GenerationalNodeId::new(5, 3), "prod".to_string());
    assert_eq!(greeting.min_protocol_version, 1);
    assert_eq!(greeting.max_protocol_version, 1);
    assert_eq!(greeting.my_node_id, GenerationalNodeId::new(5, 3));
    assert_eq!(greeting.cluster_name, "prod");
    let me = GenerationalNodeId::new(9, 1);
    let answer = accept_hello(&greeting, me, &"prod".to_string());
    assert_eq!(answer, Ok(Welcome { my_node_id: me, protocol_version: 1 }));
}

#[test]
fn hello_with_newer_versions_only_is_refused() {
    let answer = accept_hello(&hello(2, 3, "prod"), GenerationalNodeId::new(9, 1), &"prod".to_string());
    assert_eq!(
        answer,
        Err(HandshakeError::IncompatibleVersion { offered_min: 2, offered_max: 3 })
    );
}

#[test]
fn hello_with_a_wider_range_gets_the_current_version() {
    let answer = accept_hello(&hello(0, 9, "prod"), GenerationalNodeId::new(9, 1), &"prod".to_string());
    assert_eq!(
        answer,
        Ok(Welcome { my_node_id: GenerationalNodeId::new(9, 1), protocol_version: 1 })
    );
    assert_eq!(negotiate_protocol_version(&hello(0, 9, "prod")), Ok(ProtocolVersion::V1));
}

#[test]
fn hello_of_another_cluster_is_refused_as_such() {
    let answer = accept_hello(&hello(1, 1, "test"), GenerationalNodeId::new(9, 1), &"prod".to_string());
    assert_eq!(answer, Err(HandshakeError::WrongCluster));
}

#[test]
fn wrong_version_is_reported_before_wrong_cluster() {
    let greeting = hello(2, 3, "test");
    let answer = accept_hello(&greeting, GenerationalNodeId::new(9, 1), &"prod".to_string());
    assert_eq!(
        answer,
        Err(HandshakeError::IncompatibleVersion { offered_min: 2, offered_max: 3 })
    );
    assert_eq!(check_cluster_name(&greeting, &"prod".to_string()), Err(HandshakeError::WrongCluster));
    assert_eq!(check_cluster_name(&greeting, &"test".to_string()), Ok(()));
}

#[test]
fn welcome_carries_the_version_number() {
    let welcome = Welcome::new(GenerationalNodeId::new(2, 8), ProtocolVersion::V1);
    assert_eq!(welcome.my_node_id, GenerationalNodeId::new(2, 8));
    assert_eq!(welcome.protocol_version, 1);
}

#[test]
fn versions_are_ordered() {
    assert!(ProtocolVersion::Unknown < ProtocolVersion::V1);
    assert!(MIN_SUPPORTED_PROTOCOL_VERSION <= CURRENT_PROTOCOL_VERSION);
}
