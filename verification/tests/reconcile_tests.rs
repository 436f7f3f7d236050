use ztwebui::member::{reconcile_member_read, reconcile_member_write, MemberRecord};
use ztwebui::network::{reconcile_network_read, reconcile_network_write, NetworkRecord};
use ztwebui::remote::{MemberConfig, NetworkConfig, Peer, PeerPath};

fn member_config(authorized: Option<bool>) -> MemberConfig {
    MemberConfig {
        nwid: Some("net1".to_string()),
        id: Some("node1".to_string()),
        v_major: None,
        v_minor: None,
        v_rev: None,
        v_proto: None,
        authorized,
    }
}

#[test]
fn network_reconcile_idempotent_except_clock() {
    let config = NetworkConfig {
        id: Some("abcdef0123".to_string()),
    };
    let members = vec![member_config(Some(true)), member_config(Some(false))];

    let r1 = reconcile_network_read(config.clone(), None, Some(&members), 1000);
    assert_eq!(r1.clock, Some(1000));

    let mut persisted = r1.clone();
    persisted.strip_for_persist();
    assert_eq!(persisted.config, None);

    let r2 = reconcile_network_read(config, Some(persisted), Some(&members), 2000);
    assert_eq!(r2.clock, Some(2000));
    assert!(r2.clock.unwrap() > r1.clock.unwrap());

    let mut r2_at_first_clock = r2.clone();
    r2_at_first_clock.clock = r1.clock;
    assert_eq!(r2_at_first_clock, r1);
}

#[test]
fn member_reconcile_idempotent_except_clock() {
    let config = member_config(Some(true));
    let peer = Peer {
        paths: vec![PeerPath {
            preferred: true,
            address: Some("198.51.100.7/9993".to_string()),
            last_receive: Some(77),
        }],
    };

    let r1 = reconcile_member_read(config.clone(), None, Some(&peer), 1000);
    assert_eq!(r1.clock, Some(1000));

    let mut persisted = r1.clone();
    persisted.strip_for_persist();

    let r2 = reconcile_member_read(config, Some(persisted), Some(&peer), 2000);
    assert_eq!(r2.clock, Some(2000));

    let mut r2_at_first_clock = r2.clone();
    r2_at_first_clock.clock = r1.clock;
    assert_eq!(r2_at_first_clock, r1);
}

#[test]
fn network_identity_comes_from_config() {
    let config = NetworkConfig {
        id: Some("abcdef0123".to_string()),
    };
    let stored = NetworkRecord {
        id: Some("stale-id".to_string()),
        description: Some("kept".to_string()),
        ..Default::default()
    };
    let r = reconcile_network_read(config, Some(stored), None, 5);
    assert_eq!(r.id, Some("abcdef0123".to_string()));
    assert_eq!(r.description, Some("kept".to_string()));
}

#[test]
fn network_write_ignores_client_submitted_id() {
    let config = NetworkConfig {
        id: Some("abcdef0123".to_string()),
    };
    let submitted = NetworkRecord {
        id: Some("client-id".to_string()),
        description: Some("mine".to_string()),
        ..Default::default()
    };
    let r = reconcile_network_write(config, submitted, None, None, 5);
    assert_eq!(r.id, Some("abcdef0123".to_string()));
    assert_eq!(r.description, Some("mine".to_string()));
}

#[test]
fn member_identity_and_version_from_config() {
    let config = MemberConfig {
        nwid: Some("net9".to_string()),
        id: Some("nodeff".to_string()),
        v_major: Some(1),
        v_minor: Some(10),
        v_rev: Some(0),
        v_proto: Some(12),
        authorized: None,
    };
    let stored = MemberRecord {
        network_id: Some("stale".to_string()),
        node_id: Some("stale".to_string()),
        ..Default::default()
    };
    let r = reconcile_member_read(config, Some(stored), None, 1);
    assert_eq!(r.network_id, Some("net9".to_string()));
    assert_eq!(r.node_id, Some("nodeff".to_string()));
    assert_eq!(r.client_version, Some("1.10.0".to_string()));
    assert_eq!(r.protocol_version, Some(12));
}

#[test]
fn member_version_missing_and_negative_clamp_to_zero() {
    let config = MemberConfig {
        nwid: None,
        id: Some("node1".to_string()),
        v_major: Some(-3),
        v_minor: None,
        v_rev: Some(7),
        v_proto: None,
        authorized: None,
    };
    let r = reconcile_member_read(config, None, None, 1);
    assert_eq!(r.client_version, Some("0.0.7".to_string()));
    assert_eq!(r.protocol_version, None);
}

#[test]
fn member_count_scenario() {
    let config = NetworkConfig {
        id: Some("net1".to_string()),
    };
    let members = vec![
        member_config(Some(true)),
        member_config(Some(false)),
        member_config(Some(true)),
    ];
    let r = reconcile_network_read(config, None, Some(&members), 0);
    assert_eq!(r.total_member_count, Some(3));
    assert_eq!(r.authorized_member_count, Some(2));
}

#[test]
fn member_count_missing_flag_is_unauthorized() {
    let config = NetworkConfig {
        id: Some("net1".to_string()),
    };
    let members = vec![member_config(None), member_config(Some(true))];
    let r = reconcile_network_read(config, None, Some(&members), 0);
    assert_eq!(r.total_member_count, Some(2));
    assert_eq!(r.authorized_member_count, Some(1));
}

#[test]
fn member_counts_overwrite_stale_stored_values() {
    let config = NetworkConfig {
        id: Some("net1".to_string()),
    };
    let stored = NetworkRecord {
        total_member_count: Some(99),
        authorized_member_count: Some(99),
        ..Default::default()
    };
    let members: Vec<MemberConfig> = vec![];
    let r = reconcile_network_read(config, Some(stored), Some(&members), 0);
    assert_eq!(r.total_member_count, Some(0));
    assert_eq!(r.authorized_member_count, Some(0));
}

#[test]
fn combine_ignores_stored_when_config_has_no_id() {
    let config = NetworkConfig { id: None };
    let stored = NetworkRecord {
        description: Some("ghost".to_string()),
        ..Default::default()
    };
    let r = reconcile_network_read(config, Some(stored), None, 3);
    assert_eq!(r.id, None);
    assert_eq!(r.description, None);
    assert_eq!(r.clock, Some(3));
}

#[test]
fn peer_enrichment_prefers_first_preferred_path() {
    let config = member_config(None);
    let peer = Peer {
        paths: vec![
            PeerPath {
                preferred: false,
                address: Some("203.0.113.1/1".to_string()),
                last_receive: Some(1),
            },
            PeerPath {
                preferred: true,
                address: Some("198.51.100.7/9993".to_string()),
                last_receive: Some(42),
            },
            PeerPath {
                preferred: true,
                address: Some("203.0.113.9/2".to_string()),
                last_receive: Some(2),
            },
        ],
    };
    let r = reconcile_member_read(config, None, Some(&peer), 0);
    assert_eq!(r.physical_address, Some("198.51.100.7".to_string()));
    assert_eq!(r.last_seen, Some(42));
}

#[test]
fn peer_enrichment_without_preferred_path_leaves_record() {
    let config = member_config(None);
    let stored = MemberRecord {
        physical_address: Some("10.0.0.1".to_string()),
        last_seen: Some(5),
        ..Default::default()
    };
    let peer = Peer {
        paths: vec![PeerPath {
            preferred: false,
            address: Some("203.0.113.1/1".to_string()),
            last_receive: Some(1),
        }],
    };
    let r = reconcile_member_read(config, Some(stored), Some(&peer), 0);
    assert_eq!(r.physical_address, Some("10.0.0.1".to_string()));
    assert_eq!(r.last_seen, Some(5));
}

#[test]
fn peer_fetch_failure_is_best_effort() {
    let config = member_config(None);
    let stored = MemberRecord {
        physical_address: Some("10.0.0.1".to_string()),
        last_seen: Some(5),
        ..Default::default()
    };
    let r = reconcile_member_read(config, Some(stored), None, 0);
    assert_eq!(r.physical_address, Some("10.0.0.1".to_string()));
    assert_eq!(r.last_seen, Some(5));
}

#[test]
fn peer_preferred_path_without_address_clears_it() {
    let config = member_config(None);
    let stored = MemberRecord {
        physical_address: Some("10.0.0.1".to_string()),
        ..Default::default()
    };
    let peer = Peer {
        paths: vec![PeerPath {
            preferred: true,
            address: None,
            last_receive: None,
        }],
    };
    let r = reconcile_member_read(config, Some(stored), Some(&peer), 0);
    assert_eq!(r.physical_address, None);
    assert_eq!(r.last_seen, None);
}

#[test]
fn member_write_merges_then_derives() {
    let config = MemberConfig {
        nwid: Some("net1".to_string()),
        id: Some("node1".to_string()),
        v_major: Some(2),
        v_minor: Some(0),
        v_rev: Some(5),
        v_proto: Some(11),
        authorized: None,
    };
    let submitted = MemberRecord {
        name: Some("printer".to_string()),
        ..Default::default()
    };
    let stored = MemberRecord {
        name: Some("old-name".to_string()),
        description: Some("basement".to_string()),
        ..Default::default()
    };
    let r = reconcile_member_write(config, submitted, Some(stored), None, 9);
    assert_eq!(r.name, Some("printer".to_string()));
    assert_eq!(r.description, Some("basement".to_string()));
    assert_eq!(r.client_version, Some("2.0.5".to_string()));
    assert_eq!(r.clock, Some(9));
}
