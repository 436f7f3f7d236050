use ztwebui::network::{merge_network, NetworkRecord};
use ztwebui::member::{merge_member, MemberRecord};

#[test]
fn test_network_value_applying() {
    let a = NetworkRecord {
        id: Some("123".to_string()),
        description: Some("abc".to_string()),
        ..Default::default()
    };

    let b = NetworkRecord {
        description: Some("xyz".to_string()),
        ..Default::default()
    };

    let a = merge_network(b, a);

    assert_eq!(a.id, Some("123".to_string()));
    assert_eq!(a.description, Some("xyz".to_string()));
}

#[test]
fn network_overlay_null_preserves_stored() {
    let stored = NetworkRecord {
        description: Some("abc".to_string()),
        ..Default::default()
    };
    let submitted = NetworkRecord {
        description: None,
        ..Default::default()
    };
    let merged = merge_network(submitted, stored);
    assert_eq!(merged.description, Some("abc".to_string()));
}

#[test]
fn network_overlay_submitted_wins() {
    let stored = NetworkRecord {
        description: Some("abc".to_string()),
        ..Default::default()
    };
    let submitted = NetworkRecord {
        description: Some("xyz".to_string()),
        ..Default::default()
    };
    let merged = merge_network(submitted, stored);
    assert_eq!(merged.description, Some("xyz".to_string()));
}

#[test]
fn member_overlay_field_by_field() {
    let stored = MemberRecord {
        name: Some("laptop".to_string()),
        description: Some("old".to_string()),
        hidden: Some(false),
        ..Default::default()
    };
    let submitted = MemberRecord {
        description: Some("new".to_string()),
        hidden: Some(true),
        ..Default::default()
    };
    let merged = merge_member(submitted, stored);
    assert_eq!(merged.name, Some("laptop".to_string()));
    assert_eq!(merged.description, Some("new".to_string()));
    assert_eq!(merged.hidden, Some(true));
}
