use ztwebui::remote::creation_target_id;
use ztwebui::store::{member_file_path, network_file_path};
use ztwebui::text::{is_path_safe, strip_port_suffix, u64_to_string, version_string};

#[test]
fn creation_target_id_appends_placeholder() {
    assert_eq!(creation_target_id("abcd012345"), "abcd012345______");
}

#[test]
fn network_path_is_canonical() {
    let p = network_file_path("/var/lib/zt", "abcdef0123");
    assert_eq!(
        p,
        Some("/var/lib/zt/controller.d/network/abcdef0123.ext.json".to_string())
    );
}

#[test]
fn member_path_is_canonical() {
    let p = member_file_path("/var/lib/zt", "abcdef0123", "deadbeef01");
    assert_eq!(
        p,
        Some("/var/lib/zt/controller.d/network/abcdef0123/member/deadbeef01.ext.json".to_string())
    );
}

#[test]
fn traversal_identifiers_are_rejected() {
    assert_eq!(network_file_path("/var/lib/zt", "../../etc/passwd"), None);
    assert_eq!(network_file_path("/var/lib/zt", "a/b"), None);
    assert_eq!(network_file_path("/var/lib/zt", ""), None);
    assert_eq!(member_file_path("/var/lib/zt", "net1", ".."), None);
    assert_eq!(member_file_path("/var/lib/zt", "net.1", "m1"), None);
}

#[test]
fn path_safe_tokens() {
    assert!(is_path_safe("abcDEF019-_"));
    assert!(!is_path_safe(""));
    assert!(!is_path_safe("a.b"));
    assert!(!is_path_safe("a b"));
    assert!(!is_path_safe("a\\b"));
}

#[test]
fn decimal_formatting() {
    assert_eq!(u64_to_string(0), "0");
    assert_eq!(u64_to_string(7), "7");
    assert_eq!(u64_to_string(1234), "1234");
    assert_eq!(u64_to_string(u64::MAX), "18446744073709551615");
}

#[test]
fn version_formatting() {
    assert_eq!(version_string(1, 10, 0), "1.10.0");
    assert_eq!(version_string(0, 0, 0), "0.0.0");
}

#[test]
fn strip_port_suffix_cases() {
    assert_eq!(strip_port_suffix("198.51.100.7/9993"), "198.51.100.7");
    assert_eq!(strip_port_suffix("198.51.100.7"), "198.51.100.7");
    assert_eq!(strip_port_suffix("/9993"), "");
    assert_eq!(strip_port_suffix(""), "");
    assert_eq!(strip_port_suffix("a/b/c"), "a");
}
