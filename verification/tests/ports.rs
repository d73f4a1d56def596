use std::cell::RefCell;
use vite_rs::ports::{
    find_free_port, is_port_free, select_port, DEFAULT_RANGE_END, DEFAULT_RANGE_START,
};

#[test]
fn empty_range_has_no_free_port() {
    assert_eq!(find_free_port(21012..21012, |_| true), None);
    assert_eq!(find_free_port(0..0, |_| true), None);
    assert_eq!(find_free_port(65535..65535, |_| true), None);
    assert_eq!(find_free_port(30..20, |_| true), None);
}

#[test]
fn the_only_free_port_is_chosen() {
    assert_eq!(find_free_port(21012..22022, |port| port == 21500), Some(21500));
    assert_eq!(find_free_port(21012..22022, |port| port == 21012), Some(21012));
    assert_eq!(find_free_port(21012..22022, |port| port == 22021), Some(22021));
    assert_eq!(find_free_port(21012..22022, |port| port == 22022), None);
    assert_eq!(find_free_port(21012..22022, |port| port == 21011), None);
}

#[test]
fn the_first_free_port_is_chosen() {
    assert_eq!(find_free_port(10..20, |port| port % 4 == 0), Some(12));
    assert_eq!(find_free_port(10..20, |_| true), Some(10));
    assert_eq!(find_free_port(10..20, |_| false), None);
    assert_eq!(find_free_port(65530..65535, |port| port > 65533), Some(65534));
}

#[test]
fn ports_behind_the_chosen_one_are_not_asked_about() {
    let asked = RefCell::new(Vec::new());
    let port = find_free_port(100..110, |port| {
        asked.borrow_mut().push(port);
        port >= 103
    });
    assert_eq!(port, Some(103));
    assert_eq!(asked.into_inner(), vec![100, 101, 102, 103]);
}

#[test]
fn a_fixed_port_replaces_the_range() {
    assert_eq!(select_port(Some(3000), 21012..22022, |_| true), Some(3000));
    assert_eq!(select_port(Some(3000), 21012..22022, |port| port != 3000), None);
    assert_eq!(select_port(Some(21500), 21012..21012, |_| true), Some(21500));
}

#[test]
fn without_a_fixed_port_the_range_is_scanned() {
    assert_eq!(select_port(None, 21012..22022, |port| port >= 21020), Some(21020));
    assert_eq!(select_port(None, 21012..22022, |_| false), None);
    assert_eq!(select_port(None, 5..5, |_| true), None);
}

#[test]
fn default_range_is_as_documented() {
    assert_eq!(DEFAULT_RANGE_START, 21012);
    assert_eq!(DEFAULT_RANGE_END, 22022);
    assert_eq!(
        find_free_port(DEFAULT_RANGE_START..DEFAULT_RANGE_END, |_| true),
        Some(21012)
    );
}

#[test]
fn a_port_is_free_only_if_both_families_bind() {
    assert!(is_port_free(21012, |_| true, |_| true));
    assert!(!is_port_free(21012, |_| true, |_| false));
    assert!(!is_port_free(21012, |_| false, |_| true));
    assert!(!is_port_free(21012, |_| false, |_| false));
    assert!(is_port_free(21012, |port| port == 21012, |port| port == 21012));
}

#[test]
fn ipv4_is_not_tried_when_ipv6_fails() {
    let tried = RefCell::new(Vec::new());
    let free = is_port_free(
        8080,
        |port| {
            tried.borrow_mut().push(("v6", port));
            false
        },
        |port| {
            tried.borrow_mut().push(("v4", port));
            true
        },
    );
    assert!(!free);
    assert_eq!(tried.into_inner(), vec![("v6", 8080)]);
}
