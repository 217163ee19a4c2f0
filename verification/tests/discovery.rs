use opendeck_k1pro::discovery::{
    contains_text, device_id, disconnected_ids, find_keyboard_interface, is_control_interface,
    plan_scan, HidEntry,
};

fn entry(path: &str, serial: &str, usage_page: u16, usage: u16, interface_number: i32) -> HidEntry {
    HidEntry { path: path.to_string(), serial: serial.to_string(), usage_page, usage, interface_number }
}

fn listing() -> Vec<HidEntry> {
    vec![
        entry("/dev/hidraw4", "AAA", 1, 6, 0),
        entry("/dev/hidraw5", "AAA", 65440, 1, 1),
        entry("/dev/hidraw6", "BBB", 12, 1, 1),
        entry("/dev/hidraw7", "CCC", 65440, 1, 1),
        entry("/dev/hidraw8", "CCC", 1, 6, 0),
    ]
}

#[test]
fn control_interfaces_are_recognised() {
    assert!(is_control_interface(65440, 1));
    assert!(is_control_interface(1026, 1));
    assert!(!is_control_interface(1025, 1));
    assert!(!is_control_interface(65440, 2));
    assert!(!is_control_interface(1, 6));
}

#[test]
fn device_ids_carry_the_namespace() {
    assert_eq!(device_id("8730DB782625"), "k1-8730DB782625");
    assert_eq!(device_id(""), "k1-");
}

#[test]
fn scan_finds_new_devices() {
    let entries = listing();
    let plan = plan_scan(&entries, &["k1-AAA".to_string()]);
    assert_eq!(plan.active_ids, vec!["k1-AAA".to_string(), "k1-CCC".to_string()]);
    assert_eq!(plan.new_entries, vec![3]);
    let plan = plan_scan(&entries, &[]);
    assert_eq!(plan.new_entries, vec![1, 3]);
    let plan = plan_scan(&[], &["k1-AAA".to_string()]);
    assert!(plan.active_ids.is_empty());
    assert!(plan.new_entries.is_empty());
}

#[test]
fn scan_lists_gone_devices() {
    let connected = vec!["k1-AAA".to_string(), "k1-ZZZ".to_string(), "k1-CCC".to_string(), "k1-YYY".to_string()];
    let active = vec!["k1-AAA".to_string(), "k1-CCC".to_string()];
    assert_eq!(disconnected_ids(&connected, &active), vec!["k1-ZZZ".to_string(), "k1-YYY".to_string()]);
    assert!(disconnected_ids(&active, &connected).is_empty());
    assert!(contains_text(&active, &"k1-CCC".to_string()));
    assert!(!contains_text(&active, &"k1-ccc".to_string()));
}

#[test]
fn keyboard_interface_is_found_by_serial() {
    let entries = listing();
    assert_eq!(find_keyboard_interface(&entries, &"CCC".to_string()), Some(4));
    assert_eq!(find_keyboard_interface(&entries, &"AAA".to_string()), Some(0));
    assert_eq!(find_keyboard_interface(&entries, &"BBB".to_string()), None);
}
