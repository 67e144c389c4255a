use bluez_monitor::address::addr_to_text;
use bluez_monitor::paths::{device_path_for, monitor_path_for, parse_device_path};
use bluez_monitor::{Address, ReqError};

#[test]
fn address_text_is_uppercase_hex_with_underscores() {
    let a = Address::new([0xB8, 0x27, 0xEB, 0xB9, 0x36, 0x4E]);
    assert_eq!(addr_to_text(&a), "B8_27_EB_B9_36_4E");
    assert_eq!(addr_to_text(&Address::new([0, 0, 0, 0, 0, 0])), "00_00_00_00_00_00");
}

#[test]
fn built_device_paths_decode_back_to_the_same_pair() {
    let a = Address::new([0xAA, 0x01, 0xFF, 0x10, 0x00, 0x99]);
    let p = device_path_for("hci0", &a);
    assert_eq!(p, "/org/bluez/hci0/dev_AA_01_FF_10_00_99");
    let (adapter, addr) = parse_device_path(&p).unwrap();
    assert_eq!(adapter, "hci0");
    assert_eq!(addr, a);
}

#[test]
fn well_formed_path_decodes_to_owner_and_identifier() {
    let (adapter, addr) = parse_device_path("/org/bluez/hci0/dev_B8_27_EB_B9_36_4E").unwrap();
    assert_eq!(adapter, "hci0");
    assert_eq!(addr, Address::new([0xB8, 0x27, 0xEB, 0xB9, 0x36, 0x4E]));
}

#[test]
fn lower_case_hex_and_long_adapter_names_decode() {
    let (adapter, addr) = parse_device_path("/org/bluez/hci12/dev_ab_cd_ef_00_11_22").unwrap();
    assert_eq!(adapter, "hci12");
    assert_eq!(addr, Address::new([0xab, 0xcd, 0xef, 0x00, 0x11, 0x22]));
}

#[test]
fn malformed_paths_are_rejected() {
    let bad = [
        "",
        "/org/bluez/",
        "/org/bluez/hci0",
        "/org/bluez/hci0/dev_",
        "/org/bluez/hci0/dev_AA_BB_CC_DD_EE",
        "/org/bluez/hci0/dev_AA_BB_CC_DD_EE_GG",
        "/org/bluez/hci0/dev_AABBCCDDEEFF",
        "/org/bluez//dev_AA_BB_CC_DD_EE_FF",
        "/org/bluez/hci0/sub/dev_AA_BB_CC_DD_EE_FF",
        "/org/blueX/hci0/dev_AA_BB_CC_DD_EE_FF",
        "org/bluez/hci0/dev_AA_BB_CC_DD_EE_FF",
    ];
    for p in bad {
        assert_eq!(parse_device_path(p).unwrap_err(), ReqError::Rejected, "path {:?}", p);
    }
}

#[test]
fn separator_inside_adapter_segment_is_rejected() {
    // The extra segment would make the adapter name carry a slash.
    assert!(parse_device_path("/org/bluez/a/b/dev_AA_BB_CC_DD_EE_FF").is_err());
}

#[test]
fn monitor_paths_carry_the_namespace_and_token() {
    let p = monitor_path_for("abc123");
    assert_eq!(p, "/io/crates/bluez_monitor/hci0/abc123");
}

#[test]
fn distinct_tokens_give_distinct_monitor_paths() {
    assert_ne!(monitor_path_for("one"), monitor_path_for("two"));
}

#[test]
fn fresh_monitor_paths_carry_the_namespace_and_a_hex_token() {
    let prefix = "/io/crates/bluez_monitor/hci0/";
    let p = bluez_monitor::paths::fresh_monitor_path();
    assert!(p.starts_with(prefix), "path {:?}", p);
    let token = &p[prefix.len()..];
    assert_eq!(token.len(), 32);
    assert!(token.chars().all(|c| c.is_ascii_digit() || ('a'..='f').contains(&c)));
    // Two registrations draw from a 128-bit space; equal paths would
    // mean the generator handed out the same token twice.
    let q = bluez_monitor::paths::fresh_monitor_path();
    assert_ne!(p, q);
}
