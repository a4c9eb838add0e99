use kir_bot::commands::region::{parse_region, Region, RegionCommand};
use kir_bot::commands::Command;

#[test]
fn region_codes_parse_exactly() {
    assert_eq!(parse_region("KR"), Some(Region::KR));
    assert_eq!(parse_region("PBE1"), Some(Region::PBE1));
    assert_eq!(parse_region("kr"), None);
    assert_eq!(parse_region("XX9"), None);
    assert_eq!(parse_region(""), None);
}

#[test]
fn default_region_is_ru() {
    let store = RegionCommand::new();
    assert_eq!(store.get_region(), Region::RU);
    assert_eq!(store.get_region_string(), "Russia (RU)");
}

#[test]
fn reads_after_a_write_see_it() {
    let mut store = RegionCommand::new();
    store.set_current_region(Region::EUW1);
    for _ in 0..100 {
        assert_eq!(store.get_region(), Region::EUW1);
    }
    store.set_current_region(Region::NA1);
    assert_eq!(store.get_region(), Region::NA1);
}

#[test]
fn selecting_kr_sets_it_and_names_it() {
    let mut store = RegionCommand::new();
    let reply = store.handle("KR");
    assert_eq!(store.get_region(), Region::KR);
    assert!(reply.contains("South Korea (KR)"));
    assert_eq!(reply, "\u{1f4cd} **Current region:** `South Korea (KR)`");
}

#[test]
fn unknown_token_keeps_region() {
    let mut store = RegionCommand::new();
    store.handle("KR");
    let reply = store.handle("XX9");
    assert_eq!(store.get_region(), Region::KR);
    assert!(reply.contains("South Korea (KR)"));
}

#[test]
fn options_list_every_region() {
    let store = RegionCommand::new();
    let options = store.region_options();
    assert_eq!(options.len(), 18);
    assert_eq!(options[0].label, "Brazil (BR1)");
    assert_eq!(options[0].value, "BR1");
    assert_eq!(options[17].label, "PBE (PBE1)");
    assert_eq!(options[17].value, "PBE1");
    for o in &options {
        let r = parse_region(&o.value).unwrap();
        assert_eq!(r.label(), o.label);
        assert_eq!(r.code(), o.value);
    }
}

#[test]
fn region_command_is_named_region() {
    let store = RegionCommand::new();
    assert_eq!(store.name(), "region");
    assert_eq!(store.description(), "Show the current region and select a new one.");
}

#[test]
fn short_region_names() {
    let expected = [
        ("BR1", "BR"),
        ("EUN1", "EUNE"),
        ("EUW1", "EUW"),
        ("JP1", "JP"),
        ("KR", "KR"),
        ("NA1", "NA"),
        ("OC1", "OCE"),
        ("RU", "RU"),
        ("LA1", "LAN"),
        ("LA2", "LAS"),
        ("ME1", "MENA"),
        ("PH2", "PH"),
        ("SG2", "SG"),
        ("TH2", "TH"),
        ("TR1", "TR"),
        ("TW2", "TW"),
        ("VN2", "VN"),
        ("PBE1", "PBE"),
    ];
    for (code, name) in expected {
        assert_eq!(parse_region(code).unwrap().region_name(), name);
    }
}
