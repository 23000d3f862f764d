use fwapi::errors::FwError;
use fwapi::facade::get_tables;
use fwapi::interfaces::{default_interface_of, get_interfaces, InterfaceDto, InterfaceInfo};

fn plain(name: &str, up: bool, loopback: bool, ips: Vec<&str>) -> InterfaceInfo {
    InterfaceInfo {
        name: name.to_string(),
        description: String::new(),
        mac: None,
        ips: ips.into_iter().map(|s| s.to_string()).collect(),
        up,
        loopback,
        running: up,
    }
}

#[test]
fn default_interface_is_the_first_qualifying_one() {
    let list = vec![
        plain("down0", false, false, vec![]),
        plain("lo", true, true, vec!["127.0.0.1/8"]),
        plain("eth0", true, false, vec!["10.0.0.2/24"]),
    ];
    let chosen = default_interface_of(&list).unwrap();
    assert_eq!(chosen.name, "eth0");
    assert_eq!(chosen.ips, vec!["10.0.0.2/24".to_string()]);
    assert!(chosen.up);
    assert!(!chosen.loopback);
}

#[test]
fn default_interface_requires_an_address() {
    let list = vec![
        plain("eth0", true, false, vec![]),
        plain("eth1", true, false, vec!["192.168.1.4/24"]),
    ];
    let chosen = default_interface_of(&list).unwrap();
    assert_eq!(chosen.name, "eth1");
}

#[test]
fn no_qualifying_interface_is_not_found() {
    let list = vec![
        plain("down0", false, false, vec!["10.0.0.2/24"]),
        plain("lo", true, true, vec!["127.0.0.1/8"]),
    ];
    match default_interface_of(&list) {
        Err(FwError::NotFound) => {}
        other => panic!("expected NotFound, got {:?}", other),
    }
}

#[test]
fn absent_mac_is_rendered_as_unknown() {
    let info = plain("eth0", true, false, vec!["10.0.0.2/24"]);
    let dto = InterfaceDto::from_network_interface(&info);
    assert_eq!(dto.mac, "unknown");
    assert_eq!(dto.name, "eth0");
    assert!(dto.running);
}

#[test]
fn present_mac_is_copied() {
    let mut info = plain("eth0", true, false, vec![]);
    info.mac = Some("aa:bb:cc:dd:ee:ff".to_string());
    let dto = InterfaceDto::from_network_interface(&info);
    assert_eq!(dto.mac, "aa:bb:cc:dd:ee:ff");
}

#[test]
fn host_interface_snapshots_are_normalized() {
    // Whatever the host reports, every snapshot carries a non-empty hardware
    // address: either the rendered one or the literal "unknown".
    let snapshot = get_interfaces();
    for dto in &snapshot.data {
        assert!(!dto.mac.is_empty());
    }
}

#[test]
fn tables_are_the_fixed_five() {
    let response = get_tables();
    assert_eq!(
        response.tables,
        vec![
            "filter".to_string(),
            "mangle".to_string(),
            "nat".to_string(),
            "raw".to_string(),
            "security".to_string(),
        ]
    );
}

#[test]
fn tables_listing_is_idempotent() {
    assert_eq!(get_tables().tables, get_tables().tables);
}

#[test]
fn error_kinds_have_stable_labels() {
    assert_eq!(FwError::NotFound.kind(), "not_found");
    assert_eq!(FwError::OutOfRange.kind(), "out_of_range");
    assert_eq!(FwError::BadRequest.kind(), "bad_request");
    assert_eq!(
        FwError::SubsystemFailure("boom".to_string()).kind(),
        "subsystem_failure"
    );
}
