use deskmsg::ble::{scan_filter, scan_filter_from, scan_start, select_characteristic, GattService};
use deskmsg::discovery::{DiscoveryCollector, MdnsEvent, NapiProperty, NapiServiceInfo};

#[test]
fn no_filter_scans_everything() {
    assert!(scan_filter(None).unwrap().is_empty());
}

#[test]
fn filter_parses_uuid() {
    let v = scan_filter(Some("00001800-0000-1000-8000-00805f9b34fb")).unwrap();
    assert_eq!(v, vec![0x00001800_0000_1000_8000_00805f9b34fbu128]);
    let v = scan_filter(Some("{00001800-0000-1000-8000-00805F9B34FB}")).unwrap();
    assert_eq!(v, vec![0x00001800_0000_1000_8000_00805f9b34fbu128]);
}

#[test]
fn bad_filter_is_refused() {
    let m = scan_filter(Some("not-a-uuid")).unwrap_err();
    assert!(m.starts_with("Invalid service UUID string 'not-a-uuid': "));
    assert!(m.len() > "Invalid service UUID string 'not-a-uuid': ".len());
}

#[test]
fn filter_from_parse_result() {
    assert_eq!(scan_filter_from("x", Ok(7)).unwrap(), vec![7u128]);
    assert_eq!(
        scan_filter_from("x", Err("bad".to_string())).unwrap_err(),
        "Invalid service UUID string 'x': bad"
    );
}

fn svc(uuid: &str, chars: &[&str]) -> GattService {
    GattService { uuid: uuid.to_string(), characteristics: chars.iter().map(|c| c.to_string()).collect() }
}

#[test]
fn first_matching_characteristic_is_chosen() {
    let services = vec![
        svc("00001800-0000", &["00002a00", "00002a01"]),
        svc("0000ffe0-0000", &["0000ffe2", "0000ffe1", "0000ffe1-b"]),
        svc("0000ffe0-0001", &["0000ffe1"]),
    ];
    assert_eq!(select_characteristic(&services, "ffe0", "ffe1").unwrap(), (1, 1));
    assert_eq!(select_characteristic(&services, "", "2a01").unwrap(), (0, 1));
}

#[test]
fn later_service_is_searched_when_first_has_no_characteristic() {
    let services = vec![svc("ffe0-a", &["1111"]), svc("ffe0-b", &["ffe1"])];
    assert_eq!(select_characteristic(&services, "ffe0", "ffe1").unwrap(), (1, 0));
}

#[test]
fn nothing_matches() {
    let services = vec![svc("ffe0", &["ffe1"])];
    assert_eq!(
        select_characteristic(&services, "abcd", "ffe1").unwrap_err(),
        "No service or characteristic found."
    );
    assert!(select_characteristic(&vec![], "", "").is_err());
}

fn info(name: &str) -> NapiServiceInfo {
    NapiServiceInfo {
        fullname: format!("{}._tiny-protocol._tcp.local.", name),
        hostname: "tiny-protocol-hostname.local.".to_string(),
        port: 3456,
        addresses: vec!["192.168.1.2".to_string()],
        properties: vec![NapiProperty { key: "Pa1".to_string(), value: "three".to_string() }],
    }
}

#[test]
fn collector_keeps_resolved_services_in_order() {
    let mut c = DiscoveryCollector::new();
    assert!(c.on_event(Some(MdnsEvent::Other)));
    assert!(c.on_event(Some(MdnsEvent::ServiceResolved(info("a")))));
    assert!(c.on_event(Some(MdnsEvent::Other)));
    assert!(c.on_event(Some(MdnsEvent::ServiceResolved(info("b")))));
    assert!(!c.on_event(None));
    let found = c.into_found();
    assert_eq!(found.len(), 2);
    assert_eq!(found[0].fullname, "a._tiny-protocol._tcp.local.");
    assert_eq!(found[1].fullname, "b._tiny-protocol._tcp.local.");
    assert_eq!(found[1].port, 3456);
}

#[test]
fn collector_stops_on_timeout() {
    let mut c = DiscoveryCollector::new();
    assert!(!c.on_event(None));
    assert!(c.into_found().is_empty());
}

#[test]
fn no_adapter_means_no_scan() {
    assert!(scan_start(false, Some("not-a-uuid")).unwrap().is_none());
    assert!(scan_start(false, None).unwrap().is_none());
}

#[test]
fn adapter_scan_uses_filter() {
    assert!(scan_start(true, None).unwrap().unwrap().is_empty());
    assert_eq!(
        scan_start(true, Some("00001800-0000-1000-8000-00805f9b34fb")).unwrap().unwrap(),
        vec![0x00001800_0000_1000_8000_00805f9b34fbu128]
    );
    assert!(scan_start(true, Some("xyz")).is_err());
}

#[test]
fn browse_that_did_not_open_fails() {
    assert!(DiscoveryCollector::begin(false).err() == Some(deskmsg::ErrorCode::MDNSInitFailure));
    let c = DiscoveryCollector::begin(true).ok().unwrap();
    assert!(c.into_found().is_empty());
}
