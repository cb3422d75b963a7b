use unictrl::hosts::{
    active_host_records, all_host_records, join_local_name, make_local_name, HostRecord,
};
use unictrl::unificlient::models::{UnifiActiveClientsData, UnifiAllClientsData};

fn text(s: &str) -> Option<String> {
    Some(String::from(s))
}

fn active(mac: &str, name: Option<String>, ip: Option<String>) -> UnifiActiveClientsData {
    UnifiActiveClientsData {
        mac: String::from(mac),
        hostname: None,
        note: None,
        name,
        network: None,
        ip,
        uptime: None,
    }
}

fn known(mac: &str, name: Option<String>, ip: Option<String>) -> UnifiAllClientsData {
    UnifiAllClientsData { mac: String::from(mac), hostname: None, note: None, name, network: None, ip }
}

#[test]
fn local_name_of_kitchen_ap() {
    assert_eq!(make_local_name("Kitchen AP", "lan"), "kitchen-ap.lan");
}

#[test]
fn local_name_is_lowercase_hyphenated_dot_domain() {
    for (name, domain) in [
        ("Printer", "home.arpa"),
        ("Living Room TV", "lan"),
        ("  Two  Spaces ", "lan"),
        ("already-lower", ""),
        ("", "lan"),
        ("ÄÖÜ Gerät", "local"),
    ] {
        let expected = format!("{}.{}", name.to_lowercase().replace(' ', "-"), domain);
        assert_eq!(make_local_name(name, domain), expected);
    }
}

#[test]
fn local_name_exact_values() {
    assert_eq!(make_local_name("Printer", "home.arpa"), "printer.home.arpa");
    assert_eq!(make_local_name("Living Room TV", "lan"), "living-room-tv.lan");
    assert_eq!(make_local_name("  Two  Spaces ", "lan"), "--two--spaces-.lan");
    assert_eq!(make_local_name("", "lan"), ".lan");
    assert_eq!(make_local_name("NAS", ""), "nas.");
    assert_eq!(make_local_name("ÄÖÜ Gerät", "local"), "äöü-gerät.local");
}

#[test]
fn local_name_lowers_the_name_only() {
    assert_eq!(make_local_name("NAS", "LAN"), "nas.LAN");
}

#[test]
fn join_local_name_does_not_lower() {
    assert_eq!(join_local_name("kitchen ap", "lan"), "kitchen-ap.lan");
    assert_eq!(join_local_name("Kitchen AP", "lan"), "Kitchen-AP.lan");
}

#[test]
fn host_record_line_has_the_address_column_first() {
    let record =
        HostRecord { dns_name: String::from("printer.lan"), ip_addr: String::from("10.0.0.5") };
    assert_eq!(record.render(), "10.0.0.5         printer.lan");
    assert_eq!(record.render(), format!("{:<16} {}", "10.0.0.5", "printer.lan"));
}

#[test]
fn host_record_line_with_a_long_address() {
    let record = HostRecord {
        dns_name: String::from("cam.lan"),
        ip_addr: String::from("fe80::1234:5678:9abc:def0"),
    };
    assert_eq!(record.render(), "fe80::1234:5678:9abc:def0 cam.lan");
}

#[test]
fn client_without_a_name_has_no_host_record() {
    assert!(HostRecord::of_client(&None, &text("10.0.0.5"), "lan").is_none());
}

#[test]
fn client_with_an_empty_name_has_no_host_record() {
    assert!(HostRecord::of_client(&text(""), &text("10.0.0.5"), "lan").is_none());
}

#[test]
fn client_named_office_pc_has_a_host_record() {
    let record = HostRecord::of_client(&text("office-pc"), &text("10.0.0.7"), "lan").unwrap();
    assert_eq!(record.dns_name, "office-pc.lan");
    assert_eq!(record.ip_addr, "10.0.0.7");
}

#[test]
fn client_name_is_not_trimmed() {
    let record = HostRecord::of_client(&text(" "), &text("10.0.0.8"), "lan").unwrap();
    assert_eq!(record.dns_name, "-.lan");
}

#[test]
fn missing_ip_is_written_as_no_ip() {
    let record = HostRecord::of_client(&text("Printer"), &None, "lan").unwrap();
    assert_eq!(record.ip_addr, "# no ip");
    assert_eq!(record.dns_name, "printer.lan");
    assert_eq!(record.render(), "# no ip          printer.lan");
}

#[test]
fn empty_ip_is_kept_as_it_is() {
    let record = HostRecord::of_client(&text("Printer"), &text(""), "lan").unwrap();
    assert_eq!(record.ip_addr, "");
}

#[test]
fn active_listing_keeps_the_named_clients_in_order() {
    let clients = vec![
        active("aa:01", text("Printer"), text("10.0.0.5")),
        active("aa:02", None, text("10.0.0.6")),
        active("aa:03", text(""), text("10.0.0.7")),
        active("aa:04", text("office-pc"), None),
        active("aa:05", text("Kitchen AP"), text("10.0.0.9")),
    ];
    let records = active_host_records(&clients, "lan");
    let got: Vec<(String, String)> =
        records.iter().map(|r| (r.dns_name.clone(), r.ip_addr.clone())).collect();
    assert_eq!(
        got,
        vec![
            (String::from("printer.lan"), String::from("10.0.0.5")),
            (String::from("office-pc.lan"), String::from("# no ip")),
            (String::from("kitchen-ap.lan"), String::from("10.0.0.9")),
        ]
    );
}

#[test]
fn active_listing_of_nothing_is_empty() {
    assert!(active_host_records(&Vec::new(), "lan").is_empty());
    let nameless = vec![active("aa:01", None, None), active("aa:02", text(""), None)];
    assert!(active_host_records(&nameless, "lan").is_empty());
}

#[test]
fn inventory_listing_keeps_the_named_clients_in_order() {
    let clients = vec![
        known("bb:01", text(""), text("10.0.1.1")),
        known("bb:02", text("Switch 8"), text("10.0.1.2")),
        known("bb:03", None, None),
        known("bb:04", text("Switch 8"), None),
    ];
    let records = all_host_records(&clients, "net");
    let got: Vec<(String, String)> =
        records.iter().map(|r| (r.dns_name.clone(), r.ip_addr.clone())).collect();
    assert_eq!(
        got,
        vec![
            (String::from("switch-8.net"), String::from("10.0.1.2")),
            (String::from("switch-8.net"), String::from("# no ip")),
        ]
    );
}
