use unictrl::unificlient::models::{
    client_row, UnifiActiveClientsData, UnifiActiveClientsResult, UnifiAllClientsData,
    UnifiAllClientsResult, UnifiSitesResult, UnifiStatusResult, COLUMN_WIDTH,
};

fn text(s: &str) -> Option<String> {
    Some(String::from(s))
}

#[test]
fn empty_status_is_down_with_empty_texts() {
    let status = UnifiStatusResult::empty();
    assert_eq!(status.meta.rc, "");
    assert!(!status.meta.up);
    assert_eq!(status.meta.server_version, "");
    assert_eq!(status.meta.uuid, "");
}

#[test]
fn empty_sites_hold_no_site() {
    let sites = UnifiSitesResult::empty();
    assert_eq!(sites.meta.rc, "");
    assert_eq!(sites.meta.msg, text(""));
    assert!(sites.data.is_empty());
}

#[test]
fn empty_active_clients_hold_the_placeholder() {
    let clients = UnifiActiveClientsResult::empty();
    assert_eq!(clients.data.len(), 1);
    let blank = &clients.data[0];
    assert_eq!(blank.mac, "");
    assert_eq!(blank.hostname, text(""));
    assert_eq!(blank.note, text(""));
    assert_eq!(blank.name, text(""));
    assert_eq!(blank.network, text(""));
    assert_eq!(blank.ip, text(""));
    assert_eq!(blank.uptime, Some(0));
}

#[test]
fn empty_all_clients_hold_the_placeholder() {
    let clients = UnifiAllClientsResult::empty();
    assert_eq!(clients.data.len(), 1);
    let blank = &clients.data[0];
    assert_eq!(blank.mac, "");
    assert_eq!(blank.hostname, text(""));
    assert_eq!(blank.note, text(""));
    assert_eq!(blank.name, text(""));
    assert_eq!(blank.network, text(""));
    assert_eq!(blank.ip, text(""));
}

#[test]
fn column_width_is_sixteen() {
    assert_eq!(COLUMN_WIDTH, 16);
}

#[test]
fn client_row_has_four_columns() {
    let row = client_row("AA:BB", &text("10.0.0.5"), &text("Printer"), &text("first floor"));
    assert_eq!(row, "AA:BB            10.0.0.5         Printer          first floor     ");
    assert_eq!(
        row,
        format!("{:<16} {:<16} {:<16} {:<16}", "AA:BB", "10.0.0.5", "Printer", "first floor")
    );
}

#[test]
fn client_row_writes_n_a_for_a_missing_field() {
    let row = client_row("AA:BB", &None, &None, &None);
    assert_eq!(row, "AA:BB            n/a              n/a              n/a             ");
    assert_eq!(row, format!("{:<16} {:<16} {:<16} {:<16}", "AA:BB", "n/a", "n/a", "n/a"));
}

#[test]
fn client_row_keeps_an_empty_field_empty() {
    let row = client_row("", &text(""), &text(""), &text(""));
    assert_eq!(row, format!("{:<16} {:<16} {:<16} {:<16}", "", "", "", ""));
    assert_eq!(row.len(), 4 * 16 + 3);
}

#[test]
fn client_row_does_not_cut_a_long_field() {
    let row = client_row(
        "aa:bb:cc:dd:ee:ff",
        &text("192.168.100.200"),
        &text("a name longer than a column"),
        &None,
    );
    assert_eq!(
        row,
        "aa:bb:cc:dd:ee:ff 192.168.100.200  a name longer than a column n/a             "
    );
}

#[test]
fn active_client_line() {
    let client = UnifiActiveClientsData {
        mac: String::from("AA:BB"),
        hostname: text("printer"),
        note: None,
        name: text("Printer"),
        network: text("LAN"),
        ip: text("10.0.0.5"),
        uptime: Some(3600),
    };
    assert_eq!(
        client.render(),
        "AA:BB            10.0.0.5         Printer          n/a             "
    );
}

#[test]
fn inventory_client_line() {
    let client = UnifiAllClientsData {
        mac: String::from("CC:DD"),
        hostname: None,
        note: text("uplink"),
        name: None,
        network: None,
        ip: None,
    };
    assert_eq!(
        client.render(),
        "CC:DD            n/a              n/a              uplink          "
    );
}

#[test]
fn placeholder_line_is_blank() {
    let clients = UnifiAllClientsResult::empty();
    assert_eq!(clients.data[0].render(), " ".repeat(4 * 16 + 3));
}
