use unictrl::report::{
    host_is_valid, write_active_section, write_all_sections, write_invalid_host_line,
    write_login_error_line, write_login_failed_line, write_site_line, write_sites_error_line,
    write_status_line, Run, Settings, Stage, Step,
};
use unictrl::unificlient::models::{
    UnifiActiveClientsData, UnifiActiveClientsResult, UnifiAllClientsData, UnifiAllClientsResult,
    UnifiMeta, UnifiSitesData, UnifiSitesMeta, UnifiSitesResult, UnifiStatusResult,
};
use unictrl::unificlient::{Endpoint, Method, Payload, Reply, UnifiClientError};

fn settings(host: &str) -> Settings {
    Settings {
        host: String::from(host),
        username: String::from("admin"),
        password: String::from("s3cr3t"),
        domain: String::from("lan"),
    }
}

fn status(up: bool, version: &str) -> UnifiStatusResult {
    UnifiStatusResult {
        meta: UnifiMeta {
            rc: String::from("ok"),
            up,
            server_version: String::from(version),
            uuid: String::from("1f2e3d"),
        },
    }
}

fn site(name: &str) -> UnifiSitesData {
    UnifiSitesData {
        _id: String::from("5f0c"),
        name: String::from(name),
        desc: String::from("Default"),
        role: String::from("admin"),
    }
}

fn sites(data: Vec<UnifiSitesData>) -> UnifiSitesResult {
    UnifiSitesResult { meta: UnifiSitesMeta { rc: String::from("ok"), msg: None }, data }
}

fn active(mac: &str, name: Option<&str>, ip: Option<&str>) -> UnifiActiveClientsData {
    UnifiActiveClientsData {
        mac: String::from(mac),
        hostname: None,
        note: None,
        name: name.map(String::from),
        network: None,
        ip: ip.map(String::from),
        uptime: None,
    }
}

fn known(mac: &str, name: Option<&str>, ip: Option<&str>) -> UnifiAllClientsData {
    UnifiAllClientsData {
        mac: String::from(mac),
        hostname: None,
        note: None,
        name: name.map(String::from),
        network: None,
        ip: ip.map(String::from),
    }
}

fn ok(body: Payload) -> Reply {
    Reply::Received { status: 200, body: Some(body) }
}

fn address(step: &Step) -> String {
    step.request.as_ref().unwrap().address.clone()
}

/// Starts a run and takes it past an accepted login.
fn logged_in() -> Run {
    let (mut run, _) = Run::begin(settings("https://unifi:8443"));
    run.advance(ok(Payload::Status(status(true, "6.0.0"))));
    run.advance(Reply::Received { status: 200, body: None });
    run
}

#[test]
fn host_must_begin_with_http() {
    assert!(host_is_valid("http://unifi"));
    assert!(host_is_valid("https://unifi:8443"));
    assert!(host_is_valid("http"));
    assert!(!host_is_valid(""));
    assert!(!host_is_valid("unifi:8443"));
    assert!(!host_is_valid("Http://unifi"));
}

#[test]
fn line_for_an_invalid_host() {
    assert_eq!(write_invalid_host_line(""), "Controller host not set or invalid: ");
    assert_eq!(write_invalid_host_line("unifi"), "Controller host not set or invalid: unifi");
}

#[test]
fn status_line_keeps_the_stray_bracket() {
    assert_eq!(
        write_status_line("https://unifi:8443", &status(true, "6.0.0")),
        "Controller https://unifi:8443 is Up - Version: 6.0.0)"
    );
    assert_eq!(
        write_status_line("https://unifi:8443", &UnifiStatusResult::empty()),
        "Controller https://unifi:8443 is Down - Version: )"
    );
}

#[test]
fn line_for_a_login_error() {
    assert_eq!(
        write_login_error_line(UnifiClientError::AuthenticationFailure),
        "Login: Authentication failed"
    );
    assert_eq!(
        write_login_error_line(UnifiClientError::ControllerUnreachable),
        "Login: Controller unreachable"
    );
}

#[test]
fn line_for_a_failed_login_hides_the_password() {
    assert_eq!(
        write_login_failed_line("admin", "s3cr3t"),
        "Login failed for user: admin (password set: true)"
    );
    assert_eq!(write_login_failed_line("", ""), "Login failed for user:  (password set: false)");
}

#[test]
fn line_for_a_site() {
    assert_eq!(write_site_line(&site("default")), "Site: default (Default) [5f0c]");
}

#[test]
fn line_for_a_useless_site_listing() {
    assert_eq!(
        write_sites_error_line(UnifiClientError::NoSitesAvailable),
        "Sites: No sites available"
    );
}

#[test]
fn active_section_lists_the_named_clients() {
    let clients = UnifiActiveClientsResult {
        data: vec![
            active("AA:BB", Some("Printer"), Some("10.0.0.5")),
            active("AA:CC", None, Some("10.0.0.6")),
            active("AA:DD", Some("Kitchen AP"), None),
        ],
    };
    assert_eq!(
        write_active_section(&clients, "lan"),
        vec![
            String::from("# ACTIVE CLIENTS"),
            String::from("10.0.0.5         printer.lan"),
            String::from("# no ip          kitchen-ap.lan"),
        ]
    );
}

#[test]
fn active_section_of_the_placeholder_is_its_heading() {
    assert_eq!(
        write_active_section(&UnifiActiveClientsResult::empty(), "lan"),
        vec![String::from("# ACTIVE CLIENTS")]
    );
}

#[test]
fn all_sections_list_every_client_then_the_named_ones() {
    let clients = UnifiAllClientsResult {
        data: vec![
            known("AA:BB", Some("Printer"), Some("10.0.0.5")),
            known("CC:DD", Some(""), None),
        ],
    };
    assert_eq!(
        write_all_sections(&clients, "lan"),
        vec![
            String::from("# ALL CLIENTS"),
            String::from("AA:BB            10.0.0.5         Printer          n/a             "),
            String::from("CC:DD            n/a                               n/a             "),
            String::from("# ALL CLIENTS -- FILTERED"),
            String::from("10.0.0.5         printer.lan"),
        ]
    );
}

#[test]
fn all_sections_of_the_placeholder() {
    assert_eq!(
        write_all_sections(&UnifiAllClientsResult::empty(), "lan"),
        vec![
            String::from("# ALL CLIENTS"),
            " ".repeat(67),
            String::from("# ALL CLIENTS -- FILTERED"),
        ]
    );
}

#[test]
fn run_with_an_invalid_host_ends_at_once() {
    let (run, step) = Run::begin(settings("unifi:8443"));
    assert_eq!(step.lines, vec![String::from("Controller host not set or invalid: unifi:8443")]);
    assert!(step.request.is_none());
    assert!(run.is_finished());
    assert_eq!(run.stage(), Stage::Finished);
}

#[test]
fn run_with_an_empty_host_ends_at_once() {
    let (run, step) = Run::begin(settings(""));
    assert_eq!(step.lines, vec![String::from("Controller host not set or invalid: ")]);
    assert!(step.request.is_none());
    assert!(run.is_finished());
}

#[test]
fn run_begins_with_the_status() {
    let (run, step) = Run::begin(settings("https://unifi:8443"));
    assert!(step.lines.is_empty());
    let request = step.request.unwrap();
    assert_eq!(request.endpoint, Endpoint::Status);
    assert_eq!(request.method, Method::Get);
    assert_eq!(request.address, "https://unifi:8443/status");
    assert_eq!(run.stage(), Stage::Awaiting(Endpoint::Status));
    assert!(!run.is_finished());
}

#[test]
fn run_goes_on_to_the_login_whatever_the_status() {
    let (mut run, _) = Run::begin(settings("https://unifi:8443"));
    let step = run.advance(Reply::Unreachable);
    assert_eq!(step.lines, vec![String::from("Controller https://unifi:8443 is Down - Version: )")]);
    let request = step.request.unwrap();
    assert_eq!(request.endpoint, Endpoint::Login);
    assert_eq!(request.method, Method::Post);
    assert_eq!(request.address, "https://unifi:8443/api/login");
    let body = request.body.unwrap();
    assert_eq!(body.username, "admin");
    assert_eq!(body.password, "s3cr3t");
    assert_eq!(run.stage(), Stage::Awaiting(Endpoint::Login));
}

#[test]
fn run_ends_on_a_refused_login() {
    let (mut run, _) = Run::begin(settings("https://unifi:8443"));
    run.advance(ok(Payload::Status(status(true, "6.0.0"))));
    let step = run.advance(Reply::Received { status: 401, body: None });
    assert_eq!(
        step.lines,
        vec![
            String::from("Login: Authentication failed"),
            String::from("Login failed for user: admin (password set: true)"),
        ]
    );
    assert!(step.request.is_none());
    assert!(run.is_finished());
}

#[test]
fn run_ends_on_an_unreachable_login() {
    let (mut run, _) = Run::begin(settings("https://unifi:8443"));
    run.advance(Reply::Unreachable);
    let step = run.advance(Reply::Unreachable);
    assert_eq!(
        step.lines,
        vec![
            String::from("Login: Controller unreachable"),
            String::from("Login failed for user: admin (password set: true)"),
        ]
    );
    assert!(step.request.is_none());
    assert!(run.is_finished());
}

#[test]
fn run_asks_for_the_sites_after_the_login() {
    let (mut run, _) = Run::begin(settings("https://unifi:8443"));
    run.advance(ok(Payload::Status(status(true, "6.0.0"))));
    let step = run.advance(Reply::Received { status: 200, body: None });
    assert!(step.lines.is_empty());
    let request = step.request.unwrap();
    assert_eq!(request.endpoint, Endpoint::Sites);
    assert_eq!(request.address, "https://unifi:8443/api/self/sites");
    assert_eq!(run.stage(), Stage::Awaiting(Endpoint::Sites));
}

#[test]
fn run_ends_without_a_site() {
    let mut run = logged_in();
    let step = run.advance(ok(Payload::Sites(sites(Vec::new()))));
    assert_eq!(step.lines, vec![String::from("Sites: No sites available")]);
    assert!(step.request.is_none());
    assert!(run.is_finished());

    let mut run = logged_in();
    let step = run.advance(Reply::Unreachable);
    assert_eq!(step.lines, vec![String::from("Sites: No sites available")]);
    assert!(step.request.is_none());
    assert!(run.is_finished());
}

#[test]
fn run_lists_the_clients_of_the_first_site() {
    let mut run = logged_in();
    let step = run.advance(ok(Payload::Sites(sites(vec![site("main"), site("lab")]))));
    assert_eq!(step.lines, vec![String::from("Site: main (Default) [5f0c]")]);
    assert_eq!(address(&step), "https://unifi:8443/api/s/main/stat/sta");
    let step = run.advance(Reply::Unreachable);
    assert_eq!(step.lines, vec![String::from("# ACTIVE CLIENTS")]);
    assert_eq!(step.request.as_ref().unwrap().endpoint, Endpoint::AllClients);
    assert_eq!(address(&step), "https://unifi:8443/api/s/main/stat/device");
    let step = run.advance(Reply::Unreachable);
    assert_eq!(
        step.lines,
        vec![
            String::from("# ALL CLIENTS"),
            " ".repeat(67),
            String::from("# ALL CLIENTS -- FILTERED"),
        ]
    );
    assert!(step.request.is_none());
    assert!(run.is_finished());
}

#[test]
fn finished_run_asks_for_nothing() {
    let (mut run, _) = Run::begin(settings("unifi"));
    let step = run.advance(ok(Payload::Status(status(true, "6.0.0"))));
    assert!(step.lines.is_empty());
    assert!(step.request.is_none());
    assert!(run.is_finished());
    let step = run.advance(Reply::Unreachable);
    assert!(step.lines.is_empty());
    assert!(step.request.is_none());
}

#[test]
fn reply_of_another_shape_counts_as_unreadable() {
    let (mut run, _) = Run::begin(settings("https://unifi:8443"));
    let step = run.advance(ok(Payload::Sites(sites(vec![site("default")]))));
    assert_eq!(step.lines, vec![String::from("Controller https://unifi:8443 is Down - Version: )")]);
    assert_eq!(run.stage(), Stage::Awaiting(Endpoint::Login));
}

#[test]
fn run_against_a_mock_controller() {
    let mut printed: Vec<String> = Vec::new();
    let mut asked: Vec<(Method, String)> = Vec::new();
    let (mut run, mut step) = Run::begin(settings("https://unifi:8443"));
    loop {
        printed.append(&mut step.lines);
        let request = match step.request {
            Some(request) => request,
            None => break,
        };
        asked.push((request.method, request.address.clone()));
        let reply = match request.endpoint {
            Endpoint::Status => ok(Payload::Status(status(true, "6.0.0"))),
            Endpoint::Login => Reply::Received { status: 200, body: None },
            Endpoint::Sites => ok(Payload::Sites(sites(vec![site("default")]))),
            Endpoint::ActiveClients => ok(Payload::ActiveClients(UnifiActiveClientsResult {
                data: vec![active("AA:BB", Some("Printer"), Some("10.0.0.5"))],
            })),
            Endpoint::AllClients => ok(Payload::AllClients(UnifiAllClientsResult {
                data: vec![known("AA:BB", Some("Printer"), Some("10.0.0.5"))],
            })),
        };
        step = run.advance(reply);
    }
    assert!(run.is_finished());
    assert_eq!(
        asked,
        vec![
            (Method::Get, String::from("https://unifi:8443/status")),
            (Method::Post, String::from("https://unifi:8443/api/login")),
            (Method::Get, String::from("https://unifi:8443/api/self/sites")),
            (Method::Get, String::from("https://unifi:8443/api/s/default/stat/sta")),
            (Method::Get, String::from("https://unifi:8443/api/s/default/stat/device")),
        ]
    );
    assert!(printed[0].contains("Up"));
    assert!(printed[0].contains("6.0.0"));
    assert!(printed[1].contains("default"));
    let heading = printed.iter().position(|line| line == "# ACTIVE CLIENTS").unwrap();
    assert!(printed[heading + 1].contains("10.0.0.5"));
    assert!(printed[heading + 1].contains("printer.lan"));
    assert_eq!(
        printed,
        vec![
            String::from("Controller https://unifi:8443 is Up - Version: 6.0.0)"),
            String::from("Site: default (Default) [5f0c]"),
            String::from("# ACTIVE CLIENTS"),
            String::from("10.0.0.5         printer.lan"),
            String::from("# ALL CLIENTS"),
            String::from("AA:BB            10.0.0.5         Printer          n/a             "),
            String::from("# ALL CLIENTS -- FILTERED"),
            String::from("10.0.0.5         printer.lan"),
        ]
    );
}

#[test]
fn settings_take_the_values_that_are_set() {
    let settings = Settings::from_values(
        Some(String::from("https://unifi:8443")),
        Some(String::from("admin")),
        Some(String::from("s3cr3t")),
        Some(String::from("lan")),
    );
    assert_eq!(settings.host, "https://unifi:8443");
    assert_eq!(settings.username, "admin");
    assert_eq!(settings.password, "s3cr3t");
    assert_eq!(settings.domain, "lan");
}

#[test]
fn settings_that_are_not_set_are_empty() {
    let settings = Settings::from_values(None, Some(String::from("admin")), None, None);
    assert_eq!(settings.host, "");
    assert_eq!(settings.username, "admin");
    assert_eq!(settings.password, "");
    assert_eq!(settings.domain, "");
    let (run, step) = Run::begin(settings);
    assert_eq!(step.lines, vec![String::from("Controller host not set or invalid: ")]);
    assert!(run.is_finished());
}

#[test]
fn run_hands_out_its_client() {
    let (run, _) = Run::begin(settings("https://unifi:8443"));
    assert_eq!(run.client().host(), "https://unifi:8443");
}
