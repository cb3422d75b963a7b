//! One run of the report: which request follows which reply, and the lines
//! that each reply adds to the output.
//!
//! The run is a state machine. The caller prints the lines of each step,
//! sends the step's request, and hands the reply back, until a step carries
//! no request.

use vstd::prelude::*;

use crate::hosts::{
    active_host_records, all_host_records, host_listing, HostRecord, HostRecordView,
};
use crate::text::starts_with;
use crate::unificlient::models::{
    ClientRecordView, ClientsResultView, UnifiActiveClientsResult, UnifiAllClientsData,
    UnifiAllClientsResult, UnifiSitesData, UnifiSitesDataView, UnifiSitesResultView,
    UnifiStatusResult, UnifiStatusResultView, UnifiUserView,
};
use crate::unificlient::{
    Endpoint, Reply, ReplyView, Request, RequestView, UnifiClient, UnifiClientError,
};

verus! {

/// What a run needs to know: the controller's base address, the account,
/// and the domain of the local names.
#[derive(Debug)]
pub struct Settings {
    pub host: String,
    pub username: String,
    pub password: String,
    pub domain: String,
}

/// The mathematical view of a [`Settings`].
pub struct SettingsView {
    pub host: Seq<char>,
    pub username: Seq<char>,
    pub password: Seq<char>,
    pub domain: Seq<char>,
}

impl View for Settings {
    type V = SettingsView;

    open spec fn view(&self) -> SettingsView {
        SettingsView {
            host: self.host@,
            username: self.username@,
            password: self.password@,
            domain: self.domain@,
        }
    }
}

/// A configured value, or the empty text where none is set.
pub open spec fn value_or_empty(value: Option<Seq<char>>) -> Seq<char> {
    match value {
        Some(text) => text,
        None => Seq::empty(),
    }
}

impl Settings {
    /// The settings made of the four configured values. A value that is not
    /// set counts as the empty text.
    pub fn from_values(
        host: Option<String>,
        username: Option<String>,
        password: Option<String>,
        domain: Option<String>,
    ) -> (r: Settings)
        ensures
            r@ == (SettingsView {
                host: value_or_empty(host.deep_view()),
                username: value_or_empty(username.deep_view()),
                password: value_or_empty(password.deep_view()),
                domain: value_or_empty(domain.deep_view()),
            }),
    {
        Settings {
            host: set_or_empty(host),
            username: set_or_empty(username),
            password: set_or_empty(password),
            domain: set_or_empty(domain),
        }
    }
}

/// The value, or the empty text where none is set.
fn set_or_empty(value: Option<String>) -> (r: String)
    ensures
        r@ == value_or_empty(value.deep_view()),
{
    match value {
        Some(text) => text,
        None => String::new(),
    }
}

/// A base address is taken for one when it begins with `http`.
pub open spec fn is_controller_address(host: Seq<char>) -> bool {
    "http"@.is_prefix_of(host)
}

/// The line for a base address that is not one.
pub open spec fn invalid_host_line(host: Seq<char>) -> Seq<char> {
    "Controller host not set or invalid: "@ + host
}

/// The line that tells whether the controller is up, and its version. The
/// closing bracket without an opening one belongs to the line.
pub open spec fn status_line(host: Seq<char>, up: bool, version: Seq<char>) -> Seq<char> {
    "Controller "@ + host + " is "@ + (if up {
        "Up"@
    } else {
        "Down"@
    }) + " - Version: "@ + version + ")"@
}

/// The line for a login that ended in an error.
pub open spec fn login_error_line(error: UnifiClientError) -> Seq<char> {
    "Login: "@ + error.text()
}

/// The line for a login that did not authenticate the user. It tells
/// whether a password was set, never the password.
pub open spec fn login_failed_line(username: Seq<char>, password: Seq<char>) -> Seq<char> {
    "Login failed for user: "@ + username + " (password set: "@ + (if password.len() > 0 {
        "true"@
    } else {
        "false"@
    }) + ")"@
}

/// The line for a site listing that cannot be used.
pub open spec fn sites_error_line(error: UnifiClientError) -> Seq<char> {
    "Sites: "@ + error.text()
}

/// The line that identifies the site of the listings.
pub open spec fn site_line(site: UnifiSitesDataView) -> Seq<char> {
    "Site: "@ + site.name + " ("@ + site.desc + ") ["@ + site._id + "]"@
}

/// The lines of a host listing, one for each record.
pub open spec fn host_lines(records: Seq<HostRecordView>) -> Seq<Seq<char>> {
    records.map_values(|r: HostRecordView| r.line())
}

/// The lines of a client listing, one for each record.
pub open spec fn client_lines(clients: Seq<ClientRecordView>) -> Seq<Seq<char>> {
    clients.map_values(|c: ClientRecordView| c.line())
}

/// The section of the active clients: its heading, then the host records of
/// the clients that have one.
pub open spec fn active_section(clients: Seq<ClientRecordView>, domain: Seq<char>) -> Seq<
    Seq<char>,
> {
    seq!["# ACTIVE CLIENTS"@] + host_lines(host_listing(clients, domain))
}

/// The two sections of the inventory: every client under the first heading,
/// then, under the second, the host records of the clients that have one.
pub open spec fn all_sections(clients: Seq<ClientRecordView>, domain: Seq<char>) -> Seq<
    Seq<char>,
> {
    seq!["# ALL CLIENTS"@] + client_lines(clients) + seq!["# ALL CLIENTS -- FILTERED"@]
        + host_lines(host_listing(clients, domain))
}

/// Whether `host` can be the base address of a controller.
pub fn host_is_valid(host: &str) -> (r: bool)
    ensures
        r == is_controller_address(host@),
{
    starts_with(host, "http")
}

/// Writes the line for a base address that is not one.
pub fn write_invalid_host_line(host: &str) -> (r: String)
    ensures
        r@ == invalid_host_line(host@),
{
    let mut out: String = "Controller host not set or invalid: ".to_owned();
    out.append(host);
    out
}

/// Writes the status line of the controller at `host`.
pub fn write_status_line(host: &str, status: &UnifiStatusResult) -> (r: String)
    ensures
        r@ == status_line(host@, status@.meta.up, status@.meta.server_version),
{
    let mut out: String = "Controller ".to_owned();
    out.append(host);
    out.append(" is ");
    if status.meta.up {
        out.append("Up");
    } else {
        out.append("Down");
    }
    out.append(" - Version: ");
    out.append(status.meta.server_version.as_str());
    out.append(")");
    out
}

/// Writes the line for a login that ended in `error`.
pub fn write_login_error_line(error: UnifiClientError) -> (r: String)
    ensures
        r@ == login_error_line(error),
{
    let mut out: String = "Login: ".to_owned();
    let message: String = error.message();
    out.append(message.as_str());
    out
}

/// Writes the line for a login that did not authenticate `username`.
pub fn write_login_failed_line(username: &str, password: &str) -> (r: String)
    ensures
        r@ == login_failed_line(username@, password@),
{
    let mut out: String = "Login failed for user: ".to_owned();
    out.append(username);
    out.append(" (password set: ");
    if password.is_empty() {
        out.append("false");
    } else {
        out.append("true");
    }
    out.append(")");
    out
}

/// Writes the line for a site listing that cannot be used because of
/// `error`.
pub fn write_sites_error_line(error: UnifiClientError) -> (r: String)
    ensures
        r@ == sites_error_line(error),
{
    let mut out: String = "Sites: ".to_owned();
    let message: String = error.message();
    out.append(message.as_str());
    out
}

/// Writes the line that identifies `site`.
pub fn write_site_line(site: &UnifiSitesData) -> (r: String)
    ensures
        r@ == site_line(site@),
{
    let mut out: String = "Site: ".to_owned();
    out.append(site.name.as_str());
    out.append(" (");
    out.append(site.desc.as_str());
    out.append(") [");
    out.append(site._id.as_str());
    out.append("]");
    out
}

/// Adds one line for each of `records` to `lines`.
fn push_host_lines(lines: &mut Vec<String>, records: &Vec<HostRecord>)
    ensures
        final(lines).deep_view() == old(lines).deep_view() + host_lines(records.deep_view()),
{
    let ghost before = lines.deep_view();
    let mut i: usize = 0;
    assert(lines.deep_view() =~= before + host_lines(records.deep_view().take(0)));
    while i < records.len()
        invariant
            i <= records.len(),
            lines.deep_view() == before + host_lines(records.deep_view().take(i as int)),
        decreases records.len() - i,
    {
        let ghost so_far = lines.deep_view();
        let line: String = records[i].render();
        lines.push(line);
        assert(lines.deep_view() =~= so_far.push(line@));
        assert(host_lines(records.deep_view().take(i + 1)) =~= host_lines(
            records.deep_view().take(i as int),
        ).push(records[i as int]@.line()));
        i = i + 1;
    }
    assert(records.deep_view().take(i as int) =~= records.deep_view());
}

/// Adds one line for each of `clients` to `lines`.
fn push_client_lines(lines: &mut Vec<String>, clients: &Vec<UnifiAllClientsData>)
    ensures
        final(lines).deep_view() == old(lines).deep_view() + client_lines(clients.deep_view()),
{
    let ghost before = lines.deep_view();
    let mut i: usize = 0;
    assert(lines.deep_view() =~= before + client_lines(clients.deep_view().take(0)));
    while i < clients.len()
        invariant
            i <= clients.len(),
            lines.deep_view() == before + client_lines(clients.deep_view().take(i as int)),
        decreases clients.len() - i,
    {
        let ghost so_far = lines.deep_view();
        let line: String = clients[i].render();
        lines.push(line);
        assert(lines.deep_view() =~= so_far.push(line@));
        assert(client_lines(clients.deep_view().take(i + 1)) =~= client_lines(
            clients.deep_view().take(i as int),
        ).push(clients[i as int]@.line()));
        i = i + 1;
    }
    assert(clients.deep_view().take(i as int) =~= clients.deep_view());
}

/// Writes the section of the active clients.
pub fn write_active_section(clients: &UnifiActiveClientsResult, domain: &str) -> (r: Vec<String>)
    ensures
        r.deep_view() == active_section(clients@.data, domain@),
{
    let records: Vec<HostRecord> = active_host_records(&clients.data, domain);
    let mut lines: Vec<String> = Vec::new();
    lines.push("# ACTIVE CLIENTS".to_owned());
    assert(lines.deep_view() =~= seq!["# ACTIVE CLIENTS"@]);
    push_host_lines(&mut lines, &records);
    lines
}

/// Writes the two sections of the inventory.
pub fn write_all_sections(clients: &UnifiAllClientsResult, domain: &str) -> (r: Vec<String>)
    ensures
        r.deep_view() == all_sections(clients@.data, domain@),
{
    let records: Vec<HostRecord> = all_host_records(&clients.data, domain);
    let mut lines: Vec<String> = Vec::new();
    lines.push("# ALL CLIENTS".to_owned());
    assert(lines.deep_view() =~= seq!["# ALL CLIENTS"@]);
    push_client_lines(&mut lines, &clients.data);
    let ghost listed = lines.deep_view();
    lines.push("# ALL CLIENTS -- FILTERED".to_owned());
    assert(lines.deep_view() =~= listed + seq!["# ALL CLIENTS -- FILTERED"@]);
    push_host_lines(&mut lines, &records);
    lines
}

/// Where a run stands.
#[derive(Clone, Copy, Debug, PartialEq, Eq, Structural)]
pub enum Stage {
    /// The request to the endpoint was handed out; its reply is awaited.
    Awaiting(Endpoint),
    /// Nothing more will be sent.
    Finished,
}

/// What the caller does next: print the lines, then send the request. A
/// step without a request is the last.
#[derive(Debug)]
pub struct Step {
    pub lines: Vec<String>,
    pub request: Option<Request>,
}

/// The mathematical view of a [`Step`].
#[verifier::ext_equal]
pub struct StepView {
    pub lines: Seq<Seq<char>>,
    pub request: Option<RequestView>,
}

impl View for Step {
    type V = StepView;

    open spec fn view(&self) -> StepView {
        StepView {
            lines: self.lines.deep_view(),
            request: match self.request {
                Some(request) => Some(request@),
                None => None,
            },
        }
    }
}

impl StepView {
    /// The step that ends a run with `lines`.
    pub open spec fn last(lines: Seq<Seq<char>>) -> StepView {
        StepView { lines, request: None }
    }

    /// The step that prints `lines` and goes on with `request`.
    pub open spec fn next(lines: Seq<Seq<char>>, request: RequestView) -> StepView {
        StepView { lines, request: Some(request) }
    }
}

/// A run: its settings, where it stands, and the site of its listings, which
/// is known once the site listing was read.
pub struct RunView {
    pub settings: SettingsView,
    pub stage: Stage,
    pub site: Seq<char>,
}

impl RunView {
    /// The run at another stage.
    pub open spec fn at(self, stage: Stage) -> RunView {
        RunView { stage, ..self }
    }

    /// The request to `endpoint` of this run's controller, on this run's
    /// site.
    pub open spec fn request(self, endpoint: Endpoint) -> RequestView {
        RequestView::to(
            self.settings.host,
            endpoint,
            self.site,
            if endpoint == Endpoint::Login {
                Some(
                    UnifiUserView {
                        username: self.settings.username,
                        password: self.settings.password,
                    },
                )
            } else {
                None
            },
        )
    }

    /// The start of a run. A base address that is not one ends it at once,
    /// with one line; otherwise the status is asked for.
    pub open spec fn begin(settings: SettingsView) -> (RunView, StepView) {
        let run = RunView { settings, stage: Stage::Finished, site: Seq::empty() };
        if is_controller_address(settings.host) {
            (
                run.at(Stage::Awaiting(Endpoint::Status)),
                StepView::next(Seq::empty(), run.request(Endpoint::Status)),
            )
        } else {
            (run, StepView::last(seq![invalid_host_line(settings.host)]))
        }
    }

    /// After the status: its line is printed, whatever the reply was, and
    /// the login follows.
    pub open spec fn after_status(self, reply: ReplyView) -> (RunView, StepView) {
        let status = match reply.status() {
            Ok(v) => v,
            Err(_) => UnifiStatusResultView::empty(),
        };
        (
            self.at(Stage::Awaiting(Endpoint::Login)),
            StepView::next(
                seq![status_line(self.settings.host, status.meta.up, status.meta.server_version)],
                self.request(Endpoint::Login),
            ),
        )
    }

    /// After the login: an accepted login goes on to the sites without a
    /// line; anything else ends the run, an error with a line of its own
    /// before the line that names the user.
    pub open spec fn after_login(self, reply: ReplyView) -> (RunView, StepView) {
        let failed = login_failed_line(self.settings.username, self.settings.password);
        match reply.login() {
            Ok(true) => (
                self.at(Stage::Awaiting(Endpoint::Sites)),
                StepView::next(Seq::empty(), self.request(Endpoint::Sites)),
            ),
            Ok(false) => (self.at(Stage::Finished), StepView::last(seq![failed])),
            Err(error) => (
                self.at(Stage::Finished),
                StepView::last(seq![login_error_line(error), failed]),
            ),
        }
    }

    /// After the sites: the first site becomes the site of the listings and
    /// its line is printed; a listing without a site ends the run.
    pub open spec fn after_sites(self, reply: ReplyView) -> (RunView, StepView) {
        let sites = match reply.sites() {
            Ok(v) => v,
            Err(_) => UnifiSitesResultView::empty(),
        };
        if sites.data.len() == 0 {
            (
                self.at(Stage::Finished),
                StepView::last(seq![sites_error_line(UnifiClientError::NoSitesAvailable)]),
            )
        } else {
            let run = RunView {
                stage: Stage::Awaiting(Endpoint::ActiveClients),
                site: sites.data[0].name,
                ..self
            };
            (
                run,
                StepView::next(seq![site_line(sites.data[0])], run.request(Endpoint::ActiveClients)),
            )
        }
    }

    /// After the active clients: their section is printed and the inventory
    /// is asked for.
    pub open spec fn after_active_clients(self, reply: ReplyView) -> (RunView, StepView) {
        let clients = match reply.active_clients() {
            Ok(v) => v,
            Err(_) => ClientsResultView::placeholder(Some(0i32)),
        };
        (
            self.at(Stage::Awaiting(Endpoint::AllClients)),
            StepView::next(
                active_section(clients.data, self.settings.domain),
                self.request(Endpoint::AllClients),
            ),
        )
    }

    /// After the inventory: its two sections are printed and the run ends.
    pub open spec fn after_all_clients(self, reply: ReplyView) -> (RunView, StepView) {
        let clients = match reply.all_clients() {
            Ok(v) => v,
            Err(_) => ClientsResultView::placeholder(None),
        };
        (
            self.at(Stage::Finished),
            StepView::last(all_sections(clients.data, self.settings.domain)),
        )
    }

    /// The run after `reply`, and the step that the reply leads to. A
    /// finished run stays as it is and asks for nothing.
    pub open spec fn advance(self, reply: ReplyView) -> (RunView, StepView) {
        match self.stage {
            Stage::Finished => (self, StepView::last(Seq::empty())),
            Stage::Awaiting(Endpoint::Status) => self.after_status(reply),
            Stage::Awaiting(Endpoint::Login) => self.after_login(reply),
            Stage::Awaiting(Endpoint::Sites) => self.after_sites(reply),
            Stage::Awaiting(Endpoint::ActiveClients) => self.after_active_clients(reply),
            Stage::Awaiting(Endpoint::AllClients) => self.after_all_clients(reply),
        }
    }
}

/// The place of an endpoint in the order in which a run calls them.
pub open spec fn position(endpoint: Endpoint) -> nat {
    match endpoint {
        Endpoint::Status => 0,
        Endpoint::Login => 1,
        Endpoint::Sites => 2,
        Endpoint::ActiveClients => 3,
        Endpoint::AllClients => 4,
    }
}

/// A run sends its first request exactly when its base address is one: the
/// request for the status, with no line before it. Otherwise it is finished
/// from the start, with the one line that names the address.
pub proof fn lemma_begin_checks_the_address(settings: SettingsView)
    ensures
        ({
            let (run, step) = RunView::begin(settings);
            &&& run.settings == settings
            &&& step.request is Some <==> is_controller_address(settings.host)
            &&& is_controller_address(settings.host) ==> {
                &&& run.stage == Stage::Awaiting(Endpoint::Status)
                &&& step.request == Some(run.request(Endpoint::Status))
                &&& step.lines.len() == 0
            }
            &&& !is_controller_address(settings.host) ==> {
                &&& run.stage == Stage::Finished
                &&& step.lines == seq![invalid_host_line(settings.host)]
            }
        }),
{
}

/// A run only goes forward. Each reply leads to the end of the run or to the
/// request for the next endpoint in order, sent to the run's own controller;
/// a step carries a request exactly when the run goes on; nothing is asked
/// of the controller after the login unless the login was accepted; and a
/// finished run stays finished, without a line.
pub proof fn lemma_advance_goes_forward(run: RunView, reply: ReplyView)
    ensures
        ({
            let (next, step) = run.advance(reply);
            &&& next.settings == run.settings
            &&& step.request is Some <==> next.stage is Awaiting
            &&& next.stage matches Stage::Awaiting(endpoint) ==> {
                &&& step.request == Some(next.request(endpoint))
                &&& run.stage matches Stage::Awaiting(before)
                &&& position(endpoint) == position(before) + 1
            }
            &&& run.stage == Stage::Awaiting(Endpoint::Login) && next.stage is Awaiting
                ==> reply.login() == Ok::<bool, UnifiClientError>(true)
            &&& run.stage is Finished ==> next == run && step.lines.len() == 0
        }),
{
}

/// One run of the report against one controller.
#[derive(Debug)]
pub struct Run {
    client: UnifiClient,
    username: String,
    password: String,
    domain: String,
    stage: Stage,
    site: String,
}

impl View for Run {
    type V = RunView;

    closed spec fn view(&self) -> RunView {
        RunView {
            settings: SettingsView {
                host: self.client@,
                username: self.username@,
                password: self.password@,
                domain: self.domain@,
            },
            stage: self.stage,
            site: self.site@,
        }
    }
}

impl Run {
    /// Starts a run with `settings` and says what to do first.
    pub fn begin(settings: Settings) -> (r: (Run, Step))
        ensures
            r.0@ == RunView::begin(settings@).0,
            r.1@ == RunView::begin(settings@).1,
    {
        let valid: bool = host_is_valid(settings.host.as_str());
        let mut lines: Vec<String> = Vec::new();
        let mut request: Option<Request> = None;
        let mut stage: Stage = Stage::Finished;
        if !valid {
            lines.push(write_invalid_host_line(settings.host.as_str()));
        }
        let client: UnifiClient = UnifiClient::new(settings.host);
        if valid {
            request = Some(client.status_request());
            stage = Stage::Awaiting(Endpoint::Status);
        }
        let run = Run {
            client,
            username: settings.username,
            password: settings.password,
            domain: settings.domain,
            stage,
            site: String::new(),
        };
        let step = Step { lines, request };
        assert(step@ =~= RunView::begin(settings@).1);
        (run, step)
    }

    /// The client that names the run's requests and reads its replies.
    pub fn client(&self) -> (r: &UnifiClient)
        ensures
            r@ == self@.settings.host,
    {
        &self.client
    }

    /// Where the run stands.
    pub fn stage(&self) -> (r: Stage)
        ensures
            r == self@.stage,
    {
        self.stage
    }

    /// Whether the run has ended.
    pub fn is_finished(&self) -> (r: bool)
        ensures
            r == (self@.stage == Stage::Finished),
    {
        match self.stage {
            Stage::Finished => true,
            Stage::Awaiting(_) => false,
        }
    }

    /// Takes the reply to the request of the last step, and says what to do
    /// next.
    pub fn advance(&mut self, reply: Reply) -> (r: Step)
        ensures
            final(self)@ == old(self)@.advance(reply@).0,
            r@ == old(self)@.advance(reply@).1,
    {
        match self.stage {
            Stage::Finished => {
                let step = Step { lines: Vec::new(), request: None };
                assert(step@ =~= StepView::last(Seq::empty()));
                step
            },
            Stage::Awaiting(Endpoint::Status) => self.after_status(reply),
            Stage::Awaiting(Endpoint::Login) => self.after_login(reply),
            Stage::Awaiting(Endpoint::Sites) => self.after_sites(reply),
            Stage::Awaiting(Endpoint::ActiveClients) => self.after_active_clients(reply),
            Stage::Awaiting(Endpoint::AllClients) => self.after_all_clients(reply),
        }
    }

    fn after_status(&mut self, reply: Reply) -> (r: Step)
        ensures
            final(self)@ == old(self)@.after_status(reply@).0,
            r@ == old(self)@.after_status(reply@).1,
    {
        let status: UnifiStatusResult = self.client.status(reply);
        let mut lines: Vec<String> = Vec::new();
        lines.push(write_status_line(self.client.host(), &status));
        let request: Request = self.client.login_request(
            self.username.as_str(),
            self.password.as_str(),
        );
        self.stage = Stage::Awaiting(Endpoint::Login);
        let step = Step { lines, request: Some(request) };
        assert(step@ =~= old(self)@.after_status(reply@).1);
        step
    }

    fn after_login(&mut self, reply: Reply) -> (r: Step)
        ensures
            final(self)@ == old(self)@.after_login(reply@).0,
            r@ == old(self)@.after_login(reply@).1,
    {
        let mut lines: Vec<String> = Vec::new();
        let mut authenticated: bool = false;
        match self.client.login(&reply) {
            Ok(accepted) => {
                authenticated = accepted;
            },
            Err(error) => {
                lines.push(write_login_error_line(error));
            },
        }
        if authenticated {
            let request: Request = self.client.sites_request();
            self.stage = Stage::Awaiting(Endpoint::Sites);
            let step = Step { lines, request: Some(request) };
            assert(step@ =~= old(self)@.after_login(reply@).1);
            step
        } else {
            lines.push(write_login_failed_line(self.username.as_str(), self.password.as_str()));
            self.stage = Stage::Finished;
            let step = Step { lines, request: None };
            assert(step@ =~= old(self)@.after_login(reply@).1);
            step
        }
    }

    fn after_sites(&mut self, reply: Reply) -> (r: Step)
        ensures
            final(self)@ == old(self)@.after_sites(reply@).0,
            r@ == old(self)@.after_sites(reply@).1,
    {
        let sites = self.client.sites(reply);
        let mut lines: Vec<String> = Vec::new();
        match self.client.first_site(&sites) {
            Ok(site) => {
                lines.push(write_site_line(site));
                let request: Request = self.client.active_clients_request(site.name.as_str());
                self.site = site.name.clone();
                self.stage = Stage::Awaiting(Endpoint::ActiveClients);
                let step = Step { lines, request: Some(request) };
                assert(step@ =~= old(self)@.after_sites(reply@).1);
                step
            },
            Err(error) => {
                lines.push(write_sites_error_line(error));
                self.stage = Stage::Finished;
                let step = Step { lines, request: None };
                assert(step@ =~= old(self)@.after_sites(reply@).1);
                step
            },
        }
    }

    fn after_active_clients(&mut self, reply: Reply) -> (r: Step)
        ensures
            final(self)@ == old(self)@.after_active_clients(reply@).0,
            r@ == old(self)@.after_active_clients(reply@).1,
    {
        let clients: UnifiActiveClientsResult = self.client.active_clients(reply);
        let lines: Vec<String> = write_active_section(&clients, self.domain.as_str());
        let request: Request = self.client.all_clients_request(self.site.as_str());
        self.stage = Stage::Awaiting(Endpoint::AllClients);
        Step { lines, request: Some(request) }
    }

    fn after_all_clients(&mut self, reply: Reply) -> (r: Step)
        ensures
            final(self)@ == old(self)@.after_all_clients(reply@).0,
            r@ == old(self)@.after_all_clients(reply@).1,
    {
        let clients: UnifiAllClientsResult = self.client.all_clients(reply);
        let lines: Vec<String> = write_all_sections(&clients, self.domain.as_str());
        self.stage = Stage::Finished;
        Step { lines, request: None }
    }
}

} // verus!
