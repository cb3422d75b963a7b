//! The controller client: where each request goes and what each reply means.
//!
//! The client performs no I/O. It names the request to send, and it says
//! what a reply, once the caller has it, amounts to.

pub mod models;

use vstd::prelude::*;

use crate::unificlient::models::{
    ClientsResultView, UnifiActiveClientsResult, UnifiAllClientsResult, UnifiLoginResult,
    UnifiLoginResultView, UnifiSitesData, UnifiSitesResult, UnifiSitesResultView,
    UnifiStatusResult, UnifiStatusResultView, UnifiUser, UnifiUserView,
};

verus! {

/// The HTTP status with which the controller accepts a login.
pub const STATUS_OK: u16 = 200;

/// Why an operation on the controller failed.
#[derive(Clone, Copy, Debug, PartialEq, Eq, Structural)]
pub enum UnifiClientError {
    /// No response was received at all.
    ControllerUnreachable,
    /// The controller answered a login with a status other than 200.
    AuthenticationFailure,
    /// A response was received, but its body did not have the awaited shape.
    MalformedResponse,
    /// The site listing holds no site.
    NoSitesAvailable,
}

impl UnifiClientError {
    /// The text that describes the error.
    pub open spec fn text(self) -> Seq<char> {
        match self {
            UnifiClientError::ControllerUnreachable => "Controller unreachable"@,
            UnifiClientError::AuthenticationFailure => "Authentication failed"@,
            UnifiClientError::MalformedResponse => "Malformed response"@,
            UnifiClientError::NoSitesAvailable => "No sites available"@,
        }
    }

    /// The error as a line of text.
    pub fn message(&self) -> (r: String)
        ensures
            r@ == self.text(),
    {
        let text: &str = match self {
            UnifiClientError::ControllerUnreachable => "Controller unreachable",
            UnifiClientError::AuthenticationFailure => "Authentication failed",
            UnifiClientError::MalformedResponse => "Malformed response",
            UnifiClientError::NoSitesAvailable => "No sites available",
        };
        let mut out: String = String::new();
        out.append(text);
        assert(out@ =~= self.text());
        out
    }
}

/// How the session with the controller is set up by whoever sends the
/// requests.
#[derive(Clone, Copy, Debug, PartialEq, Eq, Structural)]
pub struct SessionPolicy {
    /// Whether a certificate that cannot be validated is accepted.
    pub accept_invalid_certs: bool,
    /// Whether the cookies of a reply are kept for the requests that follow.
    pub cookie_store: bool,
}

/// How a request is sent.
#[derive(Clone, Copy, Debug, PartialEq, Eq, Structural)]
pub enum Method {
    Get,
    Post,
}

/// The operations of the controller that the client uses.
#[derive(Clone, Copy, Debug, PartialEq, Eq, Structural)]
pub enum Endpoint {
    /// Liveness and version probe.
    Status,
    /// Session authentication.
    Login,
    /// The management sites.
    Sites,
    /// The clients connected right now.
    ActiveClients,
    /// The full inventory of clients and devices.
    AllClients,
}

impl Endpoint {
    /// The method with which the endpoint is called: the login is posted,
    /// everything else is read.
    pub open spec fn method(self) -> Method {
        match self {
            Endpoint::Login => Method::Post,
            _ => Method::Get,
        }
    }

    /// The endpoint's path below the controller's base address. Only the
    /// two client listings depend on the site.
    pub open spec fn path(self, site: Seq<char>) -> Seq<char> {
        match self {
            Endpoint::Status => "/status"@,
            Endpoint::Login => "/api/login"@,
            Endpoint::Sites => "/api/self/sites"@,
            Endpoint::ActiveClients => "/api/s/"@ + site + "/stat/sta"@,
            Endpoint::AllClients => "/api/s/"@ + site + "/stat/device"@,
        }
    }
}

/// One request to the controller, ready to be sent.
#[derive(Debug)]
pub struct Request {
    /// The operation asked for, which is also the shape awaited in reply.
    pub endpoint: Endpoint,
    pub method: Method,
    /// The full address: base address and path.
    pub address: String,
    /// The credentials to send as the JSON body, for a login.
    pub body: Option<UnifiUser>,
}

/// The mathematical view of a [`Request`].
pub struct RequestView {
    pub endpoint: Endpoint,
    pub method: Method,
    pub address: Seq<char>,
    pub body: Option<UnifiUserView>,
}

impl View for Request {
    type V = RequestView;

    open spec fn view(&self) -> RequestView {
        RequestView {
            endpoint: self.endpoint,
            method: self.method,
            address: self.address@,
            body: match self.body {
                Some(user) => Some(user@),
                None => None,
            },
        }
    }
}

impl RequestView {
    /// The request for `endpoint` at the controller `host`, on `site` where
    /// the endpoint has one, with `body` for its credentials.
    pub open spec fn to(
        host: Seq<char>,
        endpoint: Endpoint,
        site: Seq<char>,
        body: Option<UnifiUserView>,
    ) -> RequestView {
        RequestView {
            endpoint,
            method: endpoint.method(),
            address: host + endpoint.path(site),
            body,
        }
    }
}

/// The body of a response, read into the shape of one endpoint.
#[derive(Debug)]
pub enum Payload {
    Status(UnifiStatusResult),
    Login(UnifiLoginResult),
    Sites(UnifiSitesResult),
    ActiveClients(UnifiActiveClientsResult),
    AllClients(UnifiAllClientsResult),
}

/// The mathematical view of a [`Payload`].
pub enum PayloadView {
    Status(UnifiStatusResultView),
    Login(UnifiLoginResultView),
    Sites(UnifiSitesResultView),
    ActiveClients(ClientsResultView),
    AllClients(ClientsResultView),
}

impl View for Payload {
    type V = PayloadView;

    open spec fn view(&self) -> PayloadView {
        match self {
            Payload::Status(v) => PayloadView::Status(v@),
            Payload::Login(v) => PayloadView::Login(v@),
            Payload::Sites(v) => PayloadView::Sites(v@),
            Payload::ActiveClients(v) => PayloadView::ActiveClients(v@),
            Payload::AllClients(v) => PayloadView::AllClients(v@),
        }
    }
}

/// What came back for one request.
#[derive(Debug)]
pub enum Reply {
    /// The transport could not complete the request: no response exists.
    Unreachable,
    /// A response arrived. `body` is `None` when it could not be read into
    /// the shape that the request awaited.
    Received { status: u16, body: Option<Payload> },
}

/// The mathematical view of a [`Reply`].
pub enum ReplyView {
    Unreachable,
    Received { status: u16, body: Option<PayloadView> },
}

impl View for Reply {
    type V = ReplyView;

    open spec fn view(&self) -> ReplyView {
        match self {
            Reply::Unreachable => ReplyView::Unreachable,
            Reply::Received { status, body } => ReplyView::Received {
                status: *status,
                body: match body {
                    Some(payload) => Some(payload@),
                    None => None,
                },
            },
        }
    }
}

impl ReplyView {
    /// What a reply to a login amounts to: accepted on status 200, refused
    /// on any other status, and unreachable where no response exists. The
    /// body plays no part.
    pub open spec fn login(self) -> Result<bool, UnifiClientError> {
        match self {
            ReplyView::Unreachable => Err(UnifiClientError::ControllerUnreachable),
            ReplyView::Received { status, .. } => if status == STATUS_OK {
                Ok(true)
            } else {
                Err(UnifiClientError::AuthenticationFailure)
            },
        }
    }

    /// The status that a reply carries, whatever its HTTP status.
    pub open spec fn status(self) -> Result<UnifiStatusResultView, UnifiClientError> {
        match self {
            ReplyView::Unreachable => Err(UnifiClientError::ControllerUnreachable),
            ReplyView::Received { body: Some(PayloadView::Status(v)), .. } => Ok(v),
            ReplyView::Received { .. } => Err(UnifiClientError::MalformedResponse),
        }
    }

    /// The site listing that a reply carries.
    pub open spec fn sites(self) -> Result<UnifiSitesResultView, UnifiClientError> {
        match self {
            ReplyView::Unreachable => Err(UnifiClientError::ControllerUnreachable),
            ReplyView::Received { body: Some(PayloadView::Sites(v)), .. } => Ok(v),
            ReplyView::Received { .. } => Err(UnifiClientError::MalformedResponse),
        }
    }

    /// The listing of active clients that a reply carries.
    pub open spec fn active_clients(self) -> Result<ClientsResultView, UnifiClientError> {
        match self {
            ReplyView::Unreachable => Err(UnifiClientError::ControllerUnreachable),
            ReplyView::Received { body: Some(PayloadView::ActiveClients(v)), .. } => Ok(v),
            ReplyView::Received { .. } => Err(UnifiClientError::MalformedResponse),
        }
    }

    /// The inventory that a reply carries.
    pub open spec fn all_clients(self) -> Result<ClientsResultView, UnifiClientError> {
        match self {
            ReplyView::Unreachable => Err(UnifiClientError::ControllerUnreachable),
            ReplyView::Received { body: Some(PayloadView::AllClients(v)), .. } => Ok(v),
            ReplyView::Received { .. } => Err(UnifiClientError::MalformedResponse),
        }
    }
}

/// A login has exactly three outcomes, and the status alone tells the last
/// two apart: no response is `ControllerUnreachable`, a response with status
/// 200 is `Ok(true)`, and a response with any other status is
/// `AuthenticationFailure`, whatever its body holds.
pub proof fn lemma_login_outcomes(reply: ReplyView)
    ensures
        reply.login() == Err::<bool, UnifiClientError>(UnifiClientError::ControllerUnreachable)
            <==> reply is Unreachable,
        reply.login() == Err::<bool, UnifiClientError>(UnifiClientError::AuthenticationFailure)
            <==> (reply matches ReplyView::Received { status, .. } && status != STATUS_OK),
        reply.login() == Ok::<bool, UnifiClientError>(true) <==> (reply matches ReplyView::Received {
            status,
            ..
        } && status == STATUS_OK),
{
}

/// Where no response was received, every read fails with
/// `ControllerUnreachable`, so that each of the client's reads falls back to
/// its empty value.
pub proof fn lemma_unreachable_reads()
    ensures
        ReplyView::Unreachable.status() == Err::<UnifiStatusResultView, UnifiClientError>(
            UnifiClientError::ControllerUnreachable,
        ),
        ReplyView::Unreachable.sites() == Err::<UnifiSitesResultView, UnifiClientError>(
            UnifiClientError::ControllerUnreachable,
        ),
        ReplyView::Unreachable.active_clients() == Err::<ClientsResultView, UnifiClientError>(
            UnifiClientError::ControllerUnreachable,
        ),
        ReplyView::Unreachable.all_clients() == Err::<ClientsResultView, UnifiClientError>(
            UnifiClientError::ControllerUnreachable,
        ),
{
}

/// A client bound to one controller.
#[derive(Debug)]
pub struct UnifiClient {
    host: String,
}

impl View for UnifiClient {
    type V = Seq<char>;

    /// The controller's base address.
    closed spec fn view(&self) -> Seq<char> {
        self.host@
    }
}

impl UnifiClient {
    /// A client for the controller at the base address `host`.
    pub fn new(host: String) -> (r: Self)
        ensures
            r@ == host@,
    {
        Self { host }
    }

    /// The session that the client's requests are sent in. Any certificate
    /// is accepted, since controllers commonly sign their own, and cookies
    /// are kept, since the controller ties the login to a cookie.
    pub fn session_policy(&self) -> (r: SessionPolicy)
        ensures
            r.accept_invalid_certs,
            r.cookie_store,
    {
        SessionPolicy { accept_invalid_certs: true, cookie_store: true }
    }

    /// The controller's base address.
    pub fn host(&self) -> (r: &str)
        ensures
            r@ == self@,
    {
        self.host.as_str()
    }

    /// The full address of `path`: the base address with the path behind it.
    pub fn address(&self, path: &str) -> (r: String)
        ensures
            r@ == self@ + path@,
    {
        let mut out: String = String::new();
        out.append(self.host.as_str());
        out.append(path);
        assert(out@ =~= self@ + path@);
        out
    }
    /// The request that probes the controller's status.
    pub fn status_request(&self) -> (r: Request)
        ensures
            r@ == RequestView::to(self@, Endpoint::Status, Seq::empty(), None),
    {
        Request {
            endpoint: Endpoint::Status,
            method: Method::Get,
            address: self.address("/status"),
            body: None,
        }
    }

    /// The request that logs `username` in with `password`.
    pub fn login_request(&self, username: &str, password: &str) -> (r: Request)
        ensures
            r@ == RequestView::to(
                self@,
                Endpoint::Login,
                Seq::empty(),
                Some(UnifiUserView { username: username@, password: password@ }),
            ),
    {
        let user = UnifiUser { username: username.to_owned(), password: password.to_owned() };
        Request {
            endpoint: Endpoint::Login,
            method: Method::Post,
            address: self.address("/api/login"),
            body: Some(user),
        }
    }

    /// The request that lists the management sites.
    pub fn sites_request(&self) -> (r: Request)
        ensures
            r@ == RequestView::to(self@, Endpoint::Sites, Seq::empty(), None),
    {
        Request {
            endpoint: Endpoint::Sites,
            method: Method::Get,
            address: self.address("/api/self/sites"),
            body: None,
        }
    }

    /// The request that lists the clients connected to `site` right now.
    pub fn active_clients_request(&self, site: &str) -> (r: Request)
        ensures
            r@ == RequestView::to(self@, Endpoint::ActiveClients, site@, None),
    {
        let mut address: String = self.address("/api/s/");
        address.append(site);
        address.append("/stat/sta");
        assert(address@ =~= self@ + Endpoint::ActiveClients.path(site@));
        Request { endpoint: Endpoint::ActiveClients, method: Method::Get, address, body: None }
    }

    /// The request that lists the whole inventory of `site`.
    pub fn all_clients_request(&self, site: &str) -> (r: Request)
        ensures
            r@ == RequestView::to(self@, Endpoint::AllClients, site@, None),
    {
        let mut address: String = self.address("/api/s/");
        address.append(site);
        address.append("/stat/device");
        assert(address@ =~= self@ + Endpoint::AllClients.path(site@));
        Request { endpoint: Endpoint::AllClients, method: Method::Get, address, body: None }
    }

    /// Classifies the reply to a login: `Ok(true)` on status 200,
    /// `AuthenticationFailure` on any other status, `ControllerUnreachable`
    /// where no response was received.
    pub fn login(&self, reply: &Reply) -> (r: Result<bool, UnifiClientError>)
        ensures
            r == reply@.login(),
            reply@ is Unreachable ==> r == Err::<bool, UnifiClientError>(
                UnifiClientError::ControllerUnreachable,
            ),
            reply@ matches ReplyView::Received { status, .. } && status != STATUS_OK ==> r == Err::<
                bool,
                UnifiClientError,
            >(UnifiClientError::AuthenticationFailure),
    {
        match reply {
            Reply::Unreachable => Err(UnifiClientError::ControllerUnreachable),
            Reply::Received { status, .. } => {
                if *status == STATUS_OK {
                    Ok(true)
                } else {
                    Err(UnifiClientError::AuthenticationFailure)
                }
            },
        }
    }

    /// The status that `reply` carries, or the reason why it carries none.
    pub fn try_status(&self, reply: Reply) -> (r: Result<UnifiStatusResult, UnifiClientError>)
        ensures
            match reply@.status() {
                Ok(v) => r is Ok && r->Ok_0@ == v,
                Err(e) => r is Err && r->Err_0 == e,
            },
    {
        match reply {
            Reply::Unreachable => Err(UnifiClientError::ControllerUnreachable),
            Reply::Received { body: Some(Payload::Status(v)), .. } => Ok(v),
            Reply::Received { .. } => Err(UnifiClientError::MalformedResponse),
        }
    }

    /// The status that `reply` carries; the empty status where it carries
    /// none. Never fails: the status is advisory.
    pub fn status(&self, reply: Reply) -> (r: UnifiStatusResult)
        ensures
            r@ == match reply@.status() {
                Ok(v) => v,
                Err(_) => UnifiStatusResultView::empty(),
            },
            reply@ is Unreachable ==> r@ == UnifiStatusResultView::empty(),
    {
        match self.try_status(reply) {
            Ok(v) => v,
            Err(_) => UnifiStatusResult::empty(),
        }
    }

    /// The site listing that `reply` carries, or the reason why it carries
    /// none.
    pub fn try_sites(&self, reply: Reply) -> (r: Result<UnifiSitesResult, UnifiClientError>)
        ensures
            match reply@.sites() {
                Ok(v) => r is Ok && r->Ok_0@ == v,
                Err(e) => r is Err && r->Err_0 == e,
            },
    {
        match reply {
            Reply::Unreachable => Err(UnifiClientError::ControllerUnreachable),
            Reply::Received { body: Some(Payload::Sites(v)), .. } => Ok(v),
            Reply::Received { .. } => Err(UnifiClientError::MalformedResponse),
        }
    }

    /// The site listing that `reply` carries; the empty listing where it
    /// carries none.
    pub fn sites(&self, reply: Reply) -> (r: UnifiSitesResult)
        ensures
            r@ == match reply@.sites() {
                Ok(v) => v,
                Err(_) => UnifiSitesResultView::empty(),
            },
    {
        match self.try_sites(reply) {
            Ok(v) => v,
            Err(_) => UnifiSitesResult::empty(),
        }
    }

    /// The listing of active clients that `reply` carries, or the reason why
    /// it carries none.
    pub fn try_active_clients(&self, reply: Reply) -> (r: Result<
        UnifiActiveClientsResult,
        UnifiClientError,
    >)
        ensures
            match reply@.active_clients() {
                Ok(v) => r is Ok && r->Ok_0@ == v,
                Err(e) => r is Err && r->Err_0 == e,
            },
    {
        match reply {
            Reply::Unreachable => Err(UnifiClientError::ControllerUnreachable),
            Reply::Received { body: Some(Payload::ActiveClients(v)), .. } => Ok(v),
            Reply::Received { .. } => Err(UnifiClientError::MalformedResponse),
        }
    }

    /// The listing of active clients that `reply` carries; the placeholder
    /// listing where it carries none.
    pub fn active_clients(&self, reply: Reply) -> (r: UnifiActiveClientsResult)
        ensures
            r@ == match reply@.active_clients() {
                Ok(v) => v,
                Err(_) => ClientsResultView::placeholder(Some(0i32)),
            },
    {
        match self.try_active_clients(reply) {
            Ok(v) => v,
            Err(_) => UnifiActiveClientsResult::empty(),
        }
    }

    /// The inventory that `reply` carries, or the reason why it carries
    /// none.
    pub fn try_all_clients(&self, reply: Reply) -> (r: Result<
        UnifiAllClientsResult,
        UnifiClientError,
    >)
        ensures
            match reply@.all_clients() {
                Ok(v) => r is Ok && r->Ok_0@ == v,
                Err(e) => r is Err && r->Err_0 == e,
            },
    {
        match reply {
            Reply::Unreachable => Err(UnifiClientError::ControllerUnreachable),
            Reply::Received { body: Some(Payload::AllClients(v)), .. } => Ok(v),
            Reply::Received { .. } => Err(UnifiClientError::MalformedResponse),
        }
    }

    /// The inventory that `reply` carries; the placeholder listing where it
    /// carries none.
    pub fn all_clients(&self, reply: Reply) -> (r: UnifiAllClientsResult)
        ensures
            r@ == match reply@.all_clients() {
                Ok(v) => v,
                Err(_) => ClientsResultView::placeholder(None),
            },
    {
        match self.try_all_clients(reply) {
            Ok(v) => v,
            Err(_) => UnifiAllClientsResult::empty(),
        }
    }

    /// The site that the listings are made for: the first of `sites`. Fails
    /// with `NoSitesAvailable` exactly when `sites` holds none.
    pub fn first_site<'a>(&self, sites: &'a UnifiSitesResult) -> (r: Result<
        &'a UnifiSitesData,
        UnifiClientError,
    >)
        ensures
            sites@.data.len() == 0 ==> r is Err && r->Err_0 == UnifiClientError::NoSitesAvailable,
            sites@.data.len() > 0 ==> r is Ok && r->Ok_0@ == sites@.data[0],
    {
        if sites.data.len() == 0 {
            Err(UnifiClientError::NoSitesAvailable)
        } else {
            Ok(&sites.data[0])
        }
    }
}

} // verus!
