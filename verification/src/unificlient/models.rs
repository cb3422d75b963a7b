//! The shapes of the controller's replies, each with its mathematical view
//! and the empty value that stands in when a reply is missing.

use vstd::prelude::*;

use crate::text::{pad_right, padded};

verus! {

/// Width of one column of a client listing.
pub const COLUMN_WIDTH: usize = 16;

/// The text shown in a listing for a field that the controller left out.
pub open spec fn not_available() -> Seq<char> {
    "n/a"@
}

/// A field of a listing: its text, or the `n/a` token when it is absent.
pub open spec fn shown(field: Option<Seq<char>>) -> Seq<char> {
    match field {
        Some(text) => text,
        None => not_available(),
    }
}

/// Status block of the controller's `/status` reply.
#[derive(Debug)]
pub struct UnifiMeta {
    pub rc: String,
    pub up: bool,
    pub server_version: String,
    pub uuid: String,
}

/// The mathematical view of a [`UnifiMeta`].
pub struct UnifiMetaView {
    pub rc: Seq<char>,
    pub up: bool,
    pub server_version: Seq<char>,
    pub uuid: Seq<char>,
}

impl View for UnifiMeta {
    type V = UnifiMetaView;

    open spec fn view(&self) -> UnifiMetaView {
        UnifiMetaView {
            rc: self.rc@,
            up: self.up,
            server_version: self.server_version@,
            uuid: self.uuid@,
        }
    }
}

/// The controller's `/status` reply.
#[derive(Debug)]
pub struct UnifiStatusResult {
    pub meta: UnifiMeta,
}

/// The mathematical view of a [`UnifiStatusResult`].
pub struct UnifiStatusResultView {
    pub meta: UnifiMetaView,
}

impl View for UnifiStatusResult {
    type V = UnifiStatusResultView;

    open spec fn view(&self) -> UnifiStatusResultView {
        UnifiStatusResultView { meta: self.meta@ }
    }
}

impl UnifiStatusResultView {
    /// The status of a controller of which nothing is known: not up, and
    /// every text empty.
    pub open spec fn empty() -> UnifiStatusResultView {
        UnifiStatusResultView {
            meta: UnifiMetaView {
                rc: Seq::empty(),
                up: false,
                server_version: Seq::empty(),
                uuid: Seq::empty(),
            },
        }
    }
}

impl UnifiStatusResult {
    /// The value used when no status could be had.
    pub fn empty() -> (r: Self)
        ensures
            r@ == UnifiStatusResultView::empty(),
    {
        Self {
            meta: UnifiMeta {
                rc: String::new(),
                up: false,
                server_version: String::new(),
                uuid: String::new(),
            },
        }
    }
}

/// The credentials sent once to the login endpoint.
#[derive(Debug)]
pub struct UnifiUser {
    pub username: String,
    pub password: String,
}

/// The mathematical view of a [`UnifiUser`].
pub struct UnifiUserView {
    pub username: Seq<char>,
    pub password: Seq<char>,
}

impl View for UnifiUser {
    type V = UnifiUserView;

    open spec fn view(&self) -> UnifiUserView {
        UnifiUserView { username: self.username@, password: self.password@ }
    }
}

/// Result block of the login reply.
#[derive(Debug)]
pub struct UnifiLoginResultMeta {
    pub rc: String,
    pub msg: Option<String>,
}

/// The mathematical view of a [`UnifiLoginResultMeta`].
pub struct UnifiLoginResultMetaView {
    pub rc: Seq<char>,
    pub msg: Option<Seq<char>>,
}

impl View for UnifiLoginResultMeta {
    type V = UnifiLoginResultMetaView;

    open spec fn view(&self) -> UnifiLoginResultMetaView {
        UnifiLoginResultMetaView { rc: self.rc@, msg: self.msg.deep_view() }
    }
}

/// The controller's reply to a login.
#[derive(Debug)]
pub struct UnifiLoginResult {
    pub meta: UnifiLoginResultMeta,
}

/// The mathematical view of a [`UnifiLoginResult`].
pub struct UnifiLoginResultView {
    pub meta: UnifiLoginResultMetaView,
}

impl View for UnifiLoginResult {
    type V = UnifiLoginResultView;

    open spec fn view(&self) -> UnifiLoginResultView {
        UnifiLoginResultView { meta: self.meta@ }
    }
}

/// Result block of the site listing.
#[derive(Debug)]
pub struct UnifiSitesMeta {
    pub rc: String,
    pub msg: Option<String>,
}

/// The mathematical view of a [`UnifiSitesMeta`].
pub struct UnifiSitesMetaView {
    pub rc: Seq<char>,
    pub msg: Option<Seq<char>>,
}

impl View for UnifiSitesMeta {
    type V = UnifiSitesMetaView;

    open spec fn view(&self) -> UnifiSitesMetaView {
        UnifiSitesMetaView { rc: self.rc@, msg: self.msg.deep_view() }
    }
}

/// One management site of the controller.
#[derive(Debug)]
pub struct UnifiSitesData {
    pub _id: String,
    pub name: String,
    pub desc: String,
    pub role: String,
}

/// The mathematical view of a [`UnifiSitesData`].
pub struct UnifiSitesDataView {
    pub _id: Seq<char>,
    pub name: Seq<char>,
    pub desc: Seq<char>,
    pub role: Seq<char>,
}

impl View for UnifiSitesData {
    type V = UnifiSitesDataView;

    open spec fn view(&self) -> UnifiSitesDataView {
        UnifiSitesDataView { _id: self._id@, name: self.name@, desc: self.desc@, role: self.role@ }
    }
}

impl DeepView for UnifiSitesData {
    type V = UnifiSitesDataView;

    open spec fn deep_view(&self) -> UnifiSitesDataView {
        self@
    }
}

/// The controller's site listing.
#[derive(Debug)]
pub struct UnifiSitesResult {
    pub meta: UnifiSitesMeta,
    pub data: Vec<UnifiSitesData>,
}

/// The mathematical view of a [`UnifiSitesResult`].
#[verifier::ext_equal]
pub struct UnifiSitesResultView {
    pub meta: UnifiSitesMetaView,
    pub data: Seq<UnifiSitesDataView>,
}

impl View for UnifiSitesResult {
    type V = UnifiSitesResultView;

    open spec fn view(&self) -> UnifiSitesResultView {
        UnifiSitesResultView { meta: self.meta@, data: self.data.deep_view() }
    }
}

impl UnifiSitesResultView {
    /// A listing without any site, with an empty result code and an empty
    /// message.
    pub open spec fn empty() -> UnifiSitesResultView {
        UnifiSitesResultView {
            meta: UnifiSitesMetaView { rc: Seq::empty(), msg: Some(Seq::empty()) },
            data: Seq::empty(),
        }
    }
}

impl UnifiSitesResult {
    /// The value used when no site listing could be had.
    pub fn empty() -> (r: Self)
        ensures
            r@ == UnifiSitesResultView::empty(),
    {
        let r = Self {
            meta: UnifiSitesMeta { rc: String::new(), msg: Some(String::new()) },
            data: Vec::new(),
        };
        assert(r@ =~= UnifiSitesResultView::empty());
        r
    }
}

/// A client record as the controller reports it. Only the MAC address is
/// always there; the inventory of all clients reports no uptime at all.
pub struct ClientRecordView {
    pub mac: Seq<char>,
    pub hostname: Option<Seq<char>>,
    pub note: Option<Seq<char>>,
    pub name: Option<Seq<char>>,
    pub network: Option<Seq<char>>,
    pub ip: Option<Seq<char>>,
    pub uptime: Option<i32>,
}

impl ClientRecordView {
    /// The placeholder record: an empty MAC address, every optional text
    /// present and empty, and the given uptime.
    pub open spec fn blank(uptime: Option<i32>) -> ClientRecordView {
        ClientRecordView {
            mac: Seq::empty(),
            hostname: Some(Seq::empty()),
            note: Some(Seq::empty()),
            name: Some(Seq::empty()),
            network: Some(Seq::empty()),
            ip: Some(Seq::empty()),
            uptime,
        }
    }

    /// The record as one line of a client listing.
    pub open spec fn line(self) -> Seq<char> {
        client_line(self.mac, self.ip, self.name, self.note)
    }
}

/// A listing of client records.
#[verifier::ext_equal]
pub struct ClientsResultView {
    pub data: Seq<ClientRecordView>,
}

impl ClientsResultView {
    /// The listing that stands in for a missing one: the placeholder record
    /// and nothing else.
    pub open spec fn placeholder(uptime: Option<i32>) -> ClientsResultView {
        ClientsResultView { data: seq![ClientRecordView::blank(uptime)] }
    }
}

/// One line of a client listing: the MAC address, the IP address, the
/// display name and the note, each in its own column.
pub open spec fn client_line(
    mac: Seq<char>,
    ip: Option<Seq<char>>,
    name: Option<Seq<char>>,
    note: Option<Seq<char>>,
) -> Seq<char> {
    padded(mac, COLUMN_WIDTH as nat) + " "@ + padded(shown(ip), COLUMN_WIDTH as nat) + " "@
        + padded(shown(name), COLUMN_WIDTH as nat) + " "@ + padded(
        shown(note),
        COLUMN_WIDTH as nat,
    )
}

/// The text of an optional field, or the `n/a` token.
fn shown_text(field: &Option<String>) -> (r: &str)
    ensures
        r@ == shown(field.deep_view()),
{
    match field {
        Some(text) => text.as_str(),
        None => "n/a",
    }
}

/// Writes one line of a client listing.
pub fn client_row(
    mac: &str,
    ip: &Option<String>,
    name: &Option<String>,
    note: &Option<String>,
) -> (r: String)
    ensures
        r@ == client_line(mac@, ip.deep_view(), name.deep_view(), note.deep_view()),
{
    let mut out: String = pad_right(mac, COLUMN_WIDTH);
    out.append(" ");
    let ip_column: String = pad_right(shown_text(ip), COLUMN_WIDTH);
    out.append(ip_column.as_str());
    out.append(" ");
    let name_column: String = pad_right(shown_text(name), COLUMN_WIDTH);
    out.append(name_column.as_str());
    out.append(" ");
    let note_column: String = pad_right(shown_text(note), COLUMN_WIDTH);
    out.append(note_column.as_str());
    out
}

/// A client that is connected right now.
#[derive(Debug)]
pub struct UnifiActiveClientsData {
    pub mac: String,
    pub hostname: Option<String>,
    pub note: Option<String>,
    pub name: Option<String>,
    pub network: Option<String>,
    pub ip: Option<String>,
    pub uptime: Option<i32>,
}

impl View for UnifiActiveClientsData {
    type V = ClientRecordView;

    open spec fn view(&self) -> ClientRecordView {
        ClientRecordView {
            mac: self.mac@,
            hostname: self.hostname.deep_view(),
            note: self.note.deep_view(),
            name: self.name.deep_view(),
            network: self.network.deep_view(),
            ip: self.ip.deep_view(),
            uptime: self.uptime,
        }
    }
}

impl DeepView for UnifiActiveClientsData {
    type V = ClientRecordView;

    open spec fn deep_view(&self) -> ClientRecordView {
        self@
    }
}

impl UnifiActiveClientsData {
    /// The record as one line of the listing of active clients.
    pub fn render(&self) -> (r: String)
        ensures
            r@ == self@.line(),
    {
        client_row(self.mac.as_str(), &self.ip, &self.name, &self.note)
    }
}

/// The controller's listing of the clients that are connected right now.
#[derive(Debug)]
pub struct UnifiActiveClientsResult {
    pub data: Vec<UnifiActiveClientsData>,
}

impl View for UnifiActiveClientsResult {
    type V = ClientsResultView;

    open spec fn view(&self) -> ClientsResultView {
        ClientsResultView { data: self.data.deep_view() }
    }
}

impl UnifiActiveClientsResult {
    /// The value used when no listing of active clients could be had.
    pub fn empty() -> (r: Self)
        ensures
            r@ == ClientsResultView::placeholder(Some(0i32)),
    {
        let mut empty: Vec<UnifiActiveClientsData> = Vec::new();
        let data = UnifiActiveClientsData {
            mac: String::new(),
            hostname: Some(String::new()),
            note: Some(String::new()),
            name: Some(String::new()),
            network: Some(String::new()),
            ip: Some(String::new()),
            uptime: Some(0i32),
        };
        empty.push(data);
        let r = Self { data: empty };
        assert(r@ =~= ClientsResultView::placeholder(Some(0i32)));
        r
    }
}

/// A client or device of the controller's full inventory.
#[derive(Debug)]
pub struct UnifiAllClientsData {
    pub mac: String,
    pub hostname: Option<String>,
    pub note: Option<String>,
    pub name: Option<String>,
    pub network: Option<String>,
    pub ip: Option<String>,
}

impl View for UnifiAllClientsData {
    type V = ClientRecordView;

    open spec fn view(&self) -> ClientRecordView {
        ClientRecordView {
            mac: self.mac@,
            hostname: self.hostname.deep_view(),
            note: self.note.deep_view(),
            name: self.name.deep_view(),
            network: self.network.deep_view(),
            ip: self.ip.deep_view(),
            uptime: None,
        }
    }
}

impl DeepView for UnifiAllClientsData {
    type V = ClientRecordView;

    open spec fn deep_view(&self) -> ClientRecordView {
        self@
    }
}

impl UnifiAllClientsData {
    /// The record as one line of the listing of all clients.
    pub fn render(&self) -> (r: String)
        ensures
            r@ == self@.line(),
    {
        client_row(self.mac.as_str(), &self.ip, &self.name, &self.note)
    }
}

/// The controller's full inventory of clients and devices.
#[derive(Debug)]
pub struct UnifiAllClientsResult {
    pub data: Vec<UnifiAllClientsData>,
}

impl View for UnifiAllClientsResult {
    type V = ClientsResultView;

    open spec fn view(&self) -> ClientsResultView {
        ClientsResultView { data: self.data.deep_view() }
    }
}

impl UnifiAllClientsResult {
    /// The value used when no inventory could be had.
    pub fn empty() -> (r: Self)
        ensures
            r@ == ClientsResultView::placeholder(None),
    {
        let mut empty: Vec<UnifiAllClientsData> = Vec::new();
        let data = UnifiAllClientsData {
            mac: String::new(),
            hostname: Some(String::new()),
            note: Some(String::new()),
            name: Some(String::new()),
            network: Some(String::new()),
            ip: Some(String::new()),
        };
        empty.push(data);
        let r = Self { data: empty };
        assert(r@ =~= ClientsResultView::placeholder(None));
        r
    }
}

} // verus!
