//! Host records: the DNS-style names derived from the controller's client
//! records, and the listing of the clients that have one.

use vstd::prelude::*;

use crate::text::{hyphenate, hyphenated, lowercase, pad_right, padded, to_lowercase};
use crate::unificlient::models::{
    ClientRecordView, UnifiActiveClientsData, UnifiAllClientsData, COLUMN_WIDTH,
};

verus! {

/// The address shown for a client that has none.
pub open spec fn no_ip() -> Seq<char> {
    "# no ip"@
}

/// The local DNS name of the display name `host` in `domain`: the name in
/// lowercase, with a hyphen for every space, then a dot and the domain.
pub open spec fn local_name(host: Seq<char>, domain: Seq<char>) -> Seq<char> {
    hyphenated(lowercase(host)) + "."@ + domain
}

/// Joins an already lowercased display name and a domain into a local DNS
/// name: the name's spaces become hyphens, then come a dot and the domain.
pub fn join_local_name(lowered: &str, domain: &str) -> (r: String)
    ensures
        r@ == hyphenated(lowered@) + "."@ + domain@,
{
    let mut name: String = hyphenate(lowered);
    name.append(".");
    name.append(domain);
    name
}

/// Derives the local DNS name of the display name `host` in `domain`.
pub fn make_local_name(host: &str, domain: &str) -> (r: String)
    ensures
        r@ == hyphenated(lowercase(host@)) + "."@ + domain@,
        r@ == local_name(host@, domain@),
{
    let lowered: String = to_lowercase(host);
    join_local_name(lowered.as_str(), domain)
}

/// A derived host record: a local DNS name and the address it points to.
#[derive(Debug)]
pub struct HostRecord {
    pub dns_name: String,
    pub ip_addr: String,
}

/// The mathematical view of a [`HostRecord`].
pub struct HostRecordView {
    pub dns_name: Seq<char>,
    pub ip_addr: Seq<char>,
}

impl View for HostRecord {
    type V = HostRecordView;

    open spec fn view(&self) -> HostRecordView {
        HostRecordView { dns_name: self.dns_name@, ip_addr: self.ip_addr@ }
    }
}

impl DeepView for HostRecord {
    type V = HostRecordView;

    open spec fn deep_view(&self) -> HostRecordView {
        self@
    }
}

impl HostRecordView {
    /// The record as one line: the address in its column, then the name.
    pub open spec fn line(self) -> Seq<char> {
        padded(self.ip_addr, COLUMN_WIDTH as nat) + " "@ + self.dns_name
    }

    /// The host record of a client with the display name `name` and the
    /// address `ip`. A client has one exactly when its name is present and
    /// not the empty text; no trimming takes place. A missing address is
    /// written as `# no ip`.
    pub open spec fn of_client(
        name: Option<Seq<char>>,
        ip: Option<Seq<char>>,
        domain: Seq<char>,
    ) -> Option<HostRecordView> {
        match name {
            Some(n) if n.len() > 0 => Some(
                HostRecordView {
                    dns_name: local_name(n, domain),
                    ip_addr: match ip {
                        Some(a) => a,
                        None => no_ip(),
                    },
                },
            ),
            _ => None,
        }
    }
}

impl HostRecord {
    /// The record as one line of a host listing.
    pub fn render(&self) -> (r: String)
        ensures
            r@ == self@.line(),
    {
        let mut out: String = pad_right(self.ip_addr.as_str(), COLUMN_WIDTH);
        out.append(" ");
        out.append(self.dns_name.as_str());
        out
    }

    /// The host record of a client, if it has one.
    pub fn of_client(name: &Option<String>, ip: &Option<String>, domain: &str) -> (r: Option<
        HostRecord,
    >)
        ensures
            r.deep_view() == HostRecordView::of_client(name.deep_view(), ip.deep_view(), domain@),
            r is Some <==> (name matches Some(n) && n@.len() > 0),
            r matches Some(record) ==> {
                &&& record@.dns_name == local_name(name->0@, domain@)
                &&& ip is None ==> record@.ip_addr == "# no ip"@
                &&& ip matches Some(address) ==> record@.ip_addr == address@
            },
    {
        match name {
            Some(n) => {
                if n.as_str().is_empty() {
                    None
                } else {
                    let ip_addr: String = match ip {
                        Some(a) => a.clone(),
                        None => "# no ip".to_owned(),
                    };
                    Some(HostRecord { dns_name: make_local_name(n.as_str(), domain), ip_addr })
                }
            },
            None => None,
        }
    }
}

/// Whether a client has a display name: one that is present and not the
/// empty text.
pub open spec fn is_named(client: ClientRecordView) -> bool {
    client.name matches Some(n) && n.len() > 0
}

/// The host records of the clients among `clients` that have one, in the
/// order of the listing.
pub open spec fn host_listing(clients: Seq<ClientRecordView>, domain: Seq<char>) -> Seq<
    HostRecordView,
> {
    clients.filter_map(|c: ClientRecordView| HostRecordView::of_client(c.name, c.ip, domain))
}

/// A client has a host record exactly when its display name is present and
/// not the empty text. The record's name is the display name in lowercase,
/// with hyphens for its spaces, a dot and the domain; its address is the
/// client's own, or `# no ip` where the client has none.
pub proof fn lemma_record_of_client(
    name: Option<Seq<char>>,
    ip: Option<Seq<char>>,
    domain: Seq<char>,
)
    ensures
        HostRecordView::of_client(name, ip, domain) is Some <==> (name matches Some(n) && n.len()
            > 0),
        HostRecordView::of_client(name, ip, domain) matches Some(record) ==> {
            &&& record.dns_name == hyphenated(lowercase(name->0)) + "."@ + domain
            &&& ip is None ==> record.ip_addr == "# no ip"@
            &&& ip matches Some(address) ==> record.ip_addr == address
        },
{
}

/// The record of every named client of a listing is in its host listing.
pub proof fn lemma_named_client_is_listed(
    clients: Seq<ClientRecordView>,
    domain: Seq<char>,
    i: int,
)
    requires
        0 <= i < clients.len(),
        is_named(clients[i]),
    ensures
        HostRecordView::of_client(clients[i].name, clients[i].ip, domain) is Some,
        host_listing(clients, domain).contains(
            HostRecordView::of_client(clients[i].name, clients[i].ip, domain)->0,
        ),
    decreases clients.len(),
{
    let f = |c: ClientRecordView| HostRecordView::of_client(c.name, c.ip, domain);
    let record = f(clients[i])->0;
    let rest = clients.drop_last();
    let listed = rest.filter_map(f);
    if i == clients.len() - 1 {
        assert(clients.filter_map(f) == listed + seq![record]);
        assert((listed + seq![record])[listed.len() as int] == record);
    } else {
        lemma_named_client_is_listed(rest, domain, i);
        let k = choose|k: int| 0 <= k < listed.len() && listed[k] == record;
        assert(clients.filter_map(f)[k] == record);
    }
}

/// Every record of a host listing is that of a named client of the listing:
/// a client without a name, or with the empty text for one, adds nothing.
pub proof fn lemma_listed_record_is_of_named_client(
    clients: Seq<ClientRecordView>,
    domain: Seq<char>,
    record: HostRecordView,
)
    requires
        host_listing(clients, domain).contains(record),
    ensures
        exists|i: int|
            0 <= i < clients.len() && is_named(#[trigger] clients[i]) && HostRecordView::of_client(
                clients[i].name,
                clients[i].ip,
                domain,
            ) == Some(record),
{
    let f = |c: ClientRecordView| HostRecordView::of_client(c.name, c.ip, domain);
    clients.lemma_filter_map_contains(f, record);
    let client = choose|c: ClientRecordView| #[trigger] clients.contains(c) && f(c) == Some(record);
    let i = choose|i: int| 0 <= i < clients.len() && clients[i] == client;
    assert(is_named(clients[i]));
}

/// Derives the host records of a listing of active clients: one for each
/// client with a name that is present and not empty, in the listing's order.
pub fn active_host_records(clients: &Vec<UnifiActiveClientsData>, domain: &str) -> (r: Vec<
    HostRecord,
>)
    ensures
        r.deep_view() == host_listing(clients.deep_view(), domain@),
{
    let ghost all = clients.deep_view();
    let ghost f = |c: ClientRecordView| HostRecordView::of_client(c.name, c.ip, domain@);
    let mut out: Vec<HostRecord> = Vec::new();
    let mut i: usize = 0;
    assert(out.deep_view() =~= all.take(0).filter_map(f));
    while i < clients.len()
        invariant
            i <= clients.len(),
            all == clients.deep_view(),
            f == |c: ClientRecordView| HostRecordView::of_client(c.name, c.ip, domain@),
            out.deep_view() == all.take(i as int).filter_map(f),
        decreases clients.len() - i,
    {
        let client = &clients[i];
        let ghost before = out.deep_view();
        proof {
            all.lemma_filter_map_take_succ(f, i as int);
        }
        match HostRecord::of_client(&client.name, &client.ip, domain) {
            Some(record) => {
                out.push(record);
                assert(out.deep_view() =~= before + seq![record@]);
            },
            None => {},
        }
        i = i + 1;
    }
    assert(all.take(i as int) =~= all);
    out
}

/// Derives the host records of an inventory: one for each client with a name
/// that is present and not empty, in the inventory's order.
pub fn all_host_records(clients: &Vec<UnifiAllClientsData>, domain: &str) -> (r: Vec<HostRecord>)
    ensures
        r.deep_view() == host_listing(clients.deep_view(), domain@),
{
    let ghost all = clients.deep_view();
    let ghost f = |c: ClientRecordView| HostRecordView::of_client(c.name, c.ip, domain@);
    let mut out: Vec<HostRecord> = Vec::new();
    let mut i: usize = 0;
    assert(out.deep_view() =~= all.take(0).filter_map(f));
    while i < clients.len()
        invariant
            i <= clients.len(),
            all == clients.deep_view(),
            f == |c: ClientRecordView| HostRecordView::of_client(c.name, c.ip, domain@),
            out.deep_view() == all.take(i as int).filter_map(f),
        decreases clients.len() - i,
    {
        let client = &clients[i];
        let ghost before = out.deep_view();
        proof {
            all.lemma_filter_map_take_succ(f, i as int);
        }
        match HostRecord::of_client(&client.name, &client.ip, domain) {
            Some(record) => {
                out.push(record);
                assert(out.deep_view() =~= before + seq![record@]);
            },
            None => {},
        }
        i = i + 1;
    }
    assert(all.take(i as int) =~= all);
    out
}

} // verus!
