//! The addresses at which the node can be opened, grouped for the reader.
//!
//! The agent advertises each service on one best host. The services that listen
//! on every interface are projected onto every LAN host that is known, so that
//! the reader sees the mDNS name and the LAN address alike. A loopback address
//! is of no use from another machine and is dropped from a group as soon as the
//! group has any other.
use crate::model;
use crate::model::{AccessModel, AccessUrl, Dashboard, DashboardModel};
use crate::reach;
use crate::text;
use vstd::prelude::*;

verus! {

/// The MAVLink TCP port when the agent names none.
pub const DEFAULT_TCP_PORT: u16 = 5760;

/// The MAVLink WebSocket port when the agent names none.
pub const DEFAULT_WS_PORT: u16 = 8765;

/// One link: a full URL, whether it is the primary one, and whether it points
/// at the machine itself.
#[derive(Debug, Clone, PartialEq, Eq)]
pub struct LinkRow {
    pub url: String,
    pub primary: bool,
    pub loopback: bool,
}

/// The model of a link.
pub struct RowModel {
    pub url: Seq<char>,
    pub primary: bool,
    pub loopback: bool,
}

impl View for LinkRow {
    type V = RowModel;

    open spec fn view(&self) -> RowModel {
        RowModel { url: self.url@, primary: self.primary, loopback: self.loopback }
    }
}

/// A titled group of links, with a line that says what they are for.
#[derive(Debug, Clone, PartialEq, Eq)]
pub struct LinkGroup {
    pub title: &'static str,
    /// Empty when the title says enough.
    pub desc: &'static str,
    pub rows: Vec<LinkRow>,
}

/// The model of a group.
#[verifier::ext_equal]
pub struct GroupModel {
    pub title: Seq<char>,
    pub desc: Seq<char>,
    pub rows: Seq<RowModel>,
}

/// The models of links.
pub open spec fn row_models(v: Seq<LinkRow>) -> Seq<RowModel> {
    Seq::new(v.len(), |i: int| v[i]@)
}

impl View for LinkGroup {
    type V = GroupModel;

    open spec fn view(&self) -> GroupModel {
        GroupModel { title: self.title@, desc: self.desc@, rows: row_models(self.rows@) }
    }
}

/// The models of groups.
pub open spec fn group_models(v: Seq<LinkGroup>) -> Seq<GroupModel> {
    Seq::new(v.len(), |i: int| v[i]@)
}

/// A host onto which services are projected.
struct HostRef {
    host: String,
    primary: bool,
}

/// The model of such a host.
pub struct HostModel {
    pub host: Seq<char>,
    pub primary: bool,
}

/// The models of such hosts.
closed spec fn host_models(v: Seq<HostRef>) -> Seq<HostModel> {
    Seq::new(v.len(), |i: int| HostModel { host: v[i].host@, primary: v[i].primary })
}

// ---------------------------------------------------------------------------
// what the groups hold
// ---------------------------------------------------------------------------

/// The addresses of reach priority `k`, in their order.
pub open spec fn of_rank(urls: Seq<AccessModel>, k: u8) -> Seq<AccessModel>
    decreases urls.len(),
{
    if urls.len() == 0 {
        Seq::empty()
    } else if reach::rank(urls.last().url) == k {
        of_rank(urls.drop_last(), k).push(urls.last())
    } else {
        of_rank(urls.drop_last(), k)
    }
}

/// The addresses ordered by reach priority; equals stay in their order.
pub open spec fn best_first(urls: Seq<AccessModel>) -> Seq<AccessModel> {
    of_rank(urls, 0) + of_rank(urls, 1) + of_rank(urls, 2) + of_rank(urls, 3)
}

/// The link of an advertised address.
pub open spec fn row_of(u: AccessModel) -> RowModel {
    RowModel {
        url: u.url,
        primary: u.primary,
        loopback: reach::loopback_host(reach::host_of(u.url)),
    }
}

/// The links of the addresses of one kind.
pub open spec fn of_kind(urls: Seq<AccessModel>, kind: Seq<char>) -> Seq<RowModel>
    decreases urls.len(),
{
    if urls.len() == 0 {
        Seq::empty()
    } else if urls.last().kind == kind && urls.last().url.len() > 0 {
        of_kind(urls.drop_last(), kind).push(row_of(urls.last()))
    } else {
        of_kind(urls.drop_last(), kind)
    }
}

/// A link to `url` is among `rows`.
pub open spec fn lists_url(rows: Seq<RowModel>, url: Seq<char>) -> bool {
    exists|i: int| 0 <= i < rows.len() && (#[trigger] rows[i]).url == url
}

/// The first link to each URL.
pub open spec fn unique_rows(rows: Seq<RowModel>) -> Seq<RowModel>
    decreases rows.len(),
{
    if rows.len() == 0 {
        Seq::empty()
    } else {
        let before = unique_rows(rows.drop_last());
        if lists_url(before, rows.last().url) {
            before
        } else {
            before.push(rows.last())
        }
    }
}

/// The links that do not point at the machine itself.
pub open spec fn routable(rows: Seq<RowModel>) -> Seq<RowModel>
    decreases rows.len(),
{
    if rows.len() == 0 {
        Seq::empty()
    } else if rows.last().loopback {
        routable(rows.drop_last())
    } else {
        routable(rows.drop_last()).push(rows.last())
    }
}

/// The first link to each URL, without loopback once there is any other.
pub open spec fn tidied(rows: Seq<RowModel>) -> Seq<RowModel> {
    let unique = unique_rows(rows);
    if routable(unique).len() > 0 {
        routable(unique)
    } else {
        unique
    }
}

/// The links of one kind, best first.
pub open spec fn kind_rows(m: DashboardModel, kind: Seq<char>) -> Seq<RowModel> {
    tidied(of_kind(best_first(m.access_urls), kind))
}

/// `host` is among `hosts`.
pub open spec fn lists_host(hosts: Seq<HostModel>, host: Seq<char>) -> bool {
    exists|i: int| 0 <= i < hosts.len() && (#[trigger] hosts[i]).host == host
}

/// The first mention of each host of `urls`.
pub open spec fn hosts_of(urls: Seq<AccessModel>) -> Seq<HostModel>
    decreases urls.len(),
{
    if urls.len() == 0 {
        Seq::empty()
    } else {
        let before = hosts_of(urls.drop_last());
        let host = reach::host_of(urls.last().url);
        if host.len() == 0 || lists_host(before, host) {
            before
        } else {
            before.push(HostModel { host, primary: urls.last().primary })
        }
    }
}

/// The LAN hosts, mDNS names first.
pub open spec fn lan_hosts_of(m: DashboardModel) -> Seq<HostModel> {
    hosts_of(of_rank(m.access_urls, 0) + of_rank(m.access_urls, 1))
}

/// The port in an optional URL, or `default`.
pub open spec fn port_or(url: Option<Seq<char>>, default: nat) -> nat {
    match url {
        Some(u) => match reach::port_in(u) {
            Some(p) => p,
            None => default,
        },
        None => default,
    }
}

/// The MAVLink endpoints of a host.
pub open spec fn mavlink_rows(hosts: Seq<HostModel>, tcp: nat, ws: nat) -> Seq<RowModel>
    decreases hosts.len(),
{
    if hosts.len() == 0 {
        Seq::empty()
    } else {
        let h = hosts.last();
        mavlink_rows(hosts.drop_last(), tcp, ws).push(
            RowModel {
                url: "tcp://"@ + h.host + ":"@ + text::decimal(tcp),
                primary: h.primary,
                loopback: false,
            },
        ).push(
            RowModel {
                url: "ws://"@ + h.host + ":"@ + text::decimal(ws) + "/"@,
                primary: false,
                loopback: false,
            },
        )
    }
}

/// A service URL on every host.
pub open spec fn projected(hosts: Seq<HostModel>, url: Seq<char>) -> Seq<RowModel> {
    Seq::new(
        hosts.len(),
        |i: int|
            RowModel {
                url: reach::rehosted(url, hosts[i].host),
                primary: hosts[i].primary,
                loopback: false,
            },
    )
}

/// The ground-control links: a TCP and a WebSocket endpoint on every LAN host,
/// the public endpoint, and what is advertised besides.
pub open spec fn control_rows(m: DashboardModel) -> Seq<RowModel> {
    let local = if m.mavlink_tcp_url is Some || m.mavlink_ws_url is Some {
        mavlink_rows(
            lan_hosts_of(m),
            port_or(m.mavlink_tcp_url, DEFAULT_TCP_PORT as nat),
            port_or(m.mavlink_ws_url, DEFAULT_WS_PORT as nat),
        )
    } else {
        Seq::empty()
    };
    let public = match m.mavlink_public_ws_url {
        Some(u) => seq![RowModel { url: u, primary: false, loopback: false }],
        None => Seq::empty(),
    };
    tidied(local + public + kind_rows(m, "mavlink"@))
}

/// The viewer that stands for the others: the best advertised one, or the one
/// of the WHEP endpoint.
pub open spec fn viewer_template(m: DashboardModel) -> Option<Seq<char>> {
    if kind_rows(m, "video"@).len() > 0 {
        Some(kind_rows(m, "video"@)[0].url)
    } else {
        m.video_viewer
    }
}

/// The video links: the viewer on every LAN host, and what is advertised
/// besides.
pub open spec fn video_rows(m: DashboardModel) -> Seq<RowModel> {
    let local = match viewer_template(m) {
        Some(u) => projected(lan_hosts_of(m), u),
        None => Seq::empty(),
    };
    tidied(local + kind_rows(m, "video"@))
}

/// A group, unless it is empty.
pub open spec fn group_if_full(title: Seq<char>, desc: Seq<char>, rows: Seq<RowModel>) -> Seq<
    GroupModel,
> {
    if rows.len() > 0 {
        seq![GroupModel { title, desc, rows }]
    } else {
        Seq::empty()
    }
}

/// All groups that hold a link, in the order in which they are shown.
pub open spec fn groups_of(m: DashboardModel) -> Seq<GroupModel> {
    group_if_full("Console"@, ""@, kind_rows(m, "setup"@)) + group_if_full(
        "Ground control"@,
        "Conventional MAVLink"@,
        control_rows(m),
    ) + group_if_full("Video"@, ""@, video_rows(m)) + group_if_full(
        "Mission Control"@,
        ""@,
        kind_rows(m, "mission_control"@),
    ) + group_if_full("Remote"@, ""@, kind_rows(m, "cloud"@))
}

/// The links by which a ground-control station is pointed at the node: the
/// console links cut down to their base address.
pub open spec fn connect_rows(m: DashboardModel) -> Seq<RowModel> {
    tidied(
        kind_rows(m, "setup"@).map_values(
            |r: RowModel| RowModel { url: reach::base_of(r.url), ..r },
        ),
    )
}

// ---------------------------------------------------------------------------
// building the groups
// ---------------------------------------------------------------------------

fn copy_access(u: &AccessUrl) -> (r: AccessUrl)
    ensures
        r@ == u@,
{
    AccessUrl {
        label: u.label.clone(),
        url: u.url.clone(),
        kind: u.kind.clone(),
        primary: u.primary,
    }
}

fn copy_row(row: &LinkRow) -> (r: LinkRow)
    ensures
        r@ == row@,
{
    LinkRow { url: row.url.clone(), primary: row.primary, loopback: row.loopback }
}

/// Append the addresses of reach priority `k`.
fn push_rank(out: &mut Vec<AccessUrl>, urls: &Vec<AccessUrl>, k: u8)
    ensures
        model::access_models(final(out)@) == model::access_models(old(out)@)
            + of_rank(model::access_models(urls@), k),
{
    let ghost all = model::access_models(urls@);
    let ghost start = model::access_models(out@);
    let mut i: usize = 0;
    assert(start + of_rank(all.take(0), k) =~= start);
    while i < urls.len()
        invariant
            i <= urls@.len(),
            all == model::access_models(urls@),
            model::access_models(out@) == start + of_rank(all.take(i as int), k),
        decreases urls@.len() - i,
    {
        let ghost before = model::access_models(out@);
        proof {
            assert(all.take(i + 1).drop_last() == all.take(i as int));
            assert(all.take(i + 1).last() == urls@[i as int]@);
        }
        if reach::reach_rank(urls[i].url.as_str()) == k {
            out.push(copy_access(&urls[i]));
            assert(model::access_models(out@) =~= before.push(urls@[i as int]@));
            assert(before.push(urls@[i as int]@) =~= start + of_rank(all.take(i + 1), k));
        }
        i += 1;
    }
    assert(all.take(urls@.len() as int) == all);
}

/// Append every link of `more`.
fn push_rows(out: &mut Vec<LinkRow>, more: &Vec<LinkRow>)
    ensures
        row_models(final(out)@) == row_models(old(out)@) + row_models(more@),
{
    let ghost start = row_models(out@);
    let ghost all = row_models(more@);
    let mut i: usize = 0;
    assert(start + all.take(0) =~= start);
    while i < more.len()
        invariant
            i <= more@.len(),
            all == row_models(more@),
            row_models(out@) == start + all.take(i as int),
        decreases more@.len() - i,
    {
        let ghost before = row_models(out@);
        out.push(copy_row(&more[i]));
        assert(row_models(out@) =~= before.push(all[i as int]));
        assert(before.push(all[i as int]) =~= start + all.take(i + 1));
        i += 1;
    }
    assert(all.take(more@.len() as int) == all);
}

/// A link to `url` is among `rows`.
fn has_url(rows: &Vec<LinkRow>, url: &str) -> (r: bool)
    ensures
        r == lists_url(row_models(rows@), url@),
{
    let mut i: usize = 0;
    while i < rows.len()
        invariant
            i <= rows@.len(),
            forall|k: int| 0 <= k < i ==> (#[trigger] row_models(rows@)[k]).url != url@,
        decreases rows@.len() - i,
    {
        if text::same(rows[i].url.as_str(), url) {
            assert(row_models(rows@)[i as int].url == url@);
            return true;
        }
        i += 1;
    }
    false
}

/// Keep the first link to each URL, and drop loopback once there is any other.
pub fn dedup_drop_loopback(rows: Vec<LinkRow>) -> (r: Vec<LinkRow>)
    ensures
        row_models(r@) == tidied(row_models(rows@)),
{
    let ghost all = row_models(rows@);
    let mut unique: Vec<LinkRow> = Vec::new();
    let mut i: usize = 0;
    assert(row_models(unique@) =~= unique_rows(all.take(0)));
    while i < rows.len()
        invariant
            i <= rows@.len(),
            all == row_models(rows@),
            row_models(unique@) == unique_rows(all.take(i as int)),
        decreases rows@.len() - i,
    {
        let ghost before = row_models(unique@);
        proof {
            assert(all.take(i + 1).drop_last() == all.take(i as int));
            assert(all.take(i + 1).last() == rows@[i as int]@);
        }
        if !has_url(&unique, rows[i].url.as_str()) {
            unique.push(copy_row(&rows[i]));
            assert(row_models(unique@) =~= before.push(rows@[i as int]@));
        }
        i += 1;
    }
    assert(all.take(rows@.len() as int) == all);
    let ghost kept = row_models(unique@);
    let mut outside: Vec<LinkRow> = Vec::new();
    let mut j: usize = 0;
    assert(row_models(outside@) =~= routable(kept.take(0)));
    while j < unique.len()
        invariant
            j <= unique@.len(),
            kept == row_models(unique@),
            row_models(outside@) == routable(kept.take(j as int)),
        decreases unique@.len() - j,
    {
        let ghost before = row_models(outside@);
        proof {
            assert(kept.take(j + 1).drop_last() == kept.take(j as int));
            assert(kept.take(j + 1).last() == unique@[j as int]@);
        }
        if !unique[j].loopback {
            outside.push(copy_row(&unique[j]));
            assert(row_models(outside@) =~= before.push(unique@[j as int]@));
        }
        j += 1;
    }
    assert(kept.take(unique@.len() as int) == kept);
    assert(row_models(outside@).len() == outside@.len());
    if outside.len() > 0 {
        outside
    } else {
        unique
    }
}

/// `host` is among `hosts`.
fn has_host(hosts: &Vec<HostRef>, host: &str) -> (r: bool)
    ensures
        r == lists_host(host_models(hosts@), host@),
{
    let mut i: usize = 0;
    while i < hosts.len()
        invariant
            i <= hosts@.len(),
            forall|k: int| 0 <= k < i ==> (#[trigger] host_models(hosts@)[k]).host != host@,
        decreases hosts@.len() - i,
    {
        if text::same(hosts[i].host.as_str(), host) {
            assert(host_models(hosts@)[i as int].host == host@);
            return true;
        }
        i += 1;
    }
    false
}

/// Append a group, unless it is empty.
fn push_group(
    out: &mut Vec<LinkGroup>,
    title: &'static str,
    desc: &'static str,
    rows: Vec<LinkRow>,
)
    ensures
        group_models(final(out)@) == group_models(old(out)@) + group_if_full(
            title@,
            desc@,
            row_models(rows@),
        ),
{
    let ghost start = group_models(out@);
    assert(row_models(rows@).len() == rows@.len());
    if rows.len() > 0 {
        out.push(LinkGroup { title, desc, rows });
        assert(group_models(out@) =~= start + group_if_full(title@, desc@, row_models(rows@)));
    } else {
        assert(start + group_if_full(title@, desc@, row_models(rows@)) =~= start);
    }
}

impl Dashboard {
    /// The LAN hosts, mDNS names first, taken from the advertised addresses.
    /// Loopback and tunnel hosts ride their own entries.
    fn lan_hosts(&self) -> (r: Vec<HostRef>)
        ensures
            host_models(r@) == lan_hosts_of(self@),
    {
        let mut near: Vec<AccessUrl> = Vec::new();
        assert(model::access_models(near@) =~= Seq::<AccessModel>::empty());
        push_rank(&mut near, &self.access_urls, 0);
        push_rank(&mut near, &self.access_urls, 1);
        let ghost all = model::access_models(near@);
        assert(all =~= of_rank(self@.access_urls, 0) + of_rank(self@.access_urls, 1));
        let mut out: Vec<HostRef> = Vec::new();
        let mut i: usize = 0;
        assert(host_models(out@) =~= hosts_of(all.take(0)));
        while i < near.len()
            invariant
                i <= near@.len(),
                all == model::access_models(near@),
                host_models(out@) == hosts_of(all.take(i as int)),
            decreases near@.len() - i,
        {
            let ghost before = host_models(out@);
            proof {
                assert(all.take(i + 1).drop_last() == all.take(i as int));
                assert(all.take(i + 1).last() == near@[i as int]@);
            }
            let host = reach::url_host(near[i].url.as_str());
            if host.as_str().unicode_len() > 0 && !has_host(&out, host.as_str()) {
                let ghost added = HostModel { host: host@, primary: near@[i as int].primary };
                out.push(HostRef { host, primary: near[i].primary });
                assert(host_models(out@) =~= before.push(added));
            }
            i += 1;
        }
        assert(all.take(near@.len() as int) == all);
        out
    }

    /// The links of one kind, best first, each URL once, loopback dropped once
    /// there is any other.
    fn rows_for(&self, kind: &str) -> (r: Vec<LinkRow>)
        ensures
            row_models(r@) == kind_rows(self@, kind@),
    {
        let mut sorted: Vec<AccessUrl> = Vec::new();
        assert(model::access_models(sorted@) =~= Seq::<AccessModel>::empty());
        push_rank(&mut sorted, &self.access_urls, 0);
        push_rank(&mut sorted, &self.access_urls, 1);
        push_rank(&mut sorted, &self.access_urls, 2);
        push_rank(&mut sorted, &self.access_urls, 3);
        let ghost all = model::access_models(sorted@);
        assert(all =~= best_first(self@.access_urls));
        let mut rows: Vec<LinkRow> = Vec::new();
        let mut i: usize = 0;
        assert(row_models(rows@) =~= of_kind(all.take(0), kind@));
        while i < sorted.len()
            invariant
                i <= sorted@.len(),
                all == model::access_models(sorted@),
                row_models(rows@) == of_kind(all.take(i as int), kind@),
            decreases sorted@.len() - i,
        {
            let ghost before = row_models(rows@);
            proof {
                assert(all.take(i + 1).drop_last() == all.take(i as int));
                assert(all.take(i + 1).last() == sorted@[i as int]@);
            }
            let item = &sorted[i];
            if text::same(item.kind.as_str(), kind) && item.url.as_str().unicode_len() > 0 {
                rows.push(
                    LinkRow {
                        url: item.url.clone(),
                        primary: item.primary,
                        loopback: reach::is_loopback_url(item.url.as_str()),
                    },
                );
                assert(row_models(rows@) =~= before.push(row_of(sorted@[i as int]@)));
            }
            i += 1;
        }
        assert(all.take(sorted@.len() as int) == all);
        dedup_drop_loopback(rows)
    }

    /// The best advertised URL of one kind.
    fn best_url(&self, kind: &str) -> (r: Option<String>)
        ensures
            text::opt_view(r) == (if kind_rows(self@, kind@).len() > 0 {
                Some(kind_rows(self@, kind@)[0].url)
            } else {
                None
            }),
    {
        let rows = self.rows_for(kind);
        assert(row_models(rows@).len() == rows@.len());
        if rows.len() > 0 {
            assert(row_models(rows@)[0] == rows@[0]@);
            Some(rows[0].url.clone())
        } else {
            None
        }
    }

    /// The ground-control links.
    fn control_links(&self) -> (r: Vec<LinkRow>)
        ensures
            row_models(r@) == control_rows(self@),
    {
        let hosts = self.lan_hosts();
        let ghost hs = host_models(hosts@);
        let tcp_port: u16 = match &self.mavlink_tcp_url {
            Some(u) => match reach::port_of(u.as_str()) {
                Some(p) => p,
                None => DEFAULT_TCP_PORT,
            },
            None => DEFAULT_TCP_PORT,
        };
        let ws_port: u16 = match &self.mavlink_ws_url {
            Some(u) => match reach::port_of(u.as_str()) {
                Some(p) => p,
                None => DEFAULT_WS_PORT,
            },
            None => DEFAULT_WS_PORT,
        };
        let tcp = text::decimal_of(tcp_port as u64);
        let ws = text::decimal_of(ws_port as u64);
        let mut rows: Vec<LinkRow> = Vec::new();
        assert(row_models(rows@) =~= Seq::<RowModel>::empty());
        if self.mavlink_tcp_url.is_some() || self.mavlink_ws_url.is_some() {
            let mut i: usize = 0;
            assert(row_models(rows@) =~= mavlink_rows(hs.take(0), tcp_port as nat, ws_port as nat));
            while i < hosts.len()
                invariant
                    i <= hosts@.len(),
                    hs == host_models(hosts@),
                    tcp@ == text::decimal(tcp_port as nat),
                    ws@ == text::decimal(ws_port as nat),
                    row_models(rows@) == mavlink_rows(
                        hs.take(i as int),
                        tcp_port as nat,
                        ws_port as nat,
                    ),
                decreases hosts@.len() - i,
            {
                let ghost before = row_models(rows@);
                proof {
                    assert(hs.take(i + 1).drop_last() == hs.take(i as int));
                    assert(hs.take(i + 1).last() == hs[i as int]);
                }
                let mut tcp_url = text::cat("tcp://", hosts[i].host.as_str());
                tcp_url.append(":");
                tcp_url.append(tcp.as_str());
                let mut ws_url = text::cat("ws://", hosts[i].host.as_str());
                ws_url.append(":");
                ws_url.append(ws.as_str());
                ws_url.append("/");
                let first = LinkRow { url: tcp_url, primary: hosts[i].primary, loopback: false };
                let second = LinkRow { url: ws_url, primary: false, loopback: false };
                let ghost a = first@;
                let ghost b = second@;
                rows.push(first);
                rows.push(second);
                assert(row_models(rows@) =~= before.push(a).push(b));
                i += 1;
            }
            assert(hs.take(hosts@.len() as int) == hs);
        }
        let ghost local = row_models(rows@);
        let ghost public: Seq<RowModel> = match self@.mavlink_public_ws_url {
            Some(u) => seq![RowModel { url: u, primary: false, loopback: false }],
            None => Seq::empty(),
        };
        match &self.mavlink_public_ws_url {
            Some(u) => {
                rows.push(LinkRow { url: u.clone(), primary: false, loopback: false });
            },
            None => {},
        }
        assert(row_models(rows@) =~= local + public);
        let advertised = self.rows_for("mavlink");
        push_rows(&mut rows, &advertised);
        dedup_drop_loopback(rows)
    }

    /// The video links.
    fn video_links(&self) -> (r: Vec<LinkRow>)
        ensures
            row_models(r@) == video_rows(self@),
    {
        let hosts = self.lan_hosts();
        let ghost hs = host_models(hosts@);
        let template = match self.best_url("video") {
            Some(u) => Some(u),
            None => text::copy_opt(&self.video_viewer),
        };
        let mut rows: Vec<LinkRow> = Vec::new();
        assert(row_models(rows@) =~= Seq::<RowModel>::empty());
        match &template {
            Some(u) => {
                let ghost all = projected(hs, u@);
                let mut i: usize = 0;
                assert(row_models(rows@) =~= all.take(0));
                while i < hosts.len()
                    invariant
                        i <= hosts@.len(),
                        hs == host_models(hosts@),
                        all == projected(hs, u@),
                        row_models(rows@) == all.take(i as int),
                    decreases hosts@.len() - i,
                {
                    let ghost before = row_models(rows@);
                    rows.push(
                        LinkRow {
                            url: reach::swap_host(u.as_str(), hosts[i].host.as_str()),
                            primary: hosts[i].primary,
                            loopback: false,
                        },
                    );
                    assert(row_models(rows@) =~= before.push(all[i as int]));
                    assert(before.push(all[i as int]) =~= all.take(i + 1));
                    i += 1;
                }
                assert(all.take(hosts@.len() as int) == all);
            },
            None => {},
        }
        let advertised = self.rows_for("video");
        push_rows(&mut rows, &advertised);
        dedup_drop_loopback(rows)
    }

    /// Every advertised link, grouped: the setup console, ground control,
    /// video, Mission Control, and remote access. A group without a link is
    /// left out.
    pub fn reach_links(&self) -> (r: Vec<LinkGroup>)
        ensures
            group_models(r@) == groups_of(self@),
    {
        let mut out: Vec<LinkGroup> = Vec::new();
        assert(group_models(out@) =~= Seq::<GroupModel>::empty());
        push_group(&mut out, "Console", "", self.rows_for("setup"));
        push_group(&mut out, "Ground control", "Conventional MAVLink", self.control_links());
        push_group(&mut out, "Video", "", self.video_links());
        push_group(&mut out, "Mission Control", "", self.rows_for("mission_control"));
        push_group(&mut out, "Remote", "", self.rows_for("cloud"));
        assert(group_models(out@) =~= groups_of(self@));
        out
    }

    /// The base addresses under which the node is added to a ground-control
    /// station.
    pub fn connect_links(&self) -> (r: Vec<LinkRow>)
        ensures
            row_models(r@) == connect_rows(self@),
    {
        let setup = self.rows_for("setup");
        let ghost all = row_models(setup@).map_values(
            |r: RowModel| RowModel { url: reach::base_of(r.url), ..r },
        );
        let mut rows: Vec<LinkRow> = Vec::new();
        let mut i: usize = 0;
        while i < setup.len()
            invariant
                i <= setup@.len(),
                rows@.len() == i,
                all.len() == setup@.len(),
                forall|k: int|
                    0 <= k < setup@.len() ==> #[trigger] all[k] == (RowModel {
                        url: reach::base_of(setup@[k].url@),
                        primary: setup@[k].primary,
                        loopback: setup@[k].loopback,
                    }),
                forall|k: int| 0 <= k < i ==> (#[trigger] rows@[k])@ == all[k],
            decreases setup@.len() - i,
        {
            rows.push(
                LinkRow {
                    url: reach::base_url(setup[i].url.as_str()),
                    primary: setup[i].primary,
                    loopback: setup[i].loopback,
                },
            );
            i += 1;
        }
        assert(row_models(rows@) =~= all);
        dedup_drop_loopback(rows)
    }
}

// ---------------------------------------------------------------------------
// laws
// ---------------------------------------------------------------------------

/// What a tidied list holds: each URL once, each row from the list it was made
/// of, and no URL of that list lost.
proof fn lemma_unique_rows(rows: Seq<RowModel>)
    ensures
        forall|i: int, j: int|
            0 <= i < j < unique_rows(rows).len() ==> (#[trigger] unique_rows(rows)[i]).url != (
            #[trigger] unique_rows(rows)[j]).url,
        forall|i: int|
            0 <= i < unique_rows(rows).len() ==> rows.contains(#[trigger] unique_rows(rows)[i]),
        forall|i: int|
            0 <= i < rows.len() ==> lists_url(unique_rows(rows), (#[trigger] rows[i]).url),
    decreases rows.len(),
{
    if rows.len() > 0 {
        let before = unique_rows(rows.drop_last());
        let after = unique_rows(rows);
        lemma_unique_rows(rows.drop_last());
        assert forall|i: int| 0 <= i < after.len() implies rows.contains(#[trigger] after[i]) by {
            if i < before.len() {
                assert(rows.drop_last().contains(before[i]));
                let k = choose|k: int|
                    0 <= k < rows.drop_last().len() && rows.drop_last()[k] == before[i];
                assert(rows[k] == after[i]);
            } else {
                assert(rows[rows.len() - 1] == after[i]);
            }
        }
        assert forall|i: int| 0 <= i < rows.len() implies lists_url(
            after,
            (#[trigger] rows[i]).url,
        ) by {
            if i < rows.len() - 1 {
                assert(rows.drop_last()[i] == rows[i]);
                let k = choose|k: int|
                    0 <= k < before.len() && (#[trigger] before[k]).url == rows[i].url;
                assert(after[k] == before[k]);
            } else if !lists_url(before, rows.last().url) {
                assert(after[before.len() as int].url == rows[i].url);
            }
        }
    }
}

/// What dropping loopback leaves: rows of the list that do not point at the
/// machine itself, in their order, none of them lost.
proof fn lemma_routable(rows: Seq<RowModel>)
    ensures
        forall|i: int|
            0 <= i < routable(rows).len() ==> !(#[trigger] routable(rows)[i]).loopback
                && rows.contains(routable(rows)[i]),
        forall|i: int|
            0 <= i < rows.len() && !(#[trigger] rows[i]).loopback ==> routable(rows).contains(
                rows[i],
            ),
        (forall|i: int, j: int|
            0 <= i < j < rows.len() ==> (#[trigger] rows[i]).url != (#[trigger] rows[j]).url)
            ==> (forall|i: int, j: int|
            0 <= i < j < routable(rows).len() ==> (#[trigger] routable(rows)[i]).url != (
            #[trigger] routable(rows)[j]).url),
    decreases rows.len(),
{
    if rows.len() > 0 {
        let front = rows.drop_last();
        let before = routable(front);
        let after = routable(rows);
        lemma_routable(front);
        assert forall|i: int| 0 <= i < after.len() implies !(#[trigger] after[i]).loopback
            && rows.contains(after[i]) by {
            if i < before.len() {
                assert(before[i] == after[i]);
                assert(front.contains(before[i]));
                let k = choose|k: int| 0 <= k < front.len() && front[k] == before[i];
                assert(rows[k] == after[i]);
            } else {
                assert(rows[rows.len() - 1] == after[i]);
            }
        }
        assert forall|i: int|
            0 <= i < rows.len() && !(#[trigger] rows[i]).loopback implies after.contains(
            rows[i],
        ) by {
            if i < front.len() {
                assert(front[i] == rows[i]);
                assert(before.contains(front[i]));
                let k = choose|k: int| 0 <= k < before.len() && before[k] == front[i];
                assert(after[k] == rows[i]);
            } else {
                assert(after[before.len() as int] == rows[i]);
            }
        }
        if forall|i: int, j: int|
            0 <= i < j < rows.len() ==> (#[trigger] rows[i]).url != (#[trigger] rows[j]).url {
            assert forall|i: int, j: int| 0 <= i < j < front.len() implies (
            #[trigger] front[i]).url != (#[trigger] front[j]).url by {
                assert(front[i] == rows[i] && front[j] == rows[j]);
            }
            assert forall|i: int, j: int| 0 <= i < j < after.len() implies (
            #[trigger] after[i]).url != (#[trigger] after[j]).url by {
                if j < before.len() {
                    assert(before[i] == after[i] && before[j] == after[j]);
                } else {
                    assert(before[i] == after[i]);
                    assert(front.contains(before[i]));
                    let k = choose|k: int| 0 <= k < front.len() && front[k] == before[i];
                    assert(rows[k].url != rows[rows.len() - 1].url);
                }
            }
        }
    }
}

/// No group lists a URL twice.
pub proof fn law_no_link_twice(rows: Seq<RowModel>)
    ensures
        forall|i: int, j: int|
            0 <= i < j < tidied(rows).len() ==> (#[trigger] tidied(rows)[i]).url != (
            #[trigger] tidied(rows)[j]).url,
{
    lemma_unique_rows(rows);
    lemma_routable(unique_rows(rows));
}

/// A group that has a link to elsewhere has no loopback link.
pub proof fn law_no_loopback_beside_a_routable_link(rows: Seq<RowModel>, i: int, j: int)
    requires
        0 <= i < tidied(rows).len(),
        0 <= j < tidied(rows).len(),
        !tidied(rows)[i].loopback,
    ensures
        !tidied(rows)[j].loopback,
{
    let unique = unique_rows(rows);
    lemma_routable(unique);
    if routable(unique).len() == 0 {
        assert(routable(unique).contains(unique[i]));
    }
}

/// Tidying makes no link up, and loses no URL unless it is a loopback link
/// beside one to elsewhere. A URL whose first mention is not loopback stays.
pub proof fn law_tidying_keeps_what_can_be_reached(rows: Seq<RowModel>, k: int)
    ensures
        0 <= k < tidied(rows).len() ==> rows.contains(tidied(rows)[k]),
        0 <= k < rows.len() && (forall|i: int|
            0 <= i < rows.len() && (#[trigger] rows[i]).url == rows[k].url ==> !rows[i].loopback)
            ==> lists_url(tidied(rows), rows[k].url),
        0 <= k < rows.len() && routable(unique_rows(rows)).len() == 0 ==> lists_url(
            tidied(rows),
            rows[k].url,
        ),
{
    let unique = unique_rows(rows);
    lemma_unique_rows(rows);
    lemma_routable(unique);
    if 0 <= k < tidied(rows).len() && routable(unique).len() > 0 {
        assert(unique.contains(routable(unique)[k]));
        let n = choose|n: int| 0 <= n < unique.len() && unique[n] == routable(unique)[k];
        assert(rows.contains(unique[n]));
    }
    if 0 <= k < rows.len() {
        assert(lists_url(unique, rows[k].url));
        let n = choose|n: int| 0 <= n < unique.len() && (#[trigger] unique[n]).url == rows[k].url;
        assert(rows.contains(unique[n]));
        let q = choose|q: int| 0 <= q < rows.len() && rows[q] == unique[n];
        assert(rows[q].url == rows[k].url);
        if !rows[q].loopback && routable(unique).len() > 0 {
            assert(routable(unique).contains(unique[n]));
            let z = choose|z: int| 0 <= z < routable(unique).len() && routable(unique)[z]
                == unique[n];
            assert(tidied(rows)[z].url == rows[k].url);
        }
    }
}

/// `a` is `b` with some links left out.
pub open spec fn thinned(a: Seq<RowModel>, b: Seq<RowModel>) -> bool
    decreases b.len(),
{
    if b.len() == 0 {
        a.len() == 0
    } else {
        ||| thinned(a, b.drop_last())
        ||| a.len() > 0 && a.last() == b.last() && thinned(a.drop_last(), b.drop_last())
    }
}

proof fn lemma_thinned_empty(b: Seq<RowModel>)
    ensures
        thinned(Seq::empty(), b),
    decreases b.len(),
{
    if b.len() > 0 {
        lemma_thinned_empty(b.drop_last());
    }
}

proof fn lemma_thinned_twice(a: Seq<RowModel>, b: Seq<RowModel>, c: Seq<RowModel>)
    requires
        thinned(a, b),
        thinned(b, c),
    ensures
        thinned(a, c),
    decreases c.len(),
{
    if b.len() == 0 {
        assert(a =~= Seq::<RowModel>::empty());
        lemma_thinned_empty(c);
    } else if thinned(b, c.drop_last()) {
        lemma_thinned_twice(a, b, c.drop_last());
    } else if thinned(a, b.drop_last()) {
        lemma_thinned_twice(a, b.drop_last(), c.drop_last());
    } else {
        lemma_thinned_twice(a.drop_last(), b.drop_last(), c.drop_last());
    }
}

proof fn lemma_unique_is_thinned(rows: Seq<RowModel>)
    ensures
        thinned(unique_rows(rows), rows),
    decreases rows.len(),
{
    if rows.len() > 0 {
        let before = unique_rows(rows.drop_last());
        lemma_unique_is_thinned(rows.drop_last());
        assert(before.push(rows.last()).drop_last() =~= before);
    }
}

proof fn lemma_routable_is_thinned(rows: Seq<RowModel>)
    ensures
        thinned(routable(rows), rows),
    decreases rows.len(),
{
    if rows.len() > 0 {
        let before = routable(rows.drop_last());
        lemma_routable_is_thinned(rows.drop_last());
        assert(before.push(rows.last()).drop_last() =~= before);
    }
}

/// Tidying leaves links out and keeps the order of the others.
pub proof fn law_tidying_keeps_the_order(rows: Seq<RowModel>)
    ensures
        thinned(tidied(rows), rows),
{
    let unique = unique_rows(rows);
    lemma_unique_is_thinned(rows);
    lemma_routable_is_thinned(unique);
    if routable(unique).len() > 0 {
        lemma_thinned_twice(routable(unique), unique, rows);
    }
}

/// Links of which no URL occurs twice are their own first mentions.
proof fn lemma_unique_of_distinct(rows: Seq<RowModel>)
    requires
        forall|i: int, j: int|
            0 <= i < j < rows.len() ==> (#[trigger] rows[i]).url != (#[trigger] rows[j]).url,
    ensures
        unique_rows(rows) == rows,
    decreases rows.len(),
{
    if rows.len() > 0 {
        let front = rows.drop_last();
        assert forall|i: int, j: int| 0 <= i < j < front.len() implies (#[trigger] front[i]).url
            != (#[trigger] front[j]).url by {
            assert(front[i] == rows[i] && front[j] == rows[j]);
        }
        lemma_unique_of_distinct(front);
        if lists_url(front, rows.last().url) {
            let i = choose|i: int|
                0 <= i < front.len() && (#[trigger] front[i]).url == rows.last().url;
            assert(rows[i].url != rows[rows.len() - 1].url);
        }
        assert(front.push(rows.last()) =~= rows);
    } else {
        assert(unique_rows(rows) =~= rows);
    }
}

proof fn lemma_routable_of_routable(rows: Seq<RowModel>)
    requires
        forall|i: int| 0 <= i < rows.len() ==> !(#[trigger] rows[i]).loopback,
    ensures
        routable(rows) == rows,
    decreases rows.len(),
{
    if rows.len() > 0 {
        let front = rows.drop_last();
        assert forall|i: int| 0 <= i < front.len() implies !(#[trigger] front[i]).loopback by {
            assert(front[i] == rows[i]);
        }
        lemma_routable_of_routable(front);
        assert(!rows[rows.len() - 1].loopback);
        assert(front.push(rows.last()) =~= rows);
    } else {
        assert(routable(rows) =~= rows);
    }
}

/// Tidying twice is tidying once.
pub proof fn law_tidying_twice_is_tidying_once(rows: Seq<RowModel>)
    ensures
        tidied(tidied(rows)) == tidied(rows),
{
    let unique = unique_rows(rows);
    law_no_link_twice(rows);
    lemma_unique_of_distinct(tidied(rows));
    lemma_routable(unique);
    if routable(unique).len() > 0 {
        lemma_routable_of_routable(routable(unique));
    }
}

/// Every group shown holds a link.
pub proof fn law_no_group_is_empty(m: DashboardModel, i: int)
    requires
        0 <= i < groups_of(m).len(),
    ensures
        groups_of(m)[i].rows.len() > 0,
{
}

proof fn lemma_of_rank(urls: Seq<AccessModel>, k: u8)
    ensures
        forall|i: int|
            0 <= i < of_rank(urls, k).len() ==> reach::rank((#[trigger] of_rank(urls, k)[i]).url)
                == k && urls.contains(of_rank(urls, k)[i]),
    decreases urls.len(),
{
    if urls.len() > 0 {
        let front = urls.drop_last();
        let before = of_rank(front, k);
        let after = of_rank(urls, k);
        lemma_of_rank(front, k);
        assert forall|i: int| 0 <= i < after.len() implies reach::rank((#[trigger] after[i]).url)
            == k && urls.contains(after[i]) by {
            if i < before.len() {
                assert(before[i] == after[i]);
                assert(front.contains(before[i]));
                let n = choose|n: int| 0 <= n < front.len() && front[n] == before[i];
                assert(urls[n] == after[i]);
            } else {
                assert(urls[urls.len() - 1] == after[i]);
            }
        }
    }
}

proof fn lemma_ranks_count(urls: Seq<AccessModel>)
    ensures
        best_first(urls).to_multiset() == urls.to_multiset(),
    decreases urls.len(),
{
    broadcast use vstd::seq_lib::group_to_multiset_ensures;

    if urls.len() == 0 {
        assert(best_first(urls) =~= urls);
    } else {
        let front = urls.drop_last();
        let u = urls.last();
        lemma_ranks_count(front);
        let (a, b, c, d) = (of_rank(front, 0), of_rank(front, 1), of_rank(front, 2), of_rank(front, 3));
        vstd::seq_lib::lemma_multiset_commutative(a, b);
        vstd::seq_lib::lemma_multiset_commutative(a + b, c);
        vstd::seq_lib::lemma_multiset_commutative(a + b + c, d);
        let (a2, b2, c2, d2) = (of_rank(urls, 0), of_rank(urls, 1), of_rank(urls, 2), of_rank(urls, 3));
        vstd::seq_lib::lemma_multiset_commutative(a2, b2);
        vstd::seq_lib::lemma_multiset_commutative(a2 + b2, c2);
        vstd::seq_lib::lemma_multiset_commutative(a2 + b2 + c2, d2);
        assert(urls =~= front.push(u));
        assert(best_first(urls).to_multiset() =~= best_first(front).to_multiset().insert(u));
    }
}

/// Ordering by reach loses no address and adds none, and puts no address
/// before one that is reached from farther away.
pub proof fn law_best_first_is_an_ordering(urls: Seq<AccessModel>)
    ensures
        best_first(urls).to_multiset() == urls.to_multiset(),
        forall|i: int, j: int|
            0 <= i < j < best_first(urls).len() ==> reach::rank((#[trigger] best_first(urls)[i]).url)
                <= reach::rank((#[trigger] best_first(urls)[j]).url),
{
    lemma_ranks_count(urls);
    lemma_of_rank(urls, 0);
    lemma_of_rank(urls, 1);
    lemma_of_rank(urls, 2);
    lemma_of_rank(urls, 3);
    let r0 = of_rank(urls, 0);
    let r1 = of_rank(urls, 1);
    let r2 = of_rank(urls, 2);
    let r3 = of_rank(urls, 3);
    assert forall|i: int| 0 <= i < best_first(urls).len() implies reach::rank(
        (#[trigger] best_first(urls)[i]).url,
    ) == (if i < r0.len() {
        0u8
    } else if i < r0.len() + r1.len() {
        1u8
    } else if i < r0.len() + r1.len() + r2.len() {
        2u8
    } else {
        3u8
    }) by {
        if i < r0.len() {
            assert(best_first(urls)[i] == r0[i]);
        } else if i < r0.len() + r1.len() {
            assert(best_first(urls)[i] == r1[i - r0.len()]);
        } else if i < r0.len() + r1.len() + r2.len() {
            assert(best_first(urls)[i] == r2[i - r0.len() - r1.len()]);
        } else {
            assert(best_first(urls)[i] == r3[i - r0.len() - r1.len() - r2.len()]);
        }
    }
}

proof fn lemma_hosts_of(urls: Seq<AccessModel>)
    ensures
        forall|i: int|
            0 <= i < hosts_of(urls).len() ==> (#[trigger] hosts_of(urls)[i]).host.len() > 0
                && exists|k: int|
                0 <= k < urls.len() && reach::host_of((#[trigger] urls[k]).url)
                    == hosts_of(urls)[i].host,
        forall|i: int, j: int|
            0 <= i < j < hosts_of(urls).len() ==> (#[trigger] hosts_of(urls)[i]).host != (
            #[trigger] hosts_of(urls)[j]).host,
    decreases urls.len(),
{
    if urls.len() > 0 {
        let front = urls.drop_last();
        let before = hosts_of(front);
        let after = hosts_of(urls);
        lemma_hosts_of(front);
        assert forall|i: int| 0 <= i < after.len() implies (#[trigger] after[i]).host.len() > 0
            && exists|k: int|
            0 <= k < urls.len() && reach::host_of((#[trigger] urls[k]).url) == after[i].host by {
            if i < before.len() {
                assert(before[i] == after[i]);
                let k = choose|k: int|
                    0 <= k < front.len() && reach::host_of((#[trigger] front[k]).url)
                        == before[i].host;
                assert(urls[k] == front[k]);
            } else {
                assert(reach::host_of(urls[urls.len() - 1].url) == after[i].host);
            }
        }
    }
}

/// Services are projected onto LAN hosts only: each such host is the host of an
/// advertised mDNS or LAN address, and none is listed twice.
pub proof fn law_projection_stays_on_the_lan(m: DashboardModel, i: int)
    requires
        0 <= i < lan_hosts_of(m).len(),
    ensures
        exists|k: int|
            0 <= k < m.access_urls.len() && reach::rank((#[trigger] m.access_urls[k]).url) <= 1
                && reach::host_of(m.access_urls[k].url) == lan_hosts_of(m)[i].host,
        forall|j: int| 0 <= j < i ==> (#[trigger] lan_hosts_of(m)[j]).host != lan_hosts_of(m)[i].host,
{
    let near = of_rank(m.access_urls, 0) + of_rank(m.access_urls, 1);
    lemma_hosts_of(near);
    lemma_of_rank(m.access_urls, 0);
    lemma_of_rank(m.access_urls, 1);
    let k = choose|k: int|
        0 <= k < near.len() && reach::host_of((#[trigger] near[k]).url) == lan_hosts_of(m)[i].host;
    let u = near[k];
    if k < of_rank(m.access_urls, 0).len() {
        assert(u == of_rank(m.access_urls, 0)[k]);
    } else {
        assert(u == of_rank(m.access_urls, 1)[k - of_rank(m.access_urls, 0).len()]);
    }
    assert(reach::rank(u.url) <= 1);
    assert(m.access_urls.contains(u));
    let n = choose|n: int| 0 <= n < m.access_urls.len() && m.access_urls[n] == u;
    assert(m.access_urls[n].url == u.url);
}

/// The link of an address keeps its URL and whether it is the primary one, and
/// is a loopback link exactly where its host is the machine itself.
pub proof fn law_a_link_keeps_its_address(u: AccessModel)
    ensures
        row_of(u).url == u.url,
        row_of(u).primary == u.primary,
        row_of(u).loopback <==> reach::rank(u.url) == 3,
{
}

/// The links of a kind are those of the addresses of that kind that are not
/// empty, in their order.
pub proof fn law_links_are_sorted_by_kind(urls: Seq<AccessModel>, u: AccessModel, kind: Seq<char>)
    ensures
        of_kind(Seq::empty(), kind) == Seq::<RowModel>::empty(),
        u.kind == kind && u.url.len() > 0 ==> of_kind(urls.push(u), kind) == of_kind(
            urls,
            kind,
        ).push(row_of(u)),
        u.kind != kind || u.url.len() == 0 ==> of_kind(urls.push(u), kind) == of_kind(urls, kind),
{
    assert(urls.push(u).drop_last() =~= urls);
}

/// Addresses of one reach priority keep their order.
pub proof fn law_equals_keep_their_order(urls: Seq<AccessModel>, u: AccessModel, k: u8)
    ensures
        of_rank(Seq::empty(), k) == Seq::<AccessModel>::empty(),
        reach::rank(u.url) == k ==> of_rank(urls.push(u), k) == of_rank(urls, k).push(u),
        reach::rank(u.url) != k ==> of_rank(urls.push(u), k) == of_rank(urls, k),
{
    assert(urls.push(u).drop_last() =~= urls);
}

/// Every address on the LAN, by name or by number, has its host among the LAN
/// hosts.
pub proof fn law_every_lan_address_counts(m: DashboardModel, k: int)
    requires
        0 <= k < m.access_urls.len(),
        reach::rank(m.access_urls[k].url) <= 1,
        reach::host_of(m.access_urls[k].url).len() > 0,
    ensures
        lists_host(lan_hosts_of(m), reach::host_of(m.access_urls[k].url)),
{
    let u = m.access_urls[k];
    let a = of_rank(m.access_urls, 0);
    let b = of_rank(m.access_urls, 1);
    let r = reach::rank(u.url);
    lemma_rank_keeps(m.access_urls, r, k);
    let own = of_rank(m.access_urls, r);
    let j = choose|j: int| 0 <= j < own.len() && own[j] == u;
    let at: int = if r == 0 {
        j
    } else {
        a.len() + j
    };
    assert((a + b)[at] == u);
    lemma_hosts_listed(a + b, at);
}

proof fn lemma_rank_keeps(urls: Seq<AccessModel>, r: u8, k: int)
    requires
        0 <= k < urls.len(),
        reach::rank(urls[k].url) == r,
    ensures
        exists|j: int| 0 <= j < of_rank(urls, r).len() && #[trigger] of_rank(urls, r)[j] == urls[k],
    decreases urls.len(),
{
    let front = urls.drop_last();
    let before = of_rank(front, r);
    if k < front.len() {
        lemma_rank_keeps(front, r, k);
        let j = choose|j: int| 0 <= j < before.len() && #[trigger] before[j] == front[k];
        assert(of_rank(urls, r)[j] == urls[k]);
    } else {
        assert(of_rank(urls, r)[before.len() as int] == urls[k]);
    }
}

proof fn lemma_hosts_listed(urls: Seq<AccessModel>, k: int)
    requires
        0 <= k < urls.len(),
        reach::host_of(urls[k].url).len() > 0,
    ensures
        lists_host(hosts_of(urls), reach::host_of(urls[k].url)),
    decreases urls.len(),
{
    let front = urls.drop_last();
    let before = hosts_of(front);
    let all = hosts_of(urls);
    if k < front.len() {
        lemma_hosts_listed(front, k);
        let host = reach::host_of(urls[k].url);
        let i = choose|i: int| 0 <= i < before.len() && (#[trigger] before[i]).host == host;
        assert(all[i].host == host);
    } else if !lists_host(before, reach::host_of(urls[k].url)) {
        assert(all[before.len() as int].host == reach::host_of(urls[k].url));
    }
}

/// Every host has a TCP endpoint, which is the primary link where the host is,
/// and a WebSocket endpoint behind it.
pub proof fn law_every_host_has_both_endpoints(
    hosts: Seq<HostModel>,
    tcp: nat,
    ws: nat,
    i: int,
)
    requires
        0 <= i < hosts.len(),
    ensures
        mavlink_rows(hosts, tcp, ws).len() == 2 * hosts.len(),
        mavlink_rows(hosts, tcp, ws)[2 * i] == (RowModel {
            url: "tcp://"@ + hosts[i].host + ":"@ + text::decimal(tcp),
            primary: hosts[i].primary,
            loopback: false,
        }),
        mavlink_rows(hosts, tcp, ws)[2 * i + 1] == (RowModel {
            url: "ws://"@ + hosts[i].host + ":"@ + text::decimal(ws) + "/"@,
            primary: false,
            loopback: false,
        }),
    decreases hosts.len(),
{
    let front = hosts.drop_last();
    lemma_two_a_host(front, tcp, ws);
    if i < front.len() {
        law_every_host_has_both_endpoints(front, tcp, ws, i);
        assert(front[i] == hosts[i]);
    }
}

proof fn lemma_two_a_host(hosts: Seq<HostModel>, tcp: nat, ws: nat)
    ensures
        mavlink_rows(hosts, tcp, ws).len() == 2 * hosts.len(),
        forall|k: int|
            0 <= k < mavlink_rows(hosts, tcp, ws).len() ==> !(#[trigger] mavlink_rows(
                hosts,
                tcp,
                ws,
            )[k]).loopback,
    decreases hosts.len(),
{
    if hosts.len() > 0 {
        lemma_two_a_host(hosts.drop_last(), tcp, ws);
        let before = mavlink_rows(hosts.drop_last(), tcp, ws);
        let all = mavlink_rows(hosts, tcp, ws);
        assert forall|k: int| 0 <= k < all.len() implies !(#[trigger] all[k]).loopback by {
            if k < before.len() {
                assert(all[k] == before[k]);
            }
        }
    }
}

/// The ports of the endpoints are those that the node names, and 5760 and 8765
/// where it names none.
pub proof fn law_the_ports_of_the_endpoints(url: Seq<char>, default: nat, p: nat)
    ensures
        port_or(None, default) == default,
        reach::port_in(url) is None ==> port_or(Some(url), default) == default,
        reach::port_in(url) == Some(p) ==> port_or(Some(url), default) == p,
        DEFAULT_TCP_PORT == 5760,
        DEFAULT_WS_PORT == 8765,
{
}

proof fn lemma_first_mentions_stay(rows: Seq<RowModel>, k: int)
    requires
        0 <= k < rows.len(),
        forall|j: int| 0 <= j <= k ==> !(#[trigger] rows[j]).loopback,
    ensures
        lists_url(tidied(rows), rows[k].url),
{
    let unique = unique_rows(rows);
    lemma_unique_reaches(rows, k);
    let i = choose|i: int|
        0 <= i < unique.len() && (#[trigger] unique[i]).url == rows[k].url && !unique[i].loopback;
    lemma_routable(unique);
    assert(routable(unique).contains(unique[i]));
    let x = choose|x: int| 0 <= x < routable(unique).len() && routable(unique)[x] == unique[i];
    assert(tidied(rows)[x].url == rows[k].url);
}

proof fn lemma_unique_reaches(rows: Seq<RowModel>, k: int)
    requires
        0 <= k < rows.len(),
        forall|j: int| 0 <= j <= k ==> !(#[trigger] rows[j]).loopback,
    ensures
        exists|i: int|
            0 <= i < unique_rows(rows).len() && (#[trigger] unique_rows(rows)[i]).url
                == rows[k].url && !unique_rows(rows)[i].loopback,
    decreases rows.len(),
{
    let front = rows.drop_last();
    let before = unique_rows(front);
    let all = unique_rows(rows);
    if k < front.len() {
        assert forall|j: int| 0 <= j <= k implies !(#[trigger] front[j]).loopback by {
            assert(front[j] == rows[j]);
        }
        lemma_unique_reaches(front, k);
        let i = choose|i: int|
            0 <= i < before.len() && (#[trigger] before[i]).url == front[k].url
                && !before[i].loopback;
        assert(all[i] == before[i]);
    } else if lists_url(before, rows[k].url) {
        let i = choose|i: int| 0 <= i < before.len() && (#[trigger] before[i]).url == rows[k].url;
        lemma_unique_rows(front);
        assert(front.contains(before[i]));
        let j = choose|j: int| 0 <= j < front.len() && front[j] == before[i];
        assert(!rows[j].loopback);
        assert(all[i] == before[i]);
    } else {
        assert(all[before.len() as int] == rows[k]);
    }
}

/// A node that names a MAVLink endpoint is reached over TCP and over WebSocket
/// on every LAN host, at the ports that it names.
pub proof fn law_ground_control_reaches_every_host(m: DashboardModel, i: int)
    requires
        m.mavlink_tcp_url is Some || m.mavlink_ws_url is Some,
        0 <= i < lan_hosts_of(m).len(),
    ensures
        lists_url(
            control_rows(m),
            "tcp://"@ + lan_hosts_of(m)[i].host + ":"@ + text::decimal(
                port_or(m.mavlink_tcp_url, 5760),
            ),
        ),
        lists_url(
            control_rows(m),
            "ws://"@ + lan_hosts_of(m)[i].host + ":"@ + text::decimal(
                port_or(m.mavlink_ws_url, 8765),
            ) + "/"@,
        ),
{
    let tcp = port_or(m.mavlink_tcp_url, 5760);
    let ws = port_or(m.mavlink_ws_url, 8765);
    let hosts = lan_hosts_of(m);
    let local = mavlink_rows(hosts, tcp, ws);
    let public = match m.mavlink_public_ws_url {
        Some(u) => seq![RowModel { url: u, primary: false, loopback: false }],
        None => Seq::empty(),
    };
    let all = local + public + kind_rows(m, "mavlink"@);
    lemma_two_a_host(hosts, tcp, ws);
    law_every_host_has_both_endpoints(hosts, tcp, ws, i);
    assert forall|j: int| 0 <= j < local.len() implies !(#[trigger] all[j]).loopback by {
        assert(all[j] == local[j]);
    }
    assert(all[2 * i] == local[2 * i]);
    assert(all[2 * i + 1] == local[2 * i + 1]);
    lemma_first_mentions_stay(all, 2 * i);
    lemma_first_mentions_stay(all, 2 * i + 1);
}

/// The public endpoint is always among the ground-control links.
pub proof fn law_the_public_endpoint_shows(m: DashboardModel)
    requires
        m.mavlink_public_ws_url is Some,
    ensures
        lists_url(control_rows(m), m.mavlink_public_ws_url->0),
{
    let local = if m.mavlink_tcp_url is Some || m.mavlink_ws_url is Some {
        mavlink_rows(
            lan_hosts_of(m),
            port_or(m.mavlink_tcp_url, DEFAULT_TCP_PORT as nat),
            port_or(m.mavlink_ws_url, DEFAULT_WS_PORT as nat),
        )
    } else {
        Seq::empty()
    };
    lemma_two_a_host(
        lan_hosts_of(m),
        port_or(m.mavlink_tcp_url, DEFAULT_TCP_PORT as nat),
        port_or(m.mavlink_ws_url, DEFAULT_WS_PORT as nat),
    );
    let public = seq![RowModel { url: m.mavlink_public_ws_url->0, primary: false, loopback: false }];
    let all = local + public + kind_rows(m, "mavlink"@);
    assert forall|j: int| 0 <= j <= local.len() implies !(#[trigger] all[j]).loopback by {
        if j < local.len() {
            assert(all[j] == local[j]);
        } else {
            assert(all[j] == public[0]);
        }
    }
    assert(all[local.len() as int].url == m.mavlink_public_ws_url->0);
    lemma_first_mentions_stay(all, local.len() as int);
}

/// The viewer is reached on every LAN host.
pub proof fn law_the_viewer_is_reached_on_every_host(m: DashboardModel, i: int)
    requires
        viewer_template(m) is Some,
        0 <= i < lan_hosts_of(m).len(),
    ensures
        lists_url(
            video_rows(m),
            reach::rehosted(viewer_template(m)->0, lan_hosts_of(m)[i].host),
        ),
        kind_rows(m, "video"@).len() > 0 ==> viewer_template(m) == Some(
            kind_rows(m, "video"@)[0].url,
        ),
        kind_rows(m, "video"@).len() == 0 ==> viewer_template(m) == m.video_viewer,
{
    let local = projected(lan_hosts_of(m), viewer_template(m)->0);
    let all = local + kind_rows(m, "video"@);
    assert forall|j: int| 0 <= j < local.len() implies !(#[trigger] all[j]).loopback by {
        assert(all[j] == local[j]);
    }
    assert(all[i] == local[i]);
    lemma_first_mentions_stay(all, i);
}

/// A group shows exactly where it has links: the console, ground control, video,
/// Mission Control and remote groups, in this order.
pub proof fn law_the_order_of_the_groups(m: DashboardModel)
    ensures
        ({
            let g = groups_of(m);
            let console = kind_rows(m, "setup"@);
            let control = control_rows(m);
            let video = video_rows(m);
            let mission = kind_rows(m, "mission_control"@);
            let remote = kind_rows(m, "cloud"@);
            let one = |rows: Seq<RowModel>| if rows.len() > 0 { 1int } else { 0int };
            let (a, b, c, d) = (
                one(console),
                one(console) + one(control),
                one(console) + one(control) + one(video),
                one(console) + one(control) + one(video) + one(mission),
            );
            &&& g.len() == d + one(remote)
            &&& console.len() > 0 ==> g[0].title == "Console"@ && g[0].rows == console
            &&& control.len() > 0 ==> g[a].title == "Ground control"@ && g[a].rows == control
                && g[a].desc == "Conventional MAVLink"@
            &&& video.len() > 0 ==> g[b].title == "Video"@ && g[b].rows == video
            &&& mission.len() > 0 ==> g[c].title == "Mission Control"@ && g[c].rows == mission
            &&& remote.len() > 0 ==> g[d].title == "Remote"@ && g[d].rows == remote
        }),
{
}

/// The links for a ground-control station are the console links, each without
/// what follows the port.
pub proof fn law_the_station_is_pointed_at_the_base(m: DashboardModel, k: int)
    requires
        0 <= k < kind_rows(m, "setup"@).len(),
        !kind_rows(m, "setup"@)[k].loopback,
        forall|j: int| 0 <= j < k ==> !(#[trigger] kind_rows(m, "setup"@)[j]).loopback,
    ensures
        lists_url(connect_rows(m), reach::base_of(kind_rows(m, "setup"@)[k].url)),
{
    let rows = kind_rows(m, "setup"@).map_values(
        |r: RowModel| RowModel { url: reach::base_of(r.url), ..r },
    );
    assert forall|j: int| 0 <= j <= k implies !(#[trigger] rows[j]).loopback by {
        assert(rows[j].loopback == kind_rows(m, "setup"@)[j].loopback);
    }
    lemma_first_mentions_stay(rows, k);
}

/// The model of a link and of a group is what its fields hold, and lists of them
/// are modelled one for one.
pub proof fn law_links_are_what_they_hold(v: Seq<LinkRow>, w: Seq<LinkGroup>, i: int)
    ensures
        row_models(v).len() == v.len(),
        group_models(w).len() == w.len(),
        0 <= i < v.len() ==> row_models(v)[i].url == v[i].url@ && row_models(v)[i].primary
            == v[i].primary && row_models(v)[i].loopback == v[i].loopback,
        0 <= i < w.len() ==> group_models(w)[i].title == w[i].title@ && group_models(w)[i].desc
            == w[i].desc@ && group_models(w)[i].rows == row_models(w[i].rows@),
{
}

} // verus!
