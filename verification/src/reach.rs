//! How far away an advertised address can be reached from, and how the parts of
//! an address are taken apart and put together again.
use crate::text;
use vstd::prelude::*;

verus! {

/// The characters that end the authority of a URL.
pub open spec fn ends_authority() -> spec_fn(char) -> bool {
    |c: char| c == '/' || c == '?' || c == '#'
}

/// What follows the `://` of a URL; all of it when there is none.
pub open spec fn after_scheme(url: Seq<char>) -> Seq<char> {
    let i = text::first_at(url, "://"@, 0);
    if i < 0 {
        url
    } else {
        url.skip(i + 3)
    }
}

/// The host and port of a URL, as they stand in it.
pub open spec fn authority(url: Seq<char>) -> Seq<char> {
    let rest = after_scheme(url);
    rest.take(text::run_before(rest, ends_authority()) as int)
}

/// What follows the authority of a URL.
pub open spec fn tail(url: Seq<char>) -> Seq<char> {
    let rest = after_scheme(url);
    rest.skip(text::run_before(rest, ends_authority()) as int)
}

/// The part of an authority in which a port can stand: past any bracketed
/// address.
pub open spec fn past_brackets(a: Seq<char>) -> Seq<char> {
    a.skip(text::last_at(a, ']') + 1)
}

/// The host of a URL, in small letters.
pub open spec fn host_of(url: Seq<char>) -> Seq<char> {
    let a = authority(url);
    text::lowered(
        if a.len() > 0 && a[0] == '[' {
            a.skip(1).take(text::run_before_char(a.skip(1), ']') as int)
        } else if text::last_at(a, ':') < 0 {
            a
        } else {
            a.take(text::last_at(a, ':'))
        },
    )
}

/// A host name or address of the machine itself.
pub open spec fn loopback_host(h: Seq<char>) -> bool {
    h == "localhost"@ || h == "::1"@ || "127."@.is_prefix_of(h)
}

/// One octet of a dotted address.
pub open spec fn octet(p: Seq<char>) -> bool {
    text::all_digits(p) && text::number(p) <= 255
}

/// Four octets with dots between them.
pub open spec fn dotted_quad(h: Seq<char>) -> bool {
    let parts = text::pieces_on(h, '.');
    parts.len() == 4 && octet(parts[0]) && octet(parts[1]) && octet(parts[2]) && octet(parts[3])
}

/// The reach priority of a URL, lowest first: an mDNS name, a LAN address, any
/// other host, the machine itself.
pub open spec fn rank(url: Seq<char>) -> u8 {
    let h = host_of(url);
    if loopback_host(h) {
        3
    } else if ".local"@.is_suffix_of(h) {
        0
    } else if dotted_quad(h) {
        1
    } else {
        2
    }
}

/// The port in the authority of a URL.
pub open spec fn port_in(url: Seq<char>) -> Option<nat> {
    let after = past_brackets(authority(url));
    let k = text::last_at(after, ':');
    if k < 0 {
        None
    } else {
        text::unsigned(after.skip(k + 1), 0xffff)
    }
}

/// `url` with its host replaced by `host`; scheme, port and what follows stay.
pub open spec fn rehosted(url: Seq<char>, host: Seq<char>) -> Seq<char> {
    let after = past_brackets(authority(url));
    let k = text::last_at(after, ':');
    let port = if k < 0 {
        Seq::empty()
    } else {
        after.skip(k)
    };
    let i = text::first_at(url, "://"@, 0);
    let scheme = if i < 0 {
        Seq::empty()
    } else {
        url.take(i + 3)
    };
    scheme + host + port + tail(url)
}

/// `url` without what follows its authority.
pub open spec fn base_of(url: Seq<char>) -> Seq<char> {
    url.take(url.len() - tail(url).len())
}

// ---------------------------------------------------------------------------
// taking an address apart
// ---------------------------------------------------------------------------

/// The characters of a URL past its `://`, and where in it they begin.
fn split_scheme(url: &str) -> (r: (usize, Vec<char>))
    ensures
        r.1@ == after_scheme(url@),
        ({
            let i = text::first_at(url@, "://"@, 0);
            r.0 == (if i < 0 {
                0
            } else {
                i + 3
            })
        }),
        r.0 <= url@.len(),
{
    proof {
        reveal_strlit("://");
    }
    match text::first(url, "://") {
        Some(i) => {
            let v = text::chars_of(url);
            let n: usize = v.len();
            assert(i + 3 <= n);
            let rest = text::slice_text(&v, i + 3, n);
            assert(rest@ =~= url@.skip(i + 3));
            (i + 3, text::chars_of(rest.as_str()))
        },
        None => (0, text::chars_of(url)),
    }
}

/// The length of the authority at the front of `v`.
fn authority_len(v: &Vec<char>) -> (r: usize)
    ensures
        r == text::run_before(v@, ends_authority()),
        r <= v@.len(),
{
    let n: usize = v.len();
    let mut k: usize = 0;
    assert(v@.skip(0) == v@);
    while k < n && v[k] != '/' && v[k] != '?' && v[k] != '#'
        invariant
            n == v@.len(),
            k <= n,
            text::run_before(v@, ends_authority()) == k + text::run_before(
                v@.skip(k as int),
                ends_authority(),
            ),
        decreases n - k,
    {
        assert(v@.skip(k as int).drop_first() == v@.skip(k + 1));
        k += 1;
    }
    k
}

/// The authority of a URL.
fn authority_of(url: &str) -> (r: Vec<char>)
    ensures
        r@ == authority(url@),
{
    let (_, rest) = split_scheme(url);
    let n: usize = authority_len(&rest);
    let a = text::slice_text(&rest, 0, n);
    assert(a@ =~= authority(url@));
    text::chars_of(a.as_str())
}

/// The part of an authority past any bracketed address.
fn past_brackets_of(a: &Vec<char>) -> (r: Vec<char>)
    ensures
        r@ == past_brackets(a@),
{
    let n: usize = a.len();
    let start: usize = match text::find_last(a, ']') {
        Some(i) => i + 1,
        None => 0,
    };
    let s = text::slice_text(a, start, n);
    assert(s@ =~= past_brackets(a@));
    text::chars_of(s.as_str())
}

/// The host of a URL in small letters, without scheme, port and path.
pub fn url_host(url: &str) -> (r: String)
    ensures
        r@ == host_of(url@),
{
    let a = authority_of(url);
    let host = if a.len() > 0 && a[0] == '[' {
        let n: usize = text::run_to(&a, 1, ']');
        let h = text::slice_text(&a, 1, 1 + n);
        assert(h@ =~= a@.skip(1).take(n as int));
        h
    } else {
        match text::find_last(&a, ':') {
            Some(k) => {
                let h = text::slice_text(&a, 0, k);
                assert(h@ =~= a@.take(k as int));
                h
            },
            None => {
                let h = text::slice_text(&a, 0, a.len());
                assert(h@ =~= a@);
                h
            },
        }
    };
    text::to_lower(host.as_str())
}

/// A host name or address of the machine itself.
pub fn is_loopback_host(host: &str) -> (r: bool)
    ensures
        r == loopback_host(host@),
{
    text::same(host, "localhost") || text::same(host, "::1") || text::starts_with(host, "127.")
}

/// One octet of a dotted address.
fn is_octet(part: &str) -> (r: bool)
    ensures
        r == octet(part@),
{
    let v = text::chars_of(part);
    let ghost d = text::unsigned_digits(part@);
    if v.len() > 0 && v[0] == '+' {
        assert(!text::is_digit(part@[0]));
        return false;
    }
    match text::parse_unsigned(part, 255) {
        Some(_) => true,
        None => false,
    }
}

/// Four decimal octets with dots between them.
pub fn is_ipv4(host: &str) -> (r: bool)
    ensures
        r == dotted_quad(host@),
{
    let parts = text::split_on(host, '.');
    proof {
        let p = text::views(parts@);
        assert(p.len() == parts@.len());
        if p.len() == 4 {
            assert(p[0] == parts@[0]@ && p[1] == parts@[1]@ && p[2] == parts@[2]@ && p[3]
                == parts@[3]@);
        }
    }
    parts.len() == 4 && is_octet(parts[0].as_str()) && is_octet(parts[1].as_str()) && is_octet(
        parts[2].as_str(),
    ) && is_octet(parts[3].as_str())
}

/// The reach priority of a URL, lowest first: an mDNS `.local` name, a LAN
/// address, any other host or tunnel, the machine itself. Whoever reads the
/// list is almost always on another machine, so a loopback address comes last.
pub fn reach_rank(url: &str) -> (r: u8)
    ensures
        r == rank(url@),
{
    let host = url_host(url);
    if is_loopback_host(host.as_str()) {
        3
    } else if text::ends_with(host.as_str(), ".local") {
        0
    } else if is_ipv4(host.as_str()) {
        1
    } else {
        2
    }
}

/// The URL points at the machine itself, which is of no use from another one.
pub fn is_loopback_url(url: &str) -> (r: bool)
    ensures
        r == loopback_host(host_of(url@)),
{
    let host = url_host(url);
    is_loopback_host(host.as_str())
}

/// The port number in the authority of a URL.
pub fn port_of(url: &str) -> (r: Option<u16>)
    ensures
        match r {
            Some(p) => port_in(url@) == Some(p as nat),
            None => port_in(url@) is None,
        },
{
    let a = authority_of(url);
    let after = past_brackets_of(&a);
    let n: usize = after.len();
    match text::find_last(&after, ':') {
        Some(k) => {
            let digits = text::slice_text(&after, k + 1, n);
            assert(digits@ =~= after@.skip(k + 1));
            match text::parse_unsigned(digits.as_str(), 0xffff) {
                Some(p) => Some(p as u16),
                None => None,
            }
        },
        None => None,
    }
}

/// The URL with its host replaced; scheme, port and what follows stay. This
/// puts a service that is advertised on one host onto another.
pub fn swap_host(url: &str, host: &str) -> (r: String)
    ensures
        r@ == rehosted(url@, host@),
{
    let v = text::chars_of(url);
    let (start, rest) = split_scheme(url);
    let n: usize = authority_len(&rest);
    let a_text = text::slice_text(&rest, 0, n);
    assert(a_text@ =~= authority(url@));
    let a = text::chars_of(a_text.as_str());
    let after = past_brackets_of(&a);
    let port = match text::find_last(&after, ':') {
        Some(k) => {
            let p = text::slice_text(&after, k, after.len());
            assert(p@ =~= after@.skip(k as int));
            p
        },
        None => String::new(),
    };
    let mut out = text::slice_text(&v, 0, start);
    proof {
        let i = text::first_at(url@, "://"@, 0);
        if i < 0 {
            assert(out@ =~= Seq::<char>::empty());
        } else {
            assert(out@ =~= url@.take(i + 3));
        }
    }
    out.append(host);
    out.append(port.as_str());
    let t = text::slice_text(&rest, n, rest.len());
    assert(t@ =~= tail(url@));
    out.append(t.as_str());
    out
}

/// The URL without its path, query and fragment.
pub fn base_url(url: &str) -> (r: String)
    ensures
        r@ == base_of(url@),
{
    let v = text::chars_of(url);
    let (start, rest) = split_scheme(url);
    let n: usize = authority_len(&rest);
    let total: usize = v.len();
    proof {
        assert(start + n <= total);
        assert(rest@.len() == url@.len() - start);
        assert(tail(url@).len() == rest@.len() - n);
    }
    let out = text::slice_text(&v, 0, start + n);
    assert(out@ =~= base_of(url@));
    out
}

// ---------------------------------------------------------------------------
// laws
// ---------------------------------------------------------------------------

/// Nothing in `h` is read as a mark of a URL.
pub open spec fn unmarked(h: Seq<char>) -> bool {
    forall|i: int|
        0 <= i < h.len() ==> {
            let c = #[trigger] h[i];
            c != ':' && c != '/' && c != '?' && c != '#' && c != '[' && c != ']'
        }
}

/// A host that can be written into a URL as it stands.
pub open spec fn plain_host(h: Seq<char>) -> bool {
    h.len() > 0 && unmarked(h)
}

/// The port of a URL with its colon, or nothing.
pub open spec fn port_part(url: Seq<char>) -> Seq<char> {
    let after = past_brackets(authority(url));
    let k = text::last_at(after, ':');
    if k < 0 {
        Seq::empty()
    } else {
        after.skip(k)
    }
}

/// The host of a URL as it is written there, brackets and letters kept.
pub open spec fn host_part(url: Seq<char>) -> Seq<char> {
    authority(url).take(authority(url).len() - port_part(url).len())
}

/// A colon and what can stand behind it in an authority, or nothing.
spec fn port_shape(port: Seq<char>) -> bool {
    forall|i: int|
        0 <= i < port.len() ==> {
            let c = #[trigger] port[i];
            &&& !ends_authority()(c)
            &&& c != ']'
            &&& (c == ':' <==> i == 0)
        }
}

/// Port and tail stand together at the end of a URL.
proof fn lemma_port_and_tail(url: Seq<char>)
    ensures
        exists|m: int|
            0 <= m <= after_scheme(url).len() && #[trigger] after_scheme(url).skip(m) == port_part(
                url,
            ) + tail(url),
        port_shape(port_part(url)),
        tail(url).len() > 0 ==> ends_authority()(tail(url)[0]),
{
    let rest = after_scheme(url);
    let stop = ends_authority();
    let n = text::run_before(rest, stop) as int;
    let a = authority(url);
    let after = past_brackets(a);
    let b = text::last_at(a, ']') + 1;
    let k = text::last_at(after, ':');
    text::lemma_run_before(rest, stop);
    text::lemma_last_at(a, ']');
    text::lemma_last_at(after, ':');
    if k < 0 {
        assert(rest.skip(n) =~= port_part(url) + tail(url));
    } else {
        assert(rest.skip(b + k) =~= port_part(url) + tail(url));
    }
    assert forall|i: int| 0 <= i < port_part(url).len() implies {
        let c = #[trigger] port_part(url)[i];
        &&& !ends_authority()(c)
        &&& c != ']'
        &&& (c == ':' <==> i == 0)
    } by {
        assert(port_part(url)[i] == after[k + i]);
        assert(after[k + i] == a[b + k + i]);
        assert(a[b + k + i] == rest[b + k + i]);
        if i > 0 {
            assert(after[k + i] != ':');
        }
    }
}

/// Past the scheme of a rehosted URL stand the new host, the port and what
/// followed.
proof fn lemma_rehosted_rest(url: Seq<char>, h: Seq<char>)
    requires
        plain_host(h),
    ensures
        after_scheme(rehosted(url, h)) == h + port_part(url) + tail(url),
{
    reveal_strlit("://");
    let p = "://"@;
    let r = rehosted(url, h);
    let q = h + port_part(url) + tail(url);
    let i = text::first_at(url, p, 0);
    text::lemma_first_at_found(url, p, 0);
    lemma_port_and_tail(url);
    let m = choose|m: int|
        0 <= m <= after_scheme(url).len() && #[trigger] after_scheme(url).skip(m) == port_part(url)
            + tail(url);
    if i >= 0 {
        assert(r =~= url.take(i + 3) + q);
        assert(r.subrange(i, i + 3) =~= url.subrange(i, i + 3));
        assert(text::occurs_at(r, p, i));
        assert forall|j: int| 0 <= j < i implies !text::occurs_at(r, p, j) by {
            assert(!text::occurs_at(url, p, j));
            assert(r.subrange(j, j + 3) =~= url.subrange(j, j + 3));
        }
        text::lemma_first_at(r, p, 0, i);
        assert(r.skip(i + 3) =~= q);
    } else {
        assert(r =~= q);
        assert forall|j: int| !text::occurs_at(r, p, j) by {
            if text::occurs_at(r, p, j) {
                assert(r.subrange(j, j + 3)[0] == ':');
                assert(r[j] == ':');
                assert(j >= h.len());
                let e = url.skip(m);
                assert(after_scheme(url) == url);
                assert(e =~= port_part(url) + tail(url));
                assert(p.len() == 3);
                assert(r.len() == h.len() + e.len());
                assert(e.len() == url.len() - m);
                let z = m + j - h.len();
                assert(url.subrange(z, z + 3) =~= r.subrange(j, j + 3)) by {
                    assert forall|x: int| 0 <= x < 3 implies #[trigger] url.subrange(z, z + 3)[x]
                        == r.subrange(j, j + 3)[x] by {
                        assert(r[j + x] == e[j - h.len() + x]);
                        assert(e[j - h.len() + x] == url[z + x]);
                    }
                }
                assert(text::occurs_at(url, p, z));
            }
        }
        text::lemma_first_at_none(r, p, 0);
    }
}

/// A URL whose rest is a host, a port and a tail has these parts.
proof fn lemma_parts(r: Seq<char>, h: Seq<char>, port: Seq<char>, t: Seq<char>)
    requires
        after_scheme(r) == h + port + t,
        unmarked(h),
        port_shape(port),
        t.len() > 0 ==> ends_authority()(t[0]),
    ensures
        authority(r) == h + port,
        tail(r) == t,
        port_part(r) == port,
        host_part(r) == h,
        host_of(r) == text::lowered(h),
{
    let q = h + port + t;
    let a = h + port;
    let stop = ends_authority();
    assert forall|i: int| 0 <= i < a.len() implies !stop(#[trigger] q[i]) by {
        if i < h.len() {
            assert(q[i] == h[i]);
        } else {
            assert(q[i] == port[i - h.len()]);
        }
    }
    if a.len() < q.len() {
        assert(q[a.len() as int] == t[0]);
    }
    text::lemma_run_is(q, stop, a.len() as int);
    assert(authority(r) =~= a);
    assert(tail(r) =~= t);
    assert forall|i: int| 0 <= i < a.len() implies #[trigger] a[i] != ']' && a[i] != '[' || i
        >= h.len() && a[i] != ']' by {
        if i < h.len() {
            assert(a[i] == h[i]);
        } else {
            assert(a[i] == port[i - h.len()]);
        }
    }
    text::lemma_last_is(a, ']', -1);
    assert(past_brackets(a) =~= a);
    let k = if port.len() == 0 {
        -1
    } else {
        h.len() as int
    };
    assert forall|i: int| k < i < a.len() implies #[trigger] a[i] != ':' by {
        if i < h.len() {
            assert(a[i] == h[i]);
        } else {
            assert(a[i] == port[i - h.len()]);
        }
    }
    if k >= 0 {
        assert(a[k] == port[0]);
    }
    text::lemma_last_is(a, ':', k);
    if a.len() > 0 {
        if h.len() > 0 {
            assert(a[0] == h[0]);
        } else {
            assert(a[0] == port[0]);
        }
    }
    if k < 0 {
        assert(a =~= h);
    } else {
        assert(a.take(k) =~= h);
        assert(a.skip(k) =~= port);
    }
    assert(port_part(r) == port);
    assert(host_part(r) =~= h);
}

/// The port number is read from the port of a URL.
proof fn lemma_port_in(url: Seq<char>)
    ensures
        port_in(url) == (if port_part(url).len() == 0 {
            None
        } else {
            text::unsigned(port_part(url).skip(1), 0xffff)
        }),
{
    let after = past_brackets(authority(url));
    let k = text::last_at(after, ':');
    text::lemma_last_at(after, ':');
    if k >= 0 {
        assert(after.skip(k).skip(1) =~= after.skip(k + 1));
    }
}

/// Swapping the host of a URL puts the new host there and leaves the port and
/// what follows the authority as they were.
pub proof fn law_swapping_changes_the_host_alone(url: Seq<char>, h: Seq<char>)
    requires
        plain_host(h),
    ensures
        host_of(rehosted(url, h)) == text::lowered(h),
        port_in(rehosted(url, h)) == port_in(url),
        tail(rehosted(url, h)) == tail(url),
{
    lemma_rehosted_rest(url, h);
    lemma_port_and_tail(url);
    lemma_parts(rehosted(url, h), h, port_part(url), tail(url));
    lemma_port_in(url);
    lemma_port_in(rehosted(url, h));
}

/// What precedes the rest of a URL: the scheme with its mark, or nothing.
spec fn scheme_part(url: Seq<char>) -> Seq<char> {
    let i = text::first_at(url, "://"@, 0);
    if i < 0 {
        Seq::empty()
    } else {
        url.take(i + 3)
    }
}

/// An authority is its host and port.
proof fn lemma_authority_is_its_parts(url: Seq<char>)
    ensures
        authority(url) == host_part(url) + port_part(url),
{
    let a = authority(url);
    let b = text::last_at(a, ']') + 1;
    let after = past_brackets(a);
    let k = text::last_at(after, ':');
    text::lemma_last_at(a, ']');
    text::lemma_last_at(after, ':');
    if k >= 0 {
        assert(a.skip(b + k) =~= port_part(url));
        assert(host_part(url) =~= a.take(b + k));
        assert(a =~= a.take(b + k) + a.skip(b + k));
    } else {
        assert(a =~= host_part(url) + port_part(url));
    }
}

/// A URL is its scheme, host, port and tail.
proof fn lemma_url_is_its_parts(url: Seq<char>)
    ensures
        url == scheme_part(url) + host_part(url) + port_part(url) + tail(url),
{
    reveal_strlit("://");
    text::lemma_first_at_found(url, "://"@, 0);
    let rest = after_scheme(url);
    let n = text::run_before(rest, ends_authority()) as int;
    text::lemma_run_before(rest, ends_authority());
    lemma_authority_is_its_parts(url);
    assert(rest =~= rest.take(n) + rest.skip(n));
    assert(url =~= scheme_part(url) + rest);
    lemma_regroup(scheme_part(url), host_part(url), port_part(url), tail(url));
}

proof fn lemma_regroup(a: Seq<char>, b: Seq<char>, c: Seq<char>, d: Seq<char>)
    ensures
        a + (b + c + d) == a + b + c + d,
{
    assert(a + (b + c + d) =~= a + b + c + d);
}

/// Of two swaps the last one counts.
pub proof fn law_the_last_swap_counts(url: Seq<char>, h: Seq<char>, g: Seq<char>)
    requires
        plain_host(h),
    ensures
        rehosted(rehosted(url, h), g) == rehosted(url, g),
{
    reveal_strlit("://");
    let r = rehosted(url, h);
    lemma_rehosted_rest(url, h);
    lemma_port_and_tail(url);
    lemma_parts(r, h, port_part(url), tail(url));
    let q = h + port_part(url) + tail(url);
    assert(r =~= scheme_part(url) + q);
    text::lemma_first_at_found(url, "://"@, 0);
    text::lemma_first_at_found(r, "://"@, 0);
    assert(r =~= scheme_part(r) + after_scheme(r));
    assert(scheme_part(r) =~= r.take(r.len() - q.len()));
    assert(scheme_part(url) =~= r.take(r.len() - q.len()));
}

/// Swapping a host and swapping back gives the first URL, and swapping a URL
/// to its own host changes nothing.
pub proof fn law_swapping_back_restores(url: Seq<char>, h: Seq<char>)
    requires
        plain_host(h),
    ensures
        rehosted(rehosted(url, h), host_part(url)) == url,
        rehosted(url, host_part(url)) == url,
{
    law_the_last_swap_counts(url, h, host_part(url));
    lemma_url_is_its_parts(url);
    assert(rehosted(url, host_part(url)) == scheme_part(url) + host_part(url) + port_part(url)
        + tail(url));
}

/// A URL that is written out of its parts.
pub open spec fn written(scheme: Seq<char>, host: Seq<char>, port: Seq<char>, tail: Seq<char>)
    -> Seq<char> {
    scheme + "://"@ + host + port + tail
}

/// A port with its colon, or nothing.
pub open spec fn is_port(p: Seq<char>) -> bool {
    p.len() == 0 || (p[0] == ':' && forall|i: int|
        1 <= i < p.len() ==> text::is_digit(#[trigger] p[i]))
}

/// A path, a query or a fragment, or nothing.
pub open spec fn is_tail(t: Seq<char>) -> bool {
    t.len() > 0 ==> ends_authority()(t[0])
}

/// The parts of a URL that is written out of them.
proof fn lemma_written(scheme: Seq<char>, host: Seq<char>, port: Seq<char>, t: Seq<char>)
    requires
        unmarked(scheme),
        unmarked(host),
        is_port(port),
        is_tail(t),
    ensures
        scheme_part(written(scheme, host, port, t)) == scheme + "://"@,
        port_part(written(scheme, host, port, t)) == port,
        host_part(written(scheme, host, port, t)) == host,
        tail(written(scheme, host, port, t)) == t,
        host_of(written(scheme, host, port, t)) == text::lowered(host),
{
    reveal_strlit("://");
    let mark = "://"@;
    let url = written(scheme, host, port, t);
    let n = scheme.len() as int;
    assert(url.subrange(n, n + 3) =~= mark);
    assert(text::occurs_at(url, mark, n));
    assert forall|j: int| 0 <= j < n implies !text::occurs_at(url, mark, j) by {
        if text::occurs_at(url, mark, j) {
            assert(url.subrange(j, j + 3)[0] == ':');
            assert(url[j] == scheme[j]);
        }
    }
    text::lemma_first_at(url, mark, 0, n);
    assert(url.take(n + 3) =~= scheme + mark);
    assert(url.skip(n + 3) =~= host + port + t);
    assert(port_shape(port)) by {
        assert forall|i: int| 0 <= i < port.len() implies {
            let c = #[trigger] port[i];
            &&& !ends_authority()(c)
            &&& c != ']'
            &&& (c == ':' <==> i == 0)
        } by {
            if i > 0 {
                assert(text::is_digit(port[i]));
            }
        }
    }
    lemma_parts(url, host, port, t);
}

/// Swapping the host of a URL that is written out of its parts exchanges that
/// part; swapping back gives the first URL, and the port stays.
pub proof fn law_swapping_exchanges_one_part(
    scheme: Seq<char>,
    old_host: Seq<char>,
    host: Seq<char>,
    port: Seq<char>,
    t: Seq<char>,
)
    requires
        unmarked(scheme),
        unmarked(old_host),
        unmarked(host),
        is_port(port),
        is_tail(t),
    ensures
        rehosted(written(scheme, old_host, port, t), host) == written(scheme, host, port, t),
        rehosted(rehosted(written(scheme, old_host, port, t), host), old_host) == written(
            scheme,
            old_host,
            port,
            t,
        ),
        port_in(rehosted(written(scheme, old_host, port, t), host)) == port_in(
            written(scheme, old_host, port, t),
        ),
{
    lemma_written(scheme, old_host, port, t);
    lemma_written(scheme, host, port, t);
    lemma_port_in(written(scheme, old_host, port, t));
    lemma_port_in(written(scheme, host, port, t));
    let url = written(scheme, old_host, port, t);
    assert(rehosted(url, host) == scheme_part(url) + host + port_part(url) + tail(url));
    let swapped = written(scheme, host, port, t);
    assert(rehosted(swapped, old_host) == scheme_part(swapped) + old_host + port_part(swapped)
        + tail(swapped));
}

/// The reach priority of a URL is that of its bare host: scheme, port and path
/// make no difference.
pub proof fn law_rank_sees_the_host_alone(
    scheme: Seq<char>,
    host: Seq<char>,
    port: Seq<char>,
    t: Seq<char>,
)
    requires
        unmarked(scheme),
        unmarked(host),
        is_port(port),
        is_tail(t),
    ensures
        host_of(written(scheme, host, port, t)) == host_of(host),
        rank(written(scheme, host, port, t)) == rank(host),
{
    reveal_strlit("://");
    lemma_written(scheme, host, port, t);
    let none = Seq::<char>::empty();
    assert forall|j: int| !text::occurs_at(host, "://"@, j) by {
        if text::occurs_at(host, "://"@, j) {
            assert(host.subrange(j, j + 3)[0] == ':');
            assert(host[j] == ':');
        }
    }
    text::lemma_first_at_none(host, "://"@, 0);
    assert(host =~= host + none + none);
    lemma_parts(host, host, none, none);
}

/// A character that is no letter is in the lowered text where it was.
proof fn lemma_lowered_keeps(s: Seq<char>, c: char)
    requires
        !('A' <= c <= 'Z'),
        !('a' <= c <= 'z'),
    ensures
        forall|i: int| 0 <= i < s.len() ==> (#[trigger] text::lowered(s)[i] == c <==> s[i] == c),
        text::last_at(text::lowered(s), c) == text::last_at(s, c),
{
    let l = text::lowered(s);
    text::lemma_last_at(s, c);
    assert forall|i: int| 0 <= i < s.len() implies (#[trigger] l[i] == c <==> s[i] == c) by {
        assert(l[i] == text::lower(s[i]));
    }
    text::lemma_last_is(l, c, text::last_at(s, c));
}

/// Lowering a URL lowers its authority and leaves it where it is.
proof fn lemma_lowered_authority(url: Seq<char>)
    ensures
        authority(text::lowered(url)) == text::lowered(authority(url)),
{
    reveal_strlit("://");
    let mark = "://"@;
    let l = text::lowered(url);
    lemma_lowered_keeps(url, ':');
    lemma_lowered_keeps(url, '/');
    assert forall|j: int| text::occurs_at(l, mark, j) == text::occurs_at(url, mark, j) by {
        if 0 <= j && j + 3 <= url.len() {
            let a = url.subrange(j, j + 3);
            let b = l.subrange(j, j + 3);
            assert(a[0] == url[j] && a[1] == url[j + 1] && a[2] == url[j + 2]);
            assert(b[0] == l[j] && b[1] == l[j + 1] && b[2] == l[j + 2]);
            if text::occurs_at(l, mark, j) {
                assert(b[0] == ':' && b[1] == '/' && b[2] == '/');
                assert(a =~= mark);
            }
            if text::occurs_at(url, mark, j) {
                assert(a[0] == ':' && a[1] == '/' && a[2] == '/');
                assert(b =~= mark);
            }
        }
    }
    let i = text::first_at(url, mark, 0);
    text::lemma_first_at_found(url, mark, 0);
    if i >= 0 {
        assert(text::occurs_at(l, mark, i));
        text::lemma_first_at(l, mark, 0, i);
        assert(l.skip(i + 3) =~= text::lowered(url.skip(i + 3)));
    } else {
        assert(!text::holds(l, mark)) by {
            if text::holds(l, mark) {
                let j = choose|j: int| text::occurs_at(l, mark, j);
                assert(text::occurs_at(url, mark, j));
            }
        }
        text::lemma_first_at_none(l, mark, 0);
    }
    let rest = after_scheme(url);
    assert(after_scheme(l) == text::lowered(rest));
    let n = text::run_before(rest, ends_authority()) as int;
    text::lemma_run_before(rest, ends_authority());
    lemma_lowered_keeps(rest, '/');
    lemma_lowered_keeps(rest, '?');
    lemma_lowered_keeps(rest, '#');
    text::lemma_run_is(text::lowered(rest), ends_authority(), n);
    assert(text::lowered(rest).take(n) =~= text::lowered(rest.take(n)));
}

/// The host of a URL, and with it the reach priority, does not depend on the
/// case of letters.
pub proof fn law_rank_ignores_letter_case(url: Seq<char>)
    ensures
        host_of(text::lowered(url)) == host_of(url),
        rank(text::lowered(url)) == rank(url),
{
    lemma_lowered_authority(url);
    let a = authority(url);
    let l = text::lowered(a);
    lemma_lowered_keeps(a, '[');
    lemma_lowered_keeps(a, ':');
    if a.len() > 0 && a[0] == '[' {
        assert(l[0] == '[');
        let inner = a.skip(1);
        let stop = text::is_char(']');
        let n = text::run_before_char(inner, ']') as int;
        text::lemma_run_before(inner, stop);
        lemma_lowered_keeps(inner, ']');
        assert(l.skip(1) =~= text::lowered(inner));
        text::lemma_run_is(text::lowered(inner), stop, n);
        assert(text::run_before_char(l.skip(1), ']') == n);
        lemma_lowered_twice(inner.take(n), l.skip(1).take(n));
    } else {
        if a.len() > 0 {
            assert(l[0] != '[');
        }
        let k = text::last_at(a, ':');
        text::lemma_last_at(a, ':');
        if k < 0 {
            lemma_lowered_twice(a, l);
        } else {
            lemma_lowered_twice(a.take(k), l.take(k));
        }
    }
}

/// Lowering twice is lowering once.
proof fn lemma_lowered_twice(s: Seq<char>, l: Seq<char>)
    requires
        l.len() == s.len(),
        forall|i: int| 0 <= i < s.len() ==> #[trigger] l[i] == text::lower(s[i]),
    ensures
        text::lowered(l) == text::lowered(s),
{
    assert(text::lowered(l) =~= text::lowered(s));
}

/// A reach priority is one of four, and the last is that of the machine
/// itself.
pub proof fn law_loopback_ranks_last(url: Seq<char>)
    ensures
        rank(url) <= 3,
        rank(url) == 3 <==> loopback_host(host_of(url)),
{
}

/// The parts of a URL that is written out of them are read back: its port as a
/// number, and its base without what follows the port.
pub proof fn law_a_written_url_is_read_back(
    scheme: Seq<char>,
    host: Seq<char>,
    port: nat,
    t: Seq<char>,
)
    requires
        unmarked(scheme),
        unmarked(host),
        port <= 65535,
        is_tail(t),
    ensures
        host_of(written(scheme, host, seq![':'] + text::decimal(port), t)) == text::lowered(host),
        port_in(written(scheme, host, seq![':'] + text::decimal(port), t)) == Some(port),
        base_of(written(scheme, host, seq![':'] + text::decimal(port), t)) == scheme + "://"@ + host
            + (seq![':'] + text::decimal(port)),
        port_in(written(scheme, host, Seq::empty(), t)) is None,
        base_of(written(scheme, host, Seq::empty(), t)) == scheme + "://"@ + host,
{
    let d = text::decimal(port);
    let p = seq![':'] + d;
    text::law_decimal_reads_back(port);
    text::law_unsigned_numbers_are_read(port, 0xffff);
    assert forall|i: int| 1 <= i < p.len() implies text::is_digit(#[trigger] p[i]) by {
        assert(p[i] == d[i - 1]);
    }
    let u = written(scheme, host, p, t);
    lemma_written(scheme, host, p, t);
    lemma_port_in(u);
    assert(p.skip(1) =~= d);
    assert(base_of(u) =~= scheme + "://"@ + host + p);
    let none = Seq::<char>::empty();
    let v = written(scheme, host, none, t);
    lemma_written(scheme, host, none, t);
    lemma_port_in(v);
    assert(base_of(v) =~= scheme + "://"@ + host);
}

/// The machine itself is `localhost`, the IPv6 loopback and every address that
/// begins with `127.`.
pub proof fn law_which_hosts_are_the_machine(h: Seq<char>)
    ensures
        loopback_host(h) <==> h == "localhost"@ || h == "::1"@ || (h.len() >= 4 && h[0] == '1'
            && h[1] == '2' && h[2] == '7' && h[3] == '.'),
{
    reveal_strlit("127.");
    if "127."@.is_prefix_of(h) {
        let s = h.subrange(0, 4);
        assert(s[0] == h[0] && s[1] == h[1] && s[2] == h[2] && s[3] == h[3]);
    }
    if h.len() >= 4 && h[0] == '1' && h[1] == '2' && h[2] == '7' && h[3] == '.' {
        assert("127."@ =~= h.subrange(0, 4));
    }
}

/// A name that ends in `.local` is reached first, then a numeric address, then
/// any other host.
pub proof fn law_the_order_of_reach(url: Seq<char>)
    requires
        !loopback_host(host_of(url)),
    ensures
        rank(url) == 0 <==> ".local"@.is_suffix_of(host_of(url)),
        rank(url) == 1 <==> dotted_quad(host_of(url)) && !".local"@.is_suffix_of(host_of(url)),
        rank(url) == 2 <==> !dotted_quad(host_of(url)) && !".local"@.is_suffix_of(host_of(url)),
{
}

/// Four numbers of one byte with dots between them are a numeric address, and
/// nothing with a larger number or another count of them is.
pub proof fn law_numeric_addresses(a: nat, b: nat, c: nat, d: nat)
    ensures
        ({
            let q = text::decimal(a) + seq!['.'] + text::decimal(b) + seq!['.'] + text::decimal(c)
                + seq!['.'] + text::decimal(d);
            &&& (dotted_quad(q) <==> a <= 255 && b <= 255 && c <= 255 && d <= 255)
            &&& !dotted_quad(text::decimal(a) + seq!['.'] + text::decimal(b))
            &&& !dotted_quad(text::decimal(a))
        }),
{
    let (x, y, z, w) = (text::decimal(a), text::decimal(b), text::decimal(c), text::decimal(d));
    lemma_number_has_no_dot(a);
    lemma_number_has_no_dot(b);
    lemma_number_has_no_dot(c);
    lemma_number_has_no_dot(d);
    text::law_parts_are_appended(Seq::empty(), '.', x);
    text::law_parts_are_appended(x, '.', y);
    text::law_parts_are_appended(x + seq!['.'] + y, '.', z);
    text::law_parts_are_appended(x + seq!['.'] + y + seq!['.'] + z, '.', w);
    let q = x + seq!['.'] + y + seq!['.'] + z + seq!['.'] + w;
    let parts = text::pieces_on(q, '.');
    assert(parts == seq![x].push(y).push(z).push(w));
    assert(parts[0] == x && parts[1] == y && parts[2] == z && parts[3] == w);
}

proof fn lemma_number_has_no_dot(n: nat)
    ensures
        !text::decimal(n).contains('.'),
        text::all_digits(text::decimal(n)),
        text::number(text::decimal(n)) == n,
{
    text::law_decimal_reads_back(n);
    let d = text::decimal(n);
    assert forall|i: int| 0 <= i < d.len() implies d[i] != '.' by {
        assert(text::is_digit(d[i]));
    }
}

/// The host of a bracketed address is what stands between the brackets, and its
/// port what follows them.
pub proof fn law_bracketed_addresses(scheme: Seq<char>, h: Seq<char>, port: nat, t: Seq<char>)
    requires
        unmarked(scheme),
        forall|i: int|
            0 <= i < h.len() ==> {
                let c = #[trigger] h[i];
                c != '/' && c != '?' && c != '#' && c != '[' && c != ']'
            },
        port <= 65535,
        is_tail(t),
    ensures
        host_of(scheme + "://"@ + (seq!['['] + h + seq![']', ':'] + text::decimal(port)) + t)
            == text::lowered(h),
        port_in(scheme + "://"@ + (seq!['['] + h + seq![']', ':'] + text::decimal(port)) + t)
            == Some(port),
{
    reveal_strlit("://");
    let d = text::decimal(port);
    text::law_decimal_reads_back(port);
    text::law_unsigned_numbers_are_read(port, 0xffff);
    assert forall|i: int| 0 <= i < d.len() implies '0' <= #[trigger] d[i] <= '9' by {
        assert(text::is_digit(d[i]));
    }
    let mark = "://"@;
    let a = seq!['['] + h + seq![']', ':'] + d;
    let url = scheme + mark + a + t;
    let n = scheme.len() as int;
    assert(url.subrange(n, n + 3) =~= mark);
    assert forall|j: int| 0 <= j < n implies !text::occurs_at(url, mark, j) by {
        if text::occurs_at(url, mark, j) {
            assert(url.subrange(j, j + 3)[0] == url[j]);
            assert(url[j] == scheme[j]);
        }
    }
    text::lemma_first_at(url, mark, 0, n);
    assert(after_scheme(url) =~= a + t);
    let rest = a + t;
    assert forall|i: int| 0 <= i < a.len() implies !ends_authority()(#[trigger] rest[i]) by {
        assert(rest[i] == a[i]);
        if 1 <= i <= h.len() {
            assert(a[i] == h[i - 1]);
        } else if i >= h.len() + 3 {
            assert(a[i] == d[i - h.len() - 3]);
        }
    }
    text::lemma_run_is(rest, ends_authority(), a.len() as int);
    assert(authority(url) =~= a);
    let inner = a.skip(1);
    assert forall|i: int| 0 <= i < h.len() implies !text::is_char(']')(#[trigger] inner[i]) by {
        assert(inner[i] == h[i]);
    }
    assert(inner[h.len() as int] == ']');
    text::lemma_run_is(inner, text::is_char(']'), h.len() as int);
    assert(inner.take(h.len() as int) =~= h);
    let k = h.len() as int + 1;
    assert(a[k] == ']');
    assert forall|i: int| k < i < a.len() implies #[trigger] a[i] != ']' by {
        if i >= h.len() + 3 {
            assert(a[i] == d[i - h.len() - 3]);
        }
    }
    text::lemma_last_is(a, ']', k);
    let after = past_brackets(a);
    assert(after =~= seq![':'] + d);
    assert forall|i: int| 0 < i < after.len() implies #[trigger] after[i] != ':' by {
        assert(after[i] == d[i - 1]);
    }
    text::lemma_last_is(after, ':', 0);
    assert(after.skip(1) =~= d);
}

} // verus!
