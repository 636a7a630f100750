//! Whether a newer version of the agent is available.
use crate::text;
use vstd::prelude::*;

verus! {

/// The characters that can open the version text.
pub open spec fn quotes() -> spec_fn(char) -> bool {
    |c: char| c == '"' || c == '\''
}

/// The version that a Python source assigns to `__version__`: what stands
/// between the first quote after the first `=` after the name and the next
/// quote of the same kind, without whitespace around it.
pub open spec fn version_in(src: Seq<char>) -> Option<Seq<char>> {
    let name = "__version__"@;
    let i = text::first_at(src, name, 0);
    if i < 0 {
        None
    } else {
        let after_name = src.skip(i + name.len());
        let e = text::run_before_char(after_name, '=');
        if e >= after_name.len() {
            None
        } else {
            let after_eq = after_name.skip(e as int + 1);
            let q = text::run_before(after_eq, quotes());
            if q >= after_eq.len() {
                None
            } else {
                let body = after_eq.skip(q as int + 1);
                let n = text::run_before_char(body, after_eq[q as int]);
                let value = text::trimmed(body.take(n as int));
                if n >= body.len() || value.len() == 0 {
                    None
                } else {
                    Some(value)
                }
            }
        }
    }
}

/// The numbers of a dotted version, when every part is one.
pub open spec fn tuple_of(v: Seq<char>) -> Option<Seq<nat>> {
    let parts = text::pieces_on(v, '.');
    if forall|i: int|
        0 <= i < parts.len() ==> text::unsigned(#[trigger] parts[i], u64::MAX as nat) is Some {
        Some(Seq::new(parts.len(), |i: int| text::unsigned(parts[i], u64::MAX as nat)->0))
    } else {
        None
    }
}

/// The machine numbers `v` as numbers.
pub open spec fn nats(v: Seq<u64>) -> Seq<nat> {
    Seq::new(v.len(), |i: int| v[i] as nat)
}

/// `a` comes before `b`: at the first place where they differ `a` has the
/// smaller number, or `a` ends there.
pub open spec fn older(a: Seq<nat>, b: Seq<nat>) -> bool
    decreases a.len(),
{
    if b.len() == 0 {
        false
    } else if a.len() == 0 {
        true
    } else if a[0] == b[0] {
        older(a.drop_first(), b.drop_first())
    } else {
        a[0] < b[0]
    }
}

/// `latest` is newer than `installed`: by their numbers where both are dotted
/// numbers, else when they differ, neither is empty nor unknown.
pub open spec fn newer(latest: Seq<char>, installed: Seq<char>) -> bool {
    match (tuple_of(latest), tuple_of(installed)) {
        (Some(l), Some(i)) => older(i, l),
        _ => latest.len() > 0 && installed != "?"@ && latest != installed,
    }
}

/// The index of the first quote in `v` at `from` or later.
fn find_quote(v: &Vec<char>, from: usize) -> (r: usize)
    requires
        from <= v@.len(),
    ensures
        r == text::run_before(v@.skip(from as int), quotes()),
        from + r <= v@.len(),
{
    let n: usize = v.len();
    let mut k: usize = 0;
    while from + k < n && v[from + k] != '"' && v[from + k] != '\''
        invariant
            n == v@.len(),
            from + k <= n,
            text::run_before(v@.skip(from as int), quotes()) == k + text::run_before(
                v@.skip(from + k),
                quotes(),
            ),
        decreases n - from - k,
    {
        assert(v@.skip(from + k).drop_first() == v@.skip(from + k + 1));
        k += 1;
    }
    k
}

/// The version that a Python source assigns to `__version__`, in single or
/// double quotes.
pub fn parse_version(src: &str) -> (r: Option<String>)
    ensures
        text::opt_view(r) == version_in(src@),
{
    let v = text::chars_of(src);
    let len: usize = v.len();
    let name_len: usize = "__version__".unicode_len();
    match text::first(src, "__version__") {
        None => None,
        Some(i) => {
            let a: usize = i + name_len;
            let ghost after_name = src@.skip(a as int);
            let e: usize = text::run_to(&v, a, '=');
            if a + e >= len {
                return None;
            }
            let b: usize = a + e + 1;
            let ghost after_eq = after_name.skip(e + 1);
            assert(after_eq =~= src@.skip(b as int));
            let q: usize = find_quote(&v, b);
            if b + q >= len {
                return None;
            }
            let quote: char = v[b + q];
            let c: usize = b + q + 1;
            let ghost body = after_eq.skip(q + 1);
            assert(body =~= src@.skip(c as int));
            let n: usize = text::run_to(&v, c, quote);
            if c + n >= len {
                return None;
            }
            let inner = text::slice_text(&v, c, c + n);
            assert(inner@ =~= body.take(n as int));
            let value = text::trim(inner.as_str());
            if value.unicode_len() == 0 {
                None
            } else {
                Some(value.to_owned())
            }
        },
    }
}

/// The numbers of a dotted version, such as `[0, 99, 108]` for `0.99.108`.
/// There are none when a part is not a number, as in a pre-release tag.
pub fn parse_tuple(v: &str) -> (r: Option<Vec<u64>>)
    ensures
        match r {
            Some(t) => tuple_of(v@) == Some(nats(t@)),
            None => tuple_of(v@) is None,
        },
{
    let parts = text::split_on(v, '.');
    let ghost ps = text::pieces_on(v@, '.');
    assert(ps == text::views(parts@));
    let mut out: Vec<u64> = Vec::new();
    let mut i: usize = 0;
    while i < parts.len()
        invariant
            i <= parts@.len(),
            ps == text::pieces_on(v@, '.'),
            ps == text::views(parts@),
            out@.len() == i,
            forall|k: int|
                0 <= k < i ==> text::unsigned(#[trigger] ps[k], u64::MAX as nat) == Some(
                    out@[k] as nat,
                ),
        decreases parts@.len() - i,
    {
        assert(ps[i as int] == parts@[i as int]@);
        match text::parse_unsigned(parts[i].as_str(), u64::MAX) {
            Some(n) => {
                out.push(n);
            },
            None => {
                assert(text::unsigned(ps[i as int], u64::MAX as nat) is None);
                return None;
            },
        }
        i += 1;
    }
    assert(tuple_of(v@)->0 =~= nats(out@));
    Some(out)
}

/// `a` comes before `b` among dotted versions.
fn is_older(a: &Vec<u64>, b: &Vec<u64>) -> (r: bool)
    ensures
        r == older(nats(a@), nats(b@)),
{
    let ghost x = nats(a@);
    let ghost y = nats(b@);
    let mut i: usize = 0;
    assert(x.skip(0) == x && y.skip(0) == y);
    while i < a.len() && i < b.len()
        invariant
            i <= a@.len(),
            i <= b@.len(),
            x == nats(a@),
            y == nats(b@),
            older(x, y) == older(x.skip(i as int), y.skip(i as int)),
        decreases a@.len() - i,
    {
        assert(x.skip(i as int).drop_first() == x.skip(i + 1));
        assert(y.skip(i as int).drop_first() == y.skip(i + 1));
        assert(x.skip(i as int)[0] == x[i as int] && y.skip(i as int)[0] == y[i as int]);
        if a[i] != b[i] {
            return a[i] < b[i];
        }
        i += 1;
    }
    i < b.len()
}

/// `latest` is strictly newer than `installed`, compared as dotted numbers, so
/// that a build ahead of the release is never told to update. Where either is
/// not a dotted number they must merely differ; an unknown installed version
/// (`?`) and an empty latest one never count.
pub fn is_newer(latest: &str, installed: &str) -> (r: bool)
    ensures
        r == newer(latest@, installed@),
{
    match (parse_tuple(latest), parse_tuple(installed)) {
        (Some(l), Some(i)) => is_older(&i, &l),
        _ => latest.unicode_len() > 0 && !text::same(installed, "?") && !text::same(
            latest,
            installed,
        ),
    }
}

// ---------------------------------------------------------------------------
// laws
// ---------------------------------------------------------------------------

proof fn lemma_older_is_an_order(a: Seq<nat>, b: Seq<nat>)
    ensures
        !(older(a, b) && older(b, a)),
        a == b ==> !older(a, b),
        older(a, b) || older(b, a) || a == b,
    decreases a.len(),
{
    if a.len() > 0 && b.len() > 0 {
        if a[0] == b[0] {
            lemma_older_is_an_order(a.drop_first(), b.drop_first());
            if a.drop_first() == b.drop_first() {
                assert(a =~= seq![a[0]] + a.drop_first());
                assert(b =~= seq![b[0]] + b.drop_first());
            }
        }
    } else if a.len() == 0 && b.len() == 0 {
        assert(a =~= b);
    }
}

proof fn lemma_older_is_transitive(a: Seq<nat>, b: Seq<nat>, c: Seq<nat>)
    requires
        older(a, b),
        older(b, c),
    ensures
        older(a, c),
    decreases a.len(),
{
    if a.len() > 0 && a[0] == b[0] && b[0] == c[0] {
        lemma_older_is_transitive(a.drop_first(), b.drop_first(), c.drop_first());
    }
}

/// No version is newer than itself.
pub proof fn law_no_version_beats_itself(v: Seq<char>)
    ensures
        !newer(v, v),
{
    match tuple_of(v) {
        Some(t) => lemma_older_is_an_order(t, t),
        None => {},
    }
}

/// Of two dotted versions at most one is newer than the other: a build ahead
/// of the release sees no update.
pub proof fn law_ahead_sees_no_update(a: Seq<char>, b: Seq<char>)
    requires
        tuple_of(a) is Some,
        tuple_of(b) is Some,
        newer(a, b),
    ensures
        !newer(b, a),
{
    lemma_older_is_an_order(tuple_of(a)->0, tuple_of(b)->0);
}

/// Among dotted versions, newer than a newer one is newer.
pub proof fn law_newer_is_transitive(a: Seq<char>, b: Seq<char>, c: Seq<char>)
    requires
        tuple_of(a) is Some,
        tuple_of(b) is Some,
        tuple_of(c) is Some,
        newer(a, b),
        newer(b, c),
    ensures
        newer(a, c),
{
    lemma_older_is_transitive(tuple_of(c)->0, tuple_of(b)->0, tuple_of(a)->0);
}

/// Nothing is newer than an unknown installed version, and an empty version is
/// newer than nothing.
pub proof fn law_unknown_never_updates(v: Seq<char>)
    ensures
        !newer(v, "?"@),
        !newer(Seq::empty(), v),
{
    reveal_strlit("?");
    reveal_with_fuel(text::pieces, 2);
    let q = "?"@;
    assert(q.drop_last() =~= Seq::<char>::empty());
    let p = text::pieces_on(q, '.');
    assert(q =~= Seq::<char>::empty().push('?'));
    assert(text::pieces_on(q.drop_last(), '.') =~= seq![Seq::<char>::empty()]);
    assert(p =~= seq![q]);
    assert(text::unsigned_digits(q) == q);
    assert(!text::is_digit(q[0]));
    assert(text::unsigned(p[0], u64::MAX as nat) is None);
    let e = text::pieces_on(Seq::<char>::empty(), '.');
    assert(e =~= seq![Seq::<char>::empty()]);
    assert(text::unsigned(e[0], u64::MAX as nat) is None);
}

/// Where two versions first differ, the smaller number is the older version,
/// and a version is older than what continues it.
pub proof fn law_the_first_difference_decides(
    c: Seq<nat>,
    x: nat,
    y: nat,
    r: Seq<nat>,
    s: Seq<nat>,
)
    ensures
        x < y ==> older(c + seq![x] + r, c + seq![y] + s),
        x > y ==> !older(c + seq![x] + r, c + seq![y] + s),
        older(c, c + seq![y] + s),
        !older(c + seq![y] + s, c),
        !older(c, c),
    decreases c.len(),
{
    let a = c + seq![x] + r;
    let b = c + seq![y] + s;
    if c.len() > 0 {
        law_the_first_difference_decides(c.drop_first(), x, y, r, s);
        assert(a.drop_first() =~= c.drop_first() + seq![x] + r);
        assert(b.drop_first() =~= c.drop_first() + seq![y] + s);
        assert(a[0] == c[0] && b[0] == c[0]);
    } else {
        assert(a[0] == x && b[0] == y);
    }
}

/// A dotted version is read number by number.
pub proof fn law_versions_are_read_number_by_number(v: Seq<char>, n: nat)
    requires
        n <= u64::MAX,
    ensures
        tuple_of(text::decimal(n)) == Some(seq![n]),
        tuple_of(v) is Some ==> tuple_of(v + seq!['.'] + text::decimal(n)) == Some(
            (tuple_of(v)->0).push(n),
        ),
        tuple_of(v) is None ==> tuple_of(v + seq!['.'] + text::decimal(n)) is None,
{
    let d = text::decimal(n);
    text::law_decimal_reads_back(n);
    assert(!d.contains('.')) by {
        assert forall|i: int| 0 <= i < d.len() implies d[i] != '.' by {
            assert(text::is_digit(d[i]));
        }
    }
    text::law_parts_are_appended(v, '.', d);
    text::law_unsigned_numbers_are_read(n, u64::MAX as nat);
    let parts = text::pieces_on(v, '.');
    let all = text::pieces_on(v + seq!['.'] + d, '.');
    assert(text::pieces_on(d, '.') == seq![d]);
    assert(tuple_of(d)->0 =~= seq![n]);
    if tuple_of(v) is Some {
        assert forall|i: int| 0 <= i < all.len() implies text::unsigned(
            #[trigger] all[i],
            u64::MAX as nat,
        ) is Some by {
            if i < parts.len() {
                assert(all[i] == parts[i]);
            }
        }
        assert(tuple_of(v + seq!['.'] + d)->0 =~= (tuple_of(v)->0).push(n));
    } else {
        let i = choose|i: int|
            0 <= i < parts.len() && text::unsigned(#[trigger] parts[i], u64::MAX as nat) is None;
        assert(all[i] == parts[i]);
    }
}

/// Versions that are no dotted numbers are compared as texts: any other one is
/// newer, unless it is empty or the installed one is unknown.
pub proof fn law_other_versions_are_compared_as_texts(latest: Seq<char>, installed: Seq<char>)
    requires
        tuple_of(latest) is None || tuple_of(installed) is None,
    ensures
        newer(latest, installed) <==> latest.len() > 0 && latest != installed && installed != "?"@,
{
}

/// The version of a source is what its first assignment quotes, with either
/// kind of quote, without the whitespace around it.
pub proof fn law_the_quoted_version_is_found(
    pre: Seq<char>,
    mid: Seq<char>,
    gap: Seq<char>,
    quote: char,
    body: Seq<char>,
    rest: Seq<char>,
)
    requires
        quote == '"' || quote == '\'',
        forall|j: int|
            0 <= j < pre.len() ==> !text::occurs_at(
                pre + "__version__"@ + mid + seq!['='] + gap + seq![quote] + body + seq![quote]
                    + rest,
                "__version__"@,
                j,
            ),
        forall|j: int| 0 <= j < mid.len() ==> #[trigger] mid[j] != '=',
        forall|j: int| 0 <= j < gap.len() ==> #[trigger] gap[j] != '"' && gap[j] != '\'',
        forall|j: int| 0 <= j < body.len() ==> #[trigger] body[j] != quote,
        text::trimmed(body).len() > 0,
    ensures
        version_in(
            pre + "__version__"@ + mid + seq!['='] + gap + seq![quote] + body + seq![quote] + rest,
        ) == Some(text::trimmed(body)),
{
    let name = "__version__"@;
    let src = pre + name + mid + seq!['='] + gap + seq![quote] + body + seq![quote] + rest;
    let a = mid + seq!['='] + gap + seq![quote] + body + seq![quote] + rest;
    let b = gap + seq![quote] + body + seq![quote] + rest;
    let c = body + seq![quote] + rest;
    assert(src.subrange(pre.len() as int, pre.len() as int + name.len()) =~= name);
    text::lemma_first_at(src, name, 0, pre.len() as int);
    assert(src.skip(pre.len() as int + name.len()) =~= a);
    assert forall|i: int| 0 <= i < mid.len() implies !text::is_char('=')(#[trigger] a[i]) by {
        assert(a[i] == mid[i]);
    }
    text::lemma_run_is(a, text::is_char('='), mid.len() as int);
    assert(a.skip(mid.len() as int + 1) =~= b);
    assert forall|i: int| 0 <= i < gap.len() implies !quotes()(#[trigger] b[i]) by {
        assert(b[i] == gap[i]);
    }
    text::lemma_run_is(b, quotes(), gap.len() as int);
    assert(b.skip(gap.len() as int + 1) =~= c);
    assert(b[gap.len() as int] == quote);
    assert forall|i: int| 0 <= i < body.len() implies !text::is_char(quote)(#[trigger] c[i]) by {
        assert(c[i] == body[i]);
    }
    text::lemma_run_is(c, text::is_char(quote), body.len() as int);
    assert(c.take(body.len() as int) =~= body);
}

/// There is no version where the name, the assignment or the quotes are
/// missing.
pub proof fn law_no_assignment_no_version(src: Seq<char>)
    ensures
        !text::holds(src, "__version__"@) ==> version_in(src) is None,
        !src.contains('=') ==> version_in(src) is None,
        !src.contains('"') && !src.contains('\'') ==> version_in(src) is None,
        version_in(src) matches Some(v) ==> v.len() > 0 && !text::is_space(v[0]) && !text::is_space(
            v.last(),
        ),
{
    let name = "__version__"@;
    if !text::holds(src, name) {
        text::lemma_first_at_none(src, name, 0);
    }
    let i = text::first_at(src, name, 0);
    if i >= 0 {
        text::lemma_first_at_found(src, name, 0);
        let a = src.skip(i + name.len());
        let e = text::run_before_char(a, '=');
        text::lemma_run_before(a, text::is_char('='));
        if e < a.len() {
            assert(a[e as int] == '=');
            assert(src.contains(src[i + name.len() + e]));
            let b = a.skip(e as int + 1);
            let q = text::run_before(b, quotes());
            text::lemma_run_before(b, quotes());
            if q < b.len() {
                assert(src[i + name.len() + e + 1 + q] == b[q as int]);
                assert(src.contains(src[i + name.len() + e + 1 + q]));
                let c = b.skip(q as int + 1);
                let n = text::run_before_char(c, b[q as int]);
                text::law_trimming_takes_whitespace_off(c.take(n as int));
            }
        }
    }
}

} // verus!
