//! Text primitives with exact contracts.
//!
//! A string is modelled by the sequence of its characters. Every function here
//! states its result as a specification function of that sequence, so the
//! command builders and parsers above can be specified by plain concatenation.
use vstd::prelude::*;

verus! {

/// The standard library's `String::push`: the character is appended and
/// nothing else changes.
pub assume_specification[ String::push ](s: &mut String, c: char)
    ensures
        final(s)@ == old(s)@.push(c),
;

// ---------------------------------------------------------------------------
// models
// ---------------------------------------------------------------------------

/// The character of the decimal digit `d`.
pub open spec fn digit(d: nat) -> char {
    ('0' as nat + d) as char
}

/// The shortest decimal form of `n`.
pub open spec fn decimal(n: nat) -> Seq<char>
    decreases n,
{
    if n < 10 {
        seq![digit(n)]
    } else {
        decimal(n / 10).push(digit(n % 10))
    }
}

/// An ASCII digit.
pub open spec fn is_digit(c: char) -> bool {
    '0' <= c <= '9'
}

/// An ASCII letter or digit.
pub open spec fn is_alnum(c: char) -> bool {
    is_digit(c) || 'a' <= c <= 'z' || 'A' <= c <= 'Z'
}

/// A character of the Unicode `White_Space` class.
pub open spec fn is_space(c: char) -> bool {
    ||| '\u{9}' <= c <= '\u{d}'
    ||| c == ' '
    ||| c == '\u{85}'
    ||| c == '\u{a0}'
    ||| c == '\u{1680}'
    ||| '\u{2000}' <= c <= '\u{200a}'
    ||| c == '\u{2028}'
    ||| c == '\u{2029}'
    ||| c == '\u{202f}'
    ||| c == '\u{205f}'
    ||| c == '\u{3000}'
}

/// `c` with an ASCII capital letter replaced by its small form.
pub open spec fn lower(c: char) -> char {
    if 'A' <= c <= 'Z' {
        (c as u32 + 32) as char
    } else {
        c
    }
}

/// `s` with every ASCII capital letter replaced by its small form.
pub open spec fn lowered(s: Seq<char>) -> Seq<char> {
    Seq::new(s.len(), |i: int| lower(s[i]))
}

/// `p` stands in `s` at index `i`.
pub open spec fn occurs_at(s: Seq<char>, p: Seq<char>, i: int) -> bool {
    0 <= i && i + p.len() <= s.len() && s.subrange(i, i + p.len()) == p
}

/// `p` stands somewhere in `s`.
pub open spec fn holds(s: Seq<char>, p: Seq<char>) -> bool {
    exists|i: int| occurs_at(s, p, i)
}

/// The parts of `s` between the characters that `sep` accepts, empty parts
/// included.
pub open spec fn pieces(s: Seq<char>, sep: spec_fn(char) -> bool) -> Seq<Seq<char>>
    decreases s.len(),
{
    if s.len() == 0 {
        seq![Seq::empty()]
    } else {
        let before = pieces(s.drop_last(), sep);
        if sep(s.last()) {
            before.push(Seq::empty())
        } else {
            before.drop_last().push(before.last().push(s.last()))
        }
    }
}

/// The parts of `s` between the characters `c`, empty parts included.
pub open spec fn pieces_on(s: Seq<char>, c: char) -> Seq<Seq<char>> {
    pieces(s, |x: char| x == c)
}

/// The non-empty runs of `s` between whitespace.
pub open spec fn words_of(s: Seq<char>) -> Seq<Seq<char>> {
    pieces(s, |c: char| is_space(c)).filter(|w: Seq<char>| w.len() > 0)
}

/// The items of `parts` with `sep` between neighbours.
pub open spec fn joined(parts: Seq<Seq<char>>, sep: Seq<char>) -> Seq<char>
    decreases parts.len(),
{
    if parts.len() == 0 {
        Seq::empty()
    } else if parts.len() == 1 {
        parts[0]
    } else {
        joined(parts.drop_last(), sep) + sep + parts.last()
    }
}

/// `s` with every `c` replaced by `with`.
pub open spec fn replaced(s: Seq<char>, c: char, with: Seq<char>) -> Seq<char>
    decreases s.len(),
{
    if s.len() == 0 {
        Seq::empty()
    } else if s.last() == c {
        replaced(s.drop_last(), c, with) + with
    } else {
        replaced(s.drop_last(), c, with).push(s.last())
    }
}

/// `s` without its leading whitespace.
pub open spec fn trimmed_start(s: Seq<char>) -> Seq<char>
    decreases s.len(),
{
    if s.len() > 0 && is_space(s[0]) {
        trimmed_start(s.drop_first())
    } else {
        s
    }
}

/// `s` without its trailing whitespace.
pub open spec fn trimmed_end(s: Seq<char>) -> Seq<char>
    decreases s.len(),
{
    if s.len() > 0 && is_space(s.last()) {
        trimmed_end(s.drop_last())
    } else {
        s
    }
}

/// `s` without whitespace at either end.
pub open spec fn trimmed(s: Seq<char>) -> Seq<char> {
    trimmed_end(trimmed_start(s))
}

/// `a` comes before `b` in dictionary order of code points.
pub open spec fn precedes(a: Seq<char>, b: Seq<char>) -> bool
    decreases a.len(),
{
    if b.len() == 0 {
        false
    } else if a.len() == 0 {
        true
    } else if a[0] == b[0] {
        precedes(a.drop_first(), b.drop_first())
    } else {
        a[0] < b[0]
    }
}

/// The models of the strings in `v`.
pub open spec fn views(v: Seq<String>) -> Seq<Seq<char>> {
    Seq::new(v.len(), |i: int| v[i]@)
}

/// The last index of `c` in `s`, or `-1`.
pub open spec fn last_at(s: Seq<char>, c: char) -> int
    decreases s.len(),
{
    if s.len() == 0 {
        -1
    } else if s.last() == c {
        s.len() - 1
    } else {
        last_at(s.drop_last(), c)
    }
}

/// The first index of `p` in `s` at `from` or later, or `-1`.
pub open spec fn first_at(s: Seq<char>, p: Seq<char>, from: int) -> int
    decreases s.len() - from,
{
    if from < 0 || from > s.len() {
        -1
    } else if occurs_at(s, p, from) {
        from
    } else if from == s.len() {
        -1
    } else {
        first_at(s, p, from + 1)
    }
}

/// How many characters of `s` stand before the first one that `stop` accepts.
pub open spec fn run_before(s: Seq<char>, stop: spec_fn(char) -> bool) -> nat
    decreases s.len(),
{
    if s.len() == 0 || stop(s[0]) {
        0
    } else {
        1 + run_before(s.drop_first(), stop)
    }
}

/// Accepts `c` alone.
pub open spec fn is_char(c: char) -> spec_fn(char) -> bool {
    |x: char| x == c
}

/// How many characters of `s` stand before the first `c`.
pub open spec fn run_before_char(s: Seq<char>, c: char) -> nat {
    run_before(s, is_char(c))
}

/// `s` with spaces behind it up to `width` characters.
pub open spec fn padded(s: Seq<char>, width: nat) -> Seq<char> {
    if s.len() < width {
        s + Seq::new((width - s.len()) as nat, |i: int| ' ')
    } else {
        s
    }
}

/// The decimal form of a signed number.
pub open spec fn signed_decimal(n: int) -> Seq<char> {
    if n < 0 {
        seq!['-'] + decimal((-n) as nat)
    } else {
        decimal(n as nat)
    }
}

/// The model of an optional string.
pub open spec fn opt_view(o: Option<String>) -> Option<Seq<char>> {
    match o {
        Some(s) => Some(s@),
        None => None,
    }
}

/// The number that the decimal digits `s` spell.
pub open spec fn number(s: Seq<char>) -> nat
    decreases s.len(),
{
    if s.len() == 0 {
        0
    } else {
        number(s.drop_last()) * 10 + (s.last() as nat - '0' as nat) as nat
    }
}

/// One or more ASCII digits.
pub open spec fn all_digits(s: Seq<char>) -> bool {
    s.len() > 0 && forall|i: int| 0 <= i < s.len() ==> is_digit(#[trigger] s[i])
}

/// The digits of an unsigned integer literal as the standard library's
/// integer parser reads it: one optional `+`, then the digits.
pub open spec fn unsigned_digits(s: Seq<char>) -> Seq<char> {
    if s.len() > 0 && s[0] == '+' {
        s.drop_first()
    } else {
        s
    }
}

/// The value of `s` read as an unsigned integer no greater than `max`.
pub open spec fn unsigned(s: Seq<char>, max: nat) -> Option<nat> {
    let d = unsigned_digits(s);
    if all_digits(d) && number(d) <= max {
        Some(number(d))
    } else {
        None
    }
}

/// The value of `s` read as a signed 32-bit integer: one optional sign, then
/// the digits.
pub open spec fn signed32(s: Seq<char>) -> Option<int> {
    if s.len() > 0 && s[0] == '-' {
        let d = s.drop_first();
        if all_digits(d) && number(d) <= 0x8000_0000 {
            Some(-(number(d) as int))
        } else {
            None
        }
    } else {
        match unsigned(s, 0x7fff_ffff) {
            Some(n) => Some(n as int),
            None => None,
        }
    }
}

// ---------------------------------------------------------------------------
// conversions
// ---------------------------------------------------------------------------

/// The characters of `s`.
pub fn chars_of(s: &str) -> (r: Vec<char>)
    ensures
        r@ == s@,
{
    let mut out: Vec<char> = Vec::new();
    for c in it: s.chars()
        invariant
            out@ == s@.take(it.index() as int),
            it.seq() == s@,
    {
        out.push(c);
    }
    assert(s@.take(s@.len() as int) == s@);
    out
}

/// The string of the characters `from..to` of `v`.
pub fn slice_text(v: &Vec<char>, from: usize, to: usize) -> (r: String)
    requires
        from <= to <= v@.len(),
    ensures
        r@ == v@.subrange(from as int, to as int),
{
    let mut out = String::new();
    let mut i: usize = from;
    while i < to
        invariant
            from <= i <= to <= v@.len(),
            out@ == v@.subrange(from as int, i as int),
        decreases to - i,
    {
        out.push(v[i]);
        i += 1;
        assert(v@.subrange(from as int, i as int) == v@.subrange(from as int, i - 1).push(
            v@[i - 1],
        ));
    }
    out
}

/// The shortest decimal form of `n`.
pub fn decimal_of(n: u64) -> (r: String)
    ensures
        r@ == decimal(n as nat),
    decreases n,
{
    let d: u64 = n % 10;
    let c: char = digit_char(d);
    if n < 10 {
        let mut out = String::new();
        out.push(c);
        assert(out@ =~= seq![digit(n as nat)]);
        out
    } else {
        let mut out = decimal_of(n / 10);
        out.push(c);
        out
    }
}

/// The decimal form of a signed number.
pub fn signed_decimal_of(n: i64) -> (r: String)
    ensures
        r@ == signed_decimal(n as int),
{
    if n < 0 {
        let m: u64 = (-(n + 1)) as u64 + 1;
        let mut out = String::new();
        out.push('-');
        let digits = decimal_of(m);
        out.append(digits.as_str());
        assert(out@ =~= seq!['-'] + decimal(m as nat));
        out
    } else {
        decimal_of(n as u64)
    }
}

fn digit_char(d: u64) -> (c: char)
    requires
        d < 10,
    ensures
        c == digit(d as nat),
{
    if d == 0 {
        '0'
    } else if d == 1 {
        '1'
    } else if d == 2 {
        '2'
    } else if d == 3 {
        '3'
    } else if d == 4 {
        '4'
    } else if d == 5 {
        '5'
    } else if d == 6 {
        '6'
    } else if d == 7 {
        '7'
    } else if d == 8 {
        '8'
    } else {
        '9'
    }
}

/// Concatenation.
pub fn cat(a: &str, b: &str) -> (r: String)
    ensures
        r@ == a@ + b@,
{
    let mut out = String::from_str(a);
    out.append(b);
    out
}

/// A copy of every string of `v`, in order.
pub fn copy_all(v: &[String]) -> (r: Vec<String>)
    ensures
        views(r@) == views(v@),
{
    let mut out: Vec<String> = Vec::new();
    let mut i: usize = 0;
    while i < v.len()
        invariant
            i <= v@.len(),
            views(out@) == views(v@).take(i as int),
        decreases v@.len() - i,
    {
        add_arg(&mut out, v[i].as_str());
        i += 1;
        assert(views(v@).take(i as int) == views(v@).take(i - 1).push(v@[i - 1]@));
    }
    assert(views(v@).take(v@.len() as int) == views(v@));
    out
}

/// Append a copy of `s` to `v`.
pub fn add_arg(v: &mut Vec<String>, s: &str)
    ensures
        views(final(v)@) == views(old(v)@).push(s@),
{
    v.push(s.to_owned());
    assert(views(v@) =~= views(old(v)@).push(s@));
}

/// Append the strings of `more` to `v`.
pub fn add_args(v: &mut Vec<String>, more: &Vec<String>)
    ensures
        views(final(v)@) == views(old(v)@) + views(more@),
{
    let ghost start = views(v@);
    let mut i: usize = 0;
    while i < more.len()
        invariant
            i <= more@.len(),
            views(v@) == start + views(more@).take(i as int),
        decreases more@.len() - i,
    {
        add_arg(v, more[i].as_str());
        i += 1;
        assert(start + views(more@).take(i as int) == (start + views(more@).take(i - 1)).push(
            more@[i - 1]@,
        ));
    }
    assert(views(more@).take(more@.len() as int) == views(more@));
}

/// A copy of an optional string.
pub fn copy_opt(o: &Option<String>) -> (r: Option<String>)
    ensures
        opt_view(r) == opt_view(*o),
{
    match o {
        Some(s) => Some(s.clone()),
        None => None,
    }
}

// ---------------------------------------------------------------------------
// comparison and search
// ---------------------------------------------------------------------------

/// The two strings hold the same characters.
pub fn same(a: &str, b: &str) -> (r: bool)
    ensures
        r == (a@ == b@),
{
    a.to_owned() == b.to_owned()
}

/// `p` stands in `v` at index `at`.
fn matches_at(v: &Vec<char>, p: &Vec<char>, at: usize) -> (r: bool)
    ensures
        r == occurs_at(v@, p@, at as int),
{
    let n: usize = v.len();
    if at > n || n - at < p.len() {
        return false;
    }
    let mut k: usize = 0;
    while k < p.len()
        invariant
            k <= p@.len(),
            n == v@.len(),
            at + p@.len() <= n,
            forall|j: int| 0 <= j < k ==> v@[at + j] == p@[j],
        decreases p@.len() - k,
    {
        if v[at + k] != p[k] {
            assert(v@.subrange(at as int, at + p@.len())[k as int] != p@[k as int]);
            return false;
        }
        k += 1;
    }
    assert(v@.subrange(at as int, at + p@.len()) =~= p@);
    true
}

/// `p` stands in `v` at index `i`.
pub fn at(v: &Vec<char>, p: &str, i: usize) -> (r: bool)
    ensures
        r == occurs_at(v@, p@, i as int),
{
    let q = chars_of(p);
    matches_at(v, &q, i)
}

/// The first index at which `p` stands in `s`, counted in characters.
pub fn find(s: &str, p: &str) -> (r: Option<usize>)
    ensures
        match r {
            Some(i) => occurs_at(s@, p@, i as int) && forall|j: int|
                0 <= j < i ==> !occurs_at(s@, p@, j),
            None => !holds(s@, p@),
        },
{
    let v = chars_of(s);
    let q = chars_of(p);
    let mut i: usize = 0;
    while i <= v.len()
        invariant
            v@ == s@,
            q@ == p@,
            i <= v@.len() + 1,
            forall|j: int| 0 <= j < i ==> !occurs_at(s@, p@, j),
        decreases v@.len() + 1 - i,
    {
        if matches_at(&v, &q, i) {
            return Some(i);
        }
        if i == v.len() {
            assert forall|j: int| !occurs_at(s@, p@, j) by {}
            return None;
        }
        i += 1;
    }
    None
}

/// The first index at which `p` stands in `s` is where the search from the
/// start finds it.
pub proof fn lemma_first_at(s: Seq<char>, p: Seq<char>, from: int, at: int)
    requires
        0 <= from <= at <= s.len(),
        occurs_at(s, p, at),
        forall|j: int| from <= j < at ==> !occurs_at(s, p, j),
    ensures
        first_at(s, p, from) == at,
    decreases at - from,
{
    if from < at {
        lemma_first_at(s, p, from + 1, at);
    }
}

/// A search finds nothing where the pattern does not stand.
pub proof fn lemma_first_at_none(s: Seq<char>, p: Seq<char>, from: int)
    requires
        0 <= from,
        !holds(s, p),
    ensures
        first_at(s, p, from) == -1,
    decreases s.len() - from,
{
    if from < s.len() {
        lemma_first_at_none(s, p, from + 1);
    }
}

/// What a search finds: the first place where the pattern stands, or that it
/// stands nowhere at `from` or later.
pub proof fn lemma_first_at_found(s: Seq<char>, p: Seq<char>, from: int)
    requires
        0 <= from <= s.len(),
    ensures
        -1 <= first_at(s, p, from) <= s.len(),
        first_at(s, p, from) >= 0 ==> occurs_at(s, p, first_at(s, p, from)) && from <= first_at(
            s,
            p,
            from,
        ),
        forall|j: int|
            from <= j && (first_at(s, p, from) < 0 || j < first_at(s, p, from)) ==> !occurs_at(
                s,
                p,
                j,
            ),
    decreases s.len() - from,
{
    if !occurs_at(s, p, from) && from < s.len() {
        lemma_first_at_found(s, p, from + 1);
    }
}

/// A run ends at the first character that stops it, and not before.
pub proof fn lemma_run_before(s: Seq<char>, stop: spec_fn(char) -> bool)
    ensures
        run_before(s, stop) <= s.len(),
        forall|i: int| 0 <= i < run_before(s, stop) ==> !stop(#[trigger] s[i]),
        run_before(s, stop) < s.len() ==> stop(s[run_before(s, stop) as int]),
    decreases s.len(),
{
    if s.len() > 0 && !stop(s[0]) {
        let rest = s.drop_first();
        lemma_run_before(rest, stop);
        assert forall|i: int| 0 <= i < run_before(s, stop) implies !stop(#[trigger] s[i]) by {
            if i > 0 {
                assert(rest[i - 1] == s[i]);
            }
        }
        if run_before(s, stop) < s.len() {
            assert(rest[run_before(rest, stop) as int] == s[run_before(s, stop) as int]);
        }
    }
}

/// A run that ends at index `n` has length `n`.
pub proof fn lemma_run_is(s: Seq<char>, stop: spec_fn(char) -> bool, n: int)
    requires
        0 <= n <= s.len(),
        forall|i: int| 0 <= i < n ==> !stop(#[trigger] s[i]),
        n < s.len() ==> stop(s[n]),
    ensures
        run_before(s, stop) == n,
{
    lemma_run_before(s, stop);
    if run_before(s, stop) < n {
        assert(!stop(s[run_before(s, stop) as int]));
    }
}

/// The last index of a character, or that it does not occur.
pub proof fn lemma_last_at(s: Seq<char>, c: char)
    ensures
        -1 <= last_at(s, c) < s.len(),
        last_at(s, c) >= 0 ==> s[last_at(s, c)] == c,
        forall|i: int| last_at(s, c) < i < s.len() ==> #[trigger] s[i] != c,
    decreases s.len(),
{
    if s.len() > 0 && s.last() != c {
        let front = s.drop_last();
        lemma_last_at(front, c);
        assert forall|i: int| last_at(s, c) < i < s.len() implies #[trigger] s[i] != c by {
            if i < front.len() {
                assert(front[i] == s[i]);
            }
        }
    }
}

/// An index at which `c` stands and after which it does not is the last one;
/// `-1` stands for none.
pub proof fn lemma_last_is(s: Seq<char>, c: char, k: int)
    requires
        -1 <= k < s.len(),
        k >= 0 ==> s[k] == c,
        forall|i: int| k < i < s.len() ==> #[trigger] s[i] != c,
    ensures
        last_at(s, c) == k,
{
    lemma_last_at(s, c);
    if last_at(s, c) > k {
        assert(s[last_at(s, c)] != c);
    }
}

/// The first index at which `p` stands in `s`, counted in characters.
pub fn first(s: &str, p: &str) -> (r: Option<usize>)
    ensures
        match r {
            Some(i) => first_at(s@, p@, 0) == i && i + p@.len() <= s@.len(),
            None => first_at(s@, p@, 0) == -1,
        },
{
    match find(s, p) {
        Some(i) => {
            proof {
                lemma_first_at(s@, p@, 0, i as int);
            }
            Some(i)
        },
        None => {
            proof {
                lemma_first_at_none(s@, p@, 0);
            }
            None
        },
    }
}

/// How many characters of `v` from index `from` on stand before the first `c`.
pub fn run_to(v: &Vec<char>, from: usize, c: char) -> (r: usize)
    requires
        from <= v@.len(),
    ensures
        r == run_before_char(v@.skip(from as int), c),
        from + r <= v@.len(),
        from + r < v@.len() ==> v@[from + r] == c,
{
    let n: usize = v.len();
    let mut k: usize = 0;
    while from + k < n && v[from + k] != c
        invariant
            n == v@.len(),
            from + k <= n,
            run_before_char(v@.skip(from as int), c) == k + run_before_char(
                v@.skip(from + k),
                c,
            ),
        decreases n - from - k,
    {
        assert(v@.skip(from + k).drop_first() == v@.skip(from + k + 1));
        k += 1;
    }
    k
}

/// `p` stands somewhere in `s`.
pub fn contains(s: &str, p: &str) -> (r: bool)
    ensures
        r == holds(s@, p@),
{
    match find(s, p) {
        Some(_) => true,
        None => false,
    }
}

/// The last index of `c` in `v`.
pub fn find_last(v: &Vec<char>, c: char) -> (r: Option<usize>)
    ensures
        match r {
            Some(i) => last_at(v@, c) == i && i < v@.len() && v@[i as int] == c,
            None => last_at(v@, c) == -1,
        },
{
    let mut n: usize = v.len();
    assert(v@.take(n as int) == v@);
    while n > 0
        invariant
            n <= v@.len(),
            last_at(v@, c) == last_at(v@.take(n as int), c),
        decreases n,
    {
        if v[n - 1] == c {
            return Some(n - 1);
        }
        n -= 1;
        assert(v@.take(n + 1).drop_last() == v@.take(n as int));
    }
    None
}

/// `s` begins with `p`.
pub fn starts_with(s: &str, p: &str) -> (r: bool)
    ensures
        r == p@.is_prefix_of(s@),
{
    let v = chars_of(s);
    let q = chars_of(p);
    let r = matches_at(&v, &q, 0);
    proof {
        if p@.is_prefix_of(s@) {
            assert(p@ =~= s@.subrange(0, p@.len() as int));
        }
    }
    r
}

/// `s` ends with `p`.
pub fn ends_with(s: &str, p: &str) -> (r: bool)
    ensures
        r == p@.is_suffix_of(s@),
{
    let v = chars_of(s);
    let q = chars_of(p);
    if q.len() > v.len() {
        return false;
    }
    let r = matches_at(&v, &q, v.len() - q.len());
    proof {
        assert(s@.subrange(s@.len() - p@.len(), s@.len() as int) =~= s@.subrange(
            s@.len() - p@.len(),
            (s@.len() - p@.len()) + p@.len(),
        ));
    }
    r
}

/// What follows the prefix `p` of `s`, when `s` begins with it.
pub fn strip_prefix(s: &str, p: &str) -> (r: Option<String>)
    ensures
        opt_view(r) == (if p@.is_prefix_of(s@) {
            Some(s@.skip(p@.len() as int))
        } else {
            None
        }),
{
    if starts_with(s, p) {
        let v = chars_of(s);
        let n: usize = p.unicode_len();
        let rest = slice_text(&v, n, v.len());
        assert(rest@ =~= s@.skip(p@.len() as int));
        Some(rest)
    } else {
        None
    }
}

/// What precedes the suffix `p` of `s`, when `s` ends with it.
pub fn strip_suffix(s: &str, p: &str) -> (r: Option<String>)
    ensures
        opt_view(r) == (if p@.is_suffix_of(s@) {
            Some(s@.take(s@.len() - p@.len()))
        } else {
            None
        }),
{
    if ends_with(s, p) {
        let v = chars_of(s);
        let n: usize = p.unicode_len();
        let rest = slice_text(&v, 0, v.len() - n);
        assert(rest@ =~= s@.take(s@.len() - p@.len()));
        Some(rest)
    } else {
        None
    }
}

/// `a` comes before `b` in dictionary order of code points.
pub fn less(a: &str, b: &str) -> (r: bool)
    ensures
        r == precedes(a@, b@),
{
    let v = chars_of(a);
    let w = chars_of(b);
    let mut i: usize = 0;
    assert(a@.skip(0) == a@ && b@.skip(0) == b@);
    while i < v.len() && i < w.len()
        invariant
            v@ == a@,
            w@ == b@,
            i <= v@.len(),
            i <= w@.len(),
            precedes(a@, b@) == precedes(a@.skip(i as int), b@.skip(i as int)),
        decreases v@.len() - i,
    {
        assert(a@.skip(i as int).drop_first() == a@.skip(i + 1));
        assert(b@.skip(i as int).drop_first() == b@.skip(i + 1));
        if v[i] != w[i] {
            return v[i] < w[i];
        }
        i += 1;
    }
    i < w.len()
}

/// Dictionary order leaves no two different strings unordered, orders no
/// string before itself, and never orders two strings both ways.
pub proof fn lemma_order_is_total(a: Seq<char>, b: Seq<char>)
    ensures
        precedes(a, b) || precedes(b, a) || a == b,
        !(precedes(a, b) && precedes(b, a)),
        a == b ==> !precedes(a, b),
    decreases a.len(),
{
    if a.len() > 0 && b.len() > 0 {
        if a[0] == b[0] {
            lemma_order_is_total(a.drop_first(), b.drop_first());
            if a.drop_first() == b.drop_first() {
                assert(a =~= seq![a[0]] + a.drop_first());
                assert(b =~= seq![b[0]] + b.drop_first());
            }
        }
    } else if a.len() == 0 && b.len() == 0 {
        assert(a =~= b);
    }
}

/// Dictionary order is transitive.
pub proof fn lemma_order_is_transitive(a: Seq<char>, b: Seq<char>, c: Seq<char>)
    requires
        precedes(a, b),
        precedes(b, c),
    ensures
        precedes(a, c),
    decreases a.len(),
{
    if a.len() > 0 && a[0] == b[0] && b[0] == c[0] {
        lemma_order_is_transitive(a.drop_first(), b.drop_first(), c.drop_first());
    }
}

// ---------------------------------------------------------------------------
// character classes
// ---------------------------------------------------------------------------

/// An ASCII digit.
pub fn digit_class(c: char) -> (r: bool)
    ensures
        r == is_digit(c),
{
    '0' <= c && c <= '9'
}

/// An ASCII letter or digit.
pub fn alnum_class(c: char) -> (r: bool)
    ensures
        r == is_alnum(c),
{
    digit_class(c) || ('a' <= c && c <= 'z') || ('A' <= c && c <= 'Z')
}

/// A character of the Unicode `White_Space` class.
pub fn space_class(c: char) -> (r: bool)
    ensures
        r == is_space(c),
{
    ('\u{9}' <= c && c <= '\u{d}') || c == ' ' || c == '\u{85}' || c == '\u{a0}' || c == '\u{1680}'
        || ('\u{2000}' <= c && c <= '\u{200a}') || c == '\u{2028}' || c == '\u{2029}' || c
        == '\u{202f}' || c == '\u{205f}' || c == '\u{3000}'
}

// ---------------------------------------------------------------------------
// rewriting
// ---------------------------------------------------------------------------

/// `c` with an ASCII capital letter replaced by its small form.
pub fn lower_char(c: char) -> (r: char)
    ensures
        r == lower(c),
{
    if 'A' <= c && c <= 'Z' {
        let n: u8 = c as u8;
        (n + 32) as char
    } else {
        c
    }
}

/// `s` with every ASCII capital letter replaced by its small form.
pub fn to_lower(s: &str) -> (r: String)
    ensures
        r@ == lowered(s@),
{
    let v = chars_of(s);
    let mut out = String::new();
    let mut i: usize = 0;
    while i < v.len()
        invariant
            v@ == s@,
            i <= v@.len(),
            out@ == lowered(s@).take(i as int),
        decreases v@.len() - i,
    {
        out.push(lower_char(v[i]));
        i += 1;
        assert(lowered(s@).take(i as int) == lowered(s@).take(i - 1).push(lower(s@[i - 1])));
    }
    assert(lowered(s@).take(v@.len() as int) == lowered(s@));
    out
}

/// `s` with every `c` replaced by `with`.
pub fn replace_char(s: &str, c: char, with: &str) -> (r: String)
    ensures
        r@ == replaced(s@, c, with@),
{
    let v = chars_of(s);
    let mut out = String::new();
    let mut i: usize = 0;
    while i < v.len()
        invariant
            v@ == s@,
            i <= v@.len(),
            out@ == replaced(s@.take(i as int), c, with@),
        decreases v@.len() - i,
    {
        if v[i] == c {
            out.append(with);
        } else {
            out.push(v[i]);
        }
        i += 1;
        assert(s@.take(i as int).drop_last() == s@.take(i - 1));
    }
    assert(s@.take(v@.len() as int) == s@);
    out
}

/// `s` with spaces behind it up to `width` characters.
pub fn pad(s: &str, width: usize) -> (r: String)
    ensures
        r@ == padded(s@, width as nat),
{
    let n: usize = s.unicode_len();
    let mut out = s.to_owned();
    let mut i: usize = n;
    while i < width
        invariant
            n == s@.len(),
            n <= i,
            n <= width ==> i <= width,
            n > width ==> i == n,
            out@ == s@ + Seq::new((i - n) as nat, |k: int| ' '),
        decreases width - i,
    {
        out.push(' ');
        i += 1;
        assert(out@ =~= s@ + Seq::new((i - n) as nat, |k: int| ' '));
    }
    assert(out@ =~= padded(s@, width as nat));
    out
}

/// `s` without its leading whitespace.
pub fn trim_start(s: &str) -> (r: &str)
    ensures
        r@ == trimmed_start(s@),
{
    let v = chars_of(s);
    let mut i: usize = 0;
    assert(s@.skip(0) == s@);
    while i < v.len() && space_class(v[i])
        invariant
            v@ == s@,
            i <= v@.len(),
            trimmed_start(s@) == trimmed_start(s@.skip(i as int)),
        decreases v@.len() - i,
    {
        i += 1;
        assert(s@.skip(i - 1).drop_first() == s@.skip(i as int));
    }
    let r = s.substring_char(i, v.len());
    assert(r@ == s@.skip(i as int));
    r
}

/// `s` without its trailing whitespace.
pub fn trim_end(s: &str) -> (r: &str)
    ensures
        r@ == trimmed_end(s@),
{
    let v = chars_of(s);
    let mut n: usize = v.len();
    assert(s@.take(n as int) == s@);
    while n > 0 && space_class(v[n - 1])
        invariant
            v@ == s@,
            n <= v@.len(),
            trimmed_end(s@) == trimmed_end(s@.take(n as int)),
        decreases n,
    {
        n -= 1;
        assert(s@.take(n + 1).drop_last() == s@.take(n as int));
    }
    let r = s.substring_char(0, n);
    assert(r@ == s@.take(n as int));
    r
}

/// `s` without whitespace at either end.
pub fn trim(s: &str) -> (r: &str)
    ensures
        r@ == trimmed(s@),
{
    trim_end(trim_start(s))
}

/// One more character either ends the last part or extends it.
proof fn lemma_pieces_on_step(s: Seq<char>, c: char)
    requires
        s.len() > 0,
    ensures
        pieces_on(s, c) == ({
            let before = pieces_on(s.drop_last(), c);
            if s.last() == c {
                before.push(Seq::empty())
            } else {
                before.drop_last().push(before.last().push(s.last()))
            }
        }),
{
}

/// The parts of `s` between the separators `c`, empty parts included.
pub fn split_on(s: &str, c: char) -> (r: Vec<String>)
    ensures
        views(r@) == pieces_on(s@, c),
{
    let v = chars_of(s);
    let mut out: Vec<String> = Vec::new();
    let mut cur = String::new();
    let mut i: usize = 0;
    assert(views(out@).push(cur@) =~= seq![Seq::<char>::empty()]);
    while i < v.len()
        invariant
            v@ == s@,
            i <= v@.len(),
            views(out@).push(cur@) == pieces_on(s@.take(i as int), c),
        decreases v@.len() - i,
    {
        let ghost before = pieces_on(s@.take(i as int), c);
        assert(before.drop_last() == views(out@));
        assert(before.last() == cur@);
        if v[i] == c {
            add_arg(&mut out, cur.as_str());
            cur = String::new();
        } else {
            cur.push(v[i]);
        }
        i += 1;
        proof {
            lemma_pieces_on_step(s@.take(i as int), c);
            assert(s@.take(i as int).drop_last() == s@.take(i - 1));
        }
    }
    assert(s@.take(v@.len() as int) == s@);
    add_arg(&mut out, cur.as_str());
    out
}

/// The non-empty runs of `s` between whitespace.
pub fn words(s: &str) -> (r: Vec<String>)
    ensures
        views(r@) == words_of(s@),
{
    let v = chars_of(s);
    let ghost sep = |x: char| is_space(x);
    let ghost keep = |w: Seq<char>| w.len() > 0;
    let mut out: Vec<String> = Vec::new();
    let mut cur: Vec<char> = Vec::new();
    let mut i: usize = 0;
    proof {
        reveal(Seq::filter);
        let p = pieces(s@.take(0), sep);
        assert(p.drop_last() =~= Seq::<Seq<char>>::empty());
        assert(views(out@) =~= p.drop_last().filter(keep));
    }
    while i < v.len()
        invariant
            v@ == s@,
            i <= v@.len(),
            sep == (|x: char| is_space(x)),
            keep == (|w: Seq<char>| w.len() > 0),
            pieces(s@.take(i as int), sep).len() > 0,
            pieces(s@.take(i as int), sep).last() == cur@,
            pieces(s@.take(i as int), sep).drop_last().filter(keep) == views(out@),
        decreases v@.len() - i,
    {
        let ghost before = pieces(s@.take(i as int), sep);
        if space_class(v[i]) {
            proof {
                reveal(Seq::filter);
                assert(before.filter(keep) == if cur@.len() > 0 {
                    before.drop_last().filter(keep).push(cur@)
                } else {
                    before.drop_last().filter(keep)
                });
            }
            if cur.len() > 0 {
                let w = slice_text(&cur, 0, cur.len());
                assert(w@ == cur@);
                add_arg(&mut out, w.as_str());
            }
            cur = Vec::new();
        } else {
            cur.push(v[i]);
        }
        i += 1;
        proof {
            assert(s@.take(i as int).drop_last() == s@.take(i - 1));
            let after = pieces(s@.take(i as int), sep);
            if is_space(s@[i - 1]) {
                assert(after == before.push(Seq::empty()));
                assert(after.drop_last() == before);
            } else {
                assert(after.drop_last() == before.drop_last());
            }
        }
    }
    proof {
        assert(s@.take(v@.len() as int) == s@);
        reveal(Seq::filter);
    }
    if cur.len() > 0 {
        let w = slice_text(&cur, 0, cur.len());
        assert(w@ == cur@);
        add_arg(&mut out, w.as_str());
    }
    out
}

/// The strings of `parts` with `sep` between neighbours.
pub fn join(parts: &Vec<String>, sep: &str) -> (r: String)
    ensures
        r@ == joined(views(parts@), sep@),
{
    let mut out = String::new();
    let mut i: usize = 0;
    while i < parts.len()
        invariant
            i <= parts@.len(),
            out@ == joined(views(parts@).take(i as int), sep@),
        decreases parts@.len() - i,
    {
        if i > 0 {
            out.append(sep);
        }
        out.append(parts[i].as_str());
        i += 1;
        proof {
            let done = views(parts@).take(i as int);
            assert(done.drop_last() == views(parts@).take(i - 1));
            assert(done.last() == parts@[i - 1]@);
            if i == 1 {
                assert(Seq::<char>::empty() + done[0] == done[0]);
            }
        }
    }
    assert(views(parts@).take(parts@.len() as int) == views(parts@));
    out
}

/// The suffix of `s` from index `i` on spells a number at least as large as
/// any of its prefixes.
proof fn lemma_number_grows(s: Seq<char>, n: int)
    requires
        0 <= n <= s.len(),
        forall|i: int| 0 <= i < s.len() ==> is_digit(#[trigger] s[i]),
    ensures
        number(s.take(n)) <= number(s),
    decreases s.len() - n,
{
    if n < s.len() {
        lemma_number_grows(s, n + 1);
        assert(s.take(n + 1).drop_last() == s.take(n));
        assert(s.take(n + 1).last() == s[n]);
    } else {
        assert(s.take(n) == s);
    }
}

/// The number that the digits `v[start..]` spell, when there is at least one,
/// all are digits, and the number is no greater than `max`.
fn parse_digits(v: &Vec<char>, start: usize, max: u64) -> (r: Option<u64>)
    requires
        start <= v@.len(),
    ensures
        ({
            let d = v@.skip(start as int);
            match r {
                Some(n) => all_digits(d) && number(d) == n && n <= max,
                None => !all_digits(d) || number(d) > max,
            }
        }),
{
    let ghost d = v@.skip(start as int);
    if v.len() == start {
        return None;
    }
    let mut n: u64 = 0;
    let mut i: usize = start;
    while i < v.len()
        invariant
            start <= i <= v@.len(),
            start < v@.len(),
            d == v@.skip(start as int),
            n <= max,
            n == number(d.take(i - start)),
            forall|j: int| 0 <= j < i - start ==> is_digit(#[trigger] d[j]),
        decreases v@.len() - i,
    {
        let c: char = v[i];
        assert(c == d[i - start]);
        if !digit_class(c) {
            return None;
        }
        let x: u64 = (c as u8 - '0' as u8) as u64;
        let ghost k = i - start;
        proof {
            assert(d.take(k + 1).drop_last() == d.take(k));
            assert(number(d.take(k + 1)) == number(d.take(k)) * 10 + x);
        }
        if x > max || n > (max - x) / 10 {
            proof {
                if all_digits(d) {
                    lemma_number_grows(d, k + 1);
                    assert(number(d) > max);
                }
            }
            return None;
        }
        n = n * 10 + x;
        i += 1;
    }
    assert(d.take(d.len() as int) == d);
    Some(n)
}

/// The value of `s` read as an unsigned integer no greater than `max`, as the
/// standard library parses one: an optional `+`, then one or more digits.
pub fn parse_unsigned(s: &str, max: u64) -> (r: Option<u64>)
    ensures
        match r {
            Some(n) => unsigned(s@, max as nat) == Some(n as nat),
            None => unsigned(s@, max as nat) == None::<nat>,
        },
{
    let v = chars_of(s);
    let start: usize = if v.len() > 0 && v[0] == '+' {
        1
    } else {
        0
    };
    assert(unsigned_digits(s@) =~= s@.skip(start as int));
    parse_digits(&v, start, max)
}

/// The value of `s` read as a signed 32-bit integer, as the standard library
/// parses one: an optional sign, then one or more digits.
pub fn parse_i32(s: &str) -> (r: Option<i32>)
    ensures
        match r {
            Some(n) => signed32(s@) == Some(n as int),
            None => signed32(s@) == None::<int>,
        },
{
    let v = chars_of(s);
    if v.len() > 0 && v[0] == '-' {
        assert(s@.drop_first() =~= s@.skip(1));
        match parse_digits(&v, 1, 0x8000_0000) {
            Some(n) => Some((0 - n as i64) as i32),
            None => None,
        }
    } else {
        match parse_unsigned(s, 0x7fff_ffff) {
            Some(n) => Some(n as i32),
            None => None,
        }
    }
}

// ---------------------------------------------------------------------------
// laws
// ---------------------------------------------------------------------------

/// A number is read back from its decimal form, which is the shortest one.
pub proof fn law_decimal_reads_back(n: nat)
    ensures
        all_digits(decimal(n)),
        number(decimal(n)) == n,
        decimal(n)[0] == '0' <==> n == 0,
        n < 10 <==> decimal(n).len() == 1,
    decreases n,
{
    if n >= 10 {
        let front = decimal(n / 10);
        law_decimal_reads_back(n / 10);
        assert(decimal(n).drop_last() =~= front);
        assert(decimal(n)[0] == front[0]);
        assert forall|i: int| 0 <= i < decimal(n).len() implies is_digit(
            #[trigger] decimal(n)[i],
        ) by {
            if i < front.len() {
                assert(decimal(n)[i] == front[i]);
            }
        }
    } else {
        assert(decimal(n).drop_last() =~= Seq::<char>::empty());
        assert(number(Seq::<char>::empty()) == 0);
    }
}

/// Different numbers have different decimal forms.
pub proof fn law_decimals_differ(a: nat, b: nat)
    requires
        decimal(a) == decimal(b),
    ensures
        a == b,
{
    law_decimal_reads_back(a);
    law_decimal_reads_back(b);
}

/// The parts between separators, joined by the separator, are the text again,
/// and no part holds the separator.
pub proof fn law_pieces_rejoin(s: Seq<char>, c: char)
    ensures
        pieces_on(s, c).len() >= 1,
        joined(pieces_on(s, c), seq![c]) == s,
        forall|i: int| 0 <= i < pieces_on(s, c).len() ==> !(#[trigger] pieces_on(s, c)[i]).contains(c),
    decreases s.len(),
{
    let all = pieces_on(s, c);
    let sep = seq![c];
    if s.len() == 0 {
        assert(joined(all, sep) =~= s);
    } else {
        let front = s.drop_last();
        let before = pieces_on(front, c);
        law_pieces_rejoin(front, c);
        lemma_pieces_on_step(s, c);
        assert(front.push(s.last()) =~= s);
        if s.last() == c {
            assert(all == before.push(Seq::empty()));
            assert(all.drop_last() =~= before);
            assert(joined(all, sep) =~= s);
        } else {
            let last = before.last().push(s.last());
            assert(all == before.drop_last().push(last));
            assert(all.drop_last() =~= before.drop_last());
            if before.len() == 1 {
                assert(joined(before, sep) == before[0]);
                assert(joined(all, sep) =~= s);
            } else {
                assert(joined(before, sep) == joined(before.drop_last(), sep) + sep
                    + before.last());
                assert(joined(all, sep) =~= s);
            }
            assert forall|i: int| 0 <= i < all.len() implies !(#[trigger] all[i]).contains(c) by {
                if i < before.len() - 1 {
                    assert(all[i] == before[i]);
                } else {
                    assert(!before[before.len() - 1].contains(c));
                    assert forall|j: int| 0 <= j < last.len() implies last[j] != c by {
                        if j < before.last().len() {
                            assert(before.last().contains(before.last()[j]));
                        }
                    }
                }
            }
        }
    }
}

/// Trimming takes whitespace off the ends, all of it and nothing else.
pub proof fn law_trimming_takes_whitespace_off(s: Seq<char>)
    ensures
        exists|a: Seq<char>, b: Seq<char>|
            s == #[trigger] (a + trimmed(s) + b) && all_space(a) && all_space(b),
        exists|b: Seq<char>| s == #[trigger] (trimmed_end(s) + b) && all_space(b),
        exists|a: Seq<char>| s == #[trigger] (a + trimmed_start(s)) && all_space(a),
        trimmed(s).len() > 0 ==> !is_space(trimmed(s)[0]) && !is_space(trimmed(s).last()),
        trimmed_end(s).len() > 0 ==> !is_space(trimmed_end(s).last()),
        trimmed_start(s).len() > 0 ==> !is_space(trimmed_start(s)[0]),
{
    lemma_trimmed_start(s);
    lemma_trimmed_end(s);
    lemma_trimmed_end(trimmed_start(s));
    let a = choose|a: Seq<char>| s == #[trigger] (a + trimmed_start(s)) && all_space(a);
    let m = trimmed_start(s);
    let b = choose|b: Seq<char>| m == #[trigger] (trimmed_end(m) + b) && all_space(b);
    assert(s =~= a + trimmed(s) + b);
    if trimmed(s).len() > 0 {
        assert(trimmed(s)[0] == m[0]);
    }
}

/// Nothing but whitespace.
pub open spec fn all_space(s: Seq<char>) -> bool {
    forall|i: int| 0 <= i < s.len() ==> is_space(#[trigger] s[i])
}

proof fn lemma_trimmed_start(s: Seq<char>)
    ensures
        exists|a: Seq<char>| s == #[trigger] (a + trimmed_start(s)) && all_space(a),
        trimmed_start(s).len() > 0 ==> !is_space(trimmed_start(s)[0]),
    decreases s.len(),
{
    if s.len() > 0 && is_space(s[0]) {
        let rest = s.drop_first();
        lemma_trimmed_start(rest);
        let a = choose|a: Seq<char>| rest == #[trigger] (a + trimmed_start(rest)) && all_space(a);
        let b = seq![s[0]] + a;
        assert(rest == a + trimmed_start(rest));
        assert(s =~= seq![s[0]] + rest);
        assert(b + trimmed_start(s) =~= seq![s[0]] + (a + trimmed_start(rest)));
        assert(all_space(b));
    } else {
        let a = Seq::<char>::empty();
        assert(s =~= a + trimmed_start(s));
        assert(all_space(a));
    }
}

proof fn lemma_trimmed_end(s: Seq<char>)
    ensures
        exists|b: Seq<char>| s == #[trigger] (trimmed_end(s) + b) && all_space(b),
        trimmed_end(s).len() > 0 ==> !is_space(trimmed_end(s).last()),
    decreases s.len(),
{
    if s.len() > 0 && is_space(s.last()) {
        let front = s.drop_last();
        lemma_trimmed_end(front);
        let a = choose|a: Seq<char>| front == #[trigger] (trimmed_end(front) + a) && all_space(a);
        let b = a.push(s.last());
        assert(front == trimmed_end(front) + a);
        assert(s =~= front.push(s.last()));
        assert(trimmed_end(s) + b =~= (trimmed_end(front) + a).push(s.last()));
        assert(all_space(b));
    } else {
        let b = Seq::<char>::empty();
        assert(s =~= trimmed_end(s) + b);
        assert(all_space(b));
    }
}

/// What counts as whitespace within ASCII: the blank and the five control
/// characters from the tab to the carriage return, and nothing else.
pub proof fn law_ascii_whitespace(c: char)
    requires
        c < '\u{80}',
    ensures
        is_space(c) <==> c == ' ' || c == '\t' || c == '\n' || c == '\u{b}' || c == '\u{c}' || c
            == '\r',
{
}

/// Lowering moves each ASCII capital to its small letter, keeps every other
/// character, and is done after one time.
pub proof fn law_lowering_moves_capitals_alone(s: Seq<char>, i: int)
    requires
        0 <= i < s.len(),
    ensures
        lowered(s).len() == s.len(),
        'A' <= s[i] <= 'Z' ==> 'a' <= lowered(s)[i] <= 'z' && lowered(s)[i] as int - 'a' as int
            == s[i] as int - 'A' as int,
        !('A' <= s[i] <= 'Z') ==> lowered(s)[i] == s[i],
        lowered(lowered(s)) == lowered(s),
{
    assert(lowered(lowered(s)) =~= lowered(s)) by {
        assert forall|k: int| 0 <= k < s.len() implies lowered(lowered(s))[k] == lowered(s)[k] by {
            assert(lowered(s)[k] == lower(s[k]));
            assert(lowered(lowered(s))[k] == lower(lower(s[k])));
        }
    }
    assert(lowered(s)[i] == lower(s[i]));
}

/// A padded text keeps its characters and has blanks behind them up to the
/// width; a text that is wide enough is not cut.
pub proof fn law_padding_adds_blanks(s: Seq<char>, width: nat)
    ensures
        padded(s, width).len() == (if s.len() < width {
            width
        } else {
            s.len()
        }),
        padded(s, width).take(s.len() as int) == s,
        forall|i: int| s.len() <= i < padded(s, width).len() ==> #[trigger] padded(s, width)[i] == ' ',
{
    assert(padded(s, width).take(s.len() as int) =~= s);
}

/// A signed number has its magnitude in decimal, behind a hyphen exactly where
/// it is negative.
pub proof fn law_signs(n: int)
    ensures
        n >= 0 ==> signed_decimal(n) == decimal(n as nat),
        n < 0 ==> signed_decimal(n) == "-"@ + decimal((-n) as nat),
{
    reveal_strlit("-");
    if n < 0 {
        assert(signed_decimal(n) =~= "-"@ + decimal((-n) as nat));
    }
}

/// Dictionary order: a text comes after its own beginnings, and where two texts
/// differ the first difference decides.
pub proof fn law_dictionary_order(s: Seq<char>, a: char, b: char, x: Seq<char>, y: Seq<char>)
    ensures
        precedes(s, s + seq![a] + x),
        !precedes(s, s),
        a < b ==> precedes(s + seq![a] + x, s + seq![b] + y),
        a > b ==> !precedes(s + seq![a] + x, s + seq![b] + y),
    decreases s.len(),
{
    let p = s + seq![a] + x;
    let q = s + seq![b] + y;
    if s.len() == 0 {
        assert(p[0] == a && q[0] == b);
    } else {
        let t = s.drop_first();
        law_dictionary_order(t, a, b, x, y);
        assert(p.drop_first() =~= t + seq![a] + x);
        assert(q.drop_first() =~= t + seq![b] + y);
        assert(p[0] == s[0] && q[0] == s[0]);
    }
}

/// A text in front of a separator and a part behind it: the parts are those of
/// the text, and the part.
pub proof fn law_parts_are_appended(s: Seq<char>, c: char, part: Seq<char>)
    requires
        !part.contains(c),
    ensures
        pieces_on(s + seq![c] + part, c) == pieces_on(s, c).push(part),
        pieces_on(part, c) == seq![part],
    decreases part.len(),
{
    let all = s + seq![c] + part;
    if part.len() == 0 {
        assert(all.drop_last() =~= s);
        assert(all.last() == c);
        lemma_pieces_on_step(all, c);
        assert(part =~= Seq::<char>::empty());
        assert(pieces_on(part, c) =~= seq![part]);
    } else {
        let front = part.drop_last();
        assert forall|i: int| 0 <= i < front.len() implies front[i] != c by {
            assert(part.contains(part[i]));
        }
        law_parts_are_appended(s, c, front);
        assert(part.contains(part.last()));
        assert(all.drop_last() =~= s + seq![c] + front);
        lemma_pieces_on_step(all, c);
        lemma_pieces_on_step(part, c);
        let before = pieces_on(s, c).push(front);
        assert(before.drop_last() =~= pieces_on(s, c));
        assert(front.push(part.last()) =~= part);
        assert(seq![front].drop_last() =~= Seq::<Seq<char>>::empty());
        assert(pieces_on(part, c) =~= seq![part]);
    }
}

/// The words of a text are not empty and hold no whitespace.
pub proof fn law_words_hold_no_whitespace(s: Seq<char>, k: int)
    requires
        0 <= k < words_of(s).len(),
    ensures
        words_of(s)[k].len() > 0,
        forall|i: int| 0 <= i < words_of(s)[k].len() ==> !is_space(#[trigger] words_of(s)[k][i]),
{
    let full = |w: Seq<char>| w.len() > 0;
    let parts = pieces(s, |c: char| is_space(c));
    lemma_pieces_are_free(s, |c: char| is_space(c));
    lemma_filter_keeps(parts, full, k);
}

proof fn lemma_pieces_are_free(s: Seq<char>, sep: spec_fn(char) -> bool)
    ensures
        pieces(s, sep).len() >= 1,
        forall|k: int, i: int|
            #![trigger pieces(s, sep)[k][i]]
            0 <= k < pieces(s, sep).len() && 0 <= i < pieces(s, sep)[k].len() ==> !sep(
                pieces(s, sep)[k][i],
            ),
    decreases s.len(),
{
    if s.len() > 0 {
        let before = pieces(s.drop_last(), sep);
        lemma_pieces_are_free(s.drop_last(), sep);
        let all = pieces(s, sep);
        assert forall|k: int, i: int|
            #![trigger all[k][i]]
            0 <= k < all.len() && 0 <= i < all[k].len() implies !sep(all[k][i]) by {
            if k < before.len() {
                if i < before[k].len() {
                    assert(all[k][i] == before[k][i]);
                }
            }
        }
    }
}

proof fn lemma_filter_keeps(parts: Seq<Seq<char>>, full: spec_fn(Seq<char>) -> bool, k: int)
    requires
        0 <= k < parts.filter(full).len(),
    ensures
        full(parts.filter(full)[k]),
        exists|j: int| 0 <= j < parts.len() && #[trigger] parts[j] == parts.filter(full)[k],
    decreases parts.len(),
{
    reveal(Seq::filter);
    if parts.len() > 0 {
        let front = parts.drop_last();
        if k < front.filter(full).len() {
            lemma_filter_keeps(front, full, k);
            let j = choose|j: int| 0 <= j < front.len() && #[trigger] front[j] == front.filter(
                full,
            )[k];
            assert(parts[j] == front[j]);
        } else {
            assert(parts[parts.len() - 1] == parts.filter(full)[k]);
        }
    }
}

/// A text without whitespace is its own only word, and words in front of a
/// blank stay what they are.
pub proof fn law_words_are_appended(s: Seq<char>, w: Seq<char>)
    requires
        w.len() > 0,
        forall|i: int| 0 <= i < w.len() ==> !is_space(#[trigger] w[i]),
    ensures
        words_of(w) == seq![w],
        words_of(s + seq![' '] + w) == words_of(s).push(w),
        words_of(s + seq![' ']) == words_of(s),
{
    reveal(Seq::filter);
    let full = |p: Seq<char>| p.len() > 0;
    lemma_space_pieces(s, w);
    let before = pieces(s, |c: char| is_space(c));
    let none = Seq::<Seq<char>>::empty();
    assert(seq![w].drop_last() =~= none);
    assert(none.filter(full) =~= none);
    assert(seq![w].filter(full) =~= seq![w]);
    assert(before.push(w).drop_last() =~= before);
    assert(before.push(w).filter(full) =~= before.filter(full).push(w));
    let e = Seq::<char>::empty();
    assert(before.push(e).drop_last() =~= before);
    assert((s + seq![' ']).drop_last() =~= s);
    assert(pieces(s + seq![' '], |c: char| is_space(c)) == before.push(e));
    assert(before.push(e).filter(full) =~= before.filter(full));
}

proof fn lemma_space_pieces(s: Seq<char>, w: Seq<char>)
    requires
        forall|i: int| 0 <= i < w.len() ==> !is_space(#[trigger] w[i]),
    ensures
        pieces(w, |c: char| is_space(c)) == seq![w],
        pieces(s + seq![' '] + w, |c: char| is_space(c)) == pieces(s, |c: char| is_space(c)).push(
            w,
        ),
    decreases w.len(),
{
    let sep = |c: char| is_space(c);
    let all = s + seq![' '] + w;
    if w.len() == 0 {
        assert(all.drop_last() =~= s);
        assert(all.last() == ' ');
        assert(w =~= Seq::<char>::empty());
        assert(pieces(w, sep) =~= seq![w]);
    } else {
        let front = w.drop_last();
        lemma_space_pieces(s, front);
        assert(all.drop_last() =~= s + seq![' '] + front);
        assert(!is_space(w.last()));
        let before = pieces(s, sep).push(front);
        assert(before.drop_last() =~= pieces(s, sep));
        assert(front.push(w.last()) =~= w);
        assert(seq![front].drop_last() =~= Seq::<Seq<char>>::empty());
        assert(pieces(w, sep) =~= seq![w]);
    }
}

/// A number within the limit is read from its decimal form, with or without a
/// plus sign before it; one beyond the limit is not.
pub proof fn law_unsigned_numbers_are_read(n: nat, max: nat)
    ensures
        n <= max ==> unsigned(decimal(n), max) == Some(n),
        n <= max ==> unsigned(seq!['+'] + decimal(n), max) == Some(n),
        n > max ==> unsigned(decimal(n), max) is None,
{
    law_decimal_reads_back(n);
    let d = decimal(n);
    assert(is_digit(d[0]));
    assert((seq!['+'] + d).drop_first() =~= d);
}

/// What is empty, or holds anything but digits behind its sign, is no number.
pub proof fn law_only_digits_are_numbers(s: Seq<char>, max: nat, i: int)
    ensures
        unsigned(Seq::empty(), max) is None,
        signed32(Seq::empty()) is None,
        1 <= i < s.len() && !('0' <= s[i] <= '9') ==> unsigned(s, max) is None && signed32(s)
            is None,
        s.len() > 0 && s[0] != '+' && !('0' <= s[0] <= '9') ==> unsigned(s, max) is None,
        s.len() > 0 && s[0] != '+' && s[0] != '-' && !('0' <= s[0] <= '9') ==> signed32(s) is None,
{
    if 1 <= i < s.len() && !('0' <= s[i] <= '9') {
        let d = s.drop_first();
        assert(d[i - 1] == s[i]);
        assert(!is_digit(s[i]));
    }
    if s.len() > 0 && !('0' <= s[0] <= '9') {
        assert(!is_digit(s[0]));
    }
}

/// A signed number is read from its decimal form exactly where it has 32 bits.
pub proof fn law_signed_numbers_are_read(n: int)
    ensures
        -0x8000_0000 <= n <= 0x7fff_ffff ==> signed32(signed_decimal(n)) == Some(n),
        n > 0x7fff_ffff || n < -0x8000_0000 ==> signed32(signed_decimal(n)) is None,
{
    if n < 0 {
        law_decimal_reads_back((-n) as nat);
        assert(signed_decimal(n).drop_first() =~= decimal((-n) as nat));
    } else {
        law_unsigned_numbers_are_read(n as nat, 0x7fff_ffff);
        law_decimal_reads_back(n as nat);
        assert(is_digit(decimal(n as nat)[0]));
    }
}

/// Replacing touches the replaced character alone, wherever it stands.
pub proof fn law_replacing_touches_one_character(
    a: Seq<char>,
    b: Seq<char>,
    c: char,
    with: Seq<char>,
)
    ensures
        replaced(a + seq![c] + b, c, with) == replaced(a, c, with) + with + replaced(b, c, with),
        !a.contains(c) ==> replaced(a, c, with) == a,
    decreases a.len() + b.len(),
{
    if b.len() == 0 {
        let all = a + seq![c] + b;
        assert(all.drop_last() =~= a);
        assert(replaced(b, c, with) =~= Seq::<char>::empty());
        assert(replaced(all, c, with) =~= replaced(a, c, with) + with + replaced(b, c, with));
        if !a.contains(c) && a.len() > 0 {
            let front = a.drop_last();
            assert forall|i: int| 0 <= i < front.len() implies front[i] != c by {
                assert(a.contains(a[i]));
            }
            law_replacing_touches_one_character(front, b, c, with);
            assert(a.contains(a.last()));
            assert(replaced(a, c, with) =~= a);
        } else if a.len() == 0 {
            assert(replaced(a, c, with) =~= a);
        }
    } else {
        let front = b.drop_last();
        law_replacing_touches_one_character(a, front, c, with);
        let all = a + seq![c] + b;
        assert(all.drop_last() =~= a + seq![c] + front);
        assert(replaced(all, c, with) =~= replaced(a, c, with) + with + replaced(b, c, with));
    }
}

/// A text is held where it stands between any two others.
pub proof fn law_a_part_is_held(a: Seq<char>, p: Seq<char>, b: Seq<char>)
    ensures
        holds(a + p + b, p),
        !holds(b, p) || p.len() <= b.len(),
{
    let s = a + p + b;
    assert(s.subrange(a.len() as int, a.len() as int + p.len()) =~= p);
    assert(occurs_at(s, p, a.len() as int));
}

/// Strings are modelled by their characters, one for one.
pub proof fn law_strings_are_their_characters(v: Seq<String>, o: Option<String>, i: int)
    ensures
        views(v).len() == v.len(),
        0 <= i < v.len() ==> views(v)[i] == v[i]@,
        o matches Some(s) ==> opt_view(o) == Some(s@),
        opt_view(o) is None <==> o is None,
{
}

} // verus!
