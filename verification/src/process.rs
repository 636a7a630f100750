//! Telling stale media processes apart by their command lines.
use crate::text;
use vstd::prelude::*;

verus! {

/// The tokens name `uri` as a destination at index `k`: as a sink property, or
/// as a bare positional (never the value of a flag) behind a muxer flag.
pub open spec fn publishes_at(tokens: Seq<Seq<char>>, uri: Seq<char>, k: int) -> bool {
    &&& text::holds(tokens[k], uri)
    &&& ({
        ||| "location="@.is_prefix_of(tokens[k])
        ||| {
            &&& k == 0 || !"-"@.is_prefix_of(tokens[k - 1])
            &&& exists|m: int| 0 <= m < k && #[trigger] tokens[m] == "-f"@
        }
    })
}

/// The command line publishes to `uri`.
pub open spec fn publishes(cmdline: Seq<char>, uri: Seq<char>) -> bool {
    let tokens = text::words_of(cmdline);
    exists|k: int| 0 <= k < tokens.len() && #[trigger] publishes_at(tokens, uri, k)
}

/// True when `cmdline` names `uri` as a muxer destination rather than reading
/// it as an input. Publisher and readers carry the same URI, so only the
/// syntax around it tells them apart; anything that is not positively a
/// publisher counts as a reader.
pub fn cmdline_publishes_to(cmdline: &str, uri: &str) -> (r: bool)
    ensures
        r == publishes(cmdline@, uri@),
{
    let tokens = text::words(cmdline);
    let ghost all = text::views(tokens@);
    let mut saw_muxer_flag = false;
    let mut i: usize = 0;
    while i < tokens.len()
        invariant
            i <= tokens@.len(),
            all == text::views(tokens@),
            all == text::words_of(cmdline@),
            saw_muxer_flag == exists|m: int| 0 <= m < i && #[trigger] all[m] == "-f"@,
            forall|k: int| 0 <= k < i ==> !(#[trigger] publishes_at(all, uri@, k)),
        decreases tokens@.len() - i,
    {
        let token = tokens[i].as_str();
        assert(token@ == all[i as int]);
        if text::contains(token, uri) {
            if text::starts_with(token, "location=") {
                assert(publishes_at(all, uri@, i as int));
                return true;
            }
            let is_a_flags_value = i > 0 && text::starts_with(tokens[i - 1].as_str(), "-");
            if !is_a_flags_value && saw_muxer_flag {
                assert(publishes_at(all, uri@, i as int));
                return true;
            }
        }
        if text::same(token, "-f") {
            assert(all[i as int] == "-f"@);
            saw_muxer_flag = true;
        }
        i += 1;
    }
    false
}

/// The process ids among the first `n` lines, other than `me`.
pub open spec fn pids_in(lines: Seq<Seq<char>>, me: u32, n: int) -> Seq<int>
    decreases n,
{
    if n <= 0 {
        Seq::empty()
    } else {
        let rest = pids_in(lines, me, n - 1);
        match text::signed32(text::trimmed(lines[n - 1])) {
            Some(pid) if pid != me as int => rest.push(pid),
            _ => rest,
        }
    }
}

/// The process ids that a process listing names, one per line, other than
/// `me`; lines that are no number are skipped.
pub open spec fn orphans(listing: Seq<char>, me: u32) -> Seq<int> {
    let lines = text::pieces_on(listing, '\n');
    pids_in(lines, me, lines.len() as int)
}

/// The models of the ids in `v`.
pub open spec fn ids(v: Seq<i32>) -> Seq<int> {
    Seq::new(v.len(), |i: int| v[i] as int)
}

/// The process ids that a process listing names, other than `me`.
pub fn orphan_pids(listing: &str, me: u32) -> (r: Vec<i32>)
    ensures
        ids(r@) == orphans(listing@, me),
{
    let lines = text::split_on(listing, '\n');
    let ghost all = text::views(lines@);
    let mut out: Vec<i32> = Vec::new();
    let mut i: usize = 0;
    assert(ids(out@) =~= pids_in(all, me, 0));
    while i < lines.len()
        invariant
            i <= lines@.len(),
            all == text::views(lines@),
            ids(out@) == pids_in(all, me, i as int),
        decreases lines@.len() - i,
    {
        let line = text::trim(lines[i].as_str());
        let ghost before = out@;
        match text::parse_i32(line) {
            Some(pid) => {
                if pid as i64 != me as i64 {
                    out.push(pid);
                    assert(ids(out@) =~= ids(before).push(pid as int));
                }
            },
            None => {},
        }
        i += 1;
    }
    out
}

/// The command line of a process, from the raw text in which its arguments
/// are separated by NUL characters: joined by spaces, without surrounding
/// whitespace, and none when nothing is left.
pub fn cmdline_text(raw: &str) -> (r: Option<String>)
    ensures
        text::opt_view(r) == ({
            let joined = text::trimmed(text::replaced(raw@, '\0', " "@));
            if joined.len() == 0 {
                None
            } else {
                Some(joined)
            }
        }),
{
    let spaced = text::replace_char(raw, '\0', " ");
    let line = text::trim(spaced.as_str());
    if line.is_empty() {
        None
    } else {
        Some(line.to_owned())
    }
}

/// A flag right in front of a URI makes the process a reader of it: a command
/// line whose only mention of `uri` is the value of a flag is spared.
pub proof fn law_a_flags_value_is_spared(cmdline: Seq<char>, uri: Seq<char>)
    requires
        forall|k: int|
            0 <= k < text::words_of(cmdline).len() && text::holds(
                #[trigger] text::words_of(cmdline)[k],
                uri,
            ) ==> k > 0 && "-"@.is_prefix_of(text::words_of(cmdline)[k - 1])
                && !"location="@.is_prefix_of(text::words_of(cmdline)[k]),
    ensures
        !publishes(cmdline, uri),
{
}

/// A command line without a muxer flag and without a sink property is spared.
pub proof fn law_no_muxer_no_publisher(cmdline: Seq<char>, uri: Seq<char>)
    requires
        forall|k: int|
            0 <= k < text::words_of(cmdline).len() ==> {
                &&& #[trigger] text::words_of(cmdline)[k] != "-f"@
                &&& !"location="@.is_prefix_of(text::words_of(cmdline)[k])
            },
    ensures
        !publishes(cmdline, uri),
{
}

/// A command line publishes exactly where some word holds the address and is a
/// sink property, or is a bare word behind a muxer flag.
pub proof fn law_what_makes_a_publisher(cmdline: Seq<char>, uri: Seq<char>, m: int, k: int)
    requires
        0 <= k < text::words_of(cmdline).len(),
        text::holds(text::words_of(cmdline)[k], uri),
    ensures
        "location="@.is_prefix_of(text::words_of(cmdline)[k]) ==> publishes(cmdline, uri),
        0 <= m < k && text::words_of(cmdline)[m] == "-f"@ && !"-"@.is_prefix_of(
            text::words_of(cmdline)[k - 1],
        ) ==> publishes(cmdline, uri),
{
    let tokens = text::words_of(cmdline);
    if "location="@.is_prefix_of(tokens[k]) {
        assert(publishes_at(tokens, uri, k));
    }
    if 0 <= m < k && tokens[m] == "-f"@ && !"-"@.is_prefix_of(tokens[k - 1]) {
        assert(publishes_at(tokens, uri, k));
    }
}

/// A command line that does not hold the address does not publish to it.
pub proof fn law_no_mention_no_publisher(cmdline: Seq<char>, uri: Seq<char>)
    requires
        forall|k: int|
            0 <= k < text::words_of(cmdline).len() ==> !text::holds(
                #[trigger] text::words_of(cmdline)[k],
                uri,
            ),
    ensures
        !publishes(cmdline, uri),
{
}

/// A process id is an orphan exactly where a line of the listing spells it, but
/// for the reader's own.
pub proof fn law_orphans_are_the_listed_others(listing: Seq<char>, me: u32, pid: int)
    ensures
        orphans(listing, me).contains(pid) <==> pid != me && exists|i: int|
            0 <= i < text::pieces_on(listing, '\n').len() && text::signed32(
                text::trimmed(#[trigger] text::pieces_on(listing, '\n')[i]),
            ) == Some(pid),
        orphans(listing, me).len() <= text::pieces_on(listing, '\n').len(),
{
    let lines = text::pieces_on(listing, '\n');
    lemma_pids(lines, me, lines.len() as int, pid);
}

proof fn lemma_pids(lines: Seq<Seq<char>>, me: u32, n: int, pid: int)
    requires
        0 <= n <= lines.len(),
    ensures
        pids_in(lines, me, n).contains(pid) <==> pid != me && exists|i: int|
            0 <= i < n && text::signed32(text::trimmed(#[trigger] lines[i])) == Some(pid),
        pids_in(lines, me, n).len() <= n,
    decreases n,
{
    if n > 0 {
        lemma_pids(lines, me, n - 1, pid);
        let rest = pids_in(lines, me, n - 1);
        let all = pids_in(lines, me, n);
        let read = text::signed32(text::trimmed(lines[n - 1]));
        if rest.contains(pid) {
            let j = choose|j: int| 0 <= j < rest.len() && rest[j] == pid;
            assert(all[j] == pid);
        }
        if read == Some(pid) && pid != me {
            assert(all[rest.len() as int] == pid);
        }
        if all.contains(pid) && !rest.contains(pid) {
            let j = choose|j: int| 0 <= j < all.len() && all[j] == pid;
            if j < rest.len() {
                assert(rest[j] == pid);
            }
            assert(read == Some(pid));
        }
    }
}

/// Process ids are modelled one for one.
pub proof fn law_ids_are_modelled_one_for_one(v: Seq<i32>, i: int)
    ensures
        ids(v).len() == v.len(),
        0 <= i < v.len() ==> ids(v)[i] == v[i],
{
}

} // verus!
