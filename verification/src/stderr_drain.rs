//! Draining a child's standard error: bounded lines and a rate limit.
//!
//! Every byte is consumed so that the pipe never fills, but a line is kept
//! only up to a bound, and only a few lines per window reach the log; the rest
//! are counted and summarised.
use crate::health::Nanos;
use crate::text;
use vstd::prelude::*;

verus! {

/// The longest line that is kept, in bytes.
pub const MAX_LINE_BYTES: usize = 4096;

/// At most this many lines per window reach the log.
pub const DRAIN_MAX_LINES_PER_WINDOW: u32 = 5;

/// The rate-limit window.
pub const DRAIN_WINDOW: Nanos = 10_000_000_000;

/// `line` extended by as many of `bytes` as the bound leaves room for.
pub open spec fn bounded(line: Seq<u8>, bytes: Seq<u8>) -> Seq<u8> {
    let room = if line.len() < MAX_LINE_BYTES {
        MAX_LINE_BYTES - line.len()
    } else {
        0
    };
    if bytes.len() <= room {
        line + bytes
    } else {
        line + bytes.take(room)
    }
}

/// Extend `line` by as many of `bytes` as the bound leaves room for.
pub fn push_bounded(line: &mut Vec<u8>, bytes: &[u8])
    ensures
        final(line)@ == bounded(old(line)@, bytes@),
{
    let room: usize = if line.len() < MAX_LINE_BYTES {
        MAX_LINE_BYTES - line.len()
    } else {
        0
    };
    let n: usize = if bytes.len() <= room {
        bytes.len()
    } else {
        room
    };
    let ghost start = line@;
    let mut i: usize = 0;
    assert(start + bytes@.take(0) =~= start);
    while i < n
        invariant
            i <= n <= bytes@.len(),
            line@ == start + bytes@.take(i as int),
        decreases n - i,
    {
        line.push(bytes[i]);
        i += 1;
        assert(start + bytes@.take(i as int) =~= (start + bytes@.take(i - 1)).push(bytes@[i - 1]));
    }
    assert(bytes@.take(bytes@.len() as int) =~= bytes@);
}

/// A byte that ends a line.
pub open spec fn ends_line(b: u8) -> bool {
    b == 10 || b == 13
}

/// The index of the first line end in `buf` at `i` or later.
pub open spec fn line_end(buf: Seq<u8>, i: int) -> Option<int>
    decreases buf.len() - i,
{
    if i < 0 || i >= buf.len() {
        None
    } else if ends_line(buf[i]) {
        Some(i)
    } else {
        line_end(buf, i + 1)
    }
}

/// What a read does to the line gathered so far: the line then, how much of
/// the read is used, and whether the line is complete.
pub open spec fn fed(line: Seq<u8>, buf: Seq<u8>) -> (Seq<u8>, int, bool) {
    match line_end(buf, 0) {
        Some(e) => (bounded(line, buf.take(e)), e + 1, true),
        None => (bounded(line, buf), buf.len() as int, false),
    }
}

/// Splits a byte stream at either line terminator, each line bounded.
#[derive(Debug, Clone, PartialEq, Eq)]
pub struct LineBuffer {
    pub line: Vec<u8>,
}

impl LineBuffer {
    pub fn new() -> (r: Self)
        ensures
            r.line@.len() == 0,
    {
        LineBuffer { line: Vec::new() }
    }

    /// Take in the next bytes of the stream, up to and including the first
    /// line end. Returns how many bytes were consumed, and whether the line is
    /// complete.
    pub fn feed(&mut self, buf: &[u8]) -> (r: (usize, bool))
        requires
            buf@.len() < usize::MAX,
        ensures
            (final(self).line@, r.0 as int, r.1) == fed(old(self).line@, buf@),
    {
        let mut i: usize = 0;
        while i < buf.len() && buf[i] != 10 && buf[i] != 13
            invariant
                i <= buf@.len(),
                buf@.len() < usize::MAX,
                line_end(buf@, 0) == line_end(buf@, i as int),
            decreases buf@.len() - i,
        {
            i += 1;
        }
        if i < buf.len() {
            let head = vstd::slice::slice_subrange(buf, 0, i);
            push_bounded(&mut self.line, head);
            assert(buf@.subrange(0, i as int) =~= buf@.take(i as int));
            (i + 1, true)
        } else {
            push_bounded(&mut self.line, buf);
            (i, false)
        }
    }

    /// The line gathered so far; the next one starts empty.
    pub fn take_line(&mut self) -> (r: Vec<u8>)
        ensures
            r@ == old(self).line@,
            final(self).line@.len() == 0,
    {
        let mut out: Vec<u8> = Vec::new();
        out.append(&mut self.line);
        assert(out@ =~= old(self).line@);
        out
    }

    /// The unterminated rest once the stream has ended, if there is any.
    pub fn finish(&mut self) -> (r: Option<Vec<u8>>)
        ensures
            match r {
                Some(rest) => rest@ == old(self).line@ && rest@.len() > 0,
                None => old(self).line@.len() == 0,
            },
            final(self).line@.len() == 0,
    {
        if self.line.len() == 0 {
            None
        } else {
            Some(self.take_line())
        }
    }
}

// ---------------------------------------------------------------------------
// the text of a line
// ---------------------------------------------------------------------------

/// The text that the standard library reads from bytes, with a replacement
/// character for what is no UTF-8.
pub uninterp spec fn lossy_text(bytes: Seq<u8>) -> Seq<char>;

/// Calls `String::from_utf8_lossy`. The text is a function of the bytes, and
/// bytes that are UTF-8 are the UTF-8 form of it; where the replacement
/// characters stand in other bytes is left to the standard library.
#[verifier::external_body]
fn read_lossily(bytes: &[u8]) -> (r: String)
    ensures
        r@ == lossy_text(bytes@),
        vstd::utf8::valid_utf8(bytes@) ==> vstd::utf8::encode_utf8(r@) == bytes@,
{
    String::from_utf8_lossy(bytes).into_owned()
}

/// The length of a text, in bytes.
pub open spec fn byte_len(s: Seq<char>) -> nat {
    vstd::utf8::encode_utf8(s).len()
}

/// The longest beginning of a text that the bound leaves room for.
pub open spec fn fitting(s: Seq<char>) -> Seq<char>
    decreases s.len(),
{
    if s.len() == 0 || byte_len(s) <= MAX_LINE_BYTES {
        s
    } else {
        fitting(s.drop_last())
    }
}

/// The length of a character, in bytes.
fn char_width(c: char) -> (r: usize)
    ensures
        r == vstd::utf8::encode_scalar(c as u32).len(),
        1 <= r <= 4,
{
    let v: u32 = c as u32;
    if v <= 0x7f {
        1
    } else if v <= 0x7ff {
        2
    } else if v <= 0xffff {
        3
    } else {
        4
    }
}

/// One more character adds its own length.
proof fn lemma_byte_len_push(s: Seq<char>, c: char)
    ensures
        byte_len(s.push(c)) == byte_len(s) + vstd::utf8::encode_scalar(c as u32).len(),
    decreases s.len(),
{
    reveal_with_fuel(vstd::utf8::encode_utf8, 2);
    if s.len() == 0 {
        assert(s.push(c).drop_first() =~= Seq::<char>::empty());
    } else {
        lemma_byte_len_push(s.drop_first(), c);
        assert(s.push(c).drop_first() =~= s.drop_first().push(c));
        assert(s.push(c)[0] == s[0]);
    }
}

/// A beginning is no longer than the whole.
proof fn lemma_byte_len_take(s: Seq<char>, i: int)
    requires
        0 <= i <= s.len(),
    ensures
        byte_len(s.take(i)) <= byte_len(s),
    decreases s.len() - i,
{
    if i == s.len() {
        assert(s.take(i) =~= s);
    } else {
        lemma_byte_len_take(s, i + 1);
        assert(s.take(i + 1) =~= s.take(i).push(s[i]));
        lemma_byte_len_push(s.take(i), s[i]);
    }
}

/// A beginning that fits, and whose next character does not, is the longest.
proof fn lemma_fitting(s: Seq<char>, i: int)
    requires
        0 <= i <= s.len(),
        byte_len(s.take(i)) <= MAX_LINE_BYTES,
        i < s.len() ==> byte_len(s.take(i + 1)) > MAX_LINE_BYTES,
    ensures
        fitting(s) == s.take(i),
    decreases s.len(),
{
    if i == s.len() {
        assert(s.take(i) =~= s);
    } else {
        lemma_byte_len_take(s, i + 1);
        let front = s.drop_last();
        assert(front.take(i) =~= s.take(i));
        if i < front.len() {
            assert(front.take(i + 1) =~= s.take(i + 1));
        }
        lemma_fitting(front, i);
    }
}

/// The text of a line: what is no UTF-8 is replaced, and the text is cut to
/// the bound like the bytes, which a replacement can exceed.
pub fn line_text(line: &[u8]) -> (r: String)
    ensures
        r@ == fitting(lossy_text(line@)),
{
    let whole = read_lossily(line);
    let v = text::chars_of(whole.as_str());
    let ghost all = whole@;
    let mut i: usize = 0;
    let mut used: usize = 0;
    assert(all.take(0) =~= Seq::<char>::empty());
    while i < v.len()
        invariant
            v@ == all,
            i <= v@.len(),
            used == byte_len(all.take(i as int)),
            used <= MAX_LINE_BYTES,
            all == lossy_text(line@),
        decreases v@.len() - i,
    {
        let w: usize = char_width(v[i]);
        proof {
            assert(all.take(i + 1) =~= all.take(i as int).push(all[i as int]));
            lemma_byte_len_push(all.take(i as int), all[i as int]);
        }
        if used + w > MAX_LINE_BYTES {
            proof {
                lemma_fitting(all, i as int);
            }
            let r = text::slice_text(&v, 0, i);
            assert(r@ =~= all.take(i as int));
            return r;
        }
        used += w;
        i += 1;
    }
    proof {
        lemma_fitting(all, i as int);
        assert(all.take(i as int) =~= all);
    }
    whole
}

// ---------------------------------------------------------------------------
// the rate limit
// ---------------------------------------------------------------------------

/// What a drain reported.
#[derive(Debug, Clone, Copy, PartialEq, Eq, Structural)]
pub struct DrainStats {
    /// Lines forwarded to the log.
    pub logged: u32,
    /// Lines that the rate limit dropped; they were only counted.
    pub suppressed: u32,
}

/// A window's summary: how many lines were dropped, over what time, and the
/// last of them.
#[derive(Debug, Clone, PartialEq, Eq)]
pub struct Suppressed {
    pub count: u32,
    pub over: Nanos,
    pub last_line: String,
}

/// What to do with a line.
#[derive(Debug, Clone, PartialEq, Eq)]
pub struct LineVerdict {
    /// The summary of the window that this line closed, if it dropped any.
    pub summary: Option<Suppressed>,
    /// Forward this line to the log.
    pub log: bool,
}

/// The rate limit of one drain.
#[derive(Debug, Clone, PartialEq, Eq)]
pub struct DrainLimiter {
    pub window_start: Nanos,
    /// Lines logged in this window.
    pub logged: u32,
    /// Lines logged since the drain started.
    pub total_logged: u32,
    /// Lines dropped in this window.
    pub suppressed: u32,
    /// Lines dropped since the drain started.
    pub total_suppressed: u32,
    pub last_suppressed: String,
}

/// The state of a rate limit.
pub struct LimiterModel {
    pub window_start: int,
    pub logged: int,
    pub total_logged: int,
    pub suppressed: int,
    pub total_suppressed: int,
    pub last_suppressed: Seq<char>,
}

impl View for DrainLimiter {
    type V = LimiterModel;

    open spec fn view(&self) -> LimiterModel {
        LimiterModel {
            window_start: self.window_start as int,
            logged: self.logged as int,
            total_logged: self.total_logged as int,
            suppressed: self.suppressed as int,
            total_suppressed: self.total_suppressed as int,
            last_suppressed: self.last_suppressed@,
        }
    }
}

/// The state of a rate limit whose drain starts at `now`.
pub open spec fn fresh_limit(now: Nanos) -> LimiterModel {
    LimiterModel {
        window_start: now as int,
        logged: 0,
        total_logged: 0,
        suppressed: 0,
        total_suppressed: 0,
        last_suppressed: Seq::empty(),
    }
}

impl LimiterModel {
    /// A window never logs more than its limit, drops nothing before the limit
    /// is reached, and is a part of the whole.
    pub open spec fn within_limit(self) -> bool {
        &&& 0 <= self.logged <= DRAIN_MAX_LINES_PER_WINDOW
        &&& self.logged <= self.total_logged
        &&& 0 <= self.suppressed <= self.total_suppressed
        &&& self.suppressed > 0 ==> self.logged == DRAIN_MAX_LINES_PER_WINDOW
    }

    /// The window has lasted its full time at `now`.
    pub open spec fn window_over(self, now: Nanos) -> bool {
        now - self.window_start >= DRAIN_WINDOW
    }

    /// The window in which a line at `now` falls.
    pub open spec fn windowed(self, now: Nanos) -> LimiterModel {
        if self.window_over(now) {
            LimiterModel {
                window_start: now as int,
                logged: 0,
                suppressed: 0,
                last_suppressed: Seq::empty(),
                ..self
            }
        } else {
            self
        }
    }

    /// The line at `now` is logged.
    pub open spec fn logs(self, now: Nanos) -> bool {
        self.windowed(now).logged < DRAIN_MAX_LINES_PER_WINDOW
    }

    /// The state after the line `raw` at `now`. A blank line does not count;
    /// any other is logged or dropped.
    pub open spec fn after_line(self, raw: Seq<char>, now: Nanos) -> LimiterModel {
        let w = self.windowed(now);
        if is_blank(raw) {
            self
        } else if self.logs(now) {
            LimiterModel { logged: w.logged + 1, total_logged: w.total_logged + 1, ..w }
        } else {
            LimiterModel {
                suppressed: w.suppressed + 1,
                total_suppressed: w.total_suppressed + 1,
                last_suppressed: text::trimmed_end(raw),
                ..w
            }
        }
    }

    /// `s` is the summary of the window at `now`; a window that dropped
    /// nothing has none.
    pub open spec fn is_summary(self, now: Nanos, s: Option<Suppressed>) -> bool {
        match s {
            Some(x) => {
                &&& self.suppressed > 0
                &&& x.count == self.suppressed
                &&& x.over == (if now >= self.window_start {
                    now - self.window_start
                } else {
                    0
                })
                &&& x.last_line@ == self.last_suppressed
            },
            None => self.suppressed == 0,
        }
    }
}

/// A line of nothing but whitespace.
pub open spec fn is_blank(raw: Seq<char>) -> bool {
    text::trimmed_end(raw).len() == 0
}

impl DrainLimiter {
    pub fn new(now: Nanos) -> (r: Self)
        ensures
            r@ == fresh_limit(now),
    {
        let r = DrainLimiter {
            window_start: now,
            logged: 0,
            total_logged: 0,
            suppressed: 0,
            total_suppressed: 0,
            last_suppressed: String::new(),
        };
        assert(r.last_suppressed@ =~= Seq::<char>::empty());
        r
    }

    fn summary(&self, now: Nanos) -> (r: Option<Suppressed>)
        ensures
            self@.is_summary(now, r),
    {
        if self.suppressed > 0 {
            let over: Nanos = if now >= self.window_start {
                now - self.window_start
            } else {
                0
            };
            Some(
                Suppressed {
                    count: self.suppressed,
                    over,
                    last_line: self.last_suppressed.clone(),
                },
            )
        } else {
            None
        }
    }

    /// Decide on the next line. Trailing whitespace does not count, and a line
    /// of nothing else is passed over (`None`). A line after the window's end
    /// closes the window with its summary and opens the next one.
    pub fn on_line(&mut self, raw: &str, now: Nanos) -> (r: Option<LineVerdict>)
        requires
            old(self)@.within_limit(),
            old(self).total_logged + old(self).total_suppressed < u32::MAX,
        ensures
            final(self)@ == old(self)@.after_line(raw@, now),
            final(self)@.within_limit(),
            match r {
                None => is_blank(raw@),
                Some(verdict) => {
                    &&& !is_blank(raw@)
                    &&& verdict.log == old(self)@.logs(now)
                    &&& if old(self)@.window_over(now) {
                        old(self)@.is_summary(now, verdict.summary)
                    } else {
                        verdict.summary is None
                    }
                },
            },
    {
        let line = text::trim_end(raw);
        if line.is_empty() {
            return None;
        }
        let mut summary = None;
        if now >= self.window_start && now - self.window_start >= DRAIN_WINDOW {
            summary = self.summary(now);
            self.window_start = now;
            self.logged = 0;
            self.suppressed = 0;
            self.last_suppressed = String::new();
            assert(self.last_suppressed@ =~= Seq::<char>::empty());
        }
        assert(self@ == old(self)@.windowed(now));
        if self.logged < DRAIN_MAX_LINES_PER_WINDOW {
            self.logged += 1;
            self.total_logged += 1;
            Some(LineVerdict { summary, log: true })
        } else {
            self.suppressed += 1;
            self.total_suppressed += 1;
            self.last_suppressed = line.to_owned();
            Some(LineVerdict { summary, log: false })
        }
    }

    /// What the drain reports once the stream has closed: the totals, and the
    /// summary of the open window, which would otherwise be lost.
    pub fn finish(&self, now: Nanos) -> (r: (DrainStats, Option<Suppressed>))
        ensures
            r.0 == (DrainStats { logged: self.total_logged, suppressed: self.total_suppressed }),
            self@.is_summary(now, r.1),
    {
        let stats = DrainStats { logged: self.total_logged, suppressed: self.total_suppressed };
        (stats, self.summary(now))
    }
}

// ---------------------------------------------------------------------------
// laws
// ---------------------------------------------------------------------------

/// A line never exceeds the bound, however its bytes arrive.
pub proof fn law_lines_stay_bounded(line: Seq<u8>, bytes: Seq<u8>)
    requires
        line.len() <= MAX_LINE_BYTES,
    ensures
        bounded(line, bytes).len() <= MAX_LINE_BYTES,
{
}

/// How a line is cut into reads makes no difference to what is kept of it.
pub proof fn law_chunking_is_immaterial(line: Seq<u8>, a: Seq<u8>, b: Seq<u8>)
    ensures
        bounded(bounded(line, a), b) == bounded(line, a + b),
{
    assert(bounded(bounded(line, a), b) =~= bounded(line, a + b));
}

/// `bytes` with everything past the bound cut off.
pub open spec fn cut(bytes: Seq<u8>) -> Seq<u8> {
    bounded(Seq::empty(), bytes)
}

/// The lines of a whole stream: its pieces at either terminator, empty ones
/// among them, then the rest behind the last terminator where there is any,
/// each cut to the bound.
pub open spec fn stream_lines(stream: Seq<u8>) -> Seq<Seq<u8>>
    decreases stream.len(),
{
    match line_end(stream, 0) {
        Some(e) if 0 <= e < stream.len() => seq![cut(stream.take(e))] + stream_lines(
            stream.skip(e + 1),
        ),
        _ => if stream.len() > 0 {
            seq![cut(stream)]
        } else {
            Seq::empty()
        },
    }
}

/// The bytes of several reads, one behind the other.
pub open spec fn all_bytes(reads: Seq<Seq<u8>>) -> Seq<u8>
    decreases reads.len(),
{
    if reads.len() == 0 {
        Seq::empty()
    } else {
        reads[0] + all_bytes(reads.drop_first())
    }
}

/// The lines that a line buffer hands out when it is fed `reads` until they
/// are used up, and is then finished: `line` is what it holds at first.
pub open spec fn gathered(line: Seq<u8>, reads: Seq<Seq<u8>>) -> Seq<Seq<u8>>
    decreases all_bytes(reads).len(), reads.len(),
{
    if reads.len() == 0 {
        if line.len() > 0 {
            seq![line]
        } else {
            Seq::empty()
        }
    } else {
        let (l, used, complete) = fed(line, reads[0]);
        if complete && 0 < used <= reads[0].len() {
            proof {
                lemma_all_bytes_update(reads, used);
            }
            seq![l] + gathered(Seq::empty(), reads.update(0, reads[0].skip(used)))
        } else {
            gathered(l, reads.drop_first())
        }
    }
}

/// Using up the beginning of the first read uses up that of the stream.
pub proof fn lemma_all_bytes_update(reads: Seq<Seq<u8>>, used: int)
    requires
        reads.len() > 0,
        0 <= used <= reads[0].len(),
    ensures
        all_bytes(reads) == reads[0] + all_bytes(reads.drop_first()),
        all_bytes(reads.update(0, reads[0].skip(used))) == all_bytes(reads).skip(used),
        all_bytes(reads.update(0, reads[0].skip(used))).len() == all_bytes(reads).len() - used,
{
    let rest = reads.update(0, reads[0].skip(used));
    assert(rest.drop_first() =~= reads.drop_first());
    assert(all_bytes(rest) =~= all_bytes(reads).skip(used));
}

/// The first line end is in range, ends a line, and nothing before it does.
proof fn lemma_line_end(buf: Seq<u8>, i: int)
    requires
        0 <= i <= buf.len(),
    ensures
        match line_end(buf, i) {
            Some(e) => i <= e < buf.len() && ends_line(buf[e]) && forall|j: int|
                i <= j < e ==> !ends_line(#[trigger] buf[j]),
            None => forall|j: int| i <= j < buf.len() ==> !ends_line(#[trigger] buf[j]),
        },
    decreases buf.len() - i,
{
    if i < buf.len() && !ends_line(buf[i]) {
        lemma_line_end(buf, i + 1);
    }
}

/// The position that ends a line before which nothing does is the first line
/// end.
proof fn lemma_line_end_is(buf: Seq<u8>, i: int, e: int)
    requires
        0 <= i <= e < buf.len(),
        ends_line(buf[e]),
        forall|j: int| i <= j < e ==> !ends_line(#[trigger] buf[j]),
    ensures
        line_end(buf, i) == Some(e),
    decreases e - i,
{
    if i < e {
        lemma_line_end_is(buf, i + 1, e);
    }
}

proof fn lemma_gathered(before: Seq<u8>, reads: Seq<Seq<u8>>)
    requires
        forall|j: int| 0 <= j < before.len() ==> !ends_line(#[trigger] before[j]),
    ensures
        gathered(cut(before), reads) == stream_lines(before + all_bytes(reads)),
    decreases all_bytes(reads).len(), reads.len(),
{
    let stream = before + all_bytes(reads);
    if reads.len() == 0 {
        assert(stream =~= before);
        lemma_line_end(stream, 0);
    } else {
        let first = reads[0];
        lemma_line_end(first, 0);
        lemma_all_bytes_update(reads, 0);
        match line_end(first, 0) {
            Some(e) => {
                let rest = reads.update(0, first.skip(e + 1));
                let at = before.len() + e;
                lemma_all_bytes_update(reads, e + 1);
                assert forall|j: int| 0 <= j < at implies !ends_line(#[trigger] stream[j]) by {
                    if j < before.len() {
                        assert(stream[j] == before[j]);
                    } else {
                        assert(stream[j] == first[j - before.len()]);
                    }
                }
                assert(stream[at] == first[e]);
                lemma_line_end_is(stream, 0, at);
                assert(stream.take(at) =~= before + first.take(e));
                law_chunking_is_immaterial(Seq::empty(), before, first.take(e));
                assert(stream.skip(at + 1) =~= Seq::<u8>::empty() + all_bytes(rest));
                assert(cut(Seq::empty()) =~= Seq::<u8>::empty());
                lemma_gathered(Seq::empty(), rest);
                assert(gathered(cut(before), reads) == seq![cut(stream.take(at))] + gathered(
                    Seq::empty(),
                    rest,
                ));
            },
            None => {
                law_chunking_is_immaterial(Seq::empty(), before, first);
                let more = before + first;
                assert forall|j: int| 0 <= j < more.len() implies !ends_line(
                    #[trigger] more[j],
                ) by {
                    if j >= before.len() {
                        assert(more[j] == first[j - before.len()]);
                    }
                }
                assert(more + all_bytes(reads.drop_first()) =~= stream);
                lemma_gathered(more, reads.drop_first());
                assert(gathered(cut(before), reads) == gathered(cut(more), reads.drop_first()));
            },
        }
    }
}

/// However a stream is cut into reads, a fresh line buffer hands out the
/// stream's lines, in order.
pub proof fn law_a_stream_is_read_as_its_lines(reads: Seq<Seq<u8>>)
    ensures
        gathered(Seq::empty(), reads) == stream_lines(all_bytes(reads)),
{
    lemma_gathered(Seq::empty(), reads);
    assert(cut(Seq::empty()) =~= Seq::<u8>::empty());
    assert(Seq::<u8>::empty() + all_bytes(reads) =~= all_bytes(reads));
}

/// No line of a stream exceeds the bound.
pub proof fn law_stream_lines_stay_bounded(stream: Seq<u8>)
    ensures
        forall|i: int|
            0 <= i < stream_lines(stream).len() ==> (#[trigger] stream_lines(stream)[i]).len()
                <= MAX_LINE_BYTES,
    decreases stream.len(),
{
    lemma_line_end(stream, 0);
    if let Some(e) = line_end(stream, 0) {
        law_stream_lines_stay_bounded(stream.skip(e + 1));
        let rest = stream_lines(stream.skip(e + 1));
        assert forall|i: int| 0 <= i < stream_lines(stream).len() implies (
        #[trigger] stream_lines(stream)[i]).len() <= MAX_LINE_BYTES by {
            if i > 0 {
                assert(stream_lines(stream)[i] == rest[i - 1]);
            }
        }
    }
}

/// The text of a line is a beginning of what was read, and no longer than the
/// bound.
pub proof fn law_line_texts_stay_bounded(s: Seq<char>)
    ensures
        byte_len(fitting(s)) <= MAX_LINE_BYTES,
        fitting(s).is_prefix_of(s),
    decreases s.len(),
{
    if s.len() > 0 && byte_len(s) > MAX_LINE_BYTES {
        law_line_texts_stay_bounded(s.drop_last());
        let f = fitting(s);
        assert(f =~= s.subrange(0, f.len() as int)) by {
            assert(f =~= s.drop_last().subrange(0, f.len() as int));
        }
    } else {
        assert(s =~= s.subrange(0, s.len() as int));
    }
}

/// The state of a rate limit after lines, each with the time at which it came.
pub open spec fn drained(m: LimiterModel, lines: Seq<(Seq<char>, Nanos)>) -> LimiterModel
    decreases lines.len(),
{
    if lines.len() == 0 {
        m
    } else {
        drained(m, lines.drop_last()).after_line(lines.last().0, lines.last().1)
    }
}

/// How many of the lines are not blank.
pub open spec fn told(lines: Seq<(Seq<char>, Nanos)>) -> int
    decreases lines.len(),
{
    if lines.len() == 0 {
        0
    } else {
        told(lines.drop_last()) + if is_blank(lines.last().0) {
            0int
        } else {
            1
        }
    }
}

/// Every line that is not blank is logged or counted as dropped, over all
/// windows.
pub proof fn law_every_line_is_accounted_for(m: LimiterModel, lines: Seq<(Seq<char>, Nanos)>)
    ensures
        drained(m, lines).total_logged + drained(m, lines).total_suppressed == m.total_logged
            + m.total_suppressed + told(lines),
    decreases lines.len(),
{
    if lines.len() > 0 {
        law_every_line_is_accounted_for(m, lines.drop_last());
    }
}

/// While the first window lasts, the lines up to the limit are logged and the
/// others are dropped.
pub proof fn law_a_window_logs_up_to_its_limit(start: Nanos, lines: Seq<(Seq<char>, Nanos)>)
    requires
        forall|i: int| 0 <= i < lines.len() ==> (#[trigger] lines[i]).1 - start < DRAIN_WINDOW,
    ensures
        drained(fresh_limit(start), lines).window_start == start,
        drained(fresh_limit(start), lines).logged == drained(
            fresh_limit(start),
            lines,
        ).total_logged,
        drained(fresh_limit(start), lines).total_logged == (if told(lines)
            < DRAIN_MAX_LINES_PER_WINDOW {
            told(lines)
        } else {
            DRAIN_MAX_LINES_PER_WINDOW as int
        }),
    decreases lines.len(),
{
    if lines.len() > 0 {
        let front = lines.drop_last();
        assert forall|i: int| 0 <= i < front.len() implies (#[trigger] front[i]).1 - start
            < DRAIN_WINDOW by {
            assert(front[i] == lines[i]);
        }
        law_a_window_logs_up_to_its_limit(start, front);
        assert(lines.last() == lines[lines.len() - 1]);
    }
}

/// A line ends at a line feed or a carriage return and nowhere else, and what
/// is kept of it is its first 4096 bytes.
pub proof fn law_where_a_line_ends(line: Seq<u8>, buf: Seq<u8>, e: int)
    ensures
        0 <= e < buf.len() && (buf[e] == 10 || buf[e] == 13) && (forall|i: int|
            0 <= i < e ==> #[trigger] buf[i] != 10 && buf[i] != 13) ==> fed(line, buf).1 == e + 1
            && fed(line, buf).2 && fed(line, buf).0 == bounded(line, buf.take(e)),
        (forall|i: int| 0 <= i < buf.len() ==> #[trigger] buf[i] != 10 && buf[i] != 13) ==> fed(
            line,
            buf,
        ).1 == buf.len() && !fed(line, buf).2 && fed(line, buf).0 == bounded(line, buf),
        line.len() + buf.len() <= 4096 ==> bounded(line, buf) == line + buf,
        line.len() <= 4096 && line.len() + buf.len() > 4096 ==> bounded(line, buf) == (line
            + buf).take(4096),
{
    if 0 <= e < buf.len() && (buf[e] == 10 || buf[e] == 13) && (forall|i: int|
        0 <= i < e ==> #[trigger] buf[i] != 10 && buf[i] != 13) {
        lemma_line_end_is(buf, 0, e);
    }
    if forall|i: int| 0 <= i < buf.len() ==> #[trigger] buf[i] != 10 && buf[i] != 13 {
        lemma_no_line_end(buf, 0);
    }
    if line.len() <= 4096 && line.len() + buf.len() > 4096 {
        assert(bounded(line, buf) =~= (line + buf).take(4096));
    }
}

proof fn lemma_no_line_end(buf: Seq<u8>, i: int)
    requires
        0 <= i,
        forall|k: int| i <= k < buf.len() ==> !ends_line(#[trigger] buf[k]),
    ensures
        line_end(buf, i) is None,
    decreases buf.len() - i,
{
    if i < buf.len() {
        assert(!ends_line(buf[i]));
        lemma_no_line_end(buf, i + 1);
    }
}

/// Five lines are logged in every ten seconds and the others counted; a line
/// that comes ten seconds after the window began opens a new one.
pub proof fn law_five_lines_in_ten_seconds(m: LimiterModel, raw: Seq<char>, now: Nanos)
    requires
        !is_blank(raw),
        m.within_limit(),
    ensures
        now - m.window_start >= 10_000_000_000 ==> m.after_line(raw, now).window_start == now
            && m.after_line(raw, now).logged == 1 && m.after_line(raw, now).suppressed == 0,
        now - m.window_start < 10_000_000_000 ==> m.after_line(raw, now).window_start
            == m.window_start,
        now - m.window_start < 10_000_000_000 && m.logged < 5 ==> m.after_line(raw, now).logged
            == m.logged + 1 && m.after_line(raw, now).suppressed == m.suppressed && m.after_line(
            raw,
            now,
        ).total_logged == m.total_logged + 1,
        now - m.window_start < 10_000_000_000 && m.logged == 5 ==> m.after_line(raw, now).logged
            == 5 && m.after_line(raw, now).suppressed == m.suppressed + 1 && m.after_line(
            raw,
            now,
        ).total_suppressed == m.total_suppressed + 1 && m.after_line(raw, now).last_suppressed
            == text::trimmed_end(raw),
        m.after_line(raw, now).within_limit(),
        m.logs(now) <==> m.after_line(raw, now).total_logged == m.total_logged + 1,
{
}

/// A blank line changes nothing, and a line is blank exactly where it holds
/// nothing but whitespace.
pub proof fn law_blank_lines_do_not_count(m: LimiterModel, raw: Seq<char>, now: Nanos)
    ensures
        is_blank(raw) ==> m.after_line(raw, now) == m,
        is_blank(raw) <==> text::all_space(raw),
{
    text::law_trimming_takes_whitespace_off(raw);
    let b = choose|b: Seq<char>|
        raw == #[trigger] (text::trimmed_end(raw) + b) && text::all_space(b);
    if is_blank(raw) {
        assert(text::trimmed_end(raw) + b =~= b);
    }
    if text::all_space(raw) && !is_blank(raw) {
        let t = text::trimmed_end(raw);
        assert(raw[t.len() - 1] == t.last());
        assert(text::is_space(raw[t.len() - 1]));
    }
}

/// A window is summed up exactly where it dropped lines: how many, over which
/// time, and the last of them.
pub proof fn law_what_a_summary_says(m: LimiterModel, now: Nanos, s: Option<Suppressed>)
    requires
        m.is_summary(now, s),
        m.suppressed >= 0,
    ensures
        s is Some <==> m.suppressed > 0,
        s matches Some(x) ==> x.count == m.suppressed && x.last_line@ == m.last_suppressed && (now
            >= m.window_start ==> m.window_start + x.over == now),
{
}

/// A rate limit is modelled by what its fields hold, and starts with nothing
/// counted.
pub proof fn law_a_limit_is_what_it_holds(l: DrainLimiter, now: Nanos)
    ensures
        l@.window_start == l.window_start && l@.logged == l.logged && l@.total_logged
            == l.total_logged && l@.suppressed == l.suppressed && l@.total_suppressed
            == l.total_suppressed && l@.last_suppressed == l.last_suppressed@,
        fresh_limit(now).window_start == now,
        fresh_limit(now).logged == 0 && fresh_limit(now).suppressed == 0,
        fresh_limit(now).total_logged == 0 && fresh_limit(now).total_suppressed == 0,
        fresh_limit(now).within_limit(),
{
}

/// The bounds of a drain.
pub proof fn law_the_bounds_of_a_drain()
    ensures
        MAX_LINE_BYTES == 4096,
        DRAIN_MAX_LINES_PER_WINDOW == 5,
        DRAIN_WINDOW == 10_000_000_000,
{
}

/// A text that fits is kept whole, and one that does not is cut as late as it
/// can be.
pub proof fn law_texts_are_cut_as_late_as_they_can_be(s: Seq<char>)
    ensures
        byte_len(s) <= 4096 ==> fitting(s) == s,
        fitting(s).len() < s.len() ==> byte_len(s.take(fitting(s).len() as int + 1)) > 4096,
        fitting(s).len() <= s.len(),
    decreases s.len(),
{
    if s.len() > 0 && byte_len(s) > 4096 {
        let front = s.drop_last();
        law_texts_are_cut_as_late_as_they_can_be(front);
        if fitting(front).len() < front.len() {
            assert(front.take(fitting(front).len() as int + 1) =~= s.take(
                fitting(front).len() as int + 1,
            ));
        } else {
            assert(s.take(front.len() as int + 1) =~= s);
        }
    }
}

/// A stream is its first line and the lines of what follows the line end; what
/// is left without one is a line of its own unless it is empty.
pub proof fn law_a_stream_line_by_line(a: Seq<u8>, e: u8, b: Seq<u8>)
    requires
        forall|i: int| 0 <= i < a.len() ==> #[trigger] a[i] != 10 && a[i] != 13,
    ensures
        e == 10 || e == 13 ==> stream_lines(a + seq![e] + b) == seq![cut(a)] + stream_lines(b),
        a.len() > 0 ==> stream_lines(a) == seq![cut(a)],
        stream_lines(Seq::empty()) == Seq::<Seq<u8>>::empty(),
        a.len() <= 4096 ==> cut(a) == a,
        a.len() > 4096 ==> cut(a) == a.take(4096),
{
    let all = a + seq![e] + b;
    let n = a.len() as int;
    if e == 10 || e == 13 {
        assert forall|k: int| 0 <= k < n implies !ends_line(#[trigger] all[k]) by {
            assert(all[k] == a[k]);
        }
        assert(all[n] == e);
        lemma_line_end_is(all, 0, n);
        assert(all.take(n) =~= a);
        assert(all.skip(n + 1) =~= b);
    }
    lemma_no_line_end(a, 0);
    let none = Seq::<u8>::empty();
    lemma_no_line_end(none, 0);
    assert(none + a =~= a);
    if a.len() > 4096 {
        assert(none + a.take(4096) =~= a.take(4096));
    }
}

} // verus!
