//! Ground-station recordings: the course of a start and a stop, the recording
//! command, and file names.
use crate::health::Nanos;
use crate::json;
use crate::json::{Json, Leaf};
use crate::text;
use crate::text::add_arg;
use crate::wire;
use vstd::prelude::*;

verus! {

/// Where recordings are written.
pub const RECORDINGS_DIR: &'static str = "/var/ados/recordings";

/// The local stream that is recorded.
pub const DEFAULT_RTSP_URL: &'static str = "rtsp://127.0.0.1:8554/main";

/// Free space below which a start is refused.
pub const MIN_FREE_BYTES: u64 = 64 * 1024 * 1024;

/// A recoverable recorder failure: a stable code and an explanation.
#[derive(Debug, Clone, PartialEq, Eq)]
pub struct RecorderError {
    pub code: String,
    pub message: String,
}

impl RecorderError {
    /// The error with the given code and words.
    pub open spec fn says(self, code: Seq<char>, message: Seq<char>) -> bool {
        self.code@ == code && self.message@ == message
    }

    pub fn new(code: &str, message: &str) -> (r: Self)
        ensures
            r.says(code@, message@),
    {
        RecorderError { code: code.to_owned(), message: message.to_owned() }
    }

    /// `code: message`.
    pub fn line(&self) -> (r: String)
        ensures
            r@ == self.code@ + ": "@ + self.message@,
    {
        let mut out = self.code.clone();
        out.append(": ");
        out.append(self.message.as_str());
        out
    }
}

/// A recording that was spawned.
#[derive(Debug, Clone, PartialEq, Eq)]
pub struct Capture {
    pub filename: String,
    pub path: String,
    pub started_at: Nanos,
}

/// What a start has found out so far, in the order in which it looks.
#[derive(Debug, PartialEq, Eq)]
pub enum StartCheck {
    /// Whether a recording is already running.
    Active(bool),
    /// Whether the recording program is installed.
    Installed(bool),
    /// The error of creating the directory, if any.
    Directory(Option<String>),
    /// The free space, when it could be read.
    Space(Option<u64>),
    /// The recording that was spawned, or the error of spawning it.
    Spawned(Result<Capture, String>),
}

/// Why a start is refused at a check.
pub open spec fn refusal(check: StartCheck) -> Option<(Seq<char>, Seq<char>)> {
    match check {
        StartCheck::Active(true) => Some(
            ("E_RECORDING_ACTIVE"@, "a recording is already in progress"@),
        ),
        StartCheck::Installed(false) => Some(
            ("E_FFMPEG_NOT_FOUND"@, "ffmpeg binary not on PATH"@),
        ),
        StartCheck::Directory(Some(e)) => Some(
            ("E_RECORDING_DIR_UNWRITABLE"@, "cannot create recordings directory: "@ + e@),
        ),
        StartCheck::Space(Some(free)) if free < MIN_FREE_BYTES => Some(
            ("E_DISK_FULL"@, "less than 64 MiB free on the recordings volume"@),
        ),
        StartCheck::Spawned(Err(e)) => Some(
            ("E_RECORDER_SPAWN_FAILED"@, "failed to spawn ffmpeg: "@ + e@),
        ),
        _ => None,
    }
}

fn spawn_failed(error: &str) -> (r: RecorderError)
    ensures
        r.says("E_RECORDER_SPAWN_FAILED"@, "failed to spawn ffmpeg: "@ + error@),
{
    let message = text::cat("failed to spawn ffmpeg: ", error);
    RecorderError::new("E_RECORDER_SPAWN_FAILED", message.as_str())
}

/// Let a start pass a check, or say why not. An unknown amount of free space
/// does not block.
pub fn check_start(check: &StartCheck) -> (r: Result<(), RecorderError>)
    ensures
        match r {
            Ok(_) => refusal(*check) is None,
            Err(e) => refusal(*check) is Some && e.says(
                (refusal(*check)->0).0,
                (refusal(*check)->0).1,
            ),
        },
{
    match check {
        StartCheck::Active(active) => if *active {
            Err(RecorderError::new("E_RECORDING_ACTIVE", "a recording is already in progress"))
        } else {
            Ok(())
        },
        StartCheck::Installed(installed) => if *installed {
            Ok(())
        } else {
            Err(RecorderError::new("E_FFMPEG_NOT_FOUND", "ffmpeg binary not on PATH"))
        },
        StartCheck::Directory(error) => match error {
            Some(e) => {
                let message = text::cat("cannot create recordings directory: ", e.as_str());
                Err(RecorderError::new("E_RECORDING_DIR_UNWRITABLE", message.as_str()))
            },
            None => Ok(()),
        },
        StartCheck::Space(free) => match free {
            Some(n) => if *n < MIN_FREE_BYTES {
                Err(
                    RecorderError::new(
                        "E_DISK_FULL",
                        "less than 64 MiB free on the recordings volume",
                    ),
                )
            } else {
                Ok(())
            },
            None => Ok(()),
        },
        StartCheck::Spawned(spawned) => match spawned {
            Err(e) => Err(spawn_failed(e.as_str())),
            Ok(_) => Ok(()),
        },
    }
}

/// Let a stop pass, or say that nothing is being recorded.
pub fn check_stop(running: bool) -> (r: Result<(), RecorderError>)
    ensures
        match r {
            Ok(_) => running,
            Err(e) => !running && e.says(
                "E_RECORDING_NOT_ACTIVE"@,
                "no recording is currently active"@,
            ),
        },
        r is Ok <==> running,
{
    if running {
        Ok(())
    } else {
        Err(RecorderError::new("E_RECORDING_NOT_ACTIVE", "no recording is currently active"))
    }
}

/// The HTTP status that an error code maps to.
pub open spec fn status_for(code: Seq<char>) -> u16 {
    if code == "E_RECORDING_ACTIVE"@ || code == "E_RECORDING_NOT_ACTIVE"@ {
        409
    } else if code == "E_DISK_FULL"@ {
        507
    } else {
        503
    }
}

/// The HTTP status that an error code maps to.
pub fn http_status(code: &str) -> (r: u16)
    ensures
        r == status_for(code@),
{
    if text::same(code, "E_RECORDING_ACTIVE") || text::same(code, "E_RECORDING_NOT_ACTIVE") {
        409
    } else if text::same(code, "E_DISK_FULL") {
        507
    } else {
        503
    }
}

/// The arguments of the recording program: the local stream over TCP, copied
/// without transcoding into a file.
pub fn recording_args(rtsp_url: &str, output_path: &str) -> (r: Vec<String>)
    ensures
        text::views(r@) == seq![
            "-y"@,
            "-rtsp_transport"@,
            "tcp"@,
            "-i"@,
            rtsp_url@,
            "-c"@,
            "copy"@,
            "-movflags"@,
            "+faststart"@,
            output_path@,
        ],
{
    let mut out: Vec<String> = Vec::new();
    assert(text::views(out@) =~= Seq::<Seq<char>>::empty());
    add_arg(&mut out, "-y");
    add_arg(&mut out, "-rtsp_transport");
    add_arg(&mut out, "tcp");
    add_arg(&mut out, "-i");
    add_arg(&mut out, rtsp_url);
    add_arg(&mut out, "-c");
    add_arg(&mut out, "copy");
    add_arg(&mut out, "-movflags");
    add_arg(&mut out, "+faststart");
    add_arg(&mut out, output_path);
    out
}

// ---------------------------------------------------------------------------
// file names
// ---------------------------------------------------------------------------

/// A character that a hint may keep.
pub open spec fn hint_char(c: char) -> bool {
    text::is_alnum(c) || c == '-' || c == '_'
}

/// The longest hint that is kept, in characters.
pub const MAX_HINT: usize = 48;

/// The kept characters of a hint, in order.
pub open spec fn kept(hint: Seq<char>) -> Seq<char>
    decreases hint.len(),
{
    if hint.len() == 0 {
        Seq::empty()
    } else if hint_char(hint.last()) {
        kept(hint.drop_last()).push(hint.last())
    } else {
        kept(hint.drop_last())
    }
}

/// The part of a hint that goes into a file name: its kept characters, no more
/// than the limit.
pub open spec fn safe_hint(hint: Seq<char>) -> Seq<char> {
    let k = kept(hint);
    if k.len() <= MAX_HINT {
        k
    } else {
        k.take(MAX_HINT as int)
    }
}

/// The file name of a recording that starts at `stamp`.
pub open spec fn recording_name(stamp: Seq<char>, hint: Option<Seq<char>>) -> Seq<char> {
    match hint {
        Some(h) if safe_hint(h).len() > 0 => stamp + "_"@ + safe_hint(h) + ".mp4"@,
        _ => stamp + ".mp4"@,
    }
}

/// A character that the file name of a recording may hold.
pub open spec fn file_char(c: char) -> bool {
    hint_char(c) || c == '+' || c == '.'
}

/// The model of an optional string slice.
pub open spec fn hint_view(hint: Option<&str>) -> Option<Seq<char>> {
    match hint {
        Some(h) => Some(h@),
        None => None,
    }
}

fn sanitise(hint: &str) -> (r: String)
    ensures
        r@ == safe_hint(hint@),
{
    let v = text::chars_of(hint);
    let mut out: Vec<char> = Vec::new();
    let mut i: usize = 0;
    assert(out@ =~= kept(hint@.take(0)));
    while i < v.len()
        invariant
            v@ == hint@,
            i <= v@.len(),
            out@ == kept(hint@.take(i as int)),
        decreases v@.len() - i,
    {
        let c: char = v[i];
        if text::alnum_class(c) || c == '-' || c == '_' {
            out.push(c);
        }
        i += 1;
        assert(hint@.take(i as int).drop_last() == hint@.take(i - 1));
    }
    assert(hint@.take(v@.len() as int) == hint@);
    let n: usize = if out.len() <= MAX_HINT {
        out.len()
    } else {
        MAX_HINT
    };
    let r = text::slice_text(&out, 0, n);
    assert(r@ =~= safe_hint(hint@));
    r
}

/// The file name of a recording that starts at `stamp`, with the sanitised
/// hint behind it. A hint of which nothing is left is dropped.
pub fn filename_at(stamp: &str, hint: Option<&str>) -> (r: String)
    ensures
        r@ == recording_name(stamp@, hint_view(hint)),
{
    let mut out = stamp.to_owned();
    match hint {
        Some(h) => {
            let safe = sanitise(h);
            if !safe.as_str().is_empty() {
                out.append("_");
                out.append(safe.as_str());
            }
        },
        None => {},
    }
    out.append(".mp4");
    out
}

/// The layout of the time stamp in a file name.
pub const STAMP_LAYOUT: &'static str = "[year]-[month]-[day]T[hour]-[minute]-[second]";

/// Digits and nothing else.
pub open spec fn all_digits(s: Seq<char>) -> bool {
    forall|i: int| 0 <= i < s.len() ==> text::is_digit(#[trigger] s[i])
}

/// The digits of a year, behind the sign where it has one.
pub open spec fn year_digits(s: Seq<char>) -> Seq<char> {
    if s.len() > 0 && (s[0] == '-' || s[0] == '+') {
        s.drop_first()
    } else {
        s
    }
}

/// A year: four digits or more, with a sign in front where it takes one.
pub open spec fn is_year(s: Seq<char>) -> bool {
    year_digits(s).len() >= 4 && all_digits(year_digits(s))
}

/// The length of what stands behind the year in a time stamp.
pub const STAMP_TAIL: usize = 15;

/// What stands behind the year in a time stamp: `-MM-DDTHH-MM-SS`.
pub open spec fn is_stamp_tail(s: Seq<char>) -> bool {
    &&& s.len() == STAMP_TAIL
    &&& s[0] == '-' && s[3] == '-' && s[6] == 'T' && s[9] == '-' && s[12] == '-'
    &&& forall|i: int|
        0 <= i < STAMP_TAIL && i != 0 && i != 3 && i != 6 && i != 9 && i != 12 ==> text::is_digit(
            #[trigger] s[i],
        )
}

/// A time stamp as it stands in a file name: the year, month and day, `T`, and
/// the hour, minute and second.
pub open spec fn is_file_stamp(s: Seq<char>) -> bool {
    let y = s.len() - STAMP_TAIL;
    y >= 0 && is_year(s.take(y)) && is_stamp_tail(s.skip(y))
}

/// A UTC time in RFC 3339 form: the date, `T`, the time of day to the second,
/// a fraction where there is one, and `Z`.
pub open spec fn is_utc_time(s: Seq<char>) -> bool {
    &&& s.len() >= 20
    &&& s[4] == '-' && s[7] == '-' && s[10] == 'T' && s[13] == ':' && s[16] == ':'
    &&& s.last() == 'Z'
    &&& s.len() > 20 ==> s[19] == '.'
    &&& forall|i: int|
        0 <= i < s.len() - 1 && i != 4 && i != 7 && i != 10 && i != 13 && i != 16 && i != 19
            ==> text::is_digit(#[trigger] s[i])
}

/// The current UTC time, laid out by the format description `layout`:
/// `time::OffsetDateTime::now_utc` and `format`; `None` when the description is
/// malformed or the time cannot be written in it. The time is the machine's:
/// all that is claimed is the form that the layout of a file name gives it.
#[verifier::external_body]
fn utc_now_laid_out(layout: &str) -> (r: Option<String>)
    ensures
        layout@ == STAMP_LAYOUT@ ==> (r matches Some(s) ==> is_file_stamp(s@)),
{
    let items = time::format_description::parse_borrowed::<2>(layout).ok()?;
    time::OffsetDateTime::now_utc().format(&items).ok()
}

/// The current UTC time in RFC 3339 form: `time::OffsetDateTime::now_utc` and
/// `format` with `Rfc3339`. The time is the machine's: all that is claimed is
/// the form, in which UTC is a trailing `Z`.
#[verifier::external_body]
fn utc_now_rfc3339() -> (r: Option<String>)
    ensures
        r matches Some(s) ==> is_utc_time(s@),
{
    time::OffsetDateTime::now_utc().format(&time::format_description::well_known::Rfc3339).ok()
}

/// A time stamp as it is used: the given one, or the fallback.
pub fn stamp_or(stamp: Option<String>, fallback: &str) -> (r: String)
    ensures
        r@ == (match stamp {
            Some(s) => s@,
            None => fallback@,
        }),
{
    match stamp {
        Some(s) => s,
        None => fallback.to_owned(),
    }
}

/// A file name for a recording that starts now.
pub fn generate_filename(hint: Option<&str>) -> (r: String)
    ensures
        exists|stamp: Seq<char>|
            is_file_stamp(stamp) && r@ == #[trigger] recording_name(stamp, hint_view(hint)),
{
    proof {
        reveal_strlit("0000-00-00T00-00-00");
    }
    let stamp = stamp_or(utc_now_laid_out(STAMP_LAYOUT), "0000-00-00T00-00-00");
    proof {
        let zero = "0000-00-00T00-00-00"@;
        assert(zero.take(4).len() == 4 && zero.skip(4).len() == STAMP_TAIL);
        assert(is_year(zero.take(4)));
        assert(is_stamp_tail(zero.skip(4)));
        assert(is_file_stamp(zero));
    }
    filename_at(stamp.as_str(), hint)
}

/// An RFC 3339 time with its UTC suffix spelled as an offset.
pub open spec fn offset_form(s: Seq<char>) -> Seq<char> {
    if s.len() > 0 && s.last() == 'Z' {
        s.drop_last() + "+00:00"@
    } else {
        s
    }
}

/// An RFC 3339 time with a trailing `Z` spelled `+00:00`.
pub fn with_utc_offset(s: &str) -> (r: String)
    ensures
        r@ == offset_form(s@),
{
    proof {
        reveal_strlit("Z");
    }
    match text::strip_suffix(s, "Z") {
        Some(stem) => {
            assert(s@.last() == "Z"@[0]) by {
                assert("Z"@ =~= s@.subrange(s@.len() - 1, s@.len() as int));
                assert(s@.subrange(s@.len() - 1, s@.len() as int)[0] == s@.last());
            }
            assert(stem@ =~= s@.drop_last());
            text::cat(stem.as_str(), "+00:00")
        },
        None => {
            proof {
                if s@.len() > 0 && s@.last() == 'Z' {
                    assert("Z"@ =~= s@.subrange(s@.len() - 1, s@.len() as int));
                }
            }
            s.to_owned()
        },
    }
}

/// The current UTC time with an explicit `+00:00` offset.
pub fn now_iso8601() -> (r: String)
    ensures
        exists|s: Seq<char>| is_utc_time(s) && r@ == #[trigger] offset_form(s),
{
    match utc_now_rfc3339() {
        Some(s) => with_utc_offset(s.as_str()),
        None => {
            proof {
                reveal_strlit("1970-01-01T00:00:00+00:00");
                reveal_strlit("1970-01-01T00:00:00Z");
                reveal_strlit("+00:00");
                assert(is_utc_time("1970-01-01T00:00:00Z"@));
                assert(offset_form("1970-01-01T00:00:00Z"@) =~= "1970-01-01T00:00:00+00:00"@);
            }
            "1970-01-01T00:00:00+00:00".to_owned()
        },
    }
}

// ---------------------------------------------------------------------------
// the course of a recording
// ---------------------------------------------------------------------------

/// What a start does next.
#[derive(Debug, PartialEq, Eq)]
pub enum StartStep {
    /// Look for the recording program.
    FindProgram,
    /// Create the directory.
    MakeDirectory,
    /// Read the free space.
    MeasureSpace,
    /// Spawn the recording into a file of this name.
    Spawn(String),
    /// The recording runs: answer with this.
    Started(Json),
}

/// The recorder of a ground station, without its process.
#[derive(Debug, Clone, PartialEq, Eq)]
pub struct GroundStationRecorder {
    /// The latest recording, until it is stopped.
    pub current: Option<Capture>,
}

/// What a passed check of a start leads to.
pub open spec fn follows(check: StartCheck, hint: Option<Seq<char>>, step: StartStep) -> bool {
    match check {
        StartCheck::Active(_) => step is FindProgram,
        StartCheck::Installed(_) => step is MakeDirectory,
        StartCheck::Directory(_) => step is MeasureSpace,
        StartCheck::Space(_) => step matches StartStep::Spawn(name) && exists|stamp: Seq<char>|
            is_file_stamp(stamp) && name@ == #[trigger] recording_name(stamp, hint),
        StartCheck::Spawned(spawned) => step matches StartStep::Started(reply)
            && exists|s: Seq<char>|
            is_utc_time(s) && #[trigger] is_start_reply(spawned->Ok_0, offset_form(s), reply),
    }
}

/// `reply` answers that the recording `c` started at the time `at`.
pub open spec fn is_start_reply(c: Capture, at: Seq<char>, reply: Json) -> bool {
    json::is_object(
        reply,
        seq![
            ("filename"@, Leaf::Text(c.filename@)),
            ("started_at"@, Leaf::Text(at)),
            ("path"@, Leaf::Text(c.path@)),
        ],
    )
}

impl GroundStationRecorder {
    /// A recorder that has not recorded yet.
    pub fn new() -> (r: Self)
        ensures
            r.current is None,
    {
        GroundStationRecorder { current: None }
    }

    /// The file name of the latest recording, until it is stopped.
    pub fn current_filename(&self) -> (r: Option<String>)
        ensures
            text::opt_view(r) == (match self.current {
                Some(c) => Some(c.filename@),
                None => None,
            }),
    {
        match &self.current {
            Some(c) => Some(c.filename.clone()),
            None => None,
        }
    }

    /// One step of a start. The order is: no other recording, the program, the
    /// directory, the space, the process. The first check that fails refuses
    /// the start, and a refused start changes nothing.
    pub fn start(&mut self, check: StartCheck, hint: Option<&str>) -> (r: Result<
        StartStep,
        RecorderError,
    >)
        ensures
            match r {
                Ok(step) => refusal(check) is None && follows(check, hint_view(hint), step),
                Err(e) => refusal(check) is Some && e.says(
                    (refusal(check)->0).0,
                    (refusal(check)->0).1,
                ),
            },
            final(self).current == (match check {
                StartCheck::Spawned(Ok(c)) => Some(c),
                _ => old(self).current,
            }),
    {
        match check_start(&check) {
            Ok(_) => {},
            Err(e) => {
                return Err(e);
            },
        }
        match check {
            StartCheck::Active(_) => Ok(StartStep::FindProgram),
            StartCheck::Installed(_) => Ok(StartStep::MakeDirectory),
            StartCheck::Directory(_) => Ok(StartStep::MeasureSpace),
            StartCheck::Space(_) => Ok(StartStep::Spawn(generate_filename(hint))),
            StartCheck::Spawned(spawned) => match spawned {
                Ok(c) => {
                    let at = now_iso8601();
                    let reply = wire::started_json(
                        c.filename.as_str(),
                        at.as_str(),
                        c.path.as_str(),
                    );
                    proof {
                        let s = choose|s: Seq<char>|
                            is_utc_time(s) && at@ == #[trigger] offset_form(s);
                        assert(is_start_reply(c, offset_form(s), reply));
                    }
                    self.current = Some(c);
                    Ok(StartStep::Started(reply))
                },
                Err(e) => Err(spawn_failed(e.as_str())),
            },
        }
    }

    /// The recording was stopped at `now`: its file name and how long it ran.
    /// The recorder is idle then.
    pub fn stop(&mut self, now: Nanos) -> (r: (String, Nanos))
        ensures
            r.0@ == (match old(self).current {
                Some(c) => c.filename@,
                None => "unknown.mp4"@,
            }),
            r.1 == (match old(self).current {
                Some(c) if now > c.started_at => now - c.started_at,
                _ => 0,
            }),
            final(self).current is None,
            old(self).current matches Some(c) ==> r.0@ == c.filename@ && (now >= c.started_at
                ==> c.started_at + r.1 == now) && (now < c.started_at ==> r.1 == 0),
            old(self).current is None ==> r.1 == 0,
    {
        match self.current.take() {
            Some(c) => {
                let ran: Nanos = if now > c.started_at {
                    now - c.started_at
                } else {
                    0
                };
                (c.filename, ran)
            },
            None => ("unknown.mp4".to_owned(), 0),
        }
    }
}

// ---------------------------------------------------------------------------
// laws
// ---------------------------------------------------------------------------

/// What a hint adds to a file name holds only letters, digits, `-` and `_`,
/// and no more than the limit.
pub proof fn law_hints_are_safe(hint: Seq<char>)
    ensures
        safe_hint(hint).len() <= MAX_HINT,
        forall|i: int| 0 <= i < safe_hint(hint).len() ==> hint_char(#[trigger] safe_hint(hint)[i]),
{
    lemma_kept_is_safe(hint);
}

proof fn lemma_kept_is_safe(hint: Seq<char>)
    ensures
        forall|i: int| 0 <= i < kept(hint).len() ==> hint_char(#[trigger] kept(hint)[i]),
    decreases hint.len(),
{
    if hint.len() > 0 {
        let before = kept(hint.drop_last());
        lemma_kept_is_safe(hint.drop_last());
        assert forall|i: int| 0 <= i < kept(hint).len() implies hint_char(
            #[trigger] kept(hint)[i],
        ) by {
            if i < before.len() {
                assert(hint_char(before[i]));
            }
        }
    }
}

/// A time stamp holds digits, its separators and the sign of the year.
proof fn lemma_stamp_chars(stamp: Seq<char>, i: int)
    requires
        is_file_stamp(stamp),
        0 <= i < stamp.len(),
    ensures
        text::is_digit(stamp[i]) || stamp[i] == '-' || stamp[i] == '+' || stamp[i] == 'T',
{
    let y = stamp.len() - STAMP_TAIL;
    let year = stamp.take(y);
    let tail = stamp.skip(y);
    if i < y {
        assert(stamp[i] == year[i]);
        let digits = year_digits(year);
        if digits.len() == year.len() {
            assert(text::is_digit(digits[i]));
        } else if i > 0 {
            assert(text::is_digit(digits[i - 1]));
        }
    } else {
        assert(stamp[i] == tail[i - y]);
    }
}

/// A file name holds letters, digits and `-`, `_`, `+` and `.` alone, whatever
/// the hint: nothing in it separates directories.
pub proof fn law_file_names_are_plain(stamp: Seq<char>, hint: Option<Seq<char>>)
    requires
        is_file_stamp(stamp),
    ensures
        forall|i: int|
            0 <= i < recording_name(stamp, hint).len() ==> file_char(
                #[trigger] recording_name(stamp, hint)[i],
            ),
{
    reveal_strlit("_");
    reveal_strlit(".mp4");
    let name = recording_name(stamp, hint);
    let safe = match hint {
        Some(h) => safe_hint(h),
        None => Seq::empty(),
    };
    if let Some(h) = hint {
        law_hints_are_safe(h);
    }
    let body = if safe.len() > 0 {
        stamp + "_"@ + safe
    } else {
        stamp
    };
    assert(name == body + ".mp4"@);
    assert forall|i: int| 0 <= i < name.len() implies file_char(#[trigger] name[i]) by {
        if i < stamp.len() {
            assert(name[i] == stamp[i]);
            lemma_stamp_chars(stamp, i);
        } else if i < body.len() {
            if i == stamp.len() {
                assert(name[i] == "_"@[0]);
            } else {
                assert(name[i] == safe[i - stamp.len() - 1]);
            }
        } else {
            assert(name[i] == ".mp4"@[i - body.len()]);
        }
    }
}

/// A UTC time in offset form ends in `+00:00`.
pub proof fn law_utc_times_end_in_their_offset(s: Seq<char>)
    requires
        is_utc_time(s),
    ensures
        offset_form(s).len() == s.len() + 5,
        offset_form(s).skip(s.len() - 1) == "+00:00"@,
{
    reveal_strlit("+00:00");
    assert(offset_form(s).skip(s.len() - 1) =~= "+00:00"@);
}

/// A time in offset form never ends in `Z`.
pub proof fn law_offset_form_never_ends_in_z(s: Seq<char>)
    ensures
        offset_form(s).len() > 0 ==> offset_form(s).last() != 'Z',
{
    reveal_strlit("+00:00");
    if s.len() > 0 && s.last() == 'Z' {
        assert(offset_form(s).last() == "+00:00"@[5]);
    }
}

/// What a hint may hold: letters of either case, digits, `-` and `_`.
pub open spec fn allowed() -> spec_fn(char) -> bool {
    |c: char|
        'a' <= c <= 'z' || 'A' <= c <= 'Z' || '0' <= c <= '9' || c == '-' || c == '_'
}

/// What is kept of a hint is the hint without the characters that a file name
/// may not have, cut to its first forty-eight: nothing else is left out,
/// nothing is changed and nothing is moved.
pub proof fn law_hints_are_filtered(hint: Seq<char>)
    ensures
        kept(hint) == hint.filter(allowed()),
        safe_hint(hint).is_prefix_of(hint.filter(allowed())),
        safe_hint(hint).len() == (if hint.filter(allowed()).len() < 48 {
            hint.filter(allowed()).len()
        } else {
            48
        }),
    decreases hint.len(),
{
    reveal(Seq::filter);
    if hint.len() > 0 {
        law_hints_are_filtered(hint.drop_last());
        assert(allowed()(hint.last()) == hint_char(hint.last()));
    }
    assert(kept(hint) =~= hint.filter(allowed()));
    let k = kept(hint);
    assert(safe_hint(hint) =~= k.subrange(0, safe_hint(hint).len() as int));
}

/// Hints are filtered character by character: a hint in two parts keeps what
/// the parts keep.
pub proof fn law_hints_are_kept_in_parts(a: Seq<char>, b: Seq<char>)
    ensures
        kept(a + b) == kept(a) + kept(b),
    decreases b.len(),
{
    if b.len() == 0 {
        assert(a + b =~= a);
        assert(kept(a) + kept(b) =~= kept(a));
    } else {
        law_hints_are_kept_in_parts(a, b.drop_last());
        assert((a + b).drop_last() =~= a + b.drop_last());
        assert((a + b).last() == b.last());
        assert(kept(a + b) =~= kept(a) + kept(b));
    }
}

/// A hint that holds nothing but letters, digits, `-` and `_`, forty-eight at
/// the most, goes into the file name unchanged.
pub proof fn law_clean_hints_stay(stamp: Seq<char>, hint: Seq<char>)
    requires
        hint.len() <= 48,
        forall|i: int|
            #![trigger hint[i]]
            0 <= i < hint.len() ==> 'a' <= hint[i] <= 'z' || 'A' <= hint[i] <= 'Z' || '0'
                <= hint[i] <= '9' || hint[i] == '-' || hint[i] == '_',
    ensures
        safe_hint(hint) == hint,
        hint.len() > 0 ==> recording_name(stamp, Some(hint)) == stamp + "_"@ + hint + ".mp4"@,
        hint.len() == 0 ==> recording_name(stamp, Some(hint)) == stamp + ".mp4"@,
{
    lemma_clean_is_kept(hint);
}

proof fn lemma_clean_is_kept(hint: Seq<char>)
    requires
        forall|i: int| 0 <= i < hint.len() ==> hint_char(#[trigger] hint[i]),
    ensures
        kept(hint) == hint,
    decreases hint.len(),
{
    if hint.len() > 0 {
        lemma_clean_is_kept(hint.drop_last());
        assert(hint_char(hint.last()));
        assert(kept(hint) =~= hint);
    }
}

/// A recording without a hint, or with one of which nothing is left, is named
/// after its time alone.
pub proof fn law_names_without_a_hint(stamp: Seq<char>, hint: Seq<char>)
    ensures
        recording_name(stamp, None) == stamp + ".mp4"@,
        (forall|i: int| 0 <= i < hint.len() ==> !allowed()(#[trigger] hint[i]))
            ==> recording_name(stamp, Some(hint)) == stamp + ".mp4"@,
        stamp.is_prefix_of(recording_name(stamp, Some(hint))),
        ".mp4"@.is_suffix_of(recording_name(stamp, Some(hint))),
{
    law_hints_are_filtered(hint);
    if forall|i: int| 0 <= i < hint.len() ==> !allowed()(#[trigger] hint[i]) {
        lemma_nothing_kept(hint);
    }
    let r = recording_name(stamp, Some(hint));
    assert(stamp =~= r.subrange(0, stamp.len() as int));
    assert(".mp4"@ =~= r.subrange(r.len() - ".mp4"@.len(), r.len() as int));
}

proof fn lemma_nothing_kept(hint: Seq<char>)
    requires
        forall|i: int| 0 <= i < hint.len() ==> !allowed()(#[trigger] hint[i]),
    ensures
        kept(hint).len() == 0,
    decreases hint.len(),
{
    if hint.len() > 0 {
        let before = hint.drop_last();
        assert forall|i: int| 0 <= i < before.len() implies !allowed()(#[trigger] before[i]) by {
            assert(before[i] == hint[i]);
        }
        lemma_nothing_kept(before);
        assert(!allowed()(hint.last()));
    }
}

/// A start is refused exactly while another recording runs, where the program
/// is missing, where the directory cannot be made, where less than 64 MiB are
/// known to be free, and where the process does not start. A volume of which
/// nothing is known is taken to have room.
pub proof fn law_when_a_start_is_refused(b: bool, free: u64, e: String, c: Capture)
    ensures
        refusal(StartCheck::Active(b)) is Some <==> b,
        refusal(StartCheck::Installed(b)) is Some <==> !b,
        refusal(StartCheck::Directory(None)) is None,
        refusal(StartCheck::Directory(Some(e))) is Some,
        refusal(StartCheck::Space(None)) is None,
        refusal(StartCheck::Space(Some(free))) is Some <==> free < 67_108_864,
        refusal(StartCheck::Spawned(Ok(c))) is None,
        refusal(StartCheck::Spawned(Err(e))) is Some,
{
}

/// A request that conflicts with the state of the recorder is answered 409, a
/// full volume 507, and everything else that stops a recording 503.
pub proof fn law_refusals_have_statuses(check: StartCheck)
    requires
        refusal(check) is Some,
    ensures
        check is Active ==> status_for((refusal(check)->0).0) == 409,
        check is Space ==> status_for((refusal(check)->0).0) == 507,
        check is Installed || check is Directory || check is Spawned ==> status_for(
            (refusal(check)->0).0,
        ) == 503,
        status_for("E_RECORDING_NOT_ACTIVE"@) == 409,
{
    reveal_strlit("E_RECORDING_ACTIVE");
    reveal_strlit("E_RECORDING_NOT_ACTIVE");
    reveal_strlit("E_DISK_FULL");
    reveal_strlit("E_FFMPEG_NOT_FOUND");
    reveal_strlit("E_RECORDING_DIR_UNWRITABLE");
    reveal_strlit("E_RECORDER_SPAWN_FAILED");
    assert("E_FFMPEG_NOT_FOUND"@[2] == 'F' && "E_RECORDING_ACTIVE"@[2] == 'R'
        && "E_RECORDING_NOT_ACTIVE"@[2] == 'R' && "E_DISK_FULL"@[2] == 'D');
    assert("E_RECORDING_DIR_UNWRITABLE"@.len() == 26 && "E_RECORDING_ACTIVE"@.len() == 18
        && "E_RECORDING_NOT_ACTIVE"@.len() == 22 && "E_RECORDER_SPAWN_FAILED"@.len() == 23);
}

/// A refusal that has a cause of the system's says it at the end of its words.
pub proof fn law_refusals_carry_their_cause(e: String)
    ensures
        e@.is_suffix_of((refusal(StartCheck::Directory(Some(e)))->0).1),
        e@.is_suffix_of((refusal(StartCheck::Spawned(Err(e)))->0).1),
{
    let d = (refusal(StartCheck::Directory(Some(e)))->0).1;
    let s = (refusal(StartCheck::Spawned(Err(e)))->0).1;
    assert(e@ =~= d.subrange(d.len() - e@.len(), d.len() as int));
    assert(e@ =~= s.subrange(s.len() - e@.len(), s.len() as int));
}

/// A start goes on in its order: the program, the directory, the space, the
/// process, the answer.
pub proof fn law_a_start_goes_on_in_order(
    check: StartCheck,
    hint: Option<Seq<char>>,
    step: StartStep,
)
    requires
        follows(check, hint, step),
    ensures
        check is Active ==> step is FindProgram,
        check is Installed ==> step is MakeDirectory,
        check is Directory ==> step is MeasureSpace,
        check is Space ==> step is Spawn,
        check is Spawned ==> step is Started,
        step matches StartStep::Spawn(name) ==> ".mp4"@.is_suffix_of(name@),
{
    if let StartStep::Spawn(name) = step {
        let stamp = choose|stamp: Seq<char>|
            is_file_stamp(stamp) && name@ == #[trigger] recording_name(stamp, hint);
        let r = recording_name(stamp, hint);
        assert(".mp4"@ =~= r.subrange(r.len() - ".mp4"@.len(), r.len() as int));
    }
}

/// The answer to a start names the file, the time and the path.
pub proof fn law_the_answer_to_a_start(c: Capture, at: Seq<char>, reply: Json)
    requires
        is_start_reply(c, at, reply),
    ensures
        reply is Obj,
        reply->Obj_0@.len() == 3,
        reply->Obj_0@[0].0@ == "filename"@ && json::leaf(reply->Obj_0@[0].1) == Leaf::Text(
            c.filename@,
        ),
        reply->Obj_0@[1].0@ == "started_at"@ && json::leaf(reply->Obj_0@[1].1) == Leaf::Text(at),
        reply->Obj_0@[2].0@ == "path"@ && json::leaf(reply->Obj_0@[2].1) == Leaf::Text(c.path@),
{
    let wanted = seq![
        ("filename"@, Leaf::Text(c.filename@)),
        ("started_at"@, Leaf::Text(at)),
        ("path"@, Leaf::Text(c.path@)),
    ];
    json::law_an_object_has_its_entries(reply, wanted, 0);
    json::law_an_object_has_its_entries(reply, wanted, 1);
    json::law_an_object_has_its_entries(reply, wanted, 2);
}

/// The shape of a time stamp: a year, then month, day, `T`, hour, minute and
/// second in two digits each, with hyphens between them.
pub proof fn law_the_shape_of_a_stamp(s: Seq<char>)
    requires
        is_file_stamp(s),
    ensures
        s.len() >= 19,
        s[s.len() - 15] == '-' && s[s.len() - 12] == '-' && s[s.len() - 9] == 'T' && s[s.len() - 6]
            == '-' && s[s.len() - 3] == '-',
        '0' <= s[s.len() - 1] <= '9' && '0' <= s[s.len() - 2] <= '9' && '0' <= s[s.len() - 4]
            <= '9' && '0' <= s[s.len() - 5] <= '9',
        '0' <= s[s.len() - 7] <= '9' && '0' <= s[s.len() - 8] <= '9' && '0' <= s[s.len() - 10]
            <= '9' && '0' <= s[s.len() - 11] <= '9' && '0' <= s[s.len() - 13] <= '9' && '0'
            <= s[s.len() - 14] <= '9',
        '0' <= s[s.len() - 16] <= '9' && '0' <= s[s.len() - 17] <= '9' && '0' <= s[s.len() - 18]
            <= '9' && '0' <= s[s.len() - 19] <= '9' || s[0] == '+' || s[0] == '-',
{
    let y = s.len() - STAMP_TAIL;
    let tail = s.skip(y);
    let year = s.take(y);
    assert(tail.len() == 15);
    assert(tail[0] == s[y] && tail[3] == s[y + 3] && tail[6] == s[y + 6] && tail[9] == s[y + 9]
        && tail[12] == s[y + 12]);
    assert(text::is_digit(tail[14]) && text::is_digit(tail[13]) && text::is_digit(tail[11])
        && text::is_digit(tail[10]) && text::is_digit(tail[8]) && text::is_digit(tail[7])
        && text::is_digit(tail[5]) && text::is_digit(tail[4]) && text::is_digit(tail[2])
        && text::is_digit(tail[1]));
    assert(year_digits(year).len() >= 4);
    assert(year.len() >= 4);
    if s[0] != '+' && s[0] != '-' {
        assert(year[0] == s[0]);
        assert(year_digits(year) == year);
        assert(text::is_digit(year[y - 1]) && text::is_digit(year[y - 2]) && text::is_digit(
            year[y - 3],
        ) && text::is_digit(year[y - 4]));
    }
}

/// An error says its code and its words, and a hint that is given is seen.
pub proof fn law_errors_and_hints_are_what_they_hold(e: RecorderError, h: &str)
    ensures
        e.says(e.code@, e.message@),
        forall|c: Seq<char>, m: Seq<char>| #[trigger]
            e.says(c, m) ==> c == e.code@ && m == e.message@,
        hint_view(Some(h)) == Some(h@),
        hint_view(None) is None,
{
}

/// Where recordings go and come from.
pub proof fn law_where_recordings_go()
    ensures
        RECORDINGS_DIR@ == "/var/ados/recordings"@,
        DEFAULT_RTSP_URL@ == "rtsp://127.0.0.1:8554/main"@,
        MIN_FREE_BYTES == 67_108_864,
        MAX_HINT == 48,
        STAMP_LAYOUT@ == "[year]-[month]-[day]T[hour]-[minute]-[second]"@,
{
}

/// What a refusal says, by its code and in words.
pub proof fn law_refusals_in_words(free: u64, e: String)
    ensures
        refusal(StartCheck::Active(true)) == Some(
            ("E_RECORDING_ACTIVE"@, "a recording is already in progress"@),
        ),
        refusal(StartCheck::Installed(false)) == Some(
            ("E_FFMPEG_NOT_FOUND"@, "ffmpeg binary not on PATH"@),
        ),
        refusal(StartCheck::Directory(Some(e))) == Some(
            ("E_RECORDING_DIR_UNWRITABLE"@, "cannot create recordings directory: "@ + e@),
        ),
        free < 67_108_864 ==> refusal(StartCheck::Space(Some(free))) == Some(
            ("E_DISK_FULL"@, "less than 64 MiB free on the recordings volume"@),
        ),
        refusal(StartCheck::Spawned(Err(e))) == Some(
            ("E_RECORDER_SPAWN_FAILED"@, "failed to spawn ffmpeg: "@ + e@),
        ),
{
}

} // verus!
