//! The verbs of the encoder command socket.
//!
//! One request object per connection, one reply object back. Reading the
//! request and deciding on it happens here; the socket, the wait for the
//! applier and the writing of the reply are the caller's.
use crate::health::Nanos;
use crate::json;
use crate::json::Json;
use crate::profile::{EncoderControl, EncoderState, VideoProfile};
use crate::text;
use vstd::prelude::*;

verus! {

/// The command socket that the video service listens on.
pub const VIDEO_ENCODER_SOCK: &'static str = "/run/ados/video-encoder.sock";

/// The attention-state file that the video service writes on every change.
pub const VIDEO_PROFILE_SIDECAR: &'static str = "/run/ados/video-profile.json";

/// How long a set waits for the applier.
pub const APPLY_TIMEOUT: Nanos = 8_000_000_000;

/// How long a client waits for the whole exchange; longer than the applier's
/// wait, so that the server's own answer arrives.
pub const CLIENT_TIMEOUT: Nanos = 10_000_000_000;

/// What a request asks for.
#[derive(Debug, PartialEq, Eq)]
pub enum Request {
    /// Read the running state.
    Get,
    /// Select the base profile.
    SetProfile(VideoProfile),
    /// Set the bitrate ceiling, or clear it.
    SetCeiling(Option<u32>),
    /// A request that cannot be carried out.
    Bad(Refusal),
}

/// Why a request is refused.
#[derive(Debug, PartialEq, Eq)]
pub enum Refusal {
    /// Malformed or missing arguments (`E_ARGS`), in words.
    Arguments(String),
    /// An unknown verb (`E_UNKNOWN_OP`).
    UnknownOp(String),
}

/// The reply to a request.
#[derive(Debug, PartialEq, Eq)]
pub enum Reply {
    /// `ok`: the live state, whether applying it restarted the encoder, and
    /// whether the request is confirmed to be in force.
    State { state: EncoderState, restarted: bool, applied: bool },
    /// Not `ok`.
    Refused(Refusal),
}

/// What the server does next with a request.
#[derive(Debug, PartialEq, Eq)]
pub enum Step {
    /// Answer now.
    Answer(Reply),
    /// Wait until the applier acknowledges this generation, then settle.
    Await(u64),
}

/// The verb of a request object; a missing one reads as empty.
pub open spec fn op_of(j: Json) -> Seq<char> {
    match json::text_value(json::field(j, "op"@)) {
        Some(op) => op,
        None => Seq::empty(),
    }
}

/// The ceiling that a request object asks for: cleared by `null` or by its
/// absence, else a positive integer of 32 bits.
pub open spec fn ceiling_of(j: Json) -> Option<Option<u32>> {
    match json::field(j, "bitrate_kbps"@) {
        None => Some(None),
        Some(Json::Null) => Some(None),
        Some(v) => match json::unsigned_value(Some(v)) {
            Some(n) if 0 < n <= u32::MAX => Some(Some(n as u32)),
            _ => None,
        },
    }
}

/// The profile that a request object names.
pub open spec fn profile_of(j: Json) -> Option<VideoProfile> {
    match json::text_value(json::field(j, "profile"@)) {
        Some(s) => crate::profile::profile_named(s),
        None => None,
    }
}

impl Request {
    /// The request that the object `j` makes.
    pub open spec fn asks(self, j: Json) -> bool {
        let op = op_of(j);
        if op == "video.encoder.get"@ {
            self is Get
        } else if op == "video.encoder.profile.set"@ {
            match profile_of(j) {
                Some(p) => self == Request::SetProfile(p),
                None => self.is_argument_error("profile must be \"hero\" or \"thumbnail\""@),
            }
        } else if op == "video.encoder.ceiling.set"@ {
            match ceiling_of(j) {
                Some(c) => self == Request::SetCeiling(c),
                None => self.is_argument_error("bitrate_kbps must be a positive integer or null"@),
            }
        } else {
            self matches Request::Bad(Refusal::UnknownOp(name)) && name@ == op
        }
    }

    /// The request is refused for its arguments, with the given words.
    pub open spec fn is_argument_error(self, detail: Seq<char>) -> bool {
        self matches Request::Bad(Refusal::Arguments(d)) && d@ == detail
    }
}

fn argument_error(detail: &str) -> (r: Request)
    ensures
        r.is_argument_error(detail@),
{
    Request::Bad(Refusal::Arguments(detail.to_owned()))
}

/// Decide what a request object asks for.
pub fn decide(parsed: &Json) -> (r: Request)
    ensures
        r.asks(*parsed),
{
    let op = match json::as_str(json::get(Some(parsed), "op")) {
        Some(op) => op,
        None => {
            proof {
                reveal_strlit("");
            }
            ""
        },
    };
    assert(op@ =~= op_of(*parsed));
    if text::same(op, "video.encoder.get") {
        Request::Get
    } else if text::same(op, "video.encoder.profile.set") {
        let named = match json::as_str(json::get(Some(parsed), "profile")) {
            Some(s) => VideoProfile::parse(s),
            None => None,
        };
        match named {
            Some(p) => Request::SetProfile(p),
            None => argument_error("profile must be \"hero\" or \"thumbnail\""),
        }
    } else if text::same(op, "video.encoder.ceiling.set") {
        match json::get(Some(parsed), "bitrate_kbps") {
            None => Request::SetCeiling(None),
            Some(Json::Null) => Request::SetCeiling(None),
            Some(v) => match json::as_u64(Some(v)) {
                Some(n) => if 0 < n && n <= u32::MAX as u64 {
                    Request::SetCeiling(Some(n as u32))
                } else {
                    argument_error("bitrate_kbps must be a positive integer or null")
                },
                None => argument_error("bitrate_kbps must be a positive integer or null"),
            },
        }
    } else {
        Request::Bad(Refusal::UnknownOp(op.to_owned()))
    }
}

/// Read one request. Bytes that are not JSON are refused with the reader's
/// own words.
pub fn read_request(request: &[u8]) -> (r: Request)
    ensures
        match json::json_read(request@) {
            Ok(j) => r.asks(j),
            Err(e) => r.is_argument_error("malformed request: "@ + e),
        },
{
    match json::parse(request) {
        Ok(j) => decide(&j),
        Err(e) => {
            let detail = text::cat("malformed request: ", e.as_str());
            argument_error(detail.as_str())
        },
    }
}

/// Carry a request out against the control: a read answers at once with the
/// live state, a set records its own concern and waits for the applier, and a
/// refused request changes nothing.
pub fn execute(request: Request, control: &mut EncoderControl) -> (r: Step)
    requires
        old(control).desired.generation < u64::MAX,
    ensures
        match request {
            Request::Get => {
                &&& *final(control) == *old(control)
                &&& r == Step::Answer(
                    Reply::State {
                        state: old(control).applied.state,
                        restarted: old(control).applied.restarted,
                        applied: true,
                    },
                )
            },
            Request::SetProfile(p) => {
                &&& final(control).applied == old(control).applied
                &&& final(control).desired.profile == p
                &&& final(control).desired.ceiling_kbps == old(control).desired.ceiling_kbps
                &&& final(control).desired.generation == old(control).desired.generation + 1
                &&& r == Step::Await(final(control).desired.generation)
            },
            Request::SetCeiling(c) => {
                &&& final(control).applied == old(control).applied
                &&& final(control).desired.profile == old(control).desired.profile
                &&& final(control).desired.ceiling_kbps == c
                &&& final(control).desired.generation == old(control).desired.generation + 1
                &&& r == Step::Await(final(control).desired.generation)
            },
            Request::Bad(refusal) => {
                &&& *final(control) == *old(control)
                &&& r == Step::Answer(Reply::Refused(refusal))
            },
        },
        final(control).applied == old(control).applied,
        r is Answer ==> *final(control) == *old(control),
        r is Await <==> request is SetProfile || request is SetCeiling,
        r matches Step::Await(g) ==> g > old(control).desired.generation,
{
    match request {
        Request::Get => {
            let a = control.applied();
            Step::Answer(
                Reply::State { state: a.state, restarted: a.restarted, applied: true },
            )
        },
        Request::SetProfile(p) => {
            let generation: u64 = control.request_profile(p);
            Step::Await(generation)
        },
        Request::SetCeiling(c) => {
            let generation: u64 = control.request_ceiling(c);
            Step::Await(generation)
        },
        Request::Bad(refusal) => Step::Answer(Reply::Refused(refusal)),
    }
}

/// The reply once the wait for `generation` is over, whether or not the
/// applier acknowledged it in time. An unconfirmed set answers with what is
/// actually live and says that it is not confirmed.
pub fn settle(control: &EncoderControl, generation: u64) -> (r: Reply)
    ensures
        r == (if control.applied.generation >= generation {
            Reply::State {
                state: control.applied.state,
                restarted: control.applied.restarted,
                applied: true,
            }
        } else {
            Reply::State { state: control.applied.state, restarted: false, applied: false }
        }),
        r matches Reply::State { state, restarted, applied } && {
            &&& state == control.applied.state
            &&& applied <==> control.applied.generation >= generation
            &&& restarted <==> applied && control.applied.restarted
        },
{
    match control.acknowledged(generation) {
        Some(a) => Reply::State { state: a.state, restarted: a.restarted, applied: true },
        None => Reply::State { state: control.applied().state, restarted: false, applied: false },
    }
}

/// The error code of a refusal on the wire.
pub fn refusal_code(refusal: &Refusal) -> (r: &'static str)
    ensures
        r@ == (match refusal {
            Refusal::Arguments(_) => "E_ARGS"@,
            Refusal::UnknownOp(_) => "E_UNKNOWN_OP"@,
        }),
{
    match refusal {
        Refusal::Arguments(_) => "E_ARGS",
        Refusal::UnknownOp(_) => "E_UNKNOWN_OP",
    }
}

/// What a client makes of a reply object that is not `ok`: the error in words,
/// or `None` for an `ok` reply.
pub open spec fn rejection_of(reply: Json) -> Option<Seq<char>> {
    if json::bool_value(json::field(reply, "ok"@)) == Some(true) {
        None
    } else {
        let code = match json::text_value(json::field(reply, "error"@)) {
            Some(c) => c,
            None => "E_UNKNOWN"@,
        };
        let detail = match json::text_value(json::field(reply, "detail"@)) {
            Some(d) => d,
            None => Seq::empty(),
        };
        Some("encoder command rejected: "@ + code + " "@ + detail)
    }
}

/// What a client makes of a reply object: `None` for an `ok` reply, else the
/// rejection in words.
pub fn rejection(reply: &Json) -> (r: Option<String>)
    ensures
        text::opt_view(r) == rejection_of(*reply),
{
    match json::as_bool(json::get(Some(reply), "ok")) {
        Some(true) => None,
        _ => {
            let code = match json::as_str(json::get(Some(reply), "error")) {
                Some(c) => c,
                None => "E_UNKNOWN",
            };
            let mut out = String::from_str("encoder command rejected: ");
            out.append(code);
            out.append(" ");
            match json::as_str(json::get(Some(reply), "detail")) {
                Some(d) => {
                    out.append(d);
                },
                None => {
                    assert(out@ + Seq::<char>::empty() =~= out@);
                },
            }
            Some(out)
        },
    }
}

// ---------------------------------------------------------------------------
// laws
// ---------------------------------------------------------------------------

/// A request that is refused can be told from one that is carried out: no
/// object both asks for a change and is refused.
pub proof fn law_a_request_has_one_meaning(j: Json, a: Request, b: Request)
    requires
        a.asks(j),
        b.asks(j),
    ensures
        (a is Bad) == (b is Bad),
        !(a is Bad) ==> a == b,
{
}

/// A request is taken for its verb: a read, a profile or a ceiling. A verb that
/// is none of them is refused by its name.
pub proof fn law_what_a_request_asks_for(r: Request, j: Json)
    requires
        r.asks(j),
    ensures
        r is Get <==> op_of(j) == "video.encoder.get"@,
        r is SetProfile ==> op_of(j) == "video.encoder.profile.set"@,
        r is SetCeiling ==> op_of(j) == "video.encoder.ceiling.set"@,
        r == Request::SetProfile(VideoProfile::Hero) ==> json::text_value(
            json::field(j, "profile"@),
        ) == Some("hero"@),
        r == Request::SetProfile(VideoProfile::Thumbnail) ==> json::text_value(
            json::field(j, "profile"@),
        ) == Some("thumbnail"@),
        op_of(j) == "video.encoder.profile.set"@ && json::text_value(json::field(j, "profile"@))
            == Some("hero"@) ==> r == Request::SetProfile(VideoProfile::Hero),
        op_of(j) == "video.encoder.profile.set"@ && json::text_value(json::field(j, "profile"@))
            == Some("thumbnail"@) ==> r == Request::SetProfile(VideoProfile::Thumbnail),
        op_of(j) != "video.encoder.get"@ && op_of(j) != "video.encoder.profile.set"@ && op_of(j)
            != "video.encoder.ceiling.set"@ ==> (r matches Request::Bad(Refusal::UnknownOp(name))
            && name@ == op_of(j)),
{
    reveal_strlit("video.encoder.get");
    reveal_strlit("video.encoder.profile.set");
    reveal_strlit("video.encoder.ceiling.set");
    reveal_strlit("hero");
    reveal_strlit("thumbnail");
    assert("video.encoder.get"@.len() == 17 && "video.encoder.profile.set"@.len() == 25
        && "video.encoder.ceiling.set"@.len() == 25);
    assert("video.encoder.profile.set"@[14] == 'p' && "video.encoder.ceiling.set"@[14] == 'c');
    assert("hero"@.len() == 4 && "thumbnail"@.len() == 9);
}

/// A ceiling is set to a positive number of 32 bits, cleared by `null` or by
/// being left out, and nothing else is a ceiling.
pub proof fn law_what_a_ceiling_is(j: Json)
    ensures
        json::field(j, "bitrate_kbps"@) is None ==> ceiling_of(j) == Some(None::<u32>),
        json::field(j, "bitrate_kbps"@) == Some(Json::Null) ==> ceiling_of(j) == Some(None::<u32>),
        json::field(j, "bitrate_kbps"@) matches Some(Json::Num(json::Number::Unsigned(n))) ==> (0 < n
            <= 0xffff_ffff ==> ceiling_of(j) == Some(Some(n as u32))) && (n == 0 || n > 0xffff_ffff
            ==> ceiling_of(j) is None),
        json::field(j, "bitrate_kbps"@) matches Some(Json::Num(json::Number::Negative(n)))
            ==> ceiling_of(j) is None,
        json::field(j, "bitrate_kbps"@) matches Some(Json::Str(s)) ==> ceiling_of(j) is None,
        json::field(j, "bitrate_kbps"@) matches Some(Json::Bool(b)) ==> ceiling_of(j) is None,
{
}

/// A reply is a rejection exactly where it is not `ok`, with its code and its
/// words.
pub proof fn law_what_a_rejection_is(reply: Json)
    ensures
        rejection_of(reply) is None <==> json::field(reply, "ok"@) == Some(Json::Bool(true)),
        rejection_of(reply) is Some && json::text_value(json::field(reply, "error"@)) is None
            && json::text_value(json::field(reply, "detail"@)) is None ==> rejection_of(reply)->0
            == "encoder command rejected: "@ + "E_UNKNOWN"@ + " "@ + Seq::<char>::empty(),
        rejection_of(reply) is Some && json::text_value(json::field(reply, "error"@)) is Some
            && json::text_value(json::field(reply, "detail"@)) is Some ==> rejection_of(reply)->0
            == "encoder command rejected: "@ + json::text_value(json::field(reply, "error"@))->0
            + " "@ + json::text_value(json::field(reply, "detail"@))->0,
{
}

/// The paths and the times of the command socket: a client waits longer than
/// the server does.
pub proof fn law_the_paths_and_times_of_the_socket()
    ensures
        VIDEO_ENCODER_SOCK@ == "/run/ados/video-encoder.sock"@,
        VIDEO_PROFILE_SIDECAR@ == "/run/ados/video-profile.json"@,
        APPLY_TIMEOUT == 8_000_000_000,
        CLIENT_TIMEOUT == 10_000_000_000,
        APPLY_TIMEOUT < CLIENT_TIMEOUT,
{
}

} // verus!
