//! The JSON objects that a node publishes and that its processes exchange: the
//! camera state, the attention state, the requests and replies of the encoder's
//! command socket, and the answers of the recorder.
//!
//! Each object is specified by its keys and values in order, and what one side
//! writes is proved to be read as the same thing by the other.
use crate::camera_state;
use crate::camera_state::CameraStateSnapshot;
use crate::ipc;
use crate::ipc::{refusal_code, rejection, Refusal, Reply, Request};
use crate::json;
use crate::json::{
    as_u64, count, optional_bool, optional_count, optional_string, put, string, Json, Leaf, Number,
};
use crate::profile;
use crate::profile::{EncoderState, VideoProfile};
use crate::text;
use vstd::prelude::*;

verus! {

// ---------------------------------------------------------------------------
// the camera state
// ---------------------------------------------------------------------------

/// The camera state as it is published, stamped with the time of writing.
pub open spec fn camera_state_entries(s: CameraStateSnapshot, updated_at: Number) -> Seq<
    (Seq<char>, Leaf),
> {
    seq![
        ("version"@, Leaf::Num(Number::Unsigned(s.version as u64))),
        ("state"@, Leaf::Text(camera_state::state_name(s.state))),
        ("primary_path"@, json::optional_text_leaf(text::opt_view(s.primary_path))),
        ("primary_name"@, json::optional_text_leaf(text::opt_view(s.primary_name))),
        ("total_cameras"@, json::count_leaf(s.total_cameras)),
        ("pipeline_state"@, Leaf::Text(camera_state::outcome_name(s.pipeline_state))),
        ("pipeline_reason"@, json::optional_text_leaf(text::opt_view(s.pipeline_reason))),
        ("encoder"@, json::optional_text_leaf(text::opt_view(s.encoder))),
        ("encoder_hw"@, json::optional_bool_leaf(s.encoder_hw)),
        ("updated_at_unix"@, Leaf::Num(updated_at)),
    ]
}

/// The camera state as it is published, stamped with the time of writing.
pub fn camera_state_json(s: &CameraStateSnapshot, updated_at: Number) -> (r: Json)
    ensures
        json::is_object(r, camera_state_entries(*s, updated_at)),
{
    let mut m: Vec<(String, Json)> = Vec::new();
    assert(json::entries(m@) =~= Seq::<(Seq<char>, Leaf)>::empty());
    put(&mut m, "version", count(s.version as u32));
    put(&mut m, "state", string(s.state.as_str()));
    put(&mut m, "primary_path", optional_string(&s.primary_path));
    put(&mut m, "primary_name", optional_string(&s.primary_name));
    put(&mut m, "total_cameras", count(s.total_cameras));
    put(&mut m, "pipeline_state", string(s.pipeline_state.as_str()));
    put(&mut m, "pipeline_reason", optional_string(&s.pipeline_reason));
    put(&mut m, "encoder", optional_string(&s.encoder));
    put(&mut m, "encoder_hw", optional_bool(s.encoder_hw));
    put(&mut m, "updated_at_unix", Json::Num(updated_at));
    assert(json::entries(m@) =~= camera_state_entries(*s, updated_at));
    Json::Obj(m)
}

// ---------------------------------------------------------------------------
// the attention state
// ---------------------------------------------------------------------------

/// The attention state as it is published. The ceiling is always there.
pub open spec fn state_entries(s: EncoderState) -> Seq<(Seq<char>, Leaf)> {
    seq![
        ("profile"@, Leaf::Text(profile::wire_name(s.profile))),
        ("ceiling_kbps"@, json::optional_count_leaf(s.ceiling_kbps)),
        ("width"@, json::count_leaf(s.width)),
        ("height"@, json::count_leaf(s.height)),
        ("fps"@, json::count_leaf(s.fps)),
        ("bitrate_kbps"@, json::count_leaf(s.bitrate_kbps)),
    ]
}

fn put_state(m: &mut Vec<(String, Json)>, s: &EncoderState)
    ensures
        json::entries(final(m)@) == json::entries(old(m)@) + state_entries(*s),
{
    put(m, "profile", string(s.profile.as_str()));
    put(m, "ceiling_kbps", optional_count(s.ceiling_kbps));
    put(m, "width", count(s.width));
    put(m, "height", count(s.height));
    put(m, "fps", count(s.fps));
    put(m, "bitrate_kbps", count(s.bitrate_kbps));
    assert(json::entries(m@) =~= json::entries(old(m)@) + state_entries(*s));
}

/// The attention state as it is published.
pub fn encoder_state_json(s: &EncoderState) -> (r: Json)
    ensures
        json::is_object(r, state_entries(*s)),
{
    let mut m: Vec<(String, Json)> = Vec::new();
    put_state(&mut m, s);
    assert(json::entries(m@) =~= state_entries(*s));
    Json::Obj(m)
}

/// The profile that a value names: by a text, or by an object whose one member
/// has that name and no value.
pub open spec fn profile_in(v: Option<Json>) -> Option<VideoProfile> {
    match v {
        Some(Json::Str(s)) => profile::profile_named(s@),
        Some(Json::Obj(m)) if m@.len() == 1 && m@[0].1 is Null => profile::profile_named(
            m@[0].0@,
        ),
        _ => None,
    }
}

/// The unsigned 32-bit number that a value is.
pub open spec fn count_in(v: Option<Json>) -> Option<u32> {
    match json::unsigned_value(v) {
        Some(n) if n <= u32::MAX => Some(n as u32),
        _ => None,
    }
}

/// The ceiling that a value is: none when it is missing or null.
pub open spec fn ceiling_in(v: Option<Json>) -> Option<Option<u32>> {
    match v {
        None => Some(None),
        Some(Json::Null) => Some(None),
        Some(_) => match count_in(v) {
            Some(n) => Some(Some(n)),
            None => None,
        },
    }
}

/// The part of a state at `key`, or at the place `i` of a list of the six
/// parts.
pub open spec fn part(j: Json, key: Seq<char>, i: int) -> Option<Json> {
    match j {
        Json::Obj(_) => json::field(j, key),
        Json::Arr(v) if v@.len() == 6 => Some(v@[i]),
        _ => None,
    }
}

/// The attention state in a value; other members of an object do not matter.
pub open spec fn state_in(j: Json) -> Option<EncoderState> {
    match (
        profile_in(part(j, "profile"@, 0)),
        ceiling_in(part(j, "ceiling_kbps"@, 1)),
        count_in(part(j, "width"@, 2)),
        count_in(part(j, "height"@, 3)),
        count_in(part(j, "fps"@, 4)),
        count_in(part(j, "bitrate_kbps"@, 5)),
    ) {
        (
            Some(profile),
            Some(ceiling_kbps),
            Some(width),
            Some(height),
            Some(fps),
            Some(bitrate_kbps),
        ) => Some(EncoderState { profile, ceiling_kbps, width, height, fps, bitrate_kbps }),
        _ => None,
    }
}

fn read_profile(v: Option<&Json>) -> (r: Option<VideoProfile>)
    ensures
        r == profile_in(json::deref(v)),
{
    match v {
        Some(Json::Str(s)) => VideoProfile::parse(s.as_str()),
        Some(Json::Obj(m)) => if m.len() == 1 {
            match &m[0].1 {
                Json::Null => VideoProfile::parse(m[0].0.as_str()),
                _ => None,
            }
        } else {
            None
        },
        _ => None,
    }
}

fn read_count(v: Option<&Json>) -> (r: Option<u32>)
    ensures
        r == count_in(json::deref(v)),
{
    match as_u64(v) {
        Some(n) => if n <= u32::MAX as u64 {
            Some(n as u32)
        } else {
            None
        },
        None => None,
    }
}

fn read_ceiling(v: Option<&Json>) -> (r: Option<Option<u32>>)
    ensures
        r == ceiling_in(json::deref(v)),
{
    match v {
        None => Some(None),
        Some(Json::Null) => Some(None),
        Some(_) => match read_count(v) {
            Some(n) => Some(Some(n)),
            None => None,
        },
    }
}

fn read_part<'a>(j: &'a Json, key: &str, i: usize) -> (r: Option<&'a Json>)
    requires
        i < 6,
    ensures
        json::deref(r) == part(*j, key@, i as int),
{
    match j {
        Json::Obj(_) => json::get(Some(j), key),
        Json::Arr(v) => if v.len() == 6 {
            Some(&v[i])
        } else {
            None
        },
        _ => None,
    }
}

/// Read an attention state.
pub fn read_encoder_state(j: &Json) -> (r: Option<EncoderState>)
    ensures
        r == state_in(*j),
{
    let profile = read_profile(read_part(j, "profile", 0))?;
    let ceiling_kbps = read_ceiling(read_part(j, "ceiling_kbps", 1))?;
    let width: u32 = read_count(read_part(j, "width", 2))?;
    let height: u32 = read_count(read_part(j, "height", 3))?;
    let fps: u32 = read_count(read_part(j, "fps", 4))?;
    let bitrate_kbps: u32 = read_count(read_part(j, "bitrate_kbps", 5))?;
    Some(EncoderState { profile, ceiling_kbps, width, height, fps, bitrate_kbps })
}

// ---------------------------------------------------------------------------
// the command socket
// ---------------------------------------------------------------------------

/// A request on the wire; there is no way to ask for a refusal.
pub open spec fn request_entries(r: Request) -> Option<Seq<(Seq<char>, Leaf)>> {
    match r {
        Request::Get => Some(seq![("op"@, Leaf::Text("video.encoder.get"@))]),
        Request::SetProfile(p) => Some(
            seq![
                ("op"@, Leaf::Text("video.encoder.profile.set"@)),
                ("profile"@, Leaf::Text(profile::wire_name(p))),
            ],
        ),
        Request::SetCeiling(c) => Some(
            seq![
                ("op"@, Leaf::Text("video.encoder.ceiling.set"@)),
                ("bitrate_kbps"@, json::optional_count_leaf(c)),
            ],
        ),
        Request::Bad(_) => None,
    }
}

/// A request on the wire.
pub fn request_json(r: &Request) -> (j: Option<Json>)
    ensures
        match j {
            Some(j) => request_entries(*r) is Some && json::is_object(j, request_entries(*r)->0),
            None => request_entries(*r) is None,
        },
{
    let mut m: Vec<(String, Json)> = Vec::new();
    assert(json::entries(m@) =~= Seq::<(Seq<char>, Leaf)>::empty());
    match r {
        Request::Get => {
            put(&mut m, "op", string("video.encoder.get"));
        },
        Request::SetProfile(p) => {
            put(&mut m, "op", string("video.encoder.profile.set"));
            put(&mut m, "profile", string(p.as_str()));
        },
        Request::SetCeiling(c) => {
            put(&mut m, "op", string("video.encoder.ceiling.set"));
            put(&mut m, "bitrate_kbps", optional_count(*c));
        },
        Request::Bad(_) => {
            return None;
        },
    }
    assert(json::entries(m@) =~= request_entries(*r)->0);
    Some(Json::Obj(m))
}

/// A reply on the wire.
pub open spec fn reply_entries(r: Reply) -> Seq<(Seq<char>, Leaf)> {
    match r {
        Reply::State { state, restarted, applied } => seq![("ok"@, Leaf::Bool(true))]
            + state_entries(state) + seq![
            ("restarted"@, Leaf::Bool(restarted)),
            ("applied"@, Leaf::Bool(applied)),
        ],
        Reply::Refused(Refusal::Arguments(detail)) => seq![
            ("ok"@, Leaf::Bool(false)),
            ("error"@, Leaf::Text("E_ARGS"@)),
            ("detail"@, Leaf::Text(detail@)),
        ],
        Reply::Refused(Refusal::UnknownOp(op)) => seq![
            ("ok"@, Leaf::Bool(false)),
            ("error"@, Leaf::Text("E_UNKNOWN_OP"@)),
            ("op"@, Leaf::Text(op@)),
        ],
    }
}

/// A reply on the wire.
pub fn reply_json(r: &Reply) -> (j: Json)
    ensures
        json::is_object(j, reply_entries(*r)),
{
    let mut m: Vec<(String, Json)> = Vec::new();
    assert(json::entries(m@) =~= Seq::<(Seq<char>, Leaf)>::empty());
    match r {
        Reply::State { state, restarted, applied } => {
            put(&mut m, "ok", Json::Bool(true));
            put_state(&mut m, state);
            put(&mut m, "restarted", Json::Bool(*restarted));
            put(&mut m, "applied", Json::Bool(*applied));
        },
        Reply::Refused(refusal) => {
            put(&mut m, "ok", Json::Bool(false));
            put(&mut m, "error", string(refusal_code(refusal)));
            match refusal {
                Refusal::Arguments(detail) => {
                    put(&mut m, "detail", string(detail.as_str()));
                },
                Refusal::UnknownOp(op) => {
                    put(&mut m, "op", string(op.as_str()));
                },
            }
        },
    }
    assert(json::entries(m@) =~= reply_entries(*r));
    Json::Obj(m)
}

/// What a client makes of a reply.
#[derive(Debug, PartialEq, Eq)]
pub enum Answer {
    /// The state that is live.
    Live(EncoderState),
    /// The request was refused, in words.
    Rejected(String),
    /// The reply is none.
    Malformed,
}

/// What a client makes of a reply.
pub fn read_reply(reply: &Json) -> (r: Answer)
    ensures
        match r {
            Answer::Rejected(words) => ipc::rejection_of(*reply) == Some(words@),
            Answer::Live(state) => ipc::rejection_of(*reply) is None && state_in(*reply) == Some(
                state,
            ),
            Answer::Malformed => ipc::rejection_of(*reply) is None && state_in(*reply) is None,
        },
{
    match rejection(reply) {
        Some(words) => Answer::Rejected(words),
        None => match read_encoder_state(reply) {
            Some(state) => Answer::Live(state),
            None => Answer::Malformed,
        },
    }
}

// ---------------------------------------------------------------------------
// recordings
// ---------------------------------------------------------------------------

/// The answer to a started recording.
pub fn started_json(filename: &str, started_at: &str, path: &str) -> (r: Json)
    ensures
        json::is_object(
            r,
            seq![
                ("filename"@, Leaf::Text(filename@)),
                ("started_at"@, Leaf::Text(started_at@)),
                ("path"@, Leaf::Text(path@)),
            ],
        ),
{
    let mut m: Vec<(String, Json)> = Vec::new();
    assert(json::entries(m@) =~= Seq::<(Seq<char>, Leaf)>::empty());
    put(&mut m, "filename", string(filename));
    put(&mut m, "started_at", string(started_at));
    put(&mut m, "path", string(path));
    assert(json::entries(m@) =~= seq![
        ("filename"@, Leaf::Text(filename@)),
        ("started_at"@, Leaf::Text(started_at@)),
        ("path"@, Leaf::Text(path@)),
    ]);
    Json::Obj(m)
}

/// The answer to a stopped recording.
pub fn stopped_json(filename: &str, stopped_at: &str, duration_seconds: Number, size_bytes: u64)
    -> (r: Json)
    ensures
        json::is_object(
            r,
            seq![
                ("filename"@, Leaf::Text(filename@)),
                ("stopped_at"@, Leaf::Text(stopped_at@)),
                ("duration_seconds"@, Leaf::Num(duration_seconds)),
                ("size_bytes"@, Leaf::Num(Number::Unsigned(size_bytes))),
            ],
        ),
{
    let mut m: Vec<(String, Json)> = Vec::new();
    assert(json::entries(m@) =~= Seq::<(Seq<char>, Leaf)>::empty());
    put(&mut m, "filename", string(filename));
    put(&mut m, "stopped_at", string(stopped_at));
    put(&mut m, "duration_seconds", Json::Num(duration_seconds));
    put(&mut m, "size_bytes", Json::Num(Number::Unsigned(size_bytes)));
    assert(json::entries(m@) =~= seq![
        ("filename"@, Leaf::Text(filename@)),
        ("stopped_at"@, Leaf::Text(stopped_at@)),
        ("duration_seconds"@, Leaf::Num(duration_seconds)),
        ("size_bytes"@, Leaf::Num(Number::Unsigned(size_bytes))),
    ]);
    Json::Obj(m)
}

// ---------------------------------------------------------------------------
// laws
// ---------------------------------------------------------------------------

/// Keys of different lengths, or with different first letters, differ.
proof fn lemma_keys_differ()
    ensures
        "ok"@.len() == 2,
        "op"@.len() == 2,
        "ok"@ != "op"@,
        "profile"@.len() == 7,
        "ceiling_kbps"@.len() == 12,
        "width"@.len() == 5,
        "height"@.len() == 6,
        "fps"@.len() == 3,
        "bitrate_kbps"@.len() == 12,
        "ceiling_kbps"@ != "bitrate_kbps"@,
        "restarted"@.len() == 9,
        "applied"@.len() == 7,
        "profile"@ != "applied"@,
        "error"@.len() == 5,
        "detail"@.len() == 6,
{
    reveal_strlit("ok");
    reveal_strlit("op");
    reveal_strlit("profile");
    reveal_strlit("ceiling_kbps");
    reveal_strlit("width");
    reveal_strlit("height");
    reveal_strlit("fps");
    reveal_strlit("bitrate_kbps");
    reveal_strlit("restarted");
    reveal_strlit("applied");
    reveal_strlit("error");
    reveal_strlit("detail");
    assert("ok"@[1] != "op"@[1]);
    assert("ceiling_kbps"@[0] != "bitrate_kbps"@[0]);
    assert("profile"@[0] != "applied"@[0]);
}

/// The members that say what the attention state is are those of `s`.
spec fn says_state(j: Json, s: EncoderState) -> bool {
    &&& j is Obj
    &&& json::leaf_at(j, "profile"@) == Some(Leaf::Text(profile::wire_name(s.profile)))
    &&& json::leaf_at(j, "ceiling_kbps"@) == Some(json::optional_count_leaf(s.ceiling_kbps))
    &&& json::leaf_at(j, "width"@) == Some(json::count_leaf(s.width))
    &&& json::leaf_at(j, "height"@) == Some(json::count_leaf(s.height))
    &&& json::leaf_at(j, "fps"@) == Some(json::count_leaf(s.fps))
    &&& json::leaf_at(j, "bitrate_kbps"@) == Some(json::count_leaf(s.bitrate_kbps))
}

proof fn lemma_state_is_read(j: Json, s: EncoderState)
    requires
        says_state(j, s),
    ensures
        state_in(j) == Some(s),
{
    profile::law_wire_names_read_back(s.profile);
}

/// A published attention state reads back as itself.
pub proof fn law_a_state_reads_back(j: Json, s: EncoderState)
    requires
        json::is_object(j, state_entries(s)),
    ensures
        state_in(j) == Some(s),
{
    lemma_keys_differ();
    let all = state_entries(s);
    reveal_with_fuel(json::entry, 7);
    json::lemma_members_are_entries(j, all, "profile"@);
    json::lemma_members_are_entries(j, all, "ceiling_kbps"@);
    json::lemma_members_are_entries(j, all, "width"@);
    json::lemma_members_are_entries(j, all, "height"@);
    json::lemma_members_are_entries(j, all, "fps"@);
    json::lemma_members_are_entries(j, all, "bitrate_kbps"@);
    lemma_state_is_read(j, s);
}

/// A client reads the state out of a reply that the server put into it.
pub proof fn law_a_reply_reads_back(j: Json, s: EncoderState, restarted: bool, applied: bool)
    requires
        json::is_object(j, reply_entries(Reply::State { state: s, restarted, applied })),
    ensures
        ipc::rejection_of(j) is None,
        state_in(j) == Some(s),
{
    lemma_keys_differ();
    let all = reply_entries(Reply::State { state: s, restarted, applied });
    reveal_with_fuel(json::entry, 10);
    assert(all[0] == ("ok"@, Leaf::Bool(true)));
    assert(all[1] == state_entries(s)[0]);
    assert(all[2] == state_entries(s)[1]);
    assert(all[3] == state_entries(s)[2]);
    assert(all[4] == state_entries(s)[3]);
    assert(all[5] == state_entries(s)[4]);
    assert(all[6] == state_entries(s)[5]);
    json::lemma_members_are_entries(j, all, "ok"@);
    json::lemma_members_are_entries(j, all, "profile"@);
    json::lemma_members_are_entries(j, all, "ceiling_kbps"@);
    json::lemma_members_are_entries(j, all, "width"@);
    json::lemma_members_are_entries(j, all, "height"@);
    json::lemma_members_are_entries(j, all, "fps"@);
    json::lemma_members_are_entries(j, all, "bitrate_kbps"@);
    lemma_state_is_read(j, s);
}

/// A client reads a refusal as one, with its code and its words.
pub proof fn law_a_refusal_reads_back(j: Json, refusal: Refusal)
    requires
        json::is_object(j, reply_entries(Reply::Refused(refusal))),
    ensures
        ipc::rejection_of(j) == Some(
            match refusal {
                Refusal::Arguments(detail) => "encoder command rejected: "@ + "E_ARGS"@ + " "@
                    + detail@,
                Refusal::UnknownOp(_) => "encoder command rejected: "@ + "E_UNKNOWN_OP"@ + " "@
                    + Seq::<char>::empty(),
            },
        ),
{
    lemma_keys_differ();
    let all = reply_entries(Reply::Refused(refusal));
    reveal_with_fuel(json::entry, 4);
    json::lemma_members_are_entries(j, all, "ok"@);
    json::lemma_members_are_entries(j, all, "error"@);
    json::lemma_members_are_entries(j, all, "detail"@);
}

/// The server takes a request for what the client meant by it. (A ceiling of
/// zero is no ceiling, and is refused.)
pub proof fn law_a_request_reads_back(j: Json, meant: Request, taken: Request)
    requires
        request_entries(meant) is Some,
        json::is_object(j, request_entries(meant)->0),
        meant != Request::SetCeiling(Some(0)),
        taken.asks(j),
    ensures
        taken == meant,
{
    lemma_keys_differ();
    let all = request_entries(meant)->0;
    reveal_with_fuel(json::entry, 3);
    json::lemma_members_are_entries(j, all, "op"@);
    json::lemma_members_are_entries(j, all, "profile"@);
    json::lemma_members_are_entries(j, all, "bitrate_kbps"@);
    reveal_strlit("video.encoder.get");
    reveal_strlit("video.encoder.profile.set");
    reveal_strlit("video.encoder.ceiling.set");
    assert("video.encoder.get"@.len() == 17);
    assert("video.encoder.profile.set"@.len() == 25);
    assert("video.encoder.profile.set"@[14] != "video.encoder.ceiling.set"@[14]);
    if let Request::SetProfile(p) = meant {
        profile::law_wire_names_read_back(p);
    }
}

/// The published camera state has every member under its key, and a member of
/// which nothing is known as `null`.
pub proof fn law_the_camera_state_has_its_members(s: CameraStateSnapshot, updated_at: Number)
    ensures
        ({
            let e = camera_state_entries(s, updated_at);
            let text = |o: Option<String>|
                match o {
                    Some(t) => Leaf::Text(t@),
                    None => Leaf::Null,
                };
            &&& e.len() == 10
            &&& e[0] == ("version"@, Leaf::Num(Number::Unsigned(s.version as u64)))
            &&& e[1] == ("state"@, Leaf::Text(camera_state::state_name(s.state)))
            &&& e[2] == ("primary_path"@, text(s.primary_path))
            &&& e[3] == ("primary_name"@, text(s.primary_name))
            &&& e[4] == ("total_cameras"@, Leaf::Num(Number::Unsigned(s.total_cameras as u64)))
            &&& e[5] == (
                "pipeline_state"@,
                Leaf::Text(camera_state::outcome_name(s.pipeline_state)),
            )
            &&& e[6] == ("pipeline_reason"@, text(s.pipeline_reason))
            &&& e[7] == ("encoder"@, text(s.encoder))
            &&& s.encoder_hw is None ==> e[8] == ("encoder_hw"@, Leaf::Null)
            &&& s.encoder_hw is Some ==> e[8] == ("encoder_hw"@, Leaf::Bool(s.encoder_hw->0))
            &&& e[9] == ("updated_at_unix"@, Leaf::Num(updated_at))
        }),
{
}

/// A reply says whether the encoder was restarted and whether the request is in
/// force, behind the state.
pub proof fn law_a_reply_says_what_was_done(s: EncoderState, restarted: bool, applied: bool)
    ensures
        ({
            let e = reply_entries(Reply::State { state: s, restarted, applied });
            &&& e.len() == 9
            &&& e[0] == ("ok"@, Leaf::Bool(true))
            &&& e.subrange(1, 7) == state_entries(s)
            &&& e[7] == ("restarted"@, Leaf::Bool(restarted))
            &&& e[8] == ("applied"@, Leaf::Bool(applied))
        }),
{
    let e = reply_entries(Reply::State { state: s, restarted, applied });
    assert(e.subrange(1, 7) =~= state_entries(s));
}

/// The attention state is published under these keys, in this order.
pub proof fn law_the_keys_of_the_attention_state(s: EncoderState)
    ensures
        state_entries(s).len() == 6,
        state_entries(s)[0] == ("profile"@, Leaf::Text(profile::wire_name(s.profile))),
        s.ceiling_kbps is None ==> state_entries(s)[1] == ("ceiling_kbps"@, Leaf::Null),
        s.ceiling_kbps is Some ==> state_entries(s)[1] == (
            "ceiling_kbps"@,
            Leaf::Num(Number::Unsigned(s.ceiling_kbps->0 as u64)),
        ),
        state_entries(s)[2] == ("width"@, Leaf::Num(Number::Unsigned(s.width as u64))),
        state_entries(s)[3] == ("height"@, Leaf::Num(Number::Unsigned(s.height as u64))),
        state_entries(s)[4] == ("fps"@, Leaf::Num(Number::Unsigned(s.fps as u64))),
        state_entries(s)[5] == ("bitrate_kbps"@, Leaf::Num(Number::Unsigned(s.bitrate_kbps as u64))),
{
}

/// A state is read only where every part is there and is what it has to be; an
/// absent ceiling is none.
pub proof fn law_a_state_needs_its_parts(j: Json)
    ensures
        state_in(j) is Some ==> profile_in(part(j, "profile"@, 0)) is Some && count_in(
            part(j, "width"@, 2),
        ) is Some && count_in(part(j, "height"@, 3)) is Some && count_in(part(j, "fps"@, 4)) is Some
            && count_in(part(j, "bitrate_kbps"@, 5)) is Some,
        state_in(j) matches Some(s) ==> Some(s.width) == count_in(part(j, "width"@, 2)) && Some(
            s.height,
        ) == count_in(part(j, "height"@, 3)) && Some(s.fps) == count_in(part(j, "fps"@, 4)) && Some(
            s.bitrate_kbps,
        ) == count_in(part(j, "bitrate_kbps"@, 5)) && Some(s.profile) == profile_in(
            part(j, "profile"@, 0),
        ),
        ceiling_in(None) == Some(None::<u32>),
        ceiling_in(Some(Json::Null)) == Some(None::<u32>),
        j is Null || j is Bool || j is Num || j is Str ==> state_in(j) is None,
{
}

/// A count is a number of 32 bits without a sign or a fraction.
pub proof fn law_what_a_count_is(n: u64, i: i64, bits: u64)
    ensures
        n <= 0xffff_ffff ==> count_in(Some(Json::Num(Number::Unsigned(n)))) == Some(n as u32),
        n > 0xffff_ffff ==> count_in(Some(Json::Num(Number::Unsigned(n)))) is None,
        count_in(Some(Json::Num(Number::Negative(i)))) is None,
        count_in(Some(Json::Num(Number::Real(bits)))) is None,
        count_in(None) is None,
{
}

/// A profile is named by a text, or by an object whose one member has its name
/// and no value; nothing else names one.
pub proof fn law_how_a_profile_is_named(s: String, m: Vec<(String, Json)>, b: bool, n: Number)
    ensures
        profile_in(Some(Json::Str(s))) == profile::profile_named(s@),
        m@.len() == 1 && m@[0].1 == Json::Null ==> profile_in(Some(Json::Obj(m)))
            == profile::profile_named(m@[0].0@),
        m@.len() != 1 ==> profile_in(Some(Json::Obj(m))) is None,
        m@.len() == 1 && m@[0].1 != Json::Null ==> profile_in(Some(Json::Obj(m))) is None,
        profile_in(None) is None,
        profile_in(Some(Json::Null)) is None,
        profile_in(Some(Json::Bool(b))) is None,
        profile_in(Some(Json::Num(n))) is None,
{
}

/// A state has its parts by name, or by place in a list of six.
pub proof fn law_where_the_parts_of_a_state_are(
    j: Json,
    v: Vec<Json>,
    key: Seq<char>,
    i: int,
)
    ensures
        j is Obj ==> part(j, key, i) == json::field(j, key),
        v@.len() == 6 ==> part(Json::Arr(v), key, i) == Some(v@[i]),
        v@.len() != 6 ==> part(Json::Arr(v), key, i) is None,
        !(j is Obj) && !(j is Arr) ==> part(j, key, i) is None,
{
}

} // verus!
