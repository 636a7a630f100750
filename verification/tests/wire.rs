//! The JSON objects that are published and exchanged.
use ados_media::camera_state::{CameraState, CameraStateSnapshot, PipelineOutcome};
use ados_media::config::CameraConfig;
use ados_media::discover::{python_executable, DEFAULT_PYTHON};
use ados_media::ipc::{decide, read_request, Refusal, Reply, Request};
use ados_media::json::{as_bool, as_str, as_u64, get, parse, Json, Number};
use ados_media::profile::{base_settings, EncoderState, VideoProfile};
use ados_media::wire::{
    camera_state_json, encoder_state_json, read_encoder_state, read_reply, reply_json,
    request_json, started_json, stopped_json, Answer,
};
use serde_json::Value;

fn to_value(j: &Json) -> Value {
    match j {
        Json::Null => Value::Null,
        Json::Bool(b) => Value::from(*b),
        Json::Num(Number::Unsigned(n)) => Value::from(*n),
        Json::Num(Number::Negative(n)) => Value::from(*n),
        Json::Num(Number::Real(bits)) => Value::from(f64::from_bits(*bits)),
        Json::Str(s) => Value::from(s.as_str()),
        Json::Arr(items) => Value::Array(items.iter().map(to_value).collect()),
        Json::Obj(members) => Value::Object(
            members
                .iter()
                .map(|(k, v)| (k.clone(), to_value(v)))
                .collect(),
        ),
    }
}

fn bytes_of(j: &Json) -> Vec<u8> {
    serde_json::to_vec(&to_value(j)).unwrap()
}

fn keys(j: &Json) -> Vec<&str> {
    match j {
        Json::Obj(members) => members.iter().map(|(k, _)| k.as_str()).collect(),
        other => panic!("{other:?}"),
    }
}

#[test]
fn json_shape_matches_python_keys() {
    let s = CameraStateSnapshot::from_discovery(Some((Some("/dev/video0".into()), None)), 1);
    let v = camera_state_json(&s, Number::Real(1.5f64.to_bits()));
    for k in [
        "version",
        "state",
        "primary_path",
        "primary_name",
        "total_cameras",
        "pipeline_state",
        "pipeline_reason",
        "encoder",
        "encoder_hw",
        "updated_at_unix",
    ] {
        assert!(get(Some(&v), k).is_some(), "missing key {k}");
    }
    assert_eq!(keys(&v).len(), 10);
    assert_eq!(as_str(get(Some(&v), "state")), Some("ready"));
    assert_eq!(as_u64(get(Some(&v), "total_cameras")), Some(1));
    let value = to_value(&v);
    assert!(value["updated_at_unix"].as_f64().unwrap() > 0.0);
    assert_eq!(value["version"], 2);
    assert_eq!(value["primary_path"], "/dev/video0");
    assert!(value["primary_name"].is_null());
    assert_eq!(value["pipeline_state"], "unknown");
    assert_eq!(CameraState::Error.as_str(), "error");
}

#[test]
fn a_streaming_camera_state_names_its_encoder() {
    let s = CameraStateSnapshot::from_discovery(Some((Some("/dev/video0".into()), None)), 1)
        .with_pipeline(
            PipelineOutcome::Streaming,
            None,
            Some("ffmpeg-libx264".into()),
            Some(false),
        );
    let v = to_value(&camera_state_json(&s, Number::Unsigned(7)));
    assert_eq!(v["pipeline_state"], "streaming");
    assert_eq!(v["encoder"], "ffmpeg-libx264");
    assert_eq!(v["encoder_hw"], false);
    assert_eq!(v["updated_at_unix"], 7);
}

fn hero(ceiling_kbps: Option<u32>) -> EncoderState {
    EncoderState::new(
        VideoProfile::Hero,
        ceiling_kbps,
        base_settings(VideoProfile::Hero, &CameraConfig::default()),
    )
}

#[test]
fn the_sidecar_round_trips_and_always_carries_the_ceiling_field() {
    let st = hero(None);
    let j = encoder_state_json(&st);
    assert_eq!(
        keys(&j),
        vec!["profile", "ceiling_kbps", "width", "height", "fps", "bitrate_kbps"]
    );
    let raw = to_value(&j);
    assert_eq!(raw["profile"], "hero");
    assert!(raw.get("ceiling_kbps").is_some_and(Value::is_null));
    assert_eq!(read_encoder_state(&parse(&bytes_of(&j)).unwrap()), Some(st));
    let clamped = hero(Some(900));
    let j = encoder_state_json(&clamped);
    assert_eq!(read_encoder_state(&parse(&bytes_of(&j)).unwrap()), Some(clamped));
}

#[test]
fn an_absent_or_corrupt_sidecar_reads_as_none_not_a_panic() {
    assert!(parse(b"{not json").is_err());
    let read = |text: &str| read_encoder_state(&parse(text.as_bytes()).unwrap());
    assert!(read("null").is_none());
    assert!(read("{}").is_none());
    assert!(read(r#"{"profile":"Hero","width":1,"height":1,"fps":1,"bitrate_kbps":1}"#).is_none());
    assert!(read(r#"{"profile":"hero","width":-1,"height":1,"fps":1,"bitrate_kbps":1}"#).is_none());
    assert!(
        read(r#"{"profile":"hero","width":4294967296,"height":1,"fps":1,"bitrate_kbps":1}"#)
            .is_none()
    );
    assert!(read("[1,2]").is_none());
}

#[test]
fn states_are_read_leniently_where_their_meaning_is_plain() {
    let read = |text: &str| read_encoder_state(&parse(text.as_bytes()).unwrap());
    let wanted = EncoderState {
        profile: VideoProfile::Thumbnail,
        ceiling_kbps: None,
        width: 1,
        height: 2,
        fps: 3,
        bitrate_kbps: 4,
    };
    let bare = r#"{"profile":"thumbnail","width":1,"height":2,"fps":3,"bitrate_kbps":4,"x":0}"#;
    assert_eq!(read(bare), Some(wanted));
    assert_eq!(read(r#"["thumbnail",null,1,2,3,4]"#), Some(wanted));
    assert_eq!(
        read(r#"{"profile":{"thumbnail":null},"width":1,"height":2,"fps":3,"bitrate_kbps":4}"#),
        Some(wanted)
    );
}

#[test]
fn replies_and_requests_survive_the_wire() {
    let state = hero(Some(1200));
    let reply = Reply::State {
        state,
        restarted: true,
        applied: false,
    };
    let j = reply_json(&reply);
    assert_eq!(as_bool(get(Some(&j), "ok")), Some(true));
    assert_eq!(as_bool(get(Some(&j), "restarted")), Some(true));
    assert_eq!(as_bool(get(Some(&j), "applied")), Some(false));
    assert_eq!(read_reply(&parse(&bytes_of(&j)).unwrap()), Answer::Live(state));

    let refused = reply_json(&Reply::Refused(Refusal::Arguments("why".into())));
    assert_eq!(keys(&refused), vec!["ok", "error", "detail"]);
    assert_eq!(
        read_reply(&refused),
        Answer::Rejected("encoder command rejected: E_ARGS why".into())
    );
    let unknown = reply_json(&Reply::Refused(Refusal::UnknownOp("nope".into())));
    assert_eq!(as_str(get(Some(&unknown), "op")), Some("nope"));
    assert_eq!(
        read_reply(&unknown),
        Answer::Rejected("encoder command rejected: E_UNKNOWN_OP ".into())
    );
    assert_eq!(
        read_reply(&parse(br#"{"ok":true}"#).unwrap()),
        Answer::Malformed
    );

    for request in [
        Request::Get,
        Request::SetProfile(VideoProfile::Hero),
        Request::SetProfile(VideoProfile::Thumbnail),
        Request::SetCeiling(None),
        Request::SetCeiling(Some(1)),
        Request::SetCeiling(Some(u32::MAX)),
    ] {
        let j = request_json(&request).unwrap();
        assert_eq!(decide(&j), request);
        assert_eq!(read_request(&bytes_of(&j)), request);
    }
    let zero = request_json(&Request::SetCeiling(Some(0))).unwrap();
    assert!(matches!(decide(&zero), Request::Bad(_)));
    assert!(request_json(&Request::Bad(Refusal::UnknownOp("x".into()))).is_none());
}

#[test]
fn recordings_are_answered() {
    let started = to_value(&started_json("f.mp4", "t", "/r/f.mp4"));
    assert_eq!(started["filename"], "f.mp4");
    assert_eq!(started["started_at"], "t");
    assert_eq!(started["path"], "/r/f.mp4");
    let stopped = to_value(&stopped_json("f.mp4", "u", Number::Real(1.25f64.to_bits()), 4));
    assert_eq!(stopped["filename"], "f.mp4");
    assert_eq!(stopped["stopped_at"], "u");
    assert_eq!(stopped["duration_seconds"], 1.25);
    assert_eq!(stopped["size_bytes"], 4);
}

#[test]
fn the_interpreter_has_a_default() {
    assert_eq!(python_executable(None), DEFAULT_PYTHON);
    assert_eq!(python_executable(Some("".into())), DEFAULT_PYTHON);
    assert_eq!(python_executable(Some("py".into())), "py");
}
