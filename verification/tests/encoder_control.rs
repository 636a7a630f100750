//! Encoder profiles, the control shared with the applier, and the requests
//! that drive it.
use ados_media::config::CameraConfig;
use ados_media::ipc::{
    execute, read_request, refusal_code, rejection, settle, Refusal, Reply, Request, Step,
};
use ados_media::json::parse;
use ados_media::profile::{
    apply_settings_to, base_settings, boot_profile, resolve, EncoderControl, EncoderSettings,
    EncoderState, VideoProfile,
};

fn cfg() -> CameraConfig {
    CameraConfig::default()
}

fn control() -> EncoderControl {
    EncoderControl::new(VideoProfile::Thumbnail, cfg().thumbnail)
}

/// Confirm whatever is desired, as the applier does after a restart.
fn apply(ctl: &mut EncoderControl) {
    let d = ctl.desired();
    let s = ctl.desired_settings(&cfg());
    ctl.note_applied(
        EncoderState::new(d.profile, d.ceiling_kbps, s),
        d.generation,
        true,
    );
}

/// Handle a request with an applier that acknowledges at once.
fn dispatch(body: &[u8], ctl: &mut EncoderControl) -> Reply {
    match execute(read_request(body), ctl) {
        Step::Answer(reply) => reply,
        Step::Await(generation) => {
            apply(ctl);
            settle(ctl, generation)
        }
    }
}

fn state_of(reply: Reply) -> EncoderState {
    match reply {
        Reply::State { state, applied, .. } => {
            assert!(applied);
            state
        }
        other => panic!("{other:?}"),
    }
}

#[test]
fn hero_is_the_existing_camera_defaults_and_thumbnail_is_the_small_profile() {
    let c = cfg();
    assert_eq!(
        base_settings(VideoProfile::Hero, &c),
        EncoderSettings {
            width: 1280,
            height: 720,
            fps: 30,
            bitrate_kbps: 4000
        }
    );
    assert_eq!(
        base_settings(VideoProfile::Thumbnail, &c),
        EncoderSettings {
            width: 320,
            height: 180,
            fps: 1,
            bitrate_kbps: 50
        }
    );
}

#[test]
fn a_wfb_node_boots_thumbnail_and_an_off_channel_node_boots_hero() {
    assert_eq!(boot_profile("wfb"), VideoProfile::Thumbnail);
    assert_eq!(boot_profile("cloud"), VideoProfile::Hero);
    assert_eq!(boot_profile("disabled"), VideoProfile::Hero);
}

#[test]
fn the_ceiling_only_ever_reduces_the_bitrate() {
    let c = cfg();
    assert_eq!(
        resolve(VideoProfile::Hero, Some(1200), &c).bitrate_kbps,
        1200
    );
    assert_eq!(
        resolve(VideoProfile::Thumbnail, Some(1200), &c).bitrate_kbps,
        50
    );
    assert_eq!(
        resolve(VideoProfile::Hero, Some(9000), &c).bitrate_kbps,
        4000
    );
    assert_eq!(resolve(VideoProfile::Hero, None, &c).bitrate_kbps, 4000);
}

#[test]
fn the_ceiling_never_touches_geometry_or_frame_rate() {
    let c = cfg();
    let clamped = resolve(VideoProfile::Hero, Some(200), &c);
    assert_eq!(
        (clamped.width, clamped.height, clamped.fps),
        (1280, 720, 30)
    );
}

#[test]
fn profile_wire_strings_round_trip_and_reject_typos() {
    for p in [VideoProfile::Hero, VideoProfile::Thumbnail] {
        assert_eq!(VideoProfile::parse(p.as_str()), Some(p));
    }
    assert_eq!(VideoProfile::parse("Hero"), None);
    assert_eq!(VideoProfile::parse("thumb"), None);
    assert_eq!(VideoProfile::parse(""), None);
}

#[test]
fn the_two_setters_compose_without_clobbering_each_other() {
    let mut ctl = EncoderControl::new(VideoProfile::Thumbnail, cfg().thumbnail);
    let g1 = ctl.request_ceiling(Some(1200));
    let g2 = ctl.request_profile(VideoProfile::Hero);
    assert!(g2 > g1);
    let d = ctl.desired();
    assert_eq!(d.profile, VideoProfile::Hero);
    assert_eq!(d.ceiling_kbps, Some(1200));
    assert_eq!(
        resolve(d.profile, d.ceiling_kbps, &cfg()).bitrate_kbps,
        1200
    );
}

#[test]
fn a_waiter_unblocks_only_once_its_own_generation_is_applied() {
    let mut ctl = control();
    let g = ctl.request_profile(VideoProfile::Hero);
    assert!(ctl.acknowledged(g).is_none());
    let hero = base_settings(VideoProfile::Hero, &cfg());
    ctl.note_applied(EncoderState::new(VideoProfile::Hero, None, hero), g, true);
    let applied = ctl.acknowledged(g).unwrap();
    assert_eq!(applied.state.profile, VideoProfile::Hero);
    assert_eq!(applied.state.bitrate_kbps, 4000);
    assert!(applied.restarted);
    assert!(ctl.acknowledged(g + 1).is_none());
}

#[test]
fn a_profile_set_answers_with_the_settings_the_applier_confirmed() {
    let mut ctl = control();
    let st = state_of(dispatch(
        br#"{"op":"video.encoder.profile.set","profile":"hero"}"#,
        &mut ctl,
    ));
    assert_eq!(st.profile, VideoProfile::Hero);
    assert_eq!(st.width, 1280);
    assert_eq!(st.height, 720);
    assert_eq!(st.fps, 30);
    assert_eq!(st.bitrate_kbps, 4000);
}

#[test]
fn a_ceiling_set_clamps_the_active_profile_and_null_clears_it() {
    let mut ctl = control();
    dispatch(
        br#"{"op":"video.encoder.profile.set","profile":"hero"}"#,
        &mut ctl,
    );
    let clamped = state_of(dispatch(
        br#"{"op":"video.encoder.ceiling.set","bitrate_kbps":1200}"#,
        &mut ctl,
    ));
    assert_eq!(clamped.bitrate_kbps, 1200);
    assert_eq!(clamped.ceiling_kbps, Some(1200));
    assert_eq!(clamped.width, 1280);
    let cleared = state_of(dispatch(br#"{"op":"video.encoder.ceiling.set"}"#, &mut ctl));
    assert_eq!(cleared.bitrate_kbps, 4000);
    assert!(cleared.ceiling_kbps.is_none());
    let null = br#"{"op":"video.encoder.ceiling.set","bitrate_kbps":null}"#;
    assert_eq!(read_request(null), Request::SetCeiling(None));
}

#[test]
fn an_unconfirmed_set_reports_applied_false_instead_of_claiming_success() {
    let mut ctl = control();
    let generation = ctl.request_profile(VideoProfile::Hero);
    match settle(&ctl, generation) {
        Reply::State { state, restarted, applied } => {
            assert!(!applied);
            assert!(!restarted);
            assert_eq!(state.profile, VideoProfile::Thumbnail);
        }
        other => panic!("{other:?}"),
    }
}

#[test]
fn bad_requests_are_rejected_without_touching_the_encoder() {
    let mut ctl = control();
    let before = ctl.desired();
    for body in [
        br#"{"op":"video.encoder.profile.set","profile":"Hero"}"#.as_slice(),
        br#"{"op":"video.encoder.profile.set"}"#.as_slice(),
        br#"{"op":"video.encoder.ceiling.set","bitrate_kbps":-5}"#.as_slice(),
        br#"{"op":"video.encoder.ceiling.set","bitrate_kbps":0}"#.as_slice(),
        br#"{"op":"video.encoder.ceiling.set","bitrate_kbps":4294967296}"#.as_slice(),
        br#"{"op":"video.encoder.ceiling.set","bitrate_kbps":1.5}"#.as_slice(),
        br#"not json"#.as_slice(),
    ] {
        match dispatch(body, &mut ctl) {
            Reply::Refused(refusal) => assert_eq!(refusal_code(&refusal), "E_ARGS"),
            other => panic!("{} gave {other:?}", String::from_utf8_lossy(body)),
        }
    }
    match dispatch(br#"{"op":"video.encoder.nope"}"#, &mut ctl) {
        Reply::Refused(refusal) => {
            assert_eq!(refusal_code(&refusal), "E_UNKNOWN_OP");
            assert!(matches!(refusal, Refusal::UnknownOp(_)));
        }
        other => panic!("{other:?}"),
    }
    assert_eq!(ctl.desired(), before);
}

#[test]
fn a_read_answers_with_the_live_state_at_once() {
    let mut ctl = control();
    dispatch(
        br#"{"op":"video.encoder.profile.set","profile":"hero"}"#,
        &mut ctl,
    );
    let clamped = state_of(dispatch(
        br#"{"op":"video.encoder.ceiling.set","bitrate_kbps":900}"#,
        &mut ctl,
    ));
    assert_eq!(clamped.bitrate_kbps, 900);
    assert_eq!(clamped.ceiling_kbps, Some(900));
    let before = ctl;
    let read_back = state_of(dispatch(br#"{"op":"video.encoder.get"}"#, &mut ctl));
    assert_eq!(read_back, clamped);
    assert_eq!(ctl.desired(), before.desired());
    assert_eq!(
        read_back.settings(),
        EncoderSettings { width: 1280, height: 720, fps: 30, bitrate_kbps: 900 }
    );
}

#[test]
fn a_client_reads_rejections() {
    let reply = |text: &str| rejection(&parse(text.as_bytes()).unwrap());
    assert_eq!(reply(r#"{"ok":true}"#), None);
    assert_eq!(
        reply(r#"{"ok":false,"error":"E_ARGS","detail":"no"}"#).as_deref(),
        Some("encoder command rejected: E_ARGS no")
    );
    assert_eq!(
        reply("{}").as_deref(),
        Some("encoder command rejected: E_UNKNOWN ")
    );
}

#[test]
fn settings_are_applied_to_the_camera_block() {
    let mut c = cfg();
    apply_settings_to(
        &mut c,
        EncoderSettings { width: 1, height: 2, fps: 3, bitrate_kbps: 4 },
    );
    assert_eq!((c.width, c.height, c.fps, c.bitrate_kbps), (1, 2, 3, 4));
    assert_eq!(c.source, "csi");
    assert_eq!(c.thumbnail, cfg().thumbnail);
}
