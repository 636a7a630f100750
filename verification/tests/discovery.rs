//! Camera discovery and the camera-state snapshot.
use ados_media::camera_state::{
    CameraState, CameraStateSnapshot, PipelineOutcome, CAMERA_STATE_SIDECAR_VERSION,
};
use ados_media::discover::{
    discovery_candidates, parse_discovery_stdout, DiscoveredCamera, DiscoveryResult, Primary,
};
use ados_media::encoder::CameraType;
use ados_media::json::{as_items, as_str, as_u64, get, parse, Json};

const CANNED: &str = r#"{"cameras":[{"name":"CSI-0 (imx219)","type":"csi","device_path":"/dev/video0","width":3280,"height":2464,"capabilities":["h264","mjpeg"],"hardware_role":"camera"},{"name":"HD USB Camera","type":"usb","device_path":"/dev/video1","width":0,"height":0,"capabilities":["mjpeg","yuyv"],"hardware_role":"camera"}],"primary":{"device_path":"/dev/video0","name":"CSI-0 (imx219)"},"total_cameras":2}"#;

fn text(j: Option<&Json>, key: &str) -> Option<String> {
    as_str(get(j, key)).map(String::from)
}

fn number(j: Option<&Json>, key: &str) -> Option<u32> {
    as_u64(get(j, key)).map(|n| n as u32)
}

fn camera(j: &Json) -> Option<DiscoveredCamera> {
    let j = Some(j);
    Some(DiscoveredCamera {
        name: text(j, "name")?,
        camera_type: text(j, "type")?,
        device_path: text(j, "device_path")?,
        width: number(j, "width")?,
        height: number(j, "height")?,
        capabilities: as_items(get(j, "capabilities"))?
            .iter()
            .filter_map(|c| as_str(Some(c)).map(String::from))
            .collect(),
        hardware_role: text(j, "hardware_role")?,
    })
}

/// The result that one line holds.
fn result(line: &str) -> Option<DiscoveryResult> {
    let doc = parse(line.as_bytes()).ok()?;
    let j = Some(&doc);
    let primary = match get(j, "primary")? {
        Json::Null => None,
        p => Some(Primary {
            device_path: text(Some(p), "device_path")?,
            name: text(Some(p), "name")?,
        }),
    };
    Some(DiscoveryResult {
        cameras: as_items(get(j, "cameras"))?
            .iter()
            .map(camera)
            .collect::<Option<Vec<_>>>()?,
        primary,
        total_cameras: number(j, "total_cameras")?,
    })
}

fn read(stdout: &str) -> Option<DiscoveryResult> {
    parse_discovery_stdout(stdout, result)
}

#[test]
fn parses_canned_discovery_json() {
    let r = read(CANNED).expect("parses");
    assert_eq!(r.cameras.len(), 2);
    assert_eq!(r.total_cameras, 2);
    let primary = r.primary.as_ref().unwrap();
    assert_eq!(primary.device_path, "/dev/video0");
    assert_eq!(primary.name, "CSI-0 (imx219)");
    assert_eq!(r.cameras[0].camera_type, "csi");
    assert_eq!(r.cameras[0].capabilities, vec!["h264", "mjpeg"]);
}

#[test]
fn camera_type_mapping() {
    let csi = DiscoveredCamera {
        name: "c".into(),
        camera_type: "csi".into(),
        device_path: "/dev/video0".into(),
        width: 0,
        height: 0,
        capabilities: vec![],
        hardware_role: "camera".into(),
    };
    assert_eq!(csi.camera_type_enum(), CameraType::Csi);

    let usb = DiscoveredCamera {
        camera_type: "usb".into(),
        ..csi.clone()
    };
    assert_eq!(usb.camera_type_enum(), CameraType::Usb);

    let ip = DiscoveredCamera {
        camera_type: "ip".into(),
        ..csi.clone()
    };
    assert_eq!(ip.camera_type_enum(), CameraType::Ip);

    let unknown = DiscoveredCamera {
        camera_type: "thunderbolt".into(),
        ..csi.clone()
    };
    assert_eq!(unknown.camera_type_enum(), CameraType::Usb);
}

#[test]
fn primary_camera_info_resolves_capabilities() {
    let r = read(CANNED).unwrap();
    let info = r.primary_camera_info().expect("primary present");
    assert_eq!(info.camera_type, CameraType::Csi);
    assert_eq!(info.device_path, "/dev/video0");
    assert_eq!(info.capabilities, vec!["h264", "mjpeg"]);
}

#[test]
fn camera_state_snapshot_ready_when_primary_present() {
    let r = read(CANNED).unwrap();
    let s = r.camera_state_snapshot();
    assert_eq!(s.state, CameraState::Ready);
    assert_eq!(s.primary_path.as_deref(), Some("/dev/video0"));
    assert_eq!(s.total_cameras, 2);
}

#[test]
fn empty_and_no_primary_json() {
    let empty = read(r#"{"cameras":[],"primary":null,"total_cameras":0}"#).expect("parses");
    assert!(empty.cameras.is_empty());
    assert!(empty.primary.is_none());
    assert_eq!(empty.total_cameras, 0);
    assert!(empty.primary_camera_info().is_none());
    assert_eq!(empty.camera_state_snapshot().state, CameraState::Missing);

    let no_primary = read(
        r#"{"cameras":[{"name":"x","type":"usb","device_path":"/dev/video9","width":0,"height":0,"capabilities":[],"hardware_role":"camera"}],"primary":null,"total_cameras":1}"#,
    )
    .unwrap();
    assert!(no_primary.primary.is_none());
    assert!(no_primary.primary_camera_info().is_none());
}

#[test]
fn last_json_line_wins_over_leaked_log_lines() {
    let mixed = format!("2026-05-29 [info] camera_discovery_complete total=2\n{CANNED}\n");
    let r = read(&mixed).expect("finds the json line");
    assert_eq!(r.total_cameras, 2);
}

#[test]
fn no_json_returns_none() {
    assert!(read("").is_none());
    assert!(read("not json at all\nmore noise").is_none());
}

#[test]
fn candidates_are_the_trimmed_lines_from_the_last() {
    assert_eq!(
        discovery_candidates(" a \r\n\n  \nb\nc"),
        vec!["c".to_string(), "b".into(), "a".into()]
    );
    assert!(discovery_candidates("\n \n").is_empty());
}

#[test]
fn a_network_source_is_its_own_camera() {
    let r = DiscoveryResult::for_network_source("rtsp://cam/1");
    assert_eq!(r.total_cameras, 1);
    let info = r.primary_camera_info().unwrap();
    assert_eq!(info.camera_type, CameraType::Ip);
    assert_eq!(info.device_path, "rtsp://cam/1");
    assert_eq!(r.camera_state_snapshot().state, CameraState::Ready);
    assert_eq!(DiscoveryResult::empty().total_cameras, 0);
    assert_eq!(
        DiscoveryResult::empty().camera_state_snapshot().state,
        CameraState::Missing
    );
}

// --- the snapshot ------------------------------------------------------------

#[test]
fn ready_gate_requires_a_primary_and_a_live_camera() {
    let s = CameraStateSnapshot::from_discovery(
        Some((Some("/dev/video0".into()), Some("HZ USB Camera".into()))),
        1,
    );
    assert_eq!(s.state, CameraState::Ready);
    assert_eq!(s.primary_path.as_deref(), Some("/dev/video0"));
    assert_eq!(s.total_cameras, 1);

    let s = CameraStateSnapshot::from_discovery(
        Some((Some("/dev/video0".into()), Some("ghost".into()))),
        0,
    );
    assert_eq!(s.state, CameraState::Missing);
    assert!(s.primary_path.is_none());
    assert!(s.primary_name.is_none());

    let s = CameraStateSnapshot::from_discovery(None, 2);
    assert_eq!(s.state, CameraState::Missing);
}

#[test]
fn encoder_hw_is_absent_whenever_the_encoder_identity_is() {
    let s = CameraStateSnapshot::from_discovery(Some((Some("/dev/video0".into()), None)), 1)
        .with_pipeline(
            PipelineOutcome::Error,
            Some("boom".into()),
            None,
            Some(true),
        );
    assert!(s.encoder.is_none());
    assert!(s.encoder_hw.is_none());

    let s = CameraStateSnapshot::from_discovery(Some((Some("/dev/video0".into()), None)), 1)
        .with_pipeline(
            PipelineOutcome::Streaming,
            None,
            Some("ffmpeg-libx264".into()),
            Some(false),
        );
    assert_eq!(s.pipeline_state.as_str(), "streaming");
    assert_eq!(s.encoder.as_deref(), Some("ffmpeg-libx264"));
    assert_eq!(s.encoder_hw, Some(false));
}

#[test]
fn the_states_have_their_names() {
    assert_eq!(CameraState::Ready.as_str(), "ready");
    assert_eq!(CameraState::Missing.as_str(), "missing");
    assert_eq!(CameraState::Error.as_str(), "error");
    assert_eq!(PipelineOutcome::Unknown.as_str(), "unknown");
    assert_eq!(PipelineOutcome::Starting.as_str(), "starting");
    assert_eq!(PipelineOutcome::Error.as_str(), "error");
    assert_eq!(PipelineOutcome::Stopped.as_str(), "stopped");
}

#[test]
fn a_failed_discovery_names_no_camera() {
    let s = CameraStateSnapshot::error(3);
    assert_eq!(s.version, CAMERA_STATE_SIDECAR_VERSION);
    assert_eq!(s.state, CameraState::Error);
    assert_eq!(s.total_cameras, 3);
    assert!(s.primary_path.is_none() && s.primary_name.is_none());
}
