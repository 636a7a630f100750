//! Camera, leg and agent settings.
use ados_media::config::{
    stream_url, AgentVideoConfig, CameraConfig, CameraLeg, CameraProfile, VisionTapConfig,
    WfbVideoConfig,
};

/// A leg with everything but its id, source, role and codec at the default.
fn leg(id: &str, source: &str, role: Option<&str>, codec: &str) -> CameraLeg {
    CameraLeg {
        id: id.into(),
        source: source.into(),
        role: role.map(String::from),
        codec: codec.into(),
        width: 1280,
        height: 720,
        fps: 30,
        bitrate_kbps: 4000,
    }
}

fn with_cameras(cameras: Vec<CameraLeg>) -> AgentVideoConfig {
    AgentVideoConfig {
        cameras,
        ..AgentVideoConfig::default()
    }
}

#[test]
fn defaults_match_python() {
    let c = CameraConfig::default();
    assert_eq!(c.source, "csi");
    assert_eq!(c.codec, "h264");
    assert_eq!(c.width, 1280);
    assert_eq!(c.height, 720);
    assert_eq!(c.fps, 30);
    assert_eq!(c.bitrate_kbps, 4000);
    assert_eq!(c.codec_preference, "auto");
}

#[test]
fn network_source_detects_rtsp_and_http() {
    let mut c = CameraConfig::default();
    assert_eq!(c.network_source(), None);
    for hint in ["csi", "usb", "ip", "/dev/video0"] {
        c.source = hint.to_string();
        assert_eq!(c.network_source(), None, "{hint} is not a network source");
    }
    c.source = "rtsp://10.0.0.9:554/live".to_string();
    assert_eq!(c.network_source(), Some("rtsp://10.0.0.9:554/live"));
    c.source = "http://cam.local:8080/stream".to_string();
    assert_eq!(c.network_source(), Some("http://cam.local:8080/stream"));
    c.source = "  rtsp://host/main  ".to_string();
    assert_eq!(c.network_source(), Some("rtsp://host/main"));
}

#[test]
fn agent_video_defaults_on_missing_file() {
    let c = AgentVideoConfig::default();
    assert_eq!(c.mode, "wfb");
    assert!(c.profile.is_none());
    assert!(c.cloud_relay_url.is_none());
    assert_eq!(c.cloud_rtp_port, 8000);
    assert!(!c.wfb.sei_latency);
    assert!(!c.is_ground_station());
    assert!(!c.is_disabled());
    assert!(!c.cloud_enabled());
    assert!(!c.vision.enabled);
    assert_eq!(c.vision.fps, 10);
    assert_eq!(c.vision.width, 640);
    assert_eq!(c.vision.height, 480);
    assert_eq!(c.vision.format, "rgb24");
    assert!(!c.vision.raw_tap);
    assert_eq!(c.vision.sink, "/run/ados/vision-tap-main.sock");
}

#[test]
fn vision_tap_loads_full_block() {
    let video = AgentVideoConfig {
        vision: VisionTapConfig {
            enabled: true,
            fps: 5,
            width: 1280,
            height: 720,
            format: "nv12".into(),
            raw_tap: true,
            sink: "/run/ados/custom.sock".into(),
        },
        ..AgentVideoConfig::default()
    };
    let c = AgentVideoConfig::from_sections(None, video);
    assert!(c.vision.enabled);
    assert_eq!(c.vision.fps, 5);
    assert_eq!(c.vision.width, 1280);
    assert_eq!(c.vision.height, 720);
    assert_eq!(c.vision.format, "nv12");
    assert!(c.vision.raw_tap);
    assert_eq!(c.vision.sink, "/run/ados/custom.sock");
    assert_eq!(c.vision.pixel_format(), "nv12");
}

#[test]
fn vision_tap_partial_block_fills_defaults() {
    let video = AgentVideoConfig {
        vision: VisionTapConfig {
            enabled: true,
            ..VisionTapConfig::default()
        },
        ..AgentVideoConfig::default()
    };
    let c = AgentVideoConfig::from_sections(None, video);
    assert!(c.vision.enabled);
    assert_eq!(c.vision.fps, 10);
    assert_eq!(c.vision.width, 640);
    assert_eq!(c.vision.height, 480);
    assert_eq!(c.vision.format, "rgb24");
    assert!(!c.vision.raw_tap);
    assert_eq!(c.vision.sink, "/run/ados/vision-tap-main.sock");
}

#[test]
fn vision_pixel_format_falls_back_on_garbage() {
    let mut v = VisionTapConfig::default();
    assert_eq!(v.pixel_format(), "rgb24");
    v.format = "yuv420p".to_string();
    assert_eq!(v.pixel_format(), "yuv420p");
    v.format = "bogus".to_string();
    assert_eq!(v.pixel_format(), "rgb24");
}

#[test]
fn agent_video_loads_extra_fields() {
    let video = AgentVideoConfig {
        mode: "cloud".into(),
        cloud_relay_url: Some("rtsp://relay.example.com:8554".into()),
        cloud_rtp_port: 8100,
        wfb: WfbVideoConfig { sei_latency: true },
        ..AgentVideoConfig::default()
    };
    let c = AgentVideoConfig::from_sections(Some("drone".into()), video);
    assert_eq!(c.mode, "cloud");
    assert_eq!(c.profile.as_deref(), Some("drone"));
    assert_eq!(
        c.cloud_relay_url.as_deref(),
        Some("rtsp://relay.example.com:8554")
    );
    assert_eq!(c.cloud_rtp_port, 8100);
    assert!(c.wfb.sei_latency);
    assert!(c.cloud_enabled());
    assert!(!c.is_disabled());
}

#[test]
fn agent_video_partial_config_fills_defaults() {
    let video = AgentVideoConfig {
        mode: "disabled".into(),
        ..AgentVideoConfig::default()
    };
    let c = AgentVideoConfig::from_sections(None, video);
    assert_eq!(c.mode, "disabled");
    assert!(c.is_disabled());
    assert_eq!(c.cloud_rtp_port, 8000);
    assert!(c.profile.is_none());
}

#[test]
fn agent_video_ground_station_gate() {
    let c = AgentVideoConfig::from_sections(
        Some("ground_station".into()),
        AgentVideoConfig::default(),
    );
    assert!(c.is_ground_station());
    let hyphen = AgentVideoConfig::from_sections(
        Some("ground-station".into()),
        AgentVideoConfig::default(),
    );
    assert!(hyphen.is_ground_station());
}

#[test]
fn agent_video_profile_override_precedence() {
    let video = AgentVideoConfig {
        profile: Some("ground_station".into()),
        ..AgentVideoConfig::default()
    };
    let c = AgentVideoConfig::from_sections(Some("drone".into()), video);
    assert!(c.is_ground_station());
}

#[test]
fn agent_video_empty_cloud_url_is_not_enabled() {
    let c = AgentVideoConfig {
        cloud_relay_url: Some("".into()),
        ..AgentVideoConfig::default()
    };
    assert!(!c.cloud_enabled());
}

#[test]
fn cameras_absent_synthesizes_single_main_leg() {
    let cfg = AgentVideoConfig::default();
    let cam = CameraConfig {
        source: "usb".to_string(),
        codec: "h265".to_string(),
        ..CameraConfig::default()
    };
    let legs = cfg.resolve_legs(&cam);
    assert_eq!(legs.len(), 1);
    let leg = &legs[0];
    assert_eq!(leg.id, "main");
    assert_eq!(leg.role, "primary");
    assert_eq!(leg.source, "usb");
    assert_eq!(leg.codec, "h265");
    assert!(leg.is_primary);
    assert!(!leg.is_network_pull);
}

#[test]
fn cameras_parse_multi_leg_and_resolve() {
    let cfg = with_cameras(vec![
        leg("eo-zoom", "rtsp://192.168.144.25:8554/main", Some("eo"), "h265"),
        leg("eo-wide", "rtsp://192.168.144.25:8554/sub", Some("eo_wide"), "h264"),
        leg("ir", "rtsp://192.168.144.25:8554/ir", Some("ir"), "h264"),
    ]);
    assert_eq!(cfg.cameras.len(), 3);
    let legs = cfg.resolve_legs(&CameraConfig::default());
    assert_eq!(legs.len(), 3);
    assert_eq!(legs[0].id, "main");
    assert!(legs[0].is_primary);
    assert!(!legs[0].is_network_pull);
    assert_eq!(legs[0].role, "eo");
    assert_eq!(legs[1].id, "eo-wide");
    assert!(!legs[1].is_primary);
    assert!(legs[1].is_network_pull);
    assert_eq!(legs[1].role, "eo_wide");
    assert!(legs[2].is_network_pull);
    assert_eq!(legs[2].codec, "h264");
}

#[test]
fn resolve_legs_honours_explicit_primary_role() {
    let cfg = with_cameras(vec![
        leg("ir", "rtsp://10.0.0.9/ir", Some("ir"), "h264"),
        leg("main-eo", "/dev/video0", Some("primary"), "h264"),
    ]);
    let legs = cfg.resolve_legs(&CameraConfig::default());
    let primary: Vec<_> = legs.iter().filter(|l| l.is_primary).collect();
    assert_eq!(primary.len(), 1);
    assert_eq!(primary[0].id, "main");
    assert!(!primary[0].is_network_pull);
    assert!(legs.iter().find(|l| l.id == "ir").unwrap().is_network_pull);
}

#[test]
fn resolve_legs_keeps_the_primary_declared_role_label() {
    let cfg = with_cameras(vec![
        leg("eo-zoom", "rtsp://192.168.144.25:8554/main", Some("eo"), "h264"),
        leg("sub", "rtsp://192.168.144.25:8554/sub", Some("ir"), "h264"),
    ]);
    let legs = cfg.resolve_legs(&CameraConfig::default());
    let primary = legs.iter().find(|l| l.is_primary).unwrap();
    assert_eq!(primary.id, "main");
    assert_eq!(primary.role, "eo");
}

#[test]
fn camera_leg_partial_fields_fill_defaults() {
    let cfg = with_cameras(vec![leg("solo", "/dev/video0", None, "h264")]);
    let leg = &cfg.cameras[0];
    assert_eq!(leg.codec, "h264");
    assert_eq!(leg.width, 1280);
    assert_eq!(leg.height, 720);
    assert_eq!(leg.fps, 30);
    assert_eq!(leg.bitrate_kbps, 4000);
    assert!(leg.role.is_none());
    let legs = cfg.resolve_legs(&CameraConfig::default());
    assert_eq!(legs.len(), 1);
    assert!(legs[0].is_primary);
    assert!(!legs[0].is_network_pull);
}

#[test]
fn resolved_leg_ownership_and_camera_config() {
    let belly = CameraLeg {
        width: 640,
        height: 480,
        fps: 15,
        ..leg("belly", "/dev/video1", Some("eo_wide"), "h265")
    };
    let cfg = with_cameras(vec![
        leg("main", "/dev/video0", Some("eo"), "h264"),
        belly,
        leg("ir", "rtsp://pod/ir", Some("ir"), "h264"),
    ]);
    let legs = cfg.resolve_legs(&CameraConfig::default());
    assert!(legs[0].is_owned_encoder());
    assert!(legs[1].is_owned_encoder());
    assert!(!legs[2].is_owned_encoder());
    let cam = legs[1].to_camera_config();
    assert_eq!(cam.source, "/dev/video1");
    assert_eq!(cam.codec, "h265");
    assert_eq!(cam.width, 640);
    assert_eq!(cam.fps, 15);
}

#[test]
fn one_primary_whatever_the_roles_say() {
    for roles in [
        [None, None, None],
        [Some("primary"), Some("primary"), None],
        [None, None, Some("primary")],
        [Some("Primary"), Some("ir"), None],
    ] {
        let cameras = roles
            .iter()
            .enumerate()
            .map(|(i, r)| leg(&format!("c{i}"), "/dev/video0", *r, "h264"))
            .collect();
        let legs = with_cameras(cameras).resolve_legs(&CameraConfig::default());
        assert_eq!(legs.iter().filter(|l| l.is_primary).count(), 1);
        for (i, l) in legs.iter().enumerate() {
            if !l.is_primary {
                assert_eq!(l.id, format!("c{i}"));
            }
        }
    }
}

#[test]
fn a_leg_without_role_is_named_by_its_place() {
    let legs = with_cameras(vec![
        leg("a", "/dev/video0", None, "h264"),
        leg("b", "/dev/video1", None, "h264"),
    ])
    .resolve_legs(&CameraConfig::default());
    assert_eq!(legs[0].role, "primary");
    assert_eq!(legs[1].role, "secondary");
    assert_eq!(legs[1].id, "b");
}

#[test]
fn stream_urls_are_known_by_their_scheme() {
    assert!(stream_url("rtsp://x"));
    assert!(stream_url("http://x"));
    assert!(!stream_url("https://x"));
    assert!(!stream_url("ftp://x"));
    assert!(!stream_url("RTSP://x"));
    assert!(!stream_url(""));
    assert_eq!(
        leg("a", " http://x/ ", None, "h264").network_source(),
        Some("http://x/")
    );
}

#[test]
fn the_thumbnail_is_small() {
    assert_eq!(
        CameraProfile::thumbnail(),
        CameraProfile { width: 320, height: 180, fps: 1, bitrate_kbps: 50 }
    );
    assert_eq!(CameraConfig::default().thumbnail, CameraProfile::thumbnail());
}
