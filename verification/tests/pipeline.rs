//! The pipeline: its supervision, its start and its parts.
use ados_media::camera_state::{CameraState, PipelineOutcome};
use ados_media::config::{AgentVideoConfig, CameraConfig, CameraLeg};
use ados_media::discover::{DiscoveredCamera, DiscoveryResult, Primary};
use ados_media::encoder::{CameraType, EncoderEnv, EncoderKind, HwEncoder};
use ados_media::health::{PipelineState, StartError, CIRCUIT_BREAKER_ATTEMPTS};
use ados_media::lifecycle::{AttentionStep, PartStart, StartAction, StartEvent, VideoOrchestrator};
use ados_media::orchestrator::{
    check_cloud_push_health, check_tap_health, Gates, Probe, Rate, RetryAction, TapProbe,
    TickAction, TickEvent, TickKind, Vitals,
};
use ados_media::profile::{EncoderControl, VideoProfile};
use ados_media::secondary::{
    secondary_camera_type, start_secondary_encoder, Backends, Secondaries, Slot,
    MAX_SECONDARY_RESPAWNS,
};
use ados_media::wfb_tee::{cmd_emits_wfb_rtp, rtp_destination_url, wfb_tee_progress_is_stale};

const SEC: u64 = 1_000_000_000;
const T0: u64 = 1_000 * SEC;

fn env() -> EncoderEnv {
    EncoderEnv {
        hw_h264: HwEncoder::Absent,
        has_mpph264enc: false,
        has_omxh264videoenc: false,
        has_rtspclientsink: false,
        encoder_api: "unknown".into(),
        pi5_class: false,
        python_executable: "python3".into(),
        cpu_threads: 4,
    }
}

fn orch(config: AgentVideoConfig) -> VideoOrchestrator {
    let camera = CameraConfig::default();
    let control = EncoderControl::new(VideoProfile::Thumbnail, camera.thumbnail);
    VideoOrchestrator::new(config, camera, control, env(), 8554, T0)
}

fn test_orch() -> VideoOrchestrator {
    orch(AgentVideoConfig::default())
}

fn cloud_orch() -> VideoOrchestrator {
    let cfg = AgentVideoConfig {
        cloud_relay_url: Some("rtsp://relay.example.com:8554".into()),
        ..AgentVideoConfig::default()
    };
    assert!(cfg.cloud_enabled());
    orch(cfg)
}

fn tap(running: Option<bool>) -> TapProbe {
    TapProbe {
        running,
        last_progress: T0,
        path_ready: true,
        now: T0,
    }
}

fn present_camera_discovery() -> DiscoveryResult {
    DiscoveryResult {
        cameras: vec![DiscoveredCamera {
            name: "HZ USB Camera".into(),
            camera_type: "usb".into(),
            device_path: "/dev/video0".into(),
            width: 1280,
            height: 720,
            capabilities: vec!["h264".into()],
            hardware_role: String::new(),
        }],
        primary: Some(Primary {
            device_path: "/dev/video0".into(),
            name: "HZ USB Camera".into(),
        }),
        total_cameras: 1,
    }
}

const ALL: Backends = Backends {
    rpicam: true,
    ffmpeg: true,
    gst_launch: true,
};

#[test]
fn vision_gate_off_by_default() {
    let o = test_orch();
    assert!(!o.vision_enabled());
    assert!(matches!(o.start_vision_tap(None), PartStart::Off));
}

#[test]
fn vision_gate_respects_ground_station_profile() {
    let mut cfg = AgentVideoConfig::default();
    cfg.vision.enabled = true;
    cfg.profile = Some("drone".into());
    assert!(orch(cfg.clone()).vision_enabled());
    cfg.profile = Some("ground_station".into());
    assert!(!orch(cfg).vision_enabled());
}

#[test]
fn vision_tap_health_true_when_not_started_and_not_running() {
    let o = test_orch();
    assert_ne!(o.state(), PipelineState::Running);
    assert!(check_tap_health(o.state(), tap(None)));
}

#[test]
fn vision_tap_health_unhealthy_when_none_but_running() {
    assert!(!check_tap_health(PipelineState::Running, tap(None)));
}

#[test]
fn vision_tap_health_unhealthy_after_exit() {
    assert!(!check_tap_health(PipelineState::Running, tap(Some(false))));
    assert!(check_tap_health(PipelineState::Running, tap(Some(true))));
    let silent = TapProbe {
        now: T0 + 15 * SEC + 1,
        ..tap(Some(true))
    };
    assert!(!check_tap_health(PipelineState::Running, silent));
}

#[test]
fn start_vision_tap_noop_when_disabled() {
    let mut o = test_orch();
    o.vitals.state = PipelineState::Running;
    assert!(matches!(o.start_vision_tap(None), PartStart::Off));
}

#[test]
fn cloud_push_health_none_unhealthy_when_enabled_and_running() {
    let o = cloud_orch();
    assert!(!check_cloud_push_health(
        PipelineState::Running,
        o.config.cloud_enabled(),
        None
    ));
}

#[test]
fn cloud_push_health_none_healthy_when_not_running() {
    let o = cloud_orch();
    assert!(check_cloud_push_health(
        PipelineState::Stopped,
        o.config.cloud_enabled(),
        None
    ));
}

#[test]
fn cloud_push_health_none_healthy_when_cloud_disabled() {
    let o = test_orch();
    assert!(!o.config.cloud_enabled());
    assert!(check_cloud_push_health(
        PipelineState::Running,
        o.config.cloud_enabled(),
        None
    ));
}

#[test]
fn tick_cloud_push_parks_without_blocking_on_breaker_trip() {
    let mut v = cloud_orch().vitals;
    v.state = PipelineState::Running;
    v.cloud_restart_count = CIRCUIT_BREAKER_ATTEMPTS - 1;
    assert_eq!(
        v.tick_cloud_push(true, Some(false), T0),
        TickAction::ParkCloud
    );
    let deadline = v.cloud_retry_after.expect("a park deadline was stamped");
    assert_eq!(deadline, T0 + 300 * SEC);
    assert_eq!(v.cloud_restart_count, 0);
}

#[test]
fn parked_cloud_deadline_suppresses_branch_so_wfb_runs() {
    let mut v = cloud_orch().vitals;
    v.cloud_retry_after = Some(T0 + 300 * SEC);
    assert!(!v.cloud_due(T0));
    v.cloud_retry_after = Some(T0 - SEC);
    assert!(v.cloud_due(T0));
}

#[test]
fn tick_cloud_push_clears_state_when_healthy() {
    let mut v = test_orch().vitals;
    v.state = PipelineState::Running;
    v.cloud_restart_count = 3;
    v.cloud_retry_after = Some(T0 + 10 * SEC);
    assert_eq!(v.tick_cloud_push(false, None, T0), TickAction::CheckTee);
    assert!(v.cloud_retry_after.is_none());
    assert_eq!(v.cloud_restart_count, 0);
}

#[test]
fn refresh_camera_state_writes_fresh_ready_snapshot_while_wedged() {
    let mut o = test_orch();
    o.last_cameras = present_camera_discovery();
    let s = o.refresh_camera_state();
    assert_eq!(s.state, CameraState::Ready);
    assert_eq!(s.primary_path.as_deref(), Some("/dev/video0"));
    assert_eq!(s.total_cameras, 1);
}

#[test]
fn emit_telemetry_emits_only_the_two_real_metrics() {
    let mut o = test_orch();
    o.vitals.state = PipelineState::Running;
    let t = o.emit_telemetry().unwrap();
    assert_eq!(t.metrics.len(), 2);
    assert_eq!(t.metrics[0].name, "video.encoder_bitrate_kbps");
    assert_eq!(t.metrics[0].value, 4000);
    assert_eq!(t.metrics[1].name, "video.framerate_hz");
    assert_eq!(t.metrics[1].value, 30);
    assert_eq!(t.profile, "drone");
    assert_eq!(t.stream, "main");
}

#[test]
fn emit_telemetry_silent_when_not_running() {
    let o = test_orch();
    assert_ne!(o.state(), PipelineState::Running);
    assert!(o.emit_telemetry().is_none());
}

#[test]
fn note_healthy_tick_sentinel_state_machine() {
    let mut v = test_orch().vitals;
    assert_eq!(v.last_healthy_at, None);
    v.restart_count = 3;
    v.note_healthy_tick(T0);
    assert!(v.last_healthy_at.is_some());
    assert_eq!(v.restart_count, 3);
    v.last_healthy_at = Some(T0 - 61 * SEC);
    v.note_healthy_tick(T0);
    assert_eq!(v.restart_count, 0);
    v.restart_count = 2;
    v.note_unhealthy_tick();
    assert_eq!(v.last_healthy_at, None);
    v.note_healthy_tick(T0);
    assert!(v.last_healthy_at.is_some());
    assert_eq!(v.restart_count, 2);
}

// --- ticks -------------------------------------------------------------------

fn probe(now: u64) -> Probe {
    Probe {
        encoder_alive: true,
        mediamtx_alive: true,
        path_ready: true,
        inbound: Some(1_000),
        now,
    }
}

const OFF: Gates = Gates {
    cloud_enabled: false,
    vision_supervised: false,
    sei_latency: false,
};

fn running() -> Vitals {
    Vitals {
        state: PipelineState::Running,
        first_packet_seen: true,
        ..Vitals::new(T0)
    }
}

#[test]
fn a_healthy_tick_goes_through_every_part() {
    let mut v = running();
    let g = Gates {
        cloud_enabled: true,
        vision_supervised: true,
        sei_latency: true,
    };
    assert_eq!(
        v.tick_running(g, TickEvent::Probed(probe(T0))),
        TickAction::CheckCloud
    );
    assert_eq!(
        v.tick_running(g, TickEvent::Cloud(Some(true), T0)),
        TickAction::CheckTee
    );
    assert_eq!(
        v.tick_running(g, TickEvent::Tee(tap(Some(true)))),
        TickAction::CheckVision
    );
    assert_eq!(
        v.tick_running(g, TickEvent::Vision(tap(Some(true)))),
        TickAction::CheckSei
    );
    assert_eq!(v.tick_running(g, TickEvent::Sei(None)), TickAction::StartSei);
    assert_eq!(v.tick_running(g, TickEvent::Sei(Some(true))), TickAction::Done);
    assert_eq!(
        v.tick_running(OFF, TickEvent::Tee(tap(Some(true)))),
        TickAction::Done
    );
}

#[test]
fn an_unhealthy_pipeline_is_restarted_then_parked() {
    let mut v = running();
    let dead = Probe {
        encoder_alive: false,
        ..probe(T0)
    };
    let mut sleeps = Vec::new();
    for _ in 1..CIRCUIT_BREAKER_ATTEMPTS {
        match v.tick_running(OFF, TickEvent::Probed(dead)) {
            TickAction::Restart { sleep } => sleeps.push(sleep / SEC),
            other => panic!("{other:?}"),
        }
        v.tick_running(OFF, TickEvent::Restarted(false));
    }
    assert_eq!(sleeps, vec![0, 5, 15, 35, 75, 155, 295, 295, 295]);
    assert_eq!(
        v.tick_running(OFF, TickEvent::Probed(dead)),
        TickAction::Park { sleep: 300 * SEC }
    );
    assert_eq!(v.state, PipelineState::Error);
    v.tick_running(OFF, TickEvent::Parked);
    assert_eq!(v.restart_count, 0);
}

#[test]
fn a_restart_that_works_clears_the_count() {
    let mut v = running();
    v.restart_count = 4;
    v.tick_running(OFF, TickEvent::Restarted(true));
    assert_eq!(v.restart_count, 0);
}

#[test]
fn a_parked_cloud_goes_straight_to_the_radio() {
    let mut v = running();
    v.cloud_retry_after = Some(T0 + SEC);
    assert_eq!(
        v.tick_running(OFF, TickEvent::Probed(probe(T0))),
        TickAction::CheckTee
    );
}

#[test]
fn the_cloud_is_put_off_by_a_deadline() {
    let mut v = running();
    let g = Gates {
        cloud_enabled: true,
        ..OFF
    };
    assert_eq!(
        v.tick_running(g, TickEvent::Cloud(None, T0)),
        TickAction::RearmCloud { delay: 5 * SEC }
    );
    assert_eq!(v.cloud_restart_count, 1);
    assert_eq!(
        v.tick_running(g, TickEvent::CloudRearmed(false, 5 * SEC, T0)),
        TickAction::CheckTee
    );
    assert_eq!(v.cloud_retry_after, Some(T0 + 5 * SEC));
    assert_eq!(
        v.tick_running(g, TickEvent::CloudRearmed(true, 5 * SEC, T0)),
        TickAction::CheckTee
    );
    assert_eq!(v.cloud_retry_after, None);
    assert_eq!(v.cloud_restart_count, 0);
    assert_eq!(v.tick_running(g, TickEvent::CloudReaped), TickAction::CheckTee);
}

#[test]
fn taps_wait_for_their_source_and_are_tried_for_ever() {
    let mut v = running();
    let no_source = TapProbe {
        path_ready: false,
        ..tap(None)
    };
    assert_eq!(v.tick_running(OFF, TickEvent::Tee(no_source)), TickAction::StopTee);
    assert_eq!(
        v.tick_running(OFF, TickEvent::Vision(no_source)),
        TickAction::StopVision
    );
    for n in 1..40 {
        assert_eq!(
            v.tick_running(OFF, TickEvent::Tee(tap(None))),
            TickAction::RestartTee { sleep: 0 }
        );
        assert_eq!(v.wfb_tee_restart_count, n);
        v.tick_running(OFF, TickEvent::TeeRestarted(false));
    }
    v.tick_running(OFF, TickEvent::TeeRestarted(true));
    assert_eq!(v.wfb_tee_restart_count, 0);
    let radio = v.wfb_tee_restart_count;
    assert_eq!(
        v.tick_running(OFF, TickEvent::Vision(tap(Some(false)))),
        TickAction::RestartVision { sleep: 0 }
    );
    assert_eq!(v.vision_tap_restart_count, 1);
    assert_eq!(v.wfb_tee_restart_count, radio);
    v.tick_running(OFF, TickEvent::VisionRestarted(true));
    assert_eq!(v.vision_tap_restart_count, 0);
}

#[test]
fn the_startup_grace_ends() {
    let mut v = Vitals {
        first_packet_seen: false,
        ..running()
    };
    let quiet = Probe {
        path_ready: false,
        ..probe(T0 + 29 * SEC)
    };
    assert!(v.check_health(quiet));
    assert!(!v.check_health(Probe {
        now: T0 + 30 * SEC,
        ..quiet
    }));
    assert!(v.check_health(probe(T0 + 31 * SEC)));
    assert!(v.first_packet_seen);
    assert!(!v.check_health(quiet));
}

#[test]
fn the_flow_of_bytes_is_watched() {
    let mut v = running();
    assert!(v.check_health(probe(T0)));
    assert_eq!(v.inbound_bytes_value, 1_000);
    let more = Probe {
        inbound: Some(11_000),
        ..probe(T0 + 5 * SEC)
    };
    assert!(v.check_health(more));
    assert_eq!(
        v.inbound_rate,
        Rate {
            bytes: 10_000,
            over: 5 * SEC
        }
    );
    assert!(v.check_health(Probe {
        now: T0 + 16 * SEC,
        ..more
    }));
    assert!(!v.check_health(Probe {
        now: T0 + 17 * SEC,
        ..more
    }));
    assert_eq!(v.inbound_rate.bytes, 0);
    assert!(v.check_health(Probe {
        inbound: None,
        now: T0 + 99 * SEC,
        ..more
    }));
}

#[test]
fn the_retry_is_capped_by_the_cause() {
    let mut v = Vitals::new(T0);
    assert_eq!(v.tick_once(), TickKind::Retry);
    v.last_start_error = StartError::NoPrimaryCamera;
    v.restart_count = 8;
    assert_eq!(
        v.tick_retry_from_error(),
        RetryAction::Start {
            sleep: 25 * SEC,
            wake_on_camera: true
        }
    );
    v.retry_ended(false, false);
    assert_eq!(
        v.tick_retry_from_error(),
        RetryAction::GiveUp {
            sleep: 30 * SEC,
            wake_on_camera: true
        }
    );
    v.retry_ended(true, false);
    assert_eq!(v.restart_count, 0);
    v.last_start_error = StartError::NoEncoder;
    assert_eq!(
        v.tick_retry_from_error(),
        RetryAction::Start {
            sleep: 0,
            wake_on_camera: false
        }
    );
    v.retry_ended(false, true);
    assert_eq!(v.restart_count, 0);
    v.state = PipelineState::Running;
    assert_eq!(v.tick_once(), TickKind::Supervise);
    v.state = PipelineState::Starting;
    assert_eq!(v.tick_once(), TickKind::Wait);
}

// --- a start -----------------------------------------------------------------

#[test]
fn a_start_runs_to_its_end() {
    let mut o = test_orch();
    assert!(matches!(
        o.start_stream(StartEvent::Requested),
        StartAction::ReapEncoder
    ));
    assert_eq!(o.camera_cfg.width, 320);
    match o.start_stream(StartEvent::Reaped) {
        StartAction::Discover(s, None) => {
            assert_eq!(s.pipeline_state, PipelineOutcome::Starting);
            assert_eq!(s.state, CameraState::Missing);
        }
        _ => panic!("no discovery"),
    }
    assert_eq!(o.state(), PipelineState::Starting);
    match o.start_stream(StartEvent::Discovered(present_camera_discovery())) {
        StartAction::Stamp(s) => assert_eq!(s.state, CameraState::Ready),
        _ => panic!("no stamp"),
    }
    match o.start_stream(StartEvent::Stamped) {
        StartAction::Sweep(patterns, uri) => {
            assert_eq!(patterns, vec!["-i /dev/video0", "rpicam-vid"]);
            assert_eq!(uri, "rtsp://localhost:8554/main");
        }
        _ => panic!("no sweep"),
    }
    match o.start_stream(StartEvent::Swept(ALL)) {
        StartAction::Configure(streams) => {
            assert_eq!(streams, vec![("main".to_string(), "publisher".to_string())]);
        }
        _ => panic!("no configuration"),
    }
    assert_eq!(o.encoder_type, Some(EncoderKind::Ffmpeg));
    assert!(matches!(
        o.start_stream(StartEvent::Configured(true)),
        StartAction::StartMediamtx
    ));
    let command = match o.start_stream(StartEvent::MediamtxUp(true)) {
        StartAction::Spawn(cmd) => cmd,
        _ => panic!("no spawn"),
    };
    assert_eq!(command, o.command);
    assert!(command.iter().any(|a| a == "rtsp://localhost:8554/main"));
    match o.start_stream(StartEvent::Spawned(true, T0 + SEC)) {
        StartAction::Run(s, state) => {
            assert_eq!(s.pipeline_state, PipelineOutcome::Streaming);
            assert!(s.pipeline_reason.is_none());
            assert_eq!(s.encoder, o.encoder_label);
            assert_eq!(s.encoder_hw, Some(false));
            assert_eq!(state.profile, VideoProfile::Thumbnail);
            assert_eq!(state.width, 320);
        }
        _ => panic!("does not run"),
    }
    assert_eq!(o.state(), PipelineState::Running);
    assert_eq!(o.vitals.started_at, T0 + SEC);
    assert!(matches!(
        o.start_stream(StartEvent::Requested),
        StartAction::AlreadyRunning
    ));

    let g = o.control.request_profile(VideoProfile::Hero);
    o.adopt_desired_settings();
    let hero = o.restart_encoder_only().expect("a respawn command");
    assert_ne!(hero, command);
    assert!(o.control.acknowledged(g).is_none());
    o.encoder_respawned(true, T0 + 2 * SEC);
    assert_eq!(o.vitals.started_at, T0 + 2 * SEC);
    o.control.request_profile(VideoProfile::Thumbnail);
    o.adopt_desired_settings();
    assert_eq!(o.restart_encoder_only(), Some(command));
    o.encoder_respawned(false, T0);
    assert_eq!(o.vitals.last_start_error, StartError::EncoderSpawnFailed);

    let s = o.stop_stream();
    assert_eq!(s.pipeline_state, PipelineOutcome::Stopped);
    assert!(s.encoder.is_none() && s.encoder_hw.is_none());
}

#[test]
fn attention_is_switched_only_where_it_changes_something() {
    let mut o = test_orch();
    o.control.request_profile(VideoProfile::Hero);
    assert_eq!(o.switch_attention(), AttentionStep::Idle);
    o.vitals.state = PipelineState::Running;
    match o.switch_attention() {
        AttentionStep::Settled(state) => {
            assert_eq!(state.profile, VideoProfile::Hero);
            assert_eq!(state.width, 1280);
        }
        other => panic!("{other:?}"),
    }
    assert!(!o.control.applied().restarted);
    assert_eq!(o.control.applied().generation, 1);
    let g = o.control.request_ceiling(Some(900));
    assert_eq!(o.switch_attention(), AttentionStep::Respawn);
    assert_eq!(o.camera_cfg.bitrate_kbps, 900);
    assert!(o.control.acknowledged(g).is_none());
    assert_eq!(o.attention_switched().bitrate_kbps, 900);
    assert!(o.control.acknowledged(g).is_some_and(|a| a.restarted));
    o.control.request_ceiling(None);
    assert_eq!(o.switch_attention(), AttentionStep::Respawn);
    assert_eq!(o.camera_cfg.bitrate_kbps, 4000);
}

#[test]
fn every_failure_of_a_start_says_why() {
    let failing = |upto: usize, e: StartEvent| {
        let mut o = test_orch();
        o.start_stream(StartEvent::Requested);
        o.start_stream(StartEvent::Reaped);
        if upto >= 1 {
            o.start_stream(StartEvent::Discovered(present_camera_discovery()));
        }
        if upto >= 2 {
            o.start_stream(StartEvent::Swept(ALL));
        }
        let s = match o.start_stream(e) {
            StartAction::Fail(s) | StartAction::TearDown(s) => s,
            _ => panic!("the start went on"),
        };
        assert_eq!(o.state(), PipelineState::Error);
        assert_eq!(s.pipeline_state, PipelineOutcome::Error);
        assert_eq!(
            s.pipeline_reason.as_deref(),
            o.vitals.last_start_error.reason()
        );
        let again = o.persist_pipeline_outcome(PipelineOutcome::Starting);
        assert_eq!(again.pipeline_state, PipelineOutcome::Error);
        o.vitals.last_start_error
    };
    let none = Backends {
        rpicam: false,
        ffmpeg: false,
        gst_launch: false,
    };
    assert_eq!(failing(0, StartEvent::Stamped), StartError::NoPrimaryCamera);
    assert_eq!(failing(0, StartEvent::Swept(ALL)), StartError::NoPrimaryCamera);
    assert_eq!(failing(1, StartEvent::Swept(none)), StartError::NoEncoder);
    assert_eq!(
        failing(2, StartEvent::Configured(false)),
        StartError::MediamtxFailed
    );
    assert_eq!(
        failing(2, StartEvent::MediamtxUp(false)),
        StartError::MediamtxFailed
    );
    assert_eq!(
        failing(2, StartEvent::Spawned(false, T0)),
        StartError::EncoderSpawnFailed
    );
}

#[test]
fn a_codec_that_cannot_be_encoded_fails_the_command() {
    let mut o = test_orch();
    o.camera_cfg.codec = "h265".into();
    o.start_stream(StartEvent::Discovered(present_camera_discovery()));
    assert!(matches!(
        o.start_stream(StartEvent::Swept(ALL)),
        StartAction::Fail(_)
    ));
    assert_eq!(o.vitals.last_start_error, StartError::EncoderCommandFailed);
    assert!(o.encoder_label.is_none());
}

#[test]
fn a_network_camera_is_not_looked_for() {
    let mut o = test_orch();
    o.camera_cfg.source = " rtsp://cam/1 ".into();
    match o.start_stream(StartEvent::Reaped) {
        StartAction::Discover(_, url) => assert_eq!(url.as_deref(), Some("rtsp://cam/1")),
        _ => panic!("no discovery"),
    }
}

#[test]
fn legs_become_streams() {
    let leg = |id: &str, source: &str| CameraLeg {
        id: id.into(),
        source: source.into(),
        role: None,
        codec: "h264".into(),
        width: 640,
        height: 480,
        fps: 30,
        bitrate_kbps: 1000,
    };
    let o = orch(AgentVideoConfig {
        cameras: vec![
            leg("a", "rtsp://x/1"),
            leg("b", " rtsp://x/2 "),
            leg("c", "/dev/video2"),
        ],
        ..AgentVideoConfig::default()
    });
    let s = |a: &str, b: &str| (a.to_string(), b.to_string());
    assert_eq!(
        o.legs_to_streams(),
        vec![
            s("main", "publisher"),
            s("b", "rtsp://x/2"),
            s("c", "publisher")
        ]
    );
}

// --- the parts ---------------------------------------------------------------

#[test]
fn the_cloud_push_copies_the_local_stream() {
    let mut o = cloud_orch();
    assert!(matches!(o.start_cloud_push(None), PartStart::NotRunning));
    o.vitals.state = PipelineState::Running;
    assert!(matches!(o.start_cloud_push(Some(true)), PartStart::AlreadyUp));
    match o.start_cloud_push(Some(false)) {
        PartStart::Spawn(args) => {
            assert!(args.contains(&"copy".to_string()));
            assert_eq!(args.last().unwrap(), "rtsp://relay.example.com:8554/main");
        }
        other => panic!("{other:?}"),
    }
    assert!(matches!(test_orch().start_cloud_push(None), PartStart::Off));
}

#[test]
fn the_latency_tap_waits_for_the_stream() {
    let o = test_orch();
    assert!(matches!(o.start_sei_tap(None, false), PartStart::Deferred));
    assert!(matches!(o.start_sei_tap(Some(true), true), PartStart::AlreadyUp));
    match o.start_sei_tap(None, true) {
        PartStart::Spawn(args) => assert_eq!(
            args,
            vec![
                "-m",
                "ados.services.video.sei_tap",
                "--once",
                "--rtsp",
                "rtsp://localhost:8554/main"
            ]
        ),
        other => panic!("{other:?}"),
    }
}

#[test]
fn the_radio_tap_feeds_the_radio() {
    let mut o = test_orch();
    assert!(matches!(o.start_wfb_tee(None), PartStart::NotRunning));
    o.vitals.state = PipelineState::Running;
    match o.start_wfb_tee(None) {
        PartStart::Spawn(args) => {
            assert!(cmd_emits_wfb_rtp(&args));
            assert_eq!(*args.last().unwrap(), rtp_destination_url());
        }
        other => panic!("{other:?}"),
    }
    assert!(!wfb_tee_progress_is_stale(0, 15 * SEC));
    assert!(wfb_tee_progress_is_stale(0, 15 * SEC + 1));
    let e = o.start_extras(false);
    assert!(!e.wfb_tee && !e.sei_tap && !e.vision_tap);
    assert!(o.start_extras(true).wfb_tee);
}

#[test]
fn the_vision_tap_is_decoupled_or_built_in() {
    let mut cfg = AgentVideoConfig::default();
    cfg.vision.enabled = true;
    cfg.vision.fps = 7;
    let mut o = orch(cfg.clone());
    assert!(matches!(o.start_vision_tap(None), PartStart::NotRunning));
    o.vitals.state = PipelineState::Running;
    match o.start_vision_tap(None) {
        PartStart::Spawn(args) => {
            assert!(args.contains(&"fps=7,scale=640:480".to_string()), "{args:?}");
        }
        other => panic!("{other:?}"),
    }
    assert!(o.gates().vision_supervised);

    // A plain command carries the tap.
    cfg.vision.raw_tap = true;
    let o = started(cfg.clone());
    assert!(o.command.iter().any(|a| a == "[visout]"));
    assert!(matches!(o.start_vision_tap(None), PartStart::Off));
    assert!(!o.gates().vision_supervised && !o.start_extras(true).vision_tap);

    // A marker-wrapped one cannot: the decoupled tap takes over.
    cfg.wfb.sei_latency = true;
    let mut o = started(cfg);
    assert_eq!(o.command[0], "bash");
    assert!(matches!(o.start_vision_tap(None), PartStart::Spawn(_)));
    assert!(o.gates().vision_supervised && o.start_extras(true).vision_tap);
    assert!(o.restart_encoder_only().is_some());
    assert!(o.gates().vision_supervised);
}

/// A pipeline that runs a USB camera.
fn started(cfg: AgentVideoConfig) -> VideoOrchestrator {
    let mut o = orch(cfg);
    for e in [
        StartEvent::Requested,
        StartEvent::Reaped,
        StartEvent::Discovered(present_camera_discovery()),
        StartEvent::Stamped,
        StartEvent::Swept(ALL),
        StartEvent::Configured(true),
        StartEvent::MediamtxUp(true),
        StartEvent::Spawned(true, T0),
    ] {
        o.start_stream(e);
    }
    assert_eq!(o.state(), PipelineState::Running);
    o
}

// --- secondary encoders -----------------------------------------------------------

fn slot(id: &str, running: bool) -> Slot {
    Slot {
        id: id.into(),
        running,
    }
}

#[test]
fn a_failing_leg_is_given_up_and_the_others_go_on() {
    let o = orch(AgentVideoConfig {
        cameras: ["main", "belly", "tail"]
            .iter()
            .map(|id| CameraLeg {
                id: id.to_string(),
                source: "/dev/video1".into(),
                role: None,
                codec: "h264".into(),
                width: 640,
                height: 480,
                fps: 15,
                bitrate_kbps: 800,
            })
            .collect(),
        ..AgentVideoConfig::default()
    });
    let spawn = |i: usize, running: bool, m: &Secondaries| {
        start_secondary_encoder(
            PipelineState::Running,
            &o.legs[i],
            running,
            m,
            ALL,
            8554,
            &env(),
        )
    };
    let mut m = Secondaries::new();
    assert!(spawn(0, false, &m).is_none());
    assert!(spawn(1, true, &m).is_none());
    let s = spawn(1, false, &m).expect("a local leg is encoded here");
    assert_eq!(s.kind, EncoderKind::Ffmpeg);
    assert!(s
        .command
        .iter()
        .any(|a| a == "rtsp://localhost:8554/belly"));
    m.note_started("belly", T0);
    m.note_started("tail", T0);
    for n in 0..=MAX_SECONDARY_RESPAWNS {
        assert_eq!(m.attempts.get("belly").unwrap_or(0), n);
        assert!(spawn(1, false, &m).is_some());
        let dead = m.supervise_secondary_encoders(
            PipelineState::Running,
            &vec![slot("belly", false), slot("tail", true)],
            T0,
        );
        assert_eq!(dead, vec!["belly".to_string()]);
    }
    assert!(spawn(1, false, &m).is_none());
    assert!(spawn(2, false, &m).is_some());
    assert_eq!(m.attempts.get("tail"), None);

    let late = T0 + 61 * SEC;
    let dead = m.supervise_secondary_encoders(
        PipelineState::Running,
        &vec![slot("belly", true)],
        late,
    );
    assert!(dead.is_empty());
    assert_eq!(m.attempts.get("belly"), None);
    assert!(m
        .supervise_secondary_encoders(PipelineState::Error, &vec![slot("belly", false)], late)
        .is_empty());
    m.stop_secondary_encoders();
    assert_eq!(m.started_at.get("belly"), None);
}

#[test]
fn the_type_of_a_secondary_follows_its_source() {
    assert_eq!(secondary_camera_type("csi"), CameraType::Csi);
    assert_eq!(secondary_camera_type("/dev/video1"), CameraType::Usb);
}
