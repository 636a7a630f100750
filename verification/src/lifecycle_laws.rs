//! What holds of a start of the pipeline, and of its parts, as a whole.
use crate::camera_state::{CameraState, CameraStateSnapshot, PipelineOutcome};
use crate::command;
use crate::config;
use crate::config::{CameraConfig, ResolvedLeg};
use crate::encoder;
use crate::encoder::{CameraInfo, EncoderKind, EncoderParams};
use crate::health::{Nanos, PipelineState, StartError};
use crate::lifecycle;
use crate::lifecycle::{StartAction, StartEvent, VideoOrchestrator};
use crate::orchestrator::Vitals;
use crate::profile::EncoderSettings;
use crate::secondary::Backends;
use crate::splice;
use crate::text;
use vstd::prelude::*;

verus! {

/// The camera state names the primary exactly while there is one among live
/// cameras, counts the cameras that were found, and answers whether the encoder
/// is a hardware one exactly where there is an encoder.
pub proof fn law_what_a_stamp_says(
    o: VideoOrchestrator,
    outcome: PipelineOutcome,
    s: CameraStateSnapshot,
)
    requires
        lifecycle::is_stamp(o, outcome, s),
    ensures
        s.version == 2,
        s.state == CameraState::Ready <==> o.last_cameras.primary is Some
            && o.last_cameras.total_cameras > 0,
        s.state == CameraState::Ready || s.state == CameraState::Missing,
        s.state == CameraState::Ready ==> text::opt_view(s.primary_path) == Some(
            o.last_cameras.primary->0.device_path@,
        ) && text::opt_view(s.primary_name) == Some(o.last_cameras.primary->0.name@),
        s.state == CameraState::Missing ==> s.primary_path is None && s.primary_name is None,
        s.total_cameras == o.last_cameras.total_cameras,
        s.encoder is Some <==> o.encoder_label is Some,
        o.encoder_label matches Some(l) ==> text::opt_view(s.encoder) == Some(l@) && s.encoder_hw
            == Some(encoder::is_hardware(l@)),
        o.encoder_label is None ==> s.encoder_hw is None,
        outcome != PipelineOutcome::Starting ==> s.pipeline_state == outcome,
        o.vitals.last_start_error == StartError::NoError ==> s.pipeline_state == outcome,
{
}

/// A state of the pipeline is published as the outcome that it stands for.
pub proof fn law_states_stand_for_outcomes()
    ensures
        lifecycle::outcome_of(PipelineState::Stopped) == PipelineOutcome::Stopped,
        lifecycle::outcome_of(PipelineState::Starting) == PipelineOutcome::Starting,
        lifecycle::outcome_of(PipelineState::Running) == PipelineOutcome::Streaming,
        lifecycle::outcome_of(PipelineState::Error) == PipelineOutcome::Error,
{
}

/// The primary is published at `main`, a local secondary at its own id, and a
/// network camera is pulled from its address at its own id.
pub proof fn law_where_a_leg_is_served(leg: ResolvedLeg)
    ensures
        leg.is_primary ==> lifecycle::stream_of(leg) == ("main"@, "publisher"@),
        !leg.is_primary ==> lifecycle::stream_of(leg).0 == leg.id@,
        !leg.is_primary && !leg.is_network_pull ==> lifecycle::stream_of(leg).1 == "publisher"@,
        !leg.is_primary && leg.is_network_pull && config::network_source_of(leg.source@) is Some
            ==> lifecycle::stream_of(leg).1 == text::trimmed(leg.source@),
{
}

/// Every leg is served, in its order.
pub proof fn law_every_leg_is_served(legs: Seq<ResolvedLeg>, i: int)
    requires
        0 <= i < legs.len(),
    ensures
        lifecycle::streams_of(legs).len() == legs.len(),
        lifecycle::streams_of(legs)[i] == lifecycle::stream_of(legs[i]),
{
}

/// The primary is encoded at the settings of the present camera block, and in
/// software once the hardware was given up.
pub proof fn law_the_primary_runs_the_present_settings(
    o: VideoOrchestrator,
    kind: EncoderKind,
    p: EncoderParams,
)
    requires
        lifecycle::is_primary_params(o, kind, p),
    ensures
        p.kind == kind,
        p.width == o.camera_cfg.width,
        p.height == o.camera_cfg.height,
        p.fps == o.camera_cfg.fps,
        p.bitrate_kbps == o.camera_cfg.bitrate_kbps,
        p.codec@ == o.camera_cfg.codec@,
        p.rotation == o.camera_cfg.rotation && p.hflip == o.camera_cfg.hflip && p.vflip
            == o.camera_cfg.vflip,
        p.keyframe_interval == o.camera_cfg.keyframe_interval,
        o.force_software ==> p.encoder@ == "software"@,
        !o.force_software ==> p.encoder@ == o.camera_cfg.encoder@,
        !p.rtp_fanout,
{
}

/// The encoder command is left alone where neither the marker nor the tap is
/// asked for; the marker is injected exactly where it is asked for.
pub proof fn law_the_command_gets_what_is_asked_for(o: VideoOrchestrator, base: Seq<Seq<char>>)
    ensures
        !o.config.wfb.sei_latency && !(o.config.vision.enabled && o.config.vision.raw_tap)
            ==> lifecycle::composed(o, base) == base,
        !o.config.wfb.sei_latency ==> lifecycle::marked(o, base) == base,
        o.config.wfb.sei_latency ==> lifecycle::marked(o, base) == splice::spliced(
            base,
            o.uri(),
            o.env.python_executable@,
        ),
        !lifecycle::carries_tap(o, base) ==> lifecycle::composed(o, base) == lifecycle::marked(
            o,
            base,
        ),
        lifecycle::carries_tap(o, base) ==> o.config.vision.enabled && o.config.vision.raw_tap
            && !o.config.ground_station() && lifecycle::composed(o, base).last()
            == o.config.vision.sink@,
{
    if lifecycle::carries_tap(o, base) {
        let m = lifecycle::marked(o, base);
        let t = splice::with_tap(
            m,
            o.config.vision.fps,
            o.config.vision.width,
            o.config.vision.height,
            config::normal_pixel_format(o.config.vision.format@),
            o.config.vision.sink@,
        );
        assert(t.last() == o.config.vision.sink@);
    }
}

/// The vision tap runs where it is enabled, but for a ground station, and as a
/// process of its own exactly where the encoder does not carry it.
pub proof fn law_where_the_vision_tap_runs(o: VideoOrchestrator)
    ensures
        o.vision_on() <==> o.config.vision.enabled && !o.config.ground_station(),
        o.decoupled() <==> o.config.vision.enabled && !o.config.ground_station() && !o.raw_tapped,
        o.uri() == "rtsp://localhost:"@ + text::decimal(o.rtsp_port as nat) + "/"@ + "main"@,
{
}

/// A camera can be encoded exactly where its name can stand in a command and
/// the codec is H.264.
pub proof fn law_what_can_be_encoded(o: VideoOrchestrator, device: Seq<char>)
    ensures
        lifecycle::encodable(o, device) <==> encoder::valid_source(device) && o.camera_cfg.codec@
            == "h264"@,
{
}

/// A start goes on step by step: each event leads to the step that follows it,
/// or ends the start.
pub proof fn law_a_start_goes_step_by_step(
    a: VideoOrchestrator,
    e: StartEvent,
    b: VideoOrchestrator,
    act: StartAction,
)
    requires
        lifecycle::starts(a, e, b, act),
    ensures
        e is Requested ==> (act is AlreadyRunning <==> a.vitals.state == PipelineState::Running) && (
        act is ReapEncoder <==> a.vitals.state != PipelineState::Running),
        e is Reaped ==> act is Discover,
        e is Discovered ==> act is Stamp,
        e is Stamped ==> (act is Sweep <==> a.last_cameras.primary is Some) && (act is Fail
            <==> a.last_cameras.primary is None),
        e is Swept ==> act is Configure || act is Fail,
        e matches StartEvent::Configured(ok) ==> (act is StartMediamtx <==> ok) && (act is Fail
            <==> !ok),
        e matches StartEvent::MediamtxUp(ok) ==> (act is Spawn <==> ok) && (act is Fail <==> !ok),
        e matches StartEvent::Spawned(ok, now) ==> (act is Run <==> ok) && (act is TearDown
            <==> !ok),
{
}

/// Every failure of a start has its own cause.
pub proof fn law_each_failure_has_its_cause(
    a: VideoOrchestrator,
    e: StartEvent,
    b: VideoOrchestrator,
    act: StartAction,
)
    requires
        lifecycle::starts(a, e, b, act),
        act is Fail || act is TearDown,
    ensures
        e is Stamped ==> b.vitals.last_start_error == StartError::NoPrimaryCamera,
        e is Configured || e is MediamtxUp ==> b.vitals.last_start_error
            == StartError::MediamtxFailed,
        e is Spawned ==> b.vitals.last_start_error == StartError::EncoderSpawnFailed,
        e is Swept && a.last_cameras.primary is None ==> b.vitals.last_start_error
            == StartError::NoPrimaryCamera,
        e matches StartEvent::Swept(found) ==> (a.last_cameras.primary is Some && !found.ffmpeg
            && !found.rpicam && !found.gst_launch ==> b.vitals.last_start_error
            == StartError::NoEncoder),
        e matches StartEvent::Swept(found) ==> (a.last_cameras.primary is Some && found.ffmpeg
            ==> b.vitals.last_start_error == StartError::EncoderCommandFailed),
        b.vitals.restart_count == a.vitals.restart_count,
        b.last_cameras == a.last_cameras,
        b.command == a.command,
{
}

/// A camera that can be encoded gets a command as soon as `ffmpeg` is there.
pub proof fn law_ffmpeg_suffices_for_a_start(
    a: VideoOrchestrator,
    found: Backends,
    b: VideoOrchestrator,
    act: StartAction,
)
    requires
        lifecycle::starts(a, StartEvent::Swept(found), b, act),
        a.last_cameras.primary is Some,
        found.ffmpeg,
        encoder::valid_source(a.last_cameras.primary->0.device_path@),
        a.camera_cfg.codec@ == "h264"@,
    ensures
        act is Configure,
        b.command@.len() > 0,
        b.encoder_type is Some,
        b.encoder_label is Some,
{
}

/// What the steps of a start carry over: the settings that are wanted, the
/// cameras that were found, and the command that was built.
pub proof fn law_what_a_start_carries_over(
    a: VideoOrchestrator,
    e: StartEvent,
    b: VideoOrchestrator,
    act: StartAction,
)
    requires
        lifecycle::starts(a, e, b, act),
    ensures
        e is Requested && act is ReapEncoder ==> lifecycle::settings_in(b.camera_cfg) == a.wanted()
            && b.camera_cfg.source == a.camera_cfg.source && b.vitals == a.vitals,
        e is Requested && act is AlreadyRunning ==> b == a,
        e is Reaped ==> b.vitals.state == PipelineState::Starting && b.encoder_label is None
            && b.vitals.restart_count == a.vitals.restart_count,
        act matches StartAction::Discover(s, url) ==> text::opt_view(url)
            == config::network_source_of(a.camera_cfg.source@),
        e matches StartEvent::Discovered(d) ==> b.last_cameras == d && b.vitals == a.vitals
            && b.camera_cfg == a.camera_cfg,
        act matches StartAction::Sweep(patterns, uri) ==> uri@ == a.uri() && text::views(
            patterns@,
        ).len() == 2 && text::views(patterns@)[0] == "-i "@
            + a.last_cameras.primary->0.device_path@ && text::views(patterns@)[1] == "rpicam-vid"@,
        act matches StartAction::Spawn(cmd) ==> text::views(cmd@) == text::views(a.command@),
        act matches StartAction::Configure(v) ==> v@.len() == a.legs@.len(),
        act matches StartAction::Run(s, state) ==> state.settings_part() == a.wanted()
            && state.profile == a.control.desired.profile && b.control.applied.generation
            == a.control.desired.generation && b.control.applied.restarted,
{
    if let StartAction::Configure(v) = act {
        assert(lifecycle::stream_models(v@).len() == lifecycle::streams_of(a.legs@).len());
    }
}

/// A pipeline that has come up counts from now: no packet, no sample, no healthy
/// run, no failure; the counters of the restarts stay.
pub proof fn law_a_fresh_pipeline_counts_from_now(v: Vitals, now: Nanos)
    ensures
        ({
            let f = lifecycle::fresh_vitals(v, now);
            &&& f.state == PipelineState::Running
            &&& f.started_at == now
            &&& !f.first_packet_seen
            &&& f.inbound_bytes_value == -1
            &&& f.inbound_bytes_changed_at == now
            &&& f.inbound_rate.bytes == 0
            &&& f.last_healthy_at is None
            &&& f.last_start_error == StartError::NoError
            &&& f.restart_count == v.restart_count && f.cloud_restart_count
                == v.cloud_restart_count && f.wfb_tee_restart_count == v.wfb_tee_restart_count
                && f.vision_tap_restart_count == v.vision_tap_restart_count && f.cloud_retry_after
                == v.cloud_retry_after
        }),
{
}

/// A respawned encoder gets the grace of a start again, and nothing else of the
/// pipeline changes.
pub proof fn law_a_respawn_gets_the_grace_again(v: Vitals, now: Nanos)
    ensures
        ({
            let r = lifecycle::rearmed(v, now);
            &&& r.started_at == now
            &&& !r.first_packet_seen
            &&& r.inbound_bytes_value == -1
            &&& r.inbound_bytes_changed_at == now
            &&& r.inbound_rate.bytes == 0
            &&& r.state == v.state
            &&& r.last_healthy_at == v.last_healthy_at
            &&& r.last_start_error == v.last_start_error
            &&& r.restart_count == v.restart_count && r.cloud_restart_count
                == v.cloud_restart_count && r.wfb_tee_restart_count == v.wfb_tee_restart_count
                && r.vision_tap_restart_count == v.vision_tap_restart_count
        }),
{
}

/// Settings that are put into a camera block are read back from it, and the
/// rest of the block stays.
pub proof fn law_settings_are_read_back(c: CameraConfig, s: EncoderSettings)
    ensures
        lifecycle::settings_in(lifecycle::with_settings(c, s)) == s,
        lifecycle::with_settings(c, lifecycle::settings_in(c)) == c,
        ({
            let w = lifecycle::with_settings(c, s);
            w.source == c.source && w.codec == c.codec && w.encoder == c.encoder && w.rotation
                == c.rotation && w.hflip == c.hflip && w.vflip == c.vflip && w.keyframe_interval
                == c.keyframe_interval && w.thumbnail == c.thumbnail && w.codec_preference
                == c.codec_preference
        }),
{
}

/// What is acknowledged is the latest request, with the settings that it comes
/// to, and nothing but the control changes.
pub proof fn law_the_latest_request_is_acknowledged(
    a: VideoOrchestrator,
    b: VideoOrchestrator,
    restarted: bool,
)
    requires
        lifecycle::acknowledged(a, b, restarted),
    ensures
        b.control.applied.generation == a.control.desired.generation,
        b.control.applied.state.profile == a.control.desired.profile,
        b.control.applied.state.ceiling_kbps == a.control.desired.ceiling_kbps,
        b.control.applied.state.settings_part() == a.wanted(),
        b.control.applied.restarted == restarted,
        b.control.desired == a.control.desired,
        b.vitals == a.vitals && b.camera_cfg == a.camera_cfg && b.legs == a.legs && b.command
            == a.command,
{
}

/// The push copies the local stream over TCP to `main` below the relay.
pub proof fn law_the_push_copies_to_the_relay(local: Seq<char>, relay: Seq<char>)
    ensures
        ({
            let a = lifecycle::push_argv(local, relay);
            &&& a.len() == 13
            &&& a[0] == "-rtsp_transport"@ && a[1] == "tcp"@
            &&& a[2] == "-timeout"@ && a[3] == "5000000"@
            &&& a[4] == "-i"@ && a[5] == local
            &&& a[6] == "-c"@ && a[7] == "copy"@
            &&& a[8] == "-f"@ && a[9] == "rtsp"@
            &&& a[10] == "-rtsp_transport"@ && a[11] == "tcp"@
            &&& a.last() == relay + "/main"@
        }),
{
}

/// The latency tap reads one session of the local stream.
pub proof fn law_the_latency_tap_reads_once(local: Seq<char>)
    ensures
        lifecycle::sei_argv(local) == seq![
            "-m"@,
            "ados.services.video.sei_tap"@,
            "--once"@,
            "--rtsp"@,
            local,
        ],
{
}

/// Two camera blocks that say the same are encoded the same.
pub proof fn law_same_cameras_are_encoded_the_same(a: CameraConfig, b: CameraConfig)
    requires
        lifecycle::same_camera(a, b),
    ensures
        lifecycle::settings_in(a) == lifecycle::settings_in(b),
        a.source@ == b.source@ && a.codec@ == b.codec@ && a.encoder@ == b.encoder@,
        a.rotation == b.rotation && a.hflip == b.hflip && a.vflip == b.vflip,
        a.keyframe_interval == b.keyframe_interval && a.thumbnail == b.thumbnail,
        a.codec_preference@ == b.codec_preference@,
        lifecycle::same_camera(b, a),
        lifecycle::same_camera(a, a),
{
}

/// The command of the primary takes the camera that was found to the main path
/// of this node, at the present settings.
pub proof fn law_the_primary_is_taken_to_the_main_path(
    o: VideoOrchestrator,
    info: CameraInfo,
    kind: EncoderKind,
    cmd: Seq<Seq<char>>,
    tapped: bool,
)
    requires
        lifecycle::is_primary_command(o, info, kind, cmd, tapped),
    ensures
        exists|p: EncoderParams|
            {
                let base = #[trigger] command::encoder_command(
                    p,
                    info.device_path@,
                    "rtsp://localhost:"@ + text::decimal(o.rtsp_port as nat) + "/"@ + "main"@,
                    Some(&info),
                    o.env,
                );
                &&& p.kind == kind && p.width == o.camera_cfg.width && p.height
                    == o.camera_cfg.height && p.fps == o.camera_cfg.fps && p.bitrate_kbps
                    == o.camera_cfg.bitrate_kbps
                &&& cmd == lifecycle::composed(o, base)
                &&& tapped == lifecycle::carries_tap(o, base)
            },
        !o.config.vision.raw_tap ==> !tapped,
{
    let p = choose|p: EncoderParams|
        {
            let base = #[trigger] command::encoder_command(
                p,
                info.device_path@,
                o.uri(),
                Some(&info),
                o.env,
            );
            lifecycle::is_primary_params(o, kind, p) && cmd == lifecycle::composed(o, base)
                && tapped == lifecycle::carries_tap(o, base)
        };
    assert(o.uri() == "rtsp://localhost:"@ + text::decimal(o.rtsp_port as nat) + "/"@ + "main"@);
    let base = command::encoder_command(p, info.device_path@, o.uri(), Some(&info), o.env);
}

} // verus!
