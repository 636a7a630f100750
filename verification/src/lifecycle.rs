//! The start of the video pipeline, and the starts of its parts.
//!
//! The orchestrator's plain state is one value. A start is a conversation: the
//! caller reports what happened, and is told what to do next, until the
//! pipeline runs or the start has failed. Processes, files and sockets stay
//! with the caller.
use crate::camera_state;
use crate::camera_state::{CameraState, CameraStateSnapshot, PipelineOutcome};
use crate::command;
use crate::config;
use crate::config::{AgentVideoConfig, CameraConfig, ResolvedLeg};
use crate::discover;
use crate::discover::DiscoveryResult;
use crate::encoder;
use crate::encoder::{
    augment_encoder_with_raw_tap, build_encoder_command, detect_encoder_for_camera,
    encoder_is_hardware, encoder_label, wrap_with_sei_inject, CameraInfo, EncoderEnv, EncoderKind,
    EncoderParams,
};
use crate::health;
use crate::health::{Nanos, PipelineState, StartError, HEALTH_CHECK_INTERVAL};
use crate::mediamtx::MAIN_PATH;
use crate::orchestrator;
use crate::orchestrator::{Gates, Rate, Vitals};
use crate::profile;
use crate::profile::{apply_settings_to, EncoderControl, EncoderSettings, EncoderState};
use crate::secondary::{Backends, Secondaries};
use crate::splice;
use crate::tap;
use crate::text;
use crate::wfb_tee;
use vstd::prelude::*;

verus! {

/// The orchestrator of the pipeline, without its processes.
pub struct VideoOrchestrator {
    pub config: AgentVideoConfig,
    /// The camera block as it was configured.
    pub configured: CameraConfig,
    /// The camera block that the encoder runs with.
    pub camera_cfg: CameraConfig,
    pub legs: Vec<ResolvedLeg>,
    pub control: EncoderControl,
    pub env: EncoderEnv,
    /// The hardware encoder was given up for this session.
    pub force_software: bool,
    /// The port on which the media server speaks RTSP.
    pub rtsp_port: u16,
    pub last_cameras: DiscoveryResult,
    pub encoder_type: Option<EncoderKind>,
    /// The identity of the encoder that runs or is about to.
    pub encoder_label: Option<String>,
    /// The command of that encoder.
    pub command: Vec<String>,
    /// That command carries the vision tap as a second output.
    pub raw_tapped: bool,
    pub vitals: Vitals,
    pub secondaries: Secondaries,
}

/// What happens in the course of a start, in order.
pub enum StartEvent {
    /// A start is asked for.
    Requested,
    /// What was left of an earlier encoder is gone.
    Reaped,
    /// The cameras that were found.
    Discovered(DiscoveryResult),
    /// The camera state was written.
    Stamped,
    /// The stray processes are gone; the programs that can encode.
    Swept(Backends),
    /// Whether the media server's configuration was written.
    Configured(bool),
    /// Whether the media server came up.
    MediamtxUp(bool),
    /// Whether the encoder was spawned, and the time.
    Spawned(bool, Nanos),
}

/// What a start does next.
pub enum StartAction {
    /// Nothing: the pipeline runs already.
    AlreadyRunning,
    /// Terminate what is left of an earlier encoder.
    ReapEncoder,
    /// Write the camera state, then find the cameras: the single network
    /// camera at this URL, or the local ones.
    Discover(CameraStateSnapshot, Option<String>),
    /// Write the camera state.
    Stamp(CameraStateSnapshot),
    /// Kill the stray processes that match these patterns, and those that
    /// publish to this URL; find out which programs can encode.
    Sweep(Vec<String>, String),
    /// Write the media server's configuration for these streams.
    Configure(Vec<(String, String)>),
    /// Start the media server.
    StartMediamtx,
    /// Spawn the encoder with this command.
    Spawn(Vec<String>),
    /// The pipeline runs: write the camera state and publish the encoder
    /// state.
    Run(CameraStateSnapshot, EncoderState),
    /// The start has failed: write the camera state.
    Fail(CameraStateSnapshot),
    /// The start has failed late: tear down what was started and write the
    /// camera state.
    TearDown(CameraStateSnapshot),
}

/// What a switch of the attention state comes to.
#[derive(Debug, Clone, Copy, PartialEq, Eq)]
pub enum AttentionStep {
    /// The pipeline does not run; its next start takes the state up.
    Idle,
    /// The settings are live already: publish this state.
    Settled(EncoderState),
    /// Respawn the encoder, and report back.
    Respawn,
}

// ---------------------------------------------------------------------------
// what the state says
// ---------------------------------------------------------------------------

impl VideoOrchestrator {
    /// The local URL of the main stream.
    pub open spec fn uri(self) -> Seq<char> {
        tap::local_url(self.rtsp_port, "main"@)
    }

    /// The vision tap is to run on this node.
    pub open spec fn vision_on(self) -> bool {
        self.config.vision.enabled && !self.config.ground_station()
    }

    /// The vision tap is to run as a process of its own: the encoder command
    /// does not carry it.
    pub open spec fn decoupled(self) -> bool {
        self.vision_on() && !self.raw_tapped
    }

    /// The settings that the desired attention state asks for.
    pub open spec fn wanted(self) -> EncoderSettings {
        profile::resolved(
            self.control.desired.profile,
            self.control.desired.ceiling_kbps,
            self.configured,
        )
    }
}

/// The outcome that is stamped. A retry is no fresh start: the last failure
/// stands until an attempt resolves it.
pub open spec fn stamped_outcome(outcome: PipelineOutcome, last: StartError) -> PipelineOutcome {
    if outcome == PipelineOutcome::Starting && last != StartError::NoError {
        PipelineOutcome::Error
    } else {
        outcome
    }
}

/// `s` is the camera state of `o` with the outcome stamped on it. A reason
/// belongs to a failure and to nothing else.
pub open spec fn is_stamp(o: VideoOrchestrator, outcome: PipelineOutcome, s: CameraStateSnapshot)
    -> bool {
    let eff = stamped_outcome(outcome, o.vitals.last_start_error);
    let ready = o.last_cameras.primary is Some && o.last_cameras.total_cameras > 0;
    &&& s.version == camera_state::CAMERA_STATE_SIDECAR_VERSION
    &&& s.pipeline_state == eff
    &&& text::opt_view(s.pipeline_reason) == (if eff == PipelineOutcome::Error {
        health::reason_text(o.vitals.last_start_error)
    } else {
        None
    })
    &&& text::opt_view(s.encoder) == text::opt_view(o.encoder_label)
    &&& s.encoder_hw == (match text::opt_view(o.encoder_label) {
        Some(l) => Some(encoder::is_hardware(l)),
        None => None,
    })
    &&& s.total_cameras == o.last_cameras.total_cameras
    &&& s.state == (if ready {
        CameraState::Ready
    } else {
        CameraState::Missing
    })
    &&& text::opt_view(s.primary_path) == (if ready {
        Some(o.last_cameras.primary->0.device_path@)
    } else {
        None
    })
    &&& text::opt_view(s.primary_name) == (if ready {
        Some(o.last_cameras.primary->0.name@)
    } else {
        None
    })
}

/// The outcome that a state stands for.
pub open spec fn outcome_of(state: PipelineState) -> PipelineOutcome {
    match state {
        PipelineState::Stopped => PipelineOutcome::Stopped,
        PipelineState::Starting => PipelineOutcome::Starting,
        PipelineState::Running => PipelineOutcome::Streaming,
        PipelineState::Error => PipelineOutcome::Error,
    }
}

/// The stream of a leg in the media server: the primary is published at the
/// main path, a network camera is pulled, and any other leg is published at a
/// path of its own.
pub open spec fn stream_of(leg: ResolvedLeg) -> (Seq<char>, Seq<char>) {
    (
        if leg.is_primary {
            "main"@
        } else {
            leg.id@
        },
        if leg.is_primary || !leg.is_network_pull {
            "publisher"@
        } else {
            match config::network_source_of(leg.source@) {
                Some(url) => url,
                None => leg.source@,
            }
        },
    )
}

/// The models of the streams of a media-server configuration.
pub open spec fn stream_models(v: Seq<(String, String)>) -> Seq<(Seq<char>, Seq<char>)> {
    Seq::new(v.len(), |i: int| (v[i].0@, v[i].1@))
}

/// The streams of the legs.
pub open spec fn streams_of(legs: Seq<ResolvedLeg>) -> Seq<(Seq<char>, Seq<char>)> {
    Seq::new(legs.len(), |i: int| stream_of(legs[i]))
}

/// The parameters with which the primary is encoded.
pub open spec fn is_primary_params(o: VideoOrchestrator, kind: EncoderKind, p: EncoderParams)
    -> bool {
    &&& p.kind == kind
    &&& p.codec@ == o.camera_cfg.codec@
    &&& p.width == o.camera_cfg.width
    &&& p.height == o.camera_cfg.height
    &&& p.fps == o.camera_cfg.fps
    &&& p.bitrate_kbps == o.camera_cfg.bitrate_kbps
    &&& p.encoder@ == (if o.force_software {
        "software"@
    } else {
        o.camera_cfg.encoder@
    })
    &&& p.rotation == o.camera_cfg.rotation
    &&& p.hflip == o.camera_cfg.hflip
    &&& p.vflip == o.camera_cfg.vflip
    &&& p.keyframe_interval == o.camera_cfg.keyframe_interval
    &&& !p.rtp_fanout
}

/// An encoder command with the marker injector in it, where the configuration
/// asks for it.
pub open spec fn marked(o: VideoOrchestrator, base: Seq<Seq<char>>) -> Seq<Seq<char>> {
    if o.config.wfb.sei_latency {
        splice::spliced(base, o.uri(), o.env.python_executable@)
    } else {
        base
    }
}

/// The encoder command is to carry the vision tap, and can.
pub open spec fn carries_tap(o: VideoOrchestrator, base: Seq<Seq<char>>) -> bool {
    o.vision_on() && o.config.vision.raw_tap && splice::can_carry_tap(marked(o, base), o.uri())
}

/// An encoder command with the marker injector and the vision tap in it, as
/// far as the configuration asks for them and the command can carry them.
pub open spec fn composed(o: VideoOrchestrator, base: Seq<Seq<char>>) -> Seq<Seq<char>> {
    if carries_tap(o, base) {
        splice::with_tap(
            marked(o, base),
            o.config.vision.fps,
            o.config.vision.width,
            o.config.vision.height,
            config::normal_pixel_format(o.config.vision.format@),
            o.config.vision.sink@,
        )
    } else {
        marked(o, base)
    }
}

/// `cmd` encodes the camera `info` of `o`, and `tapped` says whether it
/// carries the vision tap.
pub open spec fn is_primary_command(
    o: VideoOrchestrator,
    info: CameraInfo,
    kind: EncoderKind,
    cmd: Seq<Seq<char>>,
    tapped: bool,
) -> bool {
    exists|p: EncoderParams|
        {
            let base = #[trigger] command::encoder_command(
                p,
                info.device_path@,
                o.uri(),
                Some(&info),
                o.env,
            );
            is_primary_params(o, kind, p) && cmd == composed(o, base) && tapped == carries_tap(
                o,
                base,
            )
        }
}

/// The camera at `device` can be encoded.
pub open spec fn encodable(o: VideoOrchestrator, device: Seq<char>) -> bool {
    encoder::valid_source(device) && o.camera_cfg.codec@ == "h264"@
}

// ---------------------------------------------------------------------------
// the course of a start
// ---------------------------------------------------------------------------

/// `b` is `a` after a start that failed with `e`.
pub open spec fn failed(a: VideoOrchestrator, b: VideoOrchestrator, e: StartError) -> bool {
    &&& b.vitals == (Vitals { state: PipelineState::Error, last_start_error: e, ..a.vitals })
    &&& b == (VideoOrchestrator {
        vitals: b.vitals,
        encoder_type: b.encoder_type,
        encoder_label: b.encoder_label,
        ..a
    })
}

/// The counters of a pipeline that has just come up.
pub open spec fn fresh_vitals(v: Vitals, now: Nanos) -> Vitals {
    Vitals {
        state: PipelineState::Running,
        started_at: now,
        first_packet_seen: false,
        inbound_bytes_value: (-1) as i64,
        inbound_bytes_changed_at: now,
        inbound_rate: Rate { bytes: 0, over: HEALTH_CHECK_INTERVAL },
        last_healthy_at: None,
        last_start_error: StartError::NoError,
        ..v
    }
}

/// The camera block `c` with the settings `s`.
pub open spec fn with_settings(c: CameraConfig, s: EncoderSettings) -> CameraConfig {
    CameraConfig {
        width: s.width,
        height: s.height,
        fps: s.fps,
        bitrate_kbps: s.bitrate_kbps,
        ..c
    }
}

/// The settings in a camera block.
pub open spec fn settings_in(c: CameraConfig) -> EncoderSettings {
    config::CameraProfile {
        width: c.width,
        height: c.height,
        fps: c.fps,
        bitrate_kbps: c.bitrate_kbps,
    }
}

/// `b` is `a` with the desired attention state noted as the applied one.
pub open spec fn acknowledged(a: VideoOrchestrator, b: VideoOrchestrator, restarted: bool) -> bool {
    &&& b.control.desired == a.control.desired
    &&& b.control.applied.state.profile == a.control.desired.profile
    &&& b.control.applied.state.ceiling_kbps == a.control.desired.ceiling_kbps
    &&& b.control.applied.state.settings_part() == a.wanted()
    &&& b.control.applied.generation == a.control.desired.generation
    &&& b.control.applied.restarted == restarted
    &&& b == (VideoOrchestrator { control: b.control, ..a })
}

/// The start asks for a backend, then for a command, and fails where there is
/// none.
pub open spec fn on_swept(
    a: VideoOrchestrator,
    found: Backends,
    b: VideoOrchestrator,
    act: StartAction,
) -> bool {
    if a.last_cameras.primary is None {
        &&& failed(a, b, StartError::NoPrimaryCamera)
        &&& b.encoder_type is None
        &&& b.encoder_label is None
        &&& act matches StartAction::Fail(s) && is_stamp(b, PipelineOutcome::Error, s)
    } else {
        exists|info: CameraInfo|
            #[trigger] discover::is_primary_info(a.last_cameras, info) && match encoder::backend_for(
                info.camera_type,
                found.rpicam,
                found.ffmpeg,
                found.gst_launch,
            ) {
                None => {
                    &&& failed(a, b, StartError::NoEncoder)
                    &&& b.encoder_type is None
                    &&& b.encoder_label is None
                    &&& act matches StartAction::Fail(s) && is_stamp(b, PipelineOutcome::Error, s)
                },
                Some(kind) => if encodable(a, info.device_path@) {
                    &&& is_primary_command(
                        a,
                        info,
                        kind,
                        text::views(b.command@),
                        b.raw_tapped,
                    )
                    &&& b.command@.len() > 0
                    &&& b.encoder_type == Some(kind)
                    &&& text::opt_view(b.encoder_label) == Some(
                        encoder::label_of(kind, text::views(b.command@)),
                    )
                    &&& b == (VideoOrchestrator {
                        encoder_type: b.encoder_type,
                        encoder_label: b.encoder_label,
                        command: b.command,
                        raw_tapped: b.raw_tapped,
                        ..a
                    })
                    &&& act matches StartAction::Configure(v) && stream_models(v@) == streams_of(
                        a.legs@,
                    )
                } else {
                    &&& failed(a, b, StartError::EncoderCommandFailed)
                    &&& b.encoder_type == Some(kind)
                    &&& b.encoder_label is None
                    &&& act matches StartAction::Fail(s) && is_stamp(b, PipelineOutcome::Error, s)
                },
            }
    }
}

/// What an event of a start leads to: `a` becomes `b`, and `act` is next.
pub open spec fn starts(
    a: VideoOrchestrator,
    e: StartEvent,
    b: VideoOrchestrator,
    act: StartAction,
) -> bool {
    match e {
        StartEvent::Requested => if a.vitals.state == PipelineState::Running {
            b == a && act is AlreadyRunning
        } else {
            &&& b == (VideoOrchestrator {
                camera_cfg: with_settings(a.camera_cfg, a.wanted()),
                ..a
            })
            &&& act is ReapEncoder
        },
        StartEvent::Reaped => {
            &&& b == (VideoOrchestrator {
                vitals: Vitals { state: PipelineState::Starting, ..a.vitals },
                encoder_label: None,
                ..a
            })
            &&& act matches StartAction::Discover(s, url) && is_stamp(
                b,
                PipelineOutcome::Starting,
                s,
            ) && text::opt_view(url) == config::network_source_of(a.camera_cfg.source@)
        },
        StartEvent::Discovered(d) => {
            &&& b == (VideoOrchestrator { last_cameras: d, ..a })
            &&& act matches StartAction::Stamp(s) && is_stamp(b, PipelineOutcome::Starting, s)
        },
        StartEvent::Stamped => if a.last_cameras.primary is None {
            &&& failed(a, b, StartError::NoPrimaryCamera)
            &&& b.encoder_type is None
            &&& b.encoder_label is None
            &&& act matches StartAction::Fail(s) && is_stamp(b, PipelineOutcome::Error, s)
        } else {
            &&& b == a
            &&& act matches StartAction::Sweep(patterns, uri) && uri@ == a.uri() && text::views(
                patterns@,
            ) == seq!["-i "@ + a.last_cameras.primary->0.device_path@, "rpicam-vid"@]
        },
        StartEvent::Swept(found) => on_swept(a, found, b, act),
        StartEvent::Configured(ok) => if ok {
            b == a && act is StartMediamtx
        } else {
            &&& failed(a, b, StartError::MediamtxFailed)
            &&& b.encoder_type == a.encoder_type
            &&& b.encoder_label == a.encoder_label
            &&& act matches StartAction::Fail(s) && is_stamp(b, PipelineOutcome::Error, s)
        },
        StartEvent::MediamtxUp(ok) => if ok {
            b == a && (act matches StartAction::Spawn(cmd) && text::views(cmd@) == text::views(
                a.command@,
            ))
        } else {
            &&& failed(a, b, StartError::MediamtxFailed)
            &&& b.encoder_type == a.encoder_type
            &&& b.encoder_label == a.encoder_label
            &&& act matches StartAction::Fail(s) && is_stamp(b, PipelineOutcome::Error, s)
        },
        StartEvent::Spawned(ok, now) => if ok {
            &&& b.vitals == fresh_vitals(a.vitals, now)
            &&& acknowledged(a, VideoOrchestrator { vitals: a.vitals, ..b }, true)
            &&& act matches StartAction::Run(s, state) && is_stamp(
                b,
                PipelineOutcome::Streaming,
                s,
            ) && state == b.control.applied.state
        } else {
            &&& failed(a, b, StartError::EncoderSpawnFailed)
            &&& b.encoder_type == a.encoder_type
            &&& b.encoder_label == a.encoder_label
            &&& act matches StartAction::TearDown(s) && is_stamp(b, PipelineOutcome::Error, s)
        },
    }
}

/// The camera blocks `a` and `b` say the same.
pub open spec fn same_camera(a: CameraConfig, b: CameraConfig) -> bool {
    &&& a.source@ == b.source@
    &&& a.codec@ == b.codec@
    &&& a.width == b.width
    &&& a.height == b.height
    &&& a.fps == b.fps
    &&& a.bitrate_kbps == b.bitrate_kbps
    &&& a.codec_preference@ == b.codec_preference@
    &&& a.encoder@ == b.encoder@
    &&& a.rotation == b.rotation
    &&& a.hflip == b.hflip
    &&& a.vflip == b.vflip
    &&& a.keyframe_interval == b.keyframe_interval
    &&& a.thumbnail == b.thumbnail
}

fn copy_camera(c: &CameraConfig) -> (r: CameraConfig)
    ensures
        same_camera(r, *c),
{
    CameraConfig {
        source: c.source.clone(),
        codec: c.codec.clone(),
        width: c.width,
        height: c.height,
        fps: c.fps,
        bitrate_kbps: c.bitrate_kbps,
        codec_preference: c.codec_preference.clone(),
        encoder: c.encoder.clone(),
        rotation: c.rotation,
        hflip: c.hflip,
        vflip: c.vflip,
        keyframe_interval: c.keyframe_interval,
        thumbnail: c.thumbnail,
    }
}

/// The digits of a number can stand in a source.
proof fn lemma_decimal_is_valid(n: nat)
    ensures
        forall|i: int|
            0 <= i < text::decimal(n).len() ==> text::is_digit(#[trigger] text::decimal(n)[i]),
    decreases n,
{
    if n >= 10 {
        lemma_decimal_is_valid(n / 10);
        let front = text::decimal(n / 10);
        assert forall|i: int| 0 <= i < text::decimal(n).len() implies text::is_digit(
            #[trigger] text::decimal(n)[i],
        ) by {
            if i < front.len() {
                assert(text::decimal(n)[i] == front[i]);
            } else {
                assert(text::decimal(n)[i] == text::digit(n % 10));
            }
        }
    } else {
        assert(text::decimal(n) =~= seq![text::digit(n)]);
    }
}

/// The local URL of the main stream can always stand in a command.
pub proof fn law_the_local_url_is_valid(rtsp_port: u16)
    ensures
        encoder::valid_source(tap::local_url(rtsp_port, "main"@)),
{
    reveal_strlit("rtsp://localhost:");
    reveal_strlit("/");
    reveal_strlit("main");
    lemma_decimal_is_valid(rtsp_port as nat);
    let u = tap::local_url(rtsp_port, "main"@);
    let head = "rtsp://localhost:"@;
    let digits = text::decimal(rtsp_port as nat);
    assert forall|i: int| 0 <= i < u.len() implies encoder::source_char(#[trigger] u[i]) by {
        if i < head.len() {
            assert(u[i] == head[i]);
        } else if i < head.len() + digits.len() {
            assert(u[i] == digits[i - head.len()]);
        } else if i == head.len() + digits.len() {
            assert(u[i] == '/');
        } else {
            assert(u[i] == "main"@[i - head.len() - digits.len() - 1]);
        }
    }
}


impl VideoOrchestrator {
    /// An orchestrator for the given configuration, with nothing started.
    pub fn new(
        config: AgentVideoConfig,
        camera_cfg: CameraConfig,
        control: EncoderControl,
        env: EncoderEnv,
        rtsp_port: u16,
        now: Nanos,
    ) -> (r: Self)
        ensures
            r.config == config,
            r.camera_cfg == camera_cfg,
            same_camera(r.configured, camera_cfg),
            config::legs_resolved(config.cameras@, camera_cfg, r.legs@),
            r.control == control,
            r.env == env,
            !r.force_software,
            r.rtsp_port == rtsp_port,
            r.last_cameras.primary is None,
            r.last_cameras.cameras@.len() == 0,
            r.last_cameras.total_cameras == 0,
            r.encoder_type is None,
            r.encoder_label is None,
            r.command@.len() == 0,
            !r.raw_tapped,
            r.vitals == orchestrator::idle_vitals(now),
            r.secondaries.attempts@ == Map::<Seq<char>, u64>::empty(),
            r.secondaries.started_at@ == Map::<Seq<char>, u64>::empty(),
    {
        let legs = config.resolve_legs(&camera_cfg);
        let configured = copy_camera(&camera_cfg);
        VideoOrchestrator {
            config,
            configured,
            camera_cfg,
            legs,
            control,
            env,
            force_software: false,
            rtsp_port,
            last_cameras: DiscoveryResult::empty(),
            encoder_type: None,
            encoder_label: None,
            command: Vec::new(),
            raw_tapped: false,
            vitals: Vitals::new(now),
            secondaries: Secondaries::new(),
        }
    }

    /// The state of the pipeline.
    pub fn state(&self) -> (r: PipelineState)
        ensures
            r == self.vitals.state,
    {
        self.vitals.state
    }

    /// The latest inbound flow.
    pub fn inbound_rate(&self) -> (r: Rate)
        ensures
            r == self.vitals.inbound_rate,
    {
        self.vitals.inbound_rate
    }

    /// The local URL of the main stream.
    pub fn pipe_uri(&self) -> (r: String)
        ensures
            r@ == self.uri(),
    {
        tap::local_rtsp_url(self.rtsp_port)
    }

    /// The vision tap is to run on this node: it is enabled, and this is no
    /// ground station.
    pub fn vision_enabled(&self) -> (r: bool)
        ensures
            r == self.vision_on(),
    {
        self.config.vision.enabled && !self.config.is_ground_station()
    }

    /// What the configuration switches on for the supervisor.
    pub fn gates(&self) -> (r: Gates)
        ensures
            r == (Gates {
                cloud_enabled: self.config.cloud_on(),
                vision_supervised: self.decoupled(),
                sei_latency: self.config.wfb.sei_latency,
            }),
    {
        Gates {
            cloud_enabled: self.config.cloud_enabled(),
            vision_supervised: self.vision_enabled() && !self.raw_tapped,
            sei_latency: self.config.wfb.sei_latency,
        }
    }

    /// The camera state with the pipeline's outcome stamped on it. This is the
    /// one source of what is published about the camera, so discovery and
    /// outcome never disagree.
    pub fn persist_pipeline_outcome(&self, outcome: PipelineOutcome) -> (r: CameraStateSnapshot)
        ensures
            is_stamp(*self, outcome, r),
            r.consistent(),
    {
        let standing = match outcome {
            PipelineOutcome::Starting => self.vitals.last_start_error != StartError::NoError,
            _ => false,
        };
        let eff = if standing {
            PipelineOutcome::Error
        } else {
            outcome
        };
        let reason = match eff {
            PipelineOutcome::Error => match self.vitals.last_start_error.reason() {
                Some(words) => Some(words.to_owned()),
                None => None,
            },
            _ => None,
        };
        let label = text::copy_opt(&self.encoder_label);
        let hw = match &label {
            Some(l) => Some(encoder_is_hardware(l.as_str())),
            None => None,
        };
        self.last_cameras.camera_state_snapshot().with_pipeline(eff, reason, label, hw)
    }

    /// The camera state as it stands, for a refresh.
    pub fn refresh_camera_state(&self) -> (r: CameraStateSnapshot)
        ensures
            is_stamp(*self, outcome_of(self.vitals.state), r),
            r.consistent(),
    {
        let outcome = match self.vitals.state {
            PipelineState::Stopped => PipelineOutcome::Stopped,
            PipelineState::Starting => PipelineOutcome::Starting,
            PipelineState::Running => PipelineOutcome::Streaming,
            PipelineState::Error => PipelineOutcome::Error,
        };
        self.persist_pipeline_outcome(outcome)
    }

    /// Take the settings of the desired attention state over.
    pub fn adopt_desired_settings(&mut self)
        ensures
            *final(self) == (VideoOrchestrator {
                camera_cfg: with_settings(old(self).camera_cfg, old(self).wanted()),
                ..*old(self)
            }),
    {
        let settings = self.control.desired_settings(&self.configured);
        apply_settings_to(&mut self.camera_cfg, settings);
    }

    /// The streams of the legs for the media server's configuration.
    pub fn legs_to_streams(&self) -> (r: Vec<(String, String)>)
        ensures
            stream_models(r@) == streams_of(self.legs@),
    {
        let mut out: Vec<(String, String)> = Vec::new();
        let mut i: usize = 0;
        while i < self.legs.len()
            invariant
                i <= self.legs@.len(),
                out@.len() == i,
                forall|k: int|
                    0 <= k < i ==> ((#[trigger] out@[k]).0@, out@[k].1@) == stream_of(
                        self.legs@[k],
                    ),
            decreases self.legs@.len() - i,
        {
            let leg = &self.legs[i];
            let name = if leg.is_primary {
                MAIN_PATH.to_owned()
            } else {
                leg.id.clone()
            };
            let source = if leg.is_primary || !leg.is_network_pull {
                "publisher".to_owned()
            } else {
                match config::trimmed_stream_url(leg.source.as_str()) {
                    Some(url) => url.to_owned(),
                    None => leg.source.clone(),
                }
            };
            out.push((name, source));
            i += 1;
        }
        assert(stream_models(out@) =~= streams_of(self.legs@));
        out
    }

    /// The command that encodes the primary with the present settings, the
    /// marker injector and the vision tap included where they are asked for,
    /// and whether it carries the tap. An attention switch uses the same
    /// command as a cold start.
    pub fn build_primary_encoder_command(&self, primary: &CameraInfo, kind: EncoderKind) -> (r:
        Option<(Vec<String>, bool)>)
        ensures
            r is Some <==> encodable(*self, primary.device_path@),
            match r {
                Some((cmd, tapped)) => is_primary_command(
                    *self,
                    *primary,
                    kind,
                    text::views(cmd@),
                    tapped,
                ) && cmd@.len() > 0,
                None => true,
            },
    {
        let uri = self.pipe_uri();
        proof {
            law_the_local_url_is_valid(self.rtsp_port);
        }
        let mut params = EncoderParams::from_camera_config(kind, &self.camera_cfg);
        if self.force_software {
            params.encoder = "software".to_owned();
        }
        assert(is_primary_params(*self, kind, params));
        let base = match build_encoder_command(
            &params,
            primary.device_path.as_str(),
            uri.as_str(),
            Some(primary),
            &self.env,
        ) {
            Ok(c) => c,
            Err(_) => {
                return None;
            },
        };
        proof {
            command::lemma_command_is_not_empty(
                params,
                primary.device_path@,
                self.uri(),
                Some(primary),
                self.env,
            );
        }
        Some(self.dress(base))
    }

    /// An encoder command with the marker injector and the vision tap in it,
    /// and whether it carries the tap.
    fn dress(&self, base: Vec<String>) -> (r: (Vec<String>, bool))
        ensures
            text::views((r.0)@) == composed(*self, text::views(base@)),
            r.1 == carries_tap(*self, text::views(base@)),
            base@.len() > 0 ==> (r.0)@.len() > 0,
    {
        let uri = self.pipe_uri();
        let ghost plain = text::views(base@);
        assert(plain.len() == base@.len());
        let sei = if self.config.wfb.sei_latency {
            wrap_with_sei_inject(base.as_slice(), uri.as_str(), &self.env)
        } else {
            base
        };
        assert(text::views(sei@) == marked(*self, plain));
        if self.vision_enabled() && self.config.vision.raw_tap {
            let whole = augment_encoder_with_raw_tap(
                sei.as_slice(),
                uri.as_str(),
                self.config.vision.fps,
                self.config.vision.width,
                self.config.vision.height,
                self.config.vision.pixel_format(),
                self.config.vision.sink.as_str(),
            );
            let tapped = whole.len() != sei.len();
            proof {
                assert(text::views(whole@).len() == whole@.len());
                assert(text::views(sei@).len() == sei@.len());
                if splice::can_carry_tap(marked(*self, plain), self.uri()) {
                    splice::lemma_with_tap_is_longer(
                        marked(*self, plain),
                        self.config.vision.fps,
                        self.config.vision.width,
                        self.config.vision.height,
                        config::normal_pixel_format(self.config.vision.format@),
                        self.config.vision.sink@,
                    );
                }
            }
            (whole, tapped)
        } else {
            proof {
                assert(text::views(sei@).len() == sei@.len());
            }
            (sei, false)
        }
    }

    fn fail(&mut self, e: StartError) -> (r: CameraStateSnapshot)
        ensures
            failed(*old(self), *final(self), e),
            final(self).encoder_type == old(self).encoder_type,
            final(self).encoder_label == old(self).encoder_label,
            is_stamp(*final(self), PipelineOutcome::Error, r),
    {
        self.vitals.last_start_error = e;
        self.vitals.state = PipelineState::Error;
        self.persist_pipeline_outcome(PipelineOutcome::Error)
    }

    fn fail_without_camera(&mut self) -> (r: StartAction)
        ensures
            failed(*old(self), *final(self), StartError::NoPrimaryCamera),
            final(self).encoder_type is None,
            final(self).encoder_label is None,
            r matches StartAction::Fail(s) && is_stamp(*final(self), PipelineOutcome::Error, s),
    {
        self.encoder_type = None;
        self.encoder_label = None;
        StartAction::Fail(self.fail(StartError::NoPrimaryCamera))
    }

    fn start_swept(&mut self, found: Backends) -> (r: StartAction)
        ensures
            on_swept(*old(self), found, *final(self), r),
    {
        let primary = match self.last_cameras.primary_camera_info() {
            Some(p) => p,
            None => {
                return self.fail_without_camera();
            },
        };
        assert(discover::is_primary_info(self.last_cameras, primary));
        let kind = match detect_encoder_for_camera(
            primary.camera_type,
            found.rpicam,
            found.ffmpeg,
            found.gst_launch,
        ) {
            Some(k) => k,
            None => {
                self.encoder_type = None;
                self.encoder_label = None;
                return StartAction::Fail(self.fail(StartError::NoEncoder));
            },
        };
        let built = self.build_primary_encoder_command(&primary, kind);
        self.encoder_type = Some(kind);
        match built {
            Some((cmd, tapped)) => {
                let label = encoder_label(kind, cmd.as_slice());
                self.encoder_label = Some(label);
                self.command = cmd;
                self.raw_tapped = tapped;
                StartAction::Configure(self.legs_to_streams())
            },
            None => {
                self.encoder_label = None;
                StartAction::Fail(self.fail(StartError::EncoderCommandFailed))
            },
        }
    }

    /// One step of a start. The order is: settings, a stale encoder, the
    /// cameras, stray processes, the backend, the command, the media server,
    /// the encoder. Whatever fails ends the start with its own reason.
    pub fn start_stream(&mut self, e: StartEvent) -> (r: StartAction)
        ensures
            starts(*old(self), e, *final(self), r),
    {
        match e {
            StartEvent::Requested => {
                if self.vitals.state == PipelineState::Running {
                    StartAction::AlreadyRunning
                } else {
                    self.adopt_desired_settings();
                    StartAction::ReapEncoder
                }
            },
            StartEvent::Reaped => {
                self.vitals.state = PipelineState::Starting;
                self.encoder_label = None;
                let stamp = self.persist_pipeline_outcome(PipelineOutcome::Starting);
                let url = match self.camera_cfg.network_source() {
                    Some(u) => Some(u.to_owned()),
                    None => None,
                };
                StartAction::Discover(stamp, url)
            },
            StartEvent::Discovered(d) => {
                self.last_cameras = d;
                StartAction::Stamp(self.persist_pipeline_outcome(PipelineOutcome::Starting))
            },
            StartEvent::Stamped => {
                let device = match &self.last_cameras.primary {
                    Some(p) => p.device_path.clone(),
                    None => {
                        return self.fail_without_camera();
                    },
                };
                let mut patterns: Vec<String> = Vec::new();
                let holder = text::cat("-i ", device.as_str());
                assert(text::views(patterns@) =~= Seq::<Seq<char>>::empty());
                text::add_arg(&mut patterns, holder.as_str());
                text::add_arg(&mut patterns, "rpicam-vid");
                assert(text::views(patterns@) =~= seq!["-i "@ + device@, "rpicam-vid"@]);
                StartAction::Sweep(patterns, self.pipe_uri())
            },
            StartEvent::Swept(found) => self.start_swept(found),
            StartEvent::Configured(ok) => {
                if ok {
                    StartAction::StartMediamtx
                } else {
                    StartAction::Fail(self.fail(StartError::MediamtxFailed))
                }
            },
            StartEvent::MediamtxUp(ok) => {
                if ok {
                    StartAction::Spawn(text::copy_all(self.command.as_slice()))
                } else {
                    StartAction::Fail(self.fail(StartError::MediamtxFailed))
                }
            },
            StartEvent::Spawned(ok, now) => {
                if ok {
                    self.rearm(now);
                    self.vitals.state = PipelineState::Running;
                    self.vitals.last_healthy_at = None;
                    self.vitals.last_start_error = StartError::NoError;
                    let state = self.acknowledge(true);
                    let stamp = self.persist_pipeline_outcome(PipelineOutcome::Streaming);
                    StartAction::Run(stamp, state)
                } else {
                    StartAction::TearDown(self.fail(StartError::EncoderSpawnFailed))
                }
            },
        }
    }

    /// Begin the startup grace anew: a fresh encoder has not published yet.
    fn rearm(&mut self, now: Nanos)
        ensures
            *final(self) == (VideoOrchestrator {
                vitals: rearmed(old(self).vitals, now),
                ..*old(self)
            }),
    {
        self.vitals.started_at = now;
        self.vitals.first_packet_seen = false;
        self.vitals.inbound_bytes_value = -1;
        self.vitals.inbound_bytes_changed_at = now;
        self.vitals.inbound_rate = Rate { bytes: 0, over: HEALTH_CHECK_INTERVAL };
    }

    /// The pipeline has been stopped: there is no encoder any more. Returns
    /// the camera state to be written.
    pub fn stop_stream(&mut self) -> (r: CameraStateSnapshot)
        ensures
            *final(self) == (VideoOrchestrator {
                vitals: Vitals { state: PipelineState::Stopped, ..old(self).vitals },
                encoder_label: None,
                ..*old(self)
            }),
            is_stamp(*final(self), PipelineOutcome::Stopped, r),
            final(self).vitals.state == PipelineState::Stopped,
            final(self).encoder_label is None,
            r.pipeline_state == PipelineOutcome::Stopped,
    {
        self.vitals.state = PipelineState::Stopped;
        self.encoder_label = None;
        self.persist_pipeline_outcome(PipelineOutcome::Stopped)
    }

    /// The command for a respawn of the encoder alone, against the present
    /// settings. There is none without a camera and a backend from an earlier
    /// start, or where no command can be built.
    pub fn restart_encoder_only(&mut self) -> (r: Option<Vec<String>>)
        ensures
            match r {
                Some(cmd) => {
                    &&& old(self).encoder_type is Some
                    &&& exists|info: CameraInfo|
                        #[trigger] discover::is_primary_info(old(self).last_cameras, info)
                            && is_primary_command(
                            *old(self),
                            info,
                            old(self).encoder_type->0,
                            text::views(cmd@),
                            final(self).raw_tapped,
                        )
                    &&& cmd@.len() > 0
                    &&& text::opt_view(final(self).encoder_label) == Some(
                        encoder::label_of(old(self).encoder_type->0, text::views(cmd@)),
                    )
                    &&& *final(self) == (VideoOrchestrator {
                        encoder_label: final(self).encoder_label,
                        raw_tapped: final(self).raw_tapped,
                        ..*old(self)
                    })
                },
                None => {
                    &&& old(self).encoder_type is None || old(self).last_cameras.primary is None
                        || !encodable(*old(self), old(self).last_cameras.primary->0.device_path@)
                    &&& *final(self) == *old(self)
                },
            },
    {
        let primary = match self.last_cameras.primary_camera_info() {
            Some(p) => p,
            None => {
                return None;
            },
        };
        assert(discover::is_primary_info(self.last_cameras, primary));
        let kind = match self.encoder_type {
            Some(k) => k,
            None => {
                return None;
            },
        };
        match self.build_primary_encoder_command(&primary, kind) {
            Some((cmd, tapped)) => {
                let label = encoder_label(kind, cmd.as_slice());
                self.encoder_label = Some(label);
                self.raw_tapped = tapped;
                Some(cmd)
            },
            None => None,
        }
    }

    /// Turn to the desired attention state. A pipeline that does not run takes
    /// it up when it starts; settings that are live already are acknowledged
    /// with the encoder untouched; anything else asks for a respawn of the
    /// encoder.
    pub fn switch_attention(&mut self) -> (r: AttentionStep)
        ensures
            if old(self).vitals.state != PipelineState::Running {
                r == AttentionStep::Idle && *final(self) == *old(self)
            } else if settings_in(old(self).camera_cfg) == old(self).wanted() {
                &&& acknowledged(*old(self), *final(self), false)
                &&& r == AttentionStep::Settled(final(self).control.applied.state)
            } else {
                &&& r == AttentionStep::Respawn
                &&& *final(self) == (VideoOrchestrator {
                    camera_cfg: with_settings(old(self).camera_cfg, old(self).wanted()),
                    ..*old(self)
                })
            },
            r is Idle <==> old(self).vitals.state != PipelineState::Running,
            r is Respawn ==> settings_in(old(self).camera_cfg) != old(self).wanted() && settings_in(
                final(self).camera_cfg,
            ) == old(self).wanted() && final(self).control == old(self).control,
            r is Settled ==> final(self).camera_cfg == old(self).camera_cfg,
    {
        if self.vitals.state != PipelineState::Running {
            return AttentionStep::Idle;
        }
        let settings = self.control.desired_settings(&self.configured);
        if self.camera_cfg.width == settings.width && self.camera_cfg.height == settings.height
            && self.camera_cfg.fps == settings.fps && self.camera_cfg.bitrate_kbps
            == settings.bitrate_kbps {
            AttentionStep::Settled(self.acknowledge(false))
        } else {
            self.adopt_desired_settings();
            AttentionStep::Respawn
        }
    }

    /// The encoder was respawned for the desired attention state. Returns the
    /// state to be published.
    pub fn attention_switched(&mut self) -> (r: EncoderState)
        ensures
            acknowledged(*old(self), *final(self), true),
            r == final(self).control.applied.state,
    {
        self.acknowledge(true)
    }

    fn acknowledge(&mut self, restarted: bool) -> (r: EncoderState)
        ensures
            acknowledged(*old(self), *final(self), restarted),
            r == final(self).control.applied.state,
    {
        let settings = self.control.desired_settings(&self.configured);
        let desired = self.control.desired();
        let state = EncoderState::new(desired.profile, desired.ceiling_kbps, settings);
        self.control.note_applied(state, desired.generation, restarted);
        state
    }

    /// The encoder alone has been respawned, or could not be. A fresh one gets
    /// the startup grace again, so that the gap does not read as a stall; a
    /// failure is left to the health ladder.
    pub fn encoder_respawned(&mut self, ok: bool, now: Nanos)
        ensures
            *final(self) == (VideoOrchestrator {
                vitals: if ok {
                    rearmed(old(self).vitals, now)
                } else {
                    Vitals {
                        last_start_error: StartError::EncoderSpawnFailed,
                        ..old(self).vitals
                    }
                },
                ..*old(self)
            }),
            ok ==> final(self).vitals.started_at == now && !final(self).vitals.first_packet_seen,
            !ok ==> final(self).vitals.last_start_error == StartError::EncoderSpawnFailed,
    {
        if ok {
            self.rearm(now);
        } else {
            self.vitals.last_start_error = StartError::EncoderSpawnFailed;
        }
    }
}

/// The counters of a pipeline whose encoder was respawned.
pub open spec fn rearmed(v: Vitals, now: Nanos) -> Vitals {
    Vitals {
        started_at: now,
        first_packet_seen: false,
        inbound_bytes_value: (-1) as i64,
        inbound_bytes_changed_at: now,
        inbound_rate: Rate { bytes: 0, over: HEALTH_CHECK_INTERVAL },
        ..v
    }
}


// ---------------------------------------------------------------------------
// the parts around the encoder
// ---------------------------------------------------------------------------

/// What a request to start a part comes to.
#[derive(Debug)]
pub enum PartStart {
    /// The part is switched off.
    Off,
    /// The pipeline does not run.
    NotRunning,
    /// The part runs already.
    AlreadyUp,
    /// The source is not ready yet; a later tick tries again.
    Deferred,
    /// Spawn the part with these arguments.
    Spawn(Vec<String>),
}

/// The arguments of the push of the local stream to the cloud relay.
pub open spec fn push_argv(local: Seq<char>, relay: Seq<char>) -> Seq<Seq<char>> {
    seq![
        "-rtsp_transport"@,
        "tcp"@,
        "-timeout"@,
        "5000000"@,
        "-i"@,
        local,
        "-c"@,
        "copy"@,
        "-f"@,
        "rtsp"@,
        "-rtsp_transport"@,
        "tcp"@,
        relay + "/main"@,
    ]
}

/// The arguments of the latency tap, which reads one session and exits.
pub open spec fn sei_argv(local: Seq<char>) -> Seq<Seq<char>> {
    seq!["-m"@, "ados.services.video.sei_tap"@, "--once"@, "--rtsp"@, local]
}

/// The parts that a fresh pipeline is given, besides the encoder.
#[derive(Debug, Clone, Copy, PartialEq, Eq, Structural)]
pub struct Extras {
    pub wfb_tee: bool,
    pub sei_tap: bool,
    pub vision_tap: bool,
}

/// A measured value of the running encoder, under its name.
#[derive(Debug, Clone, Copy, PartialEq, Eq)]
pub struct Metric {
    pub name: &'static str,
    pub value: u32,
}

/// What the running encoder is reported by.
#[derive(Debug)]
pub struct Telemetry {
    pub profile: String,
    pub stream: &'static str,
    pub metrics: Vec<Metric>,
}

impl VideoOrchestrator {
    /// Start the push to the cloud relay.
    pub fn start_cloud_push(&self, running: Option<bool>) -> (r: PartStart)
        ensures
            if !self.config.cloud_on() {
                r is Off
            } else if self.vitals.state != PipelineState::Running {
                r is NotRunning
            } else if running == Some(true) {
                r is AlreadyUp
            } else {
                r matches PartStart::Spawn(args) && text::views(args@) == push_argv(
                    self.uri(),
                    self.config.cloud_relay_url->0@,
                )
            },
            r is Spawn <==> self.config.cloud_on() && self.vitals.state == PipelineState::Running
                && running != Some(true),
    {
        let relay = match &self.config.cloud_relay_url {
            Some(u) => if u.as_str().unicode_len() > 0 {
                u.as_str()
            } else {
                return PartStart::Off;
            },
            None => {
                return PartStart::Off;
            },
        };
        if self.vitals.state != PipelineState::Running {
            return PartStart::NotRunning;
        }
        if let Some(true) = running {
            return PartStart::AlreadyUp;
        }
        let local = self.pipe_uri();
        let target = text::cat(relay, "/main");
        let mut args: Vec<String> = Vec::new();
        assert(text::views(args@) =~= Seq::<Seq<char>>::empty());
        text::add_arg(&mut args, "-rtsp_transport");
        text::add_arg(&mut args, "tcp");
        text::add_arg(&mut args, "-timeout");
        text::add_arg(&mut args, "5000000");
        text::add_arg(&mut args, "-i");
        text::add_arg(&mut args, local.as_str());
        text::add_arg(&mut args, "-c");
        text::add_arg(&mut args, "copy");
        text::add_arg(&mut args, "-f");
        text::add_arg(&mut args, "rtsp");
        text::add_arg(&mut args, "-rtsp_transport");
        text::add_arg(&mut args, "tcp");
        text::add_arg(&mut args, target.as_str());
        assert(text::views(args@) =~= push_argv(self.uri(), self.config.cloud_relay_url->0@));
        PartStart::Spawn(args)
    }

    /// Start the latency tap, once the stream has a publisher.
    pub fn start_sei_tap(&self, running: Option<bool>, path_ready: bool) -> (r: PartStart)
        ensures
            if running == Some(true) {
                r is AlreadyUp
            } else if !path_ready {
                r is Deferred
            } else {
                r matches PartStart::Spawn(args) && text::views(args@) == sei_argv(self.uri())
            },
            r is Spawn <==> path_ready && running != Some(true),
    {
        if let Some(true) = running {
            return PartStart::AlreadyUp;
        }
        if !path_ready {
            return PartStart::Deferred;
        }
        let local = self.pipe_uri();
        let mut args: Vec<String> = Vec::new();
        assert(text::views(args@) =~= Seq::<Seq<char>>::empty());
        text::add_arg(&mut args, "-m");
        text::add_arg(&mut args, "ados.services.video.sei_tap");
        text::add_arg(&mut args, "--once");
        text::add_arg(&mut args, "--rtsp");
        text::add_arg(&mut args, local.as_str());
        assert(text::views(args@) =~= sei_argv(self.uri()));
        PartStart::Spawn(args)
    }

    /// Start the radio tap.
    pub fn start_wfb_tee(&self, running: Option<bool>) -> (r: PartStart)
        ensures
            if self.vitals.state != PipelineState::Running {
                r is NotRunning
            } else if running == Some(true) {
                r is AlreadyUp
            } else {
                r matches PartStart::Spawn(args) && text::views(args@) == wfb_tee::tee_argv(
                    self.uri(),
                )
            },
            r is Spawn <==> self.vitals.state == PipelineState::Running && running != Some(true),
    {
        if self.vitals.state != PipelineState::Running {
            return PartStart::NotRunning;
        }
        if let Some(true) = running {
            return PartStart::AlreadyUp;
        }
        PartStart::Spawn(wfb_tee::wfb_tee_args(self.pipe_uri().as_str()))
    }

    /// Start the decoupled vision tap. It takes over wherever the encoder
    /// command cannot carry the tap.
    pub fn start_vision_tap(&self, running: Option<bool>) -> (r: PartStart)
        ensures
            if !self.decoupled() {
                r is Off
            } else if self.vitals.state != PipelineState::Running {
                r is NotRunning
            } else if running == Some(true) {
                r is AlreadyUp
            } else {
                r matches PartStart::Spawn(args) && text::views(args@) == tap::tap_argv(
                    self.uri(),
                    self.config.vision.fps,
                    self.config.vision.width,
                    self.config.vision.height,
                    config::normal_pixel_format(self.config.vision.format@),
                )
            },
            r is Spawn <==> self.decoupled() && self.vitals.state == PipelineState::Running && running
                != Some(true),
    {
        if !self.vision_enabled() || self.raw_tapped {
            return PartStart::Off;
        }
        if self.vitals.state != PipelineState::Running {
            return PartStart::NotRunning;
        }
        if let Some(true) = running {
            return PartStart::AlreadyUp;
        }
        let local = self.pipe_uri();
        PartStart::Spawn(
            tap::vision_tap_args(
                local.as_str(),
                self.config.vision.fps,
                self.config.vision.width,
                self.config.vision.height,
                self.config.vision.pixel_format(),
            ),
        )
    }

    /// The parts that a fresh pipeline is given at once. The taps wait until
    /// the stream has a publisher; the supervisor brings them up then.
    pub fn start_extras(&self, path_ready: bool) -> (r: Extras)
        ensures
            r == (Extras {
                wfb_tee: path_ready,
                sei_tap: self.config.wfb.sei_latency,
                vision_tap: path_ready && self.decoupled(),
            }),
            r.wfb_tee <==> path_ready,
            r.vision_tap ==> path_ready && self.config.vision.enabled,
    {
        Extras {
            wfb_tee: path_ready,
            sei_tap: self.config.wfb.sei_latency,
            vision_tap: path_ready && self.vision_enabled() && !self.raw_tapped,
        }
    }

    /// What is reported once a second: the bitrate and the frame rate that the
    /// running encoder is set to, and nothing that is not known. A pipeline
    /// that does not run reports nothing.
    pub fn emit_telemetry(&self) -> (r: Option<Telemetry>)
        ensures
            r is Some <==> self.vitals.state == PipelineState::Running,
            r matches Some(t) ==> {
                &&& t.profile@ == (match text::opt_view(self.config.profile) {
                    Some(p) => p,
                    None => "drone"@,
                })
                &&& t.stream@ == "main"@
                &&& t.metrics@.len() == 2
                &&& t.metrics@[0].name@ == "video.encoder_bitrate_kbps"@
                &&& t.metrics@[0].value == self.camera_cfg.bitrate_kbps
                &&& t.metrics@[1].name@ == "video.framerate_hz"@
                &&& t.metrics@[1].value == self.camera_cfg.fps
            },
    {
        if self.vitals.state != PipelineState::Running {
            return None;
        }
        let profile = match &self.config.profile {
            Some(p) => p.clone(),
            None => "drone".to_owned(),
        };
        let metrics: Vec<Metric> = vec![
            Metric { name: "video.encoder_bitrate_kbps", value: self.camera_cfg.bitrate_kbps },
            Metric { name: "video.framerate_hz", value: self.camera_cfg.fps },
        ];
        Some(Telemetry { profile, stream: "main", metrics })
    }
}

// ---------------------------------------------------------------------------
// laws
// ---------------------------------------------------------------------------

/// The camera state that a start hands out at its end.
pub open spec fn closing_stamp(act: StartAction) -> Option<CameraStateSnapshot> {
    match act {
        StartAction::Fail(s) => Some(s),
        StartAction::TearDown(s) => Some(s),
        StartAction::Run(s, _) => Some(s),
        _ => None,
    }
}

/// A start that fails leaves the pipeline in the error state with a cause, and
/// the camera state says so in the operator's words.
pub proof fn law_a_failed_start_says_why(
    a: VideoOrchestrator,
    e: StartEvent,
    b: VideoOrchestrator,
    act: StartAction,
)
    requires
        starts(a, e, b, act),
        act is Fail || act is TearDown,
    ensures
        b.vitals.state == PipelineState::Error,
        b.vitals.last_start_error != StartError::NoError,
        closing_stamp(act)->0.pipeline_state == PipelineOutcome::Error,
        closing_stamp(act)->0.pipeline_reason is Some,
        text::opt_view(closing_stamp(act)->0.pipeline_reason) == health::reason_text(
            b.vitals.last_start_error,
        ),
{
}

/// A start that succeeds clears the standing failure, gives the pipeline a
/// fresh grace window, and leaves the restart counters to the ticks.
pub proof fn law_a_running_pipeline_has_no_cause(
    a: VideoOrchestrator,
    e: StartEvent,
    b: VideoOrchestrator,
    act: StartAction,
)
    requires
        starts(a, e, b, act),
        act is Run,
    ensures
        b.vitals.state == PipelineState::Running,
        b.vitals.last_start_error == StartError::NoError,
        !b.vitals.first_packet_seen,
        b.vitals.last_healthy_at is None,
        b.vitals.restart_count == a.vitals.restart_count,
        closing_stamp(act)->0.pipeline_state == PipelineOutcome::Streaming,
        closing_stamp(act)->0.pipeline_reason is None,
{
}

/// A retry never hides a failure: while one stands, a stamp of a start that is
/// under way still shows it, with its reason.
pub proof fn law_a_standing_failure_shows(o: VideoOrchestrator, s: CameraStateSnapshot)
    requires
        is_stamp(o, PipelineOutcome::Starting, s),
        o.vitals.last_start_error != StartError::NoError,
    ensures
        s.pipeline_state == PipelineOutcome::Error,
        text::opt_view(s.pipeline_reason) == health::reason_text(o.vitals.last_start_error),
        s.pipeline_reason is Some,
{
}

/// A reason is given for a failure and for nothing else.
pub proof fn law_only_failures_have_reasons(
    o: VideoOrchestrator,
    outcome: PipelineOutcome,
    s: CameraStateSnapshot,
)
    requires
        is_stamp(o, outcome, s),
        s.pipeline_reason is Some,
    ensures
        s.pipeline_state == PipelineOutcome::Error,
{
}

/// Two different failures never read the same.
pub proof fn law_reasons_are_distinct(x: StartError, y: StartError)
    requires
        health::reason_text(x) == health::reason_text(y),
    ensures
        x == y,
{
    reveal_strlit("no primary camera");
    reveal_strlit("no encoder available");
    reveal_strlit("encoder command could not be built");
    reveal_strlit("encoder failed to start");
    reveal_strlit("media server failed to start");
    assert("no primary camera"@.len() == 17);
    assert("no encoder available"@.len() == 20);
    assert("encoder command could not be built"@.len() == 34);
    assert("encoder failed to start"@.len() == 23);
    assert("media server failed to start"@.len() == 28);
}

/// The camera state never disagrees with itself: without an encoder there is no
/// answer to whether it is a hardware one, and no camera is named unless one is
/// ready.
pub proof fn law_stamps_are_consistent(
    o: VideoOrchestrator,
    outcome: PipelineOutcome,
    s: CameraStateSnapshot,
)
    requires
        is_stamp(o, outcome, s),
    ensures
        s.consistent(),
{
}

/// An attention switch can always be taken back: whatever settings the encoder
/// ran with, the full profile without a ceiling brings the configured ones
/// back.
pub proof fn law_attention_is_reversible(o: VideoOrchestrator)
    requires
        o.control.desired.profile == profile::VideoProfile::Hero,
        o.control.desired.ceiling_kbps is None,
    ensures
        with_settings(o.camera_cfg, o.wanted()).width == o.configured.width,
        with_settings(o.camera_cfg, o.wanted()).height == o.configured.height,
        with_settings(o.camera_cfg, o.wanted()).fps == o.configured.fps,
        with_settings(o.camera_cfg, o.wanted()).bitrate_kbps == o.configured.bitrate_kbps,
{
}

/// A node with the single main leg serves exactly the one published path.
pub proof fn law_one_camera_one_path(camera: CameraConfig, legs: Seq<ResolvedLeg>)
    requires
        config::legs_resolved(Seq::empty(), camera, legs),
    ensures
        streams_of(legs) == seq![("main"@, "publisher"@)],
{
    assert(streams_of(legs) =~= seq![("main"@, "publisher"@)]);
}

/// An encoder command that runs `ffmpeg` itself is the one that `ffmpeg` is
/// built for, and goes on with `-y`.
proof fn lemma_plain_commands_begin_with_y(
    p: EncoderParams,
    info: CameraInfo,
    uri: Seq<char>,
    env: EncoderEnv,
)
    ensures
        ({
            let base = command::encoder_command(p, info.device_path@, uri, Some(&info), env);
            base.len() > 0 && base[0] == "ffmpeg"@ ==> base.len() > 1 && base[1] == "-y"@
        }),
        "-y"@ != "-vf"@,
        "bash"@ != "ffmpeg"@,
{
    reveal_strlit("ffmpeg");
    reveal_strlit("bash");
    reveal_strlit("rpicam-vid");
    reveal_strlit("gst-launch-1.0");
    reveal_strlit("-y");
    reveal_strlit("-vf");
    assert("ffmpeg"@.len() == 6);
    assert("bash"@.len() == 4);
    assert("rpicam-vid"@.len() == 10);
    assert("gst-launch-1.0"@.len() == 14);
    assert("-y"@.len() == 2 && "-vf"@.len() == 3);
    let base = command::encoder_command(p, info.device_path@, uri, Some(&info), env);
    match encoder::effective_kind(p.kind, p, env) {
        EncoderKind::RpicamVid => {
            let argv = command::rpicam_argv(p, info.device_path@, env);
            assert(argv[0] == command::rpicam_base(p)[0]);
            assert(base[0] == "bash"@ || base[0] == "rpicam-vid"@);
        },
        EncoderKind::Ffmpeg => {
            assert(base[1] == "-y"@);
        },
        EncoderKind::Gstreamer => {
            assert(base[0] == "bash"@ || base[0] == "gst-launch-1.0"@);
        },
    }
}

/// The vision tap is served one way or the other: where the encoder command
/// carries it, it is a plain `ffmpeg` command, and with any other command the
/// tap runs as a process of its own.
pub proof fn law_the_tap_is_carried_or_decoupled(
    o: VideoOrchestrator,
    info: CameraInfo,
    kind: EncoderKind,
    b: VideoOrchestrator,
)
    requires
        o.vision_on(),
        is_primary_command(o, info, kind, text::views(b.command@), b.raw_tapped),
        b == (VideoOrchestrator { command: b.command, raw_tapped: b.raw_tapped, ..o }),
    ensures
        b.decoupled() <==> !b.raw_tapped,
        b.raw_tapped ==> o.config.vision.raw_tap && text::views(b.command@)[0] == "ffmpeg"@,
        text::views(b.command@).len() > 0 && text::views(b.command@)[0] != "ffmpeg"@
            ==> b.decoupled(),
{
    if b.raw_tapped {
        let p = choose|p: EncoderParams|
            {
                let base = #[trigger] command::encoder_command(
                    p,
                    info.device_path@,
                    o.uri(),
                    Some(&info),
                    o.env,
                );
                is_primary_params(o, kind, p) && text::views(b.command@) == composed(o, base)
                    && b.raw_tapped == carries_tap(o, base)
            };
        let base = command::encoder_command(p, info.device_path@, o.uri(), Some(&info), o.env);
        let m = marked(o, base);
        lemma_plain_commands_begin_with_y(p, info, o.uri(), o.env);
        assert(m == base);
        splice::lemma_with_tap_keeps_the_program(
            m,
            o.config.vision.fps,
            o.config.vision.width,
            o.config.vision.height,
            config::normal_pixel_format(o.config.vision.format@),
            o.config.vision.sink@,
        );
    }
}

} // verus!
