//! The camera-state snapshot that other services read.
//!
//! Discovery and streaming are independent steps, so one snapshot carries both
//! facts: which camera was found, and what the pipeline did with it. The
//! writer adds the time of writing.
use crate::text;
use vstd::prelude::*;

verus! {

/// Where the snapshot is written.
pub const CAMERA_STATE_JSON: &'static str = "/run/ados/camera-state.json";

/// Schema version of the snapshot.
pub const CAMERA_STATE_SIDECAR_VERSION: u16 = 2;

/// What the streaming pipeline did with the camera.
#[derive(Debug, Clone, Copy, PartialEq, Eq, Structural)]
pub enum PipelineOutcome {
    Unknown,
    Starting,
    Streaming,
    Error,
    Stopped,
}

/// What discovery found.
#[derive(Debug, Clone, Copy, PartialEq, Eq, Structural)]
pub enum CameraState {
    Ready,
    Missing,
    Error,
}

/// The wire name of an outcome.
pub open spec fn outcome_name(o: PipelineOutcome) -> Seq<char> {
    match o {
        PipelineOutcome::Unknown => "unknown"@,
        PipelineOutcome::Starting => "starting"@,
        PipelineOutcome::Streaming => "streaming"@,
        PipelineOutcome::Error => "error"@,
        PipelineOutcome::Stopped => "stopped"@,
    }
}

/// The wire name of a camera state.
pub open spec fn state_name(s: CameraState) -> Seq<char> {
    match s {
        CameraState::Ready => "ready"@,
        CameraState::Missing => "missing"@,
        CameraState::Error => "error"@,
    }
}

impl PipelineOutcome {
    /// The wire name.
    pub fn as_str(self) -> (r: &'static str)
        ensures
            r@ == outcome_name(self),
    {
        match self {
            PipelineOutcome::Unknown => "unknown",
            PipelineOutcome::Starting => "starting",
            PipelineOutcome::Streaming => "streaming",
            PipelineOutcome::Error => "error",
            PipelineOutcome::Stopped => "stopped",
        }
    }
}

impl CameraState {
    /// The wire name.
    pub fn as_str(self) -> (r: &'static str)
        ensures
            r@ == state_name(self),
    {
        match self {
            CameraState::Ready => "ready",
            CameraState::Missing => "missing",
            CameraState::Error => "error",
        }
    }
}

/// The snapshot.
#[derive(Debug, Clone, PartialEq, Eq)]
pub struct CameraStateSnapshot {
    pub version: u16,
    pub state: CameraState,
    pub primary_path: Option<String>,
    pub primary_name: Option<String>,
    pub total_cameras: u32,
    pub pipeline_state: PipelineOutcome,
    /// The failure behind an error outcome, in the operator's words.
    pub pipeline_reason: Option<String>,
    /// The identity of the encoder in use.
    pub encoder: Option<String>,
    /// Whether that encoder is a hardware one; absent with the identity.
    pub encoder_hw: Option<bool>,
}

impl CameraStateSnapshot {
    /// The hardware question is only answered next to an encoder identity,
    /// and a camera is only named while one is ready.
    pub open spec fn consistent(self) -> bool {
        &&& self.encoder is None ==> self.encoder_hw is None
        &&& self.state != CameraState::Ready ==> self.primary_path is None && self.primary_name
            is None
    }

    /// The snapshot of a discovery: `ready` takes a primary and at least one
    /// live camera, since a stale primary can linger after its camera is
    /// unplugged.
    pub fn from_discovery(
        primary: Option<(Option<String>, Option<String>)>,
        total_cameras: u32,
    ) -> (r: Self)
        ensures
            r.version == CAMERA_STATE_SIDECAR_VERSION,
            r.total_cameras == total_cameras,
            r.pipeline_state == PipelineOutcome::Unknown,
            r.pipeline_reason is None,
            r.encoder is None,
            r.encoder_hw is None,
            primary is Some && total_cameras > 0 ==> {
                &&& r.state == CameraState::Ready
                &&& r.primary_path == (primary->0).0
                &&& r.primary_name == (primary->0).1
            },
            primary is None || total_cameras == 0 ==> {
                &&& r.state == CameraState::Missing
                &&& r.primary_path is None
                &&& r.primary_name is None
            },
            r.consistent(),
            r.state == CameraState::Ready <==> primary is Some && total_cameras > 0,
    {
        let (state, primary_path, primary_name) = match primary {
            Some((path, name)) => if total_cameras > 0 {
                (CameraState::Ready, path, name)
            } else {
                (CameraState::Missing, None, None)
            },
            None => (CameraState::Missing, None, None),
        };
        CameraStateSnapshot {
            version: CAMERA_STATE_SIDECAR_VERSION,
            state,
            primary_path,
            primary_name,
            total_cameras,
            pipeline_state: PipelineOutcome::Unknown,
            pipeline_reason: None,
            encoder: None,
            encoder_hw: None,
        }
    }

    /// The snapshot of a failed discovery.
    pub fn error(total_cameras: u32) -> (r: Self)
        ensures
            r.version == CAMERA_STATE_SIDECAR_VERSION,
            r.state == CameraState::Error,
            r.primary_path is None,
            r.primary_name is None,
            r.total_cameras == total_cameras,
            r.pipeline_state == PipelineOutcome::Error,
            text::opt_view(r.pipeline_reason) == Some("camera discovery failed"@),
            r.encoder is None,
            r.encoder_hw is None,
            r.consistent(),
    {
        CameraStateSnapshot {
            version: CAMERA_STATE_SIDECAR_VERSION,
            state: CameraState::Error,
            primary_path: None,
            primary_name: None,
            total_cameras,
            pipeline_state: PipelineOutcome::Error,
            pipeline_reason: Some("camera discovery failed".to_owned()),
            encoder: None,
            encoder_hw: None,
        }
    }

    /// Stamp the pipeline's outcome. Without an encoder identity there is no
    /// answer to the hardware question either.
    pub fn with_pipeline(
        self,
        outcome: PipelineOutcome,
        reason: Option<String>,
        encoder: Option<String>,
        encoder_hw: Option<bool>,
    ) -> (r: Self)
        ensures
            r == (CameraStateSnapshot {
                pipeline_state: outcome,
                pipeline_reason: reason,
                encoder: encoder,
                encoder_hw: if encoder is Some {
                    encoder_hw
                } else {
                    None
                },
                ..self
            }),
            self.consistent() ==> r.consistent(),
    {
        let hw = if encoder.is_some() {
            encoder_hw
        } else {
            None
        };
        CameraStateSnapshot {
            version: self.version,
            state: self.state,
            primary_path: self.primary_path,
            primary_name: self.primary_name,
            total_cameras: self.total_cameras,
            pipeline_state: outcome,
            pipeline_reason: reason,
            encoder,
            encoder_hw: hw,
        }
    }
}

/// The wire names of the outcomes and the states.
pub proof fn law_outcomes_have_wire_names()
    ensures
        outcome_name(PipelineOutcome::Unknown) == "unknown"@,
        outcome_name(PipelineOutcome::Starting) == "starting"@,
        outcome_name(PipelineOutcome::Streaming) == "streaming"@,
        outcome_name(PipelineOutcome::Error) == "error"@,
        outcome_name(PipelineOutcome::Stopped) == "stopped"@,
        state_name(CameraState::Ready) == "ready"@,
        state_name(CameraState::Missing) == "missing"@,
        state_name(CameraState::Error) == "error"@,
{
}

/// No two outcomes have the same wire name, nor do two camera states.
pub proof fn law_wire_names_are_distinct(
    a: PipelineOutcome,
    b: PipelineOutcome,
    c: CameraState,
    d: CameraState,
)
    ensures
        outcome_name(a) == outcome_name(b) ==> a == b,
        state_name(c) == state_name(d) ==> c == d,
{
    reveal_strlit("unknown");
    reveal_strlit("starting");
    reveal_strlit("streaming");
    reveal_strlit("error");
    reveal_strlit("stopped");
    reveal_strlit("ready");
    reveal_strlit("missing");
    assert("unknown"@[0] == 'u' && "starting"@[2] == 'a' && "streaming"@[2] == 'r' && "error"@[0]
        == 'e' && "stopped"@[2] == 'o' && "starting"@[0] == 's' && "streaming"@[0] == 's'
        && "stopped"@[0] == 's' && "ready"@[0] == 'r' && "missing"@[0] == 'm');
}

/// Where the camera state is written, and its version.
pub proof fn law_where_the_camera_state_is()
    ensures
        CAMERA_STATE_JSON@ == "/run/ados/camera-state.json"@,
        CAMERA_STATE_SIDECAR_VERSION == 2,
{
}

/// A consistent state answers the hardware question only beside an encoder, and
/// names a camera only while one is ready.
pub proof fn law_what_is_consistent(s: CameraStateSnapshot)
    ensures
        s.consistent() <==> (s.encoder_hw is Some ==> s.encoder is Some) && (s.primary_path is Some
            || s.primary_name is Some ==> s.state == CameraState::Ready),
{
}

} // verus!
