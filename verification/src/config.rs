//! Camera and video settings, and the video legs that they resolve to.
//!
//! The settings come from the `video:` and `agent:` blocks of the agent's
//! configuration file. Reading and parsing the file happens outside; this
//! module holds the defaults, the gates that the service consults and the rule
//! that turns the configured cameras into the legs that are actually driven.
use crate::text;
use vstd::prelude::*;

verus! {

/// Capture geometry, frame rate and bitrate of one attention profile.
#[derive(Debug, Clone, Copy, PartialEq, Eq, Structural)]
pub struct CameraProfile {
    pub width: u32,
    pub height: u32,
    pub fps: u32,
    pub bitrate_kbps: u32,
}

impl CameraProfile {
    /// The small profile that every aircraft but the selected one runs.
    pub open spec fn thumbnail_spec() -> CameraProfile {
        CameraProfile { width: 320, height: 180, fps: 1, bitrate_kbps: 50 }
    }

    /// The small profile that every aircraft but the selected one runs.
    pub fn thumbnail() -> (r: CameraProfile)
        ensures
            r == Self::thumbnail_spec(),
    {
        CameraProfile { width: 320, height: 180, fps: 1, bitrate_kbps: 50 }
    }
}

/// Camera capture and encode settings (`video.camera:`).
#[derive(Debug, Clone)]
pub struct CameraConfig {
    /// "csi" | "usb" | "ip" device hint, or a device path / RTSP URL.
    pub source: String,
    /// Wire codec.
    pub codec: String,
    pub width: u32,
    pub height: u32,
    pub fps: u32,
    pub bitrate_kbps: u32,
    /// Operator wire-codec preference: "h264" | "h265" | "auto".
    pub codec_preference: String,
    /// Encoder override: "auto" (probe) | "omx" | "v4l2m2m" | "software".
    pub encoder: String,
    /// Clockwise image rotation in degrees (0 | 90 | 180 | 270).
    pub rotation: u32,
    pub hflip: bool,
    pub vflip: bool,
    /// Keyframe interval in frames; 0 lets the encoder pick a short one.
    pub keyframe_interval: u32,
    /// The thumbnail attention profile (`video.camera.thumbnail:`).
    pub thumbnail: CameraProfile,
}

impl Default for CameraConfig {
    fn default() -> (r: Self)
        ensures
            r.source@ == "csi"@,
            r.codec@ == "h264"@,
            r.width == 1280,
            r.height == 720,
            r.fps == 30,
            r.bitrate_kbps == 4000,
            r.codec_preference@ == "auto"@,
            r.encoder@ == "auto"@,
            r.rotation == 0,
            !r.hflip,
            !r.vflip,
            r.keyframe_interval == 0,
            r.thumbnail == CameraProfile::thumbnail_spec(),
    {
        CameraConfig {
            source: "csi".to_owned(),
            codec: "h264".to_owned(),
            width: 1280,
            height: 720,
            fps: 30,
            bitrate_kbps: 4000,
            codec_preference: "auto".to_owned(),
            encoder: "auto".to_owned(),
            rotation: 0,
            hflip: false,
            vflip: false,
            keyframe_interval: 0,
            thumbnail: CameraProfile::thumbnail(),
        }
    }
}

/// `s` names a network stream.
pub open spec fn is_stream_url(s: Seq<char>) -> bool {
    "rtsp://"@.is_prefix_of(s) || "http://"@.is_prefix_of(s)
}

/// The network stream that a capture source names, if it names one: the
/// source without surrounding whitespace, when that is an `rtsp://` or
/// `http://` URL.
pub open spec fn network_source_of(source: Seq<char>) -> Option<Seq<char>> {
    let s = text::trimmed(source);
    if is_stream_url(s) {
        Some(s)
    } else {
        None
    }
}

/// `s` names a network stream.
pub fn stream_url(s: &str) -> (r: bool)
    ensures
        r == is_stream_url(s@),
{
    text::starts_with(s, "rtsp://") || text::starts_with(s, "http://")
}

/// The network stream that a capture source names, if it names one.
pub fn trimmed_stream_url(source: &str) -> (r: Option<&str>)
    ensures
        match r {
            Some(url) => network_source_of(source@) == Some(url@),
            None => network_source_of(source@) is None,
        },
{
    let s = text::trim(source);
    if stream_url(s) {
        Some(s)
    } else {
        None
    }
}

impl CameraConfig {
    /// An explicit network capture source (`rtsp://…` or `http://…`), or
    /// `None` for the local-camera discovery path. The hint strings and bare
    /// device paths yield `None`.
    pub fn network_source(&self) -> (r: Option<&str>)
        ensures
            match r {
                Some(url) => network_source_of(self.source@) == Some(url@),
                None => network_source_of(self.source@) is None,
            },
    {
        trimmed_stream_url(self.source.as_str())
    }
}

/// One entry of the optional `video.cameras:` list: a single video leg that
/// the node serves under its own path.
#[derive(Debug, Clone)]
pub struct CameraLeg {
    /// Stable per-node stream id: the media-server path name.
    pub id: String,
    /// A device hint / path (encoded locally) or a stream URL.
    pub source: String,
    /// `"primary"` designates the radio / cloud stream; any other value (or
    /// none) is a secondary.
    pub role: Option<String>,
    pub codec: String,
    pub width: u32,
    pub height: u32,
    pub fps: u32,
    pub bitrate_kbps: u32,
}

impl CameraLeg {
    /// An explicit network capture source, or `None` for a local device.
    pub fn network_source(&self) -> (r: Option<&str>)
        ensures
            match r {
                Some(url) => network_source_of(self.source@) == Some(url@),
                None => network_source_of(self.source@) is None,
            },
    {
        trimmed_stream_url(self.source.as_str())
    }

    /// The leg declares itself the primary.
    pub open spec fn declares_primary(self) -> bool {
        text::opt_view(self.role) == Some("primary"@)
    }
}

/// A resolved video leg. Exactly one leg is the primary; a secondary with a
/// network source is pulled by the media server on demand, every other leg is
/// an encoder that this node owns.
#[derive(Debug, Clone, PartialEq, Eq)]
pub struct ResolvedLeg {
    pub id: String,
    pub source: String,
    pub role: String,
    pub codec: String,
    /// The single designated primary leg.
    pub is_primary: bool,
    /// The media server pulls the source on demand.
    pub is_network_pull: bool,
    pub width: u32,
    pub height: u32,
    pub fps: u32,
    pub bitrate_kbps: u32,
}

impl ResolvedLeg {
    /// A [`CameraConfig`] view of this leg, so that a secondary reuses the
    /// encoder command builder of the primary. What a leg does not carry takes
    /// its default.
    pub fn to_camera_config(&self) -> (r: CameraConfig)
        ensures
            r.source@ == self.source@,
            r.codec@ == self.codec@,
            r.width == self.width,
            r.height == self.height,
            r.fps == self.fps,
            r.bitrate_kbps == self.bitrate_kbps,
            r.codec_preference@ == "auto"@,
            r.encoder@ == "auto"@,
            r.rotation == 0,
            !r.hflip,
            !r.vflip,
            r.keyframe_interval == 0,
            r.thumbnail == CameraProfile::thumbnail_spec(),
    {
        CameraConfig {
            source: self.source.clone(),
            codec: self.codec.clone(),
            width: self.width,
            height: self.height,
            fps: self.fps,
            bitrate_kbps: self.bitrate_kbps,
            codec_preference: "auto".to_owned(),
            encoder: "auto".to_owned(),
            rotation: 0,
            hflip: false,
            vflip: false,
            keyframe_interval: 0,
            thumbnail: CameraProfile::thumbnail(),
        }
    }

    /// A leg whose encoder this node owns (the primary, or a local secondary).
    pub open spec fn owned(self) -> bool {
        self.is_primary || !self.is_network_pull
    }

    /// A leg whose encoder this node owns (the primary, or a local secondary).
    pub fn is_owned_encoder(&self) -> (r: bool)
        ensures
            r == self.owned(),
    {
        self.is_primary || !self.is_network_pull
    }

    /// The leg that the legacy single-camera block resolves to.
    pub open spec fn is_sole_leg_of(self, camera: CameraConfig) -> bool {
        &&& self.id@ == "main"@
        &&& self.source@ == camera.source@
        &&& self.role@ == "primary"@
        &&& self.codec@ == camera.codec@
        &&& self.is_primary
        &&& !self.is_network_pull
        &&& self.width == camera.width
        &&& self.height == camera.height
        &&& self.fps == camera.fps
        &&& self.bitrate_kbps == camera.bitrate_kbps
    }

    /// The leg that the configured camera `c` resolves to, given whether it is
    /// the primary one.
    pub open spec fn is_leg_of(self, c: CameraLeg, primary: bool) -> bool {
        &&& self.is_primary == primary
        &&& self.is_network_pull == (!primary && network_source_of(c.source@) is Some)
        &&& self.id@ == (if primary {
            "main"@
        } else {
            c.id@
        })
        &&& self.role@ == (match text::opt_view(c.role) {
            Some(role) => role,
            None => if primary {
                "primary"@
            } else {
                "secondary"@
            },
        })
        &&& self.source@ == c.source@
        &&& self.codec@ == c.codec@
        &&& self.width == c.width
        &&& self.height == c.height
        &&& self.fps == c.fps
        &&& self.bitrate_kbps == c.bitrate_kbps
    }
}

/// The `video.vision:` block: an additive frame tap for the on-box vision
/// engine, off by default.
#[derive(Debug, Clone)]
pub struct VisionTapConfig {
    pub enabled: bool,
    pub fps: u32,
    pub width: u32,
    pub height: u32,
    /// Raw pixel format of the emitted frames: "rgb24" | "nv12" | "yuv420p".
    pub format: String,
    /// Ride a pre-encode filter split inside the encoder command instead of
    /// the decoupled tap process.
    pub raw_tap: bool,
    /// The path that the vision engine reads frames from.
    pub sink: String,
}

impl Default for VisionTapConfig {
    fn default() -> (r: Self)
        ensures
            !r.enabled,
            r.fps == 10,
            r.width == 640,
            r.height == 480,
            r.format@ == "rgb24"@,
            !r.raw_tap,
            r.sink@ == "/run/ados/vision-tap-main.sock"@,
    {
        VisionTapConfig {
            enabled: false,
            fps: 10,
            width: 640,
            height: 480,
            format: "rgb24".to_owned(),
            raw_tap: false,
            sink: "/run/ados/vision-tap-main.sock".to_owned(),
        }
    }
}

/// The pixel format that a configured one stands for: itself when it is known,
/// `rgb24` otherwise.
pub open spec fn normal_pixel_format(format: Seq<char>) -> Seq<char> {
    if format == "nv12"@ || format == "yuv420p"@ {
        format
    } else {
        "rgb24"@
    }
}

impl VisionTapConfig {
    /// The configured pixel format, or `rgb24` for an unrecognised one, so
    /// that a typo never wedges the tap.
    pub fn pixel_format(&self) -> (r: &str)
        ensures
            r@ == normal_pixel_format(self.format@),
    {
        let f = self.format.as_str();
        if text::same(f, "nv12") || text::same(f, "yuv420p") {
            f
        } else {
            "rgb24"
        }
    }
}

/// The `video.wfb:` fields that the video service reads.
#[derive(Debug, Clone)]
pub struct WfbVideoConfig {
    /// Stamp a wall-clock marker into the stream ahead of the media server.
    pub sei_latency: bool,
}

impl Default for WfbVideoConfig {
    fn default() -> (r: Self)
        ensures
            !r.sei_latency,
    {
        WfbVideoConfig { sei_latency: false }
    }
}

/// The agent-level settings that the video service gates on.
#[derive(Debug, Clone)]
pub struct AgentVideoConfig {
    /// `video.mode`: "wfb" | "cloud" | "disabled" | ...
    pub mode: String,
    /// The resolved agent profile.
    pub profile: Option<String>,
    /// Cloud relay base URL; empty or absent means no cloud push.
    pub cloud_relay_url: Option<String>,
    pub cloud_rtp_port: u16,
    pub wfb: WfbVideoConfig,
    pub vision: VisionTapConfig,
    /// The optional `video.cameras:` list.
    pub cameras: Vec<CameraLeg>,
}

impl Default for AgentVideoConfig {
    fn default() -> (r: Self)
        ensures
            r.mode@ == "wfb"@,
            r.profile is None,
            r.cloud_relay_url is None,
            r.cloud_rtp_port == 8000,
            !r.wfb.sei_latency,
            !r.vision.enabled,
            r.vision.fps == 10,
            r.vision.width == 640,
            r.vision.height == 480,
            r.vision.format@ == "rgb24"@,
            !r.vision.raw_tap,
            r.vision.sink@ == "/run/ados/vision-tap-main.sock"@,
            r.cameras@.len() == 0,
    {
        AgentVideoConfig {
            mode: "wfb".to_owned(),
            profile: None,
            cloud_relay_url: None,
            cloud_rtp_port: 8000,
            wfb: WfbVideoConfig::default(),
            vision: VisionTapConfig::default(),
            cameras: Vec::new(),
        }
    }
}

/// The index of the primary among the configured cameras: the first that
/// declares itself primary, else the first.
pub open spec fn primary_index(cameras: Seq<CameraLeg>) -> int {
    if exists|i: int| 0 <= i < cameras.len() && #[trigger] cameras[i].declares_primary() {
        choose|i: int|
            0 <= i < cameras.len() && #[trigger] cameras[i].declares_primary() && forall|j: int|
                0 <= j < i ==> !(#[trigger] cameras[j].declares_primary())
    } else {
        0
    }
}

/// The legs `legs` are what `cameras` resolve to over the single-camera block
/// `camera`.
pub open spec fn legs_resolved(
    cameras: Seq<CameraLeg>,
    camera: CameraConfig,
    legs: Seq<ResolvedLeg>,
) -> bool {
    if cameras.len() == 0 {
        legs.len() == 1 && legs[0].is_sole_leg_of(camera)
    } else {
        legs.len() == cameras.len() && forall|i: int|
            0 <= i < cameras.len() ==> (#[trigger] legs[i]).is_leg_of(
                cameras[i],
                i == primary_index(cameras),
            )
    }
}

impl AgentVideoConfig {
    /// Combine the parsed file: `video.profile` overrides `agent.profile`, and
    /// everything else is taken as it is.
    pub fn from_sections(agent_profile: Option<String>, video: AgentVideoConfig) -> (r: Self)
        ensures
            r.profile == (if video.profile is Some {
                video.profile
            } else {
                agent_profile
            }),
            r.mode == video.mode,
            r.cloud_relay_url == video.cloud_relay_url,
            r.cloud_rtp_port == video.cloud_rtp_port,
            r.wfb == video.wfb,
            r.vision == video.vision,
            r.cameras == video.cameras,
    {
        let profile = match video.profile {
            Some(p) => Some(p),
            None => agent_profile,
        };
        AgentVideoConfig {
            mode: video.mode,
            profile,
            cloud_relay_url: video.cloud_relay_url,
            cloud_rtp_port: video.cloud_rtp_port,
            wfb: video.wfb,
            vision: video.vision,
            cameras: video.cameras,
        }
    }

    /// The index of the primary among the configured cameras.
    fn find_primary(&self) -> (r: usize)
        requires
            self.cameras@.len() > 0,
        ensures
            r == primary_index(self.cameras@),
            r < self.cameras@.len(),
    {
        let ghost legs = self.cameras@;
        let mut i: usize = 0;
        while i < self.cameras.len()
            invariant
                legs == self.cameras@,
                i <= legs.len(),
                legs.len() > 0,
                forall|j: int| 0 <= j < i ==> !(#[trigger] legs[j].declares_primary()),
            decreases legs.len() - i,
        {
            let declared = match &self.cameras[i].role {
                Some(role) => text::same(role.as_str(), "primary"),
                None => false,
            };
            if declared {
                proof {
                    assert(legs[i as int].declares_primary());
                    let p = primary_index(legs);
                    assert(0 <= p < legs.len() && legs[p].declares_primary() && forall|j: int|
                        0 <= j < p ==> !(#[trigger] legs[j].declares_primary()));
                    assert(p == i);
                }
                return i;
            }
            i += 1;
        }
        0
    }

    /// Resolve the video legs that are driven.
    ///
    /// Without configured cameras there is a single `main` primary leg built
    /// from the single-camera block. Otherwise the first camera whose role is
    /// `"primary"` (else the first) is the primary, always an owned encoder
    /// served at the fixed id `main`, and every other camera keeps its id and
    /// is a media-server pull when its source is a network stream.
    pub fn resolve_legs(&self, camera: &CameraConfig) -> (r: Vec<ResolvedLeg>)
        ensures
            legs_resolved(self.cameras@, *camera, r@),
    {
        if self.cameras.len() == 0 {
            let leg = ResolvedLeg {
                id: "main".to_owned(),
                source: camera.source.clone(),
                role: "primary".to_owned(),
                codec: camera.codec.clone(),
                is_primary: true,
                is_network_pull: false,
                width: camera.width,
                height: camera.height,
                fps: camera.fps,
                bitrate_kbps: camera.bitrate_kbps,
            };
            let mut out: Vec<ResolvedLeg> = Vec::new();
            out.push(leg);
            return out;
        }
        let primary: usize = self.find_primary();
        let mut out: Vec<ResolvedLeg> = Vec::new();
        let mut i: usize = 0;
        while i < self.cameras.len()
            invariant
                i <= self.cameras@.len(),
                out@.len() == i,
                primary == primary_index(self.cameras@),
                forall|j: int|
                    0 <= j < i ==> (#[trigger] out@[j]).is_leg_of(
                        self.cameras@[j],
                        j == primary,
                    ),
            decreases self.cameras@.len() - i,
        {
            let c = &self.cameras[i];
            let is_primary = i == primary;
            let is_network_pull = !is_primary && c.network_source().is_some();
            let role = match &c.role {
                Some(role) => role.clone(),
                None => if is_primary {
                    "primary".to_owned()
                } else {
                    "secondary".to_owned()
                },
            };
            let id = if is_primary {
                "main".to_owned()
            } else {
                c.id.clone()
            };
            out.push(
                ResolvedLeg {
                    id,
                    source: c.source.clone(),
                    role,
                    codec: c.codec.clone(),
                    is_primary,
                    is_network_pull,
                    width: c.width,
                    height: c.height,
                    fps: c.fps,
                    bitrate_kbps: c.bitrate_kbps,
                },
            );
            i += 1;
        }
        out
    }

    /// The profile is the ground station's, in either spelling.
    pub open spec fn ground_station(self) -> bool {
        text::opt_view(self.profile) == Some("ground_station"@) || text::opt_view(self.profile)
            == Some("ground-station"@)
    }

    /// True on a ground station, where no air-side pipeline runs.
    pub fn is_ground_station(&self) -> (r: bool)
        ensures
            r == self.ground_station(),
    {
        match &self.profile {
            Some(p) => text::same(p.as_str(), "ground_station") || text::same(
                p.as_str(),
                "ground-station",
            ),
            None => false,
        }
    }

    /// True when `video.mode` is `"disabled"`.
    pub fn is_disabled(&self) -> (r: bool)
        ensures
            r == (self.mode@ == "disabled"@),
    {
        text::same(self.mode.as_str(), "disabled")
    }

    /// A non-empty cloud relay URL is configured.
    pub open spec fn cloud_on(self) -> bool {
        self.cloud_relay_url is Some && self.cloud_relay_url->0@.len() > 0
    }

    /// True when a non-empty cloud relay URL is configured.
    pub fn cloud_enabled(&self) -> (r: bool)
        ensures
            r == self.cloud_on(),
    {
        match &self.cloud_relay_url {
            Some(url) => !url.as_str().is_empty(),
            None => false,
        }
    }
}

// ---------------------------------------------------------------------------
// laws
// ---------------------------------------------------------------------------

/// The primary is one of the configured cameras.
proof fn lemma_primary_index_in_range(cameras: Seq<CameraLeg>)
    requires
        cameras.len() > 0,
    ensures
        0 <= primary_index(cameras) < cameras.len(),
{
    if exists|i: int| 0 <= i < cameras.len() && #[trigger] cameras[i].declares_primary() {
        let w = choose|i: int| 0 <= i < cameras.len() && #[trigger] cameras[i].declares_primary();
        lemma_first_primary(cameras, w);
    }
}

/// Some declared primary comes before all others.
proof fn lemma_first_primary(cameras: Seq<CameraLeg>, w: int)
    requires
        0 <= w < cameras.len(),
        cameras[w].declares_primary(),
    ensures
        exists|i: int|
            0 <= i < cameras.len() && #[trigger] cameras[i].declares_primary() && forall|j: int|
                0 <= j < i ==> !(#[trigger] cameras[j].declares_primary()),
    decreases w,
{
    if exists|j: int| 0 <= j < w && #[trigger] cameras[j].declares_primary() {
        let j = choose|j: int| 0 <= j < w && #[trigger] cameras[j].declares_primary();
        lemma_first_primary(cameras, j);
    }
}

/// However the cameras are configured, exactly one resolved leg is the
/// primary; it is served at the fixed id `main` and its encoder is owned.
pub proof fn law_exactly_one_primary(
    cameras: Seq<CameraLeg>,
    camera: CameraConfig,
    legs: Seq<ResolvedLeg>,
)
    requires
        legs_resolved(cameras, camera, legs),
    ensures
        exists|p: int|
            {
                &&& 0 <= p < legs.len()
                &&& #[trigger] legs[p].is_primary
                &&& legs[p].id@ == "main"@
                &&& legs[p].owned()
                &&& forall|i: int| 0 <= i < legs.len() && legs[i].is_primary ==> i == p
            },
{
    if cameras.len() == 0 {
        assert(legs[0].is_primary);
    } else {
        lemma_primary_index_in_range(cameras);
        assert(legs[primary_index(cameras)].is_primary);
    }
}

/// Every leg that is not the primary keeps the id of its camera, and is pulled
/// by the media server exactly when its source is a network stream.
pub proof fn law_secondaries_keep_their_id(
    cameras: Seq<CameraLeg>,
    camera: CameraConfig,
    legs: Seq<ResolvedLeg>,
    i: int,
)
    requires
        cameras.len() > 0,
        legs_resolved(cameras, camera, legs),
        0 <= i < legs.len(),
        !legs[i].is_primary,
    ensures
        legs[i].id@ == cameras[i].id@,
        legs[i].is_network_pull == (network_source_of(cameras[i].source@) is Some),
        legs[i].owned() == (network_source_of(cameras[i].source@) is None),
{
}

/// The small profile: 320 by 180, one frame a second, 50 kbit/s.
pub proof fn law_the_small_profile()
    ensures
        CameraProfile::thumbnail_spec().width == 320,
        CameraProfile::thumbnail_spec().height == 180,
        CameraProfile::thumbnail_spec().fps == 1,
        CameraProfile::thumbnail_spec().bitrate_kbps == 50,
{
}

/// A source is a network stream exactly where it begins with `rtsp://` or
/// `http://` behind any whitespace; the stream is the source without the
/// whitespace around it.
pub proof fn law_which_sources_are_streams(source: Seq<char>, rest: Seq<char>)
    ensures
        network_source_of(source) is Some <==> "rtsp://"@.is_prefix_of(text::trimmed(source))
            || "http://"@.is_prefix_of(text::trimmed(source)),
        network_source_of(source) is Some ==> network_source_of(source)->0 == text::trimmed(source),
        text::trimmed(source) == "rtsp://"@ + rest ==> network_source_of(source) == Some(
            "rtsp://"@ + rest,
        ),
        text::trimmed(source) == "http://"@ + rest ==> network_source_of(source) == Some(
            "http://"@ + rest,
        ),
        text::trimmed(source) == "/dev/"@ + rest ==> network_source_of(source) is None,
{
    reveal_strlit("rtsp://");
    reveal_strlit("http://");
    reveal_strlit("/dev/");
    let s = text::trimmed(source);
    let (r, h) = ("rtsp://"@, "http://"@);
    assert((r + rest).subrange(0, 7) =~= r);
    assert((h + rest).subrange(0, 7) =~= h);
    if s == "/dev/"@ + rest {
        assert(s[0] == '/');
        if r.is_prefix_of(s) {
            assert(s.subrange(0, 7)[0] == s[0]);
        }
        if h.is_prefix_of(s) {
            assert(s.subrange(0, 7)[0] == s[0]);
        }
    }
}

/// The first camera that declares itself primary is the primary one; where none
/// does, it is the first.
pub proof fn law_which_camera_is_primary(cameras: Seq<CameraLeg>, k: int)
    requires
        cameras.len() > 0,
    ensures
        0 <= k < cameras.len() && text::opt_view(cameras[k].role) == Some("primary"@) && (forall|
            j: int,
        |
            0 <= j < k ==> text::opt_view((#[trigger] cameras[j]).role) != Some("primary"@))
            ==> primary_index(cameras) == k,
        (forall|j: int|
            0 <= j < cameras.len() ==> text::opt_view((#[trigger] cameras[j]).role) != Some(
                "primary"@,
            )) ==> primary_index(cameras) == 0,
{
    if 0 <= k < cameras.len() && text::opt_view(cameras[k].role) == Some("primary"@) && (forall|
        j: int,
    |
        0 <= j < k ==> text::opt_view((#[trigger] cameras[j]).role) != Some("primary"@)) {
        assert(cameras[k].declares_primary());
        assert forall|j: int| 0 <= j < k implies !(#[trigger] cameras[j].declares_primary()) by {
            assert(text::opt_view(cameras[j].role) != Some("primary"@));
        }
        let p = primary_index(cameras);
        assert(0 <= p < cameras.len() && cameras[p].declares_primary() && forall|j: int|
            0 <= j < p ==> !(#[trigger] cameras[j].declares_primary()));
        assert(p == k);
    }
    if forall|j: int|
        0 <= j < cameras.len() ==> text::opt_view((#[trigger] cameras[j]).role) != Some(
            "primary"@,
        ) {
        assert forall|j: int| 0 <= j < cameras.len() implies !(
        #[trigger] cameras[j].declares_primary()) by {
            assert(text::opt_view(cameras[j].role) != Some("primary"@));
        }
    }
}

/// Every leg is encoded at the settings of its own camera, from its own source.
pub proof fn law_legs_keep_their_settings(
    cameras: Seq<CameraLeg>,
    camera: CameraConfig,
    legs: Seq<ResolvedLeg>,
    i: int,
)
    requires
        legs_resolved(cameras, camera, legs),
        0 <= i < legs.len(),
    ensures
        cameras.len() == 0 ==> legs.len() == 1 && legs[i].source@ == camera.source@ && legs[i].width
            == camera.width && legs[i].height == camera.height && legs[i].fps == camera.fps
            && legs[i].bitrate_kbps == camera.bitrate_kbps && legs[i].codec@ == camera.codec@
            && legs[i].is_primary && legs[i].id@ == "main"@,
        cameras.len() > 0 ==> legs.len() == cameras.len() && legs[i].source@ == cameras[i].source@
            && legs[i].width == cameras[i].width && legs[i].height == cameras[i].height
            && legs[i].fps == cameras[i].fps && legs[i].bitrate_kbps == cameras[i].bitrate_kbps
            && legs[i].codec@ == cameras[i].codec@ && (legs[i].is_primary <==> i == primary_index(
            cameras,
        )),
        legs[i].is_primary ==> !legs[i].is_network_pull && legs[i].id@ == "main"@,
        cameras.len() > 0 && cameras[i].role is None ==> legs[i].role@ == (if legs[i].is_primary {
            "primary"@
        } else {
            "secondary"@
        }),
{
    if cameras.len() > 0 {
        assert(legs[i].is_leg_of(cameras[i], i == primary_index(cameras)));
    }
}

/// A node owns the encoder of a leg unless the media server pulls it.
pub proof fn law_whose_encoder_it_is(leg: ResolvedLeg)
    ensures
        leg.owned() <==> leg.is_primary || !leg.is_network_pull,
{
}

/// A known pixel format stays, and any other is read as the default one.
pub proof fn law_unknown_formats_are_the_default(format: Seq<char>)
    ensures
        normal_pixel_format("nv12"@) == "nv12"@,
        normal_pixel_format("yuv420p"@) == "yuv420p"@,
        normal_pixel_format("rgb24"@) == "rgb24"@,
        format != "nv12"@ && format != "yuv420p"@ ==> normal_pixel_format(format) == "rgb24"@,
{
}

/// A ground station is one in either spelling, and nothing else is; the relay is
/// on exactly where its address is not empty.
pub proof fn law_what_the_node_is(c: AgentVideoConfig)
    ensures
        c.ground_station() <==> c.profile is Some && (c.profile->0@ == "ground_station"@
            || c.profile->0@ == "ground-station"@),
        c.cloud_on() <==> c.cloud_relay_url is Some && c.cloud_relay_url->0@.len() > 0,
{
}

} // verus!
