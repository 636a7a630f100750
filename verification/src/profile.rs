//! Attention-based video: the hero / thumbnail policy.
//!
//! A fleet shares one radio channel, so exactly one aircraft (the hero)
//! encodes at the full camera settings and every other one drops to the
//! thumbnail profile. Two independent inputs steer an encoder. The profile owns
//! geometry, frame rate and the nominal bitrate; the ceiling of the adaptive
//! bitrate ladder only ever clamps the bitrate. They compose in [`resolve`],
//! and neither can overwrite the other.
use crate::config::{CameraConfig, CameraProfile};
use crate::text;
use vstd::prelude::*;

verus! {

/// The settings that an encoder runs with.
pub type EncoderSettings = CameraProfile;

/// Which attention profile the encoder is running.
#[derive(Debug, Clone, Copy, PartialEq, Eq, Structural)]
pub enum VideoProfile {
    /// The operator's selected aircraft.
    Hero,
    /// Every other aircraft.
    Thumbnail,
}

impl Default for VideoProfile {
    fn default() -> (r: Self)
        ensures
            r == VideoProfile::Thumbnail,
    {
        VideoProfile::Thumbnail
    }
}

/// The wire string of a profile.
pub open spec fn wire_name(p: VideoProfile) -> Seq<char> {
    match p {
        VideoProfile::Hero => "hero"@,
        VideoProfile::Thumbnail => "thumbnail"@,
    }
}

/// The profile that a wire string names.
pub open spec fn profile_named(s: Seq<char>) -> Option<VideoProfile> {
    if s == "hero"@ {
        Some(VideoProfile::Hero)
    } else if s == "thumbnail"@ {
        Some(VideoProfile::Thumbnail)
    } else {
        None
    }
}

impl VideoProfile {
    /// The wire string (`"hero"` / `"thumbnail"`).
    pub fn as_str(self) -> (r: &'static str)
        ensures
            r@ == wire_name(self),
    {
        match self {
            VideoProfile::Hero => "hero",
            VideoProfile::Thumbnail => "thumbnail",
        }
    }

    /// Parse a wire string. Case-sensitive and exact: a typo must fail rather
    /// than pick a profile.
    pub fn parse(s: &str) -> (r: Option<Self>)
        ensures
            r == profile_named(s@),
    {
        if text::same(s, "hero") {
            Some(VideoProfile::Hero)
        } else if text::same(s, "thumbnail") {
            Some(VideoProfile::Thumbnail)
        } else {
            None
        }
    }
}

/// The profile that a node boots into: thumbnail on the shared radio channel,
/// hero anywhere else.
pub fn boot_profile(video_mode: &str) -> (r: VideoProfile)
    ensures
        r == (if video_mode@ == "wfb"@ {
            VideoProfile::Thumbnail
        } else {
            VideoProfile::Hero
        }),
        r == VideoProfile::Thumbnail <==> video_mode@ == "wfb"@,
{
    if text::same(video_mode, "wfb") {
        VideoProfile::Thumbnail
    } else {
        VideoProfile::Hero
    }
}

/// The unclamped settings of a profile: the camera block for the hero, its
/// `thumbnail:` block for the thumbnail.
pub open spec fn base_of(profile: VideoProfile, cfg: CameraConfig) -> EncoderSettings {
    match profile {
        VideoProfile::Hero => CameraProfile {
            width: cfg.width,
            height: cfg.height,
            fps: cfg.fps,
            bitrate_kbps: cfg.bitrate_kbps,
        },
        VideoProfile::Thumbnail => cfg.thumbnail,
    }
}

/// The unclamped settings of a profile.
pub fn base_settings(profile: VideoProfile, cfg: &CameraConfig) -> (r: EncoderSettings)
    ensures
        r == base_of(profile, *cfg),
{
    match profile {
        VideoProfile::Hero => CameraProfile {
            width: cfg.width,
            height: cfg.height,
            fps: cfg.fps,
            bitrate_kbps: cfg.bitrate_kbps,
        },
        VideoProfile::Thumbnail => cfg.thumbnail,
    }
}

/// The settings that the encoder runs: geometry and frame rate of the profile,
/// and its bitrate no higher than the ceiling.
pub open spec fn resolved(profile: VideoProfile, ceiling_kbps: Option<u32>, cfg: CameraConfig)
    -> EncoderSettings {
    let base = base_of(profile, cfg);
    match ceiling_kbps {
        Some(c) if c < base.bitrate_kbps => CameraProfile { bitrate_kbps: c, ..base },
        _ => base,
    }
}

/// Compose the profile and the ceiling into the settings that the encoder runs.
pub fn resolve(profile: VideoProfile, ceiling_kbps: Option<u32>, cfg: &CameraConfig) -> (r:
    EncoderSettings)
    ensures
        r == resolved(profile, ceiling_kbps, *cfg),
{
    let mut s = base_settings(profile, cfg);
    match ceiling_kbps {
        Some(c) => {
            if c < s.bitrate_kbps {
                s.bitrate_kbps = c;
            }
        },
        None => {},
    }
    s
}

/// Make `cfg` encode with `settings`; nothing else of the block changes.
pub fn apply_settings_to(cfg: &mut CameraConfig, settings: EncoderSettings)
    ensures
        *final(cfg) == (CameraConfig {
            width: settings.width,
            height: settings.height,
            fps: settings.fps,
            bitrate_kbps: settings.bitrate_kbps,
            ..*old(cfg)
        }),
{
    cfg.width = settings.width;
    cfg.height = settings.height;
    cfg.fps = settings.fps;
    cfg.bitrate_kbps = settings.bitrate_kbps;
}

/// The full attention state, as published and as answered on the command
/// socket.
#[derive(Debug, Clone, Copy, PartialEq, Eq, Structural)]
pub struct EncoderState {
    pub profile: VideoProfile,
    /// The adaptive ladder's clamp, or `None` when unclamped.
    pub ceiling_kbps: Option<u32>,
    pub width: u32,
    pub height: u32,
    pub fps: u32,
    pub bitrate_kbps: u32,
}

impl EncoderState {
    /// The settings part of the state.
    pub open spec fn settings_part(self) -> EncoderSettings {
        CameraProfile {
            width: self.width,
            height: self.height,
            fps: self.fps,
            bitrate_kbps: self.bitrate_kbps,
        }
    }

    pub fn new(profile: VideoProfile, ceiling_kbps: Option<u32>, s: EncoderSettings) -> (r: Self)
        ensures
            r.profile == profile,
            r.ceiling_kbps == ceiling_kbps,
            r.settings_part() == s,
    {
        EncoderState {
            profile,
            ceiling_kbps,
            width: s.width,
            height: s.height,
            fps: s.fps,
            bitrate_kbps: s.bitrate_kbps,
        }
    }

    pub fn settings(&self) -> (r: EncoderSettings)
        ensures
            r == self.settings_part(),
    {
        CameraProfile {
            width: self.width,
            height: self.height,
            fps: self.fps,
            bitrate_kbps: self.bitrate_kbps,
        }
    }
}

/// What was asked for, and the generation of the latest request.
#[derive(Debug, Clone, Copy, PartialEq, Eq, Structural)]
pub struct Desired {
    pub profile: VideoProfile,
    pub ceiling_kbps: Option<u32>,
    pub generation: u64,
}

/// What the encoder was last actually spawned with.
#[derive(Debug, Clone, Copy, PartialEq, Eq, Structural)]
pub struct Applied {
    pub state: EncoderState,
    /// The highest request generation that this reflects.
    pub generation: u64,
    /// Whether applying it took an encoder restart.
    pub restarted: bool,
}

/// The two halves of the attention state: what requesters asked for and what
/// the applier acknowledged. A requester only ever writes its own concern.
#[derive(Debug, Clone, Copy, PartialEq, Eq, Structural)]
pub struct EncoderControl {
    pub desired: Desired,
    pub applied: Applied,
}

impl EncoderControl {
    /// A control seeded with the boot state: `profile`, no ceiling, and the
    /// settings that the encoder is about to start with.
    pub fn new(profile: VideoProfile, settings: EncoderSettings) -> (r: Self)
        ensures
            r.desired == (Desired { profile, ceiling_kbps: None, generation: 0 }),
            r.applied.state.profile == profile,
            r.applied.state.ceiling_kbps is None,
            r.applied.state.settings_part() == settings,
            r.applied.generation == 0,
            !r.applied.restarted,
    {
        EncoderControl {
            desired: Desired { profile, ceiling_kbps: None, generation: 0 },
            applied: Applied {
                state: EncoderState::new(profile, None, settings),
                generation: 0,
                restarted: false,
            },
        }
    }

    /// The currently requested profile and ceiling.
    pub fn desired(&self) -> (r: Desired)
        ensures
            r == self.desired,
    {
        self.desired
    }

    /// The state that the encoder is actually running.
    pub fn applied(&self) -> (r: Applied)
        ensures
            r == self.applied,
    {
        self.applied
    }

    /// Request a base profile. Returns the generation to wait for.
    pub fn request_profile(&mut self, profile: VideoProfile) -> (r: u64)
        requires
            old(self).desired.generation < u64::MAX,
        ensures
            r == old(self).desired.generation + 1,
            final(self).desired == (Desired { profile, generation: r, ..old(self).desired }),
            final(self).applied == old(self).applied,
    {
        self.desired.profile = profile;
        self.desired.generation = self.desired.generation + 1;
        self.desired.generation
    }

    /// Request a bitrate ceiling (`None` clears it). Returns the generation to
    /// wait for.
    pub fn request_ceiling(&mut self, ceiling_kbps: Option<u32>) -> (r: u64)
        requires
            old(self).desired.generation < u64::MAX,
        ensures
            r == old(self).desired.generation + 1,
            final(self).desired == (Desired { ceiling_kbps, generation: r, ..old(self).desired }),
            final(self).applied == old(self).applied,
    {
        self.desired.ceiling_kbps = ceiling_kbps;
        self.desired.generation = self.desired.generation + 1;
        self.desired.generation
    }

    /// Record what was spawned, releasing every waiter for a generation at or
    /// below `generation`.
    pub fn note_applied(&mut self, state: EncoderState, generation: u64, restarted: bool)
        ensures
            final(self).applied == (Applied { state, generation, restarted }),
            final(self).desired == old(self).desired,
    {
        self.applied = Applied { state, generation, restarted };
    }

    /// What a waiter for `generation` may take as its acknowledgement: the
    /// applied state once it is at least that new.
    pub fn acknowledged(&self, generation: u64) -> (r: Option<Applied>)
        ensures
            r == (if self.applied.generation >= generation {
                Some(self.applied)
            } else {
                None
            }),
    {
        if self.applied.generation >= generation {
            Some(self.applied)
        } else {
            None
        }
    }

    /// The settings that the desired state resolves to over `cfg`.
    pub fn desired_settings(&self, cfg: &CameraConfig) -> (r: EncoderSettings)
        ensures
            r == resolved(self.desired.profile, self.desired.ceiling_kbps, *cfg),
    {
        resolve(self.desired.profile, self.desired.ceiling_kbps, cfg)
    }
}

// ---------------------------------------------------------------------------
// laws
// ---------------------------------------------------------------------------

/// Every profile reads back from its own wire string.
pub proof fn law_wire_names_read_back(p: VideoProfile)
    ensures
        profile_named(wire_name(p)) == Some(p),
{
    reveal_strlit("hero");
    reveal_strlit("thumbnail");
    assert("hero"@.len() == 4);
    assert("thumbnail"@.len() == 9);
}

/// A wire string that names a profile is that profile's own: there is no
/// second spelling.
pub proof fn law_wire_names_are_exact(s: Seq<char>)
    ensures
        match profile_named(s) {
            Some(p) => s == wire_name(p),
            None => s != wire_name(VideoProfile::Hero) && s != wire_name(VideoProfile::Thumbnail),
        },
{
}

/// The ceiling only ever reduces the bitrate, by exactly as much as it has
/// to, and never touches geometry or frame rate.
pub proof fn law_ceiling_only_reduces(
    profile: VideoProfile,
    ceiling_kbps: Option<u32>,
    cfg: CameraConfig,
)
    ensures
        ({
            let base = base_of(profile, cfg);
            let r = resolved(profile, ceiling_kbps, cfg);
            &&& r.width == base.width
            &&& r.height == base.height
            &&& r.fps == base.fps
            &&& r.bitrate_kbps <= base.bitrate_kbps
            &&& ceiling_kbps matches Some(c) ==> r.bitrate_kbps <= c
            &&& r.bitrate_kbps == base.bitrate_kbps || ceiling_kbps == Some(r.bitrate_kbps)
        }),
{
}

/// The full profile runs the settings of the camera block and the small one
/// those of its own block.
pub proof fn law_profiles_run_their_own_block(cfg: CameraConfig)
    ensures
        base_of(VideoProfile::Hero, cfg).width == cfg.width,
        base_of(VideoProfile::Hero, cfg).height == cfg.height,
        base_of(VideoProfile::Hero, cfg).fps == cfg.fps,
        base_of(VideoProfile::Hero, cfg).bitrate_kbps == cfg.bitrate_kbps,
        base_of(VideoProfile::Thumbnail, cfg) == cfg.thumbnail,
{
}

/// Without a ceiling a profile runs as it is configured, and under one it runs
/// at the lesser of the two bitrates.
pub proof fn law_the_ceiling_is_a_minimum(profile: VideoProfile, c: u32, cfg: CameraConfig)
    ensures
        resolved(profile, None, cfg) == base_of(profile, cfg),
        resolved(profile, Some(c), cfg).bitrate_kbps == (if c < base_of(profile, cfg).bitrate_kbps {
            c
        } else {
            base_of(profile, cfg).bitrate_kbps
        }),
{
}

/// The wire strings of the profiles.
pub proof fn law_profiles_have_wire_names(s: Seq<char>)
    ensures
        profile_named("hero"@) == Some(VideoProfile::Hero),
        profile_named("thumbnail"@) == Some(VideoProfile::Thumbnail),
        s != "hero"@ && s != "thumbnail"@ ==> profile_named(s) is None,
{
    reveal_strlit("hero");
    reveal_strlit("thumbnail");
    assert("hero"@.len() == 4 && "thumbnail"@.len() == 9);
}

} // verus!
