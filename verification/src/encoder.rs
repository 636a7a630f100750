//! Encoder selection: the camera and environment types, the per-camera
//! overrides, the backend choice and the published encoder identity.
//!
//! The commands themselves are composed in [`crate::command`]; the rewrites of
//! a composed command (latency marker, vision tap) are in [`crate::splice`].
use crate::config::CameraConfig;
use crate::text;
use vstd::prelude::*;

pub use crate::command::build_encoder_command;
pub use crate::shell::{gst_quote, join_shell, shell_quote};
pub use crate::splice::{augment_encoder_with_raw_tap, wrap_with_sei_inject};

verus! {

/// Which encoder backend a command targets.
#[derive(Debug, Clone, Copy, PartialEq, Eq, Structural)]
pub enum EncoderKind {
    /// `rpicam-vid` (CSI cameras).
    RpicamVid,
    /// `ffmpeg`: software `libx264` or hardware `h264_v4l2m2m`.
    Ffmpeg,
    /// `gst-launch-1.0`: a vendor hardware element or `x264enc`.
    Gstreamer,
}

/// Camera bus class; selects the encoder backend.
#[derive(Debug, Clone, Copy, PartialEq, Eq, Structural)]
pub enum CameraType {
    /// MIPI-CSI ribbon camera.
    Csi,
    /// USB UVC camera.
    Usb,
    /// Network camera.
    Ip,
}

/// A camera as the command builder sees it.
#[derive(Debug, Clone)]
pub struct CameraInfo {
    pub camera_type: CameraType,
    pub device_path: String,
    pub capabilities: Vec<String>,
}

/// What probing for a hardware H.264 encoder device found.
#[derive(Debug, Clone, Copy, PartialEq, Eq, Structural)]
pub enum HwEncoder {
    /// A device enumerates H.264 output and accepted a trial start.
    Present,
    /// No such device.
    Absent,
    /// Nothing was probed on this host.
    NotProbed,
}

impl HwEncoder {
    /// A device was confirmed.
    pub fn is_present(self) -> (r: bool)
        ensures
            r == (self == HwEncoder::Present),
    {
        match self {
            HwEncoder::Present => true,
            _ => false,
        }
    }
}

/// The probed environment that the command builder needs.
#[derive(Debug, Clone)]
pub struct EncoderEnv {
    pub hw_h264: HwEncoder,
    /// The GStreamer element `mpph264enc` is installed.
    pub has_mpph264enc: bool,
    /// The GStreamer element `omxh264videoenc` is installed.
    pub has_omxh264videoenc: bool,
    /// The GStreamer element `rtspclientsink` is installed.
    pub has_rtspclientsink: bool,
    /// "vendor", "rkmpp" or "unknown".
    pub encoder_api: String,
    /// The board has no hardware H.264 encoder although it is a Pi.
    pub pi5_class: bool,
    /// Interpreter that runs the marker injector.
    pub python_executable: String,
    /// Usable CPU parallelism.
    pub cpu_threads: u32,
}

/// The encoder interface that the installed elements imply.
pub open spec fn api_of(has_omx: bool, has_mpp: bool) -> Seq<char> {
    if has_omx {
        "vendor"@
    } else if has_mpp {
        "rkmpp"@
    } else {
        "unknown"@
    }
}

impl EncoderEnv {
    /// Assemble the environment from the probes.
    pub fn from_probes(
        hw_h264: HwEncoder,
        has_mpph264enc: bool,
        has_omxh264videoenc: bool,
        has_rtspclientsink: bool,
        soc_compatibles: &[String],
        python_executable: String,
        cpu_threads: u32,
    ) -> (r: EncoderEnv)
        ensures
            r.hw_h264 == hw_h264,
            r.has_mpph264enc == has_mpph264enc,
            r.has_omxh264videoenc == has_omxh264videoenc,
            r.has_rtspclientsink == has_rtspclientsink,
            r.encoder_api@ == api_of(has_omxh264videoenc, has_mpph264enc),
            r.pi5_class == is_pi5_class(text::views(soc_compatibles@)),
            r.python_executable@ == python_executable@,
            r.cpu_threads == cpu_threads,
    {
        let encoder_api = if has_omxh264videoenc {
            "vendor".to_owned()
        } else if has_mpph264enc {
            "rkmpp".to_owned()
        } else {
            "unknown".to_owned()
        };
        EncoderEnv {
            hw_h264,
            has_mpph264enc,
            has_omxh264videoenc,
            has_rtspclientsink,
            encoder_api,
            pi5_class: soc_is_pi5_class(soc_compatibles),
            python_executable,
            cpu_threads,
        }
    }

    /// The vendor hardware path is available.
    pub open spec fn vendor_omx(self) -> bool {
        self.encoder_api@ == "vendor"@ && self.has_omxh264videoenc
    }

    /// The vendor hardware path is available.
    pub fn has_vendor_omx(&self) -> (r: bool)
        ensures
            r == self.vendor_omx(),
    {
        text::same(self.encoder_api.as_str(), "vendor") && self.has_omxh264videoenc
    }
}

/// One entry of a device-tree `compatible` list names Pi-5-class silicon.
pub open spec fn names_pi5(entry: Seq<char>) -> bool {
    text::holds(text::lowered(entry), "bcm2712"@) || text::holds(
        text::lowered(entry),
        "raspberrypi,5"@,
    )
}

/// A device-tree `compatible` list names Pi-5-class silicon.
pub open spec fn is_pi5_class(compatibles: Seq<Seq<char>>) -> bool {
    exists|i: int| 0 <= i < compatibles.len() && names_pi5(#[trigger] compatibles[i])
}

/// True when a device-tree `compatible` list names Pi-5-class silicon, by its
/// SoC entry or by its board entry.
pub fn soc_is_pi5_class(compatibles: &[String]) -> (r: bool)
    ensures
        r == is_pi5_class(text::views(compatibles@)),
{
    let ghost all = text::views(compatibles@);
    let mut i: usize = 0;
    while i < compatibles.len()
        invariant
            i <= compatibles@.len(),
            all == text::views(compatibles@),
            forall|j: int| 0 <= j < i ==> !names_pi5(#[trigger] all[j]),
        decreases compatibles@.len() - i,
    {
        let c = text::to_lower(compatibles[i].as_str());
        if text::contains(c.as_str(), "bcm2712") || text::contains(c.as_str(), "raspberrypi,5") {
            assert(names_pi5(all[i as int]));
            return true;
        }
        i += 1;
    }
    false
}

/// Encoder invocation parameters.
#[derive(Debug, Clone)]
pub struct EncoderParams {
    pub kind: EncoderKind,
    pub codec: String,
    pub width: u32,
    pub height: u32,
    pub fps: u32,
    pub bitrate_kbps: u32,
    /// Encoder override: "auto" | "omx" | "v4l2m2m" | "software".
    pub encoder: String,
    /// Clockwise image rotation in degrees.
    pub rotation: u32,
    pub hflip: bool,
    pub vflip: bool,
    /// Keyframe interval in frames; 0 picks half a second.
    pub keyframe_interval: u32,
    /// Also emit the radio's RTP copy straight out of this encoder. Only the
    /// `ffmpeg` family can; the caller sets it for a radio-carrying primary.
    pub rtp_fanout: bool,
}

impl EncoderParams {
    /// The parameters for `kind` over a camera block; the radio fan-out is
    /// left off.
    pub fn from_camera_config(kind: EncoderKind, cfg: &CameraConfig) -> (r: Self)
        ensures
            r.kind == kind,
            r.codec@ == cfg.codec@,
            r.width == cfg.width,
            r.height == cfg.height,
            r.fps == cfg.fps,
            r.bitrate_kbps == cfg.bitrate_kbps,
            r.encoder@ == cfg.encoder@,
            r.rotation == cfg.rotation,
            r.hflip == cfg.hflip,
            r.vflip == cfg.vflip,
            r.keyframe_interval == cfg.keyframe_interval,
            !r.rtp_fanout,
    {
        EncoderParams {
            kind,
            codec: cfg.codec.clone(),
            width: cfg.width,
            height: cfg.height,
            fps: cfg.fps,
            bitrate_kbps: cfg.bitrate_kbps,
            encoder: cfg.encoder.clone(),
            rotation: cfg.rotation,
            hflip: cfg.hflip,
            vflip: cfg.vflip,
            keyframe_interval: cfg.keyframe_interval,
            rtp_fanout: false,
        }
    }
}

// ---------------------------------------------------------------------------
// validation
// ---------------------------------------------------------------------------

/// Why a command cannot be built.
#[derive(Debug, Clone, PartialEq, Eq)]
pub enum EncoderError {
    /// A source or output holds a disallowed character.
    InvalidSource(String),
    /// The wire codec is not one that the radio and browser legs can carry.
    UnsupportedCodec(String),
}

/// The text that the standard library's `Debug` writes for a string: the
/// string between double quotes, with its escapes.
pub uninterp spec fn debug_text(s: Seq<char>) -> Seq<char>;

/// Writes `s` with the standard library's `Debug` for `str`. The result
/// depends on `s` alone; how each character is escaped is left unsaid.
#[verifier::external_body]
fn debug_quoted(s: &str) -> (r: String)
    ensures
        r@ == debug_text(s@),
{
    format!("{s:?}")
}

impl EncoderError {
    /// The explanation, given the offending value in quotes.
    pub open spec fn explained(self, quoted: Seq<char>) -> Seq<char> {
        match self {
            EncoderError::InvalidSource(_) => "Invalid source path: "@ + quoted
                + ". Only alphanumeric, slashes, dots, hyphens, underscores, and colons are allowed."@,
            EncoderError::UnsupportedCodec(_) => "Unsupported video codec "@ + quoted
                + ". Only \"h264\" is emitted with a bounded keyframe interval (-g) and in-band SPS/PPS before every IDR, and the radio leg frames every payload as RTP payload type 96 (H.264, RFC 6184) against a fixed receiver SDP — so any other codec goes on air untuned and undecodable. Set video.camera.codec to \"h264\"."@,
        }
    }

    /// The offending value.
    pub open spec fn value(self) -> Seq<char> {
        match self {
            EncoderError::InvalidSource(s) => s@,
            EncoderError::UnsupportedCodec(c) => c@,
        }
    }

    /// The explanation around an offending value that is already in quotes.
    pub fn explain(&self, quoted: &str) -> (r: String)
        ensures
            r@ == self.explained(quoted@),
    {
        match self {
            EncoderError::InvalidSource(_) => {
                let mut out = String::from_str("Invalid source path: ");
                out.append(quoted);
                out.append(
                    ". Only alphanumeric, slashes, dots, hyphens, underscores, and colons are allowed.",
                );
                out
            },
            EncoderError::UnsupportedCodec(_) => {
                let mut out = String::from_str("Unsupported video codec ");
                out.append(quoted);
                out.append(
                    ". Only \"h264\" is emitted with a bounded keyframe interval (-g) and in-band SPS/PPS before every IDR, and the radio leg frames every payload as RTP payload type 96 (H.264, RFC 6184) against a fixed receiver SDP — so any other codec goes on air untuned and undecodable. Set video.camera.codec to \"h264\".",
                );
                out
            },
        }
    }

    /// The error in words, for a log line.
    pub fn message(&self) -> (r: String)
        ensures
            r@ == self.explained(debug_text(self.value())),
    {
        let quoted = match self {
            EncoderError::InvalidSource(s) => debug_quoted(s.as_str()),
            EncoderError::UnsupportedCodec(c) => debug_quoted(c.as_str()),
        };
        self.explain(quoted.as_str())
    }
}

/// A character that a source or an output may hold.
pub open spec fn source_char(c: char) -> bool {
    text::is_alnum(c) || c == '/' || c == '_' || c == '.' || c == '-' || c == ':'
}

/// A source or an output that may reach a command line: `-`, or one or more
/// allowed characters.
pub open spec fn valid_source(s: Seq<char>) -> bool {
    s == "-"@ || (s.len() > 0 && forall|i: int| 0 <= i < s.len() ==> source_char(#[trigger] s[i]))
}

/// Check a camera source or output against the allowlist.
pub fn validate_source(source: &str) -> (r: Result<&str, EncoderError>)
    ensures
        match r {
            Ok(s) => valid_source(source@) && s@ == source@,
            Err(EncoderError::InvalidSource(s)) => !valid_source(source@) && s@ == source@,
            Err(EncoderError::UnsupportedCodec(_)) => false,
        },
{
    if text::same(source, "-") {
        return Ok(source);
    }
    let v = text::chars_of(source);
    let mut ok = v.len() > 0;
    let mut i: usize = 0;
    while i < v.len()
        invariant
            v@ == source@,
            i <= v@.len(),
            ok == (v@.len() > 0 && forall|j: int| 0 <= j < i ==> source_char(#[trigger] v@[j])),
        decreases v@.len() - i,
    {
        let c: char = v[i];
        if !(text::alnum_class(c) || c == '/' || c == '_' || c == '.' || c == '-' || c == ':') {
            assert(!source_char(v@[i as int]));
            ok = false;
        }
        i += 1;
    }
    if ok {
        Ok(source)
    } else {
        Err(EncoderError::InvalidSource(source.to_owned()))
    }
}

/// Accept the one codec that every leg can carry, in its one spelling.
pub fn validate_codec(codec: &str) -> (r: Result<(), EncoderError>)
    ensures
        match r {
            Ok(_) => codec@ == "h264"@,
            Err(EncoderError::UnsupportedCodec(c)) => codec@ != "h264"@ && c@ == codec@,
            Err(EncoderError::InvalidSource(_)) => false,
        },
{
    if text::same(codec, "h264") {
        Ok(())
    } else {
        Err(EncoderError::UnsupportedCodec(codec.to_owned()))
    }
}

// ---------------------------------------------------------------------------
// derived settings
// ---------------------------------------------------------------------------

/// The keyframe interval in frames: the configured one, else half a second at
/// the configured rate and at least one frame.
pub open spec fn gop(p: EncoderParams) -> nat {
    if p.keyframe_interval > 0 {
        p.keyframe_interval as nat
    } else if p.fps / 2 >= 1 {
        (p.fps / 2) as nat
    } else {
        1
    }
}

/// The keyframe interval in frames.
pub fn gop_interval(params: &EncoderParams) -> (r: u32)
    ensures
        r == gop(*params),
{
    if params.keyframe_interval > 0 {
        params.keyframe_interval
    } else if params.fps / 2 >= 1 {
        params.fps / 2
    } else {
        1
    }
}

/// The parts of a chain that apply: a rotation part, then the flips.
pub open spec fn chain_parts(
    rotation: u32,
    hflip: bool,
    vflip: bool,
    turns: (Seq<char>, Seq<char>, Seq<char>),
    flips: (Seq<char>, Seq<char>),
) -> Seq<Seq<char>> {
    let turn = if rotation == 90 {
        seq![turns.0]
    } else if rotation == 180 {
        seq![turns.1]
    } else if rotation == 270 {
        seq![turns.2]
    } else {
        Seq::empty()
    };
    let with_h = if hflip {
        turn.push(flips.0)
    } else {
        turn
    };
    if vflip {
        with_h.push(flips.1)
    } else {
        with_h
    }
}

/// The `ffmpeg` filters for an orientation.
pub open spec fn vf_parts(rotation: u32, hflip: bool, vflip: bool) -> Seq<Seq<char>> {
    chain_parts(
        rotation,
        hflip,
        vflip,
        ("transpose=1"@, "transpose=2,transpose=2"@, "transpose=2"@),
        ("hflip"@, "vflip"@),
    )
}

/// The `ffmpeg` image-transform chain for an orientation, or none for an
/// untransformed image.
pub open spec fn vf_chain(rotation: u32, hflip: bool, vflip: bool) -> Option<Seq<char>> {
    let parts = vf_parts(rotation, hflip, vflip);
    if parts.len() == 0 {
        None
    } else {
        Some(text::joined(parts, ","@))
    }
}

/// The GStreamer elements for an orientation.
pub open spec fn flip_parts(rotation: u32, hflip: bool, vflip: bool) -> Seq<Seq<char>> {
    chain_parts(
        rotation,
        hflip,
        vflip,
        (
            "videoflip method=clockwise"@,
            "videoflip method=rotate-180"@,
            "videoflip method=counterclockwise"@,
        ),
        ("videoflip method=horizontal-flip"@, "videoflip method=vertical-flip"@),
    )
}

/// The GStreamer element chain for an orientation, each element followed by
/// its link; empty for an untransformed image.
pub open spec fn flip_chain(rotation: u32, hflip: bool, vflip: bool) -> Seq<char> {
    let chain = text::joined(flip_parts(rotation, hflip, vflip), " ! "@);
    if chain.len() == 0 {
        chain
    } else {
        chain + " ! "@
    }
}

fn chain(
    rotation: u32,
    hflip: bool,
    vflip: bool,
    turns: (&str, &str, &str),
    flips: (&str, &str),
) -> (r: Vec<String>)
    ensures
        text::views(r@) == chain_parts(
            rotation,
            hflip,
            vflip,
            (turns.0@, turns.1@, turns.2@),
            (flips.0@, flips.1@),
        ),
{
    let mut parts: Vec<String> = Vec::new();
    assert(text::views(parts@) =~= Seq::<Seq<char>>::empty());
    if rotation == 90 {
        text::add_arg(&mut parts, turns.0);
    } else if rotation == 180 {
        text::add_arg(&mut parts, turns.1);
    } else if rotation == 270 {
        text::add_arg(&mut parts, turns.2);
    }
    if hflip {
        text::add_arg(&mut parts, flips.0);
    }
    if vflip {
        text::add_arg(&mut parts, flips.1);
    }
    parts
}

/// The `ffmpeg` image-transform chain, or `None` when no transform is set.
pub fn ffmpeg_vf(rotation: u32, hflip: bool, vflip: bool) -> (r: Option<String>)
    ensures
        text::opt_view(r) == vf_chain(rotation, hflip, vflip),
{
    let parts = chain(
        rotation,
        hflip,
        vflip,
        ("transpose=1", "transpose=2,transpose=2", "transpose=2"),
        ("hflip", "vflip"),
    );
    assert(text::views(parts@).len() == parts@.len());
    if parts.len() == 0 {
        None
    } else {
        Some(text::join(&parts, ","))
    }
}

/// The GStreamer `videoflip` chain with its trailing link, or an empty string
/// when no transform is set.
pub fn gst_videoflip_chain(rotation: u32, hflip: bool, vflip: bool) -> (r: String)
    ensures
        r@ == flip_chain(rotation, hflip, vflip),
{
    let parts = chain(
        rotation,
        hflip,
        vflip,
        (
            "videoflip method=clockwise",
            "videoflip method=rotate-180",
            "videoflip method=counterclockwise",
        ),
        ("videoflip method=horizontal-flip", "videoflip method=vertical-flip"),
    );
    let mut out = text::join(&parts, " ! ");
    if !out.as_str().is_empty() {
        out.append(" ! ");
    }
    out
}

/// The vendor hardware element is used: it is available and software was not
/// asked for.
pub open spec fn uses_omx(p: EncoderParams, env: EncoderEnv) -> bool {
    p.encoder@ != "software"@ && env.vendor_omx()
}

/// The vendor hardware element is used.
pub fn use_omx_encoder(params: &EncoderParams, env: &EncoderEnv) -> (r: bool)
    ensures
        r == uses_omx(*params, *env),
{
    if text::same(params.encoder.as_str(), "software") {
        return false;
    }
    env.has_vendor_omx()
}

/// The backend after the camera's override and the board's encoder interface.
pub open spec fn effective_kind(base: EncoderKind, p: EncoderParams, env: EncoderEnv)
    -> EncoderKind {
    if p.encoder@ == "v4l2m2m"@ {
        EncoderKind::Ffmpeg
    } else if p.encoder@ == "software"@ {
        base
    } else if env.vendor_omx() {
        EncoderKind::Gstreamer
    } else {
        base
    }
}

/// The backend after the camera's override and the board's encoder interface:
/// "v4l2m2m" means ffmpeg, "software" keeps the probed family, and anything
/// else takes the vendor hardware path where there is one.
pub fn resolve_kind(base: EncoderKind, params: &EncoderParams, env: &EncoderEnv) -> (r: EncoderKind)
    ensures
        r == effective_kind(base, *params, *env),
{
    let encoder = params.encoder.as_str();
    if text::same(encoder, "v4l2m2m") {
        EncoderKind::Ffmpeg
    } else if text::same(encoder, "software") {
        base
    } else if env.has_vendor_omx() {
        EncoderKind::Gstreamer
    } else {
        base
    }
}

/// Some capability equals `a` or `b`, whatever the case of its letters.
pub open spec fn offers(caps: Seq<Seq<char>>, a: Seq<char>, b: Seq<char>) -> bool {
    exists|i: int|
        0 <= i < caps.len() && (text::lowered(#[trigger] caps[i]) == a || text::lowered(caps[i])
            == b)
}

/// The capture format to ask a camera for: compressed before raw, none when
/// its capabilities are unknown.
pub open spec fn input_format(camera: Option<&CameraInfo>) -> Option<Seq<char>> {
    match camera {
        None => None,
        Some(c) => {
            let caps = text::views(c.capabilities@);
            if offers(caps, "mjpeg"@, "mjpg"@) {
                Some("mjpeg"@)
            } else if offers(caps, "yuyv"@, "rawvideo"@) {
                Some("yuyv"@)
            } else {
                None
            }
        },
    }
}

fn any_offers(caps: &Vec<String>, a: &str, b: &str) -> (r: bool)
    ensures
        r == offers(text::views(caps@), a@, b@),
{
    let ghost all = text::views(caps@);
    let mut i: usize = 0;
    while i < caps.len()
        invariant
            i <= caps@.len(),
            all == text::views(caps@),
            forall|j: int|
                0 <= j < i ==> text::lowered(#[trigger] all[j]) != a@ && text::lowered(all[j])
                    != b@,
        decreases caps@.len() - i,
    {
        let c = text::to_lower(caps[i].as_str());
        if text::same(c.as_str(), a) || text::same(c.as_str(), b) {
            assert(text::lowered(all[i as int]) == a@ || text::lowered(all[i as int]) == b@);
            return true;
        }
        i += 1;
    }
    false
}

/// Choose the capture format from a camera's capabilities.
pub fn select_input_format(camera: Option<&CameraInfo>) -> (r: Option<&'static str>)
    ensures
        match r {
            Some(f) => input_format(camera) == Some(f@),
            None => input_format(camera) is None,
        },
{
    match camera {
        None => None,
        Some(c) => if any_offers(&c.capabilities, "mjpeg", "mjpg") {
            Some("mjpeg")
        } else if any_offers(&c.capabilities, "yuyv", "rawvideo") {
            Some("yuyv")
        } else {
            None
        },
    }
}

// ---------------------------------------------------------------------------
// backend choice and identity
// ---------------------------------------------------------------------------

/// The backend for a camera, given which programs are installed.
pub open spec fn backend_for(
    camera_type: CameraType,
    has_rpicam: bool,
    has_ffmpeg: bool,
    has_gst_launch: bool,
) -> Option<EncoderKind> {
    if camera_type == CameraType::Csi {
        if has_rpicam {
            Some(EncoderKind::RpicamVid)
        } else if has_ffmpeg {
            Some(EncoderKind::Ffmpeg)
        } else {
            None
        }
    } else if has_ffmpeg {
        Some(EncoderKind::Ffmpeg)
    } else if has_gst_launch {
        Some(EncoderKind::Gstreamer)
    } else {
        None
    }
}

/// Pick the encoder backend for a camera, given which programs are installed:
/// `rpicam-vid` then `ffmpeg` for CSI, `ffmpeg` then GStreamer otherwise.
pub fn detect_encoder_for_camera(
    camera_type: CameraType,
    has_rpicam: bool,
    has_ffmpeg: bool,
    has_gst_launch: bool,
) -> (r: Option<EncoderKind>)
    ensures
        r == backend_for(camera_type, has_rpicam, has_ffmpeg, has_gst_launch),
{
    match camera_type {
        CameraType::Csi => {
            if has_rpicam {
                Some(EncoderKind::RpicamVid)
            } else if has_ffmpeg {
                Some(EncoderKind::Ffmpeg)
            } else {
                None
            }
        },
        CameraType::Usb | CameraType::Ip => {
            if has_ffmpeg {
                Some(EncoderKind::Ffmpeg)
            } else if has_gst_launch {
                Some(EncoderKind::Gstreamer)
            } else {
                None
            }
        },
    }
}

/// The codec element that stands in `s` at index `i`.
pub open spec fn element_at(s: Seq<char>, i: int) -> Option<Seq<char>> {
    if text::occurs_at(s, "h264_v4l2m2m"@, i) {
        Some("h264_v4l2m2m"@)
    } else if text::occurs_at(s, "hevc_v4l2m2m"@, i) {
        Some("hevc_v4l2m2m"@)
    } else if text::occurs_at(s, "mpph264enc"@, i) {
        Some("mpph264enc"@)
    } else if text::occurs_at(s, "mpph265enc"@, i) {
        Some("mpph265enc"@)
    } else if text::occurs_at(s, "omxh264videoenc"@, i) {
        Some("omxh264videoenc"@)
    } else if text::occurs_at(s, "x264enc"@, i) {
        Some("x264enc"@)
    } else if text::occurs_at(s, "libx264"@, i) {
        Some("libx264"@)
    } else if text::occurs_at(s, "libx265"@, i) {
        Some("libx265"@)
    } else {
        None
    }
}

/// The first codec element that stands in `s` at index `i` or later.
pub open spec fn element_from(s: Seq<char>, i: int) -> Option<Seq<char>>
    decreases s.len() - i,
{
    if i >= s.len() {
        None
    } else if element_at(s, i) is Some {
        element_at(s, i)
    } else {
        element_from(s, i + 1)
    }
}

/// The first codec element of the arguments from index `k` on.
pub open spec fn element_of(cmd: Seq<Seq<char>>, k: int) -> Option<Seq<char>>
    decreases cmd.len() - k,
{
    if k >= cmd.len() {
        None
    } else if element_from(cmd[k], 0) is Some {
        element_from(cmd[k], 0)
    } else {
        element_of(cmd, k + 1)
    }
}

/// The published encoder identity of a command.
pub open spec fn label_of(kind: EncoderKind, cmd: Seq<Seq<char>>) -> Seq<char> {
    let family = if kind == EncoderKind::Gstreamer {
        "gstreamer"@
    } else {
        "ffmpeg"@
    };
    let element = match element_of(cmd, 0) {
        Some(e) => e,
        None => "unknown"@,
    };
    if kind == EncoderKind::RpicamVid {
        "rpicam-vid"@
    } else {
        family + "-"@ + element
    }
}

fn find_element_at(v: &Vec<char>, i: usize) -> (r: Option<&'static str>)
    ensures
        match r {
            Some(e) => element_at(v@, i as int) == Some(e@),
            None => element_at(v@, i as int) is None,
        },
{
    if text::at(v, "h264_v4l2m2m", i) {
        Some("h264_v4l2m2m")
    } else if text::at(v, "hevc_v4l2m2m", i) {
        Some("hevc_v4l2m2m")
    } else if text::at(v, "mpph264enc", i) {
        Some("mpph264enc")
    } else if text::at(v, "mpph265enc", i) {
        Some("mpph265enc")
    } else if text::at(v, "omxh264videoenc", i) {
        Some("omxh264videoenc")
    } else if text::at(v, "x264enc", i) {
        Some("x264enc")
    } else if text::at(v, "libx264", i) {
        Some("libx264")
    } else if text::at(v, "libx265", i) {
        Some("libx265")
    } else {
        None
    }
}

fn find_element(token: &str) -> (r: Option<&'static str>)
    ensures
        match r {
            Some(e) => element_from(token@, 0) == Some(e@),
            None => element_from(token@, 0) is None,
        },
{
    let v = text::chars_of(token);
    let mut i: usize = 0;
    while i < v.len()
        invariant
            v@ == token@,
            i <= v@.len(),
            element_from(token@, 0) == element_from(token@, i as int),
        decreases v@.len() - i,
    {
        let hit = find_element_at(&v, i);
        if hit.is_some() {
            return hit;
        }
        i += 1;
    }
    None
}

/// The published encoder identity: `rpicam-vid`, or the family and the codec
/// element that the command actually runs (`ffmpeg-libx264`,
/// `gstreamer-x264enc`, …), `<family>-unknown` when it names none.
pub fn encoder_label(kind: EncoderKind, cmd: &[String]) -> (r: String)
    ensures
        r@ == label_of(kind, text::views(cmd@)),
{
    match kind {
        EncoderKind::RpicamVid => {
            return "rpicam-vid".to_owned();
        },
        _ => {},
    }
    let family = match kind {
        EncoderKind::Gstreamer => "gstreamer",
        _ => "ffmpeg",
    };
    let mut out = String::from_str(family);
    out.append("-");
    let ghost all = text::views(cmd@);
    let ghost head = out@;
    let mut k: usize = 0;
    while k < cmd.len()
        invariant
            k <= cmd@.len(),
            all == text::views(cmd@),
            out@ == head,
            element_of(all, 0) == element_of(all, k as int),
            head == (if kind == EncoderKind::Gstreamer {
                "gstreamer"@
            } else {
                "ffmpeg"@
            }) + "-"@,
            kind != EncoderKind::RpicamVid,
        decreases cmd@.len() - k,
    {
        let hit = find_element(cmd[k].as_str());
        match hit {
            Some(element) => {
                out.append(element);
                return out;
            },
            None => {},
        }
        k += 1;
    }
    out.append("unknown");
    out
}

/// The identity names a hardware encoder.
pub open spec fn is_hardware(label: Seq<char>) -> bool {
    label == "rpicam-vid"@ || text::holds(label, "v4l2m2m"@) || text::holds(label, "mpp"@)
        || text::holds(label, "omxh264videoenc"@)
}

/// Whether an encoder identity names a hardware encoder.
pub fn encoder_is_hardware(label: &str) -> (r: bool)
    ensures
        r == is_hardware(label@),
{
    text::same(label, "rpicam-vid") || text::contains(label, "v4l2m2m") || text::contains(
        label,
        "mpp",
    ) || text::contains(label, "omxh264videoenc")
}

// ---------------------------------------------------------------------------
// laws
// ---------------------------------------------------------------------------

/// The keyframe interval is never zero.
pub proof fn law_gop_is_positive(p: EncoderParams)
    ensures
        gop(p) >= 1,
{
}

/// A command is only ever handed to a program that is installed.
pub proof fn law_backend_is_installed(
    camera_type: CameraType,
    has_rpicam: bool,
    has_ffmpeg: bool,
    has_gst_launch: bool,
)
    ensures
        match backend_for(camera_type, has_rpicam, has_ffmpeg, has_gst_launch) {
            Some(EncoderKind::RpicamVid) => has_rpicam && camera_type == CameraType::Csi,
            Some(EncoderKind::Ffmpeg) => has_ffmpeg,
            Some(EncoderKind::Gstreamer) => has_gst_launch,
            None => !has_ffmpeg,
        },
{
}

/// Asking for software never selects the vendor hardware element, on any
/// board.
pub proof fn law_software_is_never_hardware(p: EncoderParams, env: EncoderEnv)
    requires
        p.encoder@ == "software"@,
    ensures
        !uses_omx(p, env),
        effective_kind(p.kind, p, env) == p.kind,
{
    reveal_strlit("software");
    reveal_strlit("v4l2m2m");
    assert("software"@.len() == 8);
    assert("v4l2m2m"@.len() == 7);
}

/// The order of preference. A CSI camera gets `rpicam-vid` exactly where that
/// is installed, and `ffmpeg` exactly where it has to stand in; GStreamer is
/// never used for it. Any other camera, USB and network alike, gets `ffmpeg`
/// exactly where that is installed, and GStreamer exactly where it is the only
/// one. There is no backend exactly where none of these is installed.
pub proof fn law_backends_in_order_of_preference(
    camera_type: CameraType,
    has_rpicam: bool,
    has_ffmpeg: bool,
    has_gst_launch: bool,
)
    ensures
        ({
            let r = backend_for(camera_type, has_rpicam, has_ffmpeg, has_gst_launch);
            if camera_type == CameraType::Csi {
                &&& r == Some(EncoderKind::RpicamVid) <==> has_rpicam
                &&& r == Some(EncoderKind::Ffmpeg) <==> has_ffmpeg && !has_rpicam
                &&& r is None <==> !has_rpicam && !has_ffmpeg
                &&& r != Some(EncoderKind::Gstreamer)
            } else {
                &&& r == Some(EncoderKind::Ffmpeg) <==> has_ffmpeg
                &&& r == Some(EncoderKind::Gstreamer) <==> has_gst_launch && !has_ffmpeg
                &&& r is None <==> !has_ffmpeg && !has_gst_launch
                &&& r != Some(EncoderKind::RpicamVid)
            }
        }),
        backend_for(CameraType::Usb, has_rpicam, has_ffmpeg, has_gst_launch) == backend_for(
            CameraType::Ip,
            has_rpicam,
            has_ffmpeg,
            has_gst_launch,
        ),
{
}

/// A network camera never gets the GStreamer backend while `ffmpeg` is
/// installed, and installing GStreamer besides never changes the choice of
/// `ffmpeg`.
pub proof fn law_network_cameras_are_pulled_by_ffmpeg(has_rpicam: bool, has_gst_launch: bool)
    ensures
        backend_for(CameraType::Ip, has_rpicam, true, has_gst_launch) == Some(EncoderKind::Ffmpeg),
        backend_for(CameraType::Ip, has_rpicam, true, has_gst_launch) == backend_for(
            CameraType::Ip,
            has_rpicam,
            true,
            !has_gst_launch,
        ),
{
}

/// The interface is the vendor's exactly where its element is installed,
/// Rockchip's where only that one's is, and otherwise not known.
pub proof fn law_the_interface_follows_the_elements(has_omx: bool, has_mpp: bool)
    ensures
        api_of(has_omx, has_mpp) == "vendor"@ <==> has_omx,
        api_of(has_omx, has_mpp) == "rkmpp"@ <==> has_mpp && !has_omx,
        api_of(has_omx, has_mpp) == "unknown"@ <==> !has_mpp && !has_omx,
{
    reveal_strlit("vendor");
    reveal_strlit("rkmpp");
    reveal_strlit("unknown");
    assert("vendor"@.len() == 6 && "rkmpp"@.len() == 5 && "unknown"@.len() == 7);
}

/// A board is of the Pi 5 class as soon as one entry names the SoC or the
/// board, in letters of either case and with anything around it; without such
/// an entry it is not.
pub proof fn law_one_entry_names_the_board(
    compatibles: Seq<Seq<char>>,
    k: int,
    before: Seq<char>,
    after: Seq<char>,
)
    requires
        0 <= k < compatibles.len(),
    ensures
        text::lowered(compatibles[k]) == before + "bcm2712"@ + after ==> is_pi5_class(compatibles),
        text::lowered(compatibles[k]) == before + "raspberrypi,5"@ + after ==> is_pi5_class(
            compatibles,
        ),
        (forall|i: int|
            0 <= i < compatibles.len() ==> !text::holds(
                text::lowered(#[trigger] compatibles[i]),
                "bcm2712"@,
            ) && !text::holds(text::lowered(compatibles[i]), "raspberrypi,5"@)) ==> !is_pi5_class(
            compatibles,
        ),
{
    let e = text::lowered(compatibles[k]);
    let n = before.len() as int;
    let soc = "bcm2712"@;
    let board = "raspberrypi,5"@;
    if e == before + soc + after {
        assert(e.subrange(n, n + soc.len()) =~= soc);
        assert(text::occurs_at(e, soc, n));
        assert(names_pi5(compatibles[k]));
    }
    if e == before + board + after {
        assert(e.subrange(n, n + board.len()) =~= board);
        assert(text::occurs_at(e, board, n));
        assert(names_pi5(compatibles[k]));
    }
}

/// A source is accepted exactly when it is not empty and holds nothing but
/// ASCII letters, digits and the five marks of a path or URL.
pub proof fn law_sources_hold_plain_characters(s: Seq<char>)
    ensures
        valid_source(s) <==> s.len() > 0 && forall|i: int|
            0 <= i < s.len() ==> {
                let c = #[trigger] s[i];
                'a' <= c <= 'z' || 'A' <= c <= 'Z' || '0' <= c <= '9' || c == '/' || c == '_' || c
                    == '.' || c == '-' || c == ':'
            },
{
    reveal_strlit("-");
    if s == "-"@ {
        assert(s.len() == 1 && s[0] == '-');
    }
    if s.len() > 0 && forall|i: int|
        0 <= i < s.len() ==> {
            let c = #[trigger] s[i];
            'a' <= c <= 'z' || 'A' <= c <= 'Z' || '0' <= c <= '9' || c == '/' || c == '_' || c
                == '.' || c == '-' || c == ':'
        } {
        assert forall|i: int| 0 <= i < s.len() implies source_char(#[trigger] s[i]) by {}
    }
    if valid_source(s) && s != "-"@ {
        assert forall|i: int| 0 <= i < s.len() implies {
            let c = #[trigger] s[i];
            'a' <= c <= 'z' || 'A' <= c <= 'Z' || '0' <= c <= '9' || c == '/' || c == '_' || c
                == '.' || c == '-' || c == ':'
        } by {
            assert(source_char(s[i]));
        }
    }
}

/// The keyframe interval is the configured one, else half a second of frames,
/// rounded down, and one frame at the least.
pub proof fn law_gop_is_half_a_second(p: EncoderParams)
    ensures
        p.keyframe_interval > 0 ==> gop(p) == p.keyframe_interval,
        p.keyframe_interval == 0 && p.fps >= 2 ==> 2 * gop(p) <= p.fps < 2 * gop(p) + 2,
        p.keyframe_interval == 0 && p.fps < 2 ==> gop(p) == 1,
{
}

/// `a` and then `b`, with a comma between them where both say something.
pub open spec fn then_filter(a: Option<Seq<char>>, b: Seq<char>) -> Option<Seq<char>> {
    match a {
        Some(x) => Some(x + ","@ + b),
        None => Some(b),
    }
}

/// The `ffmpeg` filters of an orientation. Each quarter turn has its own, an
/// angle that is no quarter turn has none, and a flip adds its filter behind
/// what is there: the horizontal one first, then the vertical one.
pub proof fn law_filters_turn_then_flip(rotation: u32, hflip: bool)
    ensures
        vf_chain(90, false, false) == Some("transpose=1"@),
        vf_chain(180, false, false) == Some("transpose=2,transpose=2"@),
        vf_chain(270, false, false) == Some("transpose=2"@),
        rotation != 90 && rotation != 180 && rotation != 270 ==> vf_chain(rotation, false, false)
            is None,
        vf_chain(rotation, true, false) == then_filter(vf_chain(rotation, false, false), "hflip"@),
        vf_chain(rotation, hflip, true) == then_filter(vf_chain(rotation, hflip, false), "vflip"@),
{
    lemma_joined_one("transpose=1"@, ","@);
    lemma_joined_one("transpose=2,transpose=2"@, ","@);
    lemma_joined_one("transpose=2"@, ","@);
    lemma_joined_push(vf_parts(rotation, false, false), "hflip"@, ","@);
    lemma_joined_push(vf_parts(rotation, hflip, false), "vflip"@, ","@);
}

/// The GStreamer elements of an orientation, with the same order: the quarter
/// turn, the horizontal flip, the vertical flip, each with a link behind it.
pub proof fn law_elements_turn_then_flip(rotation: u32, hflip: bool)
    ensures
        flip_chain(90, false, false) == "videoflip method=clockwise"@ + " ! "@,
        flip_chain(180, false, false) == "videoflip method=rotate-180"@ + " ! "@,
        flip_chain(270, false, false) == "videoflip method=counterclockwise"@ + " ! "@,
        rotation != 90 && rotation != 180 && rotation != 270 ==> flip_chain(rotation, false, false)
            == Seq::<char>::empty(),
        flip_chain(rotation, true, false) == flip_chain(rotation, false, false)
            + "videoflip method=horizontal-flip"@ + " ! "@,
        flip_chain(rotation, hflip, true) == flip_chain(rotation, hflip, false)
            + "videoflip method=vertical-flip"@ + " ! "@,
{
    reveal_strlit("videoflip method=clockwise");
    reveal_strlit("videoflip method=rotate-180");
    reveal_strlit("videoflip method=counterclockwise");
    reveal_strlit("videoflip method=horizontal-flip");
    reveal_strlit("videoflip method=vertical-flip");
    reveal_strlit(" ! ");
    let sep = " ! "@;
    lemma_joined_one("videoflip method=clockwise"@, sep);
    lemma_joined_one("videoflip method=rotate-180"@, sep);
    lemma_joined_one("videoflip method=counterclockwise"@, sep);
    lemma_joined_one("videoflip method=horizontal-flip"@, sep);
    let bare = flip_parts(rotation, false, false);
    let some = flip_parts(rotation, hflip, false);
    lemma_joined_push(bare, "videoflip method=horizontal-flip"@, sep);
    lemma_joined_push(some, "videoflip method=vertical-flip"@, sep);
    assert(flip_chain(rotation, true, false) =~= flip_chain(rotation, false, false)
        + "videoflip method=horizontal-flip"@ + sep);
    assert(flip_chain(rotation, hflip, true) =~= flip_chain(rotation, hflip, false)
        + "videoflip method=vertical-flip"@ + sep);
    if rotation != 90 && rotation != 180 && rotation != 270 {
        assert(bare.len() == 0);
        assert(flip_chain(rotation, false, false) =~= Seq::<char>::empty());
    }
}

proof fn lemma_joined_one(part: Seq<char>, sep: Seq<char>)
    ensures
        text::joined(seq![part], sep) == part,
{
    assert(seq![part].drop_last() =~= Seq::<Seq<char>>::empty());
}

proof fn lemma_joined_push(parts: Seq<Seq<char>>, part: Seq<char>, sep: Seq<char>)
    ensures
        parts.len() == 0 ==> text::joined(parts.push(part), sep) == part,
        parts.len() > 0 ==> text::joined(parts.push(part), sep) == text::joined(parts, sep) + sep
            + part,
{
    assert(parts.push(part).drop_last() =~= parts);
    if parts.len() == 0 {
        assert(parts.push(part) =~= seq![part]);
        lemma_joined_one(part, sep);
    }
}

/// The override decides: `v4l2m2m` always means `ffmpeg`, `software` keeps the
/// probed backend, and anything else takes the vendor's path exactly where the
/// interface is the vendor's and its element is installed.
pub proof fn law_the_override_decides(base: EncoderKind, p: EncoderParams, env: EncoderEnv)
    ensures
        p.encoder@ == "v4l2m2m"@ ==> effective_kind(base, p, env) == EncoderKind::Ffmpeg,
        p.encoder@ == "software"@ ==> effective_kind(base, p, env) == base,
        p.encoder@ != "v4l2m2m"@ && p.encoder@ != "software"@ ==> effective_kind(base, p, env) == (
        if env.encoder_api@ == "vendor"@ && env.has_omxh264videoenc {
            EncoderKind::Gstreamer
        } else {
            base
        }),
        uses_omx(p, env) ==> env.has_omxh264videoenc && env.encoder_api@ == "vendor"@ && p.encoder@
            != "software"@,
        env.has_omxh264videoenc && env.encoder_api@ == "vendor"@ && p.encoder@ != "software"@
            ==> uses_omx(p, env),
{
    reveal_strlit("software");
    reveal_strlit("v4l2m2m");
    assert("software"@.len() == 8);
    assert("v4l2m2m"@.len() == 7);
}

/// The capture format: compressed wherever the camera offers it, raw only
/// where it offers that and nothing compressed, none where it offers neither or
/// nothing is known of it. The case of letters does not matter.
pub proof fn law_compressed_before_raw(camera: CameraInfo, k: int)
    requires
        0 <= k < camera.capabilities@.len(),
    ensures
        input_format(None) is None,
        ({
            let f = input_format(Some(&camera));
            let cap = text::lowered(camera.capabilities@[k]@);
            &&& cap == "mjpeg"@ || cap == "mjpg"@ ==> f == Some("mjpeg"@)
            &&& cap == "yuyv"@ || cap == "rawvideo"@ ==> f == Some("mjpeg"@) || f == Some("yuyv"@)
            &&& f == Some("mjpeg"@) ==> exists|i: int|
                0 <= i < camera.capabilities@.len() && (text::lowered(
                    #[trigger] camera.capabilities@[i]@,
                ) == "mjpeg"@ || text::lowered(camera.capabilities@[i]@) == "mjpg"@)
            &&& f is Some && f != Some("mjpeg"@) ==> f == Some("yuyv"@) && exists|i: int|
                0 <= i < camera.capabilities@.len() && (text::lowered(
                    #[trigger] camera.capabilities@[i]@,
                ) == "yuyv"@ || text::lowered(camera.capabilities@[i]@) == "rawvideo"@)
        }),
{
    reveal_strlit("mjpeg");
    reveal_strlit("yuyv");
    assert("mjpeg"@.len() == 5 && "yuyv"@.len() == 4);
    let caps = text::views(camera.capabilities@);
    assert(caps[k] == camera.capabilities@[k]@);
    if offers(caps, "mjpeg"@, "mjpg"@) {
        let i = choose|i: int|
            0 <= i < caps.len() && (text::lowered(#[trigger] caps[i]) == "mjpeg"@ || text::lowered(
                caps[i],
            ) == "mjpg"@);
        assert(caps[i] == camera.capabilities@[i]@);
    } else if offers(caps, "yuyv"@, "rawvideo"@) {
        let i = choose|i: int|
            0 <= i < caps.len() && (text::lowered(#[trigger] caps[i]) == "yuyv"@ || text::lowered(
                caps[i],
            ) == "rawvideo"@);
        assert(caps[i] == camera.capabilities@[i]@);
    }
}

/// The identity of a `rpicam-vid` pipeline is its name; any other begins with
/// its family and a hyphen.
pub proof fn law_labels_begin_with_their_family(kind: EncoderKind, cmd: Seq<Seq<char>>)
    ensures
        kind == EncoderKind::RpicamVid ==> label_of(kind, cmd) == "rpicam-vid"@,
        kind == EncoderKind::Ffmpeg ==> ("ffmpeg"@ + "-"@).is_prefix_of(label_of(kind, cmd)),
        kind == EncoderKind::Gstreamer ==> ("gstreamer"@ + "-"@).is_prefix_of(label_of(kind, cmd)),
{
    let l = label_of(kind, cmd);
    if kind == EncoderKind::Ffmpeg {
        let f = "ffmpeg"@ + "-"@;
        assert(f =~= l.subrange(0, f.len() as int));
    }
    if kind == EncoderKind::Gstreamer {
        let f = "gstreamer"@ + "-"@;
        assert(f =~= l.subrange(0, f.len() as int));
    }
}

/// An identity is of hardware exactly when it is that of `rpicam-vid` or names
/// a hardware element: whatever stands around the element does not matter.
pub proof fn law_hardware_is_named(before: Seq<char>, after: Seq<char>, label: Seq<char>)
    ensures
        is_hardware("rpicam-vid"@),
        is_hardware(before + "v4l2m2m"@ + after),
        is_hardware(before + "mpp"@ + after),
        is_hardware(before + "omxh264videoenc"@ + after),
        label != "rpicam-vid"@ && !text::holds(label, "v4l2m2m"@) && !text::holds(label, "mpp"@)
            && !text::holds(label, "omxh264videoenc"@) ==> !is_hardware(label),
{
    lemma_holds_between(before, "v4l2m2m"@, after);
    lemma_holds_between(before, "mpp"@, after);
    lemma_holds_between(before, "omxh264videoenc"@, after);
}

proof fn lemma_holds_between(before: Seq<char>, p: Seq<char>, after: Seq<char>)
    ensures
        text::holds(before + p + after, p),
{
    let s = before + p + after;
    let n = before.len() as int;
    assert(s.subrange(n, n + p.len()) =~= p);
    assert(text::occurs_at(s, p, n));
}

/// The codec elements: one of the eight names stands at a place exactly where an
/// element is seen there, and what is seen stands there.
pub proof fn law_which_elements_are_seen(s: Seq<char>, i: int)
    ensures
        element_at(s, i) is Some <==> text::occurs_at(s, "h264_v4l2m2m"@, i) || text::occurs_at(
            s,
            "hevc_v4l2m2m"@,
            i,
        ) || text::occurs_at(s, "mpph264enc"@, i) || text::occurs_at(s, "mpph265enc"@, i)
            || text::occurs_at(s, "omxh264videoenc"@, i) || text::occurs_at(s, "x264enc"@, i)
            || text::occurs_at(s, "libx264"@, i) || text::occurs_at(s, "libx265"@, i),
        element_at(s, i) is Some ==> text::occurs_at(s, element_at(s, i)->0, i),
{
}

/// The first element of a command is the one that names it: in its first
/// argument that holds one, the first that stands there.
pub proof fn law_the_first_element_names_the_encoder(cmd: Seq<Seq<char>>, k: int, i: int)
    requires
        0 <= k < cmd.len(),
        forall|j: int| 0 <= j < k ==> element_from(#[trigger] cmd[j], 0) is None,
        0 <= i < cmd[k].len(),
        element_at(cmd[k], i) is Some,
        forall|j: int| 0 <= j < i ==> element_at(cmd[k], j) is None,
    ensures
        label_of(EncoderKind::Ffmpeg, cmd) == "ffmpeg"@ + "-"@ + element_at(cmd[k], i)->0,
        label_of(EncoderKind::Gstreamer, cmd) == "gstreamer"@ + "-"@ + element_at(cmd[k], i)->0,
        label_of(EncoderKind::RpicamVid, cmd) == "rpicam-vid"@,
{
    lemma_element_from(cmd[k], 0, i);
    lemma_element_of(cmd, 0, k);
}

proof fn lemma_element_from(s: Seq<char>, from: int, i: int)
    requires
        0 <= from <= i < s.len(),
        element_at(s, i) is Some,
        forall|j: int| from <= j < i ==> element_at(s, j) is None,
    ensures
        element_from(s, from) == element_at(s, i),
    decreases i - from,
{
    if from < i {
        assert(element_at(s, from) is None);
        lemma_element_from(s, from + 1, i);
    }
}

proof fn lemma_element_of(cmd: Seq<Seq<char>>, from: int, k: int)
    requires
        0 <= from <= k < cmd.len(),
        element_from(cmd[k], 0) is Some,
        forall|j: int| from <= j < k ==> element_from(#[trigger] cmd[j], 0) is None,
    ensures
        element_of(cmd, from) == element_from(cmd[k], 0),
    decreases k - from,
{
    if from < k {
        assert(element_from(cmd[from], 0) is None);
        lemma_element_of(cmd, from + 1, k);
    }
}

/// A command without a known element has an encoder of which nothing is known.
pub proof fn law_other_encoders_are_unknown(cmd: Seq<Seq<char>>)
    requires
        forall|j: int| 0 <= j < cmd.len() ==> element_from(#[trigger] cmd[j], 0) is None,
    ensures
        label_of(EncoderKind::Ffmpeg, cmd) == "ffmpeg"@ + "-"@ + "unknown"@,
        label_of(EncoderKind::Gstreamer, cmd) == "gstreamer"@ + "-"@ + "unknown"@,
{
    lemma_no_element(cmd, 0);
}

proof fn lemma_no_element(cmd: Seq<Seq<char>>, k: int)
    requires
        0 <= k,
        forall|j: int| k <= j < cmd.len() ==> element_from(#[trigger] cmd[j], 0) is None,
    ensures
        element_of(cmd, k) is None,
    decreases cmd.len() - k,
{
    if k < cmd.len() {
        assert(element_from(cmd[k], 0) is None);
        lemma_no_element(cmd, k + 1);
    }
}

/// An error names the offending value and says what is admitted.
pub proof fn law_errors_name_the_value(s: String, quoted: Seq<char>)
    ensures
        EncoderError::InvalidSource(s).value() == s@,
        EncoderError::UnsupportedCodec(s).value() == s@,
        EncoderError::InvalidSource(s).explained(quoted) == "Invalid source path: "@ + quoted
            + ". Only alphanumeric, slashes, dots, hyphens, underscores, and colons are allowed."@,
        ("Unsupported video codec "@ + quoted).is_prefix_of(
            EncoderError::UnsupportedCodec(s).explained(quoted),
        ),
        ". Only \"h264\" is emitted with a bounded keyframe interval (-g) and in-band SPS/PPS before every IDR, and the radio leg frames every payload as RTP payload type 96 (H.264, RFC 6184) against a fixed receiver SDP — so any other codec goes on air untuned and undecodable. Set video.camera.codec to \"h264\"."@.is_suffix_of(
            EncoderError::UnsupportedCodec(s).explained(quoted),
        ),
{
    let b = EncoderError::UnsupportedCodec(s).explained(quoted);
    let y = "Unsupported video codec "@ + quoted;
    assert(y =~= b.subrange(0, y.len() as int));
    assert(b.skip(y.len() as int) =~= b.subrange(y.len() as int, b.len() as int));
}

} // verus!
