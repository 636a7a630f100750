//! The vision frame tap: its command, its frame geometry and the decisions of
//! the server that hands the frames on.
use crate::health::Nanos;
use crate::text;
use crate::text::{add_arg, decimal_of};
use vstd::prelude::*;

verus! {

/// How long the tap may go without reporting output.
pub const VISION_TAP_PROGRESS_TIMEOUT: Nanos = crate::wfb_tee::WFB_TEE_PROGRESS_TIMEOUT;

/// Upper bound on one write to the vision engine.
pub const ENGINE_WRITE_TIMEOUT: Nanos = 5_000_000_000;

/// `fps=F,scale=W:H` with the rate floored at one frame per second.
pub open spec fn tap_filter(fps: u32, width: u32, height: u32) -> Seq<char> {
    "fps="@ + text::decimal(
        if fps >= 1 {
            fps as nat
        } else {
            1
        },
    ) + ",scale="@ + text::decimal(width as nat) + ":"@ + text::decimal(height as nat)
}

/// The arguments of the tap: decode the local stream, throttle and scale it,
/// and emit raw frames on standard output and progress on standard error.
pub open spec fn tap_argv(
    rtsp_in: Seq<char>,
    fps: u32,
    width: u32,
    height: u32,
    pixel_format: Seq<char>,
) -> Seq<Seq<char>> {
    seq![
        "-fflags"@,
        "nobuffer"@,
        "-flags"@,
        "low_delay"@,
        "-rtsp_transport"@,
        "tcp"@,
        "-i"@,
        rtsp_in,
        "-an"@,
        "-vf"@,
        tap_filter(fps, width, height),
        "-pix_fmt"@,
        pixel_format,
        "-f"@,
        "rawvideo"@,
        "-progress"@,
        "pipe:2"@,
        "pipe:1"@,
    ]
}

/// The `ffmpeg` arguments of the decoupled vision tap.
pub fn vision_tap_args(rtsp_in: &str, fps: u32, width: u32, height: u32, pixel_format: &str) -> (r:
    Vec<String>)
    ensures
        text::views(r@) == tap_argv(rtsp_in@, fps, width, height, pixel_format@),
{
    let rate: u32 = if fps >= 1 {
        fps
    } else {
        1
    };
    let mut filter = String::from_str("fps=");
    filter.append(decimal_of(rate as u64).as_str());
    filter.append(",scale=");
    filter.append(decimal_of(width as u64).as_str());
    filter.append(":");
    filter.append(decimal_of(height as u64).as_str());
    let mut out: Vec<String> = Vec::new();
    assert(text::views(out@) =~= Seq::<Seq<char>>::empty());
    add_arg(&mut out, "-fflags");
    add_arg(&mut out, "nobuffer");
    add_arg(&mut out, "-flags");
    add_arg(&mut out, "low_delay");
    add_arg(&mut out, "-rtsp_transport");
    add_arg(&mut out, "tcp");
    add_arg(&mut out, "-i");
    add_arg(&mut out, rtsp_in);
    add_arg(&mut out, "-an");
    add_arg(&mut out, "-vf");
    add_arg(&mut out, filter.as_str());
    add_arg(&mut out, "-pix_fmt");
    add_arg(&mut out, pixel_format);
    add_arg(&mut out, "-f");
    add_arg(&mut out, "rawvideo");
    add_arg(&mut out, "-progress");
    add_arg(&mut out, "pipe:2");
    add_arg(&mut out, "pipe:1");
    out
}

/// The local URL of the media-server path `path`.
pub open spec fn local_url(rtsp_port: u16, path: Seq<char>) -> Seq<char> {
    "rtsp://localhost:"@ + text::decimal(rtsp_port as nat) + "/"@ + path
}

/// The local URL of a media-server path.
pub fn local_path_url(rtsp_port: u16, path: &str) -> (r: String)
    ensures
        r@ == local_url(rtsp_port, path@),
{
    let mut out = String::from_str("rtsp://localhost:");
    out.append(decimal_of(rtsp_port as u64).as_str());
    out.append("/");
    out.append(path);
    out
}

/// The local URL of the main stream, which every consumer reads.
pub fn local_rtsp_url(rtsp_port: u16) -> (r: String)
    ensures
        r@ == local_url(rtsp_port, "main"@),
{
    local_path_url(rtsp_port, "main")
}

/// Raw pixel layout of a frame.
#[derive(Debug, Clone, Copy, PartialEq, Eq, Structural)]
pub enum FrameFormat {
    Rgb24,
    Nv12,
    Yuv420p,
}

/// The layout that a pixel-format name stands for; an unknown name is RGB.
pub fn frame_format_from_str(pixel_format: &str) -> (r: FrameFormat)
    ensures
        r == (if pixel_format@ == "nv12"@ {
            FrameFormat::Nv12
        } else if pixel_format@ == "yuv420p"@ {
            FrameFormat::Yuv420p
        } else {
            FrameFormat::Rgb24
        }),
        r == FrameFormat::Nv12 <==> pixel_format@ == "nv12"@,
        r == FrameFormat::Yuv420p <==> pixel_format@ == "yuv420p"@,
{
    proof {
        reveal_strlit("nv12");
        reveal_strlit("yuv420p");
        assert("nv12"@.len() == 4 && "yuv420p"@.len() == 7);
    }
    if text::same(pixel_format, "nv12") {
        FrameFormat::Nv12
    } else if text::same(pixel_format, "yuv420p") {
        FrameFormat::Yuv420p
    } else {
        FrameFormat::Rgb24
    }
}

/// Bytes of one frame: three per pixel, or three for two pixels in the 4:2:0
/// layouts.
pub open spec fn frame_bytes(format: FrameFormat, width: u32, height: u32) -> int {
    let px = width * height;
    match format {
        FrameFormat::Rgb24 => px * 3,
        FrameFormat::Nv12 | FrameFormat::Yuv420p => px * 3 / 2,
    }
}

/// Bytes of one raw frame.
pub fn frame_size_bytes(format: FrameFormat, width: u32, height: u32) -> (r: usize)
    requires
        width * height * 3 <= usize::MAX,
    ensures
        r == frame_bytes(format, width, height),
{
    assert(width * height <= width * height * 3) by (nonlinear_arith)
        requires
            width >= 0,
            height >= 0,
    ;
    let px: usize = width as usize * height as usize;
    match format {
        FrameFormat::Rgb24 => px * 3,
        FrameFormat::Nv12 | FrameFormat::Yuv420p => px * 3 / 2,
    }
}

/// What happens at the tap's server.
#[derive(Debug, Clone, Copy, PartialEq, Eq, Structural)]
pub enum TapEvent {
    /// An engine connected.
    Connected,
    /// The listener broke.
    AcceptFailed,
    /// A new frame is ready.
    FrameReady,
    /// The frame source ended.
    SourceEnded,
    /// A forwarded frame was written.
    WriteDone,
    /// Writing to the engine failed or took too long.
    WriteFailed,
}

/// What the tap's server does.
#[derive(Debug, Clone, Copy, PartialEq, Eq, Structural)]
pub enum TapAction {
    /// Take the new connection in place of any earlier one.
    Adopt,
    /// Write the newest frame to the engine.
    Forward,
    /// Close the engine's connection and keep draining the source.
    DropEngine,
    /// Nothing to do.
    Idle,
    /// End the leg.
    Stop,
}

/// The server's decision, given whether an engine is connected: a new
/// connection always wins, a frame goes to the engine if there is one, a bad
/// engine is dropped, and only a broken listener or an ended source ends the
/// leg.
pub open spec fn tap_step(engine: bool, event: TapEvent) -> (bool, TapAction) {
    match event {
        TapEvent::Connected => (true, TapAction::Adopt),
        TapEvent::AcceptFailed => (engine, TapAction::Stop),
        TapEvent::FrameReady => (engine, if engine {
            TapAction::Forward
        } else {
            TapAction::Idle
        }),
        TapEvent::SourceEnded => (engine, TapAction::Stop),
        TapEvent::WriteDone => (engine, TapAction::Idle),
        TapEvent::WriteFailed => (false, TapAction::DropEngine),
    }
}

/// The server's decision on an event, given whether an engine is connected.
pub fn tap_server_step(engine: bool, event: TapEvent) -> (r: (bool, TapAction))
    ensures
        r == tap_step(engine, event),
{
    match event {
        TapEvent::Connected => (true, TapAction::Adopt),
        TapEvent::AcceptFailed => (engine, TapAction::Stop),
        TapEvent::FrameReady => {
            if engine {
                (engine, TapAction::Forward)
            } else {
                (engine, TapAction::Idle)
            }
        },
        TapEvent::SourceEnded => (engine, TapAction::Stop),
        TapEvent::WriteDone => (engine, TapAction::Idle),
        TapEvent::WriteFailed => (false, TapAction::DropEngine),
    }
}

/// One bad engine never ends the tap, and no frame is written without an
/// engine.
pub proof fn law_a_bad_engine_never_stops_the_tap(engine: bool, event: TapEvent)
    ensures
        tap_step(engine, event).1 == TapAction::Stop <==> event == TapEvent::AcceptFailed || event
            == TapEvent::SourceEnded,
        tap_step(engine, event).1 == TapAction::Forward ==> engine,
        event == TapEvent::WriteFailed ==> !tap_step(engine, event).0,
{
}

/// The tap reads the given stream, throttles and scales it as configured, and
/// writes raw frames of the given format to standard output and its progress to
/// standard error.
pub proof fn law_the_tap_emits_what_is_configured(
    rtsp_in: Seq<char>,
    fps: u32,
    width: u32,
    height: u32,
    pixel_format: Seq<char>,
)
    ensures
        ({
            let a = tap_argv(rtsp_in, fps, width, height, pixel_format);
            &&& a.len() == 18
            &&& a[6] == "-i"@ && a[7] == rtsp_in
            &&& a[4] == "-rtsp_transport"@ && a[5] == "tcp"@
            &&& a[8] == "-an"@
            &&& a[9] == "-vf"@ && a[10] == tap_filter(fps, width, height)
            &&& a[11] == "-pix_fmt"@ && a[12] == pixel_format
            &&& a[13] == "-f"@ && a[14] == "rawvideo"@
            &&& a[15] == "-progress"@ && a[16] == "pipe:2"@
            &&& a.last() == "pipe:1"@
        }),
        fps >= 1 ==> tap_filter(fps, width, height) == "fps="@ + text::decimal(fps as nat)
            + ",scale="@ + text::decimal(width as nat) + ":"@ + text::decimal(height as nat),
        tap_filter(0, width, height) == tap_filter(1, width, height),
{
}

/// The local address of a path names the port and the path; different paths
/// have different addresses.
pub proof fn law_local_addresses_differ(port: u16, a: Seq<char>, b: Seq<char>)
    ensures
        local_url(port, a) == "rtsp://localhost:"@ + text::decimal(port as nat) + "/"@ + a,
        a.is_suffix_of(local_url(port, a)),
        local_url(port, a) == local_url(port, b) ==> a == b,
{
    let x = local_url(port, a);
    let y = local_url(port, b);
    assert(a =~= x.subrange(x.len() - a.len(), x.len() as int));
    if x == y {
        assert(b =~= y.subrange(y.len() - b.len(), y.len() as int));
        assert(a.len() == b.len());
    }
}

/// A frame has three bytes a pixel, and in the two subsampled layouts half of
/// that.
pub proof fn law_the_size_of_a_frame(width: u32, height: u32)
    ensures
        frame_bytes(FrameFormat::Rgb24, width, height) == 3 * (width * height),
        frame_bytes(FrameFormat::Nv12, width, height) == frame_bytes(
            FrameFormat::Yuv420p,
            width,
            height,
        ),
        0 <= frame_bytes(FrameFormat::Rgb24, width, height) - 2 * frame_bytes(
            FrameFormat::Nv12,
            width,
            height,
        ) <= 1,
{
}

/// A new engine is always taken, a frame goes to the engine exactly where there
/// is one, and only a new engine or a failed write changes whether there is.
pub proof fn law_what_the_tap_server_does(engine: bool, event: TapEvent)
    ensures
        event == TapEvent::Connected ==> tap_step(engine, event) == (true, TapAction::Adopt),
        event == TapEvent::FrameReady ==> (tap_step(engine, event).1 == TapAction::Forward
            <==> engine),
        event == TapEvent::FrameReady && !engine ==> tap_step(engine, event).1 == TapAction::Idle,
        event == TapEvent::WriteFailed ==> tap_step(engine, event) == (
            false,
            TapAction::DropEngine,
        ),
        event != TapEvent::Connected && event != TapEvent::WriteFailed ==> tap_step(
            engine,
            event,
        ).0 == engine,
        event == TapEvent::WriteDone ==> tap_step(engine, event).1 == TapAction::Idle,
{
}

/// The times of the vision tap.
pub proof fn law_the_times_of_the_tap()
    ensures
        VISION_TAP_PROGRESS_TIMEOUT == 15_000_000_000,
        ENGINE_WRITE_TIMEOUT == 5_000_000_000,
{
}

} // verus!
