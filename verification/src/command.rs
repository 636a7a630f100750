//! Composition of the encoder commands.
//!
//! Three families of commands drive H.264 capture and publishing: `rpicam-vid`,
//! `ffmpeg` and `gst-launch-1.0`. Each command is stated below as the exact
//! sequence of its arguments, and the builders are proved to return that
//! sequence. Nothing here spawns a process.
use crate::config;
use crate::encoder;
use crate::encoder::{
    ffmpeg_vf, gop_interval, gst_videoflip_chain, resolve_kind, select_input_format,
    use_omx_encoder, validate_codec, validate_source, CameraInfo, EncoderEnv, EncoderError,
    EncoderKind, EncoderParams, HwEncoder,
};
use crate::shell;
use crate::text;
use crate::text::{add_arg, add_args, cat, decimal_of};
use crate::wfb_tee;
use vstd::prelude::*;

verus! {

// ---------------------------------------------------------------------------
// rpicam-vid
// ---------------------------------------------------------------------------

/// The configured bitrate in bits per second, in decimal.
pub open spec fn bits_per_second(p: EncoderParams) -> Seq<char> {
    text::decimal((p.bitrate_kbps * 1000) as nat)
}

fn bits_of(p: &EncoderParams) -> (r: String)
    ensures
        r@ == bits_per_second(*p),
{
    decimal_of(p.bitrate_kbps as u64 * 1000)
}

/// The fixed part of the `rpicam-vid` command: High profile at level 4.1,
/// parameter sets before every keyframe, the contracted keyframe interval.
pub open spec fn rpicam_base(p: EncoderParams) -> Seq<Seq<char>> {
    seq![
        "rpicam-vid"@,
        "--width"@,
        text::decimal(p.width as nat),
        "--height"@,
        text::decimal(p.height as nat),
        "--framerate"@,
        text::decimal(p.fps as nat),
        "--bitrate"@,
        bits_per_second(p),
        "--codec"@,
        p.codec@,
        "--timeout"@,
        "0"@,
        "--nopreview"@,
        "--inline"@,
        "--profile"@,
        "high"@,
        "--level"@,
        "4.1"@,
        "--intra"@,
        text::decimal(encoder::gop(p)),
    ]
}

fn build_rpicam_base(p: &EncoderParams) -> (out: Vec<String>)
    ensures
        text::views(out@) == rpicam_base(*p),
{
    let mut out: Vec<String> = Vec::new();
    assert(text::views(out@) =~= Seq::<Seq<char>>::empty());
    add_arg(&mut out, "rpicam-vid");
    add_arg(&mut out, "--width");
    add_arg(&mut out, decimal_of(p.width as u64).as_str());
    add_arg(&mut out, "--height");
    add_arg(&mut out, decimal_of(p.height as u64).as_str());
    add_arg(&mut out, "--framerate");
    add_arg(&mut out, decimal_of(p.fps as u64).as_str());
    add_arg(&mut out, "--bitrate");
    add_arg(&mut out, bits_of(p).as_str());
    add_arg(&mut out, "--codec");
    add_arg(&mut out, p.codec.as_str());
    add_arg(&mut out, "--timeout");
    add_arg(&mut out, "0");
    add_arg(&mut out, "--nopreview");
    add_arg(&mut out, "--inline");
    add_arg(&mut out, "--profile");
    add_arg(&mut out, "high");
    add_arg(&mut out, "--level");
    add_arg(&mut out, "4.1");
    add_arg(&mut out, "--intra");
    add_arg(&mut out, decimal_of(gop_interval(p) as u64).as_str());
    out
}

/// The camera index that `rpicam-vid` is given: the number of a
/// `/dev/video` node, or the source itself.
pub open spec fn camera_index(source: Seq<char>) -> Seq<char> {
    if "/dev/video"@.is_prefix_of(source) {
        source.skip("/dev/video"@.len() as int)
    } else {
        source
    }
}

/// The arguments of `rpicam-vid` up to its output.
pub open spec fn rpicam_argv(p: EncoderParams, source: Seq<char>, env: EncoderEnv) -> Seq<
    Seq<char>,
> {
    let base = rpicam_base(p);
    let tuned = if env.pi5_class {
        base.push("--low-latency"@)
    } else {
        base
    };
    if source.len() > 0 && source != "-"@ {
        tuned.push("--camera"@).push(camera_index(source))
    } else {
        tuned
    }
}

/// The `ffmpeg` stage that publishes what `rpicam-vid` encodes. It stamps the
/// colour description into the stream and strips the muxer's delay.
pub open spec fn rpicam_publish(output: Seq<char>) -> Seq<Seq<char>> {
    seq![
        "ffmpeg"@,
        "-loglevel"@,
        "error"@,
        "-fflags"@,
        "nobuffer"@,
        "-flags"@,
        "low_delay"@,
        "-f"@,
        "h264"@,
        "-i"@,
        "-"@,
        "-c"@,
        "copy"@,
        "-bsf:v"@,
        "h264_metadata=colour_primaries=1:transfer_characteristics=1:matrix_coefficients=1:video_full_range_flag=0"@,
        "-muxdelay"@,
        "0"@,
        "-muxpreload"@,
        "0"@,
        "-flush_packets"@,
        "1"@,
        "-f"@,
        "rtsp"@,
        "-rtsp_transport"@,
        "tcp"@,
        output,
    ]
}

fn build_rpicam_publish(output: &str) -> (out: Vec<String>)
    ensures
        text::views(out@) == rpicam_publish(output@),
{
    let mut out: Vec<String> = Vec::new();
    assert(text::views(out@) =~= Seq::<Seq<char>>::empty());
    add_arg(&mut out, "ffmpeg");
    add_arg(&mut out, "-loglevel");
    add_arg(&mut out, "error");
    add_arg(&mut out, "-fflags");
    add_arg(&mut out, "nobuffer");
    add_arg(&mut out, "-flags");
    add_arg(&mut out, "low_delay");
    add_arg(&mut out, "-f");
    add_arg(&mut out, "h264");
    add_arg(&mut out, "-i");
    add_arg(&mut out, "-");
    add_arg(&mut out, "-c");
    add_arg(&mut out, "copy");
    add_arg(&mut out, "-bsf:v");
    add_arg(&mut out, "h264_metadata=colour_primaries=1:transfer_characteristics=1:matrix_coefficients=1:video_full_range_flag=0");
    add_arg(&mut out, "-muxdelay");
    add_arg(&mut out, "0");
    add_arg(&mut out, "-muxpreload");
    add_arg(&mut out, "0");
    add_arg(&mut out, "-flush_packets");
    add_arg(&mut out, "1");
    add_arg(&mut out, "-f");
    add_arg(&mut out, "rtsp");
    add_arg(&mut out, "-rtsp_transport");
    add_arg(&mut out, "tcp");
    add_arg(&mut out, output);
    out
}

/// The whole `rpicam-vid` command. For an RTSP output the encoded stream is
/// piped into the publishing stage; any other output is written directly.
pub open spec fn rpicam_command(
    p: EncoderParams,
    source: Seq<char>,
    output: Seq<char>,
    env: EncoderEnv,
) -> Seq<Seq<char>> {
    let argv = rpicam_argv(p, source, env);
    if "rtsp://"@.is_prefix_of(output) {
        seq![
            "bash"@,
            "-c"@,
            shell::shell_line(argv.push("-o"@).push("-"@)) + " | "@ + shell::shell_line(
                rpicam_publish(output),
            ),
        ]
    } else {
        argv.push("-o"@).push(output)
    }
}

/// A `bash -c` command.
pub(crate) fn bash_command(line: &str) -> (out: Vec<String>)
    ensures
        text::views(out@) == seq!["bash"@, "-c"@, line@],
{
    let mut out: Vec<String> = Vec::new();
    assert(text::views(out@) =~= Seq::<Seq<char>>::empty());
    add_arg(&mut out, "bash");
    add_arg(&mut out, "-c");
    add_arg(&mut out, line);
    out
}

/// `rpicam-vid` command for CSI cameras.
pub fn build_rpicam_command(params: &EncoderParams, source: &str, output: &str, env: &EncoderEnv) -> (r:
    Vec<String>)
    ensures
        text::views(r@) == rpicam_command(*params, source@, output@, *env),
{
    let mut argv = build_rpicam_base(params);
    if env.pi5_class {
        add_arg(&mut argv, "--low-latency");
    }
    if !source.is_empty() && !text::same(source, "-") {
        add_arg(&mut argv, "--camera");
        match text::strip_prefix(source, "/dev/video") {
            Some(index) => {
                add_arg(&mut argv, index.as_str());
            },
            None => {
                add_arg(&mut argv, source);
            },
        }
    }
    add_arg(&mut argv, "-o");
    if text::starts_with(output, "rtsp://") {
        add_arg(&mut argv, "-");
        let publish = build_rpicam_publish(output);
        let mut line = shell::join_shell(&argv);
        line.append(" | ");
        let tail = shell::join_shell(&publish);
        line.append(tail.as_str());
        bash_command(line.as_str())
    } else {
        add_arg(&mut argv, output);
        argv
    }
}

// ---------------------------------------------------------------------------
// ffmpeg
// ---------------------------------------------------------------------------

/// `WIDTHxHEIGHT`.
pub open spec fn size_text(p: EncoderParams) -> Seq<char> {
    text::decimal(p.width as nat) + "x"@ + text::decimal(p.height as nat)
}

fn size_of(p: &EncoderParams) -> (r: String)
    ensures
        r@ == size_text(*p),
{
    let mut out = decimal_of(p.width as u64);
    out.append("x");
    let h = decimal_of(p.height as u64);
    out.append(h.as_str());
    out
}

/// The input half for a network camera; RTSP is pulled over TCP.
pub open spec fn network_input(source: Seq<char>) -> Seq<Seq<char>> {
    let flags = seq![
        "-fflags"@,
        "nobuffer"@,
        "-flags"@,
        "low_delay"@,
    ];
    let transport = if "rtsp://"@.is_prefix_of(source) {
        flags.push("-rtsp_transport"@).push("tcp"@)
    } else {
        flags
    };
    transport.push("-i"@).push(source)
}

/// The input half for a capture device.
pub open spec fn device_input(
    p: EncoderParams,
    source: Seq<char>,
    camera: Option<&CameraInfo>,
) -> Seq<Seq<char>> {
    let flags = seq![
        "-fflags"@,
        "nobuffer"@,
        "-flags"@,
        "low_delay"@,
        "-probesize"@,
        "32"@,
        "-analyzeduration"@,
        "0"@,
        "-thread_queue_size"@,
        "128"@,
        "-f"@,
        "v4l2"@,
    ];
    let format = match encoder::input_format(camera) {
        Some(f) => flags.push("-input_format"@).push(f),
        None => flags,
    };
    format.push("-video_size"@).push(size_text(p)).push("-framerate"@).push(text::decimal(p.fps as nat)).push("-i"@).push(source)
}

/// The input half of the `ffmpeg` command.
pub open spec fn ffmpeg_input(
    p: EncoderParams,
    source: Seq<char>,
    camera: Option<&CameraInfo>,
) -> Seq<Seq<char>> {
    if config::is_stream_url(source) {
        network_input(source)
    } else {
        device_input(p, source, camera)
    }
}

fn build_ffmpeg_input(p: &EncoderParams, source: &str, camera: Option<&CameraInfo>) -> (out: Vec<
    String,
>)
    ensures
        text::views(out@) == ffmpeg_input(*p, source@, camera),
{
    let mut out: Vec<String> = Vec::new();
    assert(text::views(out@) =~= Seq::<Seq<char>>::empty());
    if config::stream_url(source) {
        add_arg(&mut out, "-fflags");
        add_arg(&mut out, "nobuffer");
        add_arg(&mut out, "-flags");
        add_arg(&mut out, "low_delay");
        if text::starts_with(source, "rtsp://") {
            add_arg(&mut out, "-rtsp_transport");
            add_arg(&mut out, "tcp");
        }
        add_arg(&mut out, "-i");
        add_arg(&mut out, source);
    } else {
        add_arg(&mut out, "-fflags");
        add_arg(&mut out, "nobuffer");
        add_arg(&mut out, "-flags");
        add_arg(&mut out, "low_delay");
        add_arg(&mut out, "-probesize");
        add_arg(&mut out, "32");
        add_arg(&mut out, "-analyzeduration");
        add_arg(&mut out, "0");
        add_arg(&mut out, "-thread_queue_size");
        add_arg(&mut out, "128");
        add_arg(&mut out, "-f");
        add_arg(&mut out, "v4l2");
        match select_input_format(camera) {
            Some(f) => {
                add_arg(&mut out, "-input_format");
                add_arg(&mut out, f);
            },
            None => {},
        }
        add_arg(&mut out, "-video_size");
        add_arg(&mut out, size_of(p).as_str());
        add_arg(&mut out, "-framerate");
        add_arg(&mut out, decimal_of(p.fps as u64).as_str());
        add_arg(&mut out, "-i");
        add_arg(&mut out, source);
    }
    out
}

/// The quantizer floor handed to the `h264_v4l2m2m` encoder.
pub const V4L2M2M_MIN_QP: u32 = 20;

/// The hardware `h264_v4l2m2m` encoder is used: a device was confirmed or the
/// camera forces it, and software was not asked for.
pub open spec fn uses_v4l2m2m(p: EncoderParams, env: EncoderEnv) -> bool {
    p.encoder@ != "software"@ && (p.encoder@ == "v4l2m2m"@ || env.hw_h264 == HwEncoder::Present)
}

/// The tuning of the software encoder. Four or more cores split one frame
/// into slices; fewer keep whole-frame threading.
pub open spec fn x264_tuning(p: EncoderParams, env: EncoderEnv) -> Seq<Seq<char>> {
    seq![
        "-pix_fmt"@,
        "yuv420p"@,
        "-profile:v"@,
        "high"@,
        "-level:v"@,
        "4.1"@,
        "-preset"@,
        "ultrafast"@,
        "-tune"@,
        "zerolatency"@,
        "-g"@,
        text::decimal(encoder::gop(p)),
        "-bf"@,
        "0"@,
        "-refs"@,
        "1"@,
        "-threads"@,
        if env.cpu_threads >= 4 {
            "4"@
        } else {
            "2"@
        },
        "-flush_packets"@,
        "1"@,
        "-x264-params"@,
        if env.cpu_threads >= 4 {
            "no-mbtree=1:sync-lookahead=0:rc-lookahead=0:sliced-threads=1:slices=4:scenecut=0"@
        } else {
            "no-mbtree=1:sync-lookahead=0:rc-lookahead=0:sliced-threads=0:scenecut=0"@
        },
        "-bsf:v"@,
        "h264_mp4toannexb,dump_extra=freq=keyframe"@,
    ]
}

/// The tuning of the hardware encoder.
pub open spec fn v4l2m2m_tuning(p: EncoderParams) -> Seq<Seq<char>> {
    seq![
        "-pix_fmt"@,
        "yuv420p"@,
        "-g"@,
        text::decimal(encoder::gop(p)),
        "-bf"@,
        "0"@,
        "-flush_packets"@,
        "1"@,
        "-qmin"@,
        text::decimal(V4L2M2M_MIN_QP as nat),
        "-qmax"@,
        "51"@,
        "-bsf:v"@,
        "dump_extra=freq=keyframe"@,
    ]
}

/// The encoder half of the `ffmpeg` command: frame rate, orientation, codec,
/// bitrate and tuning.
pub open spec fn ffmpeg_encode(p: EncoderParams, env: EncoderEnv) -> Seq<Seq<char>> {
    let rate = seq!["-r"@, text::decimal(p.fps as nat)];
    let oriented = match encoder::vf_chain(p.rotation, p.hflip, p.vflip) {
        Some(chain) => rate.push("-vf"@).push(chain),
        None => rate,
    };
    let codec = if uses_v4l2m2m(p, env) {
        "h264_v4l2m2m"@
    } else {
        "libx264"@
    };
    let bitrate = oriented.push("-c:v"@).push(codec).push("-b:v"@).push(
        text::decimal(p.bitrate_kbps as nat) + "k"@,
    );
    if uses_v4l2m2m(p, env) {
        bitrate + v4l2m2m_tuning(p)
    } else {
        bitrate + x264_tuning(p, env)
    }
}

fn build_x264_tuning(p: &EncoderParams, env: &EncoderEnv) -> (out: Vec<String>)
    ensures
        text::views(out@) == x264_tuning(*p, *env),
{
    let threads = if env.cpu_threads >= 4 {
        "4"
    } else {
        "2"
    };
    let x264 = if env.cpu_threads >= 4 {
        "no-mbtree=1:sync-lookahead=0:rc-lookahead=0:sliced-threads=1:slices=4:scenecut=0"
    } else {
        "no-mbtree=1:sync-lookahead=0:rc-lookahead=0:sliced-threads=0:scenecut=0"
    };
    let mut out: Vec<String> = Vec::new();
    assert(text::views(out@) =~= Seq::<Seq<char>>::empty());
    add_arg(&mut out, "-pix_fmt");
    add_arg(&mut out, "yuv420p");
    add_arg(&mut out, "-profile:v");
    add_arg(&mut out, "high");
    add_arg(&mut out, "-level:v");
    add_arg(&mut out, "4.1");
    add_arg(&mut out, "-preset");
    add_arg(&mut out, "ultrafast");
    add_arg(&mut out, "-tune");
    add_arg(&mut out, "zerolatency");
    add_arg(&mut out, "-g");
    add_arg(&mut out, decimal_of(gop_interval(p) as u64).as_str());
    add_arg(&mut out, "-bf");
    add_arg(&mut out, "0");
    add_arg(&mut out, "-refs");
    add_arg(&mut out, "1");
    add_arg(&mut out, "-threads");
    add_arg(&mut out, threads);
    add_arg(&mut out, "-flush_packets");
    add_arg(&mut out, "1");
    add_arg(&mut out, "-x264-params");
    add_arg(&mut out, x264);
    add_arg(&mut out, "-bsf:v");
    add_arg(&mut out, "h264_mp4toannexb,dump_extra=freq=keyframe");
    out
}

fn build_v4l2m2m_tuning(p: &EncoderParams) -> (out: Vec<String>)
    ensures
        text::views(out@) == v4l2m2m_tuning(*p),
{
    let mut out: Vec<String> = Vec::new();
    assert(text::views(out@) =~= Seq::<Seq<char>>::empty());
    add_arg(&mut out, "-pix_fmt");
    add_arg(&mut out, "yuv420p");
    add_arg(&mut out, "-g");
    add_arg(&mut out, decimal_of(gop_interval(p) as u64).as_str());
    add_arg(&mut out, "-bf");
    add_arg(&mut out, "0");
    add_arg(&mut out, "-flush_packets");
    add_arg(&mut out, "1");
    add_arg(&mut out, "-qmin");
    add_arg(&mut out, decimal_of(V4L2M2M_MIN_QP as u64).as_str());
    add_arg(&mut out, "-qmax");
    add_arg(&mut out, "51");
    add_arg(&mut out, "-bsf:v");
    add_arg(&mut out, "dump_extra=freq=keyframe");
    out
}

fn build_ffmpeg_encode(p: &EncoderParams, env: &EncoderEnv) -> (out: Vec<String>)
    ensures
        text::views(out@) == ffmpeg_encode(*p, *env),
{
    let force_sw = text::same(p.encoder.as_str(), "software");
    let force_hw = text::same(p.encoder.as_str(), "v4l2m2m");
    let hw = !force_sw && (force_hw || env.hw_h264.is_present());
    let mut out: Vec<String> = Vec::new();
    assert(text::views(out@) =~= Seq::<Seq<char>>::empty());
    add_arg(&mut out, "-r");
    add_arg(&mut out, decimal_of(p.fps as u64).as_str());
    match ffmpeg_vf(p.rotation, p.hflip, p.vflip) {
        Some(chain) => {
            add_arg(&mut out, "-vf");
            add_arg(&mut out, chain.as_str());
        },
        None => {},
    }
    add_arg(&mut out, "-c:v");
    if hw {
        add_arg(&mut out, "h264_v4l2m2m");
    } else {
        add_arg(&mut out, "libx264");
    }
    add_arg(&mut out, "-b:v");
    let kbps = cat(decimal_of(p.bitrate_kbps as u64).as_str(), "k");
    add_arg(&mut out, kbps.as_str());
    if hw {
        let tuning = build_v4l2m2m_tuning(p);
        add_args(&mut out, &tuning);
    } else {
        let tuning = build_x264_tuning(p, env);
        add_args(&mut out, &tuning);
    }
    out
}

/// The branches of the tee output: the RTSP publish and the radio's RTP copy.
pub open spec fn tee_branches(rtsp_output: Seq<char>) -> Seq<char> {
    "[f=rtsp:rtsp_transport=tcp:max_delay=0:flush_packets=1]"@ + rtsp_output
        + "|[f=rtp:payload_type="@ + text::decimal(wfb_tee::WFB_TEE_PAYLOAD_TYPE as nat) + ":ssrc="@
        + text::decimal(wfb_tee::WFB_TEE_SSRC as nat) + ":max_delay=0:flush_packets=1]"@
        + wfb_tee::rtp_url()
}

/// The `-f tee` branch specification: both branches carry the same encoded
/// packets, and neither may fail alone.
pub fn tee_spec(rtsp_output: &str) -> (r: String)
    ensures
        r@ == tee_branches(rtsp_output@),
{
    let mut out = String::from_str("[f=rtsp:rtsp_transport=tcp:max_delay=0:flush_packets=1]");
    out.append(rtsp_output);
    out.append("|[f=rtp:payload_type=");
    out.append(decimal_of(wfb_tee::WFB_TEE_PAYLOAD_TYPE as u64).as_str());
    out.append(":ssrc=");
    out.append(decimal_of(wfb_tee::WFB_TEE_SSRC as u64).as_str());
    out.append(":max_delay=0:flush_packets=1]");
    out.append(wfb_tee::rtp_destination_url().as_str());
    out
}

/// An output that is a UDP or TCP stream.
pub open spec fn is_ts_url(output: Seq<char>) -> bool {
    "udp://"@.is_prefix_of(output) || "tcp://"@.is_prefix_of(output)
}

/// The output half of an `ffmpeg` publish: muxer flags, muxer and
/// destination. Every live output strips the muxer's delay and preload; an
/// RTSP output with the radio fan-out becomes a tee of two muxers.
pub open spec fn output_stage(output: Seq<char>, rtp_fanout: bool) -> Seq<Seq<char>> {
    if "rtsp://"@.is_prefix_of(output) {
        let strip = seq!["-max_delay"@, "0"@, "-muxdelay"@, "0"@, "-muxpreload"@, "0"@];
        if rtp_fanout {
            strip.push("-map"@).push("0:v"@).push("-f"@).push("tee"@).push(tee_branches(output))
        } else {
            strip.push("-rtsp_transport"@).push("tcp"@).push("-f"@).push("rtsp"@).push(output)
        }
    } else if is_ts_url(output) {
        seq!["-muxdelay"@, "0"@, "-muxpreload"@, "0"@, "-f"@, "mpegts"@, output]
    } else {
        seq![output]
    }
}

/// The output half of an `ffmpeg` publish.
pub fn ffmpeg_output_stage(output: &str, rtp_fanout: bool) -> (out: Vec<String>)
    ensures
        text::views(out@) == output_stage(output@, rtp_fanout),
{
    let mut out: Vec<String> = Vec::new();
    assert(text::views(out@) =~= Seq::<Seq<char>>::empty());
    if text::starts_with(output, "rtsp://") {
        add_arg(&mut out, "-max_delay");
        add_arg(&mut out, "0");
        add_arg(&mut out, "-muxdelay");
        add_arg(&mut out, "0");
        add_arg(&mut out, "-muxpreload");
        add_arg(&mut out, "0");
        if rtp_fanout {
            add_arg(&mut out, "-map");
            add_arg(&mut out, "0:v");
            add_arg(&mut out, "-f");
            add_arg(&mut out, "tee");
            let branches = tee_spec(output);
            add_arg(&mut out, branches.as_str());
        } else {
            add_arg(&mut out, "-rtsp_transport");
            add_arg(&mut out, "tcp");
            add_arg(&mut out, "-f");
            add_arg(&mut out, "rtsp");
            add_arg(&mut out, output);
        }
    } else if text::starts_with(output, "udp://") || text::starts_with(output, "tcp://") {
        add_arg(&mut out, "-muxdelay");
        add_arg(&mut out, "0");
        add_arg(&mut out, "-muxpreload");
        add_arg(&mut out, "0");
        add_arg(&mut out, "-f");
        add_arg(&mut out, "mpegts");
        add_arg(&mut out, output);
    } else {
        add_arg(&mut out, output);
    }
    out
}

/// The whole `ffmpeg` command.
pub open spec fn ffmpeg_command(
    p: EncoderParams,
    source: Seq<char>,
    output: Seq<char>,
    camera: Option<&CameraInfo>,
    env: EncoderEnv,
) -> Seq<Seq<char>> {
    seq!["ffmpeg"@, "-y"@] + ffmpeg_input(p, source, camera) + ffmpeg_encode(p, env)
        + output_stage(output, p.rtp_fanout)
}

/// `ffmpeg` command for USB and network cameras.
pub fn build_ffmpeg_command(
    params: &EncoderParams,
    source: &str,
    output: &str,
    camera: Option<&CameraInfo>,
    env: &EncoderEnv,
) -> (r: Vec<String>)
    ensures
        text::views(r@) == ffmpeg_command(*params, source@, output@, camera, *env),
{
    let mut cmd: Vec<String> = Vec::new();
    assert(text::views(cmd@) =~= Seq::<Seq<char>>::empty());
    add_arg(&mut cmd, "ffmpeg");
    add_arg(&mut cmd, "-y");
    let input = build_ffmpeg_input(params, source, camera);
    add_args(&mut cmd, &input);
    let encode = build_ffmpeg_encode(params, env);
    add_args(&mut cmd, &encode);
    let stage = ffmpeg_output_stage(output, params.rtp_fanout);
    add_args(&mut cmd, &stage);
    cmd
}

// ---------------------------------------------------------------------------
// GStreamer
// ---------------------------------------------------------------------------

/// The capture caps of a pipeline.
pub open spec fn gst_caps(p: EncoderParams, jpeg: bool) -> Seq<char> {
    (if jpeg {
        "image/jpeg,width="@
    } else {
        "video/x-raw,width="@
    }) + text::decimal(p.width as nat) + ",height="@ + text::decimal(p.height as nat) + ",framerate="@
        + text::decimal(p.fps as nat) + "/1"@
}

fn build_gst_caps(p: &EncoderParams, jpeg: bool) -> (r: String)
    ensures
        r@ == gst_caps(*p, jpeg),
{
    let mut out = if jpeg {
        String::from_str("image/jpeg,width=")
    } else {
        String::from_str("video/x-raw,width=")
    };
    out.append(decimal_of(p.width as u64).as_str());
    out.append(",height=");
    out.append(decimal_of(p.height as u64).as_str());
    out.append(",framerate=");
    out.append(decimal_of(p.fps as u64).as_str());
    out.append("/1");
    out
}

/// The software encoder element.
pub open spec fn gst_x264(p: EncoderParams) -> Seq<char> {
    "x264enc bitrate="@ + text::decimal(p.bitrate_kbps as nat)
        + " speed-preset=ultrafast tune=zerolatency threads=2 sliced-threads=false key-int-max="@
        + text::decimal(encoder::gop(p))
}

/// The vendor hardware encoder element, at a constant bitrate.
pub open spec fn gst_omx(p: EncoderParams) -> Seq<char> {
    "omxh264videoenc control-rate=constant target-bitrate="@ + bits_per_second(p)
        + " interval-intraframes="@ + text::decimal(encoder::gop(p))
}

/// The Rockchip hardware encoder element. The ceiling equals the configured
/// bitrate, so a scene change cannot exceed what the link carries.
pub open spec fn gst_mpp(p: EncoderParams) -> Seq<char> {
    "mpph264enc bps="@ + bits_per_second(p) + " bps-max="@ + bits_per_second(p) + " bps-min="@
        + text::decimal((p.bitrate_kbps / 2 * 1000) as nat) + " qp-min=18 qp-max=51 rc-mode=vbr gop="@
        + text::decimal(encoder::gop(p)) + " header-mode=1"@
}

/// The encoder element: software when asked for, else the vendor element,
/// else the Rockchip element, else software.
pub open spec fn gst_encoder(p: EncoderParams, env: EncoderEnv) -> Seq<char> {
    if p.encoder@ == "software"@ {
        gst_x264(p)
    } else if encoder::uses_omx(p, env) {
        gst_omx(p)
    } else if env.has_mpph264enc {
        gst_mpp(p)
    } else {
        gst_x264(p)
    }
}

fn build_gst_encoder(p: &EncoderParams, env: &EncoderEnv) -> (r: String)
    ensures
        r@ == gst_encoder(*p, *env),
{
    let software = text::same(p.encoder.as_str(), "software");
    let gop_text = decimal_of(gop_interval(p) as u64);
    if !software && use_omx_encoder(p, env) {
        let mut out = String::from_str("omxh264videoenc control-rate=constant target-bitrate=");
        out.append(bits_of(p).as_str());
        out.append(" interval-intraframes=");
        out.append(gop_text.as_str());
        out
    } else if !software && env.has_mpph264enc {
        let bps = bits_of(p);
        let mut out = String::from_str("mpph264enc bps=");
        out.append(bps.as_str());
        out.append(" bps-max=");
        out.append(bps.as_str());
        out.append(" bps-min=");
        out.append(decimal_of((p.bitrate_kbps / 2) as u64 * 1000).as_str());
        out.append(" qp-min=18 qp-max=51 rc-mode=vbr gop=");
        out.append(gop_text.as_str());
        out.append(" header-mode=1");
        out
    } else {
        let mut out = String::from_str("x264enc bitrate=");
        out.append(decimal_of(p.bitrate_kbps as u64).as_str());
        out.append(
            " speed-preset=ultrafast tune=zerolatency threads=2 sliced-threads=false key-int-max=",
        );
        out.append(gop_text.as_str());
        out
    }
}

/// The pipeline from capture to encoder. The vendor element is fed in its own
/// format through a queue that drops rather than backs up.
pub open spec fn gst_core(
    p: EncoderParams,
    source: Seq<char>,
    camera: Option<&CameraInfo>,
    env: EncoderEnv,
) -> Seq<char> {
    let jpeg = encoder::input_format(camera) == Some("mjpeg"@);
    let decode = if jpeg {
        "jpegdec ! videoconvert"@
    } else {
        "videoconvert"@
    };
    let capture = "v4l2src device="@ + shell::gst_quoted(source) + (if encoder::uses_omx(p, env) {
        " io-mode=mmap ! "@
    } else {
        " ! "@
    }) + gst_caps(p, jpeg) + " ! "@ + decode + " ! "@ + encoder::flip_chain(p.rotation, p.hflip, p.vflip);
    if encoder::uses_omx(p, env) {
        capture + "video/x-raw,format=NV12,width="@ + text::decimal(p.width as nat) + ",height="@
            + text::decimal(p.height as nat) + " ! queue max-size-buffers=4 leaky=downstream ! "@
            + gst_encoder(p, env)
    } else {
        capture + gst_encoder(p, env)
    }
}

fn build_gst_core(
    p: &EncoderParams,
    source: &str,
    camera: Option<&CameraInfo>,
    env: &EncoderEnv,
) -> (r: String)
    ensures
        r@ == gst_core(*p, source@, camera, *env),
{
    let jpeg = match select_input_format(camera) {
        Some(f) => text::same(f, "mjpeg"),
        None => false,
    };
    let omx = use_omx_encoder(p, env);
    let mut out = String::from_str("v4l2src device=");
    out.append(shell::gst_quote(source).as_str());
    if omx {
        out.append(" io-mode=mmap ! ");
    } else {
        out.append(" ! ");
    }
    out.append(build_gst_caps(p, jpeg).as_str());
    out.append(" ! ");
    if jpeg {
        out.append("jpegdec ! videoconvert");
    } else {
        out.append("videoconvert");
    }
    out.append(" ! ");
    out.append(gst_videoflip_chain(p.rotation, p.hflip, p.vflip).as_str());
    if omx {
        out.append("video/x-raw,format=NV12,width=");
        out.append(decimal_of(p.width as u64).as_str());
        out.append(",height=");
        out.append(decimal_of(p.height as u64).as_str());
        out.append(" ! queue max-size-buffers=4 leaky=downstream ! ");
    }
    out.append(build_gst_encoder(p, env).as_str());
    out
}

/// The parser that repeats the parameter sets before every keyframe.
pub open spec fn gst_parse() -> Seq<char> {
    " ! h264parse config-interval=1"@
}

/// A `gst-launch-1.0` command that runs `pipeline`.
pub open spec fn gst_launch(pipeline: Seq<char>) -> Seq<Seq<char>> {
    seq!["gst-launch-1.0"@, "-e"@] + text::pieces_on(pipeline, ' ')
}

fn build_gst_launch(pipeline: &str) -> (out: Vec<String>)
    ensures
        text::views(out@) == gst_launch(pipeline@),
{
    let mut out: Vec<String> = Vec::new();
    assert(text::views(out@) =~= Seq::<Seq<char>>::empty());
    add_arg(&mut out, "gst-launch-1.0");
    add_arg(&mut out, "-e");
    let tokens = text::split_on(pipeline, ' ');
    add_args(&mut out, &tokens);
    out
}

/// The GStreamer command: recorded into the media server directly where the
/// sink element is installed, through an `ffmpeg` publish where it is not,
/// and into a file for any other output.
pub open spec fn gstreamer_command(
    p: EncoderParams,
    source: Seq<char>,
    output: Seq<char>,
    camera: Option<&CameraInfo>,
    env: EncoderEnv,
) -> Seq<Seq<char>> {
    let encoded = gst_core(p, source, camera, env) + gst_parse();
    let target = shell::gst_quoted(output);
    if !"rtsp://"@.is_prefix_of(output) {
        gst_launch(encoded + " ! filesink location="@ + target)
    } else if env.has_rtspclientsink {
        gst_launch(
            encoded + " ! rtspclientsink location="@ + target + " protocols=tcp latency=0"@,
        )
    } else {
        seq![
            "bash"@,
            "-c"@,
            "gst-launch-1.0 -q "@ + encoded
                + " ! 'video/x-h264,stream-format=byte-stream' ! fdsink fd=1 2>/dev/null | ffmpeg -y -fflags nobuffer -f h264 -i pipe:0 -c:v copy -max_delay 0 -muxdelay 0 -muxpreload 0 -flush_packets 1 -rtsp_transport tcp -f rtsp "@
                + target,
        ]
    }
}

/// GStreamer pipeline command.
pub fn build_gstreamer_command(
    params: &EncoderParams,
    source: &str,
    output: &str,
    camera: Option<&CameraInfo>,
    env: &EncoderEnv,
) -> (r: Vec<String>)
    ensures
        text::views(r@) == gstreamer_command(*params, source@, output@, camera, *env),
{
    let mut encoded = build_gst_core(params, source, camera, env);
    encoded.append(" ! h264parse config-interval=1");
    let target = shell::gst_quote(output);
    if !text::starts_with(output, "rtsp://") {
        encoded.append(" ! filesink location=");
        encoded.append(target.as_str());
        build_gst_launch(encoded.as_str())
    } else if env.has_rtspclientsink {
        encoded.append(" ! rtspclientsink location=");
        encoded.append(target.as_str());
        encoded.append(" protocols=tcp latency=0");
        build_gst_launch(encoded.as_str())
    } else {
        let mut line = String::from_str("gst-launch-1.0 -q ");
        line.append(encoded.as_str());
        line.append(
            " ! 'video/x-h264,stream-format=byte-stream' ! fdsink fd=1 2>/dev/null | ffmpeg -y -fflags nobuffer -f h264 -i pipe:0 -c:v copy -max_delay 0 -muxdelay 0 -muxpreload 0 -flush_packets 1 -rtsp_transport tcp -f rtsp ",
        );
        line.append(target.as_str());
        bash_command(line.as_str())
    }
}

// ---------------------------------------------------------------------------
// entry point
// ---------------------------------------------------------------------------

/// The command for a camera configuration whose inputs are all admitted.
pub open spec fn encoder_command(
    p: EncoderParams,
    source: Seq<char>,
    output: Seq<char>,
    camera: Option<&CameraInfo>,
    env: EncoderEnv,
) -> Seq<Seq<char>> {
    match encoder::effective_kind(p.kind, p, env) {
        EncoderKind::RpicamVid => rpicam_command(p, source, output, env),
        EncoderKind::Ffmpeg => ffmpeg_command(p, source, output, camera, env),
        EncoderKind::Gstreamer => gstreamer_command(p, source, output, camera, env),
    }
}

/// There is always a program to run.
pub proof fn lemma_command_is_not_empty(
    p: EncoderParams,
    source: Seq<char>,
    output: Seq<char>,
    camera: Option<&CameraInfo>,
    env: EncoderEnv,
)
    ensures
        encoder_command(p, source, output, camera, env).len() > 0,
{
}

/// Build the command for the given encoder configuration.
///
/// The source is checked first, then the output, then the codec; the first
/// check that fails is the error. A codec that no arm tunes is refused before
/// anything could be spawned.
pub fn build_encoder_command(
    params: &EncoderParams,
    source: &str,
    output: &str,
    camera: Option<&CameraInfo>,
    env: &EncoderEnv,
) -> (r: Result<Vec<String>, EncoderError>)
    ensures
        match r {
            Ok(cmd) => {
                &&& encoder::valid_source(source@)
                &&& encoder::valid_source(output@)
                &&& params.codec@ == "h264"@
                &&& text::views(cmd@) == encoder_command(*params, source@, output@, camera, *env)
            },
            Err(EncoderError::InvalidSource(s)) => {
                ||| !encoder::valid_source(source@) && s@ == source@
                ||| encoder::valid_source(source@) && !encoder::valid_source(output@) && s@ == output@
            },
            Err(EncoderError::UnsupportedCodec(c)) => {
                &&& encoder::valid_source(source@)
                &&& encoder::valid_source(output@)
                &&& params.codec@ != "h264"@
                &&& c@ == params.codec@
            },
        },
{
    let source = match validate_source(source) {
        Ok(s) => s,
        Err(e) => {
            return Err(e);
        },
    };
    let output = match validate_source(output) {
        Ok(s) => s,
        Err(e) => {
            return Err(e);
        },
    };
    match validate_codec(params.codec.as_str()) {
        Ok(_) => {},
        Err(e) => {
            return Err(e);
        },
    }
    let kind = resolve_kind(params.kind, params, env);
    let cmd = match kind {
        EncoderKind::RpicamVid => build_rpicam_command(params, source, output, env),
        EncoderKind::Ffmpeg => build_ffmpeg_command(params, source, output, camera, env),
        EncoderKind::Gstreamer => build_gstreamer_command(params, source, output, camera, env),
    };
    Ok(cmd)
}

} // verus!
