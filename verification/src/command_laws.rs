//! What holds of the composed encoder commands as a whole.
use crate::command;
use crate::encoder;
use crate::encoder::{CameraInfo, EncoderEnv, EncoderParams};
use crate::shell;
use crate::splice;
use crate::text;
use crate::wfb_tee;
use vstd::prelude::*;

verus! {

/// `args` holds `flag` with `value` right behind it.
pub open spec fn sets(args: Seq<Seq<char>>, flag: Seq<char>, value: Seq<char>) -> bool {
    exists|i: int| 0 <= i < args.len() - 1 && #[trigger] args[i] == flag && args[i + 1] == value
}

/// A flag that the tail of a command sets is set by the command.
proof fn lemma_sets_in_tail(head: Seq<Seq<char>>, tail: Seq<Seq<char>>, flag: Seq<char>, value: Seq<
    char,
>)
    requires
        sets(tail, flag, value),
    ensures
        sets(head + tail, flag, value),
{
    let i = choose|i: int|
        0 <= i < tail.len() - 1 && #[trigger] tail[i] == flag && tail[i + 1] == value;
    assert((head + tail)[head.len() + i] == flag);
    assert((head + tail)[head.len() + i + 1] == value);
}

/// A flag that the head of a command sets is set by the command.
proof fn lemma_sets_in_head(head: Seq<Seq<char>>, tail: Seq<Seq<char>>, flag: Seq<char>, value: Seq<
    char,
>)
    requires
        sets(head, flag, value),
    ensures
        sets(head + tail, flag, value),
{
    let i = choose|i: int|
        0 <= i < head.len() - 1 && #[trigger] head[i] == flag && head[i + 1] == value;
    assert((head + tail)[i] == flag);
    assert((head + tail)[i + 1] == value);
}

/// Every `ffmpeg` command that publishes to a live destination strips the
/// muxer's delay and preload, with or without the radio fan-out.
pub proof fn law_live_output_strips_the_muxer_delay(
    p: EncoderParams,
    source: Seq<char>,
    output: Seq<char>,
    camera: Option<&CameraInfo>,
    env: EncoderEnv,
)
    requires
        splice::publishable(output),
    ensures
        sets(command::ffmpeg_command(p, source, output, camera, env), "-muxdelay"@, "0"@),
        sets(command::ffmpeg_command(p, source, output, camera, env), "-muxpreload"@, "0"@),
{
    let head = seq!["ffmpeg"@, "-y"@] + command::ffmpeg_input(p, source, camera)
        + command::ffmpeg_encode(p, env);
    let stage = command::output_stage(output, p.rtp_fanout);
    if "rtsp://"@.is_prefix_of(output) {
        assert(stage[2] == "-muxdelay"@ && stage[3] == "0"@);
        assert(stage[4] == "-muxpreload"@ && stage[5] == "0"@);
    } else {
        assert(stage[0] == "-muxdelay"@ && stage[1] == "0"@);
        assert(stage[2] == "-muxpreload"@ && stage[3] == "0"@);
    }
    lemma_sets_in_tail(head, stage, "-muxdelay"@, "0"@);
    lemma_sets_in_tail(head, stage, "-muxpreload"@, "0"@);
}

/// Every `ffmpeg` command repeats the parameter sets before each keyframe and
/// bounds the keyframe interval, on the software and the hardware encoder.
pub proof fn law_ffmpeg_bounds_and_repeats(
    p: EncoderParams,
    source: Seq<char>,
    output: Seq<char>,
    camera: Option<&CameraInfo>,
    env: EncoderEnv,
)
    ensures
        sets(
            command::ffmpeg_command(p, source, output, camera, env),
            "-g"@,
            text::decimal(encoder::gop(p)),
        ),
        sets(
            command::ffmpeg_command(p, source, output, camera, env),
            "-bsf:v"@,
            if command::uses_v4l2m2m(p, env) {
                "dump_extra=freq=keyframe"@
            } else {
                "h264_mp4toannexb,dump_extra=freq=keyframe"@
            },
        ),
{
    let tuning = if command::uses_v4l2m2m(p, env) {
        command::v4l2m2m_tuning(p)
    } else {
        command::x264_tuning(p, env)
    };
    let gop = text::decimal(encoder::gop(p));
    let filter = if command::uses_v4l2m2m(p, env) {
        "dump_extra=freq=keyframe"@
    } else {
        "h264_mp4toannexb,dump_extra=freq=keyframe"@
    };
    if command::uses_v4l2m2m(p, env) {
        assert(tuning[2] == "-g"@ && tuning[3] == gop);
        assert(tuning[12] == "-bsf:v"@ && tuning[13] == filter);
    } else {
        assert(tuning[10] == "-g"@ && tuning[11] == gop);
        assert(tuning[22] == "-bsf:v"@ && tuning[23] == filter);
    }
    let encode = command::ffmpeg_encode(p, env);
    let lead = encode.take(encode.len() - tuning.len());
    assert(encode =~= lead + tuning);
    let input = seq!["ffmpeg"@, "-y"@] + command::ffmpeg_input(p, source, camera);
    let stage = command::output_stage(output, p.rtp_fanout);
    lemma_sets_in_tail(lead, tuning, "-g"@, gop);
    lemma_sets_in_tail(lead, tuning, "-bsf:v"@, filter);
    lemma_sets_in_tail(input, encode, "-g"@, gop);
    lemma_sets_in_tail(input, encode, "-bsf:v"@, filter);
    lemma_sets_in_head(input + encode, stage, "-g"@, gop);
    lemma_sets_in_head(input + encode, stage, "-bsf:v"@, filter);
}

/// A `rpicam-vid` command passes the contracted keyframe interval, asks for
/// the parameter sets in-band, and puts the low-latency switch behind its
/// fixed part exactly on boards without a hardware encoder.
pub proof fn law_rpicam_bounds_and_repeats(p: EncoderParams, source: Seq<char>, env: EncoderEnv)
    ensures
        sets(
            command::rpicam_argv(p, source, env),
            "--intra"@,
            text::decimal(encoder::gop(p)),
        ),
        command::rpicam_argv(p, source, env).contains("--inline"@),
        ({
            let argv = command::rpicam_argv(p, source, env);
            let n = command::rpicam_base(p).len() as int;
            env.pi5_class == (argv.len() > n && argv[n] == "--low-latency"@)
        }),
{
    let argv = command::rpicam_argv(p, source, env);
    let base = command::rpicam_base(p);
    assert(base.len() == 21);
    assert(argv[19] == base[19] && argv[20] == base[20] && argv[14] == base[14]);
    assert(argv[19] == "--intra"@ && argv[20] == text::decimal(encoder::gop(p)));
    assert(argv[14] == "--inline"@);
    reveal_strlit("--camera");
    reveal_strlit("--low-latency");
    assert("--camera"@.len() == 8);
    assert("--low-latency"@.len() == 13);
}

// ---------------------------------------------------------------------------
// the radio branch
// ---------------------------------------------------------------------------

/// A part of `s` is a part of everything that `s` is a part of.
proof fn lemma_holds_inside(s: Seq<char>, before: Seq<char>, after: Seq<char>, p: Seq<char>)
    requires
        text::holds(s, p),
    ensures
        text::holds(before + s + after, p),
{
    let i = choose|i: int| text::occurs_at(s, p, i);
    let whole = before + s + after;
    let at = before.len() + i;
    assert(whole.subrange(at, at + p.len()) =~= s.subrange(i, i + p.len()));
    assert(text::occurs_at(whole, p, at));
}

proof fn lemma_holds_itself(p: Seq<char>)
    ensures
        text::holds(p, p),
{
    assert(p.subrange(0, p.len() as int) =~= p);
    assert(text::occurs_at(p, p, 0));
}

/// Replacing a character that does not occur changes nothing.
proof fn lemma_replaced_absent(s: Seq<char>, c: char, with: Seq<char>)
    requires
        !s.contains(c),
    ensures
        text::replaced(s, c, with) == s,
    decreases s.len(),
{
    if s.len() > 0 {
        assert forall|i: int| 0 <= i < s.drop_last().len() implies s.drop_last()[i] != c by {
            assert(s.contains(s[i]));
        }
        assert(s.contains(s.last()));
        lemma_replaced_absent(s.drop_last(), c, with);
        assert(s.drop_last().push(s.last()) =~= s);
    }
}

/// The last quoted argument of a shell line is a part of the line.
proof fn lemma_line_holds_last(args: Seq<Seq<char>>)
    requires
        args.len() > 0,
    ensures
        text::holds(shell::shell_line(args), shell::shell_quoted(args.last())),
{
    let quoted = shell::all_quoted(args);
    let last = shell::shell_quoted(args.last());
    assert(quoted.last() == last);
    lemma_holds_itself(last);
    if args.len() == 1 {
        assert(quoted[0] == last);
    } else {
        let front = text::joined(quoted.drop_last(), " "@) + " "@;
        lemma_holds_inside(last, front, Seq::empty(), last);
        assert(front + last + Seq::<char>::empty() =~= front + last);
    }
}

/// The tee specification names both destinations.
proof fn lemma_tee_names_both(output: Seq<char>)
    ensures
        "[f="@.is_prefix_of(command::tee_branches(output)),
        text::holds(command::tee_branches(output), output),
        text::holds(command::tee_branches(output), wfb_tee::rtp_url()),
        command::tee_branches(output).len() > output.len(),
{
    let first = "[f=rtsp:rtsp_transport=tcp:max_delay=0:flush_packets=1]"@;
    let url = wfb_tee::rtp_url();
    let middle = "|[f=rtp:payload_type="@ + text::decimal(
        wfb_tee::WFB_TEE_PAYLOAD_TYPE as nat,
    ) + ":ssrc="@ + text::decimal(wfb_tee::WFB_TEE_SSRC as nat)
        + ":max_delay=0:flush_packets=1]"@;
    let all = command::tee_branches(output);
    assert(all =~= first + output + (middle + url));
    assert(all =~= (first + output + middle) + url + Seq::<char>::empty());
    lemma_holds_itself(output);
    lemma_holds_itself(url);
    lemma_holds_inside(output, first, middle + url, output);
    lemma_holds_inside(url, first + output + middle, Seq::empty(), url);
    reveal_strlit("[f=rtsp:rtsp_transport=tcp:max_delay=0:flush_packets=1]");
    reveal_strlit("[f=");
    assert("[f="@ =~= all.subrange(0, "[f="@.len() as int));
}

/// The last argument of an `ffmpeg` command with the radio fan-out is the tee
/// specification.
proof fn lemma_fanout_command_ends_in_tee(
    p: EncoderParams,
    source: Seq<char>,
    output: Seq<char>,
    camera: Option<&CameraInfo>,
    env: EncoderEnv,
)
    requires
        p.rtp_fanout,
        "rtsp://"@.is_prefix_of(output),
    ensures
        command::ffmpeg_command(p, source, output, camera, env).len() > 2,
        command::ffmpeg_command(p, source, output, camera, env)[0] == "ffmpeg"@,
        command::ffmpeg_command(p, source, output, camera, env).last() == command::tee_branches(
            output,
        ),
        splice::ends_in_fanout(command::ffmpeg_command(p, source, output, camera, env), output),
{
    lemma_tee_names_both(output);
    let stage = command::output_stage(output, true);
    assert(stage.len() == 11);
    assert(stage[10] == command::tee_branches(output));
    let cmd = command::ffmpeg_command(p, source, output, camera, env);
    assert(cmd.last() == stage[10]);
}

/// One encode, two destinations: an `ffmpeg` command with the radio fan-out
/// emits the radio's RTP copy itself.
pub proof fn law_fanout_emits_the_radio_copy(
    p: EncoderParams,
    source: Seq<char>,
    output: Seq<char>,
    camera: Option<&CameraInfo>,
    env: EncoderEnv,
)
    requires
        p.rtp_fanout,
        "rtsp://"@.is_prefix_of(output),
    ensures
        wfb_tee::emits_wfb_rtp(command::ffmpeg_command(p, source, output, camera, env)),
{
    lemma_fanout_command_ends_in_tee(p, source, output, camera, env);
    lemma_tee_names_both(output);
    let cmd = command::ffmpeg_command(p, source, output, camera, env);
    assert(text::holds(cmd[cmd.len() - 1], wfb_tee::rtp_url()));
}

/// The vision tap never rewrites a command that carries the radio fan-out.
pub proof fn law_tap_leaves_the_fanout_alone(
    p: EncoderParams,
    source: Seq<char>,
    output: Seq<char>,
    camera: Option<&CameraInfo>,
    env: EncoderEnv,
    fps: u32,
    width: u32,
    height: u32,
    pixel_format: Seq<char>,
    sink: Seq<char>,
)
    requires
        p.rtp_fanout,
        "rtsp://"@.is_prefix_of(output),
    ensures
        splice::tapped(
            command::ffmpeg_command(p, source, output, camera, env),
            output,
            fps,
            width,
            height,
            pixel_format,
            sink,
        ) == command::ffmpeg_command(p, source, output, camera, env),
{
    lemma_fanout_command_ends_in_tee(p, source, output, camera, env);
    lemma_tee_names_both(output);
}

/// Turning the wall-clock marker on keeps the radio leg: the rebuilt publish
/// stage carries the same two branches, and the spliced command still emits
/// the radio's RTP copy.
pub proof fn law_splice_keeps_the_radio_branch(
    p: EncoderParams,
    source: Seq<char>,
    output: Seq<char>,
    camera: Option<&CameraInfo>,
    env: EncoderEnv,
)
    requires
        p.rtp_fanout,
        "rtsp://"@.is_prefix_of(output),
        encoder::valid_source(output),
    ensures
        ({
            let cmd = command::ffmpeg_command(p, source, output, camera, env);
            let out = splice::spliced(cmd, output, env.python_executable@);
            &&& out == seq![
                "bash"@,
                "-c"@,
                shell::shell_line(splice::encode_half(cmd, output)) + " | "@ + splice::injector(
                    env.python_executable@,
                ) + " | "@ + shell::shell_line(splice::publish_half(output, true)),
            ]
            &&& splice::publish_half(output, true).last() == command::tee_branches(output)
            &&& wfb_tee::emits_wfb_rtp(out)
        }),
{
    let cmd = command::ffmpeg_command(p, source, output, camera, env);
    lemma_fanout_command_ends_in_tee(p, source, output, camera, env);
    lemma_ffmpeg_is_not_bash();
    lemma_publish_line_names_the_radio(output);
    let encode = shell::shell_line(splice::encode_half(cmd, output));
    lemma_pipeline_emits_the_radio_copy(encode, env.python_executable@, output);
}

/// A pipeline whose last stage is the rebuilt publish emits the radio's copy.
proof fn lemma_pipeline_emits_the_radio_copy(
    encode: Seq<char>,
    python: Seq<char>,
    output: Seq<char>,
)
    requires
        "rtsp://"@.is_prefix_of(output),
        encoder::valid_source(output),
    ensures
        wfb_tee::emits_wfb_rtp(
            seq![
                "bash"@,
                "-c"@,
                encode + " | "@ + splice::injector(python) + " | "@ + shell::shell_line(
                    splice::publish_half(output, true),
                ),
            ],
        ),
{
    lemma_publish_line_names_the_radio(output);
    let line = shell::shell_line(splice::publish_half(output, true));
    let front = encode + " | "@ + splice::injector(python) + " | "@;
    lemma_holds_inside(line, front, Seq::empty(), wfb_tee::rtp_url());
    assert(front + line + Seq::<char>::empty() =~= front + line);
    let out = seq!["bash"@, "-c"@, front + line];
    assert(text::holds(out[2], wfb_tee::rtp_url()));
}

proof fn lemma_ffmpeg_is_not_bash()
    ensures
        "ffmpeg"@ != "bash"@,
{
    reveal_strlit("bash");
    reveal_strlit("ffmpeg");
    assert("bash"@.len() == 4);
    assert("ffmpeg"@.len() == 6);
}

/// The rebuilt publish stage ends in the tee specification, so that its shell
/// line names the radio destination.
#[verifier::spinoff_prover]
#[verifier::rlimit(50)]
proof fn lemma_publish_line_names_the_radio(output: Seq<char>)
    requires
        "rtsp://"@.is_prefix_of(output),
        encoder::valid_source(output),
    ensures
        splice::publish_half(output, true).last() == command::tee_branches(output),
        text::holds(shell::shell_line(splice::publish_half(output, true)), wfb_tee::rtp_url()),
{
    let publish = splice::publish_half(output, true);
    let tee = command::tee_branches(output);
    let stage = command::output_stage(output, true);
    assert(stage.len() == 11 && stage[10] == tee);
    assert(publish.last() == tee);
    lemma_line_holds_last(publish);
    lemma_quoted_tee_holds_url(output);
    let line = shell::shell_line(publish);
    let q = shell::shell_quoted(tee);
    let i = choose|i: int| text::occurs_at(line, q, i);
    let before = line.take(i);
    let after = line.skip(i + q.len());
    assert(line =~= before + q + after);
    lemma_holds_inside(q, before, after, wfb_tee::rtp_url());
}

/// Quoting the tee specification for a shell keeps the radio destination
/// readable in it.
proof fn lemma_quoted_tee_holds_url(output: Seq<char>)
    requires
        encoder::valid_source(output),
    ensures
        text::holds(shell::shell_quoted(command::tee_branches(output)), wfb_tee::rtp_url()),
{
    let tee = command::tee_branches(output);
    lemma_tee_names_both(output);
    lemma_tee_has_no_quote(output);
    lemma_replaced_absent(tee, '\'', "'\\''"@);
    if shell::needs_quotes(tee) {
        lemma_holds_inside(tee, "'"@, "'"@, wfb_tee::rtp_url());
    }
}

proof fn lemma_decimal_has_no_quote(n: nat)
    ensures
        !text::decimal(n).contains('\''),
    decreases n,
{
    if n >= 10 {
        lemma_decimal_has_no_quote(n / 10);
        assert forall|i: int| 0 <= i < text::decimal(n).len() implies text::decimal(n)[i]
            != '\'' by {
            if i < text::decimal(n / 10).len() {
                assert(text::decimal(n / 10).contains(text::decimal(n / 10)[i]));
            }
        }
    }
}

proof fn lemma_tee_has_no_quote(output: Seq<char>)
    requires
        encoder::valid_source(output),
    ensures
        !command::tee_branches(output).contains('\''),
{
    let a = "[f=rtsp:rtsp_transport=tcp:max_delay=0:flush_packets=1]"@;
    let b = "|[f=rtp:payload_type="@;
    let n = text::decimal(wfb_tee::WFB_TEE_PAYLOAD_TYPE as nat);
    let c = ":ssrc="@;
    let m = text::decimal(wfb_tee::WFB_TEE_SSRC as nat);
    let d = ":max_delay=0:flush_packets=1]"@;
    let e = "rtp://127.0.0.1:5600?pkt_size=1316"@;
    lemma_decimal_has_no_quote(wfb_tee::WFB_TEE_PAYLOAD_TYPE as nat);
    lemma_decimal_has_no_quote(wfb_tee::WFB_TEE_SSRC as nat);
    reveal_strlit("[f=rtsp:rtsp_transport=tcp:max_delay=0:flush_packets=1]");
    reveal_strlit("|[f=rtp:payload_type=");
    reveal_strlit(":ssrc=");
    reveal_strlit(":max_delay=0:flush_packets=1]");
    reveal_strlit("rtp://127.0.0.1:5600?pkt_size=1316");
    reveal_strlit("-");
    assert(!output.contains('\'')) by {
        assert forall|i: int| 0 <= i < output.len() implies output[i] != '\'' by {
            if output != "-"@ {
                assert(encoder::source_char(output[i]));
            }
        }
    }
    lemma_no_quote_concat(a, output);
    lemma_no_quote_concat(a + output, b);
    lemma_no_quote_concat(a + output + b, n);
    lemma_no_quote_concat(a + output + b + n, c);
    lemma_no_quote_concat(a + output + b + n + c, m);
    lemma_no_quote_concat(a + output + b + n + c + m, d);
    lemma_no_quote_concat(a + output + b + n + c + m + d, e);
}

proof fn lemma_no_quote_concat(a: Seq<char>, b: Seq<char>)
    requires
        !a.contains('\''),
        !b.contains('\''),
    ensures
        !(a + b).contains('\''),
{
    assert forall|i: int| 0 <= i < (a + b).len() implies (a + b)[i] != '\'' by {
        if i < a.len() {
            assert(a.contains(a[i]));
        } else {
            assert(b.contains(b[i - a.len()]));
        }
    }
}

/// The wall-clock marker leaves a GStreamer command alone.
pub proof fn law_splice_leaves_gst_launch_alone(
    pipeline: Seq<char>,
    uri: Seq<char>,
    python: Seq<char>,
)
    ensures
        splice::spliced(command::gst_launch(pipeline), uri, python) == command::gst_launch(
            pipeline,
        ),
{
    reveal_strlit("bash");
    reveal_strlit("ffmpeg");
    reveal_strlit("gst-launch-1.0");
    assert("bash"@.len() == 4);
    assert("ffmpeg"@.len() == 6);
    assert("gst-launch-1.0"@.len() == 14);
    assert(command::gst_launch(pipeline)[0] == "gst-launch-1.0"@);
}

/// The vision tap leaves every command alone that does not run `ffmpeg`
/// itself.
pub proof fn law_tap_leaves_pipelines_alone(
    cmd: Seq<Seq<char>>,
    existing_output: Seq<char>,
    fps: u32,
    width: u32,
    height: u32,
    pixel_format: Seq<char>,
    sink: Seq<char>,
)
    requires
        cmd.len() == 0 || cmd[0] != "ffmpeg"@,
    ensures
        splice::tapped(cmd, existing_output, fps, width, height, pixel_format, sink) == cmd,
{
}

/// Taking a flag away removes exactly the flag and its value: the rest keeps
/// its order, and a command without the flag stays as it is.
pub proof fn law_without_flag_removes_one_pair(args: Seq<Seq<char>>, flag: Seq<char>, from: int)
    requires
        0 <= from,
    ensures
        match splice::flag_value(args, flag, from) {
            Some(value) => {
                let i = splice::flag_index(args, flag, from);
                &&& from <= i < args.len() - 1
                &&& args[i] == flag
                &&& args[i + 1] == value
                &&& splice::without_flag(args, flag, from).len() == args.len() - 2
                &&& args == splice::without_flag(args, flag, from).take(i) + seq![flag, value]
                    + splice::without_flag(args, flag, from).skip(i)
            },
            None => splice::without_flag(args, flag, from) == args,
        },
{
    splice::lemma_last_flag_range(args, flag, from, args.len() - 1);
    let i = splice::flag_index(args, flag, from);
    if i >= 0 {
        let rest = splice::without_flag(args, flag, from);
        assert(args =~= rest.take(i) + seq![flag, args[i + 1]] + rest.skip(i));
    }
}

// ---------------------------------------------------------------------------
// what the commands carry
// ---------------------------------------------------------------------------

/// A flag that a part of a command sets is set by the command.
proof fn lemma_sets_between(
    head: Seq<Seq<char>>,
    part: Seq<Seq<char>>,
    rest: Seq<Seq<char>>,
    flag: Seq<char>,
    value: Seq<char>,
)
    requires
        sets(part, flag, value),
    ensures
        sets(head + part + rest, flag, value),
{
    lemma_sets_in_tail(head, part, flag, value);
    lemma_sets_in_head(head + part, rest, flag, value);
}

/// `args` sets `flag` at index `i`.
proof fn lemma_sets_at(args: Seq<Seq<char>>, i: int, flag: Seq<char>, value: Seq<char>)
    requires
        0 <= i < args.len() - 1,
        args[i] == flag,
        args[i + 1] == value,
    ensures
        sets(args, flag, value),
{
}

/// An `ffmpeg` command reads its source, and writes to its output at its end;
/// with the radio fan-out of an RTSP output, to the tee in its place.
pub proof fn law_ffmpeg_runs_from_source_to_output(
    p: EncoderParams,
    source: Seq<char>,
    output: Seq<char>,
    camera: Option<&CameraInfo>,
    env: EncoderEnv,
)
    ensures
        ({
            let cmd = command::ffmpeg_command(p, source, output, camera, env);
            &&& cmd[0] == "ffmpeg"@
            &&& cmd.contains("-y"@)
            &&& sets(cmd, "-i"@, source)
            &&& !p.rtp_fanout || !"rtsp://"@.is_prefix_of(output) ==> cmd.last() == output
            &&& !p.rtp_fanout && "rtsp://"@.is_prefix_of(output) ==> sets(cmd, "-f"@, "rtsp"@)
                && sets(cmd, "-rtsp_transport"@, "tcp"@)
            &&& "udp://"@.is_prefix_of(output) && !"rtsp://"@.is_prefix_of(output) ==> sets(
                cmd,
                "-f"@,
                "mpegts"@,
            )
            &&& "tcp://"@.is_prefix_of(output) && !"rtsp://"@.is_prefix_of(output) ==> sets(
                cmd,
                "-f"@,
                "mpegts"@,
            )
        }),
{
    let lead = seq!["ffmpeg"@, "-y"@];
    let input = command::ffmpeg_input(p, source, camera);
    let encode = command::ffmpeg_encode(p, env);
    let stage = command::output_stage(output, p.rtp_fanout);
    let cmd = command::ffmpeg_command(p, source, output, camera, env);
    assert(cmd =~= lead + input + (encode + stage));
    assert(cmd =~= (lead + input + encode) + stage);
    assert(cmd[1] == "-y"@);
    lemma_sets_at(input, input.len() - 2, "-i"@, source);
    lemma_sets_between(lead, input, encode + stage, "-i"@, source);
    assert(cmd.last() == stage.last());
    if "rtsp://"@.is_prefix_of(output) && !p.rtp_fanout {
        lemma_sets_at(stage, 6, "-rtsp_transport"@, "tcp"@);
        lemma_sets_at(stage, 8, "-f"@, "rtsp"@);
        lemma_sets_in_tail(lead + input + encode, stage, "-rtsp_transport"@, "tcp"@);
        lemma_sets_in_tail(lead + input + encode, stage, "-f"@, "rtsp"@);
    }
    if !"rtsp://"@.is_prefix_of(output) && ("udp://"@.is_prefix_of(output)
        || "tcp://"@.is_prefix_of(output)) {
        lemma_sets_at(stage, 4, "-f"@, "mpegts"@);
        lemma_sets_in_tail(lead + input + encode, stage, "-f"@, "mpegts"@);
    }
}

/// An `ffmpeg` command captures from a device at the configured size and rate,
/// in the format that the camera offers; a network stream is pulled as it is,
/// RTSP over TCP, and nothing of a capture device is asked for.
pub proof fn law_ffmpeg_captures_or_pulls(
    p: EncoderParams,
    source: Seq<char>,
    output: Seq<char>,
    camera: Option<&CameraInfo>,
    env: EncoderEnv,
)
    ensures
        ({
            let cmd = command::ffmpeg_command(p, source, output, camera, env);
            let input = command::ffmpeg_input(p, source, camera);
            let network = "rtsp://"@.is_prefix_of(source) || "http://"@.is_prefix_of(source);
            &&& !network ==> sets(cmd, "-f"@, "v4l2"@) && sets(
                cmd,
                "-video_size"@,
                text::decimal(p.width as nat) + "x"@ + text::decimal(p.height as nat),
            ) && sets(cmd, "-framerate"@, text::decimal(p.fps as nat))
            &&& !network && encoder::input_format(camera) is Some ==> sets(
                cmd,
                "-input_format"@,
                encoder::input_format(camera)->0,
            )
            &&& "rtsp://"@.is_prefix_of(source) ==> sets(input, "-rtsp_transport"@, "tcp"@)
            &&& network ==> !input.contains("v4l2"@) || source == "v4l2"@
            &&& network ==> input.len() <= 8
        }),
{
    let lead = seq!["ffmpeg"@, "-y"@];
    let input = command::ffmpeg_input(p, source, camera);
    let encode = command::ffmpeg_encode(p, env);
    let stage = command::output_stage(output, p.rtp_fanout);
    let cmd = command::ffmpeg_command(p, source, output, camera, env);
    assert(cmd =~= lead + input + (encode + stage));
    let n = input.len() as int;
    if "rtsp://"@.is_prefix_of(source) || "http://"@.is_prefix_of(source) {
        if "rtsp://"@.is_prefix_of(source) {
            lemma_sets_at(input, 4, "-rtsp_transport"@, "tcp"@);
        }
        reveal_strlit("v4l2");
        reveal_strlit("-fflags");
        reveal_strlit("nobuffer");
        reveal_strlit("-flags");
        reveal_strlit("low_delay");
        reveal_strlit("-rtsp_transport");
        reveal_strlit("tcp");
        reveal_strlit("-i");
        assert("v4l2"@.len() == 4);
        assert("-fflags"@.len() == 7 && "nobuffer"@.len() == 8 && "-flags"@.len() == 6);
        assert("low_delay"@.len() == 9 && "-rtsp_transport"@.len() == 15 && "tcp"@.len() == 3);
        assert("-i"@.len() == 2);
    } else {
        lemma_sets_at(input, 10, "-f"@, "v4l2"@);
        lemma_sets_at(
            input,
            n - 6,
            "-video_size"@,
            text::decimal(p.width as nat) + "x"@ + text::decimal(p.height as nat),
        );
        lemma_sets_at(input, n - 4, "-framerate"@, text::decimal(p.fps as nat));
        lemma_sets_between(lead, input, encode + stage, "-f"@, "v4l2"@);
        lemma_sets_between(
            lead,
            input,
            encode + stage,
            "-video_size"@,
            text::decimal(p.width as nat) + "x"@ + text::decimal(p.height as nat),
        );
        lemma_sets_between(
            lead,
            input,
            encode + stage,
            "-framerate"@,
            text::decimal(p.fps as nat),
        );
        if let Some(f) = encoder::input_format(camera) {
            lemma_sets_at(input, 12, "-input_format"@, f);
            lemma_sets_between(lead, input, encode + stage, "-input_format"@, f);
        }
    }
}

/// An `ffmpeg` command encodes at the configured rate and bitrate and with the
/// configured orientation. The hardware encoder runs exactly where the camera
/// forces it, or where a device was confirmed and software was not asked for;
/// the software encoder uses four threads exactly where there are four cores.
pub proof fn law_ffmpeg_encodes_at_the_settings(
    p: EncoderParams,
    source: Seq<char>,
    output: Seq<char>,
    camera: Option<&CameraInfo>,
    env: EncoderEnv,
)
    ensures
        ({
            let cmd = command::ffmpeg_command(p, source, output, camera, env);
            let hardware = p.encoder@ == "v4l2m2m"@ || (p.encoder@ != "software"@ && env.hw_h264
                == encoder::HwEncoder::Present);
            &&& sets(cmd, "-r"@, text::decimal(p.fps as nat))
            &&& sets(cmd, "-b:v"@, text::decimal(p.bitrate_kbps as nat) + "k"@)
            &&& encoder::vf_chain(p.rotation, p.hflip, p.vflip) is Some ==> sets(
                cmd,
                "-vf"@,
                encoder::vf_chain(p.rotation, p.hflip, p.vflip)->0,
            )
            &&& hardware ==> sets(cmd, "-c:v"@, "h264_v4l2m2m"@) && sets(cmd, "-qmin"@, "20"@)
            &&& !hardware ==> sets(cmd, "-c:v"@, "libx264"@) && sets(cmd, "-tune"@, "zerolatency"@)
                && sets(
                cmd,
                "-threads"@,
                if env.cpu_threads >= 4 {
                    "4"@
                } else {
                    "2"@
                },
            )
        }),
{
    let lead = seq!["ffmpeg"@, "-y"@];
    let input = command::ffmpeg_input(p, source, camera);
    let encode = command::ffmpeg_encode(p, env);
    let stage = command::output_stage(output, p.rtp_fanout);
    let head = lead + input;
    assert(command::ffmpeg_command(p, source, output, camera, env) =~= head + encode + stage);
    reveal_strlit("software");
    reveal_strlit("v4l2m2m");
    assert("software"@.len() == 8 && "v4l2m2m"@.len() == 7);
    reveal_strlit("20");
    assert(text::decimal(20) =~= "20"@) by {
        reveal_with_fuel(text::decimal, 2);
    }
    let fps = text::decimal(p.fps as nat);
    let kbps = text::decimal(p.bitrate_kbps as nat) + "k"@;
    lemma_sets_at(encode, 0, "-r"@, fps);
    lemma_sets_between(head, encode, stage, "-r"@, fps);
    let k: int = if encoder::vf_chain(p.rotation, p.hflip, p.vflip) is Some {
        4
    } else {
        2
    };
    if let Some(chain) = encoder::vf_chain(p.rotation, p.hflip, p.vflip) {
        lemma_sets_at(encode, 2, "-vf"@, chain);
        lemma_sets_between(head, encode, stage, "-vf"@, chain);
    }
    lemma_sets_at(encode, k + 2, "-b:v"@, kbps);
    lemma_sets_between(head, encode, stage, "-b:v"@, kbps);
    if p.encoder@ == "v4l2m2m"@ || (p.encoder@ != "software"@ && env.hw_h264
        == encoder::HwEncoder::Present) {
        lemma_sets_at(encode, k, "-c:v"@, "h264_v4l2m2m"@);
        lemma_sets_between(head, encode, stage, "-c:v"@, "h264_v4l2m2m"@);
        lemma_sets_at(encode, k + 4 + 8, "-qmin"@, "20"@);
        lemma_sets_between(head, encode, stage, "-qmin"@, "20"@);
    } else {
        let threads = if env.cpu_threads >= 4 {
            "4"@
        } else {
            "2"@
        };
        lemma_sets_at(encode, k, "-c:v"@, "libx264"@);
        lemma_sets_between(head, encode, stage, "-c:v"@, "libx264"@);
        lemma_sets_at(encode, k + 4 + 8, "-tune"@, "zerolatency"@);
        lemma_sets_between(head, encode, stage, "-tune"@, "zerolatency"@);
        lemma_sets_at(encode, k + 4 + 16, "-threads"@, threads);
        lemma_sets_between(head, encode, stage, "-threads"@, threads);
    }
}

/// A `rpicam-vid` command captures at the configured size, rate and bitrate in
/// bits per second, from the camera whose number the device node carries.
pub proof fn law_rpicam_captures_at_the_settings(
    p: EncoderParams,
    source: Seq<char>,
    number: Seq<char>,
    env: EncoderEnv,
)
    ensures
        ({
            let argv = command::rpicam_argv(p, source, env);
            &&& argv[0] == "rpicam-vid"@
            &&& sets(argv, "--width"@, text::decimal(p.width as nat))
            &&& sets(argv, "--height"@, text::decimal(p.height as nat))
            &&& sets(argv, "--framerate"@, text::decimal(p.fps as nat))
            &&& sets(argv, "--bitrate"@, text::decimal((1000 * p.bitrate_kbps) as nat))
            &&& sets(argv, "--codec"@, p.codec@)
            &&& sets(argv, "--timeout"@, "0"@)
            &&& source == "/dev/video"@ + number ==> sets(argv, "--camera"@, number)
            &&& source.len() > 0 && source != "-"@ && !"/dev/video"@.is_prefix_of(source) ==> sets(
                argv,
                "--camera"@,
                source,
            )
        }),
{
    let argv = command::rpicam_argv(p, source, env);
    let base = command::rpicam_base(p);
    assert(base.len() == 21);
    assert forall|i: int| 0 <= i < 21 implies argv[i] == base[i] by {}
    lemma_sets_at(argv, 1, "--width"@, text::decimal(p.width as nat));
    lemma_sets_at(argv, 3, "--height"@, text::decimal(p.height as nat));
    lemma_sets_at(argv, 5, "--framerate"@, text::decimal(p.fps as nat));
    lemma_sets_at(argv, 7, "--bitrate"@, text::decimal((1000 * p.bitrate_kbps) as nat));
    lemma_sets_at(argv, 9, "--codec"@, p.codec@);
    lemma_sets_at(argv, 11, "--timeout"@, "0"@);
    reveal_strlit("/dev/video");
    reveal_strlit("-");
    if source == "/dev/video"@ + number {
        assert("/dev/video"@ =~= source.subrange(0, "/dev/video"@.len() as int));
        assert("/dev/video"@.is_prefix_of(source));
        assert(source.skip("/dev/video"@.len() as int) =~= number);
        assert(source.len() > 1);
        lemma_sets_at(argv, argv.len() - 2, "--camera"@, number);
    } else if source.len() > 0 && source != "-"@ && !"/dev/video"@.is_prefix_of(source) {
        lemma_sets_at(argv, argv.len() - 2, "--camera"@, source);
    }
}

/// What `rpicam-vid` encodes is piped into a publish to an RTSP output, and
/// written to any other output directly.
pub proof fn law_rpicam_publishes_or_writes(
    p: EncoderParams,
    source: Seq<char>,
    output: Seq<char>,
    env: EncoderEnv,
)
    ensures
        ({
            let cmd = command::rpicam_command(p, source, output, env);
            let argv = command::rpicam_argv(p, source, env);
            let publish = command::rpicam_publish(output);
            if "rtsp://"@.is_prefix_of(output) {
                &&& cmd == seq![
                    "bash"@,
                    "-c"@,
                    shell::shell_line(argv + seq!["-o"@, "-"@]) + " | "@ + shell::shell_line(publish),
                ]
                &&& publish[0] == "ffmpeg"@
                &&& publish.last() == output
                &&& sets(publish, "-i"@, "-"@)
                &&& sets(publish, "-c"@, "copy"@)
                &&& sets(publish, "-f"@, "rtsp"@)
                &&& sets(publish, "-rtsp_transport"@, "tcp"@)
                &&& sets(publish, "-muxdelay"@, "0"@)
                &&& sets(publish, "-muxpreload"@, "0"@)
            } else {
                cmd == argv + seq!["-o"@, output]
            }
        }),
{
    let argv = command::rpicam_argv(p, source, env);
    let publish = command::rpicam_publish(output);
    assert(argv.push("-o"@).push("-"@) =~= argv + seq!["-o"@, "-"@]);
    assert(argv.push("-o"@).push(output) =~= argv + seq!["-o"@, output]);
    lemma_sets_at(publish, 9, "-i"@, "-"@);
    lemma_sets_at(publish, 11, "-c"@, "copy"@);
    lemma_sets_at(publish, 15, "-muxdelay"@, "0"@);
    lemma_sets_at(publish, 17, "-muxpreload"@, "0"@);
    lemma_sets_at(publish, 21, "-f"@, "rtsp"@);
    lemma_sets_at(publish, 23, "-rtsp_transport"@, "tcp"@);
}

/// `s` holds `p`, and so does what `s` is a part of.
proof fn lemma_in(before: Seq<char>, s: Seq<char>, after: Seq<char>)
    ensures
        text::holds(before + s + after, s),
{
    lemma_holds_itself(s);
    lemma_holds_inside(s, before, after, s);
}

/// A GStreamer pipeline captures from its device at the configured size and
/// rate, decodes exactly where the camera is asked for JPEG, turns the image as
/// configured, and repeats the parameter sets.
pub proof fn law_gstreamer_captures_at_the_settings(
    p: EncoderParams,
    source: Seq<char>,
    camera: Option<&CameraInfo>,
    env: EncoderEnv,
)
    ensures
        ({
            let core = command::gst_core(p, source, camera, env);
            let caps = ",height="@ + text::decimal(p.height as nat) + ",framerate="@
                + text::decimal(p.fps as nat) + "/1"@;
            let jpeg = encoder::input_format(camera) == Some("mjpeg"@);
            &&& ("v4l2src device="@ + shell::gst_quoted(source)).is_prefix_of(core)
            &&& jpeg ==> text::holds(
                core,
                "image/jpeg,width="@ + text::decimal(p.width as nat) + caps + " ! "@
                    + "jpegdec ! videoconvert"@ + " ! "@ + encoder::flip_chain(
                    p.rotation,
                    p.hflip,
                    p.vflip,
                ),
            )
            &&& !jpeg ==> text::holds(
                core,
                "video/x-raw,width="@ + text::decimal(p.width as nat) + caps + " ! "@
                    + "videoconvert"@ + " ! "@ + encoder::flip_chain(p.rotation, p.hflip, p.vflip),
            )
            &&& command::gst_parse() == " ! h264parse config-interval=1"@
        }),
{
    let head = "v4l2src device="@ + shell::gst_quoted(source);
    let omx = encoder::uses_omx(p, env);
    let link = if omx {
        " io-mode=mmap ! "@
    } else {
        " ! "@
    };
    let jpeg = encoder::input_format(camera) == Some("mjpeg"@);
    let kind = if jpeg {
        "image/jpeg,width="@
    } else {
        "video/x-raw,width="@
    };
    let decode = if jpeg {
        "jpegdec ! videoconvert"@
    } else {
        "videoconvert"@
    };
    let flips = encoder::flip_chain(p.rotation, p.hflip, p.vflip);
    let caps = command::gst_caps(p, jpeg);
    let w = text::decimal(p.width as nat);
    let h = text::decimal(p.height as nat);
    lemma_five(kind + w, ",height="@, h, ",framerate="@, text::decimal(p.fps as nat), "/1"@);
    lemma_pipeline_middle(head, link, caps, " ! "@, decode, flips);
    let capture = head + link + caps + " ! "@ + decode + " ! "@ + flips;
    let middle = caps + " ! "@ + decode + " ! "@ + flips;
    let element = command::gst_encoder(p, env);
    if omx {
        let format = "video/x-raw,format=NV12,width="@;
        let queue = " ! queue max-size-buffers=4 leaky=downstream ! "@;
        lemma_five(capture, format, w, ",height="@, h, queue);
        let feed = format + w + ",height="@ + h + queue;
        lemma_three(capture, feed, element);
        lemma_goes_on(capture, feed + element, head, middle);
    } else {
        lemma_goes_on(capture, element, head, middle);
    }
}

/// Joining texts one by one and as a group gives the same.
proof fn lemma_five(
    a: Seq<char>,
    b: Seq<char>,
    c: Seq<char>,
    d: Seq<char>,
    e: Seq<char>,
    f: Seq<char>,
)
    ensures
        a + b + c + d + e + f == a + (b + c + d + e + f),
{
    assert(a + b + c + d + e + f =~= a + (b + c + d + e + f));
}

proof fn lemma_three(a: Seq<char>, b: Seq<char>, c: Seq<char>)
    ensures
        a + b + c == a + (b + c),
{
    assert(a + b + c =~= a + (b + c));
}

/// The front of a pipeline is its head, its link and its middle.
proof fn lemma_pipeline_middle(
    head: Seq<char>,
    link: Seq<char>,
    caps: Seq<char>,
    bang: Seq<char>,
    decode: Seq<char>,
    flips: Seq<char>,
)
    ensures
        head.is_prefix_of(head + link + caps + bang + decode + bang + flips),
        text::holds(
            head + link + caps + bang + decode + bang + flips,
            caps + bang + decode + bang + flips,
        ),
{
    let all = head + link + caps + bang + decode + bang + flips;
    let middle = caps + bang + decode + bang + flips;
    let none = Seq::<char>::empty();
    assert(all =~= (head + link) + middle + none);
    lemma_in(head + link, middle, none);
    assert(head =~= all.subrange(0, head.len() as int));
}

/// What the front of a text begins with and holds, the text does.
proof fn lemma_goes_on(front: Seq<char>, rest: Seq<char>, head: Seq<char>, middle: Seq<char>)
    requires
        head.is_prefix_of(front),
        text::holds(front, middle),
    ensures
        head.is_prefix_of(front + rest),
        text::holds(front + rest, middle),
{
    let none = Seq::<char>::empty();
    lemma_holds_inside(front, none, rest, middle);
    assert(none + front + rest =~= front + rest);
    assert(head =~= (front + rest).subrange(0, head.len() as int)) by {
        assert(head =~= front.subrange(0, head.len() as int));
    }
}

/// The element that encodes. Software is used where it was asked for or nothing
/// else is installed; the vendor's element comes before Rockchip's. Each gets
/// the configured bitrate, the hardware ones in bits per second, and the
/// keyframe interval.
pub proof fn law_gstreamer_encodes_at_the_settings(
    p: EncoderParams,
    source: Seq<char>,
    camera: Option<&CameraInfo>,
    env: EncoderEnv,
)
    ensures
        ({
            let core = command::gst_core(p, source, camera, env);
            let e = command::gst_encoder(p, env);
            let bits = text::decimal((1000 * p.bitrate_kbps) as nat);
            let gop = text::decimal(encoder::gop(p));
            let software = p.encoder@ == "software"@;
            let vendor = env.encoder_api@ == "vendor"@ && env.has_omxh264videoenc;
            &&& e.is_suffix_of(core)
            &&& software || (!vendor && !env.has_mpph264enc) ==> (("x264enc bitrate="@
                + text::decimal(p.bitrate_kbps as nat)).is_prefix_of(e) && ("key-int-max="@
                + gop).is_suffix_of(e))
            &&& !software && vendor ==> e
                == "omxh264videoenc control-rate=constant target-bitrate="@ + bits
                + " interval-intraframes="@ + gop
            &&& !software && !vendor && env.has_mpph264enc ==> (("mpph264enc bps="@ + bits
                + " bps-max="@ + bits).is_prefix_of(e) && text::holds(e, " rc-mode=vbr gop="@ + gop))
        }),
{
    let core = command::gst_core(p, source, camera, env);
    let e = command::gst_encoder(p, env);
    let bits = text::decimal((1000 * p.bitrate_kbps) as nat);
    let gop = text::decimal(encoder::gop(p));
    assert(e =~= core.subrange(core.len() - e.len(), core.len() as int));
    let vendor = env.encoder_api@ == "vendor"@ && env.has_omxh264videoenc;
    if p.encoder@ == "software"@ || (!vendor && !env.has_mpph264enc) {
        let a = "x264enc bitrate="@ + text::decimal(p.bitrate_kbps as nat);
        assert(a =~= e.subrange(0, a.len() as int));
        reveal_strlit(
            " speed-preset=ultrafast tune=zerolatency threads=2 sliced-threads=false key-int-max=",
        );
        reveal_strlit("key-int-max=");
        let b = "key-int-max="@ + gop;
        assert(b =~= e.subrange(e.len() - b.len(), e.len() as int));
    } else if !vendor {
        let a = "mpph264enc bps="@ + bits + " bps-max="@ + bits;
        assert(a =~= e.subrange(0, a.len() as int));
        reveal_strlit(" qp-min=18 qp-max=51 rc-mode=vbr gop=");
        reveal_strlit(" rc-mode=vbr gop=");
        let n = a.len() + " bps-min="@.len() + text::decimal(
            (p.bitrate_kbps / 2 * 1000) as nat,
        ).len() + 20;
        let m = " rc-mode=vbr gop="@ + gop;
        assert(e =~= e.take(n as int) + m + e.skip((n + m.len()) as int));
        lemma_in(e.take(n as int), m, e.skip((n + m.len()) as int));
    }
}

/// Where a GStreamer command delivers: into the media server where the sink
/// element is installed, through an `ffmpeg` publish where it is not, and into
/// a file for any output that is not RTSP.
pub proof fn law_gstreamer_delivers(
    p: EncoderParams,
    source: Seq<char>,
    output: Seq<char>,
    camera: Option<&CameraInfo>,
    env: EncoderEnv,
)
    ensures
        ({
            let cmd = command::gstreamer_command(p, source, output, camera, env);
            let core = command::gst_core(p, source, camera, env) + command::gst_parse();
            let target = shell::gst_quoted(output);
            let rtsp = "rtsp://"@.is_prefix_of(output);
            &&& !rtsp ==> cmd == seq!["gst-launch-1.0"@, "-e"@] + text::pieces_on(
                core + " ! filesink location="@ + target,
                ' ',
            )
            &&& rtsp && env.has_rtspclientsink ==> cmd == seq!["gst-launch-1.0"@, "-e"@]
                + text::pieces_on(
                core + " ! rtspclientsink location="@ + target + " protocols=tcp latency=0"@,
                ' ',
            )
            &&& rtsp && !env.has_rtspclientsink ==> cmd.len() == 3 && cmd[0] == "bash"@ && cmd[1]
                == "-c"@ && ("gst-launch-1.0 -q "@ + core).is_prefix_of(cmd[2])
                && target.is_suffix_of(cmd[2])
        }),
{
    let cmd = command::gstreamer_command(p, source, output, camera, env);
    let core = command::gst_core(p, source, camera, env) + command::gst_parse();
    let target = shell::gst_quoted(output);
    if "rtsp://"@.is_prefix_of(output) && !env.has_rtspclientsink {
        let a = "gst-launch-1.0 -q "@ + core;
        assert(a =~= cmd[2].subrange(0, a.len() as int));
        assert(target =~= cmd[2].subrange(cmd[2].len() - target.len(), cmd[2].len() as int));
    }
}

/// The command is that of the backend which the override leaves: `ffmpeg` where
/// `v4l2m2m` is forced, else the vendor's pipeline where it is available and
/// software was not asked for, else the backend that was chosen.
pub proof fn law_the_command_is_of_the_backend(
    p: EncoderParams,
    source: Seq<char>,
    output: Seq<char>,
    camera: Option<&CameraInfo>,
    env: EncoderEnv,
)
    ensures
        ({
            let cmd = command::encoder_command(p, source, output, camera, env);
            let forced = p.encoder@ == "v4l2m2m"@;
            let vendor = !forced && p.encoder@ != "software"@ && env.encoder_api@ == "vendor"@
                && env.has_omxh264videoenc;
            &&& forced ==> cmd == command::ffmpeg_command(p, source, output, camera, env)
            &&& vendor ==> cmd == command::gstreamer_command(p, source, output, camera, env)
            &&& !forced && !vendor ==> cmd == (match p.kind {
                encoder::EncoderKind::RpicamVid => command::rpicam_command(p, source, output, env),
                encoder::EncoderKind::Ffmpeg => command::ffmpeg_command(
                    p,
                    source,
                    output,
                    camera,
                    env,
                ),
                encoder::EncoderKind::Gstreamer => command::gstreamer_command(
                    p,
                    source,
                    output,
                    camera,
                    env,
                ),
            })
        }),
{
    encoder::law_the_override_decides(p.kind, p, env);
}

/// The tee carries the published stream and the radio's copy, with the radio's
/// own payload type.
pub proof fn law_the_tee_has_two_branches(output: Seq<char>)
    ensures
        ("[f=rtsp:rtsp_transport=tcp:max_delay=0:flush_packets=1]"@ + output
            + "|[f=rtp:payload_type="@).is_prefix_of(command::tee_branches(output)),
        wfb_tee::rtp_url().is_suffix_of(command::tee_branches(output)),
        wfb_tee::rtp_url() == "rtp://127.0.0.1:5600?pkt_size=1316"@,
        wfb_tee::WFB_TEE_PAYLOAD_TYPE == 96,
{
    let tee = command::tee_branches(output);
    let a = "[f=rtsp:rtsp_transport=tcp:max_delay=0:flush_packets=1]"@ + output
        + "|[f=rtp:payload_type="@;
    assert(a =~= tee.subrange(0, a.len() as int));
    let u = wfb_tee::rtp_url();
    assert(u =~= tee.subrange(tee.len() - u.len(), tee.len() as int));
}

/// The software encoder is tuned for no delay, place by place: no B-frames, one
/// reference, and slices across the cores where there are four of them.
pub proof fn law_the_software_tuning(p: EncoderParams, env: EncoderEnv)
    ensures
        ({
            let t = command::x264_tuning(p, env);
            &&& t.len() == 24
            &&& t[0] == "-pix_fmt"@
            &&& t[1] == "yuv420p"@
            &&& t[2] == "-profile:v"@
            &&& t[3] == "high"@
            &&& t[4] == "-level:v"@
            &&& t[5] == "4.1"@
            &&& t[6] == "-preset"@
            &&& t[7] == "ultrafast"@
            &&& t[8] == "-tune"@
            &&& t[9] == "zerolatency"@
            &&& t[10] == "-g"@
            &&& t[11] == text::decimal(encoder::gop(p))
            &&& t[12] == "-bf"@
            &&& t[13] == "0"@
            &&& t[14] == "-refs"@
            &&& t[15] == "1"@
            &&& t[16] == "-threads"@
            &&& env.cpu_threads >= 4 ==> t[17] == "4"@ && t[21]
                == "no-mbtree=1:sync-lookahead=0:rc-lookahead=0:sliced-threads=1:slices=4:scenecut=0"@
            &&& env.cpu_threads < 4 ==> t[17] == "2"@ && t[21]
                == "no-mbtree=1:sync-lookahead=0:rc-lookahead=0:sliced-threads=0:scenecut=0"@
            &&& t[18] == "-flush_packets"@
            &&& t[19] == "1"@
            &&& t[20] == "-x264-params"@
            &&& t[22] == "-bsf:v"@
            &&& t[23] == "h264_mp4toannexb,dump_extra=freq=keyframe"@
        }),
{
}

/// The hardware encoder is tuned alike, with its quantiser bounded from below.
pub proof fn law_the_hardware_tuning(p: EncoderParams)
    ensures
        ({
            let t = command::v4l2m2m_tuning(p);
            &&& t.len() == 14
            &&& t[0] == "-pix_fmt"@
            &&& t[1] == "yuv420p"@
            &&& t[2] == "-g"@
            &&& t[3] == text::decimal(encoder::gop(p))
            &&& t[4] == "-bf"@
            &&& t[5] == "0"@
            &&& t[6] == "-flush_packets"@
            &&& t[7] == "1"@
            &&& t[8] == "-qmin"@
            &&& t[9] == text::decimal(20)
            &&& t[10] == "-qmax"@
            &&& t[11] == "51"@
            &&& t[12] == "-bsf:v"@
            &&& t[13] == "dump_extra=freq=keyframe"@
        }),
{
}

/// The fixed part of a `rpicam-vid` command ends with its stream settings.
pub proof fn law_the_stream_settings_of_rpicam(p: EncoderParams)
    ensures
        ({
            let t = command::rpicam_base(p);
            &&& t.len() == 21
            &&& t[13] == "--nopreview"@
            &&& t[14] == "--inline"@
            &&& t[15] == "--profile"@
            &&& t[16] == "high"@
            &&& t[17] == "--level"@
            &&& t[18] == "4.1"@
            &&& t[19] == "--intra"@
            &&& t[20] == text::decimal(encoder::gop(p))
        }),
{
}

/// The stage that publishes what `rpicam-vid` encodes, place by place.
pub proof fn law_the_publishing_stage_of_rpicam(output: Seq<char>)
    ensures
        ({
            let t = command::rpicam_publish(output);
            &&& t.len() == 26
            &&& t[0] == "ffmpeg"@
            &&& t[1] == "-loglevel"@
            &&& t[2] == "error"@
            &&& t[3] == "-fflags"@
            &&& t[4] == "nobuffer"@
            &&& t[5] == "-flags"@
            &&& t[6] == "low_delay"@
            &&& t[7] == "-f"@
            &&& t[8] == "h264"@
            &&& t[9] == "-i"@
            &&& t[10] == "-"@
            &&& t[11] == "-c"@
            &&& t[12] == "copy"@
            &&& t[13] == "-bsf:v"@
            &&& t[14] == "h264_metadata=colour_primaries=1:transfer_characteristics=1:matrix_coefficients=1:video_full_range_flag=0"@
            &&& t[15] == "-muxdelay"@
            &&& t[16] == "0"@
            &&& t[17] == "-muxpreload"@
            &&& t[18] == "0"@
            &&& t[19] == "-flush_packets"@
            &&& t[20] == "1"@
            &&& t[21] == "-f"@
            &&& t[22] == "rtsp"@
            &&& t[23] == "-rtsp_transport"@
            &&& t[24] == "tcp"@
            &&& t[25] == output
        }),
{
}

/// A capture device is opened without probing or buffering.
pub proof fn law_a_device_is_opened_without_delay(
    p: EncoderParams,
    source: Seq<char>,
    camera: Option<&CameraInfo>,
)
    ensures
        ({
            let t = command::device_input(p, source, camera);
            let n = t.len() as int;
            &&& t[0] == "-fflags"@
            &&& t[1] == "nobuffer"@
            &&& t[2] == "-flags"@
            &&& t[3] == "low_delay"@
            &&& t[4] == "-probesize"@
            &&& t[5] == "32"@
            &&& t[6] == "-analyzeduration"@
            &&& t[7] == "0"@
            &&& t[8] == "-thread_queue_size"@
            &&& t[9] == "128"@
            &&& t[10] == "-f"@
            &&& t[11] == "v4l2"@
            &&& encoder::input_format(camera) is None ==> n == 18
            &&& encoder::input_format(camera) is Some ==> n == 20 && t[12] == "-input_format"@
                && t[13] == encoder::input_format(camera)->0
            &&& t[n - 6] == "-video_size"@ && t[n - 4] == "-framerate"@ && t[n - 2] == "-i"@
            &&& t[n - 1] == source
        }),
{
}

/// A network stream is pulled without buffering, RTSP over TCP.
pub proof fn law_a_stream_is_pulled_without_delay(source: Seq<char>)
    ensures
        ({
            let t = command::network_input(source);
            let n = t.len() as int;
            &&& t[0] == "-fflags"@ && t[1] == "nobuffer"@
            &&& t[2] == "-flags"@ && t[3] == "low_delay"@
            &&& "rtsp://"@.is_prefix_of(source) ==> n == 8 && t[4] == "-rtsp_transport"@ && t[5]
                == "tcp"@
            &&& !"rtsp://"@.is_prefix_of(source) ==> n == 6
            &&& t[n - 2] == "-i"@ && t[n - 1] == source
        }),
{
}

/// An untransformed image has no filter: behind the rate comes the codec at
/// once.
pub proof fn law_an_upright_image_has_no_filter(p: EncoderParams, env: EncoderEnv)
    ensures
        ({
            let t = command::ffmpeg_encode(p, env);
            &&& t[0] == "-r"@ && t[1] == text::decimal(p.fps as nat)
            &&& encoder::vf_chain(p.rotation, p.hflip, p.vflip) is None ==> t[2] == "-c:v"@
            &&& encoder::vf_chain(p.rotation, p.hflip, p.vflip) is Some ==> t[2] == "-vf"@ && t[3]
                == encoder::vf_chain(p.rotation, p.hflip, p.vflip)->0 && t[4] == "-c:v"@
        }),
{
}

/// What an output is written with, case by case.
pub proof fn law_the_output_stage(output: Seq<char>, fanout: bool)
    ensures
        ({
            let t = command::output_stage(output, fanout);
            let rtsp = "rtsp://"@.is_prefix_of(output);
            let stream = "udp://"@.is_prefix_of(output) || "tcp://"@.is_prefix_of(output);
            let strip = seq!["-max_delay"@, "0"@, "-muxdelay"@, "0"@, "-muxpreload"@, "0"@];
            &&& rtsp && !fanout ==> t == strip + seq![
                "-rtsp_transport"@,
                "tcp"@,
                "-f"@,
                "rtsp"@,
                output,
            ]
            &&& rtsp && fanout ==> t == strip + seq![
                "-map"@,
                "0:v"@,
                "-f"@,
                "tee"@,
                command::tee_branches(output),
            ]
            &&& !rtsp && stream ==> t == seq![
                "-muxdelay"@,
                "0"@,
                "-muxpreload"@,
                "0"@,
                "-f"@,
                "mpegts"@,
                output,
            ]
            &&& !rtsp && !stream ==> t == seq![output]
        }),
{
    let t = command::output_stage(output, fanout);
    let strip = seq!["-max_delay"@, "0"@, "-muxdelay"@, "0"@, "-muxpreload"@, "0"@];
    if "rtsp://"@.is_prefix_of(output) {
        if fanout {
            assert(t =~= strip + seq![
                "-map"@,
                "0:v"@,
                "-f"@,
                "tee"@,
                command::tee_branches(output),
            ]);
        } else {
            assert(t =~= strip + seq!["-rtsp_transport"@, "tcp"@, "-f"@, "rtsp"@, output]);
        }
    }
}

/// The tee: the published stream, then the radio's copy with its own payload
/// type and source, neither with any delay.
pub proof fn law_the_tee_in_full(output: Seq<char>)
    ensures
        command::tee_branches(output) == "[f=rtsp:rtsp_transport=tcp:max_delay=0:flush_packets=1]"@
            + output + "|[f=rtp:payload_type="@ + text::decimal(96) + ":ssrc="@ + text::decimal(
            51966,
        ) + ":max_delay=0:flush_packets=1]"@ + "rtp://127.0.0.1:5600?pkt_size=1316"@,
{
}

/// The elements of a pipeline in full: the software one, and Rockchip's, whose
/// ceiling is the configured bitrate and whose floor is half of it.
pub proof fn law_the_elements_in_full(p: EncoderParams)
    ensures
        command::gst_x264(p) == "x264enc bitrate="@ + text::decimal(p.bitrate_kbps as nat)
            + " speed-preset=ultrafast tune=zerolatency threads=2 sliced-threads=false key-int-max="@
            + text::decimal(encoder::gop(p)),
        command::gst_mpp(p) == "mpph264enc bps="@ + text::decimal((1000 * p.bitrate_kbps) as nat)
            + " bps-max="@ + text::decimal((1000 * p.bitrate_kbps) as nat) + " bps-min="@
            + text::decimal((1000 * (p.bitrate_kbps / 2)) as nat)
            + " qp-min=18 qp-max=51 rc-mode=vbr gop="@ + text::decimal(encoder::gop(p))
            + " header-mode=1"@,
{
}

/// The vendor's element is fed in its own format through a queue that drops.
pub proof fn law_the_vendor_element_is_fed_through_a_queue(
    p: EncoderParams,
    source: Seq<char>,
    camera: Option<&CameraInfo>,
    env: EncoderEnv,
)
    requires
        encoder::uses_omx(p, env),
    ensures
        ({
            let core = command::gst_core(p, source, camera, env);
            let feed = "video/x-raw,format=NV12,width="@ + text::decimal(p.width as nat)
                + ",height="@ + text::decimal(p.height as nat)
                + " ! queue max-size-buffers=4 leaky=downstream ! "@;
            &&& (feed + command::gst_encoder(p, env)).is_suffix_of(core)
            &&& ("v4l2src device="@ + shell::gst_quoted(source)
                + " io-mode=mmap ! "@).is_prefix_of(core)
        }),
{
    let core = command::gst_core(p, source, camera, env);
    let feed = "video/x-raw,format=NV12,width="@ + text::decimal(p.width as nat) + ",height="@
        + text::decimal(p.height as nat) + " ! queue max-size-buffers=4 leaky=downstream ! "@;
    let jpeg = encoder::input_format(camera) == Some("mjpeg"@);
    let head = "v4l2src device="@ + shell::gst_quoted(source) + " io-mode=mmap ! "@;
    let caps = command::gst_caps(p, jpeg);
    let decode = if jpeg {
        "jpegdec ! videoconvert"@
    } else {
        "videoconvert"@
    };
    let flip = encoder::flip_chain(p.rotation, p.hflip, p.vflip);
    let capture = head + caps + " ! "@ + decode + " ! "@ + flip;
    lemma_fed(
        capture,
        "video/x-raw,format=NV12,width="@,
        text::decimal(p.width as nat),
        ",height="@,
        text::decimal(p.height as nat),
        " ! queue max-size-buffers=4 leaky=downstream ! "@,
        command::gst_encoder(p, env),
    );
    assert(core == capture + (feed + command::gst_encoder(p, env)));
    lemma_ends(capture, feed + command::gst_encoder(p, env));
    lemma_begins(head, caps, " ! "@, decode, " ! "@, flip, feed + command::gst_encoder(p, env));
}

proof fn lemma_fed(
    a: Seq<char>,
    b: Seq<char>,
    c: Seq<char>,
    d: Seq<char>,
    e: Seq<char>,
    f: Seq<char>,
    g: Seq<char>,
)
    ensures
        a + b + c + d + e + f + g == a + (b + c + d + e + f + g),
{
    assert(a + b + c + d + e + f + g =~= a + (b + c + d + e + f + g));
}

proof fn lemma_ends(a: Seq<char>, b: Seq<char>)
    ensures
        b.is_suffix_of(a + b),
{
    let s = a + b;
    assert(b =~= s.subrange(s.len() - b.len(), s.len() as int));
}

proof fn lemma_begins(
    a: Seq<char>,
    b: Seq<char>,
    c: Seq<char>,
    d: Seq<char>,
    e: Seq<char>,
    f: Seq<char>,
    g: Seq<char>,
)
    ensures
        a.is_prefix_of(a + b + c + d + e + f + g),
{
    let s = a + b + c + d + e + f + g;
    assert(a =~= s.subrange(0, a.len() as int));
}

/// Without the sink element a pipeline is published by `ffmpeg`, copied and
/// without any delay.
pub proof fn law_the_piped_publish_in_full(
    p: EncoderParams,
    source: Seq<char>,
    output: Seq<char>,
    camera: Option<&CameraInfo>,
    env: EncoderEnv,
)
    requires
        "rtsp://"@.is_prefix_of(output),
        !env.has_rtspclientsink,
    ensures
        command::gstreamer_command(p, source, output, camera, env) == seq![
            "bash"@,
            "-c"@,
            "gst-launch-1.0 -q "@ + (command::gst_core(p, source, camera, env)
                + " ! h264parse config-interval=1"@)
                + " ! 'video/x-h264,stream-format=byte-stream' ! fdsink fd=1 2>/dev/null | ffmpeg -y -fflags nobuffer -f h264 -i pipe:0 -c:v copy -max_delay 0 -muxdelay 0 -muxpreload 0 -flush_packets 1 -rtsp_transport tcp -f rtsp "@
                + shell::gst_quoted(output),
        ],
{
}

} // verus!
