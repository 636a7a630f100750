//! Rewrites of a composed encoder command: the wall-clock marker splice and
//! the pre-encode vision tap.
use crate::command;
use crate::command::{bash_command, ffmpeg_output_stage};
use crate::encoder::EncoderEnv;
use crate::shell;
use crate::text;
use crate::text::{add_arg, add_args, copy_all, decimal_of};
use vstd::prelude::*;

verus! {

// ---------------------------------------------------------------------------
// flags with a value
// ---------------------------------------------------------------------------

/// The largest index in `from..n` at which `flag` stands, or `-1`.
pub open spec fn last_flag(args: Seq<Seq<char>>, flag: Seq<char>, from: int, n: int) -> int
    decreases n - from,
{
    if n <= from {
        -1
    } else if args[n - 1] == flag {
        n - 1
    } else {
        last_flag(args, flag, from, n - 1)
    }
}

/// The index of the right-most `flag` at `from` or later that a value follows,
/// or `-1`.
pub open spec fn flag_index(args: Seq<Seq<char>>, flag: Seq<char>, from: int) -> int {
    last_flag(args, flag, from, args.len() - 1)
}

/// The value of the right-most `flag` at `from` or later.
pub open spec fn flag_value(args: Seq<Seq<char>>, flag: Seq<char>, from: int) -> Option<Seq<char>> {
    let i = flag_index(args, flag, from);
    if i < 0 {
        None
    } else {
        Some(args[i + 1])
    }
}

/// The arguments without the right-most `flag` at `from` or later and its
/// value.
pub open spec fn without_flag(args: Seq<Seq<char>>, flag: Seq<char>, from: int) -> Seq<Seq<char>> {
    let i = flag_index(args, flag, from);
    if i < 0 {
        args
    } else {
        args.take(i) + args.skip(i + 2)
    }
}

pub(crate) proof fn lemma_last_flag_range(args: Seq<Seq<char>>, flag: Seq<char>, from: int, n: int)
    requires
        0 <= from,
        n <= args.len(),
    ensures
        last_flag(args, flag, from, n) == -1 || from <= last_flag(args, flag, from, n) < n,
        last_flag(args, flag, from, n) >= 0 ==> args[last_flag(args, flag, from, n)] == flag,
    decreases n - from,
{
    if n > from && args[n - 1] != flag {
        lemma_last_flag_range(args, flag, from, n - 1);
    }
}

/// Every `flag` in `from..n` stands at or before the right-most one.
proof fn lemma_last_flag_is_last(args: Seq<Seq<char>>, flag: Seq<char>, from: int, n: int, k: int)
    requires
        0 <= from <= k < n <= args.len(),
        args[k] == flag,
    ensures
        k <= last_flag(args, flag, from, n) < n,
    decreases n - from,
{
    if args[n - 1] != flag {
        lemma_last_flag_is_last(args, flag, from, n - 1, k);
    }
}

/// Taking a flag at `from` or later leaves everything in front of `from`.
proof fn lemma_without_flag_keeps_the_front(args: Seq<Seq<char>>, flag: Seq<char>, from: int)
    requires
        0 <= from <= args.len(),
    ensures
        without_flag(args, flag, from).len() >= from,
        without_flag(args, flag, from).take(from) == args.take(from),
{
    lemma_last_flag_range(args, flag, from, args.len() - 1);
    assert(without_flag(args, flag, from).take(from) =~= args.take(from));
}

/// Remove the right-most `flag` at `from` or later and the value behind it
/// from `args`, and return the value.
fn take_flag_value_from(args: &mut Vec<String>, flag: &str, from: usize) -> (r: Option<String>)
    ensures
        text::views(final(args)@) == without_flag(text::views(old(args)@), flag@, from as int),
        text::opt_view(r) == flag_value(text::views(old(args)@), flag@, from as int),
{
    let ghost all = text::views(args@);
    if args.len() < 2 {
        return None;
    }
    let mut n: usize = args.len() - 1;
    while n > from
        invariant
            n < args@.len(),
            all == text::views(args@),
            args@ == old(args)@,
            flag_index(all, flag@, from as int) == last_flag(all, flag@, from as int, n as int),
        decreases n,
    {
        if text::same(args[n - 1].as_str(), flag) {
            let value = args.remove(n);
            let _flag = args.remove(n - 1);
            assert(text::views(args@) =~= all.take(n - 1) + all.skip(n + 1));
            return Some(value);
        }
        n -= 1;
    }
    None
}

/// Remove the right-most `flag` and the value behind it from `args`, and
/// return the value. The program name is never taken for a flag.
pub fn take_flag_value(args: &mut Vec<String>, flag: &str) -> (r: Option<String>)
    ensures
        text::views(final(args)@) == without_flag(text::views(old(args)@), flag@, 1),
        text::opt_view(r) == flag_value(text::views(old(args)@), flag@, 1),
{
    take_flag_value_from(args, flag, 1)
}

/// Remove the right-most `flag` at `from` or later and the value behind it
/// from `args`.
pub fn strip_flag_with_value(args: &mut Vec<String>, flag: &str, from: usize)
    ensures
        text::views(final(args)@) == without_flag(text::views(old(args)@), flag@, from as int),
{
    let _value = take_flag_value_from(args, flag, from);
}

// ---------------------------------------------------------------------------
// wall-clock marker
// ---------------------------------------------------------------------------

/// The shell stage that runs the marker injector.
pub open spec fn injector(python: Seq<char>) -> Seq<char> {
    shell::shell_quoted(python) + " -m ados.services.video.sei_injector"@
}

/// The command is a `bash -c` pipeline.
pub open spec fn is_bash(cmd: Seq<Seq<char>>) -> bool {
    cmd.len() >= 3 && cmd[0] == "bash"@ && cmd[1] == "-c"@
}

/// The command runs `ffmpeg` itself.
pub open spec fn is_ffmpeg(cmd: Seq<Seq<char>>) -> bool {
    cmd.len() > 0 && cmd[0] == "ffmpeg"@
}

/// The command's last argument is the tee specification that carries `uri`.
pub open spec fn ends_in_fanout(cmd: Seq<Seq<char>>, uri: Seq<char>) -> bool {
    cmd.len() > 0 && "[f="@.is_prefix_of(cmd.last()) && text::holds(cmd.last(), uri)
}

/// The destination that the publish stage can be rebuilt for.
pub open spec fn publishable(uri: Seq<char>) -> bool {
    "rtsp://"@.is_prefix_of(uri) || command::is_ts_url(uri)
}

/// Where the input half of a command ends: right behind its last `-i` and the
/// value of that. Without an input, behind the program name.
pub open spec fn input_end(cmd: Seq<Seq<char>>) -> int {
    let i = flag_index(cmd, "-i"@, 1);
    if i < 0 {
        1
    } else {
        i + 2
    }
}

/// The command without its destination: the bare URL, or the tee specification
/// that carries it. What belongs to the input is no destination.
pub open spec fn without_destination(cmd: Seq<Seq<char>>, uri: Seq<char>) -> Seq<Seq<char>> {
    if cmd.len() > input_end(cmd) && (ends_in_fanout(cmd, uri) || cmd.last() == uri) {
        cmd.drop_last()
    } else {
        cmd
    }
}

/// The encoding half of a split `ffmpeg` command: destination and muxer
/// selection removed behind the input, raw H.264 on standard output.
pub open spec fn encode_half(cmd: Seq<Seq<char>>, uri: Seq<char>) -> Seq<Seq<char>> {
    let from = input_end(cmd);
    let no_muxer = without_flag(without_destination(cmd, uri), "-f"@, from);
    let no_map = if ends_in_fanout(cmd, uri) {
        without_flag(no_muxer, "-map"@, from)
    } else {
        no_muxer
    };
    without_flag(
        without_flag(
            without_flag(without_flag(no_map, "-rtsp_transport"@, from), "-muxpreload"@, from),
            "-muxdelay"@,
            from,
        ),
        "-max_delay"@,
        from,
    ).push("-f"@).push("h264"@).push("-"@)
}

/// The marker splice never touches the input side: up to an `-i` and its value,
/// the encoding half is the command as it was.
pub proof fn law_splice_leaves_the_input_alone(cmd: Seq<Seq<char>>, uri: Seq<char>, k: int)
    requires
        1 <= k < cmd.len() - 1,
        cmd[k] == "-i"@,
    ensures
        encode_half(cmd, uri).len() >= k + 2,
        encode_half(cmd, uri).take(k + 2) == cmd.take(k + 2),
{
    lemma_last_flag_is_last(cmd, "-i"@, 1, cmd.len() - 1, k);
    let from = input_end(cmd);
    let body = without_destination(cmd, uri);
    let no_muxer = without_flag(body, "-f"@, from);
    lemma_without_flag_keeps_the_front(body, "-f"@, from);
    lemma_without_flag_keeps_the_front(no_muxer, "-map"@, from);
    let no_map = if ends_in_fanout(cmd, uri) {
        without_flag(no_muxer, "-map"@, from)
    } else {
        no_muxer
    };
    let a = without_flag(no_map, "-rtsp_transport"@, from);
    let b = without_flag(a, "-muxpreload"@, from);
    let c = without_flag(b, "-muxdelay"@, from);
    let d = without_flag(c, "-max_delay"@, from);
    lemma_without_flag_keeps_the_front(no_map, "-rtsp_transport"@, from);
    lemma_without_flag_keeps_the_front(a, "-muxpreload"@, from);
    lemma_without_flag_keeps_the_front(b, "-muxdelay"@, from);
    lemma_without_flag_keeps_the_front(c, "-max_delay"@, from);
    assert(body.take(from) =~= cmd.take(from));
    assert(d.take(from) == cmd.take(from));
    let half = encode_half(cmd, uri);
    assert forall|i: int| 0 <= i < k + 2 implies half[i] == cmd[i] by {
        assert(half[i] == d[i]);
        assert(d[i] == d.take(from)[i]);
        assert(cmd[i] == cmd.take(from)[i]);
    }
    assert(half.take(k + 2) =~= cmd.take(k + 2));
}

/// The publishing half of a split `ffmpeg` command: the marked stream from
/// standard input to the destinations that the command had.
pub open spec fn publish_half(uri: Seq<char>, fanout: bool) -> Seq<Seq<char>> {
    seq![
        "ffmpeg"@,
        "-loglevel"@,
        "error"@,
        "-fflags"@,
        "nobuffer"@,
        "-flags"@,
        "low_delay"@,
        "-f"@,
        "h264"@,
        "-i"@,
        "-"@,
        "-c"@,
        "copy"@,
        "-flush_packets"@,
        "1"@,
    ] + command::output_stage(uri, fanout)
}

/// The command with the injector in front of its last stage.
pub open spec fn spliced(cmd: Seq<Seq<char>>, uri: Seq<char>, python: Seq<char>) -> Seq<
    Seq<char>,
> {
    if is_bash(cmd) {
        let cut = text::last_at(cmd[2], '|');
        if cut < 0 {
            cmd
        } else {
            seq![
                "bash"@,
                "-c"@,
                text::trimmed_end(cmd[2].take(cut)) + " | "@ + injector(python) + " | "@
                    + text::trimmed_start(cmd[2].skip(cut + 1)),
            ]
        }
    } else if is_ffmpeg(cmd) && publishable(uri) {
        seq![
            "bash"@,
            "-c"@,
            shell::shell_line(encode_half(cmd, uri)) + " | "@ + injector(python) + " | "@
                + shell::shell_line(publish_half(uri, ends_in_fanout(cmd, uri))),
        ]
    } else {
        cmd
    }
}

/// Where the input half of a command ends.
fn find_input_end(cmd: &[String]) -> (r: usize)
    ensures
        r == input_end(text::views(cmd@)),
        cmd@.len() > 0 ==> r <= cmd@.len(),
{
    let ghost all = text::views(cmd@);
    if cmd.len() < 2 {
        return 1;
    }
    let mut n: usize = cmd.len() - 1;
    while n > 1
        invariant
            1 <= n < cmd@.len(),
            all == text::views(cmd@),
            flag_index(all, "-i"@, 1) == last_flag(all, "-i"@, 1, n as int),
        decreases n,
    {
        if text::same(cmd[n - 1].as_str(), "-i") {
            return n + 1;
        }
        n -= 1;
    }
    1
}

fn build_encode_half(cmd: &[String], uri: &str, fanout: bool) -> (out: Vec<String>)
    requires
        fanout == ends_in_fanout(text::views(cmd@), uri@),
    ensures
        text::views(out@) == encode_half(text::views(cmd@), uri@),
{
    let mut out = copy_all(cmd);
    let ghost all = text::views(cmd@);
    assert(text::views(out@).len() == out@.len());
    let n: usize = out.len();
    let from: usize = find_input_end(cmd);
    if n > from && (fanout || text::same(out[n - 1].as_str(), uri)) {
        let _destination = out.pop();
        assert(text::views(out@) =~= all.drop_last());
    }
    strip_flag_with_value(&mut out, "-f", from);
    if fanout {
        strip_flag_with_value(&mut out, "-map", from);
    }
    strip_flag_with_value(&mut out, "-rtsp_transport", from);
    strip_flag_with_value(&mut out, "-muxpreload", from);
    strip_flag_with_value(&mut out, "-muxdelay", from);
    strip_flag_with_value(&mut out, "-max_delay", from);
    add_arg(&mut out, "-f");
    add_arg(&mut out, "h264");
    add_arg(&mut out, "-");
    out
}

fn build_publish_half(uri: &str, fanout: bool) -> (out: Vec<String>)
    ensures
        text::views(out@) == publish_half(uri@, fanout),
{
    let mut out: Vec<String> = Vec::new();
    assert(text::views(out@) =~= Seq::<Seq<char>>::empty());
    add_arg(&mut out, "ffmpeg");
    add_arg(&mut out, "-loglevel");
    add_arg(&mut out, "error");
    add_arg(&mut out, "-fflags");
    add_arg(&mut out, "nobuffer");
    add_arg(&mut out, "-flags");
    add_arg(&mut out, "low_delay");
    add_arg(&mut out, "-f");
    add_arg(&mut out, "h264");
    add_arg(&mut out, "-i");
    add_arg(&mut out, "-");
    add_arg(&mut out, "-c");
    add_arg(&mut out, "copy");
    add_arg(&mut out, "-flush_packets");
    add_arg(&mut out, "1");
    let stage = ffmpeg_output_stage(uri, fanout);
    add_args(&mut out, &stage);
    out
}

/// Splice the marker injector into the encode-to-publish pipeline.
///
/// A `bash` pipeline gets the injector in front of its last stage. A plain
/// `ffmpeg` publish is split into an encoding and a publishing half around
/// it, and the publishing half keeps every destination. Any other command is
/// returned unchanged.
pub fn wrap_with_sei_inject(cmd: &[String], output_uri: &str, env: &EncoderEnv) -> (r: Vec<String>)
    ensures
        text::views(r@) == spliced(text::views(cmd@), output_uri@, env.python_executable@),
{
    let ghost all = text::views(cmd@);
    let mut inject = shell::shell_quote(env.python_executable.as_str());
    inject.append(" -m ados.services.video.sei_injector");
    if cmd.len() >= 3 && text::same(cmd[0].as_str(), "bash") && text::same(cmd[1].as_str(), "-c") {
        assert(all[2] == cmd@[2]@);
        let body = text::chars_of(cmd[2].as_str());
        match text::find_last(&body, '|') {
            Some(cut) => {
                let head = text::slice_text(&body, 0, cut);
                let tail = text::slice_text(&body, cut + 1, body.len());
                assert(head@ =~= all[2].take(cut as int));
                assert(tail@ =~= all[2].skip(cut + 1));
                let mut line = text::trim_end(head.as_str()).to_owned();
                line.append(" | ");
                line.append(inject.as_str());
                line.append(" | ");
                line.append(text::trim_start(tail.as_str()));
                bash_command(line.as_str())
            },
            None => copy_all(cmd),
        }
    } else if cmd.len() > 0 && text::same(cmd[0].as_str(), "ffmpeg") {
        let last = cmd[cmd.len() - 1].as_str();
        assert(last@ == all.last());
        let fanout = text::starts_with(last, "[f=") && text::contains(last, output_uri);
        if !(text::starts_with(output_uri, "rtsp://") || text::starts_with(output_uri, "udp://")
            || text::starts_with(output_uri, "tcp://")) {
            return copy_all(cmd);
        }
        let encode = build_encode_half(cmd, output_uri, fanout);
        let publish = build_publish_half(output_uri, fanout);
        let mut line = shell::join_shell(&encode);
        line.append(" | ");
        line.append(inject.as_str());
        line.append(" | ");
        let tail = shell::join_shell(&publish);
        line.append(tail.as_str());
        bash_command(line.as_str())
    } else {
        copy_all(cmd)
    }
}

// ---------------------------------------------------------------------------
// vision tap
// ---------------------------------------------------------------------------

/// The argument routes or filters streams explicitly.
pub open spec fn routes_streams(arg: Seq<char>) -> bool {
    arg == "-map"@ || arg == "-filter_complex"@ || arg == "-filter:v"@
}

/// The command can carry the tap as a second mapped output: a plain `ffmpeg`
/// command that ends in its destination and does not route its own streams.
pub open spec fn can_carry_tap(cmd: Seq<Seq<char>>, existing_output: Seq<char>) -> bool {
    &&& is_ffmpeg(cmd)
    &&& cmd.last() == existing_output
    &&& forall|i: int| 0 <= i < cmd.len() ==> !routes_streams(#[trigger] cmd[i])
}

/// The filter graph: the oriented capture split into an encoder branch and a
/// throttled, scaled tap branch.
pub open spec fn tap_graph(vf: Option<Seq<char>>, fps: u32, width: u32, height: u32) -> Seq<
    char,
> {
    (match vf {
        Some(chain) => "[0:v]"@ + chain + ",split=2[enc][vis]"@,
        None => "[0:v]split=2[enc][vis]"@,
    }) + ";[vis]fps="@ + text::decimal(
        if fps >= 1 {
            fps as nat
        } else {
            1
        },
    ) + ",scale="@ + text::decimal(width as nat) + ":"@ + text::decimal(height as nat) + "[visout]"@
}

/// The command with the tap spliced in. The encoder branch is mapped into the
/// existing output, the orientation filter moves into the graph, and the tap
/// gets an output of its own.
pub open spec fn with_tap(
    cmd: Seq<Seq<char>>,
    fps: u32,
    width: u32,
    height: u32,
    pixel_format: Seq<char>,
    sink: Seq<char>,
) -> Seq<Seq<char>> {
    let base = without_flag(cmd, "-vf"@, 1);
    let graph = tap_graph(flag_value(cmd, "-vf"@, 1), fps, width, height);
    let mapped = base.drop_last() + seq!["-map"@, "[enc]"@].push(base.last());
    let filtered = seq![mapped.first(), "-filter_complex"@, graph] + mapped.drop_first();
    filtered + seq![
        "-map"@,
        "[visout]"@,
        "-an"@,
        "-pix_fmt"@,
        pixel_format,
        "-f"@,
        "rawvideo"@,
        sink,
    ]
}

/// A command grows when the tap is spliced in.
pub(crate) proof fn lemma_with_tap_is_longer(
    cmd: Seq<Seq<char>>,
    fps: u32,
    width: u32,
    height: u32,
    pixel_format: Seq<char>,
    sink: Seq<char>,
)
    requires
        cmd.len() > 0,
    ensures
        with_tap(cmd, fps, width, height, pixel_format, sink).len() > cmd.len(),
{
    lemma_last_flag_range(cmd, "-vf"@, 1, cmd.len() - 1);
}

/// A command with the tap runs the same program.
pub(crate) proof fn lemma_with_tap_keeps_the_program(
    cmd: Seq<Seq<char>>,
    fps: u32,
    width: u32,
    height: u32,
    pixel_format: Seq<char>,
    sink: Seq<char>,
)
    requires
        cmd.len() > 1,
        cmd[1] != "-vf"@,
    ensures
        with_tap(cmd, fps, width, height, pixel_format, sink)[0] == cmd[0],
{
    lemma_last_flag_range(cmd, "-vf"@, 1, cmd.len() - 1);
}

/// The command with the tap where it can carry it, and unchanged elsewhere.
pub open spec fn tapped(
    cmd: Seq<Seq<char>>,
    existing_output: Seq<char>,
    fps: u32,
    width: u32,
    height: u32,
    pixel_format: Seq<char>,
    sink: Seq<char>,
) -> Seq<Seq<char>> {
    if can_carry_tap(cmd, existing_output) {
        with_tap(cmd, fps, width, height, pixel_format, sink)
    } else {
        cmd
    }
}

fn build_tap_graph(vf: &Option<String>, fps: u32, width: u32, height: u32) -> (r: String)
    ensures
        r@ == tap_graph(text::opt_view(*vf), fps, width, height),
{
    let mut out = match vf {
        Some(chain) => {
            let mut split = String::from_str("[0:v]");
            split.append(chain.as_str());
            split.append(",split=2[enc][vis]");
            split
        },
        None => String::from_str("[0:v]split=2[enc][vis]"),
    };
    let rate: u32 = if fps >= 1 {
        fps
    } else {
        1
    };
    out.append(";[vis]fps=");
    out.append(decimal_of(rate as u64).as_str());
    out.append(",scale=");
    out.append(decimal_of(width as u64).as_str());
    out.append(":");
    out.append(decimal_of(height as u64).as_str());
    out.append("[visout]");
    out
}

fn routes_any(cmd: &[String]) -> (r: bool)
    ensures
        r == exists|i: int|
            0 <= i < cmd@.len() && routes_streams(#[trigger] text::views(cmd@)[i]),
{
    let ghost all = text::views(cmd@);
    let mut i: usize = 0;
    while i < cmd.len()
        invariant
            i <= cmd@.len(),
            all == text::views(cmd@),
            forall|j: int| 0 <= j < i ==> !routes_streams(#[trigger] all[j]),
        decreases cmd@.len() - i,
    {
        let t = cmd[i].as_str();
        if text::same(t, "-map") || text::same(t, "-filter_complex") || text::same(
            t,
            "-filter:v",
        ) {
            assert(routes_streams(all[i as int]));
            return true;
        }
        i += 1;
    }
    false
}

/// Augment a plain `ffmpeg` encoder command with a second raw output for the
/// vision tap, keeping the existing encode and publish settings. A command
/// that cannot carry it is returned unchanged.
pub fn augment_encoder_with_raw_tap(
    cmd: &[String],
    existing_output: &str,
    fps: u32,
    width: u32,
    height: u32,
    pixel_format: &str,
    sink: &str,
) -> (r: Vec<String>)
    ensures
        text::views(r@) == tapped(
            text::views(cmd@),
            existing_output@,
            fps,
            width,
            height,
            pixel_format@,
            sink@,
        ),
{
    let ghost all = text::views(cmd@);
    if cmd.len() == 0 || !text::same(cmd[0].as_str(), "ffmpeg") {
        return copy_all(cmd);
    }
    assert(all.last() == cmd@[cmd@.len() - 1]@);
    if !text::same(cmd[cmd.len() - 1].as_str(), existing_output) || routes_any(cmd) {
        return copy_all(cmd);
    }
    let mut base = copy_all(cmd);
    let vf = take_flag_value(&mut base, "-vf");
    let graph = build_tap_graph(&vf, fps, width, height);
    proof {
        lemma_last_flag_range(all, "-vf"@, 1, all.len() - 1);
        assert(text::views(base@).len() == base@.len());
    }
    let ghost kept = text::views(base@);
    let ghost mapped = kept.drop_last() + seq!["-map"@, "[enc]"@].push(kept.last());
    let n: usize = base.len() - 1;
    let mut out: Vec<String> = Vec::new();
    assert(text::views(out@) =~= Seq::<Seq<char>>::empty());
    let ghost front = seq![mapped.first(), "-filter_complex"@, graph@];
    if n == 0 {
        add_arg(&mut out, "-map");
        add_arg(&mut out, "-filter_complex");
        add_arg(&mut out, graph.as_str());
        add_arg(&mut out, "[enc]");
        add_arg(&mut out, base[0].as_str());
        assert(text::views(out@) =~= front + mapped.drop_first());
    } else {
        add_arg(&mut out, base[0].as_str());
        add_arg(&mut out, "-filter_complex");
        add_arg(&mut out, graph.as_str());
        let mut i: usize = 1;
        while i < n
            invariant
                1 <= i <= n,
                n == base@.len() - 1,
                kept == text::views(base@),
                text::views(out@) == front + kept.subrange(1, i as int),
            decreases n - i,
        {
            add_arg(&mut out, base[i].as_str());
            i += 1;
            assert(kept.subrange(1, i as int) == kept.subrange(1, i - 1).push(kept[i - 1]));
        }
        add_arg(&mut out, "-map");
        add_arg(&mut out, "[enc]");
        add_arg(&mut out, base[n].as_str());
        assert(text::views(out@) =~= front + mapped.drop_first());
    }
    let ghost filtered = text::views(out@);
    add_arg(&mut out, "-map");
    add_arg(&mut out, "[visout]");
    add_arg(&mut out, "-an");
    add_arg(&mut out, "-pix_fmt");
    add_arg(&mut out, pixel_format);
    add_arg(&mut out, "-f");
    add_arg(&mut out, "rawvideo");
    add_arg(&mut out, sink);
    assert(text::views(out@) =~= filtered + seq![
        "-map"@,
        "[visout]"@,
        "-an"@,
        "-pix_fmt"@,
        pixel_format@,
        "-f"@,
        "rawvideo"@,
        sink@,
    ]);
    out
}

/// The value of a flag is what stands behind its last mention that has one.
pub proof fn law_the_last_mention_of_a_flag_counts(
    args: Seq<Seq<char>>,
    flag: Seq<char>,
    from: int,
    value: Seq<char>,
)
    requires
        0 <= from <= args.len(),
    ensures
        ({
            let i = flag_index(args, flag, from);
            &&& i == -1 || from <= i < args.len() - 1 && args[i] == flag
            &&& forall|j: int|
                from <= j < args.len() - 1 && #[trigger] args[j] == flag ==> 0 <= i && j <= i
            &&& i >= 0 ==> flag_value(args, flag, from) == Some(args[i + 1])
            &&& i < 0 ==> flag_value(args, flag, from) is None
        }),
        flag_value(args.push(flag).push(value), flag, from) == Some(value),
{
    lemma_last_flag(args, flag, from, args.len() - 1);
    let more = args.push(flag).push(value);
    assert(more[args.len() as int] == flag);
    assert(more[args.len() as int + 1] == value);
    assert(last_flag(more, flag, from, args.len() as int + 1) == args.len());
}

proof fn lemma_last_flag(args: Seq<Seq<char>>, flag: Seq<char>, from: int, n: int)
    requires
        0 <= from,
        n <= args.len(),
    ensures
        ({
            let i = last_flag(args, flag, from, n);
            &&& i == -1 || from <= i < n && args[i] == flag
            &&& forall|j: int| from <= j < n && #[trigger] args[j] == flag ==> 0 <= i && j <= i
        }),
    decreases n - from,
{
    if n > from && args[n - 1] != flag {
        lemma_last_flag(args, flag, from, n - 1);
    }
}

/// The injector runs the marker module with the given interpreter.
pub proof fn law_the_injector_runs_the_marker(python: Seq<char>)
    ensures
        injector(python) == shell::shell_quoted(python) + " -m ados.services.video.sei_injector"@,
        " -m ados.services.video.sei_injector"@.is_suffix_of(injector(python)),
{
    let i = injector(python);
    let t = " -m ados.services.video.sei_injector"@;
    assert(t =~= i.subrange(i.len() - t.len(), i.len() as int));
}

/// In a shell pipeline the injector comes in front of the last stage; the stages
/// before it and the last one stay.
pub proof fn law_a_pipeline_gets_the_injector_last(
    front: Seq<char>,
    last: Seq<char>,
    uri: Seq<char>,
    python: Seq<char>,
)
    requires
        !last.contains('|'),
    ensures
        spliced(seq!["bash"@, "-c"@, front + seq!['|'] + last], uri, python) == seq![
            "bash"@,
            "-c"@,
            text::trimmed_end(front) + " | "@ + injector(python) + " | "@ + text::trimmed_start(
                last,
            ),
        ],
        spliced(seq!["bash"@, "-c"@, last], uri, python) == seq!["bash"@, "-c"@, last],
{
    let line = front + seq!['|'] + last;
    assert forall|i: int| front.len() < i < line.len() implies #[trigger] line[i] != '|' by {
        assert(last.contains(last[i - front.len() - 1]));
    }
    text::lemma_last_is(line, '|', front.len() as int);
    assert(line.take(front.len() as int) =~= front);
    assert(line.skip(front.len() as int + 1) =~= last);
    assert forall|i: int| -1 < i < last.len() implies #[trigger] last[i] != '|' by {
        assert(last.contains(last[i]));
    }
    text::lemma_last_is(last, '|', -1);
}

/// A plain `ffmpeg` command that publishes becomes three stages: its encoding
/// half, the injector, and the half that publishes.
pub proof fn law_ffmpeg_is_split_around_the_injector(
    cmd: Seq<Seq<char>>,
    uri: Seq<char>,
    python: Seq<char>,
)
    requires
        cmd.len() > 0,
        cmd[0] == "ffmpeg"@,
    ensures
        publishable(uri) ==> spliced(cmd, uri, python) == seq![
            "bash"@,
            "-c"@,
            shell::shell_line(encode_half(cmd, uri)) + " | "@ + injector(python) + " | "@
                + shell::shell_line(publish_half(uri, ends_in_fanout(cmd, uri))),
        ],
        !publishable(uri) ==> spliced(cmd, uri, python) == cmd,
        "rtsp://"@.is_prefix_of(uri) ==> publishable(uri),
{
    reveal_strlit("ffmpeg");
    reveal_strlit("bash");
    assert("ffmpeg"@[0] == 'f' && "bash"@[0] == 'b');
}

/// The half that publishes copies what comes in on standard input, without
/// encoding it again, to where the command published.
pub proof fn law_the_publishing_half_copies(uri: Seq<char>, fanout: bool)
    ensures
        ({
            let p = publish_half(uri, fanout);
            &&& p[0] == "ffmpeg"@
            &&& p[7] == "-f"@ && p[8] == "h264"@
            &&& p[9] == "-i"@ && p[10] == "-"@
            &&& p[11] == "-c"@ && p[12] == "copy"@
            &&& p[13] == "-flush_packets"@ && p[14] == "1"@
            &&& p.skip(15) == command::output_stage(uri, fanout)
        }),
{
    assert(publish_half(uri, fanout).skip(15) =~= command::output_stage(uri, fanout));
}

/// The encoding half writes raw H.264 to standard output.
pub proof fn law_the_encoding_half_writes_to_the_pipe(cmd: Seq<Seq<char>>, uri: Seq<char>)
    ensures
        ({
            let e = encode_half(cmd, uri);
            e.len() >= 3 && e.skip(e.len() - 3) == seq!["-f"@, "h264"@, "-"@]
        }),
{
    let e = encode_half(cmd, uri);
    assert(e.skip(e.len() - 3) =~= seq!["-f"@, "h264"@, "-"@]);
}

/// The tap is carried exactly by a plain `ffmpeg` command that ends in its
/// destination and routes no streams of its own.
pub proof fn law_which_commands_carry_the_tap(cmd: Seq<Seq<char>>, output: Seq<char>)
    ensures
        can_carry_tap(cmd, output) <==> cmd.len() > 0 && cmd[0] == "ffmpeg"@ && cmd.last()
            == output && !cmd.contains("-map"@) && !cmd.contains("-filter_complex"@)
            && !cmd.contains("-filter:v"@),
{
    if can_carry_tap(cmd, output) {
        assert forall|i: int| 0 <= i < cmd.len() implies #[trigger] cmd[i] != "-map"@ && cmd[i]
            != "-filter_complex"@ && cmd[i] != "-filter:v"@ by {
            assert(!routes_streams(cmd[i]));
        }
    }
    if cmd.len() > 0 && !cmd.contains("-map"@) && !cmd.contains("-filter_complex"@)
        && !cmd.contains("-filter:v"@) {
        assert forall|i: int| 0 <= i < cmd.len() implies !routes_streams(#[trigger] cmd[i]) by {
            assert(cmd.contains(cmd[i]));
        }
    }
}

/// The graph splits the capture, behind its orientation where it has one, and
/// throttles and scales the branch of the tap alone.
pub proof fn law_the_graph_splits_the_capture(
    vf: Option<Seq<char>>,
    fps: u32,
    width: u32,
    height: u32,
)
    ensures
        tap_graph(None, fps, width, height) == "[0:v]split=2[enc][vis]"@ + ";[vis]fps="@
            + text::decimal(
            if fps == 0 {
                1
            } else {
                fps as nat
            },
        ) + ",scale="@ + text::decimal(width as nat) + ":"@ + text::decimal(height as nat)
            + "[visout]"@,
        vf is Some ==> tap_graph(vf, fps, width, height) == "[0:v]"@ + vf->0
            + ",split=2[enc][vis]"@ + ";[vis]fps="@ + text::decimal(
            if fps == 0 {
                1
            } else {
                fps as nat
            },
        ) + ",scale="@ + text::decimal(width as nat) + ":"@ + text::decimal(height as nat)
            + "[visout]"@,
        tap_graph(vf, 0, width, height) == tap_graph(vf, 1, width, height),
{
}

/// A command with the tap begins with the program and the graph, maps the
/// encoder branch into the destination that it had, and ends with the output of
/// the tap: raw frames of the given format into the sink.
pub proof fn law_where_the_tap_stands(
    cmd: Seq<Seq<char>>,
    fps: u32,
    width: u32,
    height: u32,
    pixel_format: Seq<char>,
    sink: Seq<char>,
)
    requires
        cmd.len() >= 2,
        flag_index(cmd, "-vf"@, 1) < 0,
    ensures
        ({
            let t = with_tap(cmd, fps, width, height, pixel_format, sink);
            let n = t.len() as int;
            &&& n == cmd.len() + 12
            &&& t[0] == cmd[0]
            &&& t[1] == "-filter_complex"@
            &&& t[2] == tap_graph(None, fps, width, height)
            &&& t.subrange(3, cmd.len() as int + 1) == cmd.subrange(1, cmd.len() - 1)
            &&& t.subrange(cmd.len() as int + 1, n - 8) == seq!["-map"@, "[enc]"@, cmd.last()]
            &&& t.skip(n - 8) == seq![
                "-map"@,
                "[visout]"@,
                "-an"@,
                "-pix_fmt"@,
                pixel_format,
                "-f"@,
                "rawvideo"@,
                sink,
            ]
        }),
{
    let t = with_tap(cmd, fps, width, height, pixel_format, sink);
    let n = t.len() as int;
    assert(t.subrange(3, cmd.len() as int + 1) =~= cmd.subrange(1, cmd.len() - 1));
    assert(t.subrange(cmd.len() as int + 1, n - 8) =~= seq!["-map"@, "[enc]"@, cmd.last()]);
    assert(t.skip(n - 8) =~= seq![
        "-map"@,
        "[visout]"@,
        "-an"@,
        "-pix_fmt"@,
        pixel_format,
        "-f"@,
        "rawvideo"@,
        sink,
    ]);
}

/// A command that cannot carry the tap stays as it is.
pub proof fn law_other_commands_stay(
    cmd: Seq<Seq<char>>,
    output: Seq<char>,
    fps: u32,
    width: u32,
    height: u32,
    pixel_format: Seq<char>,
    sink: Seq<char>,
)
    ensures
        !can_carry_tap(cmd, output) ==> tapped(cmd, output, fps, width, height, pixel_format, sink)
            == cmd,
        can_carry_tap(cmd, output) ==> tapped(cmd, output, fps, width, height, pixel_format, sink)
            == with_tap(cmd, fps, width, height, pixel_format, sink),
{
}

/// An argument that chooses the muxer of an output, or tunes it.
pub open spec fn is_output_flag(arg: Seq<char>) -> bool {
    arg == "-f"@ || arg == "-map"@ || arg == "-rtsp_transport"@ || arg == "-muxpreload"@ || arg
        == "-muxdelay"@ || arg == "-max_delay"@
}

/// What is left of a command that is split is exactly what reads and encodes:
/// its destination and all that chooses or tunes the muxer are gone, with or
/// without the copy for the radio, and raw H.264 goes to the pipe instead.
pub proof fn law_the_encoding_half_is_what_encodes(
    front: Seq<Seq<char>>,
    k: int,
    uri: Seq<char>,
    fanout: bool,
)
    requires
        "rtsp://"@.is_prefix_of(uri),
        1 <= k < front.len() - 1,
        front[k] == "-i"@,
        forall|j: int| k < j < front.len() ==> #[trigger] front[j] != "-i"@,
        forall|j: int| k + 2 <= j < front.len() ==> !is_output_flag(#[trigger] front[j]),
    ensures
        encode_half(front + command::output_stage(uri, fanout), uri) == front + seq![
            "-f"@,
            "h264"@,
            "-"@,
        ],
{
    let cmd = front + command::output_stage(uri, fanout);
    lemma_input_ends_behind(front, k, uri, fanout);
    if fanout {
        lemma_tee_goes(front, k + 2, uri);
    } else {
        lemma_publish_goes(front, k + 2, uri);
    }
    lemma_strip_goes(front, k + 2);
    assert(front.push("-f"@).push("h264"@).push("-"@) =~= front + seq!["-f"@, "h264"@, "-"@]);
}

/// What strips the muxer's delay.
spec fn strip_flags() -> Seq<Seq<char>> {
    seq!["-max_delay"@, "0"@, "-muxdelay"@, "0"@, "-muxpreload"@, "0"@]
}

/// The input of a command ends behind its last `-i`: an output has none.
proof fn lemma_input_ends_behind(front: Seq<Seq<char>>, k: int, uri: Seq<char>, fanout: bool)
    requires
        "rtsp://"@.is_prefix_of(uri),
        1 <= k < front.len() - 1,
        front[k] == "-i"@,
        forall|j: int| k < j < front.len() ==> #[trigger] front[j] != "-i"@,
    ensures
        input_end(front + command::output_stage(uri, fanout)) == k + 2,
{
    lemma_output_literals();
    let stage = command::output_stage(uri, fanout);
    let cmd = front + stage;
    let n = front.len() as int;
    lemma_last_flag(cmd, "-i"@, 1, cmd.len() - 1);
    assert(cmd[k] == "-i"@);
    assert forall|j: int| 0 <= j < stage.len() - 1 implies #[trigger] stage[j] != "-i"@ by {}
    assert forall|j: int| k < j < cmd.len() - 1 implies #[trigger] cmd[j] != "-i"@ by {
        if j < n {
            assert(cmd[j] == front[j]);
        } else {
            assert(cmd[j] == stage[j - n]);
        }
    }
}

/// Behind the radio copy, the tee and its map go.
proof fn lemma_tee_goes(front: Seq<Seq<char>>, from: int, uri: Seq<char>)
    requires
        "rtsp://"@.is_prefix_of(uri),
        0 <= from <= front.len(),
        input_end(front + command::output_stage(uri, true)) == from,
        forall|j: int| from <= j < front.len() ==> !is_output_flag(#[trigger] front[j]),
    ensures
        ({
            let cmd = front + command::output_stage(uri, true);
            &&& ends_in_fanout(cmd, uri)
            &&& without_flag(
                without_flag(without_flag(without_destination(cmd, uri), "-f"@, from), "-map"@, from),
                "-rtsp_transport"@,
                from,
            ) == front + strip_flags()
        }),
{
    lemma_output_literals();
    let cmd = front + command::output_stage(uri, true);
    let base = front + strip_flags();
    let mapped = base + seq!["-map"@, "0:v"@];
    let all = mapped + seq!["-f"@, "tee"@];
    assert(cmd =~= all.push(command::tee_branches(uri)));
    lemma_tee_carries(uri);
    assert(cmd.last() == command::tee_branches(uri));
    assert(cmd.drop_last() =~= all);
    lemma_pair_goes(mapped, "-f"@, "tee"@, from);
    lemma_pair_goes(base, "-map"@, "0:v"@, from);
    lemma_flag_absent(front, strip_flags(), "-rtsp_transport"@, from);
}

/// Without it, the publish and its transport go.
proof fn lemma_publish_goes(front: Seq<Seq<char>>, from: int, uri: Seq<char>)
    requires
        "rtsp://"@.is_prefix_of(uri),
        0 <= from <= front.len(),
        input_end(front + command::output_stage(uri, false)) == from,
    ensures
        ({
            let cmd = front + command::output_stage(uri, false);
            &&& !ends_in_fanout(cmd, uri)
            &&& without_flag(
                without_flag(without_destination(cmd, uri), "-f"@, from),
                "-rtsp_transport"@,
                from,
            ) == front + strip_flags()
        }),
{
    let cmd = front + command::output_stage(uri, false);
    let base = front + strip_flags();
    let carried = base + seq!["-rtsp_transport"@, "tcp"@];
    let all = carried + seq!["-f"@, "rtsp"@];
    assert(cmd =~= all.push(uri));
    lemma_no_tee(uri);
    assert(cmd.last() == uri);
    assert(cmd.drop_last() =~= all);
    lemma_pair_goes(carried, "-f"@, "rtsp"@, from);
    lemma_pair_goes(base, "-rtsp_transport"@, "tcp"@, from);
}

/// What strips the delay goes pair by pair.
proof fn lemma_strip_goes(front: Seq<Seq<char>>, from: int)
    requires
        0 <= from <= front.len(),
    ensures
        without_flag(
            without_flag(
                without_flag(front + strip_flags(), "-muxpreload"@, from),
                "-muxdelay"@,
                from,
            ),
            "-max_delay"@,
            from,
        ) == front,
{
    let a = front + seq!["-max_delay"@, "0"@];
    let b = a + seq!["-muxdelay"@, "0"@];
    assert(front + strip_flags() =~= b + seq!["-muxpreload"@, "0"@]);
    lemma_pair_goes(b, "-muxpreload"@, "0"@, from);
    lemma_pair_goes(a, "-muxdelay"@, "0"@, from);
    lemma_pair_goes(front, "-max_delay"@, "0"@, from);
}

/// A pair at the end of the arguments is the one that goes.
proof fn lemma_pair_goes(s: Seq<Seq<char>>, flag: Seq<char>, value: Seq<char>, from: int)
    requires
        0 <= from <= s.len(),
    ensures
        without_flag(s + seq![flag, value], flag, from) == s,
{
    let all = s + seq![flag, value];
    assert(all[s.len() as int] == flag);
    assert(last_flag(all, flag, from, s.len() as int + 1) == s.len());
    assert(all.take(s.len() as int) + all.skip(s.len() as int + 2) =~= s);
}

/// A flag that is not among the arguments takes nothing away.
proof fn lemma_flag_absent(
    front: Seq<Seq<char>>,
    strip: Seq<Seq<char>>,
    flag: Seq<char>,
    from: int,
)
    requires
        0 <= from <= front.len(),
        forall|j: int| from <= j < front.len() ==> #[trigger] front[j] != flag,
        forall|j: int| 0 <= j < strip.len() ==> #[trigger] strip[j] != flag,
    ensures
        without_flag(front + strip, flag, from) == front + strip,
{
    let all = front + strip;
    lemma_last_flag(all, flag, from, all.len() - 1);
    assert forall|j: int| from <= j < all.len() implies #[trigger] all[j] != flag by {
        if j < front.len() {
            assert(all[j] == front[j]);
        } else {
            assert(all[j] == strip[j - front.len()]);
        }
    }
}

/// The tee of an output begins as one and carries the output.
proof fn lemma_tee_carries(uri: Seq<char>)
    ensures
        "[f="@.is_prefix_of(command::tee_branches(uri)),
        text::holds(command::tee_branches(uri), uri),
{
    reveal_strlit("[f=");
    reveal_strlit("[f=rtsp:rtsp_transport=tcp:max_delay=0:flush_packets=1]");
    let t = command::tee_branches(uri);
    let head = "[f=rtsp:rtsp_transport=tcp:max_delay=0:flush_packets=1]"@;
    assert("[f="@ =~= t.subrange(0, 3));
    let n = head.len() as int;
    assert(t.subrange(n, n + uri.len()) =~= uri);
    assert(text::occurs_at(t, uri, n));
}

/// An RTSP address is no tee.
proof fn lemma_no_tee(uri: Seq<char>)
    requires
        "rtsp://"@.is_prefix_of(uri),
    ensures
        !"[f="@.is_prefix_of(uri),
{
    reveal_strlit("[f=");
    reveal_strlit("rtsp://");
    assert(uri.subrange(0, 7)[0] == uri[0]);
    if "[f="@.is_prefix_of(uri) {
        assert(uri.subrange(0, 3)[0] == uri[0]);
    }
}

proof fn lemma_output_literals()
    ensures
        "-i"@ != "-f"@ && "-i"@ != "-map"@ && "-i"@ != "-rtsp_transport"@ && "-i"@
            != "-muxpreload"@ && "-i"@ != "-muxdelay"@ && "-i"@ != "-max_delay"@ && "-i"@ != "0"@
            && "-i"@ != "tcp"@ && "-i"@ != "rtsp"@ && "-i"@ != "0:v"@ && "-i"@ != "tee"@,
        "-rtsp_transport"@ != "-max_delay"@ && "-rtsp_transport"@ != "-muxdelay"@
            && "-rtsp_transport"@ != "-muxpreload"@ && "-rtsp_transport"@ != "0"@,
{
    reveal_strlit("-i");
    reveal_strlit("-f");
    reveal_strlit("-map");
    reveal_strlit("-rtsp_transport");
    reveal_strlit("-muxpreload");
    reveal_strlit("-muxdelay");
    reveal_strlit("-max_delay");
    reveal_strlit("0");
    reveal_strlit("tcp");
    reveal_strlit("rtsp");
    reveal_strlit("0:v");
    reveal_strlit("tee");
    assert("-i"@[1] == 'i' && "-f"@[1] == 'f' && "-i"@.len() == 2 && "-f"@.len() == 2);
    assert("-map"@.len() == 4 && "-rtsp_transport"@.len() == 15 && "-muxpreload"@.len() == 11
        && "-muxdelay"@.len() == 9 && "-max_delay"@.len() == 10 && "0"@.len() == 1 && "tcp"@.len()
        == 3 && "rtsp"@.len() == 4 && "0:v"@.len() == 3 && "tee"@.len() == 3);
}

/// The destination is taken off only where it stands at the end, behind the
/// input; any other command keeps its end.
pub proof fn law_only_the_destination_is_taken_off(cmd: Seq<Seq<char>>, uri: Seq<char>)
    ensures
        cmd.len() > input_end(cmd) && cmd.last() == uri ==> without_destination(cmd, uri)
            == cmd.drop_last(),
        cmd.len() > 0 && cmd.last() != uri && !"[f="@.is_prefix_of(cmd.last())
            ==> without_destination(cmd, uri) == cmd,
        cmd.len() <= input_end(cmd) ==> without_destination(cmd, uri) == cmd,
        ends_in_fanout(cmd, uri) <==> cmd.len() > 0 && "[f="@.is_prefix_of(cmd.last())
            && text::holds(cmd.last(), uri),
{
}

} // verus!
