//! The vision tap, the recorder, the orphan sweep and the stderr drain.
use ados_media::process::{cmdline_publishes_to, cmdline_text, orphan_pids};
use ados_media::recorder::{
    check_start, check_stop, filename_at, generate_filename, http_status, now_iso8601,
    recording_args, stamp_or, with_utc_offset, Capture, GroundStationRecorder, RecorderError,
    StartCheck, StartStep, MIN_FREE_BYTES,
};
use ados_media::stderr_drain::{
    line_text, push_bounded, DrainLimiter, LineBuffer, DRAIN_MAX_LINES_PER_WINDOW, DRAIN_WINDOW,
    MAX_LINE_BYTES,
};
use ados_media::tap::{
    frame_format_from_str, frame_size_bytes, local_path_url, local_rtsp_url, tap_server_step,
    vision_tap_args, FrameFormat, TapAction, TapEvent, VISION_TAP_PROGRESS_TIMEOUT,
};

const SEC: u64 = 1_000_000_000;

#[test]
fn vision_tap_args_decoupled_shape() {
    let rtsp_in = local_rtsp_url(8554);
    assert_eq!(rtsp_in, "rtsp://localhost:8554/main");

    let got = vision_tap_args(&rtsp_in, 10, 640, 480, "rgb24");
    let expected: Vec<String> = [
        "-fflags",
        "nobuffer",
        "-flags",
        "low_delay",
        "-rtsp_transport",
        "tcp",
        "-i",
        "rtsp://localhost:8554/main",
        "-an",
        "-vf",
        "fps=10,scale=640:480",
        "-pix_fmt",
        "rgb24",
        "-f",
        "rawvideo",
        "-progress",
        "pipe:2",
        "pipe:1",
    ]
    .iter()
    .map(|s| s.to_string())
    .collect();
    assert_eq!(got, expected);
}

#[test]
fn vision_tap_args_honours_format_and_geometry() {
    let got = vision_tap_args("rtsp://localhost:8554/main", 5, 1280, 720, "nv12");
    let vf = got.iter().position(|t| t == "-vf").unwrap();
    assert_eq!(got[vf + 1], "fps=5,scale=1280:720");
    let pf = got.iter().position(|t| t == "-pix_fmt").unwrap();
    assert_eq!(got[pf + 1], "nv12");
    assert!(got.iter().any(|t| t == "rawvideo"));
    assert!(!got.iter().any(|t| t == "copy"));
    assert_eq!(got.last().unwrap(), "pipe:1");
}

#[test]
fn vision_tap_args_floors_fps_at_one() {
    let got = vision_tap_args("rtsp://localhost:8554/main", 0, 640, 480, "rgb24");
    let vf = got.iter().position(|t| t == "-vf").unwrap();
    assert_eq!(got[vf + 1], "fps=1,scale=640:480");
}

#[test]
fn frame_size_matches_pixel_format() {
    assert_eq!(
        frame_size_bytes(FrameFormat::Rgb24, 640, 480),
        640 * 480 * 3
    );
    assert_eq!(
        frame_size_bytes(FrameFormat::Nv12, 640, 480),
        640 * 480 * 3 / 2
    );
    assert_eq!(
        frame_size_bytes(FrameFormat::Yuv420p, 1280, 720),
        1280 * 720 * 3 / 2
    );
    assert_eq!(frame_size_bytes(FrameFormat::Nv12, 1, 1), 1);
}

#[test]
fn format_string_maps_with_rgb24_fallback() {
    assert_eq!(frame_format_from_str("rgb24"), FrameFormat::Rgb24);
    assert_eq!(frame_format_from_str("nv12"), FrameFormat::Nv12);
    assert_eq!(frame_format_from_str("yuv420p"), FrameFormat::Yuv420p);
    assert_eq!(frame_format_from_str("bogus"), FrameFormat::Rgb24);
}

#[test]
fn progress_timeout_matches_wfb_floor() {
    assert_eq!(VISION_TAP_PROGRESS_TIMEOUT, 15 * SEC);
}

#[test]
fn the_tap_outlives_a_bad_engine() {
    assert_eq!(
        tap_server_step(false, TapEvent::Connected),
        (true, TapAction::Adopt)
    );
    assert_eq!(
        tap_server_step(true, TapEvent::FrameReady),
        (true, TapAction::Forward)
    );
    assert_eq!(tap_server_step(false, TapEvent::FrameReady).1, TapAction::Idle);
    assert_eq!(
        tap_server_step(true, TapEvent::WriteFailed),
        (false, TapAction::DropEngine)
    );
    assert_eq!(tap_server_step(true, TapEvent::AcceptFailed).1, TapAction::Stop);
    assert_eq!(tap_server_step(true, TapEvent::WriteDone).1, TapAction::Idle);
    assert_eq!(tap_server_step(true, TapEvent::SourceEnded).1, TapAction::Stop);
}

#[test]
fn paths_have_their_own_address() {
    assert_eq!(local_path_url(8554, "ir"), "rtsp://localhost:8554/ir");
}

// --- the recorder -----------------------------------------------------------

#[test]
fn filename_has_no_hint_when_absent() {
    let name = generate_filename(None);
    assert!(name.ends_with(".mp4"));
    assert!(!name.trim_end_matches(".mp4").contains('_'));
}

#[test]
fn filename_appends_a_sanitised_hint() {
    let name = generate_filename(Some("test flight!@#"));
    assert!(name.ends_with("_testflight.mp4"), "got {name}");
}

#[test]
fn filename_keeps_dash_and_underscore_in_the_hint() {
    let name = generate_filename(Some("pipe-run_2"));
    assert!(name.ends_with("_pipe-run_2.mp4"), "got {name}");
}

#[test]
fn filename_drops_a_hint_that_sanitises_to_empty() {
    let name = generate_filename(Some("!!!"));
    assert!(name.ends_with(".mp4"));
    assert!(!name.trim_end_matches(".mp4").contains('_'));
}

#[test]
fn filename_truncates_a_long_hint_to_48_chars() {
    let long = "a".repeat(100);
    let name = generate_filename(Some(&long));
    let hint = name
        .trim_end_matches(".mp4")
        .rsplit('_')
        .next()
        .unwrap_or("");
    assert_eq!(hint.len(), 48);
}

#[test]
fn filenames_are_the_stamp_and_the_hint() {
    assert_eq!(filename_at("S", None), "S.mp4");
    assert_eq!(filename_at("S", Some("a/../b c")), "S_abc.mp4");
    assert_eq!(filename_at("S", Some("é")), "S.mp4");
    assert_eq!(stamp_or(None, "f"), "f");
    assert_eq!(stamp_or(Some("s".into()), "f"), "s");
}

#[test]
fn the_stamp_is_a_time_of_the_clock() {
    let name = generate_filename(None);
    let stamp = name.trim_end_matches(".mp4");
    assert_eq!(stamp.len(), "2026-05-29T12-00-00".len(), "got {stamp}");
    assert!(stamp.starts_with("20"), "got {stamp}");
    for (i, c) in stamp.chars().enumerate() {
        match i {
            4 | 7 | 13 | 16 => assert_eq!(c, '-', "got {stamp}"),
            10 => assert_eq!(c, 'T', "got {stamp}"),
            _ => assert!(c.is_ascii_digit(), "got {stamp}"),
        }
    }
}

#[test]
fn iso8601_renders_a_utc_offset_not_a_z() {
    let s = now_iso8601();
    assert!(s.ends_with("+00:00"), "got {s}");
    assert!(!s.ends_with('Z'));
}

#[test]
fn the_time_has_the_form_of_its_standard() {
    let s = now_iso8601();
    let stem = s.trim_end_matches("+00:00");
    assert_eq!(stem.len() + 6, s.len());
    for (i, c) in stem.chars().enumerate() {
        match i {
            4 | 7 => assert_eq!(c, '-', "got {s}"),
            10 => assert_eq!(c, 'T', "got {s}"),
            13 | 16 => assert_eq!(c, ':', "got {s}"),
            19 => assert_eq!(c, '.', "got {s}"),
            _ => assert!(c.is_ascii_digit(), "got {s}"),
        }
    }
}

#[test]
fn a_file_name_separates_no_directories() {
    let name = generate_filename(Some("../../etc/pass:wd"));
    assert!(name.ends_with("_etcpasswd.mp4"), "got {name}");
    assert!(name
        .chars()
        .all(|c| c.is_ascii_alphanumeric() || "-_+.".contains(c)));
}

#[test]
fn only_a_trailing_z_becomes_an_offset() {
    assert_eq!(with_utc_offset("2026-01-01T00:00:00Z"), "2026-01-01T00:00:00+00:00");
    assert_eq!(with_utc_offset("Zx"), "Zx");
    assert_eq!(with_utc_offset(""), "");
}

#[test]
fn stop_when_idle_is_not_active_error() {
    let err = check_stop(false).unwrap_err();
    assert_eq!(err.code, "E_RECORDING_NOT_ACTIVE");
    assert_eq!(err.message, "no recording is currently active");
    assert!(check_stop(true).is_ok());
}

#[test]
fn start_without_ffmpeg_is_ffmpeg_not_found() {
    let err = check_start(&StartCheck::Installed(false)).unwrap_err();
    assert_eq!(err.code, "E_FFMPEG_NOT_FOUND");
    assert!(check_start(&StartCheck::Installed(true)).is_ok());
}

#[test]
fn every_step_of_a_start_can_refuse() {
    let code = |c: StartCheck| check_start(&c).err().map(|e| e.code);
    assert_eq!(code(StartCheck::Active(true)).as_deref(), Some("E_RECORDING_ACTIVE"));
    assert_eq!(code(StartCheck::Active(false)), None);
    assert_eq!(
        code(StartCheck::Directory(Some("denied".into()))).as_deref(),
        Some("E_RECORDING_DIR_UNWRITABLE")
    );
    assert_eq!(code(StartCheck::Directory(None)), None);
    assert_eq!(
        code(StartCheck::Space(Some(MIN_FREE_BYTES - 1))).as_deref(),
        Some("E_DISK_FULL")
    );
    assert_eq!(code(StartCheck::Space(Some(MIN_FREE_BYTES))), None);
    assert_eq!(code(StartCheck::Space(None)), None);
    assert_eq!(
        code(StartCheck::Spawned(Err("no exec".into()))).as_deref(),
        Some("E_RECORDER_SPAWN_FAILED")
    );
    assert_eq!(code(StartCheck::Spawned(Ok(capture()))), None);
}

fn capture() -> Capture {
    Capture {
        filename: "S.mp4".into(),
        path: "/r/S.mp4".into(),
        started_at: 3 * SEC,
    }
}

#[test]
fn a_recording_starts_step_by_step_and_stops() {
    let mut r = GroundStationRecorder::new();
    assert_eq!(r.current_filename(), None);
    assert_eq!(r.start(StartCheck::Active(false), None), Ok(StartStep::FindProgram));
    assert_eq!(r.start(StartCheck::Installed(true), None), Ok(StartStep::MakeDirectory));
    assert_eq!(r.start(StartCheck::Directory(None), None), Ok(StartStep::MeasureSpace));
    match r.start(StartCheck::Space(None), Some("my hint")) {
        Ok(StartStep::Spawn(name)) => assert!(name.ends_with("_myhint.mp4"), "got {name}"),
        other => panic!("{other:?}"),
    }
    let failed = r.start(StartCheck::Spawned(Err("no exec".into())), None).unwrap_err();
    assert_eq!(failed.line(), "E_RECORDER_SPAWN_FAILED: failed to spawn ffmpeg: no exec");
    assert_eq!(r.current_filename(), None);
    match r.start(StartCheck::Spawned(Ok(capture())), None) {
        Ok(StartStep::Started(_)) => {}
        other => panic!("{other:?}"),
    }
    assert_eq!(r.current_filename().as_deref(), Some("S.mp4"));
    let busy = r.start(StartCheck::Active(true), None).unwrap_err();
    assert_eq!(busy.code, "E_RECORDING_ACTIVE");
    assert_eq!(r.current_filename().as_deref(), Some("S.mp4"));
    assert_eq!(r.stop(5 * SEC), ("S.mp4".to_string(), 2 * SEC));
    assert_eq!(r.current_filename(), None);
    assert_eq!(r.stop(9 * SEC), ("unknown.mp4".to_string(), 0));
}

#[test]
fn errors_have_a_line_and_a_status() {
    let e = RecorderError::new("E_X", "went wrong");
    assert_eq!(e.line(), "E_X: went wrong");
    assert_eq!(http_status("E_RECORDING_ACTIVE"), 409);
    assert_eq!(http_status("E_RECORDING_NOT_ACTIVE"), 409);
    assert_eq!(http_status("E_FFMPEG_NOT_FOUND"), 503);
    assert_eq!(http_status("E_DISK_FULL"), 507);
    assert_eq!(http_status("E_OTHER"), 503);
}

#[test]
fn recordings_are_stream_copies() {
    let got = recording_args("rtsp://h/main", "/r/x.mp4");
    assert!(got.windows(2).any(|w| w[0] == "-i" && w[1] == "rtsp://h/main"));
    assert!(got.windows(2).any(|w| w[0] == "-c" && w[1] == "copy"), "{got:?}");
    assert_eq!(got.last().unwrap(), "/r/x.mp4");
}

// --- the orphan sweep ---------------------------------------------------------

#[test]
fn an_unrecognised_shape_is_treated_as_a_reader() {
    let uri = "rtsp://localhost:8554/main";
    for line in [
        format!("some-viewer --url {uri}"),
        format!("some-viewer --source {uri} --out /tmp/x"),
        format!("ffmpeg -f rtsp -i {uri} -f null -"),
        format!("python3 -m thing --stream {uri}"),
    ] {
        assert!(!cmdline_publishes_to(&line, uri), "must be spared: {line}");
    }
    assert!(cmdline_publishes_to(
        &format!("ffmpeg -i /dev/video0 -f rtsp -rtsp_transport tcp {uri}"),
        uri
    ));
    assert!(cmdline_publishes_to(
        &format!("gst-launch-1.0 -e v4l2src ! rtspclientsink location={uri} protocols=tcp"),
        uri
    ));
}

#[test]
fn listings_yield_other_processes() {
    assert_eq!(orphan_pids("12\n7\n  9 \nx\n\n", 7), vec![12, 9]);
    assert!(orphan_pids("", 7).is_empty());
}

#[test]
fn command_lines_are_joined_by_blanks() {
    assert_eq!(cmdline_text("ffmpeg\0-i\0x\0").as_deref(), Some("ffmpeg -i x"));
    assert_eq!(cmdline_text(""), None);
}

// --- the stderr drain -----------------------------------------------------------

/// The lines that a stream splits into, with the tail.
fn lines_of(mut stream: &[u8]) -> Vec<Vec<u8>> {
    let mut buffer = LineBuffer::new();
    let mut out = Vec::new();
    while !stream.is_empty() {
        let (used, complete) = buffer.feed(stream);
        if complete {
            out.push(buffer.take_line());
        }
        stream = &stream[used..];
    }
    if let Some(tail) = buffer.finish() {
        out.push(tail);
    }
    out
}

#[test]
fn a_child_dying_in_its_first_window_still_reports_what_it_suppressed() {
    let over = DRAIN_MAX_LINES_PER_WINDOW + 12;
    let mut limiter = DrainLimiter::new(0);
    for i in 0..over {
        limiter.on_line(&format!("boom{i}"), 0);
    }
    let (stats, summary) = limiter.finish(SEC);
    assert_eq!(stats.logged, DRAIN_MAX_LINES_PER_WINDOW);
    assert!(stats.suppressed > 0);
    assert_eq!(stats.logged + stats.suppressed, over);
    let summary = summary.expect("the overflow is reported");
    assert_eq!(summary.count, 12);
    assert_eq!(summary.last_line, "boom16");
}

#[test]
fn carriage_return_status_lines_are_split_and_every_line_is_bounded() {
    let mut stream = Vec::new();
    for i in 0..2000 {
        stream.extend_from_slice(format!("frame={i} fps=30 q=23.0 size=1kB   \r").as_bytes());
    }
    stream.extend(std::iter::repeat_n(b'x', 1 << 20));
    let lines = lines_of(&stream);
    let longest = lines.iter().map(Vec::len).max().unwrap();
    assert_eq!(lines.len(), 2001);
    assert!(longest <= MAX_LINE_BYTES, "a line is capped, got {longest}");
}

#[test]
fn a_flood_is_rate_limited_by_window() {
    let mut limiter = DrainLimiter::new(0);
    let mut logged = 0;
    for i in 0..30 {
        let v = limiter.on_line(&format!("diag line {i}"), 0).unwrap();
        assert!(v.summary.is_none());
        logged += u32::from(v.log);
    }
    assert_eq!(logged, DRAIN_MAX_LINES_PER_WINDOW);
    let v = limiter.on_line("later", DRAIN_WINDOW).unwrap();
    assert!(v.log);
    let s = v.summary.expect("the window closed on a flood");
    assert_eq!(s.count, 30 - DRAIN_MAX_LINES_PER_WINDOW);
    assert_eq!(s.last_line, "diag line 29");
    assert!(limiter.on_line("   ", DRAIN_WINDOW).is_none());
}

#[test]
fn every_line_is_logged_or_counted_over_all_windows() {
    let mut limiter = DrainLimiter::new(0);
    for i in 0..6 {
        limiter.on_line(&format!("line {i}"), 0);
    }
    limiter.on_line("  \t", 0);
    assert!(limiter.on_line("next window", DRAIN_WINDOW).unwrap().log);
    let (stats, summary) = limiter.finish(DRAIN_WINDOW + SEC);
    assert_eq!((stats.logged, stats.suppressed), (6, 1));
    assert!(summary.is_none());
}

#[test]
fn the_text_of_a_line_is_bounded_too() {
    assert_eq!(line_text(b"plain"), "plain");
    assert_eq!(line_text(b"a\xffb"), "a\u{fffd}b");
    let long = line_text(&vec![0xff; MAX_LINE_BYTES]);
    assert_eq!(long.len(), MAX_LINE_BYTES - MAX_LINE_BYTES % 3);
    assert_eq!(line_text(&vec![b'x'; MAX_LINE_BYTES]).len(), MAX_LINE_BYTES);
    let wide = "é".repeat(MAX_LINE_BYTES / 2);
    assert_eq!(line_text(wide.as_bytes()), wide);
}

#[test]
fn a_stream_is_its_pieces_and_its_rest() {
    let pieces: Vec<Vec<u8>> = vec![b"a".to_vec(), b"".to_vec(), b"bc".to_vec(), b"d".to_vec()];
    assert_eq!(lines_of(b"a\r\nbc\rd"), pieces);
    assert_eq!(lines_of(b"a\r\nbc\rd\n"), pieces);
    assert!(lines_of(b"").is_empty());
    let mut buffer = LineBuffer::new();
    let mut out = Vec::new();
    for read in [&b"a"[..], b"\r", b"\nb", b"c\rd"] {
        let mut rest = read;
        while !rest.is_empty() {
            let (used, complete) = buffer.feed(rest);
            if complete {
                out.push(buffer.take_line());
            }
            rest = &rest[used..];
        }
    }
    out.extend(buffer.finish());
    assert_eq!(out, pieces);
    assert!(buffer.finish().is_none());
}

#[test]
fn lines_are_the_same_however_they_arrive() {
    let mut a = Vec::new();
    push_bounded(&mut a, b"hello ");
    push_bounded(&mut a, b"world");
    let mut b = Vec::new();
    push_bounded(&mut b, b"hello world");
    assert_eq!(a, b);
    push_bounded(&mut a, &vec![b'x'; 2 * MAX_LINE_BYTES]);
    assert_eq!(a.len(), MAX_LINE_BYTES);
    assert_eq!(lines_of(b"a\nb\rc"), vec![b"a".to_vec(), b"b".to_vec(), b"c".to_vec()]);
}
