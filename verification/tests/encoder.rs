//! The encoder commands: whole argument vectors, and what every one of them
//! must hold.
use ados_media::command::{build_encoder_command, V4L2M2M_MIN_QP};
use ados_media::encoder::{
    detect_encoder_for_camera, encoder_is_hardware, encoder_label, gop_interval,
    select_input_format, soc_is_pi5_class, validate_source, CameraInfo, CameraType, EncoderEnv,
    EncoderError, EncoderKind, EncoderParams, HwEncoder,
};
use ados_media::shell::shell_quote;
use ados_media::splice::{augment_encoder_with_raw_tap, wrap_with_sei_inject};

const PY_EXE: &str = "/opt/ados/venv/bin/python3";
const RTSP_OUT: &str = "rtsp://127.0.0.1:8554/main";
const UDP_OUT: &str = "udp://127.0.0.1:5600";

fn csi() -> CameraInfo {
    CameraInfo {
        camera_type: CameraType::Csi,
        device_path: "/dev/video0".into(),
        capabilities: vec!["h264".into(), "mjpeg".into()],
    }
}
fn usb_mjpeg() -> CameraInfo {
    CameraInfo {
        camera_type: CameraType::Usb,
        device_path: "/dev/video1".into(),
        capabilities: vec!["mjpeg".into(), "yuyv".into()],
    }
}
fn usb_yuyv() -> CameraInfo {
    CameraInfo {
        camera_type: CameraType::Usb,
        device_path: "/dev/video2".into(),
        capabilities: vec!["yuyv".into()],
    }
}
fn ip_cam() -> CameraInfo {
    CameraInfo {
        camera_type: CameraType::Ip,
        device_path: "rtsp://10.0.0.9:554/live".into(),
        capabilities: vec!["rtsp".into()],
    }
}

fn hw_present() -> HwEncoder {
    HwEncoder::Present
}

fn hw_node_missing() -> HwEncoder {
    HwEncoder::Absent
}

const FIXTURE_CPUS: u32 = 4;

fn rockchip() -> EncoderEnv {
    EncoderEnv {
        hw_h264: hw_node_missing(),
        has_mpph264enc: false,
        has_omxh264videoenc: false,
        has_rtspclientsink: true,
        encoder_api: "unknown".into(),
        pi5_class: false,
        python_executable: PY_EXE.into(),
        cpu_threads: FIXTURE_CPUS,
    }
}
fn non_rk_sw() -> EncoderEnv {
    EncoderEnv {
        hw_h264: hw_node_missing(),
        has_mpph264enc: false,
        has_omxh264videoenc: false,
        has_rtspclientsink: true,
        encoder_api: "unknown".into(),
        pi5_class: false,
        python_executable: PY_EXE.into(),
        cpu_threads: FIXTURE_CPUS,
    }
}
fn non_rk_hw() -> EncoderEnv {
    EncoderEnv {
        hw_h264: hw_present(),
        has_mpph264enc: false,
        has_omxh264videoenc: false,
        has_rtspclientsink: true,
        encoder_api: "unknown".into(),
        pi5_class: false,
        python_executable: PY_EXE.into(),
        cpu_threads: FIXTURE_CPUS,
    }
}
fn rk_mpp() -> EncoderEnv {
    EncoderEnv {
        hw_h264: hw_node_missing(),
        has_mpph264enc: true,
        has_omxh264videoenc: false,
        has_rtspclientsink: true,
        encoder_api: "rkmpp".into(),
        pi5_class: false,
        python_executable: PY_EXE.into(),
        cpu_threads: FIXTURE_CPUS,
    }
}
fn rk_mpp_noclient() -> EncoderEnv {
    EncoderEnv {
        has_rtspclientsink: false,
        ..rk_mpp()
    }
}
fn allwinner_omx() -> EncoderEnv {
    EncoderEnv {
        hw_h264: hw_node_missing(),
        has_mpph264enc: false,
        has_omxh264videoenc: true,
        has_rtspclientsink: true,
        encoder_api: "vendor".into(),
        pi5_class: false,
        python_executable: PY_EXE.into(),
        cpu_threads: FIXTURE_CPUS,
    }
}
fn pi5() -> EncoderEnv {
    EncoderEnv {
        pi5_class: true,
        ..rockchip()
    }
}

fn dual_core() -> EncoderEnv {
    EncoderEnv {
        cpu_threads: 2,
        ..rockchip()
    }
}

fn params(kind: EncoderKind, w: u32, h: u32, fps: u32, kbps: u32) -> EncoderParams {
    EncoderParams {
        kind,
        codec: "h264".into(),
        width: w,
        height: h,
        fps,
        bitrate_kbps: kbps,
        encoder: "auto".into(),
        rotation: 0,
        hflip: false,
        vflip: false,
        keyframe_interval: 0,
        rtp_fanout: true,
    }
}

#[allow(clippy::too_many_arguments)]
fn params_cfg(
    kind: EncoderKind,
    w: u32,
    h: u32,
    fps: u32,
    kbps: u32,
    encoder: &str,
    rotation: u32,
    hflip: bool,
    vflip: bool,
    keyframe_interval: u32,
) -> EncoderParams {
    EncoderParams {
        encoder: encoder.into(),
        rotation,
        hflip,
        vflip,
        keyframe_interval,
        ..params(kind, w, h, fps, kbps)
    }
}

/// Build, and splice the marker injector in where it is asked for.
fn build(
    p: &EncoderParams,
    src: &str,
    out: &str,
    cam: &CameraInfo,
    env: &EncoderEnv,
    sei: bool,
) -> Vec<String> {
    let cmd = build_encoder_command(p, src, out, Some(cam), env).expect("builds");
    if sei {
        wrap_with_sei_inject(&cmd, out, env)
    } else {
        cmd
    }
}

/// The argument vectors that the builders must reproduce byte for byte.
fn table(name: &str) -> &'static [&'static str] {
    match name {
        "csi_rpicam_rtsp_rk" => &[
            "bash",
            "-c",
            "rpicam-vid --width 1280 --height 720 --framerate 30 --bitrate 4000000 --codec h264 --timeout 0 --nopreview --inline --profile high --level 4.1 --intra 15 --camera 0 -o - | ffmpeg -loglevel error -fflags nobuffer -flags low_delay -f h264 -i - -c copy -bsf:v h264_metadata=colour_primaries=1:transfer_characteristics=1:matrix_coefficients=1:video_full_range_flag=0 -muxdelay 0 -muxpreload 0 -flush_packets 1 -f rtsp -rtsp_transport tcp rtsp://127.0.0.1:8554/main",
        ],
        "csi_rpicam_rtsp_rk_sei" => &[
            "bash",
            "-c",
            "rpicam-vid --width 1280 --height 720 --framerate 30 --bitrate 4000000 --codec h264 --timeout 0 --nopreview --inline --profile high --level 4.1 --intra 15 --camera 0 -o - | /opt/ados/venv/bin/python3 -m ados.services.video.sei_injector | ffmpeg -loglevel error -fflags nobuffer -flags low_delay -f h264 -i - -c copy -bsf:v h264_metadata=colour_primaries=1:transfer_characteristics=1:matrix_coefficients=1:video_full_range_flag=0 -muxdelay 0 -muxpreload 0 -flush_packets 1 -f rtsp -rtsp_transport tcp rtsp://127.0.0.1:8554/main",
        ],
        "csi_rpicam_file" => &[
            "rpicam-vid",
            "--width",
            "1920",
            "--height",
            "1080",
            "--framerate",
            "60",
            "--bitrate",
            "8000000",
            "--codec",
            "h264",
            "--timeout",
            "0",
            "--nopreview",
            "--inline",
            "--profile",
            "high",
            "--level",
            "4.1",
            "--intra",
            "30",
            "--camera",
            "0",
            "-o",
            "/var/lib/ados/out.h264",
        ],
        "usb_mjpeg_ffmpeg_rtsp_rk" => &[
            "ffmpeg",
            "-y",
            "-fflags",
            "nobuffer",
            "-flags",
            "low_delay",
            "-probesize",
            "32",
            "-analyzeduration",
            "0",
            "-thread_queue_size",
            "128",
            "-f",
            "v4l2",
            "-input_format",
            "mjpeg",
            "-video_size",
            "1280x720",
            "-framerate",
            "30",
            "-i",
            "/dev/video1",
            "-r",
            "30",
            "-c:v",
            "libx264",
            "-b:v",
            "4000k",
            "-pix_fmt",
            "yuv420p",
            "-profile:v",
            "high",
            "-level:v",
            "4.1",
            "-preset",
            "ultrafast",
            "-tune",
            "zerolatency",
            "-g",
            "15",
            "-bf",
            "0",
            "-refs",
            "1",
            "-threads",
            "4",
            "-flush_packets",
            "1",
            "-x264-params",
            "no-mbtree=1:sync-lookahead=0:rc-lookahead=0:sliced-threads=1:slices=4:scenecut=0",
            "-bsf:v",
            "h264_mp4toannexb,dump_extra=freq=keyframe",
            "-max_delay",
            "0",
            "-muxdelay",
            "0",
            "-muxpreload",
            "0",
            "-map",
            "0:v",
            "-f",
            "tee",
            "[f=rtsp:rtsp_transport=tcp:max_delay=0:flush_packets=1]rtsp://127.0.0.1:8554/main|[f=rtp:payload_type=96:ssrc=51966:max_delay=0:flush_packets=1]rtp://127.0.0.1:5600?pkt_size=1316",
        ],
        "usb_mjpeg_ffmpeg_rtsp_rk_sei" => &[
            "bash",
            "-c",
            "ffmpeg -y -fflags nobuffer -flags low_delay -probesize 32 -analyzeduration 0 -thread_queue_size 128 -f v4l2 -input_format mjpeg -video_size 1280x720 -framerate 30 -i /dev/video1 -r 30 -c:v libx264 -b:v 4000k -pix_fmt yuv420p -profile:v high -level:v 4.1 -preset ultrafast -tune zerolatency -g 15 -bf 0 -refs 1 -threads 4 -flush_packets 1 -x264-params no-mbtree=1:sync-lookahead=0:rc-lookahead=0:sliced-threads=1:slices=4:scenecut=0 -bsf:v h264_mp4toannexb,dump_extra=freq=keyframe -f h264 - | /opt/ados/venv/bin/python3 -m ados.services.video.sei_injector | ffmpeg -loglevel error -fflags nobuffer -flags low_delay -f h264 -i - -c copy -flush_packets 1 -max_delay 0 -muxdelay 0 -muxpreload 0 -map 0:v -f tee '[f=rtsp:rtsp_transport=tcp:max_delay=0:flush_packets=1]rtsp://127.0.0.1:8554/main|[f=rtp:payload_type=96:ssrc=51966:max_delay=0:flush_packets=1]rtp://127.0.0.1:5600?pkt_size=1316'",
        ],
        "usb_mjpeg_ffmpeg_rtsp_rk_no_fanout" => &[
            "ffmpeg",
            "-y",
            "-fflags",
            "nobuffer",
            "-flags",
            "low_delay",
            "-probesize",
            "32",
            "-analyzeduration",
            "0",
            "-thread_queue_size",
            "128",
            "-f",
            "v4l2",
            "-input_format",
            "mjpeg",
            "-video_size",
            "1280x720",
            "-framerate",
            "30",
            "-i",
            "/dev/video1",
            "-r",
            "30",
            "-c:v",
            "libx264",
            "-b:v",
            "4000k",
            "-pix_fmt",
            "yuv420p",
            "-profile:v",
            "high",
            "-level:v",
            "4.1",
            "-preset",
            "ultrafast",
            "-tune",
            "zerolatency",
            "-g",
            "15",
            "-bf",
            "0",
            "-refs",
            "1",
            "-threads",
            "4",
            "-flush_packets",
            "1",
            "-x264-params",
            "no-mbtree=1:sync-lookahead=0:rc-lookahead=0:sliced-threads=1:slices=4:scenecut=0",
            "-bsf:v",
            "h264_mp4toannexb,dump_extra=freq=keyframe",
            "-max_delay",
            "0",
            "-muxdelay",
            "0",
            "-muxpreload",
            "0",
            "-rtsp_transport",
            "tcp",
            "-f",
            "rtsp",
            "rtsp://127.0.0.1:8554/main",
        ],
        "usb_mjpeg_ffmpeg_rtsp_dual_core" => &[
            "ffmpeg",
            "-y",
            "-fflags",
            "nobuffer",
            "-flags",
            "low_delay",
            "-probesize",
            "32",
            "-analyzeduration",
            "0",
            "-thread_queue_size",
            "128",
            "-f",
            "v4l2",
            "-input_format",
            "mjpeg",
            "-video_size",
            "1280x720",
            "-framerate",
            "30",
            "-i",
            "/dev/video1",
            "-r",
            "30",
            "-c:v",
            "libx264",
            "-b:v",
            "4000k",
            "-pix_fmt",
            "yuv420p",
            "-profile:v",
            "high",
            "-level:v",
            "4.1",
            "-preset",
            "ultrafast",
            "-tune",
            "zerolatency",
            "-g",
            "15",
            "-bf",
            "0",
            "-refs",
            "1",
            "-threads",
            "2",
            "-flush_packets",
            "1",
            "-x264-params",
            "no-mbtree=1:sync-lookahead=0:rc-lookahead=0:sliced-threads=0:scenecut=0",
            "-bsf:v",
            "h264_mp4toannexb,dump_extra=freq=keyframe",
            "-max_delay",
            "0",
            "-muxdelay",
            "0",
            "-muxpreload",
            "0",
            "-map",
            "0:v",
            "-f",
            "tee",
            "[f=rtsp:rtsp_transport=tcp:max_delay=0:flush_packets=1]rtsp://127.0.0.1:8554/main|[f=rtp:payload_type=96:ssrc=51966:max_delay=0:flush_packets=1]rtp://127.0.0.1:5600?pkt_size=1316",
        ],
        "usb_mjpeg_ffmpeg_rtsp_rk_640x480_15" => &[
            "ffmpeg",
            "-y",
            "-fflags",
            "nobuffer",
            "-flags",
            "low_delay",
            "-probesize",
            "32",
            "-analyzeduration",
            "0",
            "-thread_queue_size",
            "128",
            "-f",
            "v4l2",
            "-input_format",
            "mjpeg",
            "-video_size",
            "640x480",
            "-framerate",
            "15",
            "-i",
            "/dev/video1",
            "-r",
            "15",
            "-c:v",
            "libx264",
            "-b:v",
            "1500k",
            "-pix_fmt",
            "yuv420p",
            "-profile:v",
            "high",
            "-level:v",
            "4.1",
            "-preset",
            "ultrafast",
            "-tune",
            "zerolatency",
            "-g",
            "7",
            "-bf",
            "0",
            "-refs",
            "1",
            "-threads",
            "4",
            "-flush_packets",
            "1",
            "-x264-params",
            "no-mbtree=1:sync-lookahead=0:rc-lookahead=0:sliced-threads=1:slices=4:scenecut=0",
            "-bsf:v",
            "h264_mp4toannexb,dump_extra=freq=keyframe",
            "-max_delay",
            "0",
            "-muxdelay",
            "0",
            "-muxpreload",
            "0",
            "-map",
            "0:v",
            "-f",
            "tee",
            "[f=rtsp:rtsp_transport=tcp:max_delay=0:flush_packets=1]rtsp://127.0.0.1:8554/main|[f=rtp:payload_type=96:ssrc=51966:max_delay=0:flush_packets=1]rtp://127.0.0.1:5600?pkt_size=1316",
        ],
        "usb_mjpeg_ffmpeg_udp_rk" => &[
            "ffmpeg",
            "-y",
            "-fflags",
            "nobuffer",
            "-flags",
            "low_delay",
            "-probesize",
            "32",
            "-analyzeduration",
            "0",
            "-thread_queue_size",
            "128",
            "-f",
            "v4l2",
            "-input_format",
            "mjpeg",
            "-video_size",
            "1280x720",
            "-framerate",
            "30",
            "-i",
            "/dev/video1",
            "-r",
            "30",
            "-c:v",
            "libx264",
            "-b:v",
            "4000k",
            "-pix_fmt",
            "yuv420p",
            "-profile:v",
            "high",
            "-level:v",
            "4.1",
            "-preset",
            "ultrafast",
            "-tune",
            "zerolatency",
            "-g",
            "15",
            "-bf",
            "0",
            "-refs",
            "1",
            "-threads",
            "4",
            "-flush_packets",
            "1",
            "-x264-params",
            "no-mbtree=1:sync-lookahead=0:rc-lookahead=0:sliced-threads=1:slices=4:scenecut=0",
            "-bsf:v",
            "h264_mp4toannexb,dump_extra=freq=keyframe",
            "-muxdelay",
            "0",
            "-muxpreload",
            "0",
            "-f",
            "mpegts",
            "udp://127.0.0.1:5600",
        ],
        "usb_mjpeg_ffmpeg_udp_rk_sei" => &[
            "bash",
            "-c",
            "ffmpeg -y -fflags nobuffer -flags low_delay -probesize 32 -analyzeduration 0 -thread_queue_size 128 -f v4l2 -input_format mjpeg -video_size 1280x720 -framerate 30 -i /dev/video1 -r 30 -c:v libx264 -b:v 4000k -pix_fmt yuv420p -profile:v high -level:v 4.1 -preset ultrafast -tune zerolatency -g 15 -bf 0 -refs 1 -threads 4 -flush_packets 1 -x264-params no-mbtree=1:sync-lookahead=0:rc-lookahead=0:sliced-threads=1:slices=4:scenecut=0 -bsf:v h264_mp4toannexb,dump_extra=freq=keyframe -f h264 - | /opt/ados/venv/bin/python3 -m ados.services.video.sei_injector | ffmpeg -loglevel error -fflags nobuffer -flags low_delay -f h264 -i - -c copy -flush_packets 1 -muxdelay 0 -muxpreload 0 -f mpegts udp://127.0.0.1:5600",
        ],
        "usb_yuyv_ffmpeg_rtsp_rk" => &[
            "ffmpeg",
            "-y",
            "-fflags",
            "nobuffer",
            "-flags",
            "low_delay",
            "-probesize",
            "32",
            "-analyzeduration",
            "0",
            "-thread_queue_size",
            "128",
            "-f",
            "v4l2",
            "-input_format",
            "yuyv",
            "-video_size",
            "1280x720",
            "-framerate",
            "30",
            "-i",
            "/dev/video2",
            "-r",
            "30",
            "-c:v",
            "libx264",
            "-b:v",
            "4000k",
            "-pix_fmt",
            "yuv420p",
            "-profile:v",
            "high",
            "-level:v",
            "4.1",
            "-preset",
            "ultrafast",
            "-tune",
            "zerolatency",
            "-g",
            "15",
            "-bf",
            "0",
            "-refs",
            "1",
            "-threads",
            "4",
            "-flush_packets",
            "1",
            "-x264-params",
            "no-mbtree=1:sync-lookahead=0:rc-lookahead=0:sliced-threads=1:slices=4:scenecut=0",
            "-bsf:v",
            "h264_mp4toannexb,dump_extra=freq=keyframe",
            "-max_delay",
            "0",
            "-muxdelay",
            "0",
            "-muxpreload",
            "0",
            "-map",
            "0:v",
            "-f",
            "tee",
            "[f=rtsp:rtsp_transport=tcp:max_delay=0:flush_packets=1]rtsp://127.0.0.1:8554/main|[f=rtp:payload_type=96:ssrc=51966:max_delay=0:flush_packets=1]rtp://127.0.0.1:5600?pkt_size=1316",
        ],
        "usb_mjpeg_ffmpeg_rtsp_pi_hw" => &[
            "ffmpeg",
            "-y",
            "-fflags",
            "nobuffer",
            "-flags",
            "low_delay",
            "-probesize",
            "32",
            "-analyzeduration",
            "0",
            "-thread_queue_size",
            "128",
            "-f",
            "v4l2",
            "-input_format",
            "mjpeg",
            "-video_size",
            "1280x720",
            "-framerate",
            "30",
            "-i",
            "/dev/video1",
            "-r",
            "30",
            "-c:v",
            "h264_v4l2m2m",
            "-b:v",
            "4000k",
            "-pix_fmt",
            "yuv420p",
            "-g",
            "15",
            "-bf",
            "0",
            "-flush_packets",
            "1",
            "-qmin",
            "20",
            "-qmax",
            "51",
            "-bsf:v",
            "dump_extra=freq=keyframe",
            "-max_delay",
            "0",
            "-muxdelay",
            "0",
            "-muxpreload",
            "0",
            "-map",
            "0:v",
            "-f",
            "tee",
            "[f=rtsp:rtsp_transport=tcp:max_delay=0:flush_packets=1]rtsp://127.0.0.1:8554/main|[f=rtp:payload_type=96:ssrc=51966:max_delay=0:flush_packets=1]rtp://127.0.0.1:5600?pkt_size=1316",
        ],
        "usb_mjpeg_ffmpeg_rtsp_pi_hw_sei" => &[
            "bash",
            "-c",
            "ffmpeg -y -fflags nobuffer -flags low_delay -probesize 32 -analyzeduration 0 -thread_queue_size 128 -f v4l2 -input_format mjpeg -video_size 1280x720 -framerate 30 -i /dev/video1 -r 30 -c:v h264_v4l2m2m -b:v 4000k -pix_fmt yuv420p -g 15 -bf 0 -flush_packets 1 -qmin 20 -qmax 51 -bsf:v dump_extra=freq=keyframe -f h264 - | /opt/ados/venv/bin/python3 -m ados.services.video.sei_injector | ffmpeg -loglevel error -fflags nobuffer -flags low_delay -f h264 -i - -c copy -flush_packets 1 -max_delay 0 -muxdelay 0 -muxpreload 0 -map 0:v -f tee '[f=rtsp:rtsp_transport=tcp:max_delay=0:flush_packets=1]rtsp://127.0.0.1:8554/main|[f=rtp:payload_type=96:ssrc=51966:max_delay=0:flush_packets=1]rtp://127.0.0.1:5600?pkt_size=1316'",
        ],
        "usb_mjpeg_ffmpeg_rtsp_nonrk_sw" => &[
            "ffmpeg",
            "-y",
            "-fflags",
            "nobuffer",
            "-flags",
            "low_delay",
            "-probesize",
            "32",
            "-analyzeduration",
            "0",
            "-thread_queue_size",
            "128",
            "-f",
            "v4l2",
            "-input_format",
            "mjpeg",
            "-video_size",
            "1280x720",
            "-framerate",
            "30",
            "-i",
            "/dev/video1",
            "-r",
            "30",
            "-c:v",
            "libx264",
            "-b:v",
            "4000k",
            "-pix_fmt",
            "yuv420p",
            "-profile:v",
            "high",
            "-level:v",
            "4.1",
            "-preset",
            "ultrafast",
            "-tune",
            "zerolatency",
            "-g",
            "15",
            "-bf",
            "0",
            "-refs",
            "1",
            "-threads",
            "4",
            "-flush_packets",
            "1",
            "-x264-params",
            "no-mbtree=1:sync-lookahead=0:rc-lookahead=0:sliced-threads=1:slices=4:scenecut=0",
            "-bsf:v",
            "h264_mp4toannexb,dump_extra=freq=keyframe",
            "-max_delay",
            "0",
            "-muxdelay",
            "0",
            "-muxpreload",
            "0",
            "-map",
            "0:v",
            "-f",
            "tee",
            "[f=rtsp:rtsp_transport=tcp:max_delay=0:flush_packets=1]rtsp://127.0.0.1:8554/main|[f=rtp:payload_type=96:ssrc=51966:max_delay=0:flush_packets=1]rtp://127.0.0.1:5600?pkt_size=1316",
        ],
        "ip_ffmpeg_rtsp_rk" => &[
            "ffmpeg",
            "-y",
            "-fflags",
            "nobuffer",
            "-flags",
            "low_delay",
            "-rtsp_transport",
            "tcp",
            "-i",
            "rtsp://10.0.0.9:554/live",
            "-r",
            "30",
            "-c:v",
            "libx264",
            "-b:v",
            "4000k",
            "-pix_fmt",
            "yuv420p",
            "-profile:v",
            "high",
            "-level:v",
            "4.1",
            "-preset",
            "ultrafast",
            "-tune",
            "zerolatency",
            "-g",
            "15",
            "-bf",
            "0",
            "-refs",
            "1",
            "-threads",
            "4",
            "-flush_packets",
            "1",
            "-x264-params",
            "no-mbtree=1:sync-lookahead=0:rc-lookahead=0:sliced-threads=1:slices=4:scenecut=0",
            "-bsf:v",
            "h264_mp4toannexb,dump_extra=freq=keyframe",
            "-max_delay",
            "0",
            "-muxdelay",
            "0",
            "-muxpreload",
            "0",
            "-map",
            "0:v",
            "-f",
            "tee",
            "[f=rtsp:rtsp_transport=tcp:max_delay=0:flush_packets=1]rtsp://127.0.0.1:8554/main|[f=rtp:payload_type=96:ssrc=51966:max_delay=0:flush_packets=1]rtp://127.0.0.1:5600?pkt_size=1316",
        ],
        "gst_usb_mjpeg_rtsp_rk_mpp" => &[
            "gst-launch-1.0",
            "-e",
            "v4l2src",
            "device=/dev/video1",
            "!",
            "image/jpeg,width=1280,height=720,framerate=30/1",
            "!",
            "jpegdec",
            "!",
            "videoconvert",
            "!",
            "mpph264enc",
            "bps=4000000",
            "bps-max=4000000",
            "bps-min=2000000",
            "qp-min=18",
            "qp-max=51",
            "rc-mode=vbr",
            "gop=15",
            "header-mode=1",
            "!",
            "h264parse",
            "config-interval=1",
            "!",
            "rtspclientsink",
            "location=rtsp://127.0.0.1:8554/main",
            "protocols=tcp",
            "latency=0",
        ],
        "gst_usb_mjpeg_rtsp_rk_mpp_noclient" => &[
            "bash",
            "-c",
            "gst-launch-1.0 -q v4l2src device=/dev/video1 ! image/jpeg,width=1280,height=720,framerate=30/1 ! jpegdec ! videoconvert ! mpph264enc bps=4000000 bps-max=4000000 bps-min=2000000 qp-min=18 qp-max=51 rc-mode=vbr gop=15 header-mode=1 ! h264parse config-interval=1 ! 'video/x-h264,stream-format=byte-stream' ! fdsink fd=1 2>/dev/null | ffmpeg -y -fflags nobuffer -f h264 -i pipe:0 -c:v copy -max_delay 0 -muxdelay 0 -muxpreload 0 -flush_packets 1 -rtsp_transport tcp -f rtsp rtsp://127.0.0.1:8554/main",
        ],
        "gst_usb_yuyv_rtsp_nonrk_x264" => &[
            "gst-launch-1.0",
            "-e",
            "v4l2src",
            "device=/dev/video2",
            "!",
            "video/x-raw,width=1280,height=720,framerate=30/1",
            "!",
            "videoconvert",
            "!",
            "x264enc",
            "bitrate=4000",
            "speed-preset=ultrafast",
            "tune=zerolatency",
            "threads=2",
            "sliced-threads=false",
            "key-int-max=15",
            "!",
            "h264parse",
            "config-interval=1",
            "!",
            "rtspclientsink",
            "location=rtsp://127.0.0.1:8554/main",
            "protocols=tcp",
            "latency=0",
        ],
        "gst_usb_mjpeg_file_rk_mpp" => &[
            "gst-launch-1.0",
            "-e",
            "v4l2src",
            "device=/dev/video1",
            "!",
            "image/jpeg,width=1280,height=720,framerate=30/1",
            "!",
            "jpegdec",
            "!",
            "videoconvert",
            "!",
            "mpph264enc",
            "bps=4000000",
            "bps-max=4000000",
            "bps-min=2000000",
            "qp-min=18",
            "qp-max=51",
            "rc-mode=vbr",
            "gop=15",
            "header-mode=1",
            "!",
            "h264parse",
            "config-interval=1",
            "!",
            "filesink",
            "location=/var/lib/ados/cap.h264",
        ],
        "gst_usb_mjpeg_rtsp_rk_mpp_sei_skip" => &[
            "gst-launch-1.0",
            "-e",
            "v4l2src",
            "device=/dev/video1",
            "!",
            "image/jpeg,width=1280,height=720,framerate=30/1",
            "!",
            "jpegdec",
            "!",
            "videoconvert",
            "!",
            "mpph264enc",
            "bps=4000000",
            "bps-max=4000000",
            "bps-min=2000000",
            "qp-min=18",
            "qp-max=51",
            "rc-mode=vbr",
            "gop=15",
            "header-mode=1",
            "!",
            "h264parse",
            "config-interval=1",
            "!",
            "rtspclientsink",
            "location=rtsp://127.0.0.1:8554/main",
            "protocols=tcp",
            "latency=0",
        ],
        "ffmpeg_rot90" => &[
            "ffmpeg",
            "-y",
            "-fflags",
            "nobuffer",
            "-flags",
            "low_delay",
            "-probesize",
            "32",
            "-analyzeduration",
            "0",
            "-thread_queue_size",
            "128",
            "-f",
            "v4l2",
            "-input_format",
            "mjpeg",
            "-video_size",
            "1280x720",
            "-framerate",
            "30",
            "-i",
            "/dev/video1",
            "-r",
            "30",
            "-vf",
            "transpose=1",
            "-c:v",
            "libx264",
            "-b:v",
            "4000k",
            "-pix_fmt",
            "yuv420p",
            "-profile:v",
            "high",
            "-level:v",
            "4.1",
            "-preset",
            "ultrafast",
            "-tune",
            "zerolatency",
            "-g",
            "15",
            "-bf",
            "0",
            "-refs",
            "1",
            "-threads",
            "4",
            "-flush_packets",
            "1",
            "-x264-params",
            "no-mbtree=1:sync-lookahead=0:rc-lookahead=0:sliced-threads=1:slices=4:scenecut=0",
            "-bsf:v",
            "h264_mp4toannexb,dump_extra=freq=keyframe",
            "-max_delay",
            "0",
            "-muxdelay",
            "0",
            "-muxpreload",
            "0",
            "-map",
            "0:v",
            "-f",
            "tee",
            "[f=rtsp:rtsp_transport=tcp:max_delay=0:flush_packets=1]rtsp://127.0.0.1:8554/main|[f=rtp:payload_type=96:ssrc=51966:max_delay=0:flush_packets=1]rtp://127.0.0.1:5600?pkt_size=1316",
        ],
        "ffmpeg_rot180" => &[
            "ffmpeg",
            "-y",
            "-fflags",
            "nobuffer",
            "-flags",
            "low_delay",
            "-probesize",
            "32",
            "-analyzeduration",
            "0",
            "-thread_queue_size",
            "128",
            "-f",
            "v4l2",
            "-input_format",
            "mjpeg",
            "-video_size",
            "1280x720",
            "-framerate",
            "30",
            "-i",
            "/dev/video1",
            "-r",
            "30",
            "-vf",
            "transpose=2,transpose=2",
            "-c:v",
            "libx264",
            "-b:v",
            "4000k",
            "-pix_fmt",
            "yuv420p",
            "-profile:v",
            "high",
            "-level:v",
            "4.1",
            "-preset",
            "ultrafast",
            "-tune",
            "zerolatency",
            "-g",
            "15",
            "-bf",
            "0",
            "-refs",
            "1",
            "-threads",
            "4",
            "-flush_packets",
            "1",
            "-x264-params",
            "no-mbtree=1:sync-lookahead=0:rc-lookahead=0:sliced-threads=1:slices=4:scenecut=0",
            "-bsf:v",
            "h264_mp4toannexb,dump_extra=freq=keyframe",
            "-max_delay",
            "0",
            "-muxdelay",
            "0",
            "-muxpreload",
            "0",
            "-map",
            "0:v",
            "-f",
            "tee",
            "[f=rtsp:rtsp_transport=tcp:max_delay=0:flush_packets=1]rtsp://127.0.0.1:8554/main|[f=rtp:payload_type=96:ssrc=51966:max_delay=0:flush_packets=1]rtp://127.0.0.1:5600?pkt_size=1316",
        ],
        "ffmpeg_rot270" => &[
            "ffmpeg",
            "-y",
            "-fflags",
            "nobuffer",
            "-flags",
            "low_delay",
            "-probesize",
            "32",
            "-analyzeduration",
            "0",
            "-thread_queue_size",
            "128",
            "-f",
            "v4l2",
            "-input_format",
            "mjpeg",
            "-video_size",
            "1280x720",
            "-framerate",
            "30",
            "-i",
            "/dev/video1",
            "-r",
            "30",
            "-vf",
            "transpose=2",
            "-c:v",
            "libx264",
            "-b:v",
            "4000k",
            "-pix_fmt",
            "yuv420p",
            "-profile:v",
            "high",
            "-level:v",
            "4.1",
            "-preset",
            "ultrafast",
            "-tune",
            "zerolatency",
            "-g",
            "15",
            "-bf",
            "0",
            "-refs",
            "1",
            "-threads",
            "4",
            "-flush_packets",
            "1",
            "-x264-params",
            "no-mbtree=1:sync-lookahead=0:rc-lookahead=0:sliced-threads=1:slices=4:scenecut=0",
            "-bsf:v",
            "h264_mp4toannexb,dump_extra=freq=keyframe",
            "-max_delay",
            "0",
            "-muxdelay",
            "0",
            "-muxpreload",
            "0",
            "-map",
            "0:v",
            "-f",
            "tee",
            "[f=rtsp:rtsp_transport=tcp:max_delay=0:flush_packets=1]rtsp://127.0.0.1:8554/main|[f=rtp:payload_type=96:ssrc=51966:max_delay=0:flush_packets=1]rtp://127.0.0.1:5600?pkt_size=1316",
        ],
        "ffmpeg_hflip" => &[
            "ffmpeg",
            "-y",
            "-fflags",
            "nobuffer",
            "-flags",
            "low_delay",
            "-probesize",
            "32",
            "-analyzeduration",
            "0",
            "-thread_queue_size",
            "128",
            "-f",
            "v4l2",
            "-input_format",
            "mjpeg",
            "-video_size",
            "1280x720",
            "-framerate",
            "30",
            "-i",
            "/dev/video1",
            "-r",
            "30",
            "-vf",
            "hflip",
            "-c:v",
            "libx264",
            "-b:v",
            "4000k",
            "-pix_fmt",
            "yuv420p",
            "-profile:v",
            "high",
            "-level:v",
            "4.1",
            "-preset",
            "ultrafast",
            "-tune",
            "zerolatency",
            "-g",
            "15",
            "-bf",
            "0",
            "-refs",
            "1",
            "-threads",
            "4",
            "-flush_packets",
            "1",
            "-x264-params",
            "no-mbtree=1:sync-lookahead=0:rc-lookahead=0:sliced-threads=1:slices=4:scenecut=0",
            "-bsf:v",
            "h264_mp4toannexb,dump_extra=freq=keyframe",
            "-max_delay",
            "0",
            "-muxdelay",
            "0",
            "-muxpreload",
            "0",
            "-map",
            "0:v",
            "-f",
            "tee",
            "[f=rtsp:rtsp_transport=tcp:max_delay=0:flush_packets=1]rtsp://127.0.0.1:8554/main|[f=rtp:payload_type=96:ssrc=51966:max_delay=0:flush_packets=1]rtp://127.0.0.1:5600?pkt_size=1316",
        ],
        "ffmpeg_vflip" => &[
            "ffmpeg",
            "-y",
            "-fflags",
            "nobuffer",
            "-flags",
            "low_delay",
            "-probesize",
            "32",
            "-analyzeduration",
            "0",
            "-thread_queue_size",
            "128",
            "-f",
            "v4l2",
            "-input_format",
            "mjpeg",
            "-video_size",
            "1280x720",
            "-framerate",
            "30",
            "-i",
            "/dev/video1",
            "-r",
            "30",
            "-vf",
            "vflip",
            "-c:v",
            "libx264",
            "-b:v",
            "4000k",
            "-pix_fmt",
            "yuv420p",
            "-profile:v",
            "high",
            "-level:v",
            "4.1",
            "-preset",
            "ultrafast",
            "-tune",
            "zerolatency",
            "-g",
            "15",
            "-bf",
            "0",
            "-refs",
            "1",
            "-threads",
            "4",
            "-flush_packets",
            "1",
            "-x264-params",
            "no-mbtree=1:sync-lookahead=0:rc-lookahead=0:sliced-threads=1:slices=4:scenecut=0",
            "-bsf:v",
            "h264_mp4toannexb,dump_extra=freq=keyframe",
            "-max_delay",
            "0",
            "-muxdelay",
            "0",
            "-muxpreload",
            "0",
            "-map",
            "0:v",
            "-f",
            "tee",
            "[f=rtsp:rtsp_transport=tcp:max_delay=0:flush_packets=1]rtsp://127.0.0.1:8554/main|[f=rtp:payload_type=96:ssrc=51966:max_delay=0:flush_packets=1]rtp://127.0.0.1:5600?pkt_size=1316",
        ],
        "ffmpeg_rot180_hflip" => &[
            "ffmpeg",
            "-y",
            "-fflags",
            "nobuffer",
            "-flags",
            "low_delay",
            "-probesize",
            "32",
            "-analyzeduration",
            "0",
            "-thread_queue_size",
            "128",
            "-f",
            "v4l2",
            "-input_format",
            "mjpeg",
            "-video_size",
            "1280x720",
            "-framerate",
            "30",
            "-i",
            "/dev/video1",
            "-r",
            "30",
            "-vf",
            "transpose=2,transpose=2,hflip",
            "-c:v",
            "libx264",
            "-b:v",
            "4000k",
            "-pix_fmt",
            "yuv420p",
            "-profile:v",
            "high",
            "-level:v",
            "4.1",
            "-preset",
            "ultrafast",
            "-tune",
            "zerolatency",
            "-g",
            "15",
            "-bf",
            "0",
            "-refs",
            "1",
            "-threads",
            "4",
            "-flush_packets",
            "1",
            "-x264-params",
            "no-mbtree=1:sync-lookahead=0:rc-lookahead=0:sliced-threads=1:slices=4:scenecut=0",
            "-bsf:v",
            "h264_mp4toannexb,dump_extra=freq=keyframe",
            "-max_delay",
            "0",
            "-muxdelay",
            "0",
            "-muxpreload",
            "0",
            "-map",
            "0:v",
            "-f",
            "tee",
            "[f=rtsp:rtsp_transport=tcp:max_delay=0:flush_packets=1]rtsp://127.0.0.1:8554/main|[f=rtp:payload_type=96:ssrc=51966:max_delay=0:flush_packets=1]rtp://127.0.0.1:5600?pkt_size=1316",
        ],
        "ffmpeg_keyframe5" => &[
            "ffmpeg",
            "-y",
            "-fflags",
            "nobuffer",
            "-flags",
            "low_delay",
            "-probesize",
            "32",
            "-analyzeduration",
            "0",
            "-thread_queue_size",
            "128",
            "-f",
            "v4l2",
            "-input_format",
            "mjpeg",
            "-video_size",
            "1280x720",
            "-framerate",
            "30",
            "-i",
            "/dev/video1",
            "-r",
            "30",
            "-c:v",
            "libx264",
            "-b:v",
            "4000k",
            "-pix_fmt",
            "yuv420p",
            "-profile:v",
            "high",
            "-level:v",
            "4.1",
            "-preset",
            "ultrafast",
            "-tune",
            "zerolatency",
            "-g",
            "5",
            "-bf",
            "0",
            "-refs",
            "1",
            "-threads",
            "4",
            "-flush_packets",
            "1",
            "-x264-params",
            "no-mbtree=1:sync-lookahead=0:rc-lookahead=0:sliced-threads=1:slices=4:scenecut=0",
            "-bsf:v",
            "h264_mp4toannexb,dump_extra=freq=keyframe",
            "-max_delay",
            "0",
            "-muxdelay",
            "0",
            "-muxpreload",
            "0",
            "-map",
            "0:v",
            "-f",
            "tee",
            "[f=rtsp:rtsp_transport=tcp:max_delay=0:flush_packets=1]rtsp://127.0.0.1:8554/main|[f=rtp:payload_type=96:ssrc=51966:max_delay=0:flush_packets=1]rtp://127.0.0.1:5600?pkt_size=1316",
        ],
        "ffmpeg_override_software" => &[
            "ffmpeg",
            "-y",
            "-fflags",
            "nobuffer",
            "-flags",
            "low_delay",
            "-probesize",
            "32",
            "-analyzeduration",
            "0",
            "-thread_queue_size",
            "128",
            "-f",
            "v4l2",
            "-input_format",
            "mjpeg",
            "-video_size",
            "1280x720",
            "-framerate",
            "30",
            "-i",
            "/dev/video1",
            "-r",
            "30",
            "-c:v",
            "libx264",
            "-b:v",
            "4000k",
            "-pix_fmt",
            "yuv420p",
            "-profile:v",
            "high",
            "-level:v",
            "4.1",
            "-preset",
            "ultrafast",
            "-tune",
            "zerolatency",
            "-g",
            "15",
            "-bf",
            "0",
            "-refs",
            "1",
            "-threads",
            "4",
            "-flush_packets",
            "1",
            "-x264-params",
            "no-mbtree=1:sync-lookahead=0:rc-lookahead=0:sliced-threads=1:slices=4:scenecut=0",
            "-bsf:v",
            "h264_mp4toannexb,dump_extra=freq=keyframe",
            "-max_delay",
            "0",
            "-muxdelay",
            "0",
            "-muxpreload",
            "0",
            "-map",
            "0:v",
            "-f",
            "tee",
            "[f=rtsp:rtsp_transport=tcp:max_delay=0:flush_packets=1]rtsp://127.0.0.1:8554/main|[f=rtp:payload_type=96:ssrc=51966:max_delay=0:flush_packets=1]rtp://127.0.0.1:5600?pkt_size=1316",
        ],
        "ffmpeg_override_v4l2m2m" => &[
            "ffmpeg",
            "-y",
            "-fflags",
            "nobuffer",
            "-flags",
            "low_delay",
            "-probesize",
            "32",
            "-analyzeduration",
            "0",
            "-thread_queue_size",
            "128",
            "-f",
            "v4l2",
            "-input_format",
            "mjpeg",
            "-video_size",
            "1280x720",
            "-framerate",
            "30",
            "-i",
            "/dev/video1",
            "-r",
            "30",
            "-c:v",
            "h264_v4l2m2m",
            "-b:v",
            "4000k",
            "-pix_fmt",
            "yuv420p",
            "-g",
            "15",
            "-bf",
            "0",
            "-flush_packets",
            "1",
            "-qmin",
            "20",
            "-qmax",
            "51",
            "-bsf:v",
            "dump_extra=freq=keyframe",
            "-max_delay",
            "0",
            "-muxdelay",
            "0",
            "-muxpreload",
            "0",
            "-map",
            "0:v",
            "-f",
            "tee",
            "[f=rtsp:rtsp_transport=tcp:max_delay=0:flush_packets=1]rtsp://127.0.0.1:8554/main|[f=rtp:payload_type=96:ssrc=51966:max_delay=0:flush_packets=1]rtp://127.0.0.1:5600?pkt_size=1316",
        ],
        "gst_omx_argv" => &[
            "gst-launch-1.0",
            "-e",
            "v4l2src",
            "device=/dev/video2",
            "io-mode=mmap",
            "!",
            "video/x-raw,width=1280,height=720,framerate=30/1",
            "!",
            "videoconvert",
            "!",
            "video/x-raw,format=NV12,width=1280,height=720",
            "!",
            "queue",
            "max-size-buffers=4",
            "leaky=downstream",
            "!",
            "omxh264videoenc",
            "control-rate=constant",
            "target-bitrate=4000000",
            "interval-intraframes=15",
            "!",
            "h264parse",
            "config-interval=1",
            "!",
            "rtspclientsink",
            "location=rtsp://127.0.0.1:8554/main",
            "protocols=tcp",
            "latency=0",
        ],
        "gst_omx_rot90" => &[
            "gst-launch-1.0",
            "-e",
            "v4l2src",
            "device=/dev/video2",
            "io-mode=mmap",
            "!",
            "video/x-raw,width=1280,height=720,framerate=30/1",
            "!",
            "videoconvert",
            "!",
            "videoflip",
            "method=clockwise",
            "!",
            "video/x-raw,format=NV12,width=1280,height=720",
            "!",
            "queue",
            "max-size-buffers=4",
            "leaky=downstream",
            "!",
            "omxh264videoenc",
            "control-rate=constant",
            "target-bitrate=4000000",
            "interval-intraframes=15",
            "!",
            "h264parse",
            "config-interval=1",
            "!",
            "rtspclientsink",
            "location=rtsp://127.0.0.1:8554/main",
            "protocols=tcp",
            "latency=0",
        ],
        "gst_omx_explicit" => &[
            "gst-launch-1.0",
            "-e",
            "v4l2src",
            "device=/dev/video2",
            "io-mode=mmap",
            "!",
            "video/x-raw,width=1280,height=720,framerate=30/1",
            "!",
            "videoconvert",
            "!",
            "video/x-raw,format=NV12,width=1280,height=720",
            "!",
            "queue",
            "max-size-buffers=4",
            "leaky=downstream",
            "!",
            "omxh264videoenc",
            "control-rate=constant",
            "target-bitrate=4000000",
            "interval-intraframes=15",
            "!",
            "h264parse",
            "config-interval=1",
            "!",
            "rtspclientsink",
            "location=rtsp://127.0.0.1:8554/main",
            "protocols=tcp",
            "latency=0",
        ],
        "gst_omx_sw_override" => &[
            "gst-launch-1.0",
            "-e",
            "v4l2src",
            "device=/dev/video2",
            "!",
            "video/x-raw,width=1280,height=720,framerate=30/1",
            "!",
            "videoconvert",
            "!",
            "x264enc",
            "bitrate=4000",
            "speed-preset=ultrafast",
            "tune=zerolatency",
            "threads=2",
            "sliced-threads=false",
            "key-int-max=15",
            "!",
            "h264parse",
            "config-interval=1",
            "!",
            "rtspclientsink",
            "location=rtsp://127.0.0.1:8554/main",
            "protocols=tcp",
            "latency=0",
        ],
        "gst_x264_rot90" => &[
            "gst-launch-1.0",
            "-e",
            "v4l2src",
            "device=/dev/video1",
            "!",
            "image/jpeg,width=1280,height=720,framerate=30/1",
            "!",
            "jpegdec",
            "!",
            "videoconvert",
            "!",
            "videoflip",
            "method=clockwise",
            "!",
            "x264enc",
            "bitrate=4000",
            "speed-preset=ultrafast",
            "tune=zerolatency",
            "threads=2",
            "sliced-threads=false",
            "key-int-max=15",
            "!",
            "h264parse",
            "config-interval=1",
            "!",
            "rtspclientsink",
            "location=rtsp://127.0.0.1:8554/main",
            "protocols=tcp",
            "latency=0",
        ],
        "gst_x264_rot180" => &[
            "gst-launch-1.0",
            "-e",
            "v4l2src",
            "device=/dev/video1",
            "!",
            "image/jpeg,width=1280,height=720,framerate=30/1",
            "!",
            "jpegdec",
            "!",
            "videoconvert",
            "!",
            "videoflip",
            "method=rotate-180",
            "!",
            "x264enc",
            "bitrate=4000",
            "speed-preset=ultrafast",
            "tune=zerolatency",
            "threads=2",
            "sliced-threads=false",
            "key-int-max=15",
            "!",
            "h264parse",
            "config-interval=1",
            "!",
            "rtspclientsink",
            "location=rtsp://127.0.0.1:8554/main",
            "protocols=tcp",
            "latency=0",
        ],
        "gst_x264_rot270" => &[
            "gst-launch-1.0",
            "-e",
            "v4l2src",
            "device=/dev/video1",
            "!",
            "image/jpeg,width=1280,height=720,framerate=30/1",
            "!",
            "jpegdec",
            "!",
            "videoconvert",
            "!",
            "videoflip",
            "method=counterclockwise",
            "!",
            "x264enc",
            "bitrate=4000",
            "speed-preset=ultrafast",
            "tune=zerolatency",
            "threads=2",
            "sliced-threads=false",
            "key-int-max=15",
            "!",
            "h264parse",
            "config-interval=1",
            "!",
            "rtspclientsink",
            "location=rtsp://127.0.0.1:8554/main",
            "protocols=tcp",
            "latency=0",
        ],
        "gst_x264_hflip" => &[
            "gst-launch-1.0",
            "-e",
            "v4l2src",
            "device=/dev/video1",
            "!",
            "image/jpeg,width=1280,height=720,framerate=30/1",
            "!",
            "jpegdec",
            "!",
            "videoconvert",
            "!",
            "videoflip",
            "method=horizontal-flip",
            "!",
            "x264enc",
            "bitrate=4000",
            "speed-preset=ultrafast",
            "tune=zerolatency",
            "threads=2",
            "sliced-threads=false",
            "key-int-max=15",
            "!",
            "h264parse",
            "config-interval=1",
            "!",
            "rtspclientsink",
            "location=rtsp://127.0.0.1:8554/main",
            "protocols=tcp",
            "latency=0",
        ],
        "gst_x264_vflip" => &[
            "gst-launch-1.0",
            "-e",
            "v4l2src",
            "device=/dev/video1",
            "!",
            "image/jpeg,width=1280,height=720,framerate=30/1",
            "!",
            "jpegdec",
            "!",
            "videoconvert",
            "!",
            "videoflip",
            "method=vertical-flip",
            "!",
            "x264enc",
            "bitrate=4000",
            "speed-preset=ultrafast",
            "tune=zerolatency",
            "threads=2",
            "sliced-threads=false",
            "key-int-max=15",
            "!",
            "h264parse",
            "config-interval=1",
            "!",
            "rtspclientsink",
            "location=rtsp://127.0.0.1:8554/main",
            "protocols=tcp",
            "latency=0",
        ],
        _ => panic!("no argument vector {name:?}"),
    }
}

fn expected(name: &str) -> Vec<String> {
    table(name).iter().map(|s| s.to_string()).collect()
}

/// Every pinned case, as its name and the built vector.
fn fixture_cases() -> Vec<(&'static str, Vec<String>)> {
    let ff = |rot: u32, h: bool, v: bool| {
        build(
            &params_cfg(
                EncoderKind::Ffmpeg,
                1280,
                720,
                30,
                4000,
                "auto",
                rot,
                h,
                v,
                0,
            ),
            "/dev/video1",
            RTSP_OUT,
            &usb_mjpeg(),
            &rockchip(),
            false,
        )
    };
    let gst = |rot: u32, h: bool, v: bool| {
        build(
            &params_cfg(
                EncoderKind::Gstreamer,
                1280,
                720,
                30,
                4000,
                "auto",
                rot,
                h,
                v,
                0,
            ),
            "/dev/video1",
            RTSP_OUT,
            &usb_mjpeg(),
            &non_rk_sw(),
            false,
        )
    };
    let omx = |encoder: &str, rot: u32| {
        build(
            &params_cfg(
                EncoderKind::Gstreamer,
                1280,
                720,
                30,
                4000,
                encoder,
                rot,
                false,
                false,
                0,
            ),
            "/dev/video2",
            RTSP_OUT,
            &usb_yuyv(),
            &allwinner_omx(),
            false,
        )
    };
    let hd = |kind: EncoderKind| params(kind, 1280, 720, 30, 4000);

    vec![
        (
            "csi_rpicam_rtsp_rk",
            build(
                &hd(EncoderKind::RpicamVid),
                "/dev/video0",
                RTSP_OUT,
                &csi(),
                &rockchip(),
                false,
            ),
        ),
        (
            "csi_rpicam_rtsp_rk_sei",
            build(
                &hd(EncoderKind::RpicamVid),
                "/dev/video0",
                RTSP_OUT,
                &csi(),
                &rockchip(),
                true,
            ),
        ),
        (
            "csi_rpicam_file",
            build(
                &params(EncoderKind::RpicamVid, 1920, 1080, 60, 8000),
                "/dev/video0",
                "/var/lib/ados/out.h264",
                &csi(),
                &rockchip(),
                false,
            ),
        ),
        (
            "usb_mjpeg_ffmpeg_rtsp_rk",
            build(
                &hd(EncoderKind::Ffmpeg),
                "/dev/video1",
                RTSP_OUT,
                &usb_mjpeg(),
                &rockchip(),
                false,
            ),
        ),
        (
            "usb_mjpeg_ffmpeg_rtsp_rk_sei",
            build(
                &hd(EncoderKind::Ffmpeg),
                "/dev/video1",
                RTSP_OUT,
                &usb_mjpeg(),
                &rockchip(),
                true,
            ),
        ),
        (
            "usb_mjpeg_ffmpeg_rtsp_rk_no_fanout",
            build(
                &EncoderParams {
                    rtp_fanout: false,
                    ..hd(EncoderKind::Ffmpeg)
                },
                "/dev/video1",
                RTSP_OUT,
                &usb_mjpeg(),
                &rockchip(),
                false,
            ),
        ),
        (
            "usb_mjpeg_ffmpeg_rtsp_dual_core",
            build(
                &hd(EncoderKind::Ffmpeg),
                "/dev/video1",
                RTSP_OUT,
                &usb_mjpeg(),
                &dual_core(),
                false,
            ),
        ),
        (
            "usb_mjpeg_ffmpeg_rtsp_rk_640x480_15",
            build(
                &params(EncoderKind::Ffmpeg, 640, 480, 15, 1500),
                "/dev/video1",
                RTSP_OUT,
                &usb_mjpeg(),
                &rockchip(),
                false,
            ),
        ),
        (
            "usb_mjpeg_ffmpeg_udp_rk",
            build(
                &hd(EncoderKind::Ffmpeg),
                "/dev/video1",
                UDP_OUT,
                &usb_mjpeg(),
                &rockchip(),
                false,
            ),
        ),
        (
            "usb_mjpeg_ffmpeg_udp_rk_sei",
            build(
                &hd(EncoderKind::Ffmpeg),
                "/dev/video1",
                UDP_OUT,
                &usb_mjpeg(),
                &rockchip(),
                true,
            ),
        ),
        (
            "usb_yuyv_ffmpeg_rtsp_rk",
            build(
                &hd(EncoderKind::Ffmpeg),
                "/dev/video2",
                RTSP_OUT,
                &usb_yuyv(),
                &rockchip(),
                false,
            ),
        ),
        (
            "usb_mjpeg_ffmpeg_rtsp_pi_hw",
            build(
                &hd(EncoderKind::Ffmpeg),
                "/dev/video1",
                RTSP_OUT,
                &usb_mjpeg(),
                &non_rk_hw(),
                false,
            ),
        ),
        (
            "usb_mjpeg_ffmpeg_rtsp_pi_hw_sei",
            build(
                &hd(EncoderKind::Ffmpeg),
                "/dev/video1",
                RTSP_OUT,
                &usb_mjpeg(),
                &non_rk_hw(),
                true,
            ),
        ),
        (
            "usb_mjpeg_ffmpeg_rtsp_nonrk_sw",
            build(
                &hd(EncoderKind::Ffmpeg),
                "/dev/video1",
                RTSP_OUT,
                &usb_mjpeg(),
                &non_rk_sw(),
                false,
            ),
        ),
        (
            "ip_ffmpeg_rtsp_rk",
            build(
                &hd(EncoderKind::Ffmpeg),
                "rtsp://10.0.0.9:554/live",
                RTSP_OUT,
                &ip_cam(),
                &rockchip(),
                false,
            ),
        ),
        (
            "gst_usb_mjpeg_rtsp_rk_mpp",
            build(
                &hd(EncoderKind::Gstreamer),
                "/dev/video1",
                RTSP_OUT,
                &usb_mjpeg(),
                &rk_mpp(),
                false,
            ),
        ),
        (
            "gst_usb_mjpeg_rtsp_rk_mpp_noclient",
            build(
                &hd(EncoderKind::Gstreamer),
                "/dev/video1",
                RTSP_OUT,
                &usb_mjpeg(),
                &rk_mpp_noclient(),
                false,
            ),
        ),
        (
            "gst_usb_yuyv_rtsp_nonrk_x264",
            build(
                &hd(EncoderKind::Gstreamer),
                "/dev/video2",
                RTSP_OUT,
                &usb_yuyv(),
                &non_rk_sw(),
                false,
            ),
        ),
        (
            "gst_usb_mjpeg_file_rk_mpp",
            build(
                &hd(EncoderKind::Gstreamer),
                "/dev/video1",
                "/var/lib/ados/cap.h264",
                &usb_mjpeg(),
                &rk_mpp(),
                false,
            ),
        ),
        (
            "gst_usb_mjpeg_rtsp_rk_mpp_sei_skip",
            build(
                &hd(EncoderKind::Gstreamer),
                "/dev/video1",
                RTSP_OUT,
                &usb_mjpeg(),
                &rk_mpp(),
                true,
            ),
        ),
        ("ffmpeg_rot90", ff(90, false, false)),
        ("ffmpeg_rot180", ff(180, false, false)),
        ("ffmpeg_rot270", ff(270, false, false)),
        ("ffmpeg_hflip", ff(0, true, false)),
        ("ffmpeg_vflip", ff(0, false, true)),
        ("ffmpeg_rot180_hflip", ff(180, true, false)),
        (
            "ffmpeg_keyframe5",
            build(
                &params_cfg(
                    EncoderKind::Ffmpeg,
                    1280,
                    720,
                    30,
                    4000,
                    "auto",
                    0,
                    false,
                    false,
                    5,
                ),
                "/dev/video1",
                RTSP_OUT,
                &usb_mjpeg(),
                &rockchip(),
                false,
            ),
        ),
        (
            "ffmpeg_override_software",
            build(
                &params_cfg(
                    EncoderKind::Ffmpeg,
                    1280,
                    720,
                    30,
                    4000,
                    "software",
                    0,
                    false,
                    false,
                    0,
                ),
                "/dev/video1",
                RTSP_OUT,
                &usb_mjpeg(),
                &non_rk_hw(),
                false,
            ),
        ),
        (
            "ffmpeg_override_v4l2m2m",
            build(
                &params_cfg(
                    EncoderKind::Ffmpeg,
                    1280,
                    720,
                    30,
                    4000,
                    "v4l2m2m",
                    0,
                    false,
                    false,
                    0,
                ),
                "/dev/video1",
                RTSP_OUT,
                &usb_mjpeg(),
                &rockchip(),
                false,
            ),
        ),
        ("gst_omx_argv", omx("auto", 0)),
        ("gst_omx_rot90", omx("auto", 90)),
        ("gst_omx_explicit", omx("omx", 0)),
        ("gst_omx_sw_override", omx("software", 0)),
        ("gst_x264_rot90", gst(90, false, false)),
        ("gst_x264_rot180", gst(180, false, false)),
        ("gst_x264_rot270", gst(270, false, false)),
        ("gst_x264_hflip", gst(0, true, false)),
        ("gst_x264_vflip", gst(0, false, true)),
    ]
}

#[test]
fn fixture_table_matches_the_file() {
    let cases = fixture_cases();
    for (name, argv) in &cases {
        assert_eq!(&expected(name), argv, "argument vector {name:?} differs");
    }
    assert_eq!(cases.len(), 38);
}

#[test]
fn csi_rpicam_rtsp_rk() {
    let got = build(
        &params(EncoderKind::RpicamVid, 1280, 720, 30, 4000),
        "/dev/video0",
        RTSP_OUT,
        &csi(),
        &rockchip(),
        false,
    );
    assert_eq!(got, expected("csi_rpicam_rtsp_rk"));
}

#[test]
fn csi_rpicam_rtsp_rk_sei() {
    let got = build(
        &params(EncoderKind::RpicamVid, 1280, 720, 30, 4000),
        "/dev/video0",
        RTSP_OUT,
        &csi(),
        &rockchip(),
        true,
    );
    assert_eq!(got, expected("csi_rpicam_rtsp_rk_sei"));
}

#[test]
fn csi_rpicam_file() {
    let got = build(
        &params(EncoderKind::RpicamVid, 1920, 1080, 60, 8000),
        "/dev/video0",
        "/var/lib/ados/out.h264",
        &csi(),
        &rockchip(),
        false,
    );
    assert_eq!(got, expected("csi_rpicam_file"));
}

fn flag_value(cmd: &[String], flag: &str) -> Option<String> {
    if cmd.first().map(String::as_str) == Some("bash") {
        let mut it = cmd[2].split(' ');
        while let Some(t) = it.next() {
            if t == flag {
                return it.next().map(str::to_string);
            }
        }
        return None;
    }
    cmd.iter()
        .position(|t| t == flag)
        .and_then(|i| cmd.get(i + 1))
        .cloned()
}

fn has_flag(cmd: &[String], flag: &str) -> bool {
    if cmd.first().map(String::as_str) == Some("bash") {
        return cmd[2].split(' ').any(|t| t == flag);
    }
    cmd.iter().any(|t| t == flag)
}

#[test]
fn rpicam_intra_follows_the_gop_contract_not_a_hardcoded_30() {
    for (fps, want_intra) in [(30u32, "15"), (60, "30"), (15, "7")] {
        let p = params(EncoderKind::RpicamVid, 1280, 720, fps, 4000);
        assert_eq!(p.keyframe_interval, 0, "default keyframe_interval");
        let got = build(&p, "/dev/video0", RTSP_OUT, &csi(), &rockchip(), false);
        assert_eq!(
            flag_value(&got, "--intra").as_deref(),
            Some(want_intra),
            "--intra at {fps}fps must equal gop_interval"
        );
    }
    let p = params_cfg(
        EncoderKind::RpicamVid,
        1280,
        720,
        30,
        4000,
        "auto",
        0,
        false,
        false,
        45,
    );
    let got = build(&p, "/dev/video0", RTSP_OUT, &csi(), &rockchip(), false);
    assert_eq!(flag_value(&got, "--intra").as_deref(), Some("45"));
}

#[test]
fn rpicam_encodes_high_4_1_to_match_the_browser_player() {
    for out in [RTSP_OUT, "/var/lib/ados/out.h264"] {
        let got = build(
            &params(EncoderKind::RpicamVid, 1280, 720, 30, 4000),
            "/dev/video0",
            out,
            &csi(),
            &rockchip(),
            false,
        );
        assert_eq!(flag_value(&got, "--profile").as_deref(), Some("high"));
        assert_eq!(flag_value(&got, "--level").as_deref(), Some("4.1"));
        assert!(!has_flag(&got, "baseline"), "no baseline profile anywhere");
    }
}

#[test]
fn rpicam_low_latency_only_on_pi5_class_boards() {
    let p = params(EncoderKind::RpicamVid, 1280, 720, 30, 4000);
    let on_pi5 = build(&p, "/dev/video0", RTSP_OUT, &csi(), &pi5(), false);
    assert!(has_flag(&on_pi5, "--low-latency"));
    let elsewhere = build(&p, "/dev/video0", RTSP_OUT, &csi(), &rockchip(), false);
    assert!(!has_flag(&elsewhere, "--low-latency"));

    let file = build(
        &p,
        "/dev/video0",
        "/var/lib/ados/out.h264",
        &csi(),
        &pi5(),
        false,
    );
    assert!(has_flag(&file, "--low-latency"));
    let sei = build(&p, "/dev/video0", RTSP_OUT, &csi(), &pi5(), true);
    assert!(has_flag(&sei, "--low-latency"));
}

#[test]
fn soc_compatible_classifies_pi5_class_silicon() {
    let pi5 = [
        "raspberrypi,5-model-b".to_string(),
        "brcm,bcm2712".to_string(),
    ];
    let cm5 = [
        "raspberrypi,5-compute-module".to_string(),
        "brcm,bcm2712".to_string(),
    ];
    assert!(soc_is_pi5_class(&pi5));
    assert!(soc_is_pi5_class(&cm5));
    assert!(soc_is_pi5_class(&["brcm,bcm2712".to_string()]));

    assert!(!soc_is_pi5_class(&[
        "raspberrypi,4-model-b".to_string(),
        "brcm,bcm2711".to_string(),
    ]));
    assert!(!soc_is_pi5_class(&[
        "raspberrypi,4-compute-module".to_string(),
        "brcm,bcm2711".to_string(),
    ]));
    assert!(!soc_is_pi5_class(&[
        "radxa,rock-5c".to_string(),
        "rockchip,rk3588s".to_string(),
    ]));
    assert!(!soc_is_pi5_class(&[]));
}

#[test]
fn usb_mjpeg_ffmpeg_rtsp_rk() {
    let got = build(
        &params(EncoderKind::Ffmpeg, 1280, 720, 30, 4000),
        "/dev/video1",
        RTSP_OUT,
        &usb_mjpeg(),
        &rockchip(),
        false,
    );
    assert_eq!(got, expected("usb_mjpeg_ffmpeg_rtsp_rk"));
}

#[test]
fn usb_mjpeg_ffmpeg_rtsp_rk_sei() {
    let got = build(
        &params(EncoderKind::Ffmpeg, 1280, 720, 30, 4000),
        "/dev/video1",
        RTSP_OUT,
        &usb_mjpeg(),
        &rockchip(),
        true,
    );
    assert_eq!(got, expected("usb_mjpeg_ffmpeg_rtsp_rk_sei"));
}

#[test]
fn usb_mjpeg_ffmpeg_rtsp_rk_640x480_15() {
    let got = build(
        &params(EncoderKind::Ffmpeg, 640, 480, 15, 1500),
        "/dev/video1",
        RTSP_OUT,
        &usb_mjpeg(),
        &rockchip(),
        false,
    );
    assert_eq!(got, expected("usb_mjpeg_ffmpeg_rtsp_rk_640x480_15"));
}

#[test]
fn usb_mjpeg_ffmpeg_udp_rk() {
    let got = build(
        &params(EncoderKind::Ffmpeg, 1280, 720, 30, 4000),
        "/dev/video1",
        UDP_OUT,
        &usb_mjpeg(),
        &rockchip(),
        false,
    );
    assert_eq!(got, expected("usb_mjpeg_ffmpeg_udp_rk"));
}

#[test]
fn usb_mjpeg_ffmpeg_udp_rk_sei() {
    let got = build(
        &params(EncoderKind::Ffmpeg, 1280, 720, 30, 4000),
        "/dev/video1",
        UDP_OUT,
        &usb_mjpeg(),
        &rockchip(),
        true,
    );
    assert_eq!(got, expected("usb_mjpeg_ffmpeg_udp_rk_sei"));
}

#[test]
fn usb_yuyv_ffmpeg_rtsp_rk() {
    let got = build(
        &params(EncoderKind::Ffmpeg, 1280, 720, 30, 4000),
        "/dev/video2",
        RTSP_OUT,
        &usb_yuyv(),
        &rockchip(),
        false,
    );
    assert_eq!(got, expected("usb_yuyv_ffmpeg_rtsp_rk"));
}

#[test]
fn usb_mjpeg_ffmpeg_rtsp_pi_hw() {
    let got = build(
        &params(EncoderKind::Ffmpeg, 1280, 720, 30, 4000),
        "/dev/video1",
        RTSP_OUT,
        &usb_mjpeg(),
        &non_rk_hw(),
        false,
    );
    assert_eq!(got, expected("usb_mjpeg_ffmpeg_rtsp_pi_hw"));
}

#[test]
fn usb_mjpeg_ffmpeg_rtsp_pi_hw_sei() {
    let got = build(
        &params(EncoderKind::Ffmpeg, 1280, 720, 30, 4000),
        "/dev/video1",
        RTSP_OUT,
        &usb_mjpeg(),
        &non_rk_hw(),
        true,
    );
    assert_eq!(got, expected("usb_mjpeg_ffmpeg_rtsp_pi_hw_sei"));
}

#[test]
fn usb_mjpeg_ffmpeg_rtsp_nonrk_sw() {
    let got = build(
        &params(EncoderKind::Ffmpeg, 1280, 720, 30, 4000),
        "/dev/video1",
        RTSP_OUT,
        &usb_mjpeg(),
        &non_rk_sw(),
        false,
    );
    assert_eq!(got, expected("usb_mjpeg_ffmpeg_rtsp_nonrk_sw"));
}

#[test]
fn ip_ffmpeg_rtsp_rk() {
    let got = build(
        &params(EncoderKind::Ffmpeg, 1280, 720, 30, 4000),
        "rtsp://10.0.0.9:554/live",
        RTSP_OUT,
        &ip_cam(),
        &rockchip(),
        false,
    );
    assert_eq!(got, expected("ip_ffmpeg_rtsp_rk"));
}

#[test]
fn gst_usb_mjpeg_rtsp_rk_mpp() {
    let got = build(
        &params(EncoderKind::Gstreamer, 1280, 720, 30, 4000),
        "/dev/video1",
        RTSP_OUT,
        &usb_mjpeg(),
        &rk_mpp(),
        false,
    );
    assert_eq!(got, expected("gst_usb_mjpeg_rtsp_rk_mpp"));
}

#[test]
fn gst_usb_mjpeg_rtsp_rk_mpp_noclient() {
    let got = build(
        &params(EncoderKind::Gstreamer, 1280, 720, 30, 4000),
        "/dev/video1",
        RTSP_OUT,
        &usb_mjpeg(),
        &rk_mpp_noclient(),
        false,
    );
    assert_eq!(got, expected("gst_usb_mjpeg_rtsp_rk_mpp_noclient"));
}

#[test]
fn gst_usb_yuyv_rtsp_nonrk_x264() {
    let got = build(
        &params(EncoderKind::Gstreamer, 1280, 720, 30, 4000),
        "/dev/video2",
        RTSP_OUT,
        &usb_yuyv(),
        &non_rk_sw(),
        false,
    );
    assert_eq!(got, expected("gst_usb_yuyv_rtsp_nonrk_x264"));
}

#[test]
fn gst_usb_mjpeg_file_rk_mpp() {
    let got = build(
        &params(EncoderKind::Gstreamer, 1280, 720, 30, 4000),
        "/dev/video1",
        "/var/lib/ados/cap.h264",
        &usb_mjpeg(),
        &rk_mpp(),
        false,
    );
    assert_eq!(got, expected("gst_usb_mjpeg_file_rk_mpp"));
}

#[test]
fn gst_usb_mjpeg_rtsp_rk_mpp_sei_skip() {
    let got = build(
        &params(EncoderKind::Gstreamer, 1280, 720, 30, 4000),
        "/dev/video1",
        RTSP_OUT,
        &usb_mjpeg(),
        &rk_mpp(),
        true,
    );
    assert_eq!(got, expected("gst_usb_mjpeg_rtsp_rk_mpp_sei_skip"));
}

#[test]
fn probe_absent_node_selects_libx264() {
    let env = rockchip();
    let got = build(
        &params(EncoderKind::Ffmpeg, 1280, 720, 30, 4000),
        "/dev/video1",
        RTSP_OUT,
        &usb_mjpeg(),
        &env,
        false,
    );
    let ci = got.iter().position(|t| t == "-c:v").unwrap();
    assert_eq!(got[ci + 1], "libx264");
    assert!(!got.iter().any(|t| t == "h264_v4l2m2m"));
}

#[test]
fn probe_present_device_selects_h264_v4l2m2m() {
    let env = EncoderEnv {
        hw_h264: hw_present(),
        ..rockchip()
    };
    let got = build(
        &params(EncoderKind::Ffmpeg, 1280, 720, 30, 4000),
        "/dev/video1",
        RTSP_OUT,
        &usb_mjpeg(),
        &env,
        false,
    );
    let ci = got.iter().position(|t| t == "-c:v").unwrap();
    assert_eq!(got[ci + 1], "h264_v4l2m2m");
    assert!(!got.iter().any(|t| t == "libx264"));
}

#[test]
fn validate_source_rejects_disallowed_chars() {
    assert!(matches!(
        validate_source("rm; rf"),
        Err(EncoderError::InvalidSource(_))
    ));
    assert!(matches!(
        validate_source("a$(whoami)"),
        Err(EncoderError::InvalidSource(_))
    ));
    assert_eq!(validate_source("-").unwrap(), "-");
    assert_eq!(validate_source("/dev/video0").unwrap(), "/dev/video0");
    assert_eq!(
        validate_source("rtsp://127.0.0.1:8554/main").unwrap(),
        "rtsp://127.0.0.1:8554/main"
    );
}

#[test]
fn build_rejects_bad_source() {
    let p = params(EncoderKind::Ffmpeg, 1280, 720, 30, 4000);
    let err = build_encoder_command(&p, "bad source", RTSP_OUT, None, &rockchip());
    assert!(matches!(err, Err(EncoderError::InvalidSource(_))));
}

#[test]
fn gop_floors_at_one() {
    let p = params(EncoderKind::Ffmpeg, 320, 240, 1, 500);
    let got =
        build_encoder_command(&p, "/dev/video1", RTSP_OUT, Some(&usb_mjpeg()), &rockchip())
            .unwrap();
    let gi = got.iter().position(|t| t == "-g").unwrap();
    assert_eq!(got[gi + 1], "1");
}

#[test]
fn detect_encoder_matches_python_matrix() {
    assert_eq!(
        detect_encoder_for_camera(CameraType::Csi, true, true, true),
        Some(EncoderKind::RpicamVid)
    );
    assert_eq!(
        detect_encoder_for_camera(CameraType::Csi, false, true, true),
        Some(EncoderKind::Ffmpeg)
    );
    assert_eq!(
        detect_encoder_for_camera(CameraType::Csi, false, false, true),
        None
    );
    assert_eq!(
        detect_encoder_for_camera(CameraType::Usb, true, true, true),
        Some(EncoderKind::Ffmpeg)
    );
    assert_eq!(
        detect_encoder_for_camera(CameraType::Usb, true, false, true),
        Some(EncoderKind::Gstreamer)
    );
    assert_eq!(
        detect_encoder_for_camera(CameraType::Ip, false, false, false),
        None
    );
}

#[test]
fn encoder_label_names_the_codec_element_the_command_actually_runs() {
    let sw = build(
        &params(EncoderKind::Ffmpeg, 1280, 720, 30, 4000),
        "/dev/video1",
        RTSP_OUT,
        &usb_mjpeg(),
        &non_rk_sw(),
        false,
    );
    assert!(sw.iter().any(|a| a == "libx264"), "sanity");
    assert_eq!(encoder_label(EncoderKind::Ffmpeg, &sw), "ffmpeg-libx264");
    assert!(!encoder_is_hardware("ffmpeg-libx264"));

    let hw = build(
        &params(EncoderKind::Ffmpeg, 1280, 720, 30, 4000),
        "/dev/video1",
        RTSP_OUT,
        &usb_mjpeg(),
        &non_rk_hw(),
        false,
    );
    assert_eq!(
        encoder_label(EncoderKind::Ffmpeg, &hw),
        "ffmpeg-h264_v4l2m2m"
    );
    assert!(encoder_is_hardware("ffmpeg-h264_v4l2m2m"));

    let csi_cmd = build(
        &params(EncoderKind::RpicamVid, 1280, 720, 30, 4000),
        "/dev/video0",
        RTSP_OUT,
        &csi(),
        &rockchip(),
        false,
    );
    assert_eq!(
        encoder_label(EncoderKind::RpicamVid, &csi_cmd),
        "rpicam-vid"
    );
    assert!(encoder_is_hardware("rpicam-vid"));

    let gst_hw = build(
        &params(EncoderKind::Gstreamer, 1280, 720, 30, 4000),
        "/dev/video1",
        RTSP_OUT,
        &usb_mjpeg(),
        &rk_mpp(),
        false,
    );
    assert_eq!(
        encoder_label(EncoderKind::Gstreamer, &gst_hw),
        "gstreamer-mpph264enc"
    );
    assert!(encoder_is_hardware("gstreamer-mpph264enc"));

    let gst_sw = build(
        &params(EncoderKind::Gstreamer, 1280, 720, 30, 4000),
        "/dev/video1",
        RTSP_OUT,
        &usb_mjpeg(),
        &non_rk_sw(),
        false,
    );
    assert_eq!(
        encoder_label(EncoderKind::Gstreamer, &gst_sw),
        "gstreamer-x264enc"
    );
    assert!(!encoder_is_hardware("gstreamer-x264enc"));

    assert_eq!(
        encoder_label(
            EncoderKind::Ffmpeg,
            &["ffmpeg".to_string(), "-c".into(), "copy".into()]
        ),
        "ffmpeg-unknown"
    );
    assert!(!encoder_is_hardware("ffmpeg-unknown"));
}

#[test]
fn select_input_format_priority() {
    assert_eq!(select_input_format(Some(&usb_mjpeg())), Some("mjpeg"));
    assert_eq!(select_input_format(Some(&usb_yuyv())), Some("yuyv"));
    assert_eq!(select_input_format(None), None);
    let unknown = CameraInfo {
        camera_type: CameraType::Usb,
        device_path: "/dev/video9".into(),
        capabilities: vec!["nv12".into()],
    };
    assert_eq!(select_input_format(Some(&unknown)), None);
}

#[test]
fn shell_quote_matches_python_minimal_quote() {
    assert_eq!(shell_quote("plain"), "plain");
    assert_eq!(shell_quote("/dev/video0"), "/dev/video0");
    assert_eq!(shell_quote(""), "''");
    assert_eq!(shell_quote("a b"), "'a b'");
    assert_eq!(shell_quote("it's"), "'it'\\''s'");
    assert_eq!(shell_quote("a|b"), "'a|b'");
}

const SINK: &str = "/run/ados/vision-tap-main.sock";

fn graph_pads(graph: &str) -> (Vec<String>, Vec<String>) {
    let mut ins: Vec<String> = Vec::new();
    let mut outs: Vec<String> = Vec::new();
    for chain in graph.split(';') {
        let mut rest = chain.trim();
        while let Some(stripped) = rest.strip_prefix('[') {
            let end = stripped.find(']').expect("filter label is terminated");
            ins.push(stripped[..end].to_string());
            rest = &stripped[end + 1..];
        }
        let mut tail = rest;
        let mut trailing: Vec<String> = Vec::new();
        while tail.ends_with(']') {
            let start = tail.rfind('[').expect("filter label is terminated");
            trailing.push(tail[start + 1..tail.len() - 1].to_string());
            tail = &tail[..start];
        }
        trailing.reverse();
        outs.extend(trailing);
    }
    (ins, outs)
}

fn mapped_labels(cmd: &[String]) -> Vec<String> {
    cmd.windows(2)
        .filter(|w| w[0] == "-map")
        .map(|w| {
            w[1].trim_start_matches('[')
                .trim_end_matches(']')
                .to_string()
        })
        .collect()
}

fn has_pair(cmd: &[String], flag: &str, value: &str) -> bool {
    cmd.windows(2).any(|w| w[0] == flag && w[1] == value)
}

fn graph_termination_check(cmd: &[String]) -> Result<(), String> {
    let Some(fc) = cmd.iter().position(|t| t == "-filter_complex") else {
        return Err("no -filter_complex emitted".into());
    };
    let graph = &cmd[fc + 1];
    let (ins, outs) = graph_pads(graph);
    let mapped = mapped_labels(cmd);

    if outs.len() < 2 {
        return Err(format!("graph does not fan out: {graph}"));
    }
    for pad in &outs {
        if !mapped.contains(pad) && !ins.contains(pad) {
            return Err(format!(
                "filter output [{pad}] terminates nowhere. ffmpeg cannot bind the \
                 graph and the encoder exits before it opens the camera, so the node \
                 loses ALL video. graph={graph} maps={mapped:?}"
            ));
        }
    }
    for pad in &ins {
        if !pad.contains(':') && !outs.contains(pad) {
            return Err(format!(
                "filter input [{pad}] has no producer. graph={graph}"
            ));
        }
    }
    for label in &mapped {
        if !outs.contains(label) {
            return Err(format!(
                "-map [{label}] names no graph output. graph={graph}"
            ));
        }
    }
    if mapped.len() != 2 {
        return Err(format!("expected one -map per output file: {mapped:?}"));
    }
    Ok(())
}

fn raw_tap_base(rotation: u32) -> Vec<String> {
    build_encoder_command(
        &EncoderParams {
            rtp_fanout: false,
            rotation,
            ..params(EncoderKind::Ffmpeg, 1280, 720, 30, 4000)
        },
        "/dev/video1",
        RTSP_OUT,
        Some(&usb_mjpeg()),
        &rockchip(),
    )
    .unwrap()
}

#[test]
fn raw_tap_graph_terminates_every_branch() {
    let cmd =
        augment_encoder_with_raw_tap(&raw_tap_base(0), RTSP_OUT, 10, 640, 480, "rgb24", SINK);
    graph_termination_check(&cmd).expect("emitted graph must be fully terminated");

    let unterminated: Vec<String> = [
        "ffmpeg",
        "-filter_complex",
        "split=2[enc][vis];[vis]fps=10,scale=640:480[visout]",
        "-i",
        "/dev/video1",
        "-f",
        "rtsp",
        RTSP_OUT,
        "-map",
        "[visout]",
        "-f",
        "rawvideo",
        SINK,
    ]
    .iter()
    .map(|s| s.to_string())
    .collect();
    assert!(
        graph_termination_check(&unterminated).is_err(),
        "the unterminated-[enc] form must be rejected"
    );
}

#[test]
fn raw_tap_preserves_the_encode_and_publish_settings() {
    let base = raw_tap_base(0);
    let cmd = augment_encoder_with_raw_tap(&base, RTSP_OUT, 10, 640, 480, "rgb24", SINK);

    for (flag, value) in [
        ("-c:v", "libx264"),
        ("-b:v", "4000k"),
        ("-g", "15"),
        ("-pix_fmt", "yuv420p"),
        ("-bsf:v", "h264_mp4toannexb,dump_extra=freq=keyframe"),
        ("-rtsp_transport", "tcp"),
        ("-f", "rtsp"),
    ] {
        assert!(
            has_pair(&base, flag, value) && has_pair(&cmd, flag, value),
            "{flag} {value} must survive the splice"
        );
    }
    let uri_at = cmd.iter().position(|t| t == RTSP_OUT).expect("publish URI");
    let sink_at = cmd.iter().position(|t| t == SINK).expect("tap sink");
    assert!(
        uri_at < sink_at,
        "publish output comes before the tap output"
    );
    assert!(has_pair(&cmd, "-pix_fmt", "rgb24"));
    assert!(has_pair(&cmd, "-f", "rawvideo"));
    assert_eq!(cmd.last().unwrap(), SINK);
    let fc = cmd.iter().position(|t| t == "-filter_complex").unwrap();
    assert!(cmd[fc + 1].contains("fps=10"));
    assert!(cmd[fc + 1].contains("scale=640:480"));
}

#[test]
fn raw_tap_folds_the_orientation_transform_into_the_graph() {
    let base = raw_tap_base(90);
    assert!(has_pair(&base, "-vf", "transpose=1"), "base carries -vf");

    let cmd = augment_encoder_with_raw_tap(&base, RTSP_OUT, 10, 640, 480, "rgb24", SINK);
    assert!(
        !cmd.iter().any(|t| t == "-vf"),
        "no -vf may survive beside -filter_complex: {cmd:?}"
    );
    let fc = cmd.iter().position(|t| t == "-filter_complex").unwrap();
    let graph = &cmd[fc + 1];
    let rot = graph
        .find("transpose=1")
        .expect("transform is in the graph");
    let split = graph.find("split=2").expect("split is in the graph");
    assert!(rot < split, "the transform feeds the split: {graph}");
    graph_termination_check(&cmd).expect("rotated graph must be fully terminated");
}

#[test]
fn raw_tap_is_a_noop_on_the_radio_fanout_form() {
    let base = build_encoder_command(
        &params(EncoderKind::Ffmpeg, 1280, 720, 30, 4000),
        "/dev/video1",
        RTSP_OUT,
        Some(&usb_mjpeg()),
        &rockchip(),
    )
    .unwrap();
    assert!(base.last().unwrap().starts_with("[f=rtsp:"), "fan-out form");
    let augmented = augment_encoder_with_raw_tap(
        &base,
        RTSP_OUT,
        10,
        640,
        480,
        "rgb24",
        "/run/ados/vision-tap-main.sock",
    );
    assert_eq!(augmented, base);
}

#[test]
fn raw_tap_leaves_bash_pipeline_unchanged() {
    let base = build_encoder_command(
        &params(EncoderKind::RpicamVid, 1280, 720, 30, 4000),
        "/dev/video0",
        RTSP_OUT,
        Some(&csi()),
        &rockchip(),
    )
    .unwrap();
    assert_eq!(base[0], "bash");
    let augmented =
        augment_encoder_with_raw_tap(&base, RTSP_OUT, 10, 640, 480, "rgb24", "/s.sock");
    assert_eq!(augmented, base);
}

#[test]
fn raw_tap_leaves_mismatched_output_unchanged() {
    let base = build_encoder_command(
        &params(EncoderKind::Ffmpeg, 1280, 720, 30, 4000),
        "/dev/video1",
        RTSP_OUT,
        Some(&usb_mjpeg()),
        &rockchip(),
    )
    .unwrap();
    let augmented = augment_encoder_with_raw_tap(
        &base,
        "rtsp://wrong/output",
        10,
        640,
        480,
        "rgb24",
        "/s.sock",
    );
    assert_eq!(augmented, base);
}

#[test]
fn unsupported_codecs_are_refused_on_every_builder_arm() {
    for codec in ["h265", "hevc", "mjpeg", "av1", "H264", ""] {
        for (kind, source, camera, env) in [
            (EncoderKind::Ffmpeg, "/dev/video1", usb_mjpeg(), rockchip()),
            (EncoderKind::RpicamVid, "/dev/video0", csi(), rockchip()),
            (EncoderKind::Gstreamer, "/dev/video1", usb_mjpeg(), rk_mpp()),
        ] {
            let err = build_encoder_command(
                &EncoderParams {
                    codec: codec.into(),
                    ..params(kind, 1280, 720, 30, 4000)
                },
                source,
                RTSP_OUT,
                Some(&camera),
                &env,
            )
            .expect_err("an untunable codec must not produce an argv");
            assert_eq!(err, EncoderError::UnsupportedCodec(codec.to_string()));
        }
    }
}

#[test]
fn unsupported_codec_error_names_the_framing_reason() {
    let text = EncoderError::UnsupportedCodec("h265".into()).message();
    for needle in ["h265", "-g", "SPS/PPS", "payload type", "h264"] {
        assert!(text.contains(needle), "{needle:?} missing from: {text}");
    }
}

#[test]
fn h264_still_builds_on_every_arm() {
    for (kind, source, camera, env) in [
        (EncoderKind::Ffmpeg, "/dev/video1", usb_mjpeg(), rockchip()),
        (EncoderKind::RpicamVid, "/dev/video0", csi(), rockchip()),
        (EncoderKind::Gstreamer, "/dev/video1", usb_mjpeg(), rk_mpp()),
    ] {
        let cmd = build_encoder_command(
            &params(kind, 1280, 720, 30, 4000),
            source,
            RTSP_OUT,
            Some(&camera),
            &env,
        )
        .expect("h264 builds");
        assert!(!cmd.is_empty());
    }
}

#[test]
fn gst_omx_selects_omxh264videoenc_with_nv12_and_low_latency() {
    let got = build(
        &params(EncoderKind::Gstreamer, 1280, 720, 30, 4000),
        "/dev/video2",
        RTSP_OUT,
        &usb_yuyv(),
        &allwinner_omx(),
        false,
    );
    assert_eq!(got, expected("gst_omx_argv"));
    assert!(got.iter().any(|a| a == "omxh264videoenc"));
    assert!(encoder_is_hardware("gstreamer-omxh264videoenc"));
}

#[test]
fn gst_omx_rotation90_inserts_videoflip() {
    let got = build(
        &params_cfg(
            EncoderKind::Gstreamer,
            1280,
            720,
            30,
            4000,
            "auto",
            90,
            false,
            false,
            0,
        ),
        "/dev/video2",
        RTSP_OUT,
        &usb_yuyv(),
        &allwinner_omx(),
        false,
    );
    assert_eq!(got, expected("gst_omx_rot90"));
}

#[test]
fn gst_explicit_omx_and_software_override() {
    let omx = build(
        &params_cfg(
            EncoderKind::Gstreamer,
            1280,
            720,
            30,
            4000,
            "omx",
            0,
            false,
            false,
            0,
        ),
        "/dev/video2",
        RTSP_OUT,
        &usb_yuyv(),
        &allwinner_omx(),
        false,
    );
    assert_eq!(omx, expected("gst_omx_explicit"));
    assert_eq!(
        omx,
        expected("gst_omx_argv"),
        "explicit omx == auto on vendor"
    );

    let sw = build(
        &params_cfg(
            EncoderKind::Gstreamer,
            1280,
            720,
            30,
            4000,
            "software",
            0,
            false,
            false,
            0,
        ),
        "/dev/video2",
        RTSP_OUT,
        &usb_yuyv(),
        &allwinner_omx(),
        false,
    );
    assert_eq!(sw, expected("gst_omx_sw_override"));
    assert!(!sw.iter().any(|a| a == "omxh264videoenc"));
    assert!(sw.iter().any(|a| a == "x264enc"));
    assert!(!encoder_is_hardware("gstreamer-x264enc"));
}

#[test]
fn ffmpeg_rotation_and_flip_filter_insertion() {
    let ff = |rot: u32, h: bool, v: bool| {
        build(
            &params_cfg(
                EncoderKind::Ffmpeg,
                1280,
                720,
                30,
                4000,
                "auto",
                rot,
                h,
                v,
                0,
            ),
            "/dev/video1",
            RTSP_OUT,
            &usb_mjpeg(),
            &rockchip(),
            false,
        )
    };
    assert_eq!(ff(90, false, false), expected("ffmpeg_rot90"));
    assert_eq!(ff(180, false, false), expected("ffmpeg_rot180"));
    assert_eq!(ff(270, false, false), expected("ffmpeg_rot270"));
    assert_eq!(ff(0, true, false), expected("ffmpeg_hflip"));
    assert_eq!(ff(0, false, true), expected("ffmpeg_vflip"));
    assert_eq!(ff(180, true, false), expected("ffmpeg_rot180_hflip"));
    for (rot, want) in [
        (90, "transpose=1"),
        (180, "transpose=2,transpose=2"),
        (270, "transpose=2"),
    ] {
        let vf = ff(rot, false, false);
        let fi = vf.iter().position(|t| t == "-vf").unwrap();
        assert_eq!(vf[fi + 1], want);
    }
    let flip = ff(0, true, true);
    let fi = flip.iter().position(|t| t == "-vf").unwrap();
    assert_eq!(flip[fi + 1], "hflip,vflip");
}

#[test]
fn gst_x264_rotation_and_flip_filter_insertion() {
    let g = |rot: u32, h: bool, v: bool| {
        build(
            &params_cfg(
                EncoderKind::Gstreamer,
                1280,
                720,
                30,
                4000,
                "auto",
                rot,
                h,
                v,
                0,
            ),
            "/dev/video1",
            RTSP_OUT,
            &usb_mjpeg(),
            &non_rk_sw(),
            false,
        )
    };
    assert_eq!(g(90, false, false), expected("gst_x264_rot90"));
    assert_eq!(g(180, false, false), expected("gst_x264_rot180"));
    assert_eq!(g(270, false, false), expected("gst_x264_rot270"));
    assert_eq!(g(0, true, false), expected("gst_x264_hflip"));
    assert_eq!(g(0, false, true), expected("gst_x264_vflip"));
    for (rot, method) in [
        (90, "method=clockwise"),
        (180, "method=rotate-180"),
        (270, "method=counterclockwise"),
    ] {
        let tok = g(rot, false, false).to_vec();
        assert!(tok.iter().any(|t| t == method), "missing {method}");
        assert!(
            tok.iter()
                .position(|t| t == method)
                .map(|i| i >= 1 && tok[i - 1] == "videoflip")
                .unwrap_or(false),
            "{method} not preceded by a videoflip element"
        );
    }
    let flip = g(0, true, true);
    assert!(flip.iter().any(|t| t == "method=horizontal-flip"));
    assert!(flip.iter().any(|t| t == "method=vertical-flip"));
}

#[test]
fn ffmpeg_override_software_and_v4l2m2m() {
    let sw = build(
        &params_cfg(
            EncoderKind::Ffmpeg,
            1280,
            720,
            30,
            4000,
            "software",
            0,
            false,
            false,
            0,
        ),
        "/dev/video1",
        RTSP_OUT,
        &usb_mjpeg(),
        &non_rk_hw(),
        false,
    );
    assert_eq!(sw, expected("ffmpeg_override_software"));
    assert!(sw.iter().any(|a| a == "libx264"));
    assert!(!encoder_is_hardware("ffmpeg-libx264"));

    let hw = build(
        &params_cfg(
            EncoderKind::Ffmpeg,
            1280,
            720,
            30,
            4000,
            "v4l2m2m",
            0,
            false,
            false,
            0,
        ),
        "/dev/video1",
        RTSP_OUT,
        &usb_mjpeg(),
        &rockchip(),
        false,
    );
    assert_eq!(hw, expected("ffmpeg_override_v4l2m2m"));
    assert!(hw.iter().any(|a| a == "h264_v4l2m2m"));
    assert!(encoder_is_hardware("ffmpeg-h264_v4l2m2m"));
}

#[test]
fn auto_default_stays_ffmpeg_off_vendor_boards() {
    let p = params(EncoderKind::Ffmpeg, 1280, 720, 30, 4000);
    let got =
        build_encoder_command(&p, "/dev/video1", RTSP_OUT, Some(&usb_mjpeg()), &rockchip())
            .unwrap();
    assert!(got.iter().any(|a| a == "libx264"));
    assert!(!got.iter().any(|a| a == "omxh264videoenc"));
}

#[test]
fn ffmpeg_keyframe_interval_overrides_the_gop() {
    let got = build(
        &params_cfg(
            EncoderKind::Ffmpeg,
            1280,
            720,
            30,
            4000,
            "auto",
            0,
            false,
            false,
            5,
        ),
        "/dev/video1",
        RTSP_OUT,
        &usb_mjpeg(),
        &rockchip(),
        false,
    );
    assert_eq!(got, expected("ffmpeg_keyframe5"));
    let gi = got.iter().position(|t| t == "-g").unwrap();
    assert_eq!(got[gi + 1], "5");
    assert_eq!(
        gop_interval(&params(EncoderKind::Ffmpeg, 1280, 720, 30, 4000)),
        15
    );
    assert_eq!(
        gop_interval(&params_cfg(
            EncoderKind::Ffmpeg,
            1280,
            720,
            30,
            4000,
            "auto",
            0,
            false,
            false,
            5
        )),
        5
    );
}

#[test]
fn gstreamer_keyframe_interval_reaches_the_omx_gop() {
    let got = build(
        &params_cfg(
            EncoderKind::Gstreamer,
            1280,
            720,
            30,
            4000,
            "auto",
            0,
            false,
            false,
            5,
        ),
        "/dev/video1",
        RTSP_OUT,
        &usb_yuyv(),
        &allwinner_omx(),
        false,
    );
    let tok = got.to_vec();
    assert!(
        tok.iter().any(|t| t == "interval-intraframes=5"),
        "missing interval-intraframes=5"
    );
}

#[test]
fn omx_encoder_label_and_hardware_flag() {
    let got = build(
        &params(EncoderKind::Gstreamer, 1280, 720, 30, 4000),
        "/dev/video2",
        RTSP_OUT,
        &usb_yuyv(),
        &allwinner_omx(),
        false,
    );
    assert_eq!(
        encoder_label(EncoderKind::Gstreamer, &got),
        "gstreamer-omxh264videoenc"
    );
    assert!(encoder_is_hardware("gstreamer-omxh264videoenc"));
    assert!(!encoder_is_hardware("gstreamer-x264enc"));
}

#[test]
fn v4l2_capture_queue_is_deep_enough_to_absorb_a_scheduler_hiccup() {
    for env in [rockchip(), non_rk_hw()] {
        let got = build(
            &params(EncoderKind::Ffmpeg, 1280, 720, 30, 4000),
            "/dev/video1",
            RTSP_OUT,
            &usb_mjpeg(),
            &env,
            false,
        );
        let depth: u32 = flag_value(&got, "-thread_queue_size")
            .expect("v4l2 input carries -thread_queue_size")
            .parse()
            .expect("numeric queue depth");
        assert!(
            depth >= 64,
            "capture queue depth {depth} drops frames on a loaded SBC"
        );
    }
    let ip = build(
        &params(EncoderKind::Ffmpeg, 1280, 720, 30, 4000),
        "rtsp://10.0.0.9:554/live",
        RTSP_OUT,
        &ip_cam(),
        &rockchip(),
        false,
    );
    assert!(!has_flag(&ip, "-thread_queue_size"));
}

#[test]
fn h264_v4l2m2m_carries_an_explicit_quantizer_bound() {
    let got = build(
        &params(EncoderKind::Ffmpeg, 1280, 720, 30, 4000),
        "/dev/video1",
        RTSP_OUT,
        &usb_mjpeg(),
        &non_rk_hw(),
        false,
    );
    assert!(got.iter().any(|t| t == "h264_v4l2m2m"), "HW path selected");
    let qmin: u32 = flag_value(&got, "-qmin")
        .expect("h264_v4l2m2m carries -qmin")
        .parse()
        .expect("numeric qmin");
    assert_eq!(qmin, V4L2M2M_MIN_QP);
    assert!(qmin > 0, "qmin 0 is ffmpeg's unbounded default");
    assert_eq!(flag_value(&got, "-qmax").as_deref(), Some("51"));

    assert!(!has_flag(&got, "-maxrate"));
    assert!(!has_flag(&got, "-bufsize"));
}

#[test]
fn mpph264enc_rate_control_is_pinned_to_the_link_budget() {
    for kbps in [4000u32, 12000] {
        let got = build(
            &params(EncoderKind::Gstreamer, 1280, 720, 30, kbps),
            "/dev/video1",
            RTSP_OUT,
            &usb_mjpeg(),
            &rk_mpp(),
            false,
        );
        let joined = got.join(" ");
        let bps = kbps * 1000;
        assert!(
            joined.contains(&format!("bps={bps} ")),
            "target bps: {joined}"
        );
        assert!(
            joined.contains(&format!("bps-max={bps} ")),
            "VBV ceiling must equal the link budget: {joined}"
        );
        assert!(joined.contains("rc-mode=vbr"), "rc-mode by name: {joined}");
        assert!(!joined.contains("rc-mode=1"), "no numeric rc-mode");
        assert!(joined.contains("qp-min=18"), "qp-min bound: {joined}");
    }
}

#[test]
fn every_rtsp_publishing_ffmpeg_strips_the_muxer_delay() {
    for (label, cmd) in [
        (
            "libx264 + fan-out",
            build(
                &params(EncoderKind::Ffmpeg, 1280, 720, 30, 4000),
                "/dev/video1",
                RTSP_OUT,
                &usb_mjpeg(),
                &rockchip(),
                false,
            ),
        ),
        (
            "libx264 plain",
            build(
                &EncoderParams {
                    rtp_fanout: false,
                    ..params(EncoderKind::Ffmpeg, 1280, 720, 30, 4000)
                },
                "/dev/video1",
                RTSP_OUT,
                &usb_mjpeg(),
                &rockchip(),
                false,
            ),
        ),
        (
            "h264_v4l2m2m",
            build(
                &params(EncoderKind::Ffmpeg, 1280, 720, 30, 4000),
                "/dev/video1",
                RTSP_OUT,
                &usb_mjpeg(),
                &non_rk_hw(),
                false,
            ),
        ),
        (
            "ip camera",
            build(
                &params(EncoderKind::Ffmpeg, 1280, 720, 30, 4000),
                "rtsp://10.0.0.9:554/live",
                RTSP_OUT,
                &ip_cam(),
                &rockchip(),
                false,
            ),
        ),
        (
            "rpicam bash pipeline",
            build(
                &params(EncoderKind::RpicamVid, 1280, 720, 30, 4000),
                "/dev/video0",
                RTSP_OUT,
                &csi(),
                &rockchip(),
                false,
            ),
        ),
        (
            "gstreamer → ffmpeg bridge",
            build(
                &params(EncoderKind::Gstreamer, 1280, 720, 30, 4000),
                "/dev/video1",
                RTSP_OUT,
                &usb_mjpeg(),
                &rk_mpp_noclient(),
                false,
            ),
        ),
        (
            "SEI-spliced publish stage",
            build(
                &params(EncoderKind::Ffmpeg, 1280, 720, 30, 4000),
                "/dev/video1",
                RTSP_OUT,
                &usb_mjpeg(),
                &rockchip(),
                true,
            ),
        ),
    ] {
        assert_eq!(
            flag_value(&cmd, "-muxdelay").as_deref(),
            Some("0"),
            "{label} must strip the mux delay"
        );
        assert_eq!(
            flag_value(&cmd, "-muxpreload").as_deref(),
            Some("0"),
            "{label} must strip the mux preload"
        );
    }
}

#[test]
fn every_encode_path_repeats_parameter_sets_per_idr() {
    let joined = |cmd: &[String]| cmd.join(" ");

    let rpicam = build(
        &params(EncoderKind::RpicamVid, 1280, 720, 30, 4000),
        "/dev/video0",
        RTSP_OUT,
        &csi(),
        &rockchip(),
        false,
    );
    assert!(has_flag(&rpicam, "--inline"), "rpicam repeats per IDR");

    for (label, env) in [("libx264", rockchip()), ("h264_v4l2m2m", non_rk_hw())] {
        let cmd = build(
            &params(EncoderKind::Ffmpeg, 1280, 720, 30, 4000),
            "/dev/video1",
            RTSP_OUT,
            &usb_mjpeg(),
            &env,
            false,
        );
        let bsf = flag_value(&cmd, "-bsf:v").expect("{label} carries a bitstream filter");
        assert!(
            bsf.contains("dump_extra=freq=keyframe"),
            "{label} must re-insert SPS/PPS per IDR, got {bsf:?}"
        );
        assert_eq!(
            bsf.contains("h264_mp4toannexb"),
            label == "libx264",
            "{label} mp4toannexb placement"
        );
    }

    for (label, env) in [
        ("x264enc software", non_rk_sw()),
        ("mpph264enc", rk_mpp()),
        ("omx", allwinner_omx()),
    ] {
        let cmd = build(
            &params(EncoderKind::Gstreamer, 1280, 720, 30, 4000),
            "/dev/video1",
            RTSP_OUT,
            &usb_mjpeg(),
            &env,
            false,
        );
        assert!(
            joined(&cmd).contains("h264parse config-interval=1"),
            "{label} must re-stamp SPS/PPS per IDR"
        );
    }
}

#[test]
fn the_radio_rtp_copy_comes_out_of_the_encoder_not_a_re_read() {
    let cmd = build(
        &params(EncoderKind::Ffmpeg, 1280, 720, 30, 4000),
        "/dev/video1",
        RTSP_OUT,
        &usb_mjpeg(),
        &rockchip(),
        false,
    );
    assert_eq!(
        flag_value(&cmd, "-f").as_deref(),
        Some("v4l2"),
        "input side"
    );
    let spec = cmd.last().expect("the tee spec is the last token");
    assert_eq!(
        cmd[cmd.len() - 2],
        "tee",
        "the output muxer is the tee: {cmd:?}"
    );
    assert!(spec.contains(&format!(
        "[f=rtsp:rtsp_transport=tcp:max_delay=0:flush_packets=1]{RTSP_OUT}"
    )));
    assert!(spec.contains(&format!(
        "[f=rtp:payload_type={}:ssrc={}:max_delay=0:flush_packets=1]{}",
        ados_media::wfb_tee::WFB_TEE_PAYLOAD_TYPE,
        ados_media::wfb_tee::WFB_TEE_SSRC,
        ados_media::wfb_tee::rtp_destination_url(),
    )));
    assert!(
        !spec.contains("onfail"),
        "shared fate, not a silent degrade"
    );
    assert!(cmd.windows(2).any(|w| w[0] == "-map" && w[1] == "0:v"));
    assert!(ados_media::wfb_tee::cmd_emits_wfb_rtp(&cmd));

    let plain = build(
        &EncoderParams {
            rtp_fanout: false,
            ..params(EncoderKind::Ffmpeg, 1280, 720, 30, 4000)
        },
        "/dev/video1",
        RTSP_OUT,
        &usb_mjpeg(),
        &rockchip(),
        false,
    );
    assert_eq!(plain.last().map(String::as_str), Some(RTSP_OUT));
    assert!(!ados_media::wfb_tee::cmd_emits_wfb_rtp(&plain));
    assert!(!plain.iter().any(|t| t == "tee"));

    for (label, kind, cam, env) in [
        ("rpicam", EncoderKind::RpicamVid, csi(), rockchip()),
        (
            "gstreamer",
            EncoderKind::Gstreamer,
            usb_mjpeg(),
            rk_mpp_noclient(),
        ),
    ] {
        let cmd = build(
            &params(kind, 1280, 720, 30, 4000),
            "/dev/video0",
            RTSP_OUT,
            &cam,
            &env,
            false,
        );
        assert!(
            !ados_media::wfb_tee::cmd_emits_wfb_rtp(&cmd),
            "{label} must keep the separate tap"
        );
    }
}

#[test]
fn the_sei_splice_keeps_both_publish_branches() {
    let cmd = build(
        &params(EncoderKind::Ffmpeg, 1280, 720, 30, 4000),
        "/dev/video1",
        RTSP_OUT,
        &usb_mjpeg(),
        &rockchip(),
        true,
    );
    assert_eq!(cmd[0], "bash");
    let body = &cmd[2];
    let (encode, publish) = body
        .split_once("| /opt/ados/venv/bin/python3 -m ados.services.video.sei_injector |")
        .expect("the injector is spliced between two ffmpeg stages");
    assert!(encode.trim_end().ends_with("-f h264 -"));
    assert!(
        !encode.contains("-f tee"),
        "no muxer left on the encode half"
    );
    assert!(!encode.contains("-map 0:v"));
    assert!(!encode.contains("-rtsp_transport"));
    assert!(!encode.contains("-muxdelay"));
    assert!(publish.contains("-f tee"));
    assert!(publish.contains(RTSP_OUT));
    assert!(publish.contains(&ados_media::wfb_tee::rtp_destination_url()));
    assert!(ados_media::wfb_tee::cmd_emits_wfb_rtp(&cmd));
}

#[test]
fn the_sei_splice_never_touches_the_input() {
    let words = |line: &str| line.split(' ').map(str::to_string).collect::<Vec<_>>();
    let input = "ffmpeg -y -rtsp_transport tcp -i rtsp://10.0.0.9/live";
    let udp = "udp://127.0.0.1:5600";
    let cmd = words(&format!(
        "{input} -c:v libx264 -muxdelay 0 -muxpreload 0 -f mpegts {udp}"
    ));
    let got = wrap_with_sei_inject(&cmd, udp, &rockchip());
    assert_eq!(got[..2], ["bash", "-c"]);
    let encode = format!("{input} -c:v libx264 -f h264 - | ");
    assert!(got[2].starts_with(&encode), "got {}", got[2]);

    // The radio fan-out has no transport of its own either.
    let tee = format!("[f=rtsp:rtsp_transport=tcp]{RTSP_OUT}|[f=rtp]rtp://127.0.0.1:1");
    let mut cmd = words(&format!("{input} -c:v libx264 -map 0:v -f tee"));
    cmd.push(tee);
    let got = wrap_with_sei_inject(&cmd, RTSP_OUT, &rockchip());
    assert!(got[2].starts_with(&encode), "got {}", got[2]);

    // What the output stage sets goes, where the input sets the same.
    let cmd = words(&format!(
        "{input} -c:v libx264 -rtsp_transport udp -f rtsp {RTSP_OUT}"
    ));
    let got = wrap_with_sei_inject(&cmd, RTSP_OUT, &rockchip());
    assert!(got[2].starts_with(&encode), "got {}", got[2]);
}

#[test]
fn sliced_threading_is_gated_on_probed_cores() {
    let four = build(
        &params(EncoderKind::Ffmpeg, 1280, 720, 30, 4000),
        "/dev/video1",
        RTSP_OUT,
        &usb_mjpeg(),
        &rockchip(),
        false,
    );
    assert_eq!(flag_value(&four, "-threads").as_deref(), Some("4"));
    let x264 = flag_value(&four, "-x264-params").expect("x264 params");
    assert!(x264.contains("sliced-threads=1"), "{x264}");
    assert!(x264.contains("slices=4"), "{x264}");

    let two = build(
        &params(EncoderKind::Ffmpeg, 1280, 720, 30, 4000),
        "/dev/video1",
        RTSP_OUT,
        &usb_mjpeg(),
        &dual_core(),
        false,
    );
    assert_eq!(flag_value(&two, "-threads").as_deref(), Some("2"));
    let x264_two = flag_value(&two, "-x264-params").expect("x264 params");
    assert!(x264_two.contains("sliced-threads=0"), "{x264_two}");
    assert!(!x264_two.contains("slices="), "{x264_two}");

    for cmd in [&four, &two] {
        assert!(!cmd.join(" ").contains("intra-refresh"));
    }
}
