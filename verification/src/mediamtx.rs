//! The media server's configuration, and the reading of its control API.
//!
//! One generator renders the configuration for every kind of node; a value
//! may only differ where [`MediamtxProfile`] says so. The control API is asked
//! by path name over plain HTTP on the loopback interface.
use crate::health::Nanos;
use crate::json;
use crate::text;
use crate::text::decimal_of;
use crate::yaml;
use crate::yaml::{Doc, DocModel};
use vstd::prelude::*;

verus! {

/// Control-API port.
pub const DEFAULT_API_PORT: u16 = 9997;

/// RTSP listener port.
pub const DEFAULT_RTSP_PORT: u16 = 8554;

/// WebRTC listener port.
pub const DEFAULT_WEBRTC_PORT: u16 = 8889;

/// HLS listener port.
pub const DEFAULT_HLS_PORT: u16 = 8888;

/// Playback-server port.
pub const DEFAULT_PLAYBACK_PORT: u16 = 9996;

/// The single port that WebRTC candidates are pinned to.
pub const WEBRTC_LOCAL_ICE_PORT: u16 = 8189;

/// The path that the encoder publishes to.
pub const MAIN_PATH: &'static str = "main";

/// How long to wait for the RTSP listener.
pub const RTSP_BIND_TIMEOUT: Nanos = 10_000_000_000;

/// Pause between two probes of the RTSP listener.
pub const RTSP_BIND_PROBE_INTERVAL: Nanos = 50_000_000;

/// Budget of one API query.
pub const API_TIMEOUT: Nanos = 2_000_000_000;

/// Budget of the connection of one API query.
pub const API_CONNECT_TIMEOUT: Nanos = 500_000_000;

/// Per-reader write queue depth, in packets. Deep enough to ride out a stalled
/// browser tab; an unoccupied queue adds no delay.
pub const WRITE_QUEUE_SIZE: u32 = 4096;

/// Largest UDP payload.
pub const UDP_MAX_PAYLOAD_SIZE: u32 = 1452;

/// Root of the recording tree.
pub const RECORDINGS_ROOT: &'static str = "/var/ados/recordings";

/// Length of one recorded segment.
pub const RECORD_SEGMENT_DURATION: &'static str = "60s";

/// `:PORT`.
pub open spec fn port_address(port: u16) -> Seq<char> {
    ":"@ + text::decimal(port as nat)
}

fn port_text(port: u16) -> (r: String)
    ensures
        r@ == port_address(port),
{
    text::cat(":", decimal_of(port as u64).as_str())
}

fn address(port: u16) -> (r: Doc)
    ensures
        r@ == DocModel::Text(port_address(port)),
{
    yaml::owned_word(port_text(port))
}

/// The recording path template under `root`: one directory per path, the
/// segment's start time down to microseconds.
pub open spec fn record_template(root: Seq<char>) -> Seq<char> {
    root + "/%path/%Y-%m-%d_%H-%M-%S-%f"@
}

/// The recording path template under `root`.
pub fn record_path_template(root: &str) -> (r: String)
    ensures
        r@ == record_template(root@),
{
    text::cat(root, "/%path/%Y-%m-%d_%H-%M-%S-%f")
}

// ---------------------------------------------------------------------------
// per-profile values
// ---------------------------------------------------------------------------

/// Which node a configuration is for; the only source of difference.
#[derive(Debug, Clone, Copy, PartialEq, Eq, Structural)]
pub enum MediamtxProfile {
    /// The drone.
    Air,
    /// The ground station.
    Ground,
    /// Reached through a cloud relay rather than the local network.
    CloudRelay,
}

/// The TCP candidate address: only behind a relay, where UDP may be blocked.
pub open spec fn tcp_address(profile: MediamtxProfile) -> Seq<char> {
    if profile == MediamtxProfile::CloudRelay {
        port_address(WEBRTC_LOCAL_ICE_PORT)
    } else {
        Seq::empty()
    }
}

/// The STUN servers: none on a local network, all of them behind a relay.
pub open spec fn stun_urls(profile: MediamtxProfile) -> Seq<Seq<char>> {
    if profile == MediamtxProfile::CloudRelay {
        seq![
            "stun:stun.l.google.com:19302"@,
            "stun:stun1.l.google.com:19302"@,
            "stun:stun2.l.google.com:19302"@,
            "stun:stun.cloudflare.com:3478"@,
            "stun:global.stun.twilio.com:3478"@,
        ]
    } else {
        Seq::empty()
    }
}

/// The HLS variant: the ground station serves plain segments, everyone else
/// the low-latency form.
pub open spec fn variant(profile: MediamtxProfile) -> Seq<char> {
    if profile == MediamtxProfile::Ground {
        "mpegts"@
    } else {
        "lowLatency"@
    }
}

impl MediamtxProfile {
    /// The TCP candidate address.
    pub fn webrtc_local_tcp_address(self) -> (r: String)
        ensures
            r@ == tcp_address(self),
    {
        match self {
            MediamtxProfile::Air | MediamtxProfile::Ground => String::new(),
            MediamtxProfile::CloudRelay => port_text(WEBRTC_LOCAL_ICE_PORT),
        }
    }

    /// The STUN servers.
    pub fn ice_servers(self) -> (r: Vec<String>)
        ensures
            text::views(r@) == stun_urls(self),
    {
        let mut out: Vec<String> = Vec::new();
        assert(text::views(out@) =~= Seq::<Seq<char>>::empty());
        match self {
            MediamtxProfile::Air | MediamtxProfile::Ground => {},
            MediamtxProfile::CloudRelay => {
                text::add_arg(&mut out, "stun:stun.l.google.com:19302");
                text::add_arg(&mut out, "stun:stun1.l.google.com:19302");
                text::add_arg(&mut out, "stun:stun2.l.google.com:19302");
                text::add_arg(&mut out, "stun:stun.cloudflare.com:3478");
                text::add_arg(&mut out, "stun:global.stun.twilio.com:3478");
            },
        }
        out
    }

    /// The HLS variant.
    pub fn hls_variant(self) -> (r: &'static str)
        ensures
            r@ == variant(self),
    {
        match self {
            MediamtxProfile::Air | MediamtxProfile::CloudRelay => "lowLatency",
            MediamtxProfile::Ground => "mpegts",
        }
    }
}

/// Recording settings.
#[derive(Debug, Clone, PartialEq, Eq)]
pub struct RecordingParams {
    /// Record continuously.
    pub enabled: bool,
    /// Root of the recording tree.
    pub root: String,
    /// Length of one segment.
    pub segment_duration: String,
    /// How long segments are kept.
    pub delete_after: String,
    /// Command to run when a segment is complete.
    pub on_segment_complete: Option<String>,
}

impl RecordingParams {
    /// The default settings: recording off.
    pub open spec fn is_default(self) -> bool {
        &&& !self.enabled
        &&& self.root@ == "/var/ados/recordings"@
        &&& self.segment_duration@ == "60s"@
        &&& self.delete_after@ == "24h"@
        &&& self.on_segment_complete is None
    }
}

impl Default for RecordingParams {
    fn default() -> (r: Self)
        ensures
            r.is_default(),
    {
        RecordingParams {
            enabled: false,
            root: "/var/ados/recordings".to_owned(),
            segment_duration: "60s".to_owned(),
            delete_after: "24h".to_owned(),
            on_segment_complete: None,
        }
    }
}

/// Inputs to the generator.
pub struct ConfigParams<'a> {
    pub profile: MediamtxProfile,
    pub api_port: u16,
    pub rtsp_port: u16,
    pub webrtc_port: u16,
    pub hls_port: u16,
    pub playback_port: u16,
    /// LAN addresses to advertise; none leaves the key out.
    pub lan_ips: &'a [String],
    /// Path name and source of every stream.
    pub streams: &'a [(String, String)],
    pub recording: RecordingParams,
}

impl<'a> ConfigParams<'a> {
    /// The default ports for `profile`, recording off.
    pub fn new(
        profile: MediamtxProfile,
        lan_ips: &'a [String],
        streams: &'a [(String, String)],
    ) -> (r: Self)
        ensures
            r.profile == profile,
            r.api_port == DEFAULT_API_PORT,
            r.rtsp_port == DEFAULT_RTSP_PORT,
            r.webrtc_port == DEFAULT_WEBRTC_PORT,
            r.hls_port == DEFAULT_HLS_PORT,
            r.playback_port == DEFAULT_PLAYBACK_PORT,
            r.lan_ips == lan_ips,
            r.streams == streams,
            r.recording.is_default(),
    {
        ConfigParams {
            profile,
            api_port: DEFAULT_API_PORT,
            rtsp_port: DEFAULT_RTSP_PORT,
            webrtc_port: DEFAULT_WEBRTC_PORT,
            hls_port: DEFAULT_HLS_PORT,
            playback_port: DEFAULT_PLAYBACK_PORT,
            lan_ips,
            streams,
            recording: RecordingParams::default(),
        }
    }
}

/// A file in a directory.
pub open spec fn path_in(dir: Seq<char>, name: Seq<char>) -> Seq<char> {
    if dir.len() == 0 || dir.last() == '/' {
        dir + name
    } else {
        dir + "/"@ + name
    }
}

/// The recording settings `a` and `b` say the same.
pub open spec fn same_recording(a: RecordingParams, b: RecordingParams) -> bool {
    &&& a.enabled == b.enabled
    &&& a.root@ == b.root@
    &&& a.segment_duration@ == b.segment_duration@
    &&& a.delete_after@ == b.delete_after@
    &&& text::opt_view(a.on_segment_complete) == text::opt_view(b.on_segment_complete)
}

fn copy_recording(r: &RecordingParams) -> (c: RecordingParams)
    ensures
        same_recording(c, *r),
{
    RecordingParams {
        enabled: r.enabled,
        root: r.root.clone(),
        segment_duration: r.segment_duration.clone(),
        delete_after: r.delete_after.clone(),
        on_segment_complete: match &r.on_segment_complete {
            Some(s) => Some(s.clone()),
            None => None,
        },
    }
}

/// The settings of a media server, without its process.
#[derive(Debug, PartialEq, Eq)]
pub struct MediamtxManager {
    pub profile: MediamtxProfile,
    pub api_port: u16,
    pub rtsp_port: u16,
    pub webrtc_port: u16,
    pub hls_port: u16,
    pub playback_port: u16,
    pub recording: RecordingParams,
    pub config_path: String,
}

impl MediamtxManager {
    /// A media server of `profile` with the default ports and recording off,
    /// configured by a file in `dir`.
    pub open spec fn is_fresh(self, profile: MediamtxProfile, dir: Seq<char>) -> bool {
        &&& self.profile == profile
        &&& self.api_port == DEFAULT_API_PORT
        &&& self.rtsp_port == DEFAULT_RTSP_PORT
        &&& self.webrtc_port == DEFAULT_WEBRTC_PORT
        &&& self.hls_port == DEFAULT_HLS_PORT
        &&& self.playback_port == DEFAULT_PLAYBACK_PORT
        &&& self.recording.is_default()
        &&& self.config_path@ == path_in(dir, "mediamtx.yml"@)
    }

    /// For the air profile.
    pub fn new(config_dir: &str) -> (r: Self)
        ensures
            r.is_fresh(MediamtxProfile::Air, config_dir@),
    {
        Self::for_profile(MediamtxProfile::Air, config_dir)
    }

    /// For a given profile.
    pub fn for_profile(profile: MediamtxProfile, config_dir: &str) -> (r: Self)
        ensures
            r.is_fresh(profile, config_dir@),
    {
        let v = text::chars_of(config_dir);
        let mut config_path = config_dir.to_owned();
        if v.len() > 0 && v[v.len() - 1] != '/' {
            config_path.append("/");
        }
        config_path.append("mediamtx.yml");
        assert(config_path@ == path_in(config_dir@, "mediamtx.yml"@));
        MediamtxManager {
            profile,
            api_port: DEFAULT_API_PORT,
            rtsp_port: DEFAULT_RTSP_PORT,
            webrtc_port: DEFAULT_WEBRTC_PORT,
            hls_port: DEFAULT_HLS_PORT,
            playback_port: DEFAULT_PLAYBACK_PORT,
            recording: RecordingParams::default(),
            config_path,
        }
    }

    /// With other ports.
    pub fn with_ports(self, api: u16, rtsp: u16, webrtc: u16, hls: u16) -> (r: Self)
        ensures
            r == (MediamtxManager {
                api_port: api,
                rtsp_port: rtsp,
                webrtc_port: webrtc,
                hls_port: hls,
                ..self
            }),
    {
        MediamtxManager {
            api_port: api,
            rtsp_port: rtsp,
            webrtc_port: webrtc,
            hls_port: hls,
            ..self
        }
    }

    /// With other recording settings.
    pub fn with_recording(self, recording: RecordingParams) -> (r: Self)
        ensures
            r == (MediamtxManager { recording, ..self }),
    {
        MediamtxManager { recording, ..self }
    }

    pub fn rtsp_port(&self) -> (r: u16)
        ensures
            r == self.rtsp_port,
    {
        self.rtsp_port
    }

    pub fn webrtc_port(&self) -> (r: u16)
        ensures
            r == self.webrtc_port,
    {
        self.webrtc_port
    }

    pub fn api_port(&self) -> (r: u16)
        ensures
            r == self.api_port,
    {
        self.api_port
    }

    pub fn playback_port(&self) -> (r: u16)
        ensures
            r == self.playback_port,
    {
        self.playback_port
    }

    pub fn config_path(&self) -> (r: &str)
        ensures
            r@ == self.config_path@,
    {
        self.config_path.as_str()
    }

    pub fn recording(&self) -> (r: &RecordingParams)
        ensures
            *r == self.recording,
    {
        &self.recording
    }

    /// What the configuration of this server is generated from.
    pub fn config_params<'a>(&self, lan_ips: &'a [String], streams: &'a [(String, String)]) -> (r:
        ConfigParams<'a>)
        ensures
            r.profile == self.profile,
            r.api_port == self.api_port,
            r.rtsp_port == self.rtsp_port,
            r.webrtc_port == self.webrtc_port,
            r.hls_port == self.hls_port,
            r.playback_port == self.playback_port,
            r.lan_ips == lan_ips,
            r.streams == streams,
            same_recording(r.recording, self.recording),
    {
        ConfigParams {
            profile: self.profile,
            api_port: self.api_port,
            rtsp_port: self.rtsp_port,
            webrtc_port: self.webrtc_port,
            hls_port: self.hls_port,
            playback_port: self.playback_port,
            lan_ips,
            streams,
            recording: copy_recording(&self.recording),
        }
    }
}

// ---------------------------------------------------------------------------
// the document
// ---------------------------------------------------------------------------

/// A list of one text.
pub open spec fn text_singleton(s: Seq<char>) -> DocModel {
    yaml::text_list(seq![s])
}

fn singleton(s: &str) -> (r: Doc)
    ensures
        r@ == text_singleton(s@),
{
    let mut one: Vec<String> = Vec::new();
    assert(text::views(one@) =~= Seq::<Seq<char>>::empty());
    text::add_arg(&mut one, s);
    yaml::word_list(one.as_slice())
}

/// One `url` table for each of `urls`.
pub open spec fn url_tables(urls: Seq<Seq<char>>) -> Seq<DocModel> {
    Seq::new(urls.len(), |i: int| DocModel::Table(seq![("url"@, DocModel::Text(urls[i]))]))
}

/// The STUN server list.
pub open spec fn ice_list(profile: MediamtxProfile) -> DocModel {
    DocModel::List(url_tables(stun_urls(profile)))
}

fn ice_document(profile: MediamtxProfile) -> (r: Doc)
    ensures
        r@ == ice_list(profile),
{
    let urls = profile.ice_servers();
    let ghost want = url_tables(stun_urls(profile));
    let mut nodes: Vec<Doc> = Vec::new();
    let mut i: usize = 0;
    assert(yaml::items(nodes@) =~= want.take(0));
    while i < urls.len()
        invariant
            i <= urls@.len(),
            text::views(urls@) == stun_urls(profile),
            want == url_tables(stun_urls(profile)),
            yaml::items(nodes@) == want.take(i as int),
        decreases urls@.len() - i,
    {
        let ghost before = nodes@;
        let mut server: Vec<(String, Doc)> = Vec::new();
        assert(yaml::entries(server@) =~= Seq::<(Seq<char>, DocModel)>::empty());
        yaml::put(&mut server, "url", yaml::word(urls[i].as_str()));
        nodes.push(yaml::table(server));
        i += 1;
        assert(text::views(urls@)[i - 1] == urls@[i - 1]@);
        assert(yaml::items(nodes@) =~= yaml::items(before).push(want[i - 1]));
        assert(want.take(i as int) =~= want.take(i - 1).push(want[i - 1]));
    }
    assert(want.take(urls@.len() as int) =~= want);
    yaml::list(nodes)
}

/// The entry of a path: a source that is not published into the server is
/// pulled on demand.
pub open spec fn path_entry(source: Seq<char>) -> DocModel {
    if source == "publisher"@ {
        DocModel::Table(seq![("source"@, DocModel::Text(source))])
    } else {
        DocModel::Table(
            seq![("source"@, DocModel::Text(source)), ("sourceOnDemand"@, DocModel::Bool(true))],
        )
    }
}

/// The name-ordered table `m` with `value` under `name`, in place of any
/// earlier value there.
pub open spec fn with_entry(
    m: Seq<(Seq<char>, DocModel)>,
    name: Seq<char>,
    value: DocModel,
) -> Seq<(Seq<char>, DocModel)>
    decreases m.len(),
{
    if m.len() == 0 {
        seq![(name, value)]
    } else if m.last().0 == name {
        m.drop_last().push((name, value))
    } else if text::precedes(m.last().0, name) {
        m.push((name, value))
    } else {
        with_entry(m.drop_last(), name, value).push(m.last())
    }
}

/// The paths of the first `n` streams, ordered by name; a name that is given
/// twice keeps its last source.
pub open spec fn path_entries(streams: Seq<(String, String)>, n: int) -> Seq<
    (Seq<char>, DocModel),
>
    decreases n,
{
    if n <= 0 {
        Seq::empty()
    } else {
        with_entry(
            path_entries(streams, n - 1),
            streams[n - 1].0@,
            path_entry(streams[n - 1].1@),
        )
    }
}

fn path_document(source: &str) -> (r: Doc)
    ensures
        r@ == path_entry(source@),
{
    let mut out: Vec<(String, Doc)> = Vec::new();
    assert(yaml::entries(out@) =~= Seq::<(Seq<char>, DocModel)>::empty());
    yaml::put(&mut out, "source", yaml::word(source));
    if !text::same(source, "publisher") {
        yaml::put(&mut out, "sourceOnDemand", yaml::flag(true));
    }
    assert(yaml::entries(out@) =~= path_entry(source@)->Table_0);
    yaml::table(out)
}

/// Put `value` under `name` into the name-ordered table `m`.
fn insert_entry(m: &mut Vec<(String, Doc)>, name: &str, value: Doc)
    ensures
        yaml::entries(final(m)@) == with_entry(yaml::entries(old(m)@), name@, value@),
{
    let ghost all = yaml::entries(m@);
    let ghost start = m@;
    let mut n: usize = m.len();
    assert(all.take(n as int) =~= all);
    assert(all.skip(n as int) =~= Seq::<(Seq<char>, DocModel)>::empty());
    assert(with_entry(all, name@, value@) =~= with_entry(all.take(n as int), name@, value@)
        + all.skip(n as int));
    while n > 0 && !text::same(m[n - 1].0.as_str(), name) && !text::less(m[n - 1].0.as_str(), name)
        invariant
            n <= m@.len(),
            m@ == start,
            all == yaml::entries(m@),
            with_entry(all, name@, value@) == with_entry(all.take(n as int), name@, value@)
                + all.skip(n as int),
        decreases n,
    {
        proof {
            let head = all.take(n as int);
            assert(head.last() == all[n - 1]);
            assert(head.drop_last() =~= all.take(n - 1));
            assert(with_entry(head, name@, value@) == with_entry(
                head.drop_last(),
                name@,
                value@,
            ).push(head.last()));
            assert(with_entry(all.take(n - 1), name@, value@).push(all[n - 1]) + all.skip(n as int)
                =~= with_entry(all.take(n - 1), name@, value@) + all.skip(n - 1));
        }
        n -= 1;
    }
    let entry = (name.to_owned(), value);
    if n > 0 && text::same(m[n - 1].0.as_str(), name) {
        let ghost head = all.take(n as int);
        assert(head.last() == all[n - 1]);
        m.set(n - 1, entry);
        assert(yaml::entries(m@) =~= head.drop_last().push((name@, value@)) + all.skip(n as int));
    } else {
        let ghost head = all.take(n as int);
        m.insert(n, entry);
        proof {
            if n > 0 {
                assert(head.last() == all[n - 1]);
                assert(yaml::entries(m@) =~= head.push((name@, value@)) + all.skip(n as int));
            } else {
                assert(yaml::entries(m@) =~= seq![(name@, value@)] + all.skip(n as int));
            }
        }
    }
}

fn paths_document(streams: &[(String, String)]) -> (r: Doc)
    ensures
        r@ == DocModel::Table(path_entries(streams@, streams@.len() as int)),
{
    let mut out: Vec<(String, Doc)> = Vec::new();
    let mut i: usize = 0;
    assert(yaml::entries(out@) =~= path_entries(streams@, 0));
    while i < streams.len()
        invariant
            i <= streams@.len(),
            yaml::entries(out@) == path_entries(streams@, i as int),
        decreases streams@.len() - i,
    {
        let entry = path_document(streams[i].1.as_str());
        insert_entry(&mut out, streams[i].0.as_str(), entry);
        i += 1;
    }
    yaml::table(out)
}

/// The settings that apply to every path: absolute time stamps and the
/// recorder.
pub open spec fn path_defaults(rec: RecordingParams) -> DocModel {
    let base = seq![
        ("useAbsoluteTimestamp"@, DocModel::Bool(true)),
        ("record"@, DocModel::Bool(rec.enabled)),
        ("recordPath"@, DocModel::Text(record_template(rec.root@))),
        ("recordFormat"@, DocModel::Text("fmp4"@)),
        ("recordPartDuration"@, DocModel::Text("200ms"@)),
        ("recordMaxPartSize"@, DocModel::Text("50M"@)),
        ("recordSegmentDuration"@, DocModel::Text(rec.segment_duration@)),
        ("recordDeleteAfter"@, DocModel::Text(rec.delete_after@)),
    ];
    DocModel::Table(
        match rec.on_segment_complete {
            Some(hook) => base.push(("runOnRecordSegmentComplete"@, DocModel::Text(hook@))),
            None => base,
        },
    )
}

fn defaults_document(rec: &RecordingParams) -> (r: Doc)
    ensures
        r@ == path_defaults(*rec),
{
    let mut out: Vec<(String, Doc)> = Vec::new();
    assert(yaml::entries(out@) =~= Seq::<(Seq<char>, DocModel)>::empty());
    yaml::put(&mut out, "useAbsoluteTimestamp", yaml::flag(true));
    yaml::put(&mut out, "record", yaml::flag(rec.enabled));
    yaml::put(&mut out, "recordPath", yaml::owned_word(record_path_template(rec.root.as_str())));
    yaml::put(&mut out, "recordFormat", yaml::word("fmp4"));
    yaml::put(&mut out, "recordPartDuration", yaml::word("200ms"));
    yaml::put(&mut out, "recordMaxPartSize", yaml::word("50M"));
    yaml::put(&mut out, "recordSegmentDuration", yaml::owned_word(rec.segment_duration.clone()));
    yaml::put(&mut out, "recordDeleteAfter", yaml::owned_word(rec.delete_after.clone()));
    match &rec.on_segment_complete {
        Some(hook) => {
            yaml::put(&mut out, "runOnRecordSegmentComplete", yaml::word(hook.as_str()));
        },
        None => {},
    }
    assert(yaml::entries(out@) =~= path_defaults(*rec)->Table_0);
    yaml::table(out)
}

/// The leading entries of the configuration.
pub open spec fn server_entries(p: ConfigParams, interfaces: Seq<Seq<char>>) -> Seq<
    (Seq<char>, DocModel),
> {
    seq![
        ("logLevel"@, DocModel::Text("warn"@)),
        ("api"@, DocModel::Bool(true)),
        ("apiAddress"@, DocModel::Text(port_address(p.api_port))),
        ("readTimeout"@, DocModel::Text("10s"@)),
        ("writeTimeout"@, DocModel::Text("10s"@)),
        ("writeQueueSize"@, DocModel::Int(WRITE_QUEUE_SIZE)),
        ("udpMaxPayloadSize"@, DocModel::Int(UDP_MAX_PAYLOAD_SIZE)),
        ("playback"@, DocModel::Bool(true)),
        ("playbackAddress"@, DocModel::Text(port_address(p.playback_port))),
        ("rtsp"@, DocModel::Bool(true)),
        ("rtspAddress"@, DocModel::Text(port_address(p.rtsp_port))),
        ("rtspTransports"@, text_singleton("tcp"@)),
        ("webrtc"@, DocModel::Bool(true)),
        ("webrtcAddress"@, DocModel::Text(port_address(p.webrtc_port))),
        ("webrtcAllowOrigin"@, DocModel::Text("*"@)),
        ("webrtcIPsFromInterfaces"@, DocModel::Bool(true)),
        ("webrtcIPsFromInterfacesList"@, yaml::text_list(interfaces)),
        ("webrtcHandshakeTimeout"@, DocModel::Text("10s"@)),
        ("webrtcSTUNGatherTimeout"@, DocModel::Text("2s"@)),
        ("webrtcLocalUDPAddress"@, DocModel::Text(port_address(WEBRTC_LOCAL_ICE_PORT))),
        ("webrtcLocalTCPAddress"@, DocModel::Text(tcp_address(p.profile))),
        ("webrtcICEServers2"@, ice_list(p.profile)),
        ("hls"@, DocModel::Bool(true)),
        ("hlsAddress"@, DocModel::Text(port_address(p.hls_port))),
        ("hlsAlwaysRemux"@, DocModel::Bool(false)),
        ("hlsVariant"@, DocModel::Text(variant(p.profile))),
        ("hlsSegmentCount"@, DocModel::Int(7)),
        ("hlsSegmentDuration"@, DocModel::Text("1s"@)),
        ("hlsPartDuration"@, DocModel::Text("200ms"@)),
        ("hlsAllowOrigin"@, DocModel::Text("*"@)),
    ]
}

/// The whole configuration.
pub open spec fn config_model(p: ConfigParams, interfaces: Seq<Seq<char>>) -> DocModel {
    let server = server_entries(p, interfaces);
    let hosts = if p.lan_ips@.len() == 0 {
        server
    } else {
        server.push(("webrtcAdditionalHosts"@, yaml::text_list(text::views(p.lan_ips@))))
    };
    DocModel::Table(
        hosts.push(("pathDefaults"@, path_defaults(p.recording))).push(
            ("paths"@, DocModel::Table(path_entries(p.streams@, p.streams@.len() as int))),
        ),
    )
}

fn build_server_entries(p: &ConfigParams, interfaces: &[String]) -> (out: Vec<(String, Doc)>)
    ensures
        yaml::entries(out@) == server_entries(*p, text::views(interfaces@)),
{
    let mut out: Vec<(String, Doc)> = Vec::new();
    assert(yaml::entries(out@) =~= Seq::<(Seq<char>, DocModel)>::empty());
    yaml::put(&mut out, "logLevel", yaml::word("warn"));
    yaml::put(&mut out, "api", yaml::flag(true));
    yaml::put(&mut out, "apiAddress", address(p.api_port));
    yaml::put(&mut out, "readTimeout", yaml::word("10s"));
    yaml::put(&mut out, "writeTimeout", yaml::word("10s"));
    yaml::put(&mut out, "writeQueueSize", yaml::count(WRITE_QUEUE_SIZE));
    yaml::put(&mut out, "udpMaxPayloadSize", yaml::count(UDP_MAX_PAYLOAD_SIZE));
    yaml::put(&mut out, "playback", yaml::flag(true));
    yaml::put(&mut out, "playbackAddress", address(p.playback_port));
    yaml::put(&mut out, "rtsp", yaml::flag(true));
    yaml::put(&mut out, "rtspAddress", address(p.rtsp_port));
    yaml::put(&mut out, "rtspTransports", singleton("tcp"));
    yaml::put(&mut out, "webrtc", yaml::flag(true));
    yaml::put(&mut out, "webrtcAddress", address(p.webrtc_port));
    yaml::put(&mut out, "webrtcAllowOrigin", yaml::word("*"));
    yaml::put(&mut out, "webrtcIPsFromInterfaces", yaml::flag(true));
    yaml::put(&mut out, "webrtcIPsFromInterfacesList", yaml::word_list(interfaces));
    yaml::put(&mut out, "webrtcHandshakeTimeout", yaml::word("10s"));
    yaml::put(&mut out, "webrtcSTUNGatherTimeout", yaml::word("2s"));
    yaml::put(&mut out, "webrtcLocalUDPAddress", address(WEBRTC_LOCAL_ICE_PORT));
    yaml::put(&mut out, "webrtcLocalTCPAddress", yaml::owned_word(p.profile.webrtc_local_tcp_address()));
    yaml::put(&mut out, "webrtcICEServers2", ice_document(p.profile));
    yaml::put(&mut out, "hls", yaml::flag(true));
    yaml::put(&mut out, "hlsAddress", address(p.hls_port));
    yaml::put(&mut out, "hlsAlwaysRemux", yaml::flag(false));
    yaml::put(&mut out, "hlsVariant", yaml::word(p.profile.hls_variant()));
    yaml::put(&mut out, "hlsSegmentCount", yaml::count(7));
    yaml::put(&mut out, "hlsSegmentDuration", yaml::word("1s"));
    yaml::put(&mut out, "hlsPartDuration", yaml::word("200ms"));
    yaml::put(&mut out, "hlsAllowOrigin", yaml::word("*"));
    out
}

/// The configuration document for the given parameters and the physical
/// interfaces of the node.
pub fn config_document(params: &ConfigParams, interfaces: &[String]) -> (r: Doc)
    ensures
        r@ == config_model(*params, text::views(interfaces@)),
{
    let mut out = build_server_entries(params, interfaces);
    if params.lan_ips.len() > 0 {
        yaml::put(&mut out, "webrtcAdditionalHosts", yaml::word_list(params.lan_ips));
    }
    yaml::put(&mut out, "pathDefaults", defaults_document(&params.recording));
    yaml::put(&mut out, "paths", paths_document(params.streams));
    yaml::table(out)
}

/// Render the configuration file for the given parameters and the physical
/// interfaces of the node; `None` only when the YAML writer refuses it.
pub fn mediamtx_config_yaml(params: &ConfigParams, interfaces: &[String]) -> (r: Option<String>)
    ensures
        text::opt_view(r) == yaml::yaml_written(
            yaml::outside_form(config_model(*params, text::views(interfaces@))),
        ),
{
    let doc = config_document(params, interfaces);
    yaml::render(&doc)
}

// ---------------------------------------------------------------------------
// network facts
// ---------------------------------------------------------------------------

/// A LAN address worth advertising: neither loopback nor link-local.
pub fn usable_lan_ip(ip: &str) -> (r: bool)
    ensures
        r == (ip@ != "127.0.0.1"@ && !"169.254."@.is_prefix_of(ip@)),
{
    !text::same(ip, "127.0.0.1") && !text::starts_with(ip, "169.254.")
}

/// An interface of a wired or wireless network, as opposed to a loopback,
/// virtual, container or mesh one.
pub open spec fn is_physical(name: Seq<char>) -> bool {
    &&& "e"@.is_prefix_of(name) || "w"@.is_prefix_of(name)
    &&& !"lo"@.is_prefix_of(name)
    &&& !"docker"@.is_prefix_of(name)
    &&& !"veth"@.is_prefix_of(name)
    &&& !"br-"@.is_prefix_of(name)
    &&& !"bat"@.is_prefix_of(name)
    &&& !"tap"@.is_prefix_of(name)
    &&& !"tun"@.is_prefix_of(name)
    &&& !"wg"@.is_prefix_of(name)
    &&& !"virbr"@.is_prefix_of(name)
    &&& !"vmnet"@.is_prefix_of(name)
}

fn physical(name: &str) -> (r: bool)
    ensures
        r == is_physical(name@),
{
    (text::starts_with(name, "e") || text::starts_with(name, "w")) && !text::starts_with(name, "lo")
        && !text::starts_with(name, "docker") && !text::starts_with(name, "veth")
        && !text::starts_with(name, "br-") && !text::starts_with(name, "bat") && !text::starts_with(
        name,
        "tap",
    ) && !text::starts_with(name, "tun") && !text::starts_with(name, "wg") && !text::starts_with(
        name,
        "virbr",
    ) && !text::starts_with(name, "vmnet")
}

/// The names are in dictionary order.
pub open spec fn ordered(names: Seq<Seq<char>>) -> bool {
    forall|i: int, j: int|
        0 <= i < j < names.len() ==> !text::precedes(#[trigger] names[j], #[trigger] names[i])
}

/// Put `name` behind every name of the ordered `names` that it does not
/// precede.
fn place(names: &mut Vec<String>, name: &str)
    requires
        ordered(text::views(old(names)@)),
    ensures
        ordered(text::views(final(names)@)),
        text::views(final(names)@).to_multiset() == text::views(old(names)@).to_multiset().insert(
            name@,
        ),
{
    let ghost all = text::views(names@);
    let mut n: usize = names.len();
    while n > 0 && text::less(name, names[n - 1].as_str())
        invariant
            n <= names@.len(),
            all == text::views(names@),
            names@ == old(names)@,
            forall|k: int| n <= k < all.len() ==> text::precedes(name@, #[trigger] all[k]),
        decreases n,
    {
        assert(all[n - 1] == names@[n - 1]@);
        n -= 1;
    }
    proof {
        if n > 0 {
            assert(all[n - 1] == names@[n - 1]@);
            assert(!text::precedes(name@, all[n - 1]));
        }
    }
    names.insert(n, name.to_owned());
    proof {
        let now = text::views(names@);
        assert(now =~= all.insert(n as int, name@));
        assert forall|i: int, j: int| 0 <= i < j < now.len() implies !text::precedes(
            #[trigger] now[j],
            #[trigger] now[i],
        ) by {
            if i == n {
                text::lemma_order_is_total(name@, now[j]);
                assert(now[j] == all[j - 1]);
            } else if j == n {
                assert(now[i] == all[i]);
                lemma_not_before_last(all, n as int, i, name@);
            } else {
                let a = if i < n {
                    i
                } else {
                    i - 1
                };
                let b = if j < n {
                    j
                } else {
                    j - 1
                };
                assert(now[i] == all[a] && now[j] == all[b]);
            }
        }
        vstd::seq_lib::to_multiset_insert(all, n as int, name@);
    }
}

/// A name that the last of the first `n` ordered names does not come after
/// cannot come before an earlier one.
proof fn lemma_not_before_last(all: Seq<Seq<char>>, n: int, i: int, name: Seq<char>)
    requires
        ordered(all),
        0 <= i < n <= all.len(),
        !text::precedes(name, all[n - 1]),
    ensures
        !text::precedes(name, all[i]),
{
    text::lemma_order_is_total(all[i], all[n - 1]);
    if text::precedes(name, all[i]) && i < n - 1 {
        assert(!text::precedes(all[n - 1], all[i]));
        if text::precedes(all[i], all[n - 1]) {
            text::lemma_order_is_transitive(name, all[i], all[n - 1]);
        }
    }
}

/// The physical interfaces among `names`, in dictionary order.
pub fn physical_lan_interfaces(names: &[String]) -> (r: Vec<String>)
    ensures
        ordered(text::views(r@)),
        text::views(r@).to_multiset() == text::views(names@).filter(
            |name: Seq<char>| is_physical(name),
        ).to_multiset(),
{
    let ghost all = text::views(names@);
    let ghost keep = |name: Seq<char>| is_physical(name);
    let mut out: Vec<String> = Vec::new();
    let mut i: usize = 0;
    proof {
        reveal(Seq::filter);
        assert(text::views(out@) =~= all.take(0).filter(keep));
    }
    while i < names.len()
        invariant
            i <= names@.len(),
            all == text::views(names@),
            keep == (|name: Seq<char>| is_physical(name)),
            ordered(text::views(out@)),
            text::views(out@).to_multiset() == all.take(i as int).filter(keep).to_multiset(),
        decreases names@.len() - i,
    {
        let name = names[i].as_str();
        let ghost done = all.take(i as int).filter(keep);
        if physical(name) {
            place(&mut out, name);
        }
        i += 1;
        proof {
            reveal(Seq::filter);
            assert(all.take(i as int).drop_last() == all.take(i - 1));
            assert(all.take(i as int).last() == name@);
            if is_physical(name@) {
                assert(all.take(i as int).filter(keep) == done.push(name@));
                assert(done.push(name@).to_multiset() =~= done.to_multiset().insert(name@)) by {
                    broadcast use vstd::seq_lib::group_to_multiset_ensures;
                }
            } else {
                assert(all.take(i as int).filter(keep) == done);
            }
        }
    }
    assert(all.take(names@.len() as int) == all);
    out
}

// ---------------------------------------------------------------------------
// control API
// ---------------------------------------------------------------------------

/// The first index at `i` or later at which `needle` stands in `haystack`.
pub open spec fn found_from(haystack: Seq<u8>, needle: Seq<u8>, i: int) -> Option<int>
    decreases haystack.len() - i,
{
    if i < 0 || i + needle.len() > haystack.len() || needle.len() == 0 {
        None
    } else if haystack.subrange(i, i + needle.len()) == needle {
        Some(i)
    } else {
        found_from(haystack, needle, i + 1)
    }
}

fn matches_bytes(haystack: &[u8], needle: &[u8], at: usize) -> (r: bool)
    requires
        at + needle@.len() <= haystack@.len(),
    ensures
        r == (haystack@.subrange(at as int, at + needle@.len()) == needle@),
{
    let n: usize = haystack.len();
    let mut k: usize = 0;
    while k < needle.len()
        invariant
            k <= needle@.len(),
            n == haystack@.len(),
            at + needle@.len() <= n,
            forall|j: int| 0 <= j < k ==> haystack@[at + j] == needle@[j],
        decreases needle@.len() - k,
    {
        if haystack[at + k] != needle[k] {
            assert(haystack@.subrange(at as int, at + needle@.len())[k as int]
                != needle@[k as int]);
            return false;
        }
        k += 1;
    }
    assert(haystack@.subrange(at as int, at + needle@.len()) =~= needle@);
    true
}

/// The first index of `needle` in `haystack`. An empty needle is never found.
pub fn find_subslice(haystack: &[u8], needle: &[u8]) -> (r: Option<usize>)
    ensures
        match r {
            Some(i) => found_from(haystack@, needle@, 0) == Some(i as int),
            None => found_from(haystack@, needle@, 0) is None,
        },
{
    if needle.len() == 0 || needle.len() > haystack.len() {
        return None;
    }
    let n: usize = haystack.len();
    let last: usize = n - needle.len();
    let mut i: usize = 0;
    while i <= last
        invariant
            needle@.len() > 0,
            n == haystack@.len(),
            last + needle@.len() == n,
            i <= last + 1,
            found_from(haystack@, needle@, 0) == found_from(haystack@, needle@, i as int),
        decreases last + 1 - i,
    {
        if matches_bytes(haystack, needle, i) {
            return Some(i);
        }
        i += 1;
    }
    None
}

/// Calls `std::str::from_utf8`: the text whose UTF-8 form the bytes are, when
/// they are one.
#[verifier::external_body]
fn decode_utf8(bytes: &[u8]) -> (r: Option<String>)
    ensures
        match r {
            Some(s) => vstd::utf8::encode_utf8(s@) == bytes@,
            None => !vstd::utf8::valid_utf8(bytes@),
        },
{
    std::str::from_utf8(bytes).ok().map(|s| s.to_string())
}

/// The text whose UTF-8 form `bytes` is.
pub open spec fn decoded(bytes: Seq<u8>) -> Option<Seq<char>> {
    if vstd::utf8::valid_utf8(bytes) {
        Some(vstd::utf8::decode_utf8(bytes))
    } else {
        None
    }
}

/// The end of a header line.
pub open spec fn crlf() -> Seq<u8> {
    seq![13u8, 10u8]
}

/// The end of the header block.
pub open spec fn crlf_crlf() -> Seq<u8> {
    seq![13u8, 10u8, 13u8, 10u8]
}

/// The first line of a header block.
pub open spec fn first_line(head: Seq<u8>) -> Seq<u8> {
    match found_from(head, crlf(), 0) {
        Some(e) => head.take(e),
        None => head,
    }
}

/// The status line reports success: its second word is the number 200.
pub open spec fn is_success(status_line: Seq<char>) -> bool {
    let words = text::words_of(status_line);
    words.len() > 1 && text::unsigned(words[1], 0xffff) == Some(200nat)
}

/// The body of a successful HTTP response.
pub open spec fn body_of(raw: Seq<u8>) -> Option<Seq<u8>> {
    match found_from(raw, crlf_crlf(), 0) {
        None => None,
        Some(sep) => match decoded(first_line(raw.take(sep))) {
            Some(line) if is_success(line) => Some(raw.skip(sep + 4)),
            _ => None,
        },
    }
}

proof fn lemma_found_in_range(haystack: Seq<u8>, needle: Seq<u8>, i: int)
    requires
        0 <= i,
    ensures
        found_from(haystack, needle, i) matches Some(k) ==> i <= k && k + needle.len()
            <= haystack.len(),
    decreases haystack.len() - i,
{
    if i + needle.len() <= haystack.len() && needle.len() > 0 && haystack.subrange(
        i,
        i + needle.len(),
    ) != needle {
        lemma_found_in_range(haystack, needle, i + 1);
    }
}

fn success(status_line: &str) -> (r: bool)
    ensures
        r == is_success(status_line@),
{
    let words = text::words(status_line);
    assert(text::views(words@).len() == words@.len());
    if words.len() < 2 {
        return false;
    }
    match text::parse_unsigned(words[1].as_str(), 0xffff) {
        Some(code) => code == 200,
        None => false,
    }
}

/// The body of an HTTP response with status 200; `None` for any other status
/// and for anything that is no response.
pub fn http_body(raw: &[u8]) -> (r: Option<Vec<u8>>)
    ensures
        match r {
            Some(body) => body_of(raw@) == Some(body@),
            None => body_of(raw@) is None,
        },
{
    let end_of_head: [u8; 4] = [13, 10, 13, 10];
    let end_of_line: [u8; 2] = [13, 10];
    assert(end_of_head@ =~= crlf_crlf());
    assert(end_of_line@ =~= crlf());
    let n: usize = raw.len();
    let sep: usize = match find_subslice(raw, end_of_head.as_slice()) {
        Some(sep) => sep,
        None => {
            return None;
        },
    };
    proof {
        lemma_found_in_range(raw@, crlf_crlf(), 0);
        lemma_found_in_range(raw@.take(sep as int), crlf(), 0);
    }
    let head = vstd::slice::slice_subrange(raw, 0, sep);
    assert(head@ =~= raw@.take(sep as int));
    let line = match find_subslice(head, end_of_line.as_slice()) {
        Some(e) => {
            assert(head@.subrange(0, e as int) =~= head@.take(e as int));
            vstd::slice::slice_subrange(head, 0, e)
        },
        None => head,
    };
    assert(line@ == first_line(raw@.take(sep as int)));
    let status = match decode_utf8(line) {
        Some(status) => status,
        None => {
            return None;
        },
    };
    proof {
        vstd::utf8::encode_utf8_decode_utf8(status@);
        vstd::utf8::encode_utf8_valid_utf8(status@);
    }
    if success(status.as_str()) {
        let body = vstd::slice::slice_subrange(raw, sep + 4, n);
        assert(body@ =~= raw@.skip(sep + 4));
        Some(vstd::slice::slice_to_vec(body))
    } else {
        None
    }
}

/// The request line and headers of a query for `path`.
pub fn http_request(port: u16, path: &str) -> (r: String)
    ensures
        r@ == "GET "@ + path@ + " HTTP/1.1\r\nHost: 127.0.0.1:"@ + text::decimal(port as nat)
            + "\r\nConnection: close\r\n\r\n"@,
{
    let mut out = String::from_str("GET ");
    out.append(path);
    out.append(" HTTP/1.1\r\nHost: 127.0.0.1:");
    out.append(decimal_of(port as u64).as_str());
    out.append("\r\nConnection: close\r\n\r\n");
    out
}

/// The API resource of a path, looked up by name.
pub fn path_query(name: &str) -> (r: String)
    ensures
        r@ == "/v3/paths/get/"@ + name@,
{
    text::cat("/v3/paths/get/", name)
}

/// The path object says that it is ready.
pub fn says_ready(path: &json::Json) -> (r: bool)
    ensures
        r == (json::bool_value(json::field(*path, "ready"@)) == Some(true)),
{
    match json::as_bool(json::get(Some(path), "ready")) {
        Some(b) => b,
        None => false,
    }
}

/// The received-byte counter of the path object.
pub fn received_bytes(path: &json::Json) -> (r: Option<u64>)
    ensures
        r == json::unsigned_value(json::field(*path, "bytesReceived"@)),
{
    json::as_u64(json::get(Some(path), "bytesReceived"))
}

/// Whether the reply of a path query says that the path is ready. No reply,
/// or one that is not JSON, means not ready.
pub fn path_ready(body: Option<&[u8]>) -> (r: bool)
    ensures
        r == (match body {
            Some(b) => match json::json_read(b@) {
                Ok(path) => json::bool_value(json::field(path, "ready"@)) == Some(true),
                Err(_) => false,
            },
            None => false,
        }),
        r <==> body is Some && json::json_read(body->0@) is Ok && json::field(
            json::json_read(body->0@)->Ok_0,
            "ready"@,
        ) == Some(json::Json::Bool(true)),
{
    match body {
        Some(b) => match json::parse(b) {
            Ok(path) => says_ready(&path),
            Err(_) => false,
        },
        None => false,
    }
}

/// The received-byte counter in the reply of a path query, if there is one.
pub fn inbound_bytes(body: Option<&[u8]>) -> (r: Option<u64>)
    ensures
        r == (match body {
            Some(b) => match json::json_read(b@) {
                Ok(path) => json::unsigned_value(json::field(path, "bytesReceived"@)),
                Err(_) => None,
            },
            None => None,
        }),
        r matches Some(n) ==> body is Some && json::json_read(body->0@) is Ok && json::field(
            json::json_read(body->0@)->Ok_0,
            "bytesReceived"@,
        ) == Some(json::Json::Num(json::Number::Unsigned(n))),
{
    match body {
        Some(b) => match json::parse(b) {
            Ok(path) => received_bytes(&path),
            Err(_) => None,
        },
        None => None,
    }
}

/// Whether a start of the media server succeeded: its listener accepts, or it
/// is at least still alive. A server that is already gone has refused its
/// configuration.
pub fn start_succeeded(listener_ready: bool, still_running: bool) -> (r: bool)
    ensures
        r == (listener_ready || still_running),
{
    listener_ready || still_running
}

// ---------------------------------------------------------------------------
// laws
// ---------------------------------------------------------------------------

/// A key whose value may differ between profiles.
pub open spec fn is_per_profile(key: Seq<char>) -> bool {
    key == "hlsVariant"@ || key == "webrtcLocalTCPAddress"@ || key == "webrtcICEServers2"@
}

/// Two nodes that are given the same inputs get the same configuration, key by
/// key in the same order, but for the three keys that belong to the profile.
pub proof fn law_profiles_differ_only_where_declared(
    p: ConfigParams,
    q: ConfigParams,
    interfaces: Seq<Seq<char>>,
)
    requires
        q == (ConfigParams { profile: q.profile, ..p }),
    ensures
        ({
            let a = config_model(p, interfaces)->Table_0;
            let b = config_model(q, interfaces)->Table_0;
            &&& a.len() == b.len()
            &&& forall|i: int|
                0 <= i < a.len() ==> (#[trigger] a[i]).0 == b[i].0 && (is_per_profile(a[i].0)
                    || a[i] == b[i])
        }),
{
    let a = server_entries(p, interfaces);
    let b = server_entries(q, interfaces);
    let c = a.update(20, ("webrtcLocalTCPAddress"@, DocModel::Text(tcp_address(q.profile)))).update(
        21,
        ("webrtcICEServers2"@, ice_list(q.profile)),
    ).update(25, ("hlsVariant"@, DocModel::Text(variant(q.profile))));
    assert(a.len() == 30);
    assert(a[20].0 == "webrtcLocalTCPAddress"@);
    assert(a[21].0 == "webrtcICEServers2"@);
    assert(a[25].0 == "hlsVariant"@);
    assert(b =~= c);
    let x = config_model(p, interfaces)->Table_0;
    let y = config_model(q, interfaces)->Table_0;
    assert forall|i: int| 0 <= i < x.len() implies (#[trigger] x[i]).0 == y[i].0 && (
    is_per_profile(x[i].0) || x[i] == y[i]) by {
        if i < 30 {
            assert(x[i] == a[i] && y[i] == b[i]);
        }
    }
}

/// A local-network node gathers no STUN candidates and offers no TCP one.
pub proof fn law_local_profiles_stay_local(profile: MediamtxProfile)
    requires
        profile != MediamtxProfile::CloudRelay,
    ensures
        stun_urls(profile).len() == 0,
        tcp_address(profile).len() == 0,
{
}

/// The names of a table are in strict dictionary order, so none occurs twice.
pub open spec fn strictly_ordered(m: Seq<(Seq<char>, DocModel)>) -> bool {
    forall|i: int, j: int|
        0 <= i < j < m.len() ==> text::precedes((#[trigger] m[i]).0, (#[trigger] m[j]).0)
}

proof fn lemma_with_entry(m: Seq<(Seq<char>, DocModel)>, name: Seq<char>, value: DocModel)
    requires
        strictly_ordered(m),
    ensures
        strictly_ordered(with_entry(m, name, value)),
        with_entry(m, name, value).contains((name, value)),
        forall|e: (Seq<char>, DocModel)|
            e.0 != name && m.contains(e) ==> #[trigger] with_entry(m, name, value).contains(e),
        forall|e: (Seq<char>, DocModel)| #[trigger]
            with_entry(m, name, value).contains(e) ==> e == (name, value) || m.contains(e),
    decreases m.len(),
{
    let r = with_entry(m, name, value);
    if m.len() == 0 {
        assert(r[0] == (name, value));
    } else {
        let front = m.drop_last();
        assert(strictly_ordered(front)) by {
            assert forall|i: int, j: int| 0 <= i < j < front.len() implies text::precedes(
                (#[trigger] front[i]).0,
                (#[trigger] front[j]).0,
            ) by {
                assert(text::precedes(m[i].0, m[j].0));
            }
        }
        if m.last().0 == name {
            assert(r[r.len() - 1] == (name, value));
            assert forall|i: int, j: int| 0 <= i < j < r.len() implies text::precedes(
                (#[trigger] r[i]).0,
                (#[trigger] r[j]).0,
            ) by {
                assert(text::precedes(m[i].0, m[j].0));
            }
            assert forall|e: (Seq<char>, DocModel)| e.0 != name && m.contains(e) implies #[trigger]
                r.contains(e) by {
                let k = choose|k: int| 0 <= k < m.len() && m[k] == e;
                assert(r[k] == e);
            }
            assert forall|e: (Seq<char>, DocModel)| #[trigger] r.contains(e) implies e == (
                name,
                value,
            ) || m.contains(e) by {
                let k = choose|k: int| 0 <= k < r.len() && r[k] == e;
                if k < m.len() - 1 {
                    assert(m[k] == e);
                }
            }
        } else if text::precedes(m.last().0, name) {
            assert(r[r.len() - 1] == (name, value));
            assert forall|i: int, j: int| 0 <= i < j < r.len() implies text::precedes(
                (#[trigger] r[i]).0,
                (#[trigger] r[j]).0,
            ) by {
                if j == m.len() {
                    if i < m.len() - 1 {
                        assert(text::precedes(m[i].0, m[m.len() - 1].0));
                        text::lemma_order_is_transitive(m[i].0, m.last().0, name);
                    }
                } else {
                    assert(text::precedes(m[i].0, m[j].0));
                }
            }
            assert forall|e: (Seq<char>, DocModel)| e.0 != name && m.contains(e) implies #[trigger]
                r.contains(e) by {
                let k = choose|k: int| 0 <= k < m.len() && m[k] == e;
                assert(r[k] == e);
            }
            assert forall|e: (Seq<char>, DocModel)| #[trigger] r.contains(e) implies e == (
                name,
                value,
            ) || m.contains(e) by {
                let k = choose|k: int| 0 <= k < r.len() && r[k] == e;
                if k < m.len() {
                    assert(m[k] == e);
                }
            }
        } else {
            lemma_with_entry(front, name, value);
            let inner = with_entry(front, name, value);
            text::lemma_order_is_total(m.last().0, name);
            assert forall|i: int, j: int| 0 <= i < j < r.len() implies text::precedes(
                (#[trigger] r[i]).0,
                (#[trigger] r[j]).0,
            ) by {
                if j == r.len() - 1 {
                    assert(inner.contains(inner[i]));
                    if inner[i] != (name, value) {
                        let k = choose|k: int| 0 <= k < front.len() && front[k] == inner[i];
                        assert(text::precedes(m[k].0, m[m.len() - 1].0));
                    }
                } else {
                    assert(text::precedes(inner[i].0, inner[j].0));
                }
            }
            let at = choose|k: int| 0 <= k < inner.len() && inner[k] == (name, value);
            assert(r[at] == (name, value));
            assert forall|e: (Seq<char>, DocModel)| e.0 != name && m.contains(e) implies #[trigger]
                r.contains(e) by {
                let k = choose|k: int| 0 <= k < m.len() && m[k] == e;
                if k < m.len() - 1 {
                    assert(front[k] == e);
                    assert(front.contains(e));
                    assert(inner.contains(e));
                    let l = choose|l: int| 0 <= l < inner.len() && inner[l] == e;
                    assert(r[l] == e);
                } else {
                    assert(r[r.len() - 1] == e);
                }
            }
            assert forall|e: (Seq<char>, DocModel)| #[trigger] r.contains(e) implies e == (
                name,
                value,
            ) || m.contains(e) by {
                let k = choose|k: int| 0 <= k < r.len() && r[k] == e;
                if k < r.len() - 1 {
                    assert(inner[k] == e);
                    assert(inner.contains(e));
                    if e != (name, value) {
                        let l = choose|l: int| 0 <= l < front.len() && front[l] == e;
                        assert(m[l] == e);
                    }
                } else {
                    assert(m[m.len() - 1] == e);
                }
            }
        }
    }
}

/// The path table is in strict dictionary order, holds nothing but the given
/// streams, and keeps the last source that was given for a name.
pub proof fn law_paths_keep_the_last_source(streams: Seq<(String, String)>, n: int)
    requires
        0 <= n <= streams.len(),
    ensures
        strictly_ordered(path_entries(streams, n)),
        forall|i: int|
            0 <= i < n && (forall|j: int| i < j < n ==> (#[trigger] streams[j]).0@
                != streams[i].0@) ==> path_entries(streams, n).contains(
                ((#[trigger] streams[i]).0@, path_entry(streams[i].1@)),
            ),
        forall|e: (Seq<char>, DocModel)| #[trigger]
            path_entries(streams, n).contains(e) ==> exists|i: int|
                0 <= i < n && e == ((#[trigger] streams[i]).0@, path_entry(streams[i].1@)),
    decreases n,
{
    if n > 0 {
        law_paths_keep_the_last_source(streams, n - 1);
        let before = path_entries(streams, n - 1);
        let name = streams[n - 1].0@;
        let value = path_entry(streams[n - 1].1@);
        lemma_with_entry(before, name, value);
        let now = path_entries(streams, n);
        assert forall|i: int|
            0 <= i < n && (forall|j: int| i < j < n ==> (#[trigger] streams[j]).0@
                != streams[i].0@) implies now.contains(
            ((#[trigger] streams[i]).0@, path_entry(streams[i].1@)),
        ) by {
            if i < n - 1 {
                assert(streams[n - 1].0@ != streams[i].0@);
                assert(before.contains((streams[i].0@, path_entry(streams[i].1@))));
            }
        }
        assert forall|e: (Seq<char>, DocModel)| #[trigger] now.contains(e) implies exists|i: int|
            0 <= i < n && e == ((#[trigger] streams[i]).0@, path_entry(streams[i].1@)) by {
            if e == (name, value) {
                assert(e == (streams[n - 1].0@, path_entry(streams[n - 1].1@)));
            } else {
                assert(before.contains(e));
            }
        }
    }
}

/// The table `d` has `value` under `key`.
pub open spec fn has_entry(d: DocModel, key: Seq<char>, value: DocModel) -> bool {
    d matches DocModel::Table(t) && exists|i: int|
        0 <= i < t.len() && #[trigger] t[i] == (key, value)
}

/// The table `d` has nothing under `key`.
pub open spec fn lacks_entry(d: DocModel, key: Seq<char>) -> bool {
    d matches DocModel::Table(t) && forall|i: int| 0 <= i < t.len() ==> (#[trigger] t[i]).0 != key
}

proof fn lemma_has_entry(t: Seq<(Seq<char>, DocModel)>, i: int, key: Seq<char>, value: DocModel)
    requires
        0 <= i < t.len(),
        t[i] == (key, value),
    ensures
        has_entry(DocModel::Table(t), key, value),
{
    let d = DocModel::Table(t);
    assert(d->Table_0[i] == (key, value));
}

/// Recordings go where they are configured to go, in one directory per path,
/// and are cut, kept and handed on as configured: whatever the settings are,
/// they stand under `pathDefaults` as they were given.
pub proof fn law_recordings_go_where_configured(
    p: ConfigParams,
    interfaces: Seq<Seq<char>>,
    rec: RecordingParams,
)
    requires
        rec == p.recording,
    ensures
        ({
            let d = path_defaults(rec);
            &&& has_entry(config_model(p, interfaces), "pathDefaults"@, d)
            &&& has_entry(
                d,
                "recordPath"@,
                DocModel::Text(rec.root@ + "/%path/%Y-%m-%d_%H-%M-%S-%f"@),
            )
            &&& has_entry(d, "record"@, DocModel::Bool(rec.enabled))
            &&& has_entry(d, "recordFormat"@, DocModel::Text("fmp4"@))
            &&& has_entry(d, "recordSegmentDuration"@, DocModel::Text(rec.segment_duration@))
            &&& has_entry(d, "recordDeleteAfter"@, DocModel::Text(rec.delete_after@))
            &&& has_entry(d, "useAbsoluteTimestamp"@, DocModel::Bool(true))
            &&& rec.on_segment_complete is Some ==> has_entry(
                d,
                "runOnRecordSegmentComplete"@,
                DocModel::Text((rec.on_segment_complete->0)@),
            )
            &&& rec.on_segment_complete is None ==> d->Table_0.len() == 8
        }),
{
    let t = path_defaults(rec)->Table_0;
    lemma_has_entry(t, 0, "useAbsoluteTimestamp"@, DocModel::Bool(true));
    lemma_has_entry(t, 1, "record"@, DocModel::Bool(rec.enabled));
    lemma_has_entry(
        t,
        2,
        "recordPath"@,
        DocModel::Text(rec.root@ + "/%path/%Y-%m-%d_%H-%M-%S-%f"@),
    );
    lemma_has_entry(t, 3, "recordFormat"@, DocModel::Text("fmp4"@));
    lemma_has_entry(t, 6, "recordSegmentDuration"@, DocModel::Text(rec.segment_duration@));
    lemma_has_entry(t, 7, "recordDeleteAfter"@, DocModel::Text(rec.delete_after@));
    if let Some(hook) = rec.on_segment_complete {
        lemma_has_entry(t, 8, "runOnRecordSegmentComplete"@, DocModel::Text(hook@));
    }
    let c = config_model(p, interfaces)->Table_0;
    lemma_has_entry(c, c.len() - 2, "pathDefaults"@, path_defaults(rec));
}

/// Different roots are recorded under different paths.
pub proof fn law_recording_roots_are_kept_apart(a: Seq<char>, b: Seq<char>)
    requires
        a != b,
    ensures
        record_template(a) != record_template(b),
        a.is_prefix_of(record_template(a)),
{
    let tail = "/%path/%Y-%m-%d_%H-%M-%S-%f"@;
    let (x, y) = (record_template(a), record_template(b));
    assert(a =~= x.subrange(0, a.len() as int));
    if x == y {
        assert(x.len() == a.len() + tail.len());
        assert(y.len() == b.len() + tail.len());
        assert(a =~= b) by {
            assert(b =~= y.subrange(0, b.len() as int));
        }
    }
}

/// Every service listens where it is told to: each port stands under its own
/// key, behind a colon.
pub proof fn law_services_listen_where_configured(p: ConfigParams, interfaces: Seq<Seq<char>>)
    ensures
        ({
            let c = config_model(p, interfaces);
            &&& has_entry(c, "apiAddress"@, DocModel::Text(":"@ + text::decimal(p.api_port as nat)))
            &&& has_entry(c, "playbackAddress"@, DocModel::Text(":"@ + text::decimal(p.playback_port as nat)))
            &&& has_entry(c, "rtspAddress"@, DocModel::Text(":"@ + text::decimal(p.rtsp_port as nat)))
            &&& has_entry(c, "webrtcAddress"@, DocModel::Text(":"@ + text::decimal(p.webrtc_port as nat)))
            &&& has_entry(c, "hlsAddress"@, DocModel::Text(":"@ + text::decimal(p.hls_port as nat)))
            &&& has_entry(c, "webrtcLocalUDPAddress"@, DocModel::Text(":"@ + text::decimal(8189)))
            &&& has_entry(c, "rtspTransports"@, yaml::text_list(seq!["tcp"@]))
            &&& has_entry(c, "webrtcIPsFromInterfacesList"@, yaml::text_list(interfaces))
            &&& has_entry(c, "api"@, DocModel::Bool(true))
            &&& has_entry(c, "playback"@, DocModel::Bool(true))
            &&& has_entry(c, "rtsp"@, DocModel::Bool(true))
            &&& has_entry(c, "webrtc"@, DocModel::Bool(true))
            &&& has_entry(c, "hls"@, DocModel::Bool(true))
        }),
{
    let t = config_model(p, interfaces)->Table_0;
    let server = server_entries(p, interfaces);
    assert forall|i: int| 0 <= i < 30 implies t[i] == server[i] by {}
    lemma_has_entry(
        t,
        2,
        "apiAddress"@,
        DocModel::Text(":"@ + text::decimal(p.api_port as nat)),
    );
    lemma_has_entry(
        t,
        8,
        "playbackAddress"@,
        DocModel::Text(":"@ + text::decimal(p.playback_port as nat)),
    );
    lemma_has_entry(
        t,
        10,
        "rtspAddress"@,
        DocModel::Text(":"@ + text::decimal(p.rtsp_port as nat)),
    );
    lemma_has_entry(
        t,
        13,
        "webrtcAddress"@,
        DocModel::Text(":"@ + text::decimal(p.webrtc_port as nat)),
    );
    lemma_has_entry(
        t,
        23,
        "hlsAddress"@,
        DocModel::Text(":"@ + text::decimal(p.hls_port as nat)),
    );
    lemma_has_entry(
        t,
        19,
        "webrtcLocalUDPAddress"@,
        DocModel::Text(":"@ + text::decimal(8189)),
    );
    lemma_has_entry(t, 11, "rtspTransports"@, yaml::text_list(seq!["tcp"@]));
    lemma_has_entry(t, 16, "webrtcIPsFromInterfacesList"@, yaml::text_list(interfaces));
    lemma_has_entry(t, 1, "api"@, DocModel::Bool(true));
    lemma_has_entry(t, 7, "playback"@, DocModel::Bool(true));
    lemma_has_entry(t, 9, "rtsp"@, DocModel::Bool(true));
    lemma_has_entry(t, 12, "webrtc"@, DocModel::Bool(true));
    lemma_has_entry(t, 22, "hls"@, DocModel::Bool(true));
}

/// The LAN addresses are advertised exactly as they are given, and the paths
/// are those of the streams.
pub proof fn law_hosts_and_paths_are_those_given(p: ConfigParams, interfaces: Seq<Seq<char>>)
    ensures
        ({
            let c = config_model(p, interfaces);
            &&& p.lan_ips@.len() > 0 ==> has_entry(
                c,
                "webrtcAdditionalHosts"@,
                yaml::text_list(text::views(p.lan_ips@)),
            )
            &&& p.lan_ips@.len() == 0 ==> c->Table_0.len() == 32
            &&& p.lan_ips@.len() > 0 ==> c->Table_0.len() == 33
            &&& has_entry(
                c,
                "paths"@,
                DocModel::Table(path_entries(p.streams@, p.streams@.len() as int)),
            )
        }),
{
    let t = config_model(p, interfaces)->Table_0;
    assert(server_entries(p, interfaces).len() == 30);
    if p.lan_ips@.len() > 0 {
        lemma_has_entry(
            t,
            30,
            "webrtcAdditionalHosts"@,
            yaml::text_list(text::views(p.lan_ips@)),
        );
    }
    lemma_has_entry(
        t,
        t.len() - 1,
        "paths"@,
        DocModel::Table(path_entries(p.streams@, p.streams@.len() as int)),
    );
}

/// What belongs to the profile: the ground station serves plain segments and
/// the others the low-latency form; only behind a relay are a TCP candidate
/// and STUN servers offered.
pub proof fn law_what_a_profile_decides(p: ConfigParams, interfaces: Seq<Seq<char>>)
    ensures
        ({
            let c = config_model(p, interfaces);
            let relay = p.profile == MediamtxProfile::CloudRelay;
            &&& p.profile == MediamtxProfile::Ground ==> has_entry(
                c,
                "hlsVariant"@,
                DocModel::Text("mpegts"@),
            )
            &&& p.profile != MediamtxProfile::Ground ==> has_entry(
                c,
                "hlsVariant"@,
                DocModel::Text("lowLatency"@),
            )
            &&& relay ==> has_entry(
                c,
                "webrtcLocalTCPAddress"@,
                DocModel::Text(":"@ + text::decimal(8189)),
            ) && stun_urls(p.profile).len() == 5
            &&& !relay ==> has_entry(c, "webrtcLocalTCPAddress"@, DocModel::Text(Seq::empty()))
                && has_entry(c, "webrtcICEServers2"@, DocModel::List(Seq::empty()))
            &&& has_entry(
                c,
                "webrtcICEServers2"@,
                DocModel::List(
                    Seq::new(
                        stun_urls(p.profile).len(),
                        |i: int|
                            DocModel::Table(
                                seq![("url"@, DocModel::Text(stun_urls(p.profile)[i]))],
                            ),
                    ),
                ),
            )
        }),
{
    let t = config_model(p, interfaces)->Table_0;
    let server = server_entries(p, interfaces);
    assert forall|i: int| 0 <= i < 30 implies t[i] == server[i] by {}
    lemma_has_entry(t, 25, "hlsVariant"@, DocModel::Text(variant(p.profile)));
    lemma_has_entry(t, 20, "webrtcLocalTCPAddress"@, DocModel::Text(tcp_address(p.profile)));
    let servers = Seq::new(
        stun_urls(p.profile).len(),
        |i: int| DocModel::Table(seq![("url"@, DocModel::Text(stun_urls(p.profile)[i]))]),
    );
    assert(url_tables(stun_urls(p.profile)) =~= servers);
    lemma_has_entry(t, 21, "webrtcICEServers2"@, DocModel::List(servers));
    if p.profile != MediamtxProfile::CloudRelay {
        assert(servers =~= Seq::<DocModel>::empty());
    }
}

/// A path that is published into the server has its source alone; any other
/// source is pulled on demand.
pub proof fn law_only_pulled_sources_wait_for_demand(source: Seq<char>)
    ensures
        has_entry(path_entry(source), "source"@, DocModel::Text(source)),
        source == "publisher"@ ==> lacks_entry(path_entry(source), "sourceOnDemand"@),
        source != "publisher"@ ==> has_entry(
            path_entry(source),
            "sourceOnDemand"@,
            DocModel::Bool(true),
        ),
{
    let t = path_entry(source)->Table_0;
    lemma_has_entry(t, 0, "source"@, DocModel::Text(source));
    reveal_strlit("source");
    reveal_strlit("sourceOnDemand");
    assert("source"@.len() == 6 && "sourceOnDemand"@.len() == 14);
    if source != "publisher"@ {
        lemma_has_entry(t, 1, "sourceOnDemand"@, DocModel::Bool(true));
    }
}

/// A wired or wireless interface is one whose name begins with `e` or `w`, but
/// for the tunnels whose name begins with `wg`.
pub proof fn law_physical_interfaces_by_their_names(name: Seq<char>)
    ensures
        is_physical(name) <==> name.len() > 0 && (name[0] == 'e' || name[0] == 'w') && !(name.len()
            >= 2 && name[0] == 'w' && name[1] == 'g'),
{
    reveal_strlit("e");
    reveal_strlit("w");
    reveal_strlit("lo");
    reveal_strlit("docker");
    reveal_strlit("veth");
    reveal_strlit("br-");
    reveal_strlit("bat");
    reveal_strlit("tap");
    reveal_strlit("tun");
    reveal_strlit("wg");
    reveal_strlit("virbr");
    reveal_strlit("vmnet");
    assert(forall|p: Seq<char>| #[trigger]
        p.is_prefix_of(name) && p.len() > 0 ==> name.len() > 0 && name[0] == p[0]) by {
        assert forall|p: Seq<char>| #[trigger] p.is_prefix_of(name) && p.len() > 0 implies name.len()
            > 0 && name[0] == p[0] by {
            assert(p[0] == name.subrange(0, p.len() as int)[0]);
        }
    }
    if name.len() > 0 && name[0] == 'e' {
        assert("e"@ =~= name.subrange(0, 1));
    }
    if name.len() > 0 && name[0] == 'w' {
        assert("w"@ =~= name.subrange(0, 1));
    }
    if name.len() >= 2 && name[0] == 'w' && name[1] == 'g' {
        assert("wg"@ =~= name.subrange(0, 2));
    }
    if "wg"@.is_prefix_of(name) {
        assert("wg"@[1] == name.subrange(0, 2)[1]);
    }
}

/// The headers of a response, the empty line, and its body.
pub open spec fn framed(head: Seq<u8>, body: Seq<u8>) -> Seq<u8> {
    head + seq![13u8, 10u8, 13u8, 10u8] + body
}

/// A response is read in two parts: behind the first empty line stands the
/// body, and it is handed out only where the second word of the first line is
/// the number 200.
pub proof fn law_a_body_stands_behind_the_headers(raw: Seq<u8>)
    ensures
        match body_of(raw) {
            Some(body) => exists|head: Seq<u8>|
                raw == #[trigger] framed(head, body)
                    && found_from(head + seq![13u8, 10u8, 13u8], seq![13u8, 10u8, 13u8, 10u8], 0)
                    is None && vstd::utf8::valid_utf8(first_line(head)) && is_success(
                    vstd::utf8::decode_utf8(first_line(head)),
                ),
            None => true,
        },
{
    let mark = seq![13u8, 10u8, 13u8, 10u8];
    lemma_found(raw, mark, 0);
    if let Some(body) = body_of(raw) {
        let sep = found_from(raw, mark, 0)->0;
        let head = raw.take(sep);
        assert(raw =~= framed(head, body)) by {
            assert(raw.subrange(sep, sep + 4) =~= mark);
            assert forall|i: int| 0 <= i < raw.len() implies raw[i] == framed(
                head,
                body,
            )[i] by {
                if sep <= i < sep + 4 {
                    assert(raw[i] == raw.subrange(sep, sep + 4)[i - sep]);
                }
            }
        }
        let front = head + seq![13u8, 10u8, 13u8];
        assert(front =~= raw.take(sep + 3)) by {
            assert forall|i: int| 0 <= i < front.len() implies front[i] == raw[i] by {
                if i >= sep {
                    assert(raw[i] == raw.subrange(sep, sep + 4)[i - sep]);
                }
            }
        }
        lemma_found(front, mark, 0);
        if let Some(k) = found_from(front, mark, 0) {
            assert(front.subrange(k, k + 4) =~= raw.subrange(k, k + 4));
            assert(raw.subrange(k, k + 4) == mark);
        }
    }
}

/// What a search for bytes finds: the first place, or that there is none.
proof fn lemma_found(haystack: Seq<u8>, needle: Seq<u8>, i: int)
    requires
        0 <= i,
        needle.len() > 0,
    ensures
        match found_from(haystack, needle, i) {
            Some(k) => {
                &&& i <= k
                &&& k + needle.len() <= haystack.len()
                &&& haystack.subrange(k, k + needle.len()) == needle
                &&& forall|j: int|
                    i <= j < k ==> #[trigger] haystack.subrange(j, j + needle.len()) != needle
            },
            None => forall|j: int|
                i <= j && j + needle.len() <= haystack.len() ==> #[trigger] haystack.subrange(
                    j,
                    j + needle.len(),
                ) != needle,
        },
    decreases haystack.len() - i,
{
    if i + needle.len() <= haystack.len() && haystack.subrange(i, i + needle.len()) != needle {
        lemma_found(haystack, needle, i + 1);
    }
}

/// A search finds the first place where the bytes stand, and nothing where they
/// stand nowhere.
pub proof fn law_a_search_finds_the_first(haystack: Seq<u8>, needle: Seq<u8>, k: int)
    requires
        needle.len() > 0,
        0 <= k,
        k + needle.len() <= haystack.len(),
        haystack.subrange(k, k + needle.len()) == needle,
    ensures
        found_from(haystack, needle, 0) is Some,
        0 <= found_from(haystack, needle, 0)->0 <= k,
        haystack.subrange(
            found_from(haystack, needle, 0)->0,
            found_from(haystack, needle, 0)->0 + needle.len(),
        ) == needle,
{
    lemma_found(haystack, needle, 0);
}

/// The status line of a success has the number 200 as its second word.
pub proof fn law_success_is_the_number_200(line: Seq<char>)
    ensures
        is_success(line) <==> text::words_of(line).len() > 1 && text::unsigned(
            text::words_of(line)[1],
            65535,
        ) == Some(200nat),
{
}

/// A file stands in its directory behind exactly one slash that is added where
/// there is none.
pub proof fn law_files_stand_in_their_directory(dir: Seq<char>, name: Seq<char>)
    ensures
        name.is_suffix_of(path_in(dir, name)),
        dir.is_prefix_of(path_in(dir, name)),
        dir.len() > 0 && dir.last() != '/' ==> path_in(dir, name) == dir + "/"@ + name,
        dir.len() == 0 ==> path_in(dir, name) == name,
        path_in(dir + "/"@, name) == dir + "/"@ + name,
{
    reveal_strlit("/");
    let p = path_in(dir, name);
    assert(name =~= p.subrange(p.len() - name.len(), p.len() as int));
    assert(dir =~= p.subrange(0, dir.len() as int));
    if dir.len() == 0 {
        assert(p =~= name);
    }
    assert((dir + "/"@).last() == '/');
}

/// A fresh media server has the default ports, records nothing, and is
/// configured by `mediamtx.yml` in its directory.
pub proof fn law_a_fresh_server_has_the_defaults(
    m: MediamtxManager,
    profile: MediamtxProfile,
    dir: Seq<char>,
)
    requires
        m.is_fresh(profile, dir),
    ensures
        m.profile == profile,
        m.api_port == 9997,
        m.rtsp_port == 8554,
        m.webrtc_port == 8889,
        m.hls_port == 8888,
        m.playback_port == 9996,
        !m.recording.enabled,
        m.recording.root@ == "/var/ados/recordings"@,
        m.recording.segment_duration@ == "60s"@,
        m.recording.delete_after@ == "24h"@,
        m.recording.on_segment_complete is None,
        dir.len() > 0 && dir.last() != '/' ==> m.config_path@ == dir + "/"@ + "mediamtx.yml"@,
{
}

/// Recording settings that say the same give the same document.
pub proof fn law_same_recordings_read_the_same(a: RecordingParams, b: RecordingParams)
    requires
        same_recording(a, b),
    ensures
        path_defaults(a) == path_defaults(b),
        a.enabled == b.enabled && a.root@ == b.root@,
{
    assert(a.on_segment_complete is Some <==> b.on_segment_complete is Some);
}

/// Names in order stand as the dictionary has them.
pub proof fn law_ordered_names(names: Seq<Seq<char>>, i: int, j: int)
    requires
        ordered(names),
        0 <= i < j < names.len(),
    ensures
        names[i] == names[j] || text::precedes(names[i], names[j]),
{
    text::lemma_order_is_total(names[i], names[j]);
    assert(!text::precedes(names[j], names[i]));
}

/// What the server is told besides: how long it waits, how much it queues, how
/// large its packets are, and how it cuts what it serves.
pub proof fn law_the_limits_of_the_server(p: ConfigParams, interfaces: Seq<Seq<char>>)
    ensures
        ({
            let c = config_model(p, interfaces);
            &&& has_entry(c, "logLevel"@, DocModel::Text("warn"@))
            &&& has_entry(c, "readTimeout"@, DocModel::Text("10s"@))
            &&& has_entry(c, "writeTimeout"@, DocModel::Text("10s"@))
            &&& has_entry(c, "writeQueueSize"@, DocModel::Int(4096))
            &&& has_entry(c, "udpMaxPayloadSize"@, DocModel::Int(1452))
            &&& has_entry(c, "webrtcAllowOrigin"@, DocModel::Text("*"@))
            &&& has_entry(c, "webrtcIPsFromInterfaces"@, DocModel::Bool(true))
            &&& has_entry(c, "webrtcHandshakeTimeout"@, DocModel::Text("10s"@))
            &&& has_entry(c, "webrtcSTUNGatherTimeout"@, DocModel::Text("2s"@))
            &&& has_entry(c, "hlsAlwaysRemux"@, DocModel::Bool(false))
            &&& has_entry(c, "hlsSegmentCount"@, DocModel::Int(7))
            &&& has_entry(c, "hlsSegmentDuration"@, DocModel::Text("1s"@))
            &&& has_entry(c, "hlsPartDuration"@, DocModel::Text("200ms"@))
            &&& has_entry(c, "hlsAllowOrigin"@, DocModel::Text("*"@))
            &&& has_entry(
                path_defaults(p.recording),
                "recordPartDuration"@,
                DocModel::Text("200ms"@),
            )
            &&& has_entry(path_defaults(p.recording), "recordMaxPartSize"@, DocModel::Text("50M"@))
        }),
{
    let t = config_model(p, interfaces)->Table_0;
    let server = server_entries(p, interfaces);
    assert forall|i: int| 0 <= i < 30 implies t[i] == server[i] by {}
    lemma_has_entry(t, 0, "logLevel"@, DocModel::Text("warn"@));
    lemma_has_entry(t, 3, "readTimeout"@, DocModel::Text("10s"@));
    lemma_has_entry(t, 4, "writeTimeout"@, DocModel::Text("10s"@));
    lemma_has_entry(t, 5, "writeQueueSize"@, DocModel::Int(4096));
    lemma_has_entry(t, 6, "udpMaxPayloadSize"@, DocModel::Int(1452));
    lemma_has_entry(t, 14, "webrtcAllowOrigin"@, DocModel::Text("*"@));
    lemma_has_entry(t, 15, "webrtcIPsFromInterfaces"@, DocModel::Bool(true));
    lemma_has_entry(t, 17, "webrtcHandshakeTimeout"@, DocModel::Text("10s"@));
    lemma_has_entry(t, 18, "webrtcSTUNGatherTimeout"@, DocModel::Text("2s"@));
    lemma_has_entry(t, 24, "hlsAlwaysRemux"@, DocModel::Bool(false));
    lemma_has_entry(t, 26, "hlsSegmentCount"@, DocModel::Int(7));
    lemma_has_entry(t, 27, "hlsSegmentDuration"@, DocModel::Text("1s"@));
    lemma_has_entry(t, 28, "hlsPartDuration"@, DocModel::Text("200ms"@));
    lemma_has_entry(t, 29, "hlsAllowOrigin"@, DocModel::Text("*"@));
    let d = path_defaults(p.recording)->Table_0;
    lemma_has_entry(d, 4, "recordPartDuration"@, DocModel::Text("200ms"@));
    lemma_has_entry(d, 5, "recordMaxPartSize"@, DocModel::Text("50M"@));
}

/// Behind a relay the five public servers are asked for an address.
pub proof fn law_the_servers_behind_a_relay()
    ensures
        stun_urls(MediamtxProfile::CloudRelay) == seq![
            "stun:stun.l.google.com:19302"@,
            "stun:stun1.l.google.com:19302"@,
            "stun:stun2.l.google.com:19302"@,
            "stun:stun.cloudflare.com:3478"@,
            "stun:global.stun.twilio.com:3478"@,
        ],
{
}

/// The ports and the times of the media server.
pub proof fn law_the_ports_and_times_of_the_server()
    ensures
        DEFAULT_API_PORT == 9997,
        DEFAULT_RTSP_PORT == 8554,
        DEFAULT_WEBRTC_PORT == 8889,
        DEFAULT_HLS_PORT == 8888,
        DEFAULT_PLAYBACK_PORT == 9996,
        WEBRTC_LOCAL_ICE_PORT == 8189,
        MAIN_PATH@ == "main"@,
        RTSP_BIND_TIMEOUT == 10_000_000_000,
        RTSP_BIND_PROBE_INTERVAL == 50_000_000,
        API_TIMEOUT == 2_000_000_000,
        API_CONNECT_TIMEOUT == 500_000_000,
        RECORDINGS_ROOT@ == "/var/ados/recordings"@,
        RECORD_SEGMENT_DURATION@ == "60s"@,
{
}

/// A response with headers, an empty line and a body hands the body out exactly
/// where its status line reports success.
pub proof fn law_a_success_hands_its_body_out(head: Seq<u8>, body: Seq<u8>)
    requires
        found_from(head + seq![13u8, 10u8, 13u8], seq![13u8, 10u8, 13u8, 10u8], 0) is None,
    ensures
        body_of(framed(head, body)) == (if decoded(first_line(head)) is Some && is_success(
            decoded(first_line(head))->0,
        ) {
            Some(body)
        } else {
            None
        }),
{
    let mark = seq![13u8, 10u8, 13u8, 10u8];
    let raw = framed(head, body);
    let n = head.len() as int;
    assert(raw.take(n + 3) =~= head + seq![13u8, 10u8, 13u8]);
    assert(raw.subrange(n, n + 4) =~= mark);
    lemma_found_at(raw, mark, n);
    assert(raw.take(n) =~= head);
    assert(raw.skip(n + 4) =~= body);
    assert(mark == crlf_crlf());
}

/// Where bytes stand for the first time is where the search finds them.
proof fn lemma_found_at(all: Seq<u8>, mark: Seq<u8>, n: int)
    requires
        mark.len() > 0,
        0 <= n,
        n + mark.len() <= all.len(),
        all.subrange(n, n + mark.len()) == mark,
        found_from(all.take(n + mark.len() - 1), mark, 0) is None,
    ensures
        found_from(all, mark, 0) == Some(n),
{
    let front = all.take(n + mark.len() - 1);
    lemma_found(front, mark, 0);
    lemma_found(all, mark, 0);
    let k = found_from(all, mark, 0)->0;
    if k < n {
        assert(all.subrange(k, k + mark.len()) =~= front.subrange(k, k + mark.len()));
    }
}

/// The first line of the headers ends at the first line end, and is all of them
/// where there is none.
pub proof fn law_the_first_line_of_the_headers(line: Seq<u8>, rest: Seq<u8>)
    requires
        found_from(line + seq![13u8], seq![13u8, 10u8], 0) is None,
    ensures
        first_line(line + seq![13u8, 10u8] + rest) == line,
        first_line(line) == line,
{
    let mark = seq![13u8, 10u8];
    let front = line + seq![13u8];
    let all = line + mark + rest;
    let n = line.len() as int;
    assert(all.take(n + 1) =~= front);
    assert(all.subrange(n, n + 2) =~= mark);
    lemma_found_at(all, mark, n);
    assert(all.take(n) =~= line);
    lemma_found(front, mark, 0);
    lemma_found(line, mark, 0);
    if let Some(j) = found_from(line, mark, 0) {
        assert(line.subrange(j, j + 2) =~= front.subrange(j, j + 2));
    }
}

/// A response without an empty line has no body.
pub proof fn law_no_empty_line_no_body(raw: Seq<u8>)
    requires
        forall|i: int| 0 <= i && i + 4 <= raw.len() ==> #[trigger] raw.subrange(i, i + 4) != seq![
            13u8,
            10u8,
            13u8,
            10u8,
        ],
    ensures
        body_of(raw) is None,
{
    lemma_found(raw, seq![13u8, 10u8, 13u8, 10u8], 0);
}

} // verus!
