//! The media server's configuration and its control interface.
use ados_media::json::{parse, Json};
use ados_media::mediamtx::{
    find_subslice, http_body, http_request, inbound_bytes, mediamtx_config_yaml, path_query,
    path_ready, physical_lan_interfaces, received_bytes, record_path_template, says_ready,
    start_succeeded, usable_lan_ip, ConfigParams, MediamtxManager, MediamtxProfile, RecordingParams,
};
use serde_json::Value;

fn publisher() -> Vec<(String, String)> {
    vec![("main".to_string(), "publisher".to_string())]
}

fn names(list: &[&str]) -> Vec<String> {
    list.iter().map(|s| s.to_string()).collect()
}

fn render(params: &ConfigParams) -> Value {
    let yaml = mediamtx_config_yaml(params, &names(&["eth0"])).expect("renders");
    serde_norway::from_str(&yaml).unwrap()
}

fn default_params<'a>(
    lan_ips: &'a [String],
    streams: &'a [(String, String)],
) -> ConfigParams<'a> {
    ConfigParams::new(MediamtxProfile::Air, lan_ips, streams)
}

#[test]
fn config_has_exact_ports_and_main_path() {
    let lan = vec!["192.168.1.115".to_string()];
    let streams = publisher();
    let v = render(&default_params(&lan, &streams));

    assert_eq!(v["apiAddress"], ":9997");
    assert_eq!(v["rtspAddress"], ":8554");
    assert_eq!(v["webrtcAddress"], ":8889");
    assert_eq!(v["hlsAddress"], ":8888");
    assert_eq!(v["api"], true);
    assert_eq!(v["rtsp"], true);
    assert_eq!(v["rtspTransports"], Value::from(vec!["tcp"]));
    assert_eq!(v["webrtc"], true);
    assert_eq!(v["hls"], true);
    assert_eq!(v["logLevel"], "warn");
    assert_eq!(v["webrtcAllowOrigin"], "*");
    assert_eq!(v["webrtcHandshakeTimeout"], "10s");
    assert_eq!(v["webrtcSTUNGatherTimeout"], "2s");
    assert_eq!(v["readTimeout"], "10s");
    assert_eq!(v["writeTimeout"], "10s");
    assert_eq!(v["writeQueueSize"], 4096);
    assert_eq!(v["udpMaxPayloadSize"], 1452);
    assert_eq!(v["playback"], true);
    assert_eq!(v["playbackAddress"], ":9996");

    assert_eq!(v["webrtcIPsFromInterfaces"], true);
    assert!(v["webrtcIPsFromInterfacesList"].as_array().is_some());
    assert_eq!(v["webrtcLocalUDPAddress"], ":8189");
    assert_eq!(v["webrtcLocalTCPAddress"], "");
    assert_eq!(
        v["webrtcAdditionalHosts"],
        Value::from(vec!["192.168.1.115"])
    );

    assert_eq!(v["hlsAlwaysRemux"], false);
    assert_eq!(v["hlsVariant"], "lowLatency");
    assert_eq!(v["hlsSegmentCount"], 7);
    assert_eq!(v["hlsSegmentDuration"], "1s");
    assert_eq!(v["hlsAllowOrigin"], "*");
    assert_eq!(v["hlsPartDuration"], "200ms");

    assert_eq!(v["paths"]["main"]["source"], "publisher");
    assert!(v["paths"]["main"].get("sourceOnDemand").is_none());
}

#[test]
fn lan_profiles_carry_no_stun_and_cloud_relay_carries_all_five() {
    let lan: Vec<String> = vec![];
    let streams = publisher();

    for profile in [MediamtxProfile::Air, MediamtxProfile::Ground] {
        let v = render(&ConfigParams::new(profile, &lan, &streams));
        assert_eq!(v["webrtcICEServers2"].as_array().unwrap().len(), 0);
        assert_eq!(v["webrtcLocalTCPAddress"], "");
    }

    let v = render(&ConfigParams::new(MediamtxProfile::CloudRelay, &lan, &streams));
    let urls: Vec<&str> = v["webrtcICEServers2"]
        .as_array()
        .unwrap()
        .iter()
        .map(|s| s["url"].as_str().unwrap())
        .collect();
    assert_eq!(
        urls,
        vec![
            "stun:stun.l.google.com:19302",
            "stun:stun1.l.google.com:19302",
            "stun:stun2.l.google.com:19302",
            "stun:stun.cloudflare.com:3478",
            "stun:global.stun.twilio.com:3478",
        ]
    );
    assert_eq!(v["webrtcLocalTCPAddress"], ":8189");
}

#[test]
fn air_and_ground_agree_on_every_shared_key() {
    let lan = vec!["192.168.1.50".to_string()];
    let streams = publisher();
    let air = render(&ConfigParams::new(MediamtxProfile::Air, &lan, &streams));
    let ground = render(&ConfigParams::new(MediamtxProfile::Ground, &lan, &streams));

    const SHARED_KEYS: &[&str] = &[
        "logLevel",
        "api",
        "apiAddress",
        "readTimeout",
        "writeTimeout",
        "writeQueueSize",
        "udpMaxPayloadSize",
        "playback",
        "playbackAddress",
        "rtsp",
        "rtspAddress",
        "rtspTransports",
        "webrtc",
        "webrtcAddress",
        "webrtcAllowOrigin",
        "webrtcIPsFromInterfaces",
        "webrtcIPsFromInterfacesList",
        "webrtcHandshakeTimeout",
        "webrtcSTUNGatherTimeout",
        "webrtcLocalUDPAddress",
        "webrtcAdditionalHosts",
        "hls",
        "hlsAddress",
        "hlsAlwaysRemux",
        "hlsSegmentCount",
        "hlsSegmentDuration",
        "hlsPartDuration",
        "hlsAllowOrigin",
        "pathDefaults",
        "paths",
    ];
    for key in SHARED_KEYS {
        assert_eq!(air[key], ground[key], "air and ground diverge on `{key}`");
    }

    const PER_PROFILE_KEYS: &[&str] = &["hlsVariant", "webrtcLocalTCPAddress", "webrtcICEServers2"];
    let rendered: Vec<String> = air
        .as_object()
        .unwrap()
        .keys()
        .map(|k| k.to_string())
        .collect();
    for key in &rendered {
        assert!(
            SHARED_KEYS.contains(&key.as_str()) || PER_PROFILE_KEYS.contains(&key.as_str()),
            "`{key}` is neither shared nor per profile"
        );
    }
    assert_ne!(air["hlsVariant"], ground["hlsVariant"]);
}

#[test]
fn recording_renders_the_fmp4_block_and_playback_on_both_profiles() {
    let lan: Vec<String> = vec![];
    let streams = publisher();

    for profile in [MediamtxProfile::Air, MediamtxProfile::Ground] {
        let mut params = ConfigParams::new(profile, &lan, &streams);
        params.recording = RecordingParams {
            enabled: true,
            ..RecordingParams::default()
        };
        let v = render(&params);
        let pd = &v["pathDefaults"];

        assert_eq!(pd["record"], true);
        assert_eq!(pd["recordFormat"], "fmp4");
        assert_eq!(pd["recordPartDuration"], "200ms");
        assert_eq!(pd["recordMaxPartSize"], "50M");
        assert_eq!(pd["recordSegmentDuration"], "60s");
        assert_eq!(pd["recordDeleteAfter"], "24h");
        assert_eq!(
            pd["recordPath"],
            "/var/ados/recordings/%path/%Y-%m-%d_%H-%M-%S-%f"
        );
        assert_eq!(v["playback"], true);
        assert_eq!(v["playbackAddress"], ":9996");
        assert_eq!(pd["useAbsoluteTimestamp"], true);
        assert!(pd.get("runOnRecordSegmentComplete").is_none());
    }
}

#[test]
fn recording_disabled_keeps_playback_and_sets_record_false() {
    let lan: Vec<String> = vec![];
    let streams = publisher();
    let v = render(&default_params(&lan, &streams));
    assert_eq!(v["pathDefaults"]["record"], false);
    assert_eq!(v["playback"], true);
}

#[test]
fn config_without_lan_ip_falls_back_and_omits_additional_hosts() {
    let lan: Vec<String> = vec![];
    let streams = publisher();
    let v = render(&default_params(&lan, &streams));
    assert_eq!(v["webrtcLocalUDPAddress"], ":8189");
    assert_eq!(v["webrtcLocalTCPAddress"], "");
    assert!(v.get("webrtcAdditionalHosts").is_none());
}

#[test]
fn non_publisher_source_gets_source_on_demand() {
    let lan: Vec<String> = vec![];
    let streams = vec![
        ("main".to_string(), "publisher".to_string()),
        ("cam2".to_string(), "rtsp://10.0.0.9:554/live".to_string()),
    ];
    let v = render(&default_params(&lan, &streams));
    assert!(v["paths"]["main"].get("sourceOnDemand").is_none());
    assert_eq!(v["paths"]["cam2"]["sourceOnDemand"], true);
    assert_eq!(v["paths"]["cam2"]["source"], "rtsp://10.0.0.9:554/live");
}

#[test]
fn config_round_trips_through_typed_map() {
    let lan = vec!["10.1.1.5".to_string()];
    let streams = publisher();
    let v = render(&default_params(&lan, &streams));
    assert!(v["paths"].as_object().unwrap().contains_key("main"));
}

#[test]
fn write_config_carries_the_recording_knobs_to_disk() {
    let lan: Vec<String> = vec![];
    let streams = publisher();
    let mut params = ConfigParams::new(MediamtxProfile::Ground, &lan, &streams);
    params.recording = RecordingParams {
        enabled: true,
        root: "/var/ados/recordings".into(),
        delete_after: "6h".into(),
        on_segment_complete: Some("notify".into()),
        ..RecordingParams::default()
    };
    let v = render(&params);
    assert_eq!(v["pathDefaults"]["record"], true);
    assert_eq!(v["pathDefaults"]["recordDeleteAfter"], "6h");
    assert_eq!(v["pathDefaults"]["recordFormat"], "fmp4");
    assert_eq!(v["pathDefaults"]["runOnRecordSegmentComplete"], "notify");
    assert_eq!(v["playbackAddress"], ":9996");
}

#[test]
fn a_path_that_is_named_twice_has_its_last_source() {
    let lan: Vec<String> = vec![];
    let streams = vec![
        ("a".to_string(), "rtsp://one/".to_string()),
        ("a".to_string(), "publisher".to_string()),
    ];
    let v = render(&default_params(&lan, &streams));
    assert_eq!(v["paths"].as_object().unwrap().len(), 1);
    assert_eq!(v["paths"]["a"]["source"], "publisher");
}

#[test]
fn the_interfaces_reach_the_document() {
    let lan: Vec<String> = vec![];
    let streams = publisher();
    let v = render(&default_params(&lan, &streams));
    assert_eq!(
        v["webrtcIPsFromInterfacesList"],
        Value::from(vec!["eth0"])
    );
}

#[test]
fn physical_interfaces_are_kept() {
    assert_eq!(
        physical_lan_interfaces(&names(&["lo", "wlan0", "docker0", "eth0", "tailscale0", "veth1"])),
        names(&["eth0", "wlan0"])
    );
    assert!(physical_lan_interfaces(&[]).is_empty());
}

#[test]
fn unusable_addresses_are_told() {
    assert!(usable_lan_ip("192.168.1.5"));
    assert!(!usable_lan_ip("127.0.0.1"));
    assert!(!usable_lan_ip("169.254.10.1"));
}

#[test]
fn recordings_are_laid_out_by_path_and_time() {
    assert_eq!(record_path_template("/r"), "/r/%path/%Y-%m-%d_%H-%M-%S-%f");
}

// --- the control interface ------------------------------------------------------

fn body(raw: &str) -> Option<Vec<u8>> {
    http_body(raw.as_bytes())
}

#[test]
fn path_ready_parses_true() {
    let b = body(
        "HTTP/1.1 200 OK\r\nContent-Type: application/json\r\n\r\n\
         {\"name\":\"main\",\"ready\":true,\"bytesReceived\":4096}",
    );
    assert!(path_ready(b.as_deref()));
}

#[test]
fn path_ready_parses_false() {
    let b = body("HTTP/1.1 200 OK\r\n\r\n{\"ready\":false}");
    assert!(!path_ready(b.as_deref()));
}

#[test]
fn inbound_bytes_parses_counter() {
    let b = body("HTTP/1.1 200 OK\r\n\r\n{\"ready\":true,\"bytesReceived\":123456}");
    assert_eq!(inbound_bytes(b.as_deref()), Some(123456));
}

#[test]
fn inbound_bytes_missing_field_is_none() {
    let b = body("HTTP/1.1 200 OK\r\n\r\n{\"ready\":true}");
    assert_eq!(inbound_bytes(b.as_deref()), None);
}

#[test]
fn non_200_is_not_ready_and_no_bytes() {
    let b = body("HTTP/1.1 404 Not Found\r\n\r\n{\"error\":\"not found\"}");
    assert!(b.is_none());
    assert!(!path_ready(b.as_deref()));
    assert_eq!(inbound_bytes(b.as_deref()), None);
}

#[test]
fn connection_refused_is_graceful() {
    assert!(!path_ready(None));
    assert_eq!(inbound_bytes(None), None);
}

#[test]
fn find_subslice_basic() {
    assert_eq!(find_subslice(b"abc\r\n\r\nxyz", b"\r\n\r\n"), Some(3));
    assert_eq!(find_subslice(b"no-sep-here", b"\r\n\r\n"), None);
    assert_eq!(find_subslice(b"", b"x"), None);
}

#[test]
fn replies_are_read_on_their_own() {
    let doc = |t: &str| parse(t.as_bytes()).unwrap();
    assert!(says_ready(&doc(r#"{"ready":true}"#)));
    assert!(!says_ready(&doc(r#"{"ready":"true"}"#)));
    assert!(!says_ready(&Json::Null));
    assert_eq!(received_bytes(&doc(r#"{"bytesReceived":7}"#)), Some(7));
    assert_eq!(received_bytes(&doc(r#"{"bytesReceived":-7}"#)), None);
    assert!(!path_ready(Some(b"not json")));
    assert_eq!(inbound_bytes(Some(b"not json")), None);
}

#[test]
fn replies_without_a_header_end_have_no_body() {
    assert_eq!(body("HTTP/1.1 200 OK\r\n"), None);
    assert_eq!(body("HTTP/1.1 200 OK\r\n\r\n"), Some(vec![]));
    assert_eq!(http_body(b"HTTP/1.1 200 \xff\r\n\r\n{}"), None);
}

#[test]
fn requests_ask_for_one_path() {
    assert_eq!(path_query("main"), "/v3/paths/get/main");
    let r = http_request(9997, &path_query("main"));
    assert!(r.starts_with("GET /v3/paths/get/main HTTP/1."), "{r}");
    assert!(r.contains("Host: 127.0.0.1:9997\r\n"), "{r}");
    assert!(r.ends_with("\r\n\r\n"), "{r}");
}

#[test]
fn a_start_fails_only_without_listener_and_process() {
    assert!(start_succeeded(true, true));
    assert!(start_succeeded(true, false));
    assert!(start_succeeded(false, true));
    assert!(!start_succeeded(false, false));
}

#[test]
fn a_server_is_configured_by_its_settings() {
    let m = MediamtxManager::new("/etc/ados");
    assert_eq!(m.profile, MediamtxProfile::Air);
    assert_eq!((m.api_port(), m.rtsp_port()), (9997, 8554));
    assert_eq!((m.webrtc_port(), m.playback_port()), (8889, 9996));
    assert_eq!(m.config_path(), "/etc/ados/mediamtx.yml");
    assert_eq!(*m.recording(), RecordingParams::default());
    assert_eq!(MediamtxManager::new("/t/").config_path(), "/t/mediamtx.yml");
    assert_eq!(MediamtxManager::new("").config_path(), "mediamtx.yml");

    let recording = RecordingParams {
        enabled: true,
        ..RecordingParams::default()
    };
    let m = MediamtxManager::for_profile(MediamtxProfile::Ground, "/t")
        .with_ports(1, 2, 3, 4)
        .with_recording(recording.clone());
    let lan = names(&["192.168.1.50"]);
    let streams = publisher();
    let p = m.config_params(&lan, &streams);
    assert_eq!(p.profile, MediamtxProfile::Ground);
    assert_eq!((p.api_port, p.rtsp_port, p.webrtc_port, p.hls_port), (1, 2, 3, 4));
    assert_eq!(p.playback_port, 9996);
    assert_eq!(p.recording, recording);
    let v = render(&p);
    assert_eq!(v["rtspAddress"], ":2");
    assert_eq!(v["hlsVariant"], "mpegts");
}
