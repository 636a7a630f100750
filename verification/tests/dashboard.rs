//! The dashboard model, the links, the poll view and what the panels show.
use ados_media::json::{parse, Json, Number};
use ados_media::links::{dedup_drop_loopback, LinkRow};
use ados_media::model::{
    fix_label, state_label, viewer_url_from_whep, AccessUrl, Dashboard, FcLink, Health, History,
    HISTORY_CAP,
};
use ados_media::poll::{hms, AgentView, PollResult};
use ados_media::reach::{base_url, is_ipv4, is_loopback_url, port_of, reach_rank, swap_host, url_host};
use ados_media::ui;
use ados_media::ui::{Cell, Paint, Rect, Span};

const SEC: u64 = 1_000_000_000;

fn json(text: &str) -> Json {
    parse(text.as_bytes()).expect("the document is JSON")
}

fn reading(x: f64) -> Number {
    Number::Real(x.to_bits())
}

fn line_text(line: &[Span]) -> String {
    line.iter().map(|s| s.text.as_str()).collect()
}

fn lines_text(lines: &[Vec<Span>]) -> String {
    let mut out = String::new();
    for l in lines {
        out.push_str(&line_text(l));
        out.push('\n');
    }
    out
}

#[test]
fn state_label_matches_states() {
    assert_eq!(state_label("complete"), "ready");
    assert_eq!(state_label("needs_action"), "needs action");
    assert_eq!(state_label("in_progress"), "in progress");
    assert_eq!(state_label("pending"), "pending");
}

#[test]
fn viewer_url_strips_whep_suffix() {
    assert_eq!(
        viewer_url_from_whep(Some("http://host:8889/main/whep")).as_deref(),
        Some("http://host:8889/main/")
    );
    assert_eq!(
        viewer_url_from_whep(Some("http://host:8889/main/")).as_deref(),
        Some("http://host:8889/main/")
    );
    assert_eq!(viewer_url_from_whep(None), None);
    assert_eq!(viewer_url_from_whep(Some("")), None);
}

#[test]
fn ident_is_device_and_profile() {
    let dash = Dashboard {
        device_name: "ados-e996786c".into(),
        profile: "ground_station".into(),
        ..Dashboard::default()
    };
    assert_eq!(dash.ident(), "ados-e996786c · ground_station");
}

#[test]
fn reach_rank_classifies_hosts() {
    assert_eq!(reach_rank("http://ados-abc.local:8080/setup"), 0);
    assert_eq!(reach_rank("http://192.168.1.5:8080/setup"), 1);
    assert_eq!(reach_rank("https://tunnel.example.com/setup"), 2);
    assert_eq!(reach_rank("http://localhost:8080/setup"), 3);
    assert_eq!(reach_rank("http://127.0.0.1:8080/setup"), 3);
    assert_eq!(reach_rank("http://[::1]:8080/setup"), 3);
}

#[test]
fn is_loopback_url_detects_loopback() {
    assert!(is_loopback_url("http://localhost:8080/"));
    assert!(is_loopback_url("http://127.0.0.1:8080/"));
    assert!(!is_loopback_url("http://ados-abc.local:8080/"));
    assert!(!is_loopback_url("http://192.168.1.5:8080/"));
}

#[test]
fn reach_links_groups_all_kinds_full_url_mdns_and_ip() {
    let data = json(
        r#"{
            "access_urls": [
                {"kind": "setup", "label": "mDNS setup", "url": "http://ados-x.local:8080/setup", "primary": true},
                {"kind": "setup", "label": "LAN setup", "url": "http://192.168.1.5:8080/setup"},
                {"kind": "setup", "label": "local", "url": "http://localhost:8080/setup"},
                {"kind": "video", "label": "Local video viewer", "url": "http://ados-x.local:8889/main/"},
                {"kind": "mavlink", "label": "MAVLink WebSocket", "url": "ws://ados-x.local:8765/"},
                {"kind": "mission_control", "label": "Mission Control", "url": "https://command.example.com"},
                {"kind": "cloud", "label": "Remote access", "url": "https://tunnel.example.com/setup"}
            ],
            "mavlink": {"connected": true, "tcp_url": "tcp://ados-x.local:5760", "websocket_url": "ws://ados-x.local:8765/"}
        }"#,
    );
    let groups = Dashboard::from_status(&data).reach_links();
    let titles: Vec<&str> = groups.iter().map(|g| g.title).collect();
    assert_eq!(
        titles,
        vec!["Console", "Ground control", "Video", "Mission Control", "Remote"]
    );

    let console: Vec<&str> = groups[0].rows.iter().map(|r| r.url.as_str()).collect();
    assert_eq!(
        console,
        vec!["http://ados-x.local:8080/setup", "http://192.168.1.5:8080/setup"]
    );

    let gc: Vec<&str> = groups[1].rows.iter().map(|r| r.url.as_str()).collect();
    assert!(gc.contains(&"tcp://ados-x.local:5760"));
    assert!(gc.contains(&"ws://ados-x.local:8765/"));
    assert!(gc.contains(&"tcp://192.168.1.5:5760"));
    assert!(gc.contains(&"ws://192.168.1.5:8765/"));

    let vid: Vec<&str> = groups[2].rows.iter().map(|r| r.url.as_str()).collect();
    assert!(vid.contains(&"http://ados-x.local:8889/main/"));
    assert!(vid.contains(&"http://192.168.1.5:8889/main/"));
}

#[test]
fn reach_links_drops_empty_groups() {
    let data = json(
        r#"{"access_urls": [{"kind": "setup", "url": "http://ados-x.local:8080/setup", "primary": true}]}"#,
    );
    let groups = Dashboard::from_status(&data).reach_links();
    assert_eq!(groups.len(), 1);
    assert_eq!(groups[0].title, "Console");
}

#[test]
fn fc_link_refines_with_api_status() {
    let connected = Dashboard {
        mavlink_connected: true,
        ..Dashboard::default()
    };
    assert_eq!(connected.fc_link(), FcLink::Connected);

    let mut port_open = Dashboard::default();
    port_open.merge_fc_status(&json(
        r#"{"transportOpen": true, "mavlinkAlive": false,
            "fcLinkHint": "msp_detected", "fc_port": "ttyS0", "fc_baud": 921600}"#,
    ));
    assert_eq!(port_open.fc_link(), FcLink::PortOpen);
    assert_eq!(port_open.fc_hint().as_deref(), Some("msp detected"));
    assert_eq!(port_open.fc_endpoint().as_deref(), Some("ttyS0 · 921600"));

    assert_eq!(Dashboard::default().fc_link(), FcLink::Down);
}

#[test]
fn port_of_and_swap_host() {
    assert_eq!(port_of("ws://host:8765/"), Some(8765));
    assert_eq!(port_of("tcp://192.168.1.5:5760"), Some(5760));
    assert_eq!(port_of("http://host/no-port"), None);
    assert_eq!(
        swap_host("http://ados-x.local:8889/main/", "192.168.1.5"),
        "http://192.168.1.5:8889/main/"
    );
    assert_eq!(
        swap_host("ws://ados-x.local:8765/", "10.0.0.9"),
        "ws://10.0.0.9:8765/"
    );
}

#[test]
fn health_healthy_when_configured_connected_and_all_running() {
    let data = json(
        r#"{"profile": "drone", "paired": true, "mavlink": {"connected": true},
            "services": [{"state": "running"}, {"state": "running"}],
            "steps": [{"label": "Profile", "state": "complete"}]}"#,
    );
    assert_eq!(Dashboard::from_status(&data).health(), Health::Healthy);
}

#[test]
fn health_degraded_when_a_service_is_down() {
    let data = json(
        r#"{"profile": "drone", "paired": true, "mavlink": {"connected": true},
            "services": [{"state": "running"}, {"state": "stopped"}],
            "steps": [{"label": "Profile", "state": "complete"}]}"#,
    );
    assert_eq!(Dashboard::from_status(&data).health(), Health::Degraded);
}

#[test]
fn health_degraded_when_configured_drone_loses_fc() {
    let data = json(
        r#"{"profile": "drone", "paired": true, "mavlink": {"connected": false},
            "services": [{"state": "running"}]}"#,
    );
    assert_eq!(Dashboard::from_status(&data).health(), Health::Degraded);
}

#[test]
fn health_setup_when_unpaired_and_steps_incomplete() {
    let data = json(
        r#"{"profile": "drone", "paired": false, "mavlink": {"connected": false},
            "services": [{"state": "running"}],
            "steps": [{"label": "Profile", "state": "pending"}]}"#,
    );
    assert_eq!(Dashboard::from_status(&data).health(), Health::Setup);
}

#[test]
fn health_healthy_for_ground_station_without_fc() {
    let data = json(
        r#"{"profile": "ground_station", "paired": true, "mavlink": {"connected": false},
            "services": [{"state": "running"}]}"#,
    );
    assert_eq!(Dashboard::from_status(&data).health(), Health::Healthy);
}

#[test]
fn health_words_and_glyphs() {
    assert_eq!(Health::Healthy.dot(), "●");
    assert_eq!(Health::Degraded.dot(), "▲");
    assert_eq!(Health::Setup.dot(), "●");
    assert_eq!(Health::Healthy.label(), "HEALTHY");
    assert_eq!(Health::Degraded.label(), "DEGRADED");
    assert_eq!(Health::Setup.label(), "SETUP");
}

#[test]
fn status_summary_combines_pairing_and_link() {
    let paired_local = Dashboard {
        paired: true,
        cloud_mode: "local".into(),
        ..Dashboard::default()
    };
    assert_eq!(paired_local.status_summary(), "paired · local mode");

    let code_relay = Dashboard {
        paired: false,
        pairing_code: Some("AB12".into()),
        cloud_configured: true,
        ..Dashboard::default()
    };
    assert_eq!(code_relay.status_summary(), "code AB12 · cloud relay");

    let tunnelled = Dashboard {
        remote_status: "running".into(),
        ..Dashboard::default()
    };
    assert_eq!(tunnelled.status_summary(), "not paired · cloudflare");
}

#[test]
fn cloud_relay_local_mode() {
    let dash = Dashboard::from_status(&json(r#"{"cloud_choice": {"mode": "local"}}"#));
    assert_eq!(dash.cloud_relay, "disabled (local mode)");
}

#[test]
fn cloud_relay_tells_paired_from_configured() {
    let relay = |text: &str| Dashboard::from_status(&json(text)).cloud_relay;
    assert_eq!(
        relay(r#"{"cloud_choice": {"mode": "self", "paired": true, "backend_url": "https://r"}}"#),
        "paired (https://r)"
    );
    assert_eq!(
        relay(r#"{"cloud_choice": {"mode": "self", "backend_url": "https://r"}}"#),
        "configured (https://r)"
    );
    assert_eq!(relay("{}"), "not configured");
}

#[test]
fn full_status_extracts_typed_fields() {
    let data = json(
        r#"{
            "version": "0.46.12",
            "device_name": "ados-e996786c",
            "profile": "drone",
            "paired": false,
            "pairing_code": "WM325P",
            "access_urls": [
                {"label": "Setup", "url": "http://ados-x.local:8080/setup", "primary": true}
            ],
            "steps": [{"label": "Profile", "state": "complete"}],
            "mavlink": {"connected": true, "tcp_url": "tcp://x:5760"},
            "video": {"state": "running", "whep_url": "http://x:8889/main/whep"},
            "network": {"hotspot_enabled": true, "hotspot_ssid": "ADOS-AP"},
            "remote_access": {"status": "disabled"},
            "cloud_choice": {"mode": "local"},
            "telemetry": {
                "mode": "STABILIZE", "armed": false,
                "battery": {"remaining": 82},
                "gps": {"fix_type": 3, "satellites": 14},
                "position": {"alt_rel": 12.5}
            },
            "services": [{"state": "running"}, {"state": "running"}, {"state": "stopped"}],
            "next_action": "Open Mission Control"
        }"#,
    );
    let dash = Dashboard::from_status(&data);

    assert_eq!(dash.version, "0.46.12");
    assert_eq!(dash.device_name, "ados-e996786c");
    assert_eq!(dash.pairing_code.as_deref(), Some("WM325P"));
    assert!(dash.access_urls[0].primary);
    assert!(dash.steps_all_complete);
    assert!(dash.mavlink_connected);
    assert_eq!(dash.video_state, "running");
    assert_eq!(dash.video_viewer.as_deref(), Some("http://x:8889/main/"));
    assert_eq!(dash.hotspot, "ADOS-AP");
    assert_eq!(dash.mode.as_deref(), Some("STABILIZE"));
    assert_eq!(dash.armed, Some(false));
    assert_eq!(dash.battery, Some(Number::Unsigned(82)));
    assert_eq!(dash.gps_fix.as_deref(), Some("3D"));
    assert_eq!(dash.satellites, Some(14));
    assert_eq!(dash.alt, Some(reading(12.5)));
    assert_eq!((dash.services_running, dash.services_total), (2, 3));
    assert_eq!(dash.next_action, "Open Mission Control");
}

#[test]
fn empty_status_has_no_telemetry() {
    let dash = Dashboard::from_status(&json("{}"));
    assert!(dash.mode.is_none());
    assert!(dash.battery.is_none());
    assert!(dash.alt.is_none());
    assert_eq!(dash.version, "?");
}

#[test]
fn only_the_first_ten_addresses_are_kept() {
    let mut text = String::from(r#"{"access_urls": ["#);
    for i in 0..12 {
        if i > 0 {
            text.push(',');
        }
        text.push_str(&format!(r#"{{"url": "http://h{i}/"}}"#));
    }
    text.push_str("]}");
    let dash = Dashboard::from_status(&json(&text));
    assert_eq!(dash.access_urls.len(), 10);
    assert_eq!(
        dash.access_urls[9],
        AccessUrl {
            label: "URL".into(),
            url: "http://h9/".into(),
            kind: "".into(),
            primary: false
        }
    );
}

#[test]
fn fix_label_maps_gps_fix_types() {
    assert_eq!(fix_label(0), "no GPS");
    assert_eq!(fix_label(1), "no fix");
    assert_eq!(fix_label(3), "3D");
    assert_eq!(fix_label(6), "RTK fixed");
    assert_eq!(fix_label(99), "unknown");
    assert_eq!(fix_label(2), "2D");
    assert_eq!(fix_label(4), "DGPS");
    assert_eq!(fix_label(5), "RTK float");
    assert_eq!(fix_label(-1), "unknown");
}

#[test]
fn flight_telemetry_hidden_when_fc_disconnected() {
    let data = json(
        r#"{"profile": "drone", "mavlink": {"connected": false},
            "telemetry": {
                "mode": "", "armed": false,
                "battery": {"remaining": -1},
                "gps": {"fix_type": 0, "satellites": 0},
                "position": {"alt_rel": 0.0}
            }}"#,
    );
    let dash = Dashboard::from_status(&data);
    assert!(dash.mode.is_none());
    assert!(dash.battery.is_none());
    assert!(dash.gps_fix.is_none());
    assert!(dash.satellites.is_none());
    assert!(dash.alt.is_none());
}

#[test]
fn battery_unknown_when_negative() {
    let battery = |text: &str| {
        Dashboard::from_status(&json(&format!(
            r#"{{"mavlink": {{"connected": true}}, "telemetry": {{"battery": {{"remaining": {text}}}}}}}"#
        )))
        .battery
    };
    assert!(battery("-1").is_none());
    assert!(battery("-0.5").is_none());
    assert_eq!(battery("0.0"), Some(reading(0.0)));
    assert_eq!(battery("-0.0"), Some(reading(-0.0)));
    assert_eq!(battery("99.5"), Some(reading(99.5)));
}

#[test]
fn hotspot_hidden_when_disabled() {
    let off = json(r#"{"network": {"hotspot_enabled": false, "hotspot_ssid": "ADOS-AP"}}"#);
    assert_eq!(Dashboard::from_status(&off).hotspot, "");
    let on = json(r#"{"network": {"hotspot_enabled": true, "hotspot_ssid": "ADOS-AP"}}"#);
    assert_eq!(Dashboard::from_status(&on).hotspot, "ADOS-AP");
}

#[test]
fn history_records_present_values_and_caps() {
    let mut history = History::default();
    for i in 0..(HISTORY_CAP + 5) {
        let dash = Dashboard {
            battery: Some(reading(i as f64)),
            alt: None,
            ..Dashboard::default()
        };
        history.record(&dash);
    }
    assert_eq!(history.battery.len(), HISTORY_CAP);
    assert_eq!(*history.battery.first().unwrap(), reading(5.0));
    assert_eq!(*history.battery.last().unwrap(), reading(34.0));
    assert!(history.alt.is_empty());
}

// --- addresses ------------------------------------------------------------

#[test]
fn hosts_are_taken_out_of_urls() {
    assert_eq!(url_host("http://ADOS-X.Local:8080/setup?x=1#y"), "ados-x.local");
    assert_eq!(url_host("http://[FE80::1]:8080/"), "fe80::1");
    assert_eq!(url_host("host:80"), "host");
    assert_eq!(url_host("host?q"), "host");
    assert_eq!(url_host(""), "");
}

#[test]
fn dotted_addresses_are_told_from_names() {
    assert!(is_ipv4("10.0.0.255"));
    assert!(!is_ipv4("10.0.0.256"));
    assert!(!is_ipv4("10.0.0"));
    assert!(!is_ipv4("10.0.0.0.1"));
    assert!(!is_ipv4("10..0.1"));
    assert!(!is_ipv4("10.0.0.+1"));
    assert!(!is_ipv4("a.b.c.d"));
}

#[test]
fn ports_stand_past_brackets() {
    assert_eq!(port_of("http://[::1]:8080/"), Some(8080));
    assert_eq!(port_of("http://[::1]/"), None);
    assert_eq!(port_of("host:70000"), None);
    assert_eq!(port_of("host:"), None);
}

#[test]
fn swapping_keeps_port_and_tail() {
    assert_eq!(swap_host("http://[::1]:80/a?b#c", "h"), "http://h:80/a?b#c");
    assert_eq!(swap_host("old/path", "new"), "new/path");
    assert_eq!(swap_host("old:1", "new"), "new:1");
    assert_eq!(url_host(&swap_host("http://old:80/x", "New.Local")), "new.local");
    assert_eq!(port_of(&swap_host("http://old:80/x", "New.Local")), Some(80));
}

#[test]
fn swapping_back_gives_the_first_url() {
    for (url, old) in [
        ("http://old.example:80/a?b#c", "old.example"),
        ("ws://10.0.0.2/", "10.0.0.2"),
        ("old/path", "old"),
        ("http://[::1]:80/a", "[::1]"),
    ] {
        let away = swap_host(url, "new.local");
        assert_ne!(away, url);
        assert_eq!(swap_host(&away, old), url);
        assert_eq!(swap_host(url, old), url);
        assert_eq!(port_of(&away), port_of(url));
    }
}

#[test]
fn only_the_host_decides_the_reach() {
    for h in ["ados.local", "10.0.0.2", "x.example", "localhost", "127.0.0.1", ""] {
        let url = format!("http://{h}:8080/setup?x#y");
        assert_eq!(reach_rank(&url), reach_rank(h), "{h}");
        assert_eq!(reach_rank(&url.to_ascii_uppercase()), reach_rank(&url), "{h}");
        assert_eq!(reach_rank(&url) == 3, is_loopback_url(&url), "{h}");
    }
}

#[test]
fn tidying_twice_is_tidying_once() {
    let row = |url: &str, loopback: bool| LinkRow {
        url: url.into(),
        primary: false,
        loopback,
    };
    let rows = vec![row("b", false), row("l", true), row("a", false), row("b", true)];
    let once = dedup_drop_loopback(rows);
    assert_eq!(once, vec![row("b", false), row("a", false)]);
    assert_eq!(dedup_drop_loopback(once.clone()), once);
    let machine = vec![row("l", true), row("m", true), row("l", false)];
    let kept = dedup_drop_loopback(machine);
    assert_eq!(kept, vec![row("l", true), row("m", true)]);
    assert_eq!(dedup_drop_loopback(kept.clone()), kept);
}

#[test]
fn base_addresses_have_no_path() {
    assert_eq!(base_url("http://ados-x.local:8080/setup"), "http://ados-x.local:8080");
    assert_eq!(base_url("http://h?x"), "http://h");
    assert_eq!(base_url("h"), "h");
}

#[test]
fn links_are_unique_and_best_first() {
    let data = json(
        r#"{"access_urls": [
            {"kind": "setup", "url": "http://127.0.0.1/"},
            {"kind": "setup", "url": "https://t.example.com/"},
            {"kind": "setup", "url": "http://10.0.0.2/"},
            {"kind": "setup", "url": "http://a.local/"},
            {"kind": "setup", "url": "http://10.0.0.2/", "primary": true},
            {"kind": "setup", "url": ""}
        ]}"#,
    );
    let groups = Dashboard::from_status(&data).reach_links();
    assert_eq!(
        groups[0].rows,
        vec![
            LinkRow { url: "http://a.local/".into(), primary: false, loopback: false },
            LinkRow { url: "http://10.0.0.2/".into(), primary: false, loopback: false },
            LinkRow { url: "https://t.example.com/".into(), primary: false, loopback: false },
        ]
    );
}

#[test]
fn a_loopback_link_stays_where_it_is_the_only_one() {
    let data = json(r#"{"access_urls": [{"kind": "setup", "url": "http://localhost/"}]}"#);
    let groups = Dashboard::from_status(&data).reach_links();
    assert_eq!(groups[0].rows.len(), 1);
    assert!(groups[0].rows[0].loopback);
}

#[test]
fn mavlink_ports_default_where_none_is_named() {
    let data = json(
        r#"{"access_urls": [{"kind": "setup", "url": "http://a.local/"}],
            "mavlink": {"tcp_url": "tcp://a.local", "public_websocket_url": "wss://p"}}"#,
    );
    let groups = Dashboard::from_status(&data).reach_links();
    let urls: Vec<&str> = groups[1].rows.iter().map(|r| r.url.as_str()).collect();
    assert_eq!(urls, vec!["tcp://a.local:5760", "ws://a.local:8765/", "wss://p"]);
}

#[test]
fn the_viewer_of_the_whep_endpoint_stands_in() {
    let data = json(
        r#"{"access_urls": [{"kind": "setup", "url": "http://10.0.0.2/"}],
            "video": {"whep_url": "http://x:8889/main/whep"}}"#,
    );
    let groups = Dashboard::from_status(&data).reach_links();
    assert_eq!(groups[1].title, "Video");
    assert_eq!(groups[1].rows[0].url, "http://10.0.0.2:8889/main/");
}

// --- polling --------------------------------------------------------------

fn ok(battery: f64) -> PollResult {
    PollResult {
        setup: Ok(json(&format!(
            r#"{{"version": "0.99.108", "profile": "drone", "mavlink": {{"connected": true}},
                "telemetry": {{"battery": {{"remaining": {battery:.1}}}}}}}"#
        ))),
        fc_status: None,
    }
}

#[test]
fn a_failed_poll_keeps_the_snapshot_time_and_records_the_error() {
    let t0 = 1_000 * SEC;
    let mut view = AgentView::default();
    view.apply(ok(82.0), t0, "12:00:00".into());
    assert_eq!(view.refreshed.as_deref(), Some("12:00:00"));

    let failed = PollResult {
        setup: Err("Agent unreachable: connection refused".into()),
        fc_status: None,
    };
    view.apply(failed, t0 + 2 * SEC, "12:00:02".into());
    assert_eq!(
        view.refreshed.as_deref(),
        Some("12:00:00"),
        "the refreshed clock only moves when data actually refreshed"
    );
    assert_eq!(
        view.error.as_deref(),
        Some("Agent unreachable: connection refused")
    );
    assert_eq!(view.dash.as_ref().and_then(|d| d.battery), Some(reading(82.0)));
    assert!(!view.is_stale(t0 + 2 * SEC, 6 * SEC));
    assert!(view.is_stale(t0 + 7 * SEC, 6 * SEC));

    view.apply(ok(80.0), t0 + 8 * SEC, "12:00:08".into());
    assert_eq!(view.error, None);
    assert_eq!(view.refreshed.as_deref(), Some("12:00:08"));
    assert_eq!(view.history.battery, vec![reading(82.0), reading(80.0)]);
}

#[test]
fn the_native_status_is_merged_into_the_built_dashboard() {
    let mut view = AgentView::default();
    let result = PollResult {
        setup: Ok(json(r#"{"profile": "drone", "mavlink": {"connected": false}}"#)),
        fc_status: Some(json(r#"{"fcVariant": "inav"}"#)),
    };
    view.apply(result, 0, "12:00:00".into());
    assert_eq!(
        view.dash.and_then(|d| d.fc_variant).as_deref(),
        Some("inav")
    );
}

#[test]
fn merging_never_overwrites_a_known_port() {
    let mut dash = Dashboard::from_status(&json(r#"{"mavlink": {"port": "ttyS0", "baud": 57600}}"#));
    dash.merge_fc_status(&json(
        r#"{"fc_port": "ttyS1", "fc_baud": 921600, "fcLinkHint": "none", "transportOpen": true,
            "mavlinkAlive": false, "fcVariant": "inav"}"#,
    ));
    assert_eq!(dash.fc_endpoint().as_deref(), Some("ttyS0 · 57600"));
    assert_eq!(dash.fc_hint(), None);
    assert_eq!(dash.fc_link(), FcLink::Msp);
    assert_eq!(dash.fc_variant_label().as_deref(), Some("inav"));
}

#[test]
fn a_view_without_a_success_is_not_stale() {
    let view = AgentView::default();
    assert!(!view.is_stale(u64::MAX, 0));
}

#[test]
fn the_clock_shows_the_time_of_day() {
    assert_eq!(hms(0), "00:00:00");
    assert_eq!(hms(86_399), "23:59:59");
    assert_eq!(hms(86_400 + 3_661), "01:01:01");
}

// --- panels ---------------------------------------------------------------

fn sample() -> Dashboard {
    Dashboard::from_status(&json(
        r#"{
            "version": "0.99.108",
            "device_name": "skynodepi",
            "profile": "drone",
            "paired": true,
            "access_urls": [
                {"kind": "setup", "label": "mDNS setup", "url": "http://ados-x.local:8080/setup", "primary": true},
                {"kind": "setup", "label": "LAN setup", "url": "http://192.168.1.5:8080/setup"},
                {"kind": "mission_control", "label": "Mission Control", "url": "https://command.altnautica.com"},
                {"kind": "video", "label": "viewer", "url": "http://ados-x.local:8889/main/"},
                {"kind": "mavlink", "label": "MAVLink WS", "url": "ws://ados-x.local:8765/"}
            ],
            "mavlink": {"connected": false},
            "steps": [
                {"label": "Flight controller", "state": "needs_action", "detail": "Connect the FC and re-check."},
                {"label": "Profile", "state": "complete", "detail": "Confirmed as drone"}
            ],
            "services": [{"state": "running"}]
        }"#,
    ))
}

fn cell_text(cells: &[Cell]) -> String {
    let mut out = String::new();
    for c in cells {
        match c {
            Cell::Line(v) | Cell::Nav(v, _) => out.push_str(&line_text(v)),
            _ => {}
        }
        out.push('\n');
    }
    out
}

/// The text of every part of the screen.
fn screen_text(dash: Option<&Dashboard>, latest: Option<&str>, splash: bool) -> String {
    let (hl, hr) = ui::header(dash, "12:00:00", false);
    let (fl, fr) = ui::footer(dash, latest);
    let mut out = String::new();
    for l in [hl, hr, fl, fr] {
        out.push_str(&line_text(&l));
        out.push('\n');
    }
    out.push_str(&lines_text(&ui::verdict(dash)));
    if let Some(d) = dash {
        out.push_str(&lines_text(&ui::links_panel(d)));
        out.push_str(&cell_text(&ui::autopilot_panel(d, 0, 0)));
        out.push_str(&line_text(&ui::video_panel(d)));
        out.push_str(&lines_text(&ui::link_panel(d)));
        out.push_str(&lines_text(&ui::services_panel(d)));
        if splash {
            if let Some(l) = latest {
                out.push_str("Update available\n");
                out.push_str(&lines_text(&ui::update_splash_overlay(&d.version, l)));
            }
        }
    }
    out
}

#[test]
fn renders_links_fc_and_update_badge() {
    let text = screen_text(Some(&sample()), Some("0.99.200"), false);
    assert!(text.contains("Connect to GCS"), "{text}");
    assert!(text.contains("http://ados-x.local:8080  ●"), "{text}");
    assert!(text.contains("Conventional MAVLink"), "{text}");
    assert!(text.contains("command.altnautica.com"), "{text}");
    assert!(
        text.contains("No flight controller detected on USB/serial"),
        "{text}"
    );
    assert!(text.contains("Connect the FC and re-check."), "{text}");
    assert!(text.contains("update available"), "{text}");
}

#[test]
fn renders_update_splash() {
    let text = screen_text(Some(&sample()), Some("0.99.200"), true);
    assert!(text.contains("Update available"), "{text}");
    assert!(text.contains("update now"), "{text}");
    assert!(text.contains("v0.99.108  →  v0.99.200"), "{text}");
}

#[test]
fn no_update_badge_when_up_to_date() {
    let text = screen_text(Some(&sample()), Some("0.99.108"), false);
    assert!(!text.contains("update available"), "{text}");
    assert!(text.contains("up to date"), "{text}");
}

#[test]
fn the_footer_is_silent_until_a_version_is_known() {
    let (left, right) = ui::footer(Some(&sample()), None);
    assert_eq!(line_text(&right), "v0.99.108");
    assert_eq!(
        line_text(&left),
        "[d] driver  [p] pair  [l] logs  [a] actions  [r] refresh  [q] quit  "
    );
    let (left, _) = ui::footer(Some(&sample()), Some("0.99.200"));
    assert!(line_text(&left).contains("[u] update  "));
    let (_, right) = ui::footer(None, Some("1.0"));
    assert!(right.is_empty());
}

#[test]
fn the_header_names_the_node_and_flags_staleness() {
    let (left, right) = ui::header(Some(&sample()), "12:00:00", true);
    assert_eq!(line_text(&left), "▌ ADOS   skynodepi · drone");
    assert_eq!(line_text(&right), "v0.99.108  ·  refreshed 12:00:00 UTC  stale");
    let (left, right) = ui::header(None, "-", false);
    assert_eq!(line_text(&left), "▌ ADOS   connecting");
    assert_eq!(line_text(&right), "refreshed - UTC");
    assert_eq!(ui::status_message(None), "Connecting to the agent…");
    assert_eq!(ui::status_message(Some("down")), "down");
}

#[test]
fn the_verdict_shows_health_and_summary() {
    let lines = ui::verdict(Some(&sample()));
    assert_eq!(line_text(&lines[0]), "▲ DEGRADED");
    assert_eq!(lines[0][1].paint, Paint::Warning);
    assert!(lines[0][1].bold);
    assert_eq!(line_text(&lines[1]), "paired · local mode");
    assert_eq!(lines_text(&ui::verdict(None)), "· · ·\n");
}

#[test]
fn the_autopilot_panel_shows_what_is_known() {
    let dash = Dashboard {
        profile: "drone".into(),
        mavlink_connected: true,
        mode: Some("LOITER".into()),
        armed: Some(true),
        battery: Some(Number::Unsigned(20)),
        gps_fix: Some("3D".into()),
        satellites: Some(9),
        alt: Some(reading(1.5)),
        ..Dashboard::default()
    };
    let cells = ui::autopilot_panel(&dash, 2, 1);
    assert_eq!(cells.len(), 4);
    match &cells[0] {
        Cell::Line(v) => assert_eq!(line_text(v), "● FC connected   LOITER   ARMED "),
        other => panic!("{other:?}"),
    }
    assert_eq!(cells[1], Cell::Gauge(Number::Unsigned(20), Paint::Danger));
    assert_eq!(cells[2], Cell::BatteryTrend(Paint::Danger));
    match &cells[3] {
        Cell::Nav(v, alt) => {
            assert_eq!(line_text(v), "GPS 3D   sats 9   ");
            assert_eq!(*alt, Some(reading(1.5)));
        }
        other => panic!("{other:?}"),
    }
    let cells = ui::autopilot_panel(&dash, 1, 2);
    assert_eq!(*cells.last().unwrap(), Cell::AltTrend(Paint::Accent));
}

#[test]
fn battery_colours_change_above_twenty_and_fifty() {
    let paint = |n: Number| {
        let dash = Dashboard {
            battery: Some(n),
            ..Dashboard::default()
        };
        ui::autopilot_panel(&dash, 0, 0)
            .into_iter()
            .find_map(|c| match c {
                Cell::Gauge(_, p) => Some(p),
                _ => None,
            })
            .unwrap()
    };
    assert_eq!(paint(Number::Unsigned(51)), Paint::Success);
    assert_eq!(paint(Number::Unsigned(50)), Paint::Warning);
    assert_eq!(paint(Number::Unsigned(21)), Paint::Warning);
    assert_eq!(paint(Number::Unsigned(20)), Paint::Danger);
    assert_eq!(paint(reading(50.0)), Paint::Warning);
    assert_eq!(paint(reading(50.1)), Paint::Success);
    assert_eq!(paint(reading(20.0)), Paint::Danger);
    assert_eq!(paint(reading(20.5)), Paint::Warning);
    assert_eq!(paint(reading(-0.0)), Paint::Danger);
}

#[test]
fn a_ground_station_without_fc_has_no_autopilot() {
    let dash = Dashboard {
        profile: "ground_station".into(),
        ..Dashboard::default()
    };
    assert_eq!(
        cell_text(&ui::autopilot_panel(&dash, 5, 5)),
        "no autopilot (ground station)\n"
    );
}

#[test]
fn the_services_panel_explains_open_steps_once() {
    let mut dash = sample();
    dash.next_action = "Connect the FC and re-check.".into();
    let text = lines_text(&ui::services_panel(&dash));
    assert_eq!(text.matches("Connect the FC and re-check.").count(), 1);
    assert!(!text.contains("Confirmed as drone"));
    assert!(text.contains("● 1 running   ○ 0 stopped"));
    dash.next_action = "Do this".into();
    assert!(lines_text(&ui::services_panel(&dash)).contains("Do this"));
}

#[test]
fn the_link_panel_colours_by_state() {
    let dash = Dashboard {
        cloud_relay: "paired (x)".into(),
        remote_status: "starting".into(),
        ..Dashboard::default()
    };
    let lines = ui::link_panel(&dash);
    assert_eq!(lines[0][1].paint, Paint::Success);
    assert_eq!(lines[1][1].paint, Paint::Warning);
    assert_eq!(lines_text(&lines), "cloud    paired (x)\nremote   starting\nhotspot  off\n");
    assert_eq!(ui::cloud_span("configured (y)").paint, Paint::Warning);
    assert_eq!(ui::cloud_span("not configured").paint, Paint::Muted);
    assert_eq!(ui::remote_span("up").paint, Paint::Success);
    assert_eq!(ui::remote_span("off").paint, Paint::Muted);
    assert_eq!(ui::step_dot("in_progress"), ("◐", Paint::Accent));
    assert_eq!(ui::step_dot("pending"), ("○", Paint::Muted));
}

#[test]
fn the_video_panel_shows_the_state() {
    let line = ui::video_panel(&Dashboard::default());
    assert_eq!(line_text(&line), "● unknown");
    assert_eq!(line[0].paint, Paint::Muted);
    let dash = Dashboard {
        video_state: "streaming".into(),
        ..Dashboard::default()
    };
    assert_eq!(ui::video_panel(&dash)[0].paint, Paint::Success);
}

#[test]
fn boxes_are_centred() {
    let area = Rect { x: 0, y: 0, width: 120, height: 50 };
    assert_eq!(
        ui::centered_rect(60, 7, area),
        Rect { x: 24, y: 21, width: 72, height: 7 }
    );
    let small = Rect { x: 1, y: 1, width: 10, height: 3 };
    assert_eq!(
        ui::centered_rect(200, 7, small),
        Rect { x: 1, y: 1, width: 10, height: 3 }
    );
}

#[test]
fn the_action_list_marks_the_selected_row() {
    let lines = ui::actions_overlay(1);
    assert_eq!(lines.len(), 10);
    assert_eq!(
        line_text(&lines[1]),
        "› Pair                       Show Mission Control pairing info"
    );
    assert!(line_text(&lines[0]).starts_with("  Install RTL driver"));
    assert!(line_text(&lines[0]).ends_with("  (confirm)"));
}
