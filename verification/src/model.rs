//! What the terminal dashboard knows of the agent, read from its status reply.
//!
//! Every field is taken from the payload as it stands; nothing is made up for a
//! value that is missing. The health verdict and the short texts that sum the
//! state up are computed here from those fields alone.
use crate::json;
use crate::json::{Json, Number};
use crate::text;
use vstd::prelude::*;

verus! {

/// How many of the advertised addresses are kept.
pub const ACCESS_URL_CAP: usize = 10;

/// How many polled samples a trend keeps.
pub const HISTORY_CAP: usize = 30;

/// The bits of positive infinity in double precision; the bits of the
/// non-negative finite numbers are below it and in the order of the numbers.
pub const INFINITY_BITS: u64 = 0x7ff0_0000_0000_0000;

/// The bits of negative zero in double precision.
pub const NEGATIVE_ZERO_BITS: u64 = 0x8000_0000_0000_0000;

// ---------------------------------------------------------------------------
// types
// ---------------------------------------------------------------------------

/// A single advertised way to reach the agent.
#[derive(Debug, Clone, PartialEq, Eq)]
pub struct AccessUrl {
    pub label: String,
    pub url: String,
    /// The kind of endpoint: `setup`, `api`, `mission_control`, `video`,
    /// `mavlink`, or `cloud`.
    pub kind: String,
    pub primary: bool,
}

/// The model of an advertised address.
pub struct AccessModel {
    pub label: Seq<char>,
    pub url: Seq<char>,
    pub kind: Seq<char>,
    pub primary: bool,
}

impl View for AccessUrl {
    type V = AccessModel;

    open spec fn view(&self) -> AccessModel {
        AccessModel {
            label: self.label@,
            url: self.url@,
            kind: self.kind@,
            primary: self.primary,
        }
    }
}

/// A setup step with its raw state, such as `complete` or `needs_action`, and
/// the agent's explanation of it.
#[derive(Debug, Clone, PartialEq, Eq)]
pub struct Step {
    pub label: String,
    pub state: String,
    pub detail: String,
}

/// The model of a setup step.
pub struct StepModel {
    pub label: Seq<char>,
    pub state: Seq<char>,
    pub detail: Seq<char>,
}

impl View for Step {
    type V = StepModel;

    open spec fn view(&self) -> StepModel {
        StepModel { label: self.label@, state: self.state@, detail: self.detail@ }
    }
}

/// The one-word verdict.
#[derive(Debug, Clone, Copy, PartialEq, Eq, Structural)]
pub enum Health {
    Healthy,
    Degraded,
    Setup,
}

/// The state of the link to the flight controller.
#[derive(Debug, Clone, Copy, PartialEq, Eq, Structural)]
pub enum FcLink {
    /// Transport open and a fresh heartbeat: the gated "connected" truth.
    Connected,
    /// Transport open to a controller that named its firmware but speaks no
    /// MAVLink.
    Msp,
    /// Transport open but no heartbeat decoded, as with a wrong baud rate.
    PortOpen,
    /// No link.
    Down,
}

impl Health {
    /// The status glyph shown before the word.
    pub open spec fn dot_text(self) -> Seq<char> {
        match self {
            Health::Healthy => "●"@,
            Health::Degraded => "▲"@,
            Health::Setup => "●"@,
        }
    }

    /// The verdict word.
    pub open spec fn label_text(self) -> Seq<char> {
        match self {
            Health::Healthy => "HEALTHY"@,
            Health::Degraded => "DEGRADED"@,
            Health::Setup => "SETUP"@,
        }
    }

    /// The status glyph shown before the word.
    pub fn dot(self) -> (r: &'static str)
        ensures
            r@ == self.dot_text(),
    {
        match self {
            Health::Healthy => "●",
            Health::Degraded => "▲",
            Health::Setup => "●",
        }
    }

    /// The verdict word.
    pub fn label(self) -> (r: &'static str)
        ensures
            r@ == self.label_text(),
    {
        match self {
            Health::Healthy => "HEALTHY",
            Health::Degraded => "DEGRADED",
            Health::Setup => "SETUP",
        }
    }
}

/// The dashboard.
#[derive(Debug, Clone, PartialEq, Eq)]
pub struct Dashboard {
    pub version: String,
    pub device_name: String,
    pub profile: String,
    pub paired: bool,
    pub pairing_code: Option<String>,
    pub access_urls: Vec<AccessUrl>,
    pub steps: Vec<Step>,
    pub has_steps: bool,
    pub steps_all_complete: bool,
    pub mavlink_connected: bool,
    pub mavlink_tcp_url: Option<String>,
    pub mavlink_ws_url: Option<String>,
    pub mavlink_public_ws_url: Option<String>,
    pub fc_port: Option<String>,
    pub fc_baud: Option<i64>,
    /// From the native status route, when it answered.
    pub transport_open: Option<bool>,
    /// From the native status route, when it answered.
    pub mavlink_alive: Option<bool>,
    /// From the native status route, when it answered.
    pub fc_link_hint: Option<String>,
    /// The firmware that the flight controller named, from the same route.
    pub fc_variant: Option<String>,
    pub video_state: String,
    pub video_viewer: Option<String>,
    pub cloud_relay: String,
    pub cloud_mode: String,
    pub cloud_paired: bool,
    pub cloud_configured: bool,
    pub remote_status: String,
    pub hotspot: String,
    pub mode: Option<String>,
    pub armed: Option<bool>,
    /// Percent.
    pub battery: Option<Number>,
    pub gps_fix: Option<String>,
    pub satellites: Option<i64>,
    /// Metres above the take-off point.
    pub alt: Option<Number>,
    pub services_running: usize,
    pub services_total: usize,
    pub next_action: String,
}

/// The model of the dashboard.
#[verifier::ext_equal]
pub struct DashboardModel {
    pub version: Seq<char>,
    pub device_name: Seq<char>,
    pub profile: Seq<char>,
    pub paired: bool,
    pub pairing_code: Option<Seq<char>>,
    pub access_urls: Seq<AccessModel>,
    pub steps: Seq<StepModel>,
    pub has_steps: bool,
    pub steps_all_complete: bool,
    pub mavlink_connected: bool,
    pub mavlink_tcp_url: Option<Seq<char>>,
    pub mavlink_ws_url: Option<Seq<char>>,
    pub mavlink_public_ws_url: Option<Seq<char>>,
    pub fc_port: Option<Seq<char>>,
    pub fc_baud: Option<i64>,
    pub transport_open: Option<bool>,
    pub mavlink_alive: Option<bool>,
    pub fc_link_hint: Option<Seq<char>>,
    pub fc_variant: Option<Seq<char>>,
    pub video_state: Seq<char>,
    pub video_viewer: Option<Seq<char>>,
    pub cloud_relay: Seq<char>,
    pub cloud_mode: Seq<char>,
    pub cloud_paired: bool,
    pub cloud_configured: bool,
    pub remote_status: Seq<char>,
    pub hotspot: Seq<char>,
    pub mode: Option<Seq<char>>,
    pub armed: Option<bool>,
    pub battery: Option<Number>,
    pub gps_fix: Option<Seq<char>>,
    pub satellites: Option<i64>,
    pub alt: Option<Number>,
    pub services_running: usize,
    pub services_total: usize,
    pub next_action: Seq<char>,
}

/// The models of advertised addresses.
pub open spec fn access_models(v: Seq<AccessUrl>) -> Seq<AccessModel> {
    Seq::new(v.len(), |i: int| v[i]@)
}

/// The models of setup steps.
pub open spec fn step_models(v: Seq<Step>) -> Seq<StepModel> {
    Seq::new(v.len(), |i: int| v[i]@)
}

impl View for Dashboard {
    type V = DashboardModel;

    open spec fn view(&self) -> DashboardModel {
        DashboardModel {
            version: self.version@,
            device_name: self.device_name@,
            profile: self.profile@,
            paired: self.paired,
            pairing_code: text::opt_view(self.pairing_code),
            access_urls: access_models(self.access_urls@),
            steps: step_models(self.steps@),
            has_steps: self.has_steps,
            steps_all_complete: self.steps_all_complete,
            mavlink_connected: self.mavlink_connected,
            mavlink_tcp_url: text::opt_view(self.mavlink_tcp_url),
            mavlink_ws_url: text::opt_view(self.mavlink_ws_url),
            mavlink_public_ws_url: text::opt_view(self.mavlink_public_ws_url),
            fc_port: text::opt_view(self.fc_port),
            fc_baud: self.fc_baud,
            transport_open: self.transport_open,
            mavlink_alive: self.mavlink_alive,
            fc_link_hint: text::opt_view(self.fc_link_hint),
            fc_variant: text::opt_view(self.fc_variant),
            video_state: self.video_state@,
            video_viewer: text::opt_view(self.video_viewer),
            cloud_relay: self.cloud_relay@,
            cloud_mode: self.cloud_mode@,
            cloud_paired: self.cloud_paired,
            cloud_configured: self.cloud_configured,
            remote_status: self.remote_status@,
            hotspot: self.hotspot@,
            mode: text::opt_view(self.mode),
            armed: self.armed,
            battery: self.battery,
            gps_fix: text::opt_view(self.gps_fix),
            satellites: self.satellites,
            alt: self.alt,
            services_running: self.services_running,
            services_total: self.services_total,
            next_action: self.next_action@,
        }
    }
}

// ---------------------------------------------------------------------------
// reading the status reply
// ---------------------------------------------------------------------------

/// The text member `key`, or `default`.
pub open spec fn text_or(j: Option<Json>, key: Seq<char>, default: Seq<char>) -> Seq<char> {
    match json::text_value(json::field_of(j, key)) {
        Some(s) => s,
        None => default,
    }
}

/// The text member `key`, unless it is missing or empty.
pub open spec fn full_text(j: Option<Json>, key: Seq<char>) -> Option<Seq<char>> {
    match json::text_value(json::field_of(j, key)) {
        Some(s) => if s.len() > 0 {
            Some(s)
        } else {
            None
        },
        None => None,
    }
}

/// The boolean member `key` is there and true.
pub open spec fn flag_of(j: Option<Json>, key: Seq<char>) -> bool {
    json::bool_value(json::field_of(j, key)) == Some(true)
}

/// The integer member `key`, when it is positive.
pub open spec fn positive_of(j: Option<Json>, key: Seq<char>) -> Option<i64> {
    match json::signed_value(json::field_of(j, key)) {
        Some(n) => if n > 0 {
            Some(n)
        } else {
            None
        },
        None => None,
    }
}

/// The number is zero or more.
pub open spec fn not_negative(n: Number) -> bool {
    match n {
        Number::Unsigned(_) => true,
        Number::Negative(i) => i >= 0,
        Number::Real(bits) => bits <= INFINITY_BITS || bits == NEGATIVE_ZERO_BITS,
    }
}

/// The items of an array; none when there is no array.
pub open spec fn items_or_none(j: Option<Json>) -> Seq<Json> {
    match json::items_value(j) {
        Some(v) => v,
        None => Seq::empty(),
    }
}

/// One advertised address as the reply spells it.
pub open spec fn access_of(j: Json) -> AccessModel {
    AccessModel {
        label: text_or(Some(j), "label"@, "URL"@),
        url: text_or(Some(j), "url"@, ""@),
        kind: text_or(Some(j), "kind"@, ""@),
        primary: flag_of(Some(j), "primary"@),
    }
}

/// The first addresses of the reply, up to the cap.
pub open spec fn access_list(items: Seq<Json>) -> Seq<AccessModel> {
    Seq::new(
        if items.len() > ACCESS_URL_CAP {
            ACCESS_URL_CAP as nat
        } else {
            items.len()
        },
        |i: int| access_of(items[i]),
    )
}

/// One setup step as the reply spells it.
pub open spec fn step_of(j: Json) -> StepModel {
    StepModel {
        label: text_or(Some(j), "label"@, ""@),
        state: text_or(Some(j), "state"@, ""@),
        detail: text_or(Some(j), "detail"@, ""@),
    }
}

/// The setup steps of the reply.
pub open spec fn step_list(items: Seq<Json>) -> Seq<StepModel> {
    Seq::new(items.len(), |i: int| step_of(items[i]))
}

/// Every step is complete.
pub open spec fn all_complete(steps: Seq<StepModel>) -> bool {
    forall|i: int| 0 <= i < steps.len() ==> (#[trigger] steps[i]).state == "complete"@
}

/// A service entry reads `running`.
pub open spec fn is_running(j: Json) -> bool {
    json::text_value(json::field(j, "state"@)) == Some("running"@)
}

/// How many of the service entries read `running`.
pub open spec fn running_count(items: Seq<Json>) -> nat
    decreases items.len(),
{
    if items.len() == 0 {
        0
    } else {
        running_count(items.drop_last()) + if is_running(items.last()) {
            1nat
        } else {
            0nat
        }
    }
}

/// `s` without the characters `c` at its end.
pub open spec fn without_trailing(s: Seq<char>, c: char) -> Seq<char>
    decreases s.len(),
{
    if s.len() > 0 && s.last() == c {
        without_trailing(s.drop_last(), c)
    } else {
        s
    }
}

/// The viewer page of a WHEP endpoint: its URL without trailing slashes and
/// without the suffix `/whep`, ended by one slash.
pub open spec fn viewer_of(whep: Option<Seq<char>>) -> Option<Seq<char>> {
    match whep {
        Some(w) => if w.len() == 0 {
            None
        } else {
            let base = without_trailing(w, '/');
            Some(
                (if "/whep"@.is_suffix_of(base) {
                    base.take(base.len() - "/whep"@.len())
                } else {
                    base
                }) + "/"@,
            )
        },
        None => None,
    }
}

/// The name of a MAVLink GPS fix type.
pub open spec fn fix_name(t: int) -> Seq<char> {
    if t == 0 {
        "no GPS"@
    } else if t == 1 {
        "no fix"@
    } else if t == 2 {
        "2D"@
    } else if t == 3 {
        "3D"@
    } else if t == 4 {
        "DGPS"@
    } else if t == 5 {
        "RTK float"@
    } else if t == 6 {
        "RTK fixed"@
    } else {
        "unknown"@
    }
}

/// The line that sums the cloud relay up.
pub open spec fn relay_line(paired: bool, backend: Seq<char>, mode: Seq<char>) -> Seq<char> {
    if paired && backend.len() > 0 {
        "paired ("@ + backend + ")"@
    } else if backend.len() > 0 && mode != "local"@ {
        "configured ("@ + backend + ")"@
    } else if mode == "local"@ {
        "disabled (local mode)"@
    } else {
        "not configured"@
    }
}

/// The telemetry object, seen only while the flight controller is connected.
pub open spec fn live_telemetry(data: Json) -> Option<Json> {
    if flag_of(json::field(data, "mavlink"@), "connected"@) {
        json::field(data, "telemetry"@)
    } else {
        None
    }
}

/// The dashboard that a status reply stands for.
pub open spec fn dashboard_of(data: Json) -> DashboardModel {
    let d = Some(data);
    let mavlink = json::field(data, "mavlink"@);
    let video = json::field(data, "video"@);
    let network = json::field(data, "network"@);
    let remote = json::field(data, "remote_access"@);
    let cloud = json::field(data, "cloud_choice"@);
    let tel = live_telemetry(data);
    let steps = step_list(items_or_none(json::field(data, "steps"@)));
    let services = items_or_none(json::field(data, "services"@));
    let backend = text_or(cloud, "backend_url"@, ""@);
    let mode = text_or(cloud, "mode"@, ""@);
    let gps = json::field_of(tel, "gps"@);
    DashboardModel {
        version: text_or(d, "version"@, "?"@),
        device_name: text_or(d, "device_name"@, "?"@),
        profile: text_or(d, "profile"@, "?"@),
        paired: flag_of(d, "paired"@),
        pairing_code: json::text_value(json::field(data, "pairing_code"@)),
        access_urls: access_list(items_or_none(json::field(data, "access_urls"@))),
        steps,
        has_steps: steps.len() > 0,
        steps_all_complete: steps.len() > 0 && all_complete(steps),
        mavlink_connected: flag_of(mavlink, "connected"@),
        mavlink_tcp_url: full_text(mavlink, "tcp_url"@),
        mavlink_ws_url: full_text(mavlink, "websocket_url"@),
        mavlink_public_ws_url: full_text(mavlink, "public_websocket_url"@),
        fc_port: full_text(mavlink, "port"@),
        fc_baud: positive_of(mavlink, "baud"@),
        transport_open: None,
        mavlink_alive: None,
        fc_link_hint: None,
        fc_variant: None,
        video_state: text_or(video, "state"@, "unknown"@),
        video_viewer: viewer_of(json::text_value(json::field_of(video, "whep_url"@))),
        cloud_relay: relay_line(flag_of(cloud, "paired"@), backend, mode),
        cloud_mode: mode,
        cloud_paired: flag_of(cloud, "paired"@),
        cloud_configured: backend.len() > 0 && mode != "local"@,
        remote_status: text_or(remote, "status"@, "disabled"@),
        hotspot: if flag_of(network, "hotspot_enabled"@) {
            text_or(network, "hotspot_ssid"@, ""@)
        } else {
            ""@
        },
        mode: full_text(tel, "mode"@),
        armed: json::bool_value(json::field_of(tel, "armed"@)),
        battery: match json::number_value(
            json::field_of(json::field_of(tel, "battery"@), "remaining"@),
        ) {
            Some(n) => if not_negative(n) {
                Some(n)
            } else {
                None
            },
            None => None,
        },
        gps_fix: match json::signed_value(json::field_of(gps, "fix_type"@)) {
            Some(t) => Some(fix_name(t as int)),
            None => None,
        },
        satellites: json::signed_value(json::field_of(gps, "satellites"@)),
        alt: json::number_value(json::field_of(json::field_of(tel, "position"@), "alt_rel"@)),
        services_running: running_count(services) as usize,
        services_total: services.len() as usize,
        next_action: text_or(d, "next_action"@, ""@),
    }
}


/// The text member `key`, or `default`.
fn read_text(j: Option<&Json>, key: &str, default: &str) -> (r: String)
    ensures
        r@ == text_or(json::deref(j), key@, default@),
{
    match json::as_str(json::get(j, key)) {
        Some(s) => s.to_owned(),
        None => default.to_owned(),
    }
}

/// The text member `key`, unless it is missing or empty.
fn read_full_text(j: Option<&Json>, key: &str) -> (r: Option<String>)
    ensures
        text::opt_view(r) == full_text(json::deref(j), key@),
{
    match json::as_str(json::get(j, key)) {
        Some(s) => if s.unicode_len() > 0 {
            Some(s.to_owned())
        } else {
            None
        },
        None => None,
    }
}

/// The boolean member `key` is there and true.
fn read_flag(j: Option<&Json>, key: &str) -> (r: bool)
    ensures
        r == flag_of(json::deref(j), key@),
{
    match json::as_bool(json::get(j, key)) {
        Some(b) => b,
        None => false,
    }
}

/// The integer member `key`, when it is positive.
fn read_positive(j: Option<&Json>, key: &str) -> (r: Option<i64>)
    ensures
        r == positive_of(json::deref(j), key@),
{
    match json::as_i64(json::get(j, key)) {
        Some(n) => if n > 0 {
            Some(n)
        } else {
            None
        },
        None => None,
    }
}

/// The number is zero or more.
fn is_not_negative(n: Number) -> (r: bool)
    ensures
        r == not_negative(n),
{
    match n {
        Number::Unsigned(_) => true,
        Number::Negative(i) => i >= 0,
        Number::Real(bits) => bits <= INFINITY_BITS || bits == NEGATIVE_ZERO_BITS,
    }
}

/// The advertised addresses, up to the cap.
fn read_access_urls(j: Option<&Json>) -> (r: Vec<AccessUrl>)
    ensures
        access_models(r@) == access_list(items_or_none(json::deref(j))),
{
    let mut out: Vec<AccessUrl> = Vec::new();
    match json::as_items(j) {
        Some(items) => {
            let mut i: usize = 0;
            while i < items.len() && i < ACCESS_URL_CAP
                invariant
                    i <= items@.len(),
                    i <= ACCESS_URL_CAP,
                    out@.len() == i,
                    forall|k: int| 0 <= k < i ==> (#[trigger] out@[k])@ == access_of(items@[k]),
                decreases items@.len() - i,
            {
                let item = Some(&items[i]);
                out.push(
                    AccessUrl {
                        label: read_text(item, "label", "URL"),
                        url: read_text(item, "url", ""),
                        kind: read_text(item, "kind", ""),
                        primary: read_flag(item, "primary"),
                    },
                );
                i += 1;
            }
            assert(access_models(out@) =~= access_list(items@));
        },
        None => {
            assert(access_models(out@) =~= access_list(Seq::empty()));
        },
    }
    out
}

/// The setup steps.
fn read_steps(j: Option<&Json>) -> (r: Vec<Step>)
    ensures
        step_models(r@) == step_list(items_or_none(json::deref(j))),
{
    let mut out: Vec<Step> = Vec::new();
    match json::as_items(j) {
        Some(items) => {
            let mut i: usize = 0;
            while i < items.len()
                invariant
                    i <= items@.len(),
                    out@.len() == i,
                    forall|k: int| 0 <= k < i ==> (#[trigger] out@[k])@ == step_of(items@[k]),
                decreases items@.len() - i,
            {
                let item = Some(&items[i]);
                out.push(
                    Step {
                        label: read_text(item, "label", ""),
                        state: read_text(item, "state", ""),
                        detail: read_text(item, "detail", ""),
                    },
                );
                i += 1;
            }
            assert(step_models(out@) =~= step_list(items@));
        },
        None => {
            assert(step_models(out@) =~= step_list(Seq::empty()));
        },
    }
    out
}

/// Every step is complete.
fn complete(steps: &Vec<Step>) -> (r: bool)
    ensures
        r == all_complete(step_models(steps@)),
{
    let mut i: usize = 0;
    while i < steps.len()
        invariant
            i <= steps@.len(),
            forall|k: int| 0 <= k < i ==> (#[trigger] steps@[k]).state@ == "complete"@,
        decreases steps@.len() - i,
    {
        if !text::same(steps[i].state.as_str(), "complete") {
            assert(step_models(steps@)[i as int].state != "complete"@);
            return false;
        }
        i += 1;
    }
    true
}

/// How many of the service entries read `running`.
fn count_running(items: &Vec<Json>) -> (r: usize)
    ensures
        r == running_count(items@),
        r <= items@.len(),
{
    let n: usize = items.len();
    let mut count: usize = 0;
    let mut i: usize = 0;
    while i < n
        invariant
            n == items@.len(),
            i <= n,
            count <= i,
            count == running_count(items@.take(i as int)),
        decreases n - i,
    {
        let running = match json::as_str(json::get(Some(&items[i]), "state")) {
            Some(s) => text::same(s, "running"),
            None => false,
        };
        if running {
            count += 1;
        }
        i += 1;
        assert(items@.take(i as int).drop_last() == items@.take(i - 1));
    }
    assert(items@.take(n as int) == items@);
    count
}

/// The viewer page of a WHEP endpoint: its URL without trailing slashes and
/// without the suffix `/whep`, ended by one slash. There is none for a missing
/// or empty endpoint.
pub fn viewer_url_from_whep(whep_url: Option<&str>) -> (r: Option<String>)
    ensures
        text::opt_view(r) == viewer_of(
            match whep_url {
                Some(s) => Some(s@),
                None => None,
            },
        ),
{
    match whep_url {
        Some(whep) => {
            if whep.unicode_len() == 0 {
                return None;
            }
            let v = text::chars_of(whep);
            let mut n: usize = v.len();
            assert(whep@.take(n as int) == whep@);
            while n > 0 && v[n - 1] == '/'
                invariant
                    v@ == whep@,
                    n <= v@.len(),
                    without_trailing(whep@, '/') == without_trailing(whep@.take(n as int), '/'),
                decreases n,
            {
                n -= 1;
                assert(whep@.take(n + 1).drop_last() == whep@.take(n as int));
            }
            let base = text::slice_text(&v, 0, n);
            assert(base@ =~= whep@.take(n as int));
            match text::strip_suffix(base.as_str(), "/whep") {
                Some(stripped) => Some(text::cat(stripped.as_str(), "/")),
                None => Some(text::cat(base.as_str(), "/")),
            }
        },
        None => None,
    }
}

/// The name of a MAVLink GPS fix type.
pub fn fix_label(fix_type: i64) -> (r: String)
    ensures
        r@ == fix_name(fix_type as int),
{
    let name = if fix_type == 0 {
        "no GPS"
    } else if fix_type == 1 {
        "no fix"
    } else if fix_type == 2 {
        "2D"
    } else if fix_type == 3 {
        "3D"
    } else if fix_type == 4 {
        "DGPS"
    } else if fix_type == 5 {
        "RTK float"
    } else if fix_type == 6 {
        "RTK fixed"
    } else {
        "unknown"
    };
    name.to_owned()
}

/// The display form of a setup-step state.
pub open spec fn state_name(s: Seq<char>) -> Seq<char> {
    if s == "complete"@ {
        "ready"@
    } else if s == "needs_action"@ {
        "needs action"@
    } else {
        text::replaced(s, '_', " "@)
    }
}

/// The display form of a setup-step state.
pub fn state_label(value: &str) -> (r: String)
    ensures
        r@ == state_name(value@),
{
    if text::same(value, "complete") {
        "ready".to_owned()
    } else if text::same(value, "needs_action") {
        "needs action".to_owned()
    } else {
        text::replace_char(value, '_', " ")
    }
}

/// The line that sums the cloud relay up.
fn relay_text(paired: bool, backend: &str, mode: &str) -> (r: String)
    ensures
        r@ == relay_line(paired, backend@, mode@),
{
    let local = text::same(mode, "local");
    if paired && backend.unicode_len() > 0 {
        let mut out = text::cat("paired (", backend);
        out.append(")");
        out
    } else if backend.unicode_len() > 0 && !local {
        let mut out = text::cat("configured (", backend);
        out.append(")");
        out
    } else if local {
        "disabled (local mode)".to_owned()
    } else {
        "not configured".to_owned()
    }
}

impl Dashboard {
    /// The dashboard that a status reply stands for. Flight telemetry is read
    /// only while the flight controller is connected, so that the zeros of an
    /// empty snapshot never look like readings; the battery is unknown until
    /// it reports zero or more; the hotspot name shows only while it is on.
    pub fn from_status(data: &Json) -> (r: Self)
        ensures
            r@ == dashboard_of(*data),
    {
        let d = Some(data);
        let mavlink = json::get(d, "mavlink");
        let video = json::get(d, "video");
        let network = json::get(d, "network");
        let remote = json::get(d, "remote_access");
        let cloud = json::get(d, "cloud_choice");
        let connected = read_flag(mavlink, "connected");
        let tel = if connected {
            json::get(d, "telemetry")
        } else {
            None
        };
        let gps = json::get(tel, "gps");
        let backend = read_text(cloud, "backend_url", "");
        let cloud_mode = read_text(cloud, "mode", "");
        let cloud_paired = read_flag(cloud, "paired");
        let steps = read_steps(json::get(d, "steps"));
        let has_steps = steps.len() > 0;
        let all_done = complete(&steps);
        let services = json::as_items(json::get(d, "services"));
        let (running, total): (usize, usize) = match services {
            Some(items) => (count_running(items), items.len()),
            None => (0, 0),
        };
        let hotspot = if read_flag(network, "hotspot_enabled") {
            read_text(network, "hotspot_ssid", "")
        } else {
            "".to_owned()
        };
        let battery = match json::as_number(json::get(json::get(tel, "battery"), "remaining")) {
            Some(n) => if is_not_negative(n) {
                Some(n)
            } else {
                None
            },
            None => None,
        };
        let gps_fix = match json::as_i64(json::get(gps, "fix_type")) {
            Some(t) => Some(fix_label(t)),
            None => None,
        };
        let pairing_code = match json::as_str(json::get(d, "pairing_code")) {
            Some(c) => Some(c.to_owned()),
            None => None,
        };
        let cloud_relay = relay_text(cloud_paired, backend.as_str(), cloud_mode.as_str());
        let cloud_configured = backend.as_str().unicode_len() > 0 && !text::same(
            cloud_mode.as_str(),
            "local",
        );
        let access_urls = read_access_urls(json::get(d, "access_urls"));
        let video_viewer = viewer_url_from_whep(json::as_str(json::get(video, "whep_url")));
        Dashboard {
            version: read_text(d, "version", "?"),
            device_name: read_text(d, "device_name", "?"),
            profile: read_text(d, "profile", "?"),
            paired: read_flag(d, "paired"),
            pairing_code,
            access_urls,
            steps,
            has_steps,
            steps_all_complete: has_steps && all_done,
            mavlink_connected: connected,
            mavlink_tcp_url: read_full_text(mavlink, "tcp_url"),
            mavlink_ws_url: read_full_text(mavlink, "websocket_url"),
            mavlink_public_ws_url: read_full_text(mavlink, "public_websocket_url"),
            fc_port: read_full_text(mavlink, "port"),
            fc_baud: read_positive(mavlink, "baud"),
            transport_open: None,
            mavlink_alive: None,
            fc_link_hint: None,
            fc_variant: None,
            video_state: read_text(video, "state", "unknown"),
            video_viewer,
            cloud_relay,
            cloud_mode,
            cloud_paired,
            cloud_configured,
            remote_status: read_text(remote, "status", "disabled"),
            hotspot,
            mode: read_full_text(tel, "mode"),
            armed: json::as_bool(json::get(tel, "armed")),
            battery,
            gps_fix,
            satellites: json::as_i64(json::get(gps, "satellites")),
            alt: json::as_number(json::get(json::get(tel, "position"), "alt_rel")),
            services_running: running,
            services_total: total,
            next_action: read_text(d, "next_action", ""),
        }
    }
}


// ---------------------------------------------------------------------------
// the native status route
// ---------------------------------------------------------------------------

/// The dashboard of which nothing is known.
pub open spec fn blank_dashboard() -> DashboardModel {
    DashboardModel {
        version: Seq::empty(),
        device_name: Seq::empty(),
        profile: Seq::empty(),
        paired: false,
        pairing_code: None,
        access_urls: Seq::empty(),
        steps: Seq::empty(),
        has_steps: false,
        steps_all_complete: false,
        mavlink_connected: false,
        mavlink_tcp_url: None,
        mavlink_ws_url: None,
        mavlink_public_ws_url: None,
        fc_port: None,
        fc_baud: None,
        transport_open: None,
        mavlink_alive: None,
        fc_link_hint: None,
        fc_variant: None,
        video_state: Seq::empty(),
        video_viewer: None,
        cloud_relay: Seq::empty(),
        cloud_mode: Seq::empty(),
        cloud_paired: false,
        cloud_configured: false,
        remote_status: Seq::empty(),
        hotspot: Seq::empty(),
        mode: None,
        armed: None,
        battery: None,
        gps_fix: None,
        satellites: None,
        alt: None,
        services_running: 0,
        services_total: 0,
        next_action: Seq::empty(),
    }
}

/// `m` with the link detail of the native status route filled in. The port and
/// the baud rate that are known already stay.
pub open spec fn with_fc_status(m: DashboardModel, status: Json) -> DashboardModel {
    let s = Some(status);
    let hint = full_text(s, "fcLinkHint"@);
    DashboardModel {
        transport_open: json::bool_value(json::field(status, "transportOpen"@)),
        mavlink_alive: json::bool_value(json::field(status, "mavlinkAlive"@)),
        fc_link_hint: if hint == Some("none"@) {
            None
        } else {
            hint
        },
        fc_variant: full_text(s, "fcVariant"@),
        fc_port: if m.fc_port is None {
            full_text(s, "fc_port"@)
        } else {
            m.fc_port
        },
        fc_baud: if m.fc_baud is None {
            positive_of(s, "fc_baud"@)
        } else {
            m.fc_baud
        },
        ..m
    }
}

impl Default for Dashboard {
    /// The dashboard of which nothing is known.
    fn default() -> (r: Self)
        ensures
            r@ == blank_dashboard(),
    {
        let r = Dashboard {
            version: String::new(),
            device_name: String::new(),
            profile: String::new(),
            paired: false,
            pairing_code: None,
            access_urls: Vec::new(),
            steps: Vec::new(),
            has_steps: false,
            steps_all_complete: false,
            mavlink_connected: false,
            mavlink_tcp_url: None,
            mavlink_ws_url: None,
            mavlink_public_ws_url: None,
            fc_port: None,
            fc_baud: None,
            transport_open: None,
            mavlink_alive: None,
            fc_link_hint: None,
            fc_variant: None,
            video_state: String::new(),
            video_viewer: None,
            cloud_relay: String::new(),
            cloud_mode: String::new(),
            cloud_paired: false,
            cloud_configured: false,
            remote_status: String::new(),
            hotspot: String::new(),
            mode: None,
            armed: None,
            battery: None,
            gps_fix: None,
            satellites: None,
            alt: None,
            services_running: 0,
            services_total: 0,
            next_action: String::new(),
        };
        assert(r@ =~= blank_dashboard());
        r
    }
}

// ---------------------------------------------------------------------------
// summaries
// ---------------------------------------------------------------------------

/// The state of the link to the flight controller: the gated "connected"
/// truth, refined by the transport and heartbeat detail where it is known.
pub open spec fn link_state(m: DashboardModel) -> FcLink {
    if m.mavlink_connected {
        FcLink::Connected
    } else if m.transport_open == Some(true) && m.mavlink_alive == Some(false) {
        if m.fc_variant is Some {
            FcLink::Msp
        } else {
            FcLink::PortOpen
        }
    } else {
        FcLink::Down
    }
}

/// The serial port and baud rate of the flight controller.
pub open spec fn endpoint_text(m: DashboardModel) -> Option<Seq<char>> {
    match m.fc_port {
        Some(port) => Some(
            match m.fc_baud {
                Some(baud) => port + " · "@ + text::signed_decimal(baud as int),
                None => port,
            },
        ),
        None => None,
    }
}

/// The node has been set up: it is paired, or it has setup steps and all of
/// them are complete.
pub open spec fn is_configured(m: DashboardModel) -> bool {
    m.paired || (m.has_steps && m.steps_all_complete)
}

/// The node has the flight controller that its profile needs.
pub open spec fn has_needed_fc(m: DashboardModel) -> bool {
    m.mavlink_connected || m.profile == "ground_station"@
}

/// The verdict.
pub open spec fn verdict(m: DashboardModel) -> Health {
    if m.services_running < m.services_total {
        Health::Degraded
    } else if is_configured(m) && !has_needed_fc(m) {
        Health::Degraded
    } else if m.services_total > 0 && m.services_running == m.services_total && is_configured(m)
        && has_needed_fc(m) {
        Health::Healthy
    } else {
        Health::Setup
    }
}

/// A remote-access status that stands for no remote access.
pub open spec fn remote_is_off(s: Seq<char>) -> bool {
    s == ""@ || s == "disabled"@ || s == "off"@ || s == "stopped"@ || s == "unknown"@
}

/// The way the node is linked.
pub open spec fn link_mode_text(m: DashboardModel) -> Seq<char> {
    if !remote_is_off(m.remote_status) {
        "cloudflare"@
    } else if m.cloud_paired || m.cloud_configured {
        "cloud relay"@
    } else {
        "local mode"@
    }
}

/// The line under the verdict.
pub open spec fn summary_text(m: DashboardModel) -> Seq<char> {
    (if m.paired {
        "paired"@
    } else {
        match m.pairing_code {
            Some(code) => "code "@ + code,
            None => "not paired"@,
        }
    }) + " · "@ + link_mode_text(m)
}

/// A remote-access status that stands for no remote access.
pub fn is_remote_off(s: &str) -> (r: bool)
    ensures
        r == remote_is_off(s@),
{
    text::same(s, "") || text::same(s, "disabled") || text::same(s, "off") || text::same(
        s,
        "stopped",
    ) || text::same(s, "unknown")
}

impl Dashboard {
    /// Fill in the link detail of the native status route. Port and baud rate
    /// are taken from it only where the setup status lacked them.
    pub fn merge_fc_status(&mut self, status: &Json)
        ensures
            final(self)@ == with_fc_status(old(self)@, *status),
    {
        let s = Some(status);
        let port = match self.fc_port {
            Some(_) => text::copy_opt(&self.fc_port),
            None => read_full_text(s, "fc_port"),
        };
        let baud = match self.fc_baud {
            Some(b) => Some(b),
            None => read_positive(s, "fc_baud"),
        };
        let hint = match read_full_text(s, "fcLinkHint") {
            Some(h) => if text::same(h.as_str(), "none") {
                None
            } else {
                Some(h)
            },
            None => None,
        };
        self.transport_open = json::as_bool(json::get(s, "transportOpen"));
        self.mavlink_alive = json::as_bool(json::get(s, "mavlinkAlive"));
        self.fc_link_hint = hint;
        self.fc_variant = read_full_text(s, "fcVariant");
        self.fc_port = port;
        self.fc_baud = baud;
        assert(self@ =~= with_fc_status(old(self)@, *status));
    }

    /// The state of the link to the flight controller.
    pub fn fc_link(&self) -> (r: FcLink)
        ensures
            r == link_state(self@),
    {
        let open = match self.transport_open {
            Some(b) => b,
            None => false,
        };
        let silent = match self.mavlink_alive {
            Some(b) => !b,
            None => false,
        };
        if self.mavlink_connected {
            FcLink::Connected
        } else if open && silent {
            match self.fc_variant {
                Some(_) => FcLink::Msp,
                None => FcLink::PortOpen,
            }
        } else {
            FcLink::Down
        }
    }

    /// The router's hint about the link in words, when it gives one.
    pub fn fc_hint(&self) -> (r: Option<String>)
        ensures
            text::opt_view(r) == (match self@.fc_link_hint {
                Some(h) => Some(text::replaced(h, '_', " "@)),
                None => None,
            }),
    {
        match &self.fc_link_hint {
            Some(h) => Some(text::replace_char(h.as_str(), '_', " ")),
            None => None,
        }
    }

    /// The firmware that the flight controller named.
    pub fn fc_variant_label(&self) -> (r: Option<String>)
        ensures
            text::opt_view(r) == self@.fc_variant,
    {
        text::copy_opt(&self.fc_variant)
    }

    /// The serial port and baud rate of the flight controller, such as
    /// `ttyS0 · 921600`, when a port is known.
    pub fn fc_endpoint(&self) -> (r: Option<String>)
        ensures
            text::opt_view(r) == endpoint_text(self@),
    {
        match &self.fc_port {
            Some(port) => match self.fc_baud {
                Some(baud) => {
                    let mut out = text::cat(port.as_str(), " · ");
                    let digits = text::signed_decimal_of(baud);
                    out.append(digits.as_str());
                    Some(out)
                },
                None => Some(port.clone()),
            },
            None => None,
        }
    }

    /// The verdict, from verified inputs only: degraded while a service is
    /// down or a set-up drone has lost its flight controller, healthy when
    /// everything runs on a set-up node, setup otherwise.
    pub fn health(&self) -> (r: Health)
        ensures
            r == verdict(self@),
    {
        let all_running = self.services_total > 0 && self.services_running == self.services_total;
        let failed = self.services_total > 0 && self.services_running < self.services_total;
        let mavlink_ok = self.mavlink_connected || text::same(
            self.profile.as_str(),
            "ground_station",
        );
        let configured = self.paired || (self.has_steps && self.steps_all_complete);
        if failed {
            Health::Degraded
        } else if configured && !mavlink_ok {
            Health::Degraded
        } else if all_running && configured && mavlink_ok {
            Health::Healthy
        } else {
            Health::Setup
        }
    }

    /// The way the node is linked.
    fn link_mode(&self) -> (r: &'static str)
        ensures
            r@ == link_mode_text(self@),
    {
        if !is_remote_off(self.remote_status.as_str()) {
            "cloudflare"
        } else if self.cloud_paired || self.cloud_configured {
            "cloud relay"
        } else {
            "local mode"
        }
    }

    /// The line under the verdict, such as `paired · local mode`.
    pub fn status_summary(&self) -> (r: String)
        ensures
            r@ == summary_text(self@),
    {
        let mut out = if self.paired {
            "paired".to_owned()
        } else {
            match &self.pairing_code {
                Some(code) => text::cat("code ", code.as_str()),
                None => "not paired".to_owned(),
            }
        };
        out.append(" · ");
        out.append(self.link_mode());
        out
    }

    /// The device and its profile, such as `ados-e996786c · ground_station`.
    pub fn ident(&self) -> (r: String)
        ensures
            r@ == self@.device_name + " · "@ + self@.profile,
    {
        let mut out = text::cat(self.device_name.as_str(), " · ");
        out.append(self.profile.as_str());
        out
    }
}

// ---------------------------------------------------------------------------
// trends
// ---------------------------------------------------------------------------

/// The recent values of the readings that are drawn as trends. A value is
/// recorded only when the reply held it.
#[derive(Debug, Clone, PartialEq, Eq)]
pub struct History {
    pub battery: Vec<Number>,
    pub alt: Vec<Number>,
}

/// `s` with `v` at its end, and no more than the latest values kept.
pub open spec fn sampled(s: Seq<Number>, v: Option<Number>) -> Seq<Number> {
    match v {
        Some(x) => {
            let t = s.push(x);
            if t.len() > HISTORY_CAP {
                t.skip(t.len() - HISTORY_CAP)
            } else {
                t
            }
        },
        None => s,
    }
}

fn push_cap(buffer: &mut Vec<Number>, value: Number)
    ensures
        final(buffer)@ == sampled(old(buffer)@, Some(value)),
{
    buffer.push(value);
    let n: usize = buffer.len();
    if n > HISTORY_CAP {
        let latest = buffer.split_off(n - HISTORY_CAP);
        *buffer = latest;
        assert(buffer@ =~= sampled(old(buffer)@, Some(value)));
    }
}

impl Default for History {
    /// No samples.
    fn default() -> (r: Self)
        ensures
            r.battery@.len() == 0,
            r.alt@.len() == 0,
    {
        History { battery: Vec::new(), alt: Vec::new() }
    }
}

impl History {
    /// Record the readings that one poll brought.
    pub fn record(&mut self, dash: &Dashboard)
        ensures
            final(self).battery@ == sampled(old(self).battery@, dash.battery),
            final(self).alt@ == sampled(old(self).alt@, dash.alt),
    {
        if let Some(battery) = dash.battery {
            push_cap(&mut self.battery, battery);
        }
        if let Some(alt) = dash.alt {
            push_cap(&mut self.alt, alt);
        }
    }
}

// ---------------------------------------------------------------------------
// laws
// ---------------------------------------------------------------------------

/// While the flight controller is not connected no flight telemetry shows,
/// whatever the reply's telemetry object holds.
pub proof fn law_no_link_no_telemetry(data: Json)
    requires
        !dashboard_of(data).mavlink_connected,
    ensures
        dashboard_of(data).mode is None,
        dashboard_of(data).armed is None,
        dashboard_of(data).battery is None,
        dashboard_of(data).gps_fix is None,
        dashboard_of(data).satellites is None,
        dashboard_of(data).alt is None,
{
}

/// A battery reading below zero never shows.
pub proof fn law_battery_is_never_negative(data: Json)
    ensures
        dashboard_of(data).battery is Some ==> not_negative(dashboard_of(data).battery->0),
{
}

/// No more services count as running than there are.
proof fn lemma_running_count_is_bounded(items: Seq<Json>)
    ensures
        running_count(items) <= items.len(),
    decreases items.len(),
{
    if items.len() > 0 {
        lemma_running_count_is_bounded(items.drop_last());
    }
}

/// A status reply never has more services running than it has services.
pub proof fn law_running_is_within_total(data: Json)
    ensures
        dashboard_of(data).services_running <= dashboard_of(data).services_total,
{
    let services = items_or_none(json::field(data, "services"@));
    lemma_running_count_is_bounded(services);
    match json::field(data, "services"@) {
        Some(Json::Arr(v)) => {
            assert(v@.len() == v.len());
        },
        _ => {},
    }
}

/// A node is called healthy exactly when it is set up, has the flight
/// controller that its profile needs, reports services and runs all of them.
pub proof fn law_healthy_means_everything_is_up(m: DashboardModel)
    ensures
        verdict(m) == Health::Healthy <==> is_configured(m) && has_needed_fc(m) && m.services_total
            > 0 && m.services_running == m.services_total,
        m.services_running < m.services_total ==> verdict(m) == Health::Degraded,
{
}

/// Merging one status reply twice is merging it once, and merging never moves
/// a port, a baud rate or the verdict that are known already.
pub proof fn law_merge_adds_detail_only(m: DashboardModel, status: Json)
    ensures
        with_fc_status(with_fc_status(m, status), status) == with_fc_status(m, status),
        m.fc_port is Some ==> with_fc_status(m, status).fc_port == m.fc_port,
        m.fc_baud is Some ==> with_fc_status(m, status).fc_baud == m.fc_baud,
        verdict(with_fc_status(m, status)) == verdict(m),
        m.mavlink_connected ==> link_state(with_fc_status(m, status)) == FcLink::Connected,
{
}

/// A trend that starts within the cap stays within it, keeps the newest value
/// last, and is otherwise the end of what it was.
pub proof fn law_trend_keeps_the_latest(s: Seq<Number>, v: Number)
    requires
        s.len() <= HISTORY_CAP,
    ensures
        sampled(s, Some(v)).len() == (if s.len() < HISTORY_CAP {
            s.len() + 1
        } else {
            HISTORY_CAP as nat
        }),
        sampled(s, Some(v)).last() == v,
        sampled(s, Some(v)).drop_last() == s.skip(
            s.len() - (sampled(s, Some(v)).len() - 1),
        ),
{
    assert(sampled(s, Some(v)).drop_last() =~= s.skip(s.len() - (sampled(s, Some(v)).len() - 1)));
}

/// Every text of a reply shows as it was sent, and a text that is missing as
/// its placeholder.
pub proof fn law_texts_show_as_sent(data: Json)
    ensures
        ({
            let m = dashboard_of(data);
            let own = |key: Seq<char>| json::text_value(json::field(data, key));
            let inner = |block: Seq<char>, key: Seq<char>|
                json::text_value(json::field_of(json::field(data, block), key));
            &&& m.version == (match own("version"@) {
                Some(s) => s,
                None => "?"@,
            })
            &&& m.device_name == (match own("device_name"@) {
                Some(s) => s,
                None => "?"@,
            })
            &&& m.profile == (match own("profile"@) {
                Some(s) => s,
                None => "?"@,
            })
            &&& m.next_action == (match own("next_action"@) {
                Some(s) => s,
                None => ""@,
            })
            &&& m.pairing_code == own("pairing_code"@)
            &&& m.video_state == (match inner("video"@, "state"@) {
                Some(s) => s,
                None => "unknown"@,
            })
            &&& m.remote_status == (match inner("remote_access"@, "status"@) {
                Some(s) => s,
                None => "disabled"@,
            })
            &&& m.cloud_mode == (match inner("cloud_choice"@, "mode"@) {
                Some(s) => s,
                None => ""@,
            })
        }),
{
}

/// A flag is set exactly where the reply has it and it is true.
pub proof fn law_flags_show_as_sent(data: Json)
    ensures
        dashboard_of(data).paired <==> json::field(data, "paired"@) == Some(Json::Bool(true)),
        dashboard_of(data).mavlink_connected <==> json::field_of(
            json::field(data, "mavlink"@),
            "connected"@,
        ) == Some(Json::Bool(true)),
        dashboard_of(data).cloud_paired <==> json::field_of(
            json::field(data, "cloud_choice"@),
            "paired"@,
        ) == Some(Json::Bool(true)),
{
}

/// The flight telemetry of a connected flight controller shows as it was sent.
pub proof fn law_telemetry_shows_as_sent(data: Json)
    requires
        dashboard_of(data).mavlink_connected,
    ensures
        ({
            let m = dashboard_of(data);
            let tel = json::field(data, "telemetry"@);
            let armed = json::field_of(tel, "armed"@);
            let mode = json::field_of(tel, "mode"@);
            let charge = json::field_of(json::field_of(tel, "battery"@), "remaining"@);
            let sats = json::field_of(json::field_of(tel, "gps"@), "satellites"@);
            let alt = json::field_of(json::field_of(tel, "position"@), "alt_rel"@);
            &&& (m.armed == Some(true) <==> armed == Some(Json::Bool(true)))
            &&& (m.armed == Some(false) <==> armed == Some(Json::Bool(false)))
            &&& mode matches Some(Json::Str(s)) ==> (if s@.len() > 0 {
                m.mode == Some(s@)
            } else {
                m.mode is None
            })
            &&& m.mode is Some ==> mode == Some(Json::Str(mode->0->Str_0))
            &&& charge matches Some(Json::Num(Number::Unsigned(n))) ==> m.battery == Some(
                Number::Unsigned(n),
            )
            &&& charge matches Some(Json::Num(Number::Negative(n))) ==> (m.battery is Some <==> n
                >= 0)
            &&& m.battery is Some ==> charge == Some(Json::Num(m.battery->0))
            &&& m.satellites == json::signed_value(sats)
            &&& m.alt == json::number_value(alt)
        }),
{
}

/// The fix of the GPS reads as its type names it.
pub proof fn law_fixes_have_names(t: int)
    ensures
        fix_name(0) == "no GPS"@,
        fix_name(1) == "no fix"@,
        fix_name(2) == "2D"@,
        fix_name(3) == "3D"@,
        fix_name(4) == "DGPS"@,
        fix_name(5) == "RTK float"@,
        fix_name(6) == "RTK fixed"@,
        t < 0 || t > 6 ==> fix_name(t) == "unknown"@,
{
}

/// The running services are those that read `running`, counted one by one.
pub proof fn law_running_services_are_counted(items: Seq<Json>, j: Json)
    ensures
        running_count(Seq::empty()) == 0,
        running_count(items.push(j)) == running_count(items) + (if json::text_value(
            json::field(j, "state"@),
        ) == Some("running"@) {
            1nat
        } else {
            0nat
        }),
        running_count(items) <= items.len(),
    decreases items.len(),
{
    assert(items.push(j).drop_last() =~= items);
    if items.len() > 0 {
        law_running_services_are_counted(items.drop_last(), items.last());
        assert(items.drop_last().push(items.last()) =~= items);
    }
}

/// The viewer of a WHEP endpoint is the page that it belongs to: the endpoint
/// without its last part, with one slash at the end, however many slashes the
/// endpoint ends in.
pub proof fn law_the_viewer_is_the_page(page: Seq<char>, n: nat)
    requires
        page.len() > 0,
    ensures
        viewer_of(Some(page + "/whep"@ + Seq::new(n, |i: int| '/'))) == Some(page + "/"@),
        page.last() != '/' && !"/whep"@.is_suffix_of(page) ==> viewer_of(
            Some(page + Seq::new(n, |i: int| '/')),
        ) == Some(page + "/"@),
        viewer_of(Some(Seq::empty())) is None,
        viewer_of(None) is None,
{
    reveal_strlit("/whep");
    let whep = page + "/whep"@;
    assert(whep.last() == 'p');
    lemma_slashes_go(whep, n);
    lemma_slashes_go(page, n);
    assert("/whep"@ =~= whep.subrange(whep.len() - 5, whep.len() as int));
    assert(whep.take(whep.len() - 5) =~= page);
}

proof fn lemma_slashes_go(s: Seq<char>, n: nat)
    requires
        s.len() > 0,
    ensures
        s.last() != '/' ==> without_trailing(s + Seq::new(n, |i: int| '/'), '/') == s,
    decreases n,
{
    let all = s + Seq::new(n, |i: int| '/');
    if n == 0 {
        assert(all =~= s);
    } else {
        lemma_slashes_go(s, (n - 1) as nat);
        assert(all.drop_last() =~= s + Seq::new((n - 1) as nat, |i: int| '/'));
        assert(all.last() == '/');
    }
}

/// The relay is paired where the node is paired with a server, configured where
/// a server is set and the node is not in local mode, disabled in local mode,
/// and not configured otherwise.
pub proof fn law_the_relay_in_words(paired: bool, backend: Seq<char>, mode: Seq<char>)
    ensures
        paired && backend.len() > 0 ==> relay_line(paired, backend, mode) == "paired ("@ + backend
            + ")"@,
        !paired && backend.len() > 0 && mode != "local"@ ==> relay_line(paired, backend, mode)
            == "configured ("@ + backend + ")"@,
        !(paired && backend.len() > 0) && mode == "local"@ ==> relay_line(paired, backend, mode)
            == "disabled (local mode)"@,
        backend.len() == 0 && mode != "local"@ ==> relay_line(paired, backend, mode)
            == "not configured"@,
{
}

/// The state of the link is one of four, each in its own case: what the node
/// says of the connection counts before what is known of the port.
pub proof fn law_the_link_has_four_states(m: DashboardModel)
    ensures
        link_state(m) == FcLink::Connected <==> m.mavlink_connected,
        link_state(m) == FcLink::Msp <==> !m.mavlink_connected && m.transport_open == Some(true)
            && m.mavlink_alive == Some(false) && m.fc_variant is Some,
        link_state(m) == FcLink::PortOpen <==> !m.mavlink_connected && m.transport_open == Some(
            true,
        ) && m.mavlink_alive == Some(false) && m.fc_variant is None,
        link_state(m) == FcLink::Down <==> !m.mavlink_connected && (m.transport_open != Some(true)
            || m.mavlink_alive != Some(false)),
{
}

/// A node is degraded exactly where a service does not run or a node that is
/// set up lacks the flight controller it needs. A ground station needs none.
pub proof fn law_when_a_node_is_degraded(m: DashboardModel)
    ensures
        verdict(m) == Health::Degraded <==> m.services_running < m.services_total || ((m.paired
            || (m.has_steps && m.steps_all_complete)) && !m.mavlink_connected && m.profile
            != "ground_station"@),
        m.profile == "ground_station"@ && m.services_running >= m.services_total ==> verdict(m)
            != Health::Degraded,
        !m.paired && !m.has_steps && m.services_running >= m.services_total ==> verdict(m)
            == Health::Setup,
{
}

/// The node is linked through the tunnel where remote access is on, through the
/// relay where that is paired or configured, and locally otherwise.
pub proof fn law_how_the_node_is_linked(m: DashboardModel)
    ensures
        link_mode_text(m) == "cloudflare"@ <==> !(m.remote_status.len() == 0 || m.remote_status
            == "disabled"@ || m.remote_status == "off"@ || m.remote_status == "stopped"@
            || m.remote_status == "unknown"@),
        remote_is_off(m.remote_status) && (m.cloud_paired || m.cloud_configured) ==> link_mode_text(
            m,
        ) == "cloud relay"@,
        remote_is_off(m.remote_status) && !m.cloud_paired && !m.cloud_configured ==> link_mode_text(
            m,
        ) == "local mode"@,
        m.paired ==> summary_text(m) == "paired"@ + " · "@ + link_mode_text(m),
        !m.paired && m.pairing_code is Some ==> summary_text(m) == "code "@ + m.pairing_code->0
            + " · "@ + link_mode_text(m),
        !m.paired && m.pairing_code is None ==> summary_text(m) == "not paired"@ + " · "@
            + link_mode_text(m),
{
    reveal_strlit("");
    reveal_strlit("cloudflare");
    reveal_strlit("cloud relay");
    reveal_strlit("local mode");
    assert("cloudflare"@.len() == 10 && "cloud relay"@.len() == 11);
    assert("cloudflare"@[0] == 'c' && "local mode"@[0] == 'l');
    if m.remote_status.len() == 0 {
        assert(m.remote_status =~= ""@);
    }
}

/// A complete step is ready, one that needs action says so, and any other state
/// reads as it is spelled, with spaces for underscores.
pub proof fn law_states_in_words(s: Seq<char>)
    ensures
        state_name("complete"@) == "ready"@,
        state_name("needs_action"@) == "needs action"@,
        s != "complete"@ && !s.contains('_') ==> state_name(s) == s,
        s != "complete"@ ==> !state_name(s).contains('_'),
{
    reveal_strlit("complete");
    reveal_strlit("needs_action");
    reveal_strlit("needs action");
    assert("complete"@[0] == 'c' && "needs_action"@[0] == 'n' && "needs_action"@[5] == '_');
    assert("needs_action"@.contains('_'));
    if s != "complete"@ && s != "needs_action"@ {
        lemma_no_underscore(s);
    } else if s == "needs_action"@ {
        assert forall|i: int| 0 <= i < "needs action"@.len() implies "needs action"@[i] != '_' by {}
    }
}

proof fn lemma_no_underscore(s: Seq<char>)
    ensures
        !text::replaced(s, '_', " "@).contains('_'),
        !s.contains('_') ==> text::replaced(s, '_', " "@) == s,
    decreases s.len(),
{
    reveal_strlit(" ");
    if s.len() > 0 {
        let before = s.drop_last();
        lemma_no_underscore(before);
        assert forall|i: int|
            0 <= i < text::replaced(s, '_', " "@).len() implies #[trigger] text::replaced(
            s,
            '_',
            " "@,
        )[i] != '_' by {
            let r = text::replaced(before, '_', " "@);
            if i < r.len() {
                assert(r[i] == text::replaced(s, '_', " "@)[i]);
                assert(r.contains(r[i]));
            }
        }
        if !s.contains('_') {
            assert(s.contains(s.last()));
            assert forall|i: int| 0 <= i < before.len() implies before[i] != '_' by {
                assert(s.contains(s[i]));
            }
            assert(text::replaced(s, '_', " "@) =~= s);
        }
    }
}

/// Of the addresses of a reply the first ten show, each as it was sent.
pub proof fn law_addresses_show_as_sent(items: Seq<Json>, i: int)
    ensures
        access_list(items).len() == (if items.len() < 10 {
            items.len()
        } else {
            10
        }),
        0 <= i < access_list(items).len() ==> {
            let a = access_list(items)[i];
            let text = |key: Seq<char>| json::text_value(json::field(items[i], key));
            &&& a.url == (match text("url"@) {
                Some(s) => s,
                None => ""@,
            })
            &&& a.kind == (match text("kind"@) {
                Some(s) => s,
                None => ""@,
            })
            &&& a.label == (match text("label"@) {
                Some(s) => s,
                None => "URL"@,
            })
            &&& (a.primary <==> json::field(items[i], "primary"@) == Some(Json::Bool(true)))
        },
{
}

/// The steps of a reply show as they were sent, and the setup is finished
/// exactly where there are steps and each of them is complete.
pub proof fn law_steps_show_as_sent(data: Json, v: Vec<Json>, i: int)
    requires
        json::field(data, "steps"@) == Some(Json::Arr(v)),
    ensures
        dashboard_of(data).steps.len() == v@.len(),
        dashboard_of(data).has_steps <==> v@.len() > 0,
        dashboard_of(data).steps_all_complete <==> v@.len() > 0 && forall|k: int|
            0 <= k < v@.len() ==> (#[trigger] dashboard_of(data).steps[k]).state == "complete"@,
        0 <= i < v@.len() ==> {
            let s = dashboard_of(data).steps[i];
            let text = |key: Seq<char>|
                match json::text_value(json::field(v@[i], key)) {
                    Some(t) => t,
                    None => ""@,
                };
            s.label == text("label"@) && s.state == text("state"@) && s.detail == text("detail"@)
        },
{
}

/// The hotspot has a name only while it is on.
pub proof fn law_the_hotspot_shows_while_it_is_on(data: Json)
    ensures
        ({
            let network = json::field(data, "network"@);
            let on = json::field_of(network, "hotspot_enabled"@) == Some(Json::Bool(true));
            let name = json::text_value(json::field_of(network, "hotspot_ssid"@));
            &&& !on ==> dashboard_of(data).hotspot == ""@
            &&& on && name is Some ==> dashboard_of(data).hotspot == name->0
            &&& on && name is None ==> dashboard_of(data).hotspot == ""@
        }),
{
}

/// The endpoints of the flight controller show where they are given and not
/// empty; its baud rate, where it is positive.
pub proof fn law_endpoints_show_where_given(j: Json, key: Seq<char>)
    ensures
        json::field(j, key) matches Some(Json::Str(s)) ==> (s@.len() > 0 ==> full_text(
            Some(j),
            key,
        ) == Some(s@)) && (s@.len() == 0 ==> full_text(Some(j), key) is None),
        json::text_value(json::field(j, key)) is None ==> full_text(Some(j), key) is None,
        full_text(None, key) is None,
        positive_of(Some(j), key) matches Some(n) ==> n > 0 && json::signed_value(
            json::field(j, key),
        ) == Some(n),
        json::signed_value(json::field(j, key)) matches Some(n) ==> (n > 0 ==> positive_of(
            Some(j),
            key,
        ) == Some(n)),
        ({
            let mav = json::field(j, "mavlink"@);
            let m = dashboard_of(j);
            &&& m.mavlink_tcp_url == full_text(mav, "tcp_url"@)
            &&& m.mavlink_ws_url == full_text(mav, "websocket_url"@)
            &&& m.mavlink_public_ws_url == full_text(mav, "public_websocket_url"@)
            &&& m.fc_port == full_text(mav, "port"@)
            &&& m.fc_baud == positive_of(mav, "baud"@)
            &&& m.transport_open is None && m.mavlink_alive is None && m.fc_link_hint is None
                && m.fc_variant is None
        }),
{
}

/// The native status fills in what it says of the link: the transport, the
/// heartbeat, the variant and the hint, where `none` is no hint.
pub proof fn law_the_native_status_fills_in(m: DashboardModel, status: Json)
    ensures
        ({
            let r = with_fc_status(m, status);
            let hint = full_text(Some(status), "fcLinkHint"@);
            &&& r.transport_open == json::bool_value(json::field(status, "transportOpen"@))
            &&& r.mavlink_alive == json::bool_value(json::field(status, "mavlinkAlive"@))
            &&& r.fc_variant == full_text(Some(status), "fcVariant"@)
            &&& hint == Some("none"@) ==> r.fc_link_hint is None
            &&& hint != Some("none"@) ==> r.fc_link_hint == hint
            &&& m.fc_port is None ==> r.fc_port == full_text(Some(status), "fc_port"@)
            &&& m.fc_baud is None ==> r.fc_baud == positive_of(Some(status), "fc_baud"@)
            &&& r.armed == m.armed && r.battery == m.battery && r.mode == m.mode
            &&& r.mavlink_connected == m.mavlink_connected && r.services_running
                == m.services_running && r.access_urls == m.access_urls
        }),
{
}

/// The model of a dashboard is what its fields hold.
pub proof fn law_the_model_is_what_is_held(d: Dashboard)
    ensures
        d@.version == d.version@ && d@.device_name == d.device_name@ && d@.profile == d.profile@,
        d@.paired == d.paired && d@.has_steps == d.has_steps && d@.steps_all_complete
            == d.steps_all_complete,
        d@.mavlink_connected == d.mavlink_connected && d@.transport_open == d.transport_open
            && d@.mavlink_alive == d.mavlink_alive,
        d@.armed == d.armed && d@.battery == d.battery && d@.satellites == d.satellites && d@.alt
            == d.alt,
        d@.video_state == d.video_state@ && d@.cloud_relay == d.cloud_relay@ && d@.cloud_mode
            == d.cloud_mode@ && d@.remote_status == d.remote_status@ && d@.hotspot == d.hotspot@
            && d@.next_action == d.next_action@,
        d@.cloud_paired == d.cloud_paired && d@.cloud_configured == d.cloud_configured,
        d@.fc_baud == d.fc_baud,
        d@.services_running == d.services_running && d@.services_total == d.services_total,
        d@.access_urls.len() == d.access_urls@.len() && d@.steps.len() == d.steps@.len(),
        d.mode matches Some(t) ==> d@.mode == Some(t@),
        d.mode is None ==> d@.mode is None,
        d.gps_fix matches Some(t) ==> d@.gps_fix == Some(t@),
        d.gps_fix is None ==> d@.gps_fix is None,
        d.pairing_code matches Some(t) ==> d@.pairing_code == Some(t@),
        d.pairing_code is None ==> d@.pairing_code is None,
        d.fc_port matches Some(t) ==> d@.fc_port == Some(t@),
        d.fc_port is None ==> d@.fc_port is None,
        d.fc_variant matches Some(t) ==> d@.fc_variant == Some(t@),
        d.fc_variant is None ==> d@.fc_variant is None,
        d.fc_link_hint matches Some(t) ==> d@.fc_link_hint == Some(t@),
        d.fc_link_hint is None ==> d@.fc_link_hint is None,
        d.video_viewer matches Some(t) ==> d@.video_viewer == Some(t@),
        d.mavlink_tcp_url matches Some(t) ==> d@.mavlink_tcp_url == Some(t@),
        d.mavlink_ws_url matches Some(t) ==> d@.mavlink_ws_url == Some(t@),
        d.mavlink_public_ws_url matches Some(t) ==> d@.mavlink_public_ws_url == Some(t@),
{
}

/// The models of addresses and steps are what their fields hold, one for one.
pub proof fn law_addresses_and_steps_are_held(v: Seq<AccessUrl>, w: Seq<Step>, i: int)
    ensures
        access_models(v).len() == v.len(),
        step_models(w).len() == w.len(),
        0 <= i < v.len() ==> access_models(v)[i].url == v[i].url@ && access_models(v)[i].label
            == v[i].label@ && access_models(v)[i].kind == v[i].kind@ && access_models(v)[i].primary
            == v[i].primary,
        0 <= i < w.len() ==> step_models(w)[i].label == w[i].label@ && step_models(w)[i].state
            == w[i].state@ && step_models(w)[i].detail == w[i].detail@,
{
}

/// Of a node that has not answered nothing is known.
pub proof fn law_nothing_is_known_at_first()
    ensures
        ({
            let b = blank_dashboard();
            &&& !b.paired && !b.has_steps && !b.steps_all_complete && !b.mavlink_connected
                && !b.cloud_paired && !b.cloud_configured
            &&& b.armed is None && b.battery is None && b.mode is None && b.gps_fix is None
                && b.satellites is None && b.alt is None
            &&& b.services_running == 0 && b.services_total == 0
            &&& b.access_urls.len() == 0 && b.steps.len() == 0
            &&& verdict(b) == Health::Setup
            &&& link_state(b) == FcLink::Down
        }),
{
    reveal_strlit("ground_station");
}

/// What the dashboard keeps: ten addresses and thirty samples of a trend.
pub proof fn law_what_the_dashboard_keeps(s: Seq<Number>, v: Number)
    ensures
        ACCESS_URL_CAP == 10,
        HISTORY_CAP == 30,
        sampled(s, None) == s,
        s.len() < 30 ==> sampled(s, Some(v)) == s.push(v),
        s.len() == 30 ==> sampled(s, Some(v)) == s.drop_first().push(v),
{
    if s.len() == 30 {
        assert(s.push(v).skip(1) =~= s.drop_first().push(v));
    }
}

/// A number is negative exactly below zero; the zero with a sign is none.
pub proof fn law_what_is_negative(u: u64, i: i64, bits: u64)
    ensures
        not_negative(Number::Unsigned(u)),
        not_negative(Number::Negative(i)) <==> i >= 0,
        not_negative(Number::Real(bits)) <==> bits <= 0x7ff0_0000_0000_0000 || bits
            == 0x8000_0000_0000_0000,
{
}

} // verus!
