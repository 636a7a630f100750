//! What camera discovery reports, and how its output is read.
//!
//! Discovery runs as a subprocess that prints one JSON object. A run that
//! fails, times out or prints nothing usable counts as an empty result.
use crate::camera_state::CameraStateSnapshot;
use crate::encoder::{CameraInfo, CameraType};
use crate::health::Nanos;
use crate::text;
use vstd::prelude::*;

verus! {

/// Wall-clock budget of the discovery subprocess.
pub const DISCOVERY_TIMEOUT: Nanos = 12_000_000_000;

/// The interpreter of the helper programs, unless another one is named.
pub const DEFAULT_PYTHON: &'static str = "/opt/ados/venv/bin/python3";

/// The interpreter of the helper programs: the one that the environment names,
/// if it names any.
pub fn python_executable(named: Option<String>) -> (r: String)
    ensures
        r@ == (match named {
            Some(s) if s@.len() > 0 => s@,
            _ => DEFAULT_PYTHON@,
        }),
        named is None ==> r@ == "/opt/ados/venv/bin/python3"@,
        named matches Some(s) ==> (s@.len() > 0 ==> r@ == s@),
{
    match named {
        Some(s) => if s.as_str().unicode_len() > 0 {
            s
        } else {
            DEFAULT_PYTHON.to_owned()
        },
        None => DEFAULT_PYTHON.to_owned(),
    }
}

/// A camera as discovery reports it.
#[derive(Debug, Clone, PartialEq, Eq)]
pub struct DiscoveredCamera {
    pub name: String,
    /// The bus class on the wire.
    pub camera_type: String,
    pub device_path: String,
    pub width: u32,
    pub height: u32,
    pub capabilities: Vec<String>,
    pub hardware_role: String,
}

/// The camera that won the assignment.
#[derive(Debug, Clone, PartialEq, Eq)]
pub struct Primary {
    pub device_path: String,
    pub name: String,
}

/// A discovery result.
#[derive(Debug, Clone, PartialEq, Eq)]
pub struct DiscoveryResult {
    pub cameras: Vec<DiscoveredCamera>,
    pub primary: Option<Primary>,
    pub total_cameras: u32,
}

/// The bus class that a wire name stands for; anything unexpected is USB, the
/// least specific backend.
pub open spec fn type_named(s: Seq<char>) -> CameraType {
    if s == "csi"@ {
        CameraType::Csi
    } else if s == "ip"@ {
        CameraType::Ip
    } else {
        CameraType::Usb
    }
}

/// The first camera at index `i` or later whose device path is `path`.
pub open spec fn camera_at(cameras: Seq<DiscoveredCamera>, path: Seq<char>, i: int) -> Option<
    DiscoveredCamera,
>
    decreases cameras.len() - i,
{
    if i < 0 || i >= cameras.len() {
        None
    } else if cameras[i].device_path@ == path {
        Some(cameras[i])
    } else {
        camera_at(cameras, path, i + 1)
    }
}

/// `info` is the builder's view of the primary of `r`: its entry in the camera
/// list, or a plain USB camera when the list lacks it.
pub open spec fn is_primary_info(r: DiscoveryResult, info: CameraInfo) -> bool {
    &&& r.primary is Some
    &&& info.device_path@ == r.primary->0.device_path@
    &&& match camera_at(r.cameras@, r.primary->0.device_path@, 0) {
        Some(c) => info.camera_type == type_named(c.camera_type@) && text::views(
            info.capabilities@,
        ) == text::views(c.capabilities@),
        None => info.camera_type == CameraType::Usb && info.capabilities@.len() == 0,
    }
}

impl DiscoveredCamera {
    /// The bus class of the camera.
    pub fn camera_type_enum(&self) -> (r: CameraType)
        ensures
            r == type_named(self.camera_type@),
    {
        let t = self.camera_type.as_str();
        if text::same(t, "csi") {
            CameraType::Csi
        } else if text::same(t, "ip") {
            CameraType::Ip
        } else {
            CameraType::Usb
        }
    }

    /// The builder's view of the camera.
    pub fn to_camera_info(&self) -> (r: CameraInfo)
        ensures
            r.camera_type == type_named(self.camera_type@),
            r.device_path@ == self.device_path@,
            text::views(r.capabilities@) == text::views(self.capabilities@),
    {
        CameraInfo {
            camera_type: self.camera_type_enum(),
            device_path: self.device_path.clone(),
            capabilities: text::copy_all(self.capabilities.as_slice()),
        }
    }
}

impl DiscoveryResult {
    /// No cameras, no primary.
    pub fn empty() -> (r: Self)
        ensures
            r.cameras@.len() == 0,
            r.primary is None,
            r.total_cameras == 0,
    {
        DiscoveryResult { cameras: Vec::new(), primary: None, total_cameras: 0 }
    }

    /// The single network camera that a stream URL stands for.
    pub fn for_network_source(url: &str) -> (r: Self)
        ensures
            r.cameras@.len() == 1,
            r.cameras@[0].name@ == url@,
            r.cameras@[0].camera_type@ == "ip"@,
            r.cameras@[0].device_path@ == url@,
            r.cameras@[0].width == 0,
            r.cameras@[0].height == 0,
            r.cameras@[0].capabilities@.len() == 0,
            r.cameras@[0].hardware_role@ == "camera"@,
            r.primary is Some,
            r.primary->0.device_path@ == url@,
            r.primary->0.name@ == url@,
            r.total_cameras == 1,
    {
        let mut cameras: Vec<DiscoveredCamera> = Vec::new();
        cameras.push(
            DiscoveredCamera {
                name: url.to_owned(),
                camera_type: "ip".to_owned(),
                device_path: url.to_owned(),
                width: 0,
                height: 0,
                capabilities: Vec::new(),
                hardware_role: "camera".to_owned(),
            },
        );
        DiscoveryResult {
            cameras,
            primary: Some(Primary { device_path: url.to_owned(), name: url.to_owned() }),
            total_cameras: 1,
        }
    }

    /// The builder's view of the primary, if there is one. The capabilities
    /// come from the camera list, which the primary block does not carry.
    pub fn primary_camera_info(&self) -> (r: Option<CameraInfo>)
        ensures
            match r {
                Some(info) => is_primary_info(*self, info),
                None => self.primary is None,
            },
    {
        let primary = match &self.primary {
            Some(p) => p,
            None => {
                return None;
            },
        };
        let mut i: usize = 0;
        while i < self.cameras.len()
            invariant
                i <= self.cameras@.len(),
                self.primary == Some(*primary),
                camera_at(self.cameras@, primary.device_path@, 0) == camera_at(
                    self.cameras@,
                    primary.device_path@,
                    i as int,
                ),
            decreases self.cameras@.len() - i,
        {
            if text::same(
                self.cameras[i].device_path.as_str(),
                primary.device_path.as_str(),
            ) {
                return Some(self.cameras[i].to_camera_info());
            }
            i += 1;
        }
        Some(
            CameraInfo {
                camera_type: CameraType::Usb,
                device_path: primary.device_path.clone(),
                capabilities: Vec::new(),
            },
        )
    }

    /// The camera-state snapshot of this result.
    pub fn camera_state_snapshot(&self) -> (r: CameraStateSnapshot)
        ensures
            r.consistent(),
            r.version == crate::camera_state::CAMERA_STATE_SIDECAR_VERSION,
            r.total_cameras == self.total_cameras,
            r.pipeline_state == crate::camera_state::PipelineOutcome::Unknown,
            r.pipeline_reason is None,
            r.encoder is None,
            r.encoder_hw is None,
            self.primary is Some && self.total_cameras > 0 ==> {
                &&& r.state == crate::camera_state::CameraState::Ready
                &&& text::opt_view(r.primary_path) == Some(self.primary->0.device_path@)
                &&& text::opt_view(r.primary_name) == Some(self.primary->0.name@)
            },
            self.primary is None || self.total_cameras == 0 ==> {
                &&& r.state == crate::camera_state::CameraState::Missing
                &&& r.primary_path is None
                &&& r.primary_name is None
            },
    {
        let primary = match &self.primary {
            Some(p) => Some((Some(p.device_path.clone()), Some(p.name.clone()))),
            None => None,
        };
        CameraStateSnapshot::from_discovery(primary, self.total_cameras)
    }
}

/// The non-empty lines among the first `n` lines of a discovery run, trimmed,
/// the last one first.
pub open spec fn candidate_lines(lines: Seq<Seq<char>>, n: int) -> Seq<Seq<char>>
    decreases n,
{
    if n <= 0 {
        Seq::empty()
    } else {
        let line = text::trimmed(lines[n - 1]);
        let rest = candidate_lines(lines, n - 1);
        if line.len() == 0 {
            rest
        } else {
            seq![line] + rest
        }
    }
}

/// The lines of `stdout` that may hold the result, in the order in which they
/// are tried.
pub open spec fn candidates(stdout: Seq<char>) -> Seq<Seq<char>> {
    let lines = text::pieces_on(stdout, '\n');
    candidate_lines(lines, lines.len() as int)
}

/// `parse` may answer `r` for the line `line`.
pub open spec fn reads_as<F: Fn(&str) -> Option<DiscoveryResult>>(
    parse: F,
    line: Seq<char>,
    r: Option<DiscoveryResult>,
) -> bool {
    exists|s: &str| s@ == line && #[trigger] call_ensures(parse, (s,), r)
}

/// The lines of `stdout` that may hold the result, trimmed, the last one
/// first.
pub fn discovery_candidates(stdout: &str) -> (r: Vec<String>)
    ensures
        text::views(r@) == candidates(stdout@),
{
    let lines = text::split_on(stdout, '\n');
    let ghost all = text::views(lines@);
    let mut out: Vec<String> = Vec::new();
    let mut n: usize = lines.len();
    assert(text::views(out@) + candidate_lines(all, n as int) =~= candidates(stdout@));
    while n > 0
        invariant
            n <= lines@.len(),
            all == text::views(lines@),
            text::views(out@) + candidate_lines(all, n as int) == candidates(stdout@),
        decreases n,
    {
        let line = text::trim(lines[n - 1].as_str());
        let ghost before = text::views(out@);
        if !line.is_empty() {
            text::add_arg(&mut out, line);
        }
        n -= 1;
        proof {
            let rest = candidate_lines(all, n as int);
            if line@.len() > 0 {
                assert(before.push(line@) + rest =~= before + (seq![line@] + rest));
            }
        }
    }
    assert(candidate_lines(all, 0) =~= Seq::<Seq<char>>::empty());
    assert(text::views(out@) + Seq::<Seq<char>>::empty() =~= text::views(out@));
    out
}

/// Read the result out of a discovery run. The lines are tried from the last
/// one up, so that a log line that leaked into the output cannot hide the
/// result; the first line that `parse` accepts is it.
pub fn parse_discovery_stdout<F: Fn(&str) -> Option<DiscoveryResult>>(stdout: &str, parse: F) -> (r:
    Option<DiscoveryResult>)
    requires
        forall|s: &str| #[trigger] call_requires(parse, (s,)),
    ensures
        match r {
            Some(found) => exists|k: int|
                {
                    &&& 0 <= k < candidates(stdout@).len()
                    &&& reads_as(parse, #[trigger] candidates(stdout@)[k], Some(found))
                    &&& forall|j: int|
                        0 <= j < k ==> reads_as(parse, #[trigger] candidates(stdout@)[j], None)
                },
            None => forall|j: int|
                0 <= j < candidates(stdout@).len() ==> reads_as(
                    parse,
                    #[trigger] candidates(stdout@)[j],
                    None,
                ),
        },
{
    let lines = discovery_candidates(stdout);
    let ghost all = candidates(stdout@);
    let mut i: usize = 0;
    while i < lines.len()
        invariant
            i <= lines@.len(),
            all == candidates(stdout@),
            text::views(lines@) == all,
            forall|s: &str| #[trigger] call_requires(parse, (s,)),
            forall|j: int| 0 <= j < i ==> reads_as(parse, #[trigger] all[j], None),
        decreases lines@.len() - i,
    {
        let line = lines[i].as_str();
        assert(line@ == all[i as int]);
        let found = parse(line);
        assert(reads_as(parse, all[i as int], found));
        if found.is_some() {
            return found;
        }
        i += 1;
    }
    None
}

/// A CSI and a network camera are named as such, and any other name is USB.
pub proof fn law_the_class_of_a_camera(s: Seq<char>)
    ensures
        type_named(s) == CameraType::Csi <==> s == "csi"@,
        type_named(s) == CameraType::Ip <==> s == "ip"@,
        s != "csi"@ && s != "ip"@ ==> type_named(s) == CameraType::Usb,
{
    reveal_strlit("csi");
    reveal_strlit("ip");
    assert("csi"@.len() == 3 && "ip"@.len() == 2);
}

/// The first camera at a path is the one that is found there.
pub proof fn law_the_first_camera_at_a_path(
    cameras: Seq<DiscoveredCamera>,
    path: Seq<char>,
    k: int,
)
    ensures
        0 <= k < cameras.len() && cameras[k].device_path@ == path && (forall|j: int|
            0 <= j < k ==> (#[trigger] cameras[j]).device_path@ != path) ==> camera_at(
            cameras,
            path,
            0,
        ) == Some(cameras[k]),
        (forall|j: int| 0 <= j < cameras.len() ==> (#[trigger] cameras[j]).device_path@ != path)
            ==> camera_at(cameras, path, 0) is None,
{
    if 0 <= k < cameras.len() && cameras[k].device_path@ == path && (forall|j: int|
        0 <= j < k ==> (#[trigger] cameras[j]).device_path@ != path) {
        lemma_camera_at(cameras, path, 0, k);
    }
    if forall|j: int| 0 <= j < cameras.len() ==> (#[trigger] cameras[j]).device_path@ != path {
        lemma_no_camera_at(cameras, path, 0);
    }
}

proof fn lemma_camera_at(cameras: Seq<DiscoveredCamera>, path: Seq<char>, i: int, k: int)
    requires
        0 <= i <= k < cameras.len(),
        cameras[k].device_path@ == path,
        forall|j: int| i <= j < k ==> (#[trigger] cameras[j]).device_path@ != path,
    ensures
        camera_at(cameras, path, i) == Some(cameras[k]),
    decreases k - i,
{
    if i < k {
        assert(cameras[i].device_path@ != path);
        lemma_camera_at(cameras, path, i + 1, k);
    }
}

proof fn lemma_no_camera_at(cameras: Seq<DiscoveredCamera>, path: Seq<char>, i: int)
    requires
        0 <= i,
        forall|j: int| i <= j < cameras.len() ==> (#[trigger] cameras[j]).device_path@ != path,
    ensures
        camera_at(cameras, path, i) is None,
    decreases cameras.len() - i,
{
    if i < cameras.len() {
        assert(cameras[i].device_path@ != path);
        lemma_no_camera_at(cameras, path, i + 1);
    }
}

/// What is encoded is the primary at its own path; without an entry in the list
/// it is taken for a USB camera of which nothing is known.
pub proof fn law_the_primary_is_encoded(r: DiscoveryResult, info: CameraInfo)
    requires
        is_primary_info(r, info),
    ensures
        r.primary is Some,
        info.device_path@ == r.primary->0.device_path@,
        camera_at(r.cameras@, info.device_path@, 0) is None ==> info.camera_type == CameraType::Usb
            && info.capabilities@.len() == 0,
        camera_at(r.cameras@, info.device_path@, 0) matches Some(c) ==> info.camera_type
            == type_named(c.camera_type@) && info.capabilities@.len() == c.capabilities@.len(),
{
    if let Some(c) = camera_at(r.cameras@, info.device_path@, 0) {
        assert(text::views(info.capabilities@).len() == text::views(c.capabilities@).len());
    }
}

/// The lines of a run are tried from the last one back, without the whitespace
/// around them and without the empty ones.
pub proof fn law_the_last_line_is_tried_first(out: Seq<char>, line: Seq<char>)
    requires
        !line.contains('\n'),
    ensures
        text::trimmed(line).len() > 0 ==> candidates(out + seq!['\n'] + line) == seq![
            text::trimmed(line),
        ] + candidates(out),
        text::trimmed(line).len() == 0 ==> candidates(out + seq!['\n'] + line) == candidates(out),
{
    let lines = text::pieces_on(out, '\n');
    text::law_parts_are_appended(out, '\n', line);
    let all = text::pieces_on(out + seq!['\n'] + line, '\n');
    assert(all == lines.push(line));
    lemma_same_front(lines, all, lines.len() as int);
}

proof fn lemma_same_front(a: Seq<Seq<char>>, b: Seq<Seq<char>>, n: int)
    requires
        n <= a.len() <= b.len(),
        forall|i: int| 0 <= i < a.len() ==> #[trigger] a[i] == b[i],
    ensures
        candidate_lines(a, n) == candidate_lines(b, n),
    decreases n,
{
    if n > 0 {
        lemma_same_front(a, b, n - 1);
        assert(a[n - 1] == b[n - 1]);
    }
}

/// How long a discovery may take, and what runs it.
pub proof fn law_the_time_of_a_discovery()
    ensures
        DISCOVERY_TIMEOUT == 12_000_000_000,
        DEFAULT_PYTHON@ == "/opt/ados/venv/bin/python3"@,
{
}

} // verus!
