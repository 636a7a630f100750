//! The encoders of the local secondary cameras.
//!
//! Each publishes its camera into a path of its own. They are extras: one that
//! fails leaves the primary and the others alone, and one that keeps failing is
//! given up.
use crate::command;
use crate::config::{CameraConfig, ResolvedLeg};
use crate::encoder;
use crate::encoder::{
    build_encoder_command, detect_encoder_for_camera, CameraInfo, CameraType, EncoderEnv,
    EncoderKind, EncoderParams,
};
use crate::health::{healthy_window_elapsed, Nanos, PipelineState, HEALTHY_RESET_WINDOW};
use crate::tap;
use crate::text;
use vstd::prelude::*;

verus! {

/// After more than this many respawns in a row a secondary encoder is given up.
pub const MAX_SECONDARY_RESPAWNS: u64 = 5;

// ---------------------------------------------------------------------------
// numbers by leg
// ---------------------------------------------------------------------------

/// A number for each of some legs.
#[derive(Debug, Clone)]
pub struct ByLeg {
    entries: Vec<(String, u64)>,
}

/// The entries as a map; a later entry wins.
spec fn as_map(e: Seq<(String, u64)>) -> Map<Seq<char>, u64>
    decreases e.len(),
{
    if e.len() == 0 {
        Map::empty()
    } else {
        as_map(e.drop_last()).insert(e.last().0@, e.last().1)
    }
}

impl View for ByLeg {
    type V = Map<Seq<char>, u64>;

    closed spec fn view(&self) -> Map<Seq<char>, u64> {
        as_map(self.entries@)
    }
}

impl ByLeg {
    /// No leg has a number.
    pub fn new() -> (r: Self)
        ensures
            r@ == Map::<Seq<char>, u64>::empty(),
    {
        ByLeg { entries: Vec::new() }
    }

    /// The number of a leg.
    pub fn get(&self, id: &str) -> (r: Option<u64>)
        ensures
            r == (if self@.contains_key(id@) {
                Some(self@[id@])
            } else {
                None
            }),
    {
        let mut n: usize = self.entries.len();
        assert(self.entries@.take(n as int) == self.entries@);
        while n > 0
            invariant
                n <= self.entries@.len(),
                self@.contains_key(id@) == as_map(self.entries@.take(n as int)).contains_key(id@),
                self@.contains_key(id@) ==> self@[id@] == as_map(
                    self.entries@.take(n as int),
                )[id@],
            decreases n,
        {
            assert(self.entries@.take(n as int).drop_last() == self.entries@.take(n - 1));
            if text::same(self.entries[n - 1].0.as_str(), id) {
                return Some(self.entries[n - 1].1);
            }
            n -= 1;
        }
        None
    }

    /// Take a leg's number away.
    pub fn remove(&mut self, id: &str)
        ensures
            final(self)@ == old(self)@.remove(id@),
    {
        let mut kept: Vec<(String, u64)> = Vec::new();
        let mut i: usize = 0;
        assert(as_map(kept@) =~= as_map(self.entries@.take(0)).remove(id@));
        while i < self.entries.len()
            invariant
                i <= self.entries@.len(),
                as_map(kept@) == as_map(self.entries@.take(i as int)).remove(id@),
            decreases self.entries@.len() - i,
        {
            let ghost before = kept@;
            let ghost e = self.entries@[i as int];
            assert(self.entries@.take(i + 1).drop_last() == self.entries@.take(i as int));
            if !text::same(self.entries[i].0.as_str(), id) {
                kept.push((self.entries[i].0.clone(), self.entries[i].1));
                assert(kept@.drop_last() == before);
                assert(as_map(kept@) =~= as_map(self.entries@.take(i + 1)).remove(id@));
            } else {
                assert(as_map(kept@) =~= as_map(self.entries@.take(i + 1)).remove(id@));
            }
            i += 1;
        }
        assert(self.entries@.take(self.entries@.len() as int) == self.entries@);
        self.entries = kept;
    }

    /// Give a leg a number.
    pub fn put(&mut self, id: &str, n: u64)
        ensures
            final(self)@ == old(self)@.insert(id@, n),
    {
        self.remove(id);
        let ghost before = self.entries@;
        self.entries.push((id.to_owned(), n));
        assert(self.entries@.drop_last() == before);
        assert(self@ =~= old(self)@.insert(id@, n));
    }
}

// ---------------------------------------------------------------------------
// supervision
// ---------------------------------------------------------------------------

/// What is remembered of the secondary encoders.
#[derive(Debug, Clone)]
pub struct Secondaries {
    /// Respawns in a row, by leg.
    pub attempts: ByLeg,
    /// The last start, by leg.
    pub started_at: ByLeg,
}

/// The number of a leg, or zero.
pub open spec fn count_of(m: Map<Seq<char>, u64>, id: Seq<char>) -> u64 {
    if m.contains_key(id) {
        m[id]
    } else {
        0
    }
}

/// The leg has respawned too often in a row.
pub open spec fn given_up(attempts: Map<Seq<char>, u64>, id: Seq<char>) -> bool {
    count_of(attempts, id) > MAX_SECONDARY_RESPAWNS
}

/// The encoder of a leg, and whether it still runs.
#[derive(Debug, Clone)]
pub struct Slot {
    pub id: String,
    pub running: bool,
}

/// A leg that has run for the healthy window since its start forgets its
/// failures.
pub open spec fn recovered(
    attempts: Map<Seq<char>, u64>,
    started: Map<Seq<char>, u64>,
    id: Seq<char>,
    now: Nanos,
) -> bool {
    count_of(attempts, id) > 0 && started.contains_key(id) && now - started[id]
        > HEALTHY_RESET_WINDOW
}

/// The respawn counts after the running encoders among `slots` were seen.
pub open spec fn after_running(
    attempts: Map<Seq<char>, u64>,
    started: Map<Seq<char>, u64>,
    slots: Seq<Slot>,
    now: Nanos,
) -> Map<Seq<char>, u64>
    decreases slots.len(),
{
    if slots.len() == 0 {
        attempts
    } else {
        let before = after_running(attempts, started, slots.drop_last(), now);
        let s = slots.last();
        if s.running && recovered(before, started, s.id@, now) {
            before.remove(s.id@)
        } else {
            before
        }
    }
}

/// The respawn counts after the dead encoders among `slots` were counted.
pub open spec fn after_dead(attempts: Map<Seq<char>, u64>, slots: Seq<Slot>) -> Map<Seq<char>, u64>
    decreases slots.len(),
{
    if slots.len() == 0 {
        attempts
    } else {
        let before = after_dead(attempts, slots.drop_last());
        let s = slots.last();
        if s.running {
            before
        } else {
            before.insert(s.id@, (count_of(before, s.id@) + 1) as u64)
        }
    }
}

/// The legs of the dead encoders, in order.
pub open spec fn dead_ids(slots: Seq<Slot>) -> Seq<Seq<char>>
    decreases slots.len(),
{
    if slots.len() == 0 {
        Seq::empty()
    } else if slots.last().running {
        dead_ids(slots.drop_last())
    } else {
        dead_ids(slots.drop_last()).push(slots.last().id@)
    }
}

/// Every count leaves room for `n` more.
pub open spec fn counts_leave(attempts: Map<Seq<char>, u64>, n: int) -> bool {
    forall|id: Seq<char>| #[trigger] count_of(attempts, id) + n <= u64::MAX
}

/// Forgetting failures never raises a count.
proof fn lemma_running_lowers_counts(
    attempts: Map<Seq<char>, u64>,
    started: Map<Seq<char>, u64>,
    slots: Seq<Slot>,
    now: Nanos,
)
    ensures
        forall|id: Seq<char>|
            #[trigger] count_of(after_running(attempts, started, slots, now), id) <= count_of(
                attempts,
                id,
            ),
    decreases slots.len(),
{
    if slots.len() > 0 {
        let before = after_running(attempts, started, slots.drop_last(), now);
        lemma_running_lowers_counts(attempts, started, slots.drop_last(), now);
        assert forall|id: Seq<char>|
            #[trigger] count_of(after_running(attempts, started, slots, now), id) <= count_of(
                attempts,
                id,
            ) by {
            assert(count_of(before, id) <= count_of(attempts, id));
        }
    }
}

/// Counting the dead raises no count by more than their number.
proof fn lemma_dead_raises_counts(attempts: Map<Seq<char>, u64>, slots: Seq<Slot>)
    requires
        counts_leave(attempts, slots.len() as int),
    ensures
        forall|id: Seq<char>|
            count_of(attempts, id) <= #[trigger] count_of(after_dead(attempts, slots), id)
                <= count_of(attempts, id) + slots.len(),
    decreases slots.len(),
{
    if slots.len() > 0 {
        let front = slots.drop_last();
        assert(counts_leave(attempts, front.len() as int));
        lemma_dead_raises_counts(attempts, front);
        let before = after_dead(attempts, front);
        let s = slots.last();
        assert(count_of(before, s.id@) <= count_of(attempts, s.id@) + front.len());
        assert(count_of(attempts, s.id@) + slots.len() <= u64::MAX);
        assert forall|id: Seq<char>|
            count_of(attempts, id) <= #[trigger] count_of(after_dead(attempts, slots), id)
                <= count_of(attempts, id) + slots.len() by {
            assert(count_of(before, id) <= count_of(attempts, id) + front.len());
        }
    }
}

impl Secondaries {
    /// Nothing is remembered.
    pub fn new() -> (r: Self)
        ensures
            r.attempts@ == Map::<Seq<char>, u64>::empty(),
            r.started_at@ == Map::<Seq<char>, u64>::empty(),
    {
        Secondaries { attempts: ByLeg::new(), started_at: ByLeg::new() }
    }

    /// Forget everything, so that a restart of the pipeline begins each leg
    /// anew.
    pub fn stop_secondary_encoders(&mut self)
        ensures
            final(self).attempts@ == Map::<Seq<char>, u64>::empty(),
            final(self).started_at@ == Map::<Seq<char>, u64>::empty(),
    {
        self.attempts = ByLeg::new();
        self.started_at = ByLeg::new();
    }

    /// The encoder of a leg was started.
    pub fn note_started(&mut self, id: &str, now: Nanos)
        ensures
            final(self).started_at@ == old(self).started_at@.insert(id@, now),
            final(self).attempts@ == old(self).attempts@,
    {
        self.started_at.put(id, now);
    }

    fn count(&self, id: &str) -> (r: u64)
        ensures
            r == count_of(self.attempts@, id@),
    {
        match self.attempts.get(id) {
            Some(n) => n,
            None => 0,
        }
    }

    /// Look over the encoders of a running pipeline: a leg that has run for the
    /// healthy window forgets its failures, and each dead one counts as one
    /// more. Returns the legs whose dead encoders are to be dropped; where
    /// there are any, the spawn pass is to run again. While the pipeline does
    /// not run nothing happens.
    pub fn supervise_secondary_encoders(
        &mut self,
        state: PipelineState,
        slots: &Vec<Slot>,
        now: Nanos,
    ) -> (r: Vec<String>)
        requires
            counts_leave(old(self).attempts@, slots@.len() as int),
        ensures
            final(self).started_at@ == old(self).started_at@,
            state != PipelineState::Running ==> {
                &&& final(self).attempts@ == old(self).attempts@
                &&& r@.len() == 0
            },
            state == PipelineState::Running ==> {
                &&& final(self).attempts@ == after_dead(
                    after_running(old(self).attempts@, old(self).started_at@, slots@, now),
                    slots@,
                )
                &&& text::views(r@) == dead_ids(slots@)
            },
            r@.len() > 0 ==> state == PipelineState::Running,
    {
        let mut dead: Vec<String> = Vec::new();
        if state != PipelineState::Running {
            return dead;
        }
        let ghost first = self.attempts@;
        let ghost started = self.started_at@;
        let mut i: usize = 0;
        assert(slots@.take(0).len() == 0);
        while i < slots.len()
            invariant
                i <= slots@.len(),
                self.started_at@ == started,
                self.attempts@ == after_running(first, started, slots@.take(i as int), now),
            decreases slots@.len() - i,
        {
            assert(slots@.take(i + 1).drop_last() == slots@.take(i as int));
            let id = slots[i].id.as_str();
            if slots[i].running && self.count(id) > 0 {
                match self.started_at.get(id) {
                    Some(since) => {
                        if healthy_window_elapsed(since, now) {
                            self.attempts.remove(id);
                        }
                    },
                    None => {},
                }
            }
            i += 1;
        }
        assert(slots@.take(slots@.len() as int) == slots@);
        let ghost second = self.attempts@;
        proof {
            lemma_running_lowers_counts(first, started, slots@, now);
            assert forall|id: Seq<char>| #[trigger] count_of(second, id) + slots@.len()
                <= u64::MAX by {
                assert(count_of(first, id) + slots@.len() <= u64::MAX);
            }
        }
        let mut j: usize = 0;
        assert(text::views(dead@) =~= dead_ids(slots@.take(0)));
        while j < slots.len()
            invariant
                j <= slots@.len(),
                self.started_at@ == started,
                counts_leave(second, slots@.len() as int),
                self.attempts@ == after_dead(second, slots@.take(j as int)),
                text::views(dead@) == dead_ids(slots@.take(j as int)),
            decreases slots@.len() - j,
        {
            assert(slots@.take(j + 1).drop_last() == slots@.take(j as int));
            if !slots[j].running {
                let id = slots[j].id.as_str();
                let n: u64 = self.count(id);
                proof {
                    assert(counts_leave(second, slots@.take(j as int).len() as int)) by {
                        assert forall|id: Seq<char>| #[trigger] count_of(second, id) + j
                            <= u64::MAX by {
                            assert(count_of(second, id) + slots@.len() <= u64::MAX);
                        }
                    }
                    lemma_dead_raises_counts(second, slots@.take(j as int));
                    assert(n <= count_of(second, id@) + j);
                    assert(count_of(second, id@) + slots@.len() <= u64::MAX);
                }
                self.attempts.put(id, n + 1);
                text::add_arg(&mut dead, id);
            }
            j += 1;
        }
        assert(slots@.take(slots@.len() as int) == slots@);
        dead
    }
}

// ---------------------------------------------------------------------------
// the spawn pass
// ---------------------------------------------------------------------------

/// The bus class of a local secondary camera: a CSI hint, else USB.
pub open spec fn hinted_type(source: Seq<char>) -> CameraType {
    if text::lowered(text::trimmed(source)) == "csi"@ {
        CameraType::Csi
    } else {
        CameraType::Usb
    }
}

/// The bus class of a local secondary camera, from its source hint.
pub fn secondary_camera_type(source: &str) -> (r: CameraType)
    ensures
        r == hinted_type(source@),
{
    let s = text::to_lower(text::trim(source));
    if text::same(s.as_str(), "csi") {
        CameraType::Csi
    } else {
        CameraType::Usb
    }
}

/// The programs that can encode.
#[derive(Debug, Clone, Copy, PartialEq, Eq, Structural)]
pub struct Backends {
    pub rpicam: bool,
    pub ffmpeg: bool,
    pub gst_launch: bool,
}

/// The encoder of a leg: its backend and its command.
#[derive(Debug)]
pub struct SecondarySpawn {
    pub kind: EncoderKind,
    pub command: Vec<String>,
}

/// The leg is one that this pass looks after: a local secondary that does not
/// run and has not been given up, with a backend for its camera.
pub open spec fn spawnable(
    leg: ResolvedLeg,
    running: bool,
    attempts: Map<Seq<char>, u64>,
    b: Backends,
) -> bool {
    &&& !leg.is_primary
    &&& !leg.is_network_pull
    &&& !running
    &&& !given_up(attempts, leg.id@)
    &&& encoder::backend_for(hinted_type(leg.source@), b.rpicam, b.ffmpeg, b.gst_launch) is Some
}

/// The camera of a leg, as the command builder sees it.
pub open spec fn is_leg_camera(leg: ResolvedLeg, c: CameraInfo) -> bool {
    &&& c.camera_type == hinted_type(leg.source@)
    &&& c.device_path@ == leg.source@
    &&& c.capabilities@.len() == 0
}

/// The parameters with which a leg is encoded.
pub open spec fn is_leg_params(leg: ResolvedLeg, kind: EncoderKind, p: EncoderParams) -> bool {
    &&& p.kind == kind
    &&& p.codec@ == leg.codec@
    &&& p.width == leg.width
    &&& p.height == leg.height
    &&& p.fps == leg.fps
    &&& p.bitrate_kbps == leg.bitrate_kbps
    &&& p.encoder@ == "auto"@
    &&& p.rotation == 0
    &&& !p.hflip
    &&& !p.vflip
    &&& p.keyframe_interval == 0
    &&& !p.rtp_fanout
}

/// `cmd` publishes the camera of `leg` into its own path.
pub open spec fn encodes_leg(
    leg: ResolvedLeg,
    kind: EncoderKind,
    rtsp_port: u16,
    env: EncoderEnv,
    cmd: Seq<Seq<char>>,
) -> bool {
    exists|p: EncoderParams, c: CameraInfo|
        is_leg_params(leg, kind, p) && is_leg_camera(leg, c) && cmd
            == #[trigger] command::encoder_command(
            p,
            leg.source@,
            tap::local_url(rtsp_port, leg.id@),
            Some(&c),
            env,
        )
}

/// The names of a leg can stand in a command.
pub open spec fn leg_is_encodable(leg: ResolvedLeg, rtsp_port: u16) -> bool {
    &&& encoder::valid_source(leg.source@)
    &&& encoder::valid_source(tap::local_url(rtsp_port, leg.id@))
    &&& leg.codec@ == "h264"@
}

/// One step of the spawn pass over the legs: what to run for `leg`, if
/// anything. The primary and the network pulls are looked after elsewhere, and
/// a leg that runs already, was given up or cannot be encoded is left alone.
pub fn start_secondary_encoder(
    state: PipelineState,
    leg: &ResolvedLeg,
    running: bool,
    memory: &Secondaries,
    b: Backends,
    rtsp_port: u16,
    env: &EncoderEnv,
) -> (r: Option<SecondarySpawn>)
    ensures
        r is Some <==> state == PipelineState::Running && spawnable(
            *leg,
            running,
            memory.attempts@,
            b,
        ) && leg_is_encodable(*leg, rtsp_port),
        match r {
            Some(s) => {
                &&& encoder::backend_for(
                    hinted_type(leg.source@),
                    b.rpicam,
                    b.ffmpeg,
                    b.gst_launch,
                ) == Some(s.kind)
                &&& encodes_leg(*leg, s.kind, rtsp_port, *env, text::views(s.command@))
                &&& s.command@.len() > 0
            },
            None => true,
        },
        r is Some ==> state == PipelineState::Running && !leg.is_primary && !leg.is_network_pull
            && !running,
{
    if state != PipelineState::Running || leg.is_primary || leg.is_network_pull || running {
        return None;
    }
    if memory.count(leg.id.as_str()) > MAX_SECONDARY_RESPAWNS {
        return None;
    }
    let camera_type = secondary_camera_type(leg.source.as_str());
    let kind = match detect_encoder_for_camera(camera_type, b.rpicam, b.ffmpeg, b.gst_launch) {
        Some(k) => k,
        None => {
            return None;
        },
    };
    let camera = CameraInfo {
        camera_type,
        device_path: leg.source.clone(),
        capabilities: Vec::new(),
    };
    let cfg: CameraConfig = leg.to_camera_config();
    let params = EncoderParams::from_camera_config(kind, &cfg);
    let output = tap::local_path_url(rtsp_port, leg.id.as_str());
    match build_encoder_command(
        &params,
        leg.source.as_str(),
        output.as_str(),
        Some(&camera),
        env,
    ) {
        Ok(cmd) => {
            proof {
                command::lemma_command_is_not_empty(
                    params,
                    leg.source@,
                    output@,
                    Some(&camera),
                    *env,
                );
                assert(text::views(cmd@).len() == cmd@.len());
                assert(is_leg_params(*leg, kind, params));
                assert(is_leg_camera(*leg, camera));
            }
            Some(SecondarySpawn { kind, command: cmd })
        },
        Err(_) => None,
    }
}

// ---------------------------------------------------------------------------
// laws
// ---------------------------------------------------------------------------

/// A leg whose encoder dies again and again, never running for the healthy
/// window, is given up after a bounded number of respawns.
pub proof fn law_failing_legs_are_given_up(attempts: Map<Seq<char>, u64>, slot: Slot, deaths: nat)
    requires
        !slot.running,
        deaths > MAX_SECONDARY_RESPAWNS,
        counts_leave(attempts, deaths as int),
    ensures
        given_up(after_deaths(attempts, slot, deaths), slot.id@),
{
    lemma_deaths_count(attempts, slot, deaths);
}

/// The respawn counts after a slot was found dead `n` times.
pub open spec fn after_deaths(attempts: Map<Seq<char>, u64>, slot: Slot, n: nat) -> Map<
    Seq<char>,
    u64,
>
    decreases n,
{
    if n == 0 {
        attempts
    } else {
        after_dead(after_deaths(attempts, slot, (n - 1) as nat), seq![slot])
    }
}

proof fn lemma_deaths_count(attempts: Map<Seq<char>, u64>, slot: Slot, n: nat)
    requires
        !slot.running,
        counts_leave(attempts, n as int),
    ensures
        count_of(after_deaths(attempts, slot, n), slot.id@) == count_of(attempts, slot.id@) + n,
    decreases n,
{
    assert(count_of(attempts, slot.id@) + n <= u64::MAX);
    if n > 0 {
        assert(counts_leave(attempts, n - 1)) by {
            assert forall|id: Seq<char>| #[trigger] count_of(attempts, id) + (n - 1)
                <= u64::MAX by {
                assert(count_of(attempts, id) + n <= u64::MAX);
            }
        }
        lemma_deaths_count(attempts, slot, (n - 1) as nat);
        let before = after_deaths(attempts, slot, (n - 1) as nat);
        assert(seq![slot].drop_last() =~= Seq::<Slot>::empty());
        reveal_with_fuel(after_dead, 2);
    }
}

/// A leg that has run for longer than the healthy window starts over: it is
/// not given up, whatever it had counted.
pub proof fn law_healthy_legs_start_over(
    attempts: Map<Seq<char>, u64>,
    started: Map<Seq<char>, u64>,
    slot: Slot,
    now: Nanos,
)
    requires
        slot.running,
        started.contains_key(slot.id@),
        now - started[slot.id@] > HEALTHY_RESET_WINDOW,
    ensures
        count_of(after_running(attempts, started, seq![slot], now), slot.id@) == 0,
        !given_up(after_running(attempts, started, seq![slot], now), slot.id@),
{
    assert(seq![slot].drop_last() =~= Seq::<Slot>::empty());
    reveal_with_fuel(after_running, 2);
}

/// The count of a leg is moved by its own encoder alone.
pub proof fn law_legs_are_isolated(
    attempts: Map<Seq<char>, u64>,
    started: Map<Seq<char>, u64>,
    slots: Seq<Slot>,
    now: Nanos,
    id: Seq<char>,
)
    requires
        forall|i: int| 0 <= i < slots.len() ==> (#[trigger] slots[i]).id@ != id,
    ensures
        count_of(after_running(attempts, started, slots, now), id) == count_of(attempts, id),
        count_of(after_dead(attempts, slots), id) == count_of(attempts, id),
    decreases slots.len(),
{
    if slots.len() > 0 {
        let front = slots.drop_last();
        assert forall|i: int| 0 <= i < front.len() implies (#[trigger] front[i]).id@ != id by {
            assert(front[i] == slots[i]);
        }
        law_legs_are_isolated(attempts, started, front, now, id);
        assert(slots[slots.len() - 1].id@ != id);
    }
}

/// A dead encoder counts one more for its leg, and a running one nothing.
pub proof fn law_deaths_are_counted_one_by_one(
    attempts: Map<Seq<char>, u64>,
    slots: Seq<Slot>,
    slot: Slot,
)
    requires
        counts_leave(after_dead(attempts, slots), 1),
    ensures
        after_dead(attempts, Seq::empty()) == attempts,
        !slot.running ==> count_of(after_dead(attempts, slots.push(slot)), slot.id@) == count_of(
            after_dead(attempts, slots),
            slot.id@,
        ) + 1,
        slot.running ==> after_dead(attempts, slots.push(slot)) == after_dead(attempts, slots),
        forall|id: Seq<char>|
            id != slot.id@ ==> count_of(after_dead(attempts, slots.push(slot)), id) == #[trigger]
            count_of(after_dead(attempts, slots), id),
{
    assert(slots.push(slot).drop_last() =~= slots);
    assert(count_of(after_dead(attempts, slots), slot.id@) + 1 <= u64::MAX);
}

/// The legs to look after are those whose encoder does not run, in order.
pub proof fn law_the_dead_are_listed(slots: Seq<Slot>, slot: Slot)
    ensures
        dead_ids(Seq::empty()) == Seq::<Seq<char>>::empty(),
        slot.running ==> dead_ids(slots.push(slot)) == dead_ids(slots),
        !slot.running ==> dead_ids(slots.push(slot)) == dead_ids(slots).push(slot.id@),
{
    assert(slots.push(slot).drop_last() =~= slots);
}

/// A leg that runs keeps its count until it has run for longer than the healthy
/// window, and an encoder that does not run clears nothing.
pub proof fn law_failures_are_kept_until_then(
    attempts: Map<Seq<char>, u64>,
    started: Map<Seq<char>, u64>,
    slot: Slot,
    now: Nanos,
)
    requires
        !slot.running || !started.contains_key(slot.id@) || now - started[slot.id@]
            <= HEALTHY_RESET_WINDOW,
    ensures
        after_running(attempts, started, seq![slot], now) == attempts,
{
    assert(seq![slot].drop_last() =~= Seq::<Slot>::empty());
    assert(after_running(attempts, started, Seq::<Slot>::empty(), now) == attempts);
}

/// A leg is given up exactly behind its fifth respawn.
pub proof fn law_when_a_leg_is_given_up(attempts: Map<Seq<char>, u64>, id: Seq<char>)
    ensures
        given_up(attempts, id) <==> attempts.contains_key(id) && attempts[id] > 5,
        !attempts.contains_key(id) ==> count_of(attempts, id) == 0,
{
}

/// A local camera is a CSI one exactly where its source says `csi`, in any
/// letter case and with any whitespace around it, and a USB one otherwise.
pub proof fn law_the_class_of_a_local_camera(source: Seq<char>)
    ensures
        hinted_type(source) == CameraType::Csi <==> text::lowered(text::trimmed(source)) == "csi"@,
        hinted_type(source) == CameraType::Csi || hinted_type(source) == CameraType::Usb,
{
}

/// A leg is spawned exactly where it is a local secondary that does not run,
/// has not been given up and has a backend: `ffmpeg` serves each, GStreamer a
/// USB camera, and `rpicam-vid` a CSI one.
pub proof fn law_which_legs_are_spawned(
    leg: ResolvedLeg,
    running: bool,
    attempts: Map<Seq<char>, u64>,
    b: Backends,
)
    ensures
        spawnable(leg, running, attempts, b) ==> !leg.is_primary && !leg.is_network_pull
            && !running && !given_up(attempts, leg.id@),
        !leg.is_primary && !leg.is_network_pull && !running && !given_up(attempts, leg.id@)
            && b.ffmpeg ==> spawnable(leg, running, attempts, b),
        !leg.is_primary && !leg.is_network_pull && !running && !given_up(attempts, leg.id@)
            && hinted_type(leg.source@) == CameraType::Usb && b.gst_launch ==> spawnable(
            leg,
            running,
            attempts,
            b,
        ),
        !leg.is_primary && !leg.is_network_pull && !running && !given_up(attempts, leg.id@)
            && hinted_type(leg.source@) == CameraType::Csi && b.rpicam ==> spawnable(
            leg,
            running,
            attempts,
            b,
        ),
        !b.ffmpeg && !b.rpicam && !b.gst_launch ==> !spawnable(leg, running, attempts, b),
{
}

/// A leg is encoded at its own settings, without any orientation and without a
/// copy for the radio, and published at the path of its own id.
pub proof fn law_a_leg_is_encoded_at_its_settings(
    leg: ResolvedLeg,
    kind: EncoderKind,
    p: EncoderParams,
    rtsp_port: u16,
)
    requires
        is_leg_params(leg, kind, p),
    ensures
        p.kind == kind,
        p.width == leg.width && p.height == leg.height && p.fps == leg.fps && p.bitrate_kbps
            == leg.bitrate_kbps,
        p.codec@ == leg.codec@,
        p.encoder@ == "auto"@,
        p.rotation == 0 && !p.hflip && !p.vflip,
        p.keyframe_interval == 0,
        !p.rtp_fanout,
        leg_is_encodable(leg, rtsp_port) <==> leg.codec@ == "h264"@ && encoder::valid_source(
            leg.source@,
        ) && encoder::valid_source(
            "rtsp://localhost:"@ + text::decimal(rtsp_port as nat) + "/"@ + leg.id@,
        ),
{
}

/// The command of a leg takes its own source to its own path on this node.
pub proof fn law_a_leg_is_taken_to_its_path(
    leg: ResolvedLeg,
    kind: EncoderKind,
    rtsp_port: u16,
    env: EncoderEnv,
    cmd: Seq<Seq<char>>,
)
    requires
        encodes_leg(leg, kind, rtsp_port, env, cmd),
    ensures
        exists|p: EncoderParams, c: CameraInfo|
            {
                &&& p.kind == kind && p.width == leg.width && p.height == leg.height && p.fps
                    == leg.fps && p.bitrate_kbps == leg.bitrate_kbps
                &&& c.device_path@ == leg.source@ && c.capabilities@.len() == 0 && c.camera_type
                    == hinted_type(leg.source@)
                &&& cmd == #[trigger] command::encoder_command(
                    p,
                    leg.source@,
                    "rtsp://localhost:"@ + text::decimal(rtsp_port as nat) + "/"@ + leg.id@,
                    Some(&c),
                    env,
                )
            },
{
    let (p, c) = choose|p: EncoderParams, c: CameraInfo|
        is_leg_params(leg, kind, p) && is_leg_camera(leg, c) && cmd
            == #[trigger] command::encoder_command(
            p,
            leg.source@,
            tap::local_url(rtsp_port, leg.id@),
            Some(&c),
            env,
        );
    assert(tap::local_url(rtsp_port, leg.id@) == "rtsp://localhost:"@ + text::decimal(
        rtsp_port as nat,
    ) + "/"@ + leg.id@);
}

} // verus!
