//! The supervision of a running pipeline: health probes, restart ladders and
//! the retry from an error.
//!
//! The counters, deadlines and latches are one plain value, [`Vitals`]. Every
//! step is a function of that value and of what was observed: it changes the
//! value and names the next thing to do. Sleeping, probing and running
//! processes is up to the caller, who reports back with the next event.
use crate::health;
use crate::health::{
    backoff_delay, circuit_breaker_tripped, grace_decision, healthy_window_elapsed,
    inbound_decision, retry_cap, GraceDecision, InboundDecision, Nanos, PipelineState, StartError,
    BASE_RESTART_DELAY, CIRCUIT_BREAKER_ATTEMPTS, HEALTHY_RESET_WINDOW, HEALTH_CHECK_INTERVAL,
    MAX_RESTART_DELAY, WFB_TEE_RESTART_CEILING,
};
use crate::wfb_tee::{wfb_tee_progress_is_stale, WFB_TEE_PROGRESS_TIMEOUT};
use vstd::prelude::*;

verus! {

/// A rate of flow: `bytes` over the time `over`.
#[derive(Debug, Clone, Copy, PartialEq, Eq, Structural)]
pub struct Rate {
    pub bytes: u64,
    pub over: Nanos,
}

/// The state of the supervisor that is not a process.
#[derive(Debug, Clone, Copy, PartialEq, Eq, Structural)]
pub struct Vitals {
    pub state: PipelineState,
    pub started_at: Nanos,
    pub first_packet_seen: bool,
    /// The media server's inbound byte counter; negative before the first
    /// sample.
    pub inbound_bytes_value: i64,
    pub inbound_bytes_changed_at: Nanos,
    pub inbound_rate: Rate,
    /// When the present healthy run began; nothing while the next healthy
    /// probe is to begin one.
    pub last_healthy_at: Option<Nanos>,
    pub restart_count: u32,
    pub cloud_restart_count: u32,
    pub wfb_tee_restart_count: u32,
    pub vision_tap_restart_count: u32,
    pub last_start_error: StartError,
    /// The earliest instant at which the cloud push may be tried again. The
    /// cloud relay is the secondary path: it waits by this deadline and never
    /// by holding the tick, which would starve the radio.
    pub cloud_retry_after: Option<Nanos>,
}

/// What a health probe saw.
#[derive(Debug, Clone, Copy, PartialEq, Eq, Structural)]
pub struct Probe {
    /// There is an encoder and it has not exited.
    pub encoder_alive: bool,
    pub mediamtx_alive: bool,
    /// The media server has a publisher on the main path.
    pub path_ready: bool,
    /// The inbound byte counter of the main path, when it could be read.
    pub inbound: Option<u64>,
    pub now: Nanos,
}

/// What was seen of a tap.
#[derive(Debug, Clone, Copy, PartialEq, Eq, Structural)]
pub struct TapProbe {
    /// Whether the process still runs; nothing when there is none.
    pub running: Option<bool>,
    /// When it last made progress.
    pub last_progress: Nanos,
    /// The media server has a publisher on the main path.
    pub path_ready: bool,
    pub now: Nanos,
}

/// What the configuration switches on.
#[derive(Debug, Clone, Copy, PartialEq, Eq, Structural)]
pub struct Gates {
    pub cloud_enabled: bool,
    /// The decoupled vision tap is to run here.
    pub vision_supervised: bool,
    pub sei_latency: bool,
}

/// What a tick of a running pipeline learns, in order.
#[derive(Debug, Clone, Copy, PartialEq, Eq, Structural)]
pub enum TickEvent {
    /// The health probe. The camera state is refreshed after it, whatever
    /// comes next.
    Probed(Probe),
    /// A park has been slept through.
    Parked,
    /// The pipeline has been stopped and started again; whether it came up.
    Restarted(bool),
    /// Whether the cloud push runs, and the time; nothing when there is none.
    Cloud(Option<bool>, Nanos),
    /// What was left of the cloud push is gone.
    CloudReaped,
    /// The cloud push was started again; whether it came up, the delay it is
    /// owed if not, and the time.
    CloudRearmed(bool, Nanos, Nanos),
    /// The radio tap.
    Tee(TapProbe),
    /// The radio tap was started again; whether it came up.
    TeeRestarted(bool),
    /// The vision tap.
    Vision(TapProbe),
    /// The vision tap was started again; whether it came up.
    VisionRestarted(bool),
    /// Whether the latency tap runs; nothing when there is none.
    Sei(Option<bool>),
}

/// What a tick does next.
#[derive(Debug, Clone, Copy, PartialEq, Eq, Structural)]
pub enum TickAction {
    /// Sleep, and report `Parked`.
    Park { sleep: Nanos },
    /// Sleep, stop and start the pipeline, and report `Restarted`.
    Restart { sleep: Nanos },
    /// Report on the cloud push.
    CheckCloud,
    /// Reap the cloud push and report `CloudReaped`.
    ParkCloud,
    /// Reap the cloud push, start it again, and report `CloudRearmed` with
    /// this delay.
    RearmCloud { delay: Nanos },
    /// Report on the radio tap.
    CheckTee,
    /// Stop the radio tap: its source is down.
    StopTee,
    /// Stop the radio tap, sleep, start it, and report `TeeRestarted`.
    RestartTee { sleep: Nanos },
    /// Report on the vision tap.
    CheckVision,
    /// Stop the vision tap: its source is down.
    StopVision,
    /// Stop the vision tap, sleep, start it, and report `VisionRestarted`.
    RestartVision { sleep: Nanos },
    /// Report on the latency tap.
    CheckSei,
    /// Start the latency tap.
    StartSei,
    /// The tick is over.
    Done,
}

// ---------------------------------------------------------------------------
// health
// ---------------------------------------------------------------------------

/// The time from `since` to `now`; none when the clock went back.
pub open spec fn elapsed(since: Nanos, now: Nanos) -> Nanos {
    if now > since {
        (now - since) as Nanos
    } else {
        0
    }
}

/// A byte counter as a signed one: the upper half of its range wraps below
/// zero.
pub open spec fn signed_count(n: u64) -> int {
    if n <= i64::MAX {
        n as int
    } else {
        n - 0x1_0000_0000_0000_0000
    }
}

/// The stall watchdog over one reading of the byte counter. A counter that
/// cannot be read counts as healthy.
pub open spec fn flow_checked(v: Vitals, inbound: Option<u64>, now: Nanos) -> (Vitals, bool) {
    match inbound {
        None => (v, true),
        Some(n) => {
            let current = signed_count(n);
            let since = elapsed(v.inbound_bytes_changed_at, now);
            match health::inbound(
                v.inbound_bytes_value as int,
                current,
                since,
                HEALTH_CHECK_INTERVAL,
            ) {
                InboundDecision::Seed => (
                    Vitals {
                        inbound_bytes_value: current as i64,
                        inbound_bytes_changed_at: now,
                        ..v
                    },
                    true,
                ),
                InboundDecision::Advanced { bytes, over } => (
                    Vitals {
                        inbound_bytes_value: current as i64,
                        inbound_bytes_changed_at: now,
                        inbound_rate: Rate { bytes, over },
                        ..v
                    },
                    true,
                ),
                InboundDecision::WithinStall => (v, true),
                InboundDecision::Stalled => (
                    Vitals {
                        inbound_rate: Rate { bytes: 0, over: HEALTH_CHECK_INTERVAL },
                        ..v
                    },
                    false,
                ),
            }
        },
    }
}

/// One health probe: both processes alive, then the startup grace until the
/// first packet, then a publisher whose bytes advance.
pub open spec fn health_checked(v: Vitals, p: Probe) -> (Vitals, bool) {
    if !p.encoder_alive || !p.mediamtx_alive {
        (v, false)
    } else if !v.first_packet_seen {
        match health::grace(p.path_ready, elapsed(v.started_at, p.now) as int) {
            GraceDecision::FirstPacket => (Vitals { first_packet_seen: true, ..v }, true),
            GraceDecision::StillWaiting => (v, true),
            GraceDecision::Expired => (v, false),
        }
    } else if !p.path_ready {
        (v, false)
    } else {
        flow_checked(v, p.inbound, p.now)
    }
}

/// A healthy probe: it begins a healthy run, or clears the restart counter
/// once the run has lasted the window.
pub open spec fn healthy_noted(v: Vitals, now: Nanos) -> Vitals {
    match v.last_healthy_at {
        None => Vitals { last_healthy_at: Some(now), ..v },
        Some(since) => if v.restart_count > 0 && now - since > HEALTHY_RESET_WINDOW {
            Vitals { restart_count: 0, ..v }
        } else {
            v
        },
    }
}

/// The cloud push is as it should be. An absent one is, unless the relay is
/// configured and the pipeline runs: a restart of the pipeline clears it, and
/// it has to be brought back.
pub open spec fn cloud_is_healthy(state: PipelineState, enabled: bool, running: Option<bool>)
    -> bool {
    match running {
        None => !(enabled && state == PipelineState::Running),
        Some(up) => up,
    }
}

/// A tap is as it should be: running and making progress, or absent while the
/// pipeline does not run. One that is absent while the pipeline runs was put
/// off and has to be brought up.
pub open spec fn tap_is_healthy(state: PipelineState, p: TapProbe) -> bool {
    match p.running {
        None => state != PipelineState::Running,
        Some(up) => up && p.now - p.last_progress <= WFB_TEE_PROGRESS_TIMEOUT,
    }
}

/// The cloud push may be tried at `now`.
pub open spec fn cloud_is_due(v: Vitals, now: Nanos) -> bool {
    match v.cloud_retry_after {
        Some(deadline) => now >= deadline,
        None => true,
    }
}

/// What is left of a delay after the cadence of the ticks is taken off.
pub open spec fn before_tick(delay: nat) -> Nanos {
    if delay > HEALTH_CHECK_INTERVAL {
        (delay - HEALTH_CHECK_INTERVAL) as Nanos
    } else {
        0
    }
}

// ---------------------------------------------------------------------------
// one tick of a running pipeline
// ---------------------------------------------------------------------------

/// What follows once the radio tap is fine.
pub open spec fn past_tee(g: Gates) -> TickAction {
    if g.vision_supervised {
        TickAction::CheckVision
    } else {
        past_vision(g)
    }
}

/// What follows once the vision tap is fine.
pub open spec fn past_vision(g: Gates) -> TickAction {
    if g.sei_latency {
        TickAction::CheckSei
    } else {
        TickAction::Done
    }
}

/// The health probe of a tick. A healthy pipeline goes on to the cloud push,
/// or past it while its deadline is ahead. An unhealthy one is restarted after
/// a backoff; too many failures in a row park it.
pub open spec fn on_probe(v: Vitals, p: Probe) -> (Vitals, TickAction) {
    let (w, ok) = health_checked(v, p);
    if ok {
        let h = healthy_noted(w, p.now);
        (
            h,
            if cloud_is_due(h, p.now) {
                TickAction::CheckCloud
            } else {
                TickAction::CheckTee
            },
        )
    } else {
        let count = (w.restart_count + 1) as u32;
        let u = Vitals { last_healthy_at: None, restart_count: count, ..w };
        if count >= CIRCUIT_BREAKER_ATTEMPTS {
            (
                Vitals { state: PipelineState::Error, ..u },
                TickAction::Park { sleep: MAX_RESTART_DELAY },
            )
        } else {
            (
                u,
                TickAction::Restart {
                    sleep: before_tick(
                        health::backoff(
                            count as nat,
                            BASE_RESTART_DELAY as nat,
                            MAX_RESTART_DELAY as nat,
                        ),
                    ),
                },
            )
        }
    }
}

/// The cloud push of a tick. It is never slept on: an unhealthy push is
/// started again at once, or put off by a deadline.
pub open spec fn on_cloud(v: Vitals, enabled: bool, running: Option<bool>, now: Nanos) -> (
    Vitals,
    TickAction,
) {
    if cloud_is_healthy(v.state, enabled, running) {
        (
            Vitals { cloud_retry_after: None, cloud_restart_count: 0, ..v },
            TickAction::CheckTee,
        )
    } else {
        let count = (v.cloud_restart_count + 1) as u32;
        if count >= CIRCUIT_BREAKER_ATTEMPTS {
            (
                Vitals {
                    cloud_retry_after: Some((now + MAX_RESTART_DELAY) as Nanos),
                    cloud_restart_count: 0,
                    ..v
                },
                TickAction::ParkCloud,
            )
        } else {
            (
                Vitals { cloud_restart_count: count, ..v },
                TickAction::RearmCloud {
                    delay: health::backoff(
                        count as nat,
                        BASE_RESTART_DELAY as nat,
                        MAX_RESTART_DELAY as nat,
                    ) as Nanos,
                },
            )
        }
    }
}

/// The cloud push after it was started again.
pub open spec fn on_rearmed(v: Vitals, ok: bool, delay: Nanos, now: Nanos) -> Vitals {
    if ok {
        Vitals { cloud_retry_after: None, cloud_restart_count: 0, ..v }
    } else {
        Vitals { cloud_retry_after: Some((now + delay) as Nanos), ..v }
    }
}

/// How long to wait before the restart of a tap.
pub open spec fn tap_sleep(count: u32) -> Nanos {
    before_tick(
        health::backoff(
            count as nat,
            BASE_RESTART_DELAY as nat,
            WFB_TEE_RESTART_CEILING as nat,
        ),
    )
}

/// The radio tap of a tick. There is no circuit breaker: the radio is tried
/// for ever. While its source is down the restart is put off.
pub open spec fn on_tee(v: Vitals, g: Gates, p: TapProbe) -> (Vitals, TickAction) {
    if tap_is_healthy(v.state, p) {
        (v, past_tee(g))
    } else if !p.path_ready {
        (v, TickAction::StopTee)
    } else {
        let count = (v.wfb_tee_restart_count + 1) as u32;
        (
            Vitals { wfb_tee_restart_count: count, ..v },
            TickAction::RestartTee { sleep: tap_sleep(count) },
        )
    }
}

/// The vision tap of a tick, on the same ladder as the radio tap.
pub open spec fn on_vision(v: Vitals, g: Gates, p: TapProbe) -> (Vitals, TickAction) {
    if tap_is_healthy(v.state, p) {
        (v, past_vision(g))
    } else if !p.path_ready {
        (v, TickAction::StopVision)
    } else {
        let count = (v.vision_tap_restart_count + 1) as u32;
        (
            Vitals { vision_tap_restart_count: count, ..v },
            TickAction::RestartVision { sleep: tap_sleep(count) },
        )
    }
}

/// What an event of a tick leads to.
pub open spec fn ticked(v: Vitals, g: Gates, e: TickEvent) -> (Vitals, TickAction) {
    match e {
        TickEvent::Probed(p) => on_probe(v, p),
        TickEvent::Parked => (Vitals { restart_count: 0, ..v }, TickAction::Done),
        TickEvent::Restarted(ok) => (
            Vitals {
                restart_count: if ok {
                    0
                } else {
                    v.restart_count
                },
                ..v
            },
            TickAction::Done,
        ),
        TickEvent::Cloud(running, now) => on_cloud(v, g.cloud_enabled, running, now),
        TickEvent::CloudReaped => (v, TickAction::CheckTee),
        TickEvent::CloudRearmed(ok, delay, now) => (
            on_rearmed(v, ok, delay, now),
            TickAction::CheckTee,
        ),
        TickEvent::Tee(p) => on_tee(v, g, p),
        TickEvent::TeeRestarted(up) => (
            Vitals {
                wfb_tee_restart_count: if up {
                    0
                } else {
                    v.wfb_tee_restart_count
                },
                ..v
            },
            TickAction::Done,
        ),
        TickEvent::Vision(p) => on_vision(v, g, p),
        TickEvent::VisionRestarted(up) => (
            Vitals {
                vision_tap_restart_count: if up {
                    0
                } else {
                    v.vision_tap_restart_count
                },
                ..v
            },
            TickAction::Done,
        ),
        TickEvent::Sei(running) => (
            v,
            if g.sei_latency && running != Some(true) {
                TickAction::StartSei
            } else {
                TickAction::Done
            },
        ),
    }
}

/// The counters and the clock leave room for one more step.
pub open spec fn has_room(v: Vitals, e: TickEvent) -> bool {
    match e {
        TickEvent::Probed(_) => v.restart_count < u32::MAX,
        TickEvent::Cloud(_, now) => v.cloud_restart_count < u32::MAX && now + MAX_RESTART_DELAY
            <= u64::MAX,
        TickEvent::CloudRearmed(_, delay, now) => now + delay <= u64::MAX,
        TickEvent::Tee(_) => v.wfb_tee_restart_count < u32::MAX,
        TickEvent::Vision(_) => v.vision_tap_restart_count < u32::MAX,
        _ => true,
    }
}

// ---------------------------------------------------------------------------
// the retry from an error
// ---------------------------------------------------------------------------

/// What the retry from an error does next.
#[derive(Debug, Clone, Copy, PartialEq, Eq, Structural)]
pub enum RetryAction {
    /// Refresh the camera state, sleep, and give up for this round.
    GiveUp { sleep: Nanos, wake_on_camera: bool },
    /// Refresh the camera state, sleep, and start the pipeline.
    Start { sleep: Nanos, wake_on_camera: bool },
}

/// The retry from an error: a backoff whose cap depends on the error, cut
/// short by a camera that is plugged in where it was a camera that lacked.
pub open spec fn retried(v: Vitals) -> (Vitals, RetryAction) {
    let count = (v.restart_count + 1) as u32;
    let cap = health::cap_for(v.last_start_error);
    let wake_on_camera = v.last_start_error == StartError::NoPrimaryCamera;
    (
        Vitals { restart_count: count, ..v },
        if count >= CIRCUIT_BREAKER_ATTEMPTS {
            RetryAction::GiveUp { sleep: cap, wake_on_camera }
        } else {
            RetryAction::Start {
                sleep: before_tick(
                    health::backoff(count as nat, BASE_RESTART_DELAY as nat, cap as nat),
                ),
                wake_on_camera,
            }
        },
    )
}

/// Which part of the supervisor a tick belongs to.
#[derive(Debug, Clone, Copy, PartialEq, Eq, Structural)]
pub enum TickKind {
    /// Supervise the running pipeline.
    Supervise,
    /// Try to leave the error.
    Retry,
    /// A start is under way.
    Wait,
}

/// What is left of a delay after the cadence of the ticks is taken off.
fn pre_delay(delay: Nanos) -> (r: Nanos)
    ensures
        r == before_tick(delay as nat),
{
    if delay > HEALTH_CHECK_INTERVAL {
        delay - HEALTH_CHECK_INTERVAL
    } else {
        0
    }
}

/// The time from `since` to `now`; none when the clock went back.
fn saturating_since(since: Nanos, now: Nanos) -> (r: Nanos)
    ensures
        r == elapsed(since, now),
{
    if now > since {
        now - since
    } else {
        0
    }
}

/// A byte counter as a signed one.
fn to_signed(n: u64) -> (r: i64)
    ensures
        r == signed_count(n),
{
    if n <= i64::MAX as u64 {
        n as i64
    } else {
        -((u64::MAX - n) as i64) - 1
    }
}

/// The cloud push is as it should be.
pub fn check_cloud_push_health(state: PipelineState, enabled: bool, running: Option<bool>) -> (r:
    bool)
    ensures
        r == cloud_is_healthy(state, enabled, running),
{
    match running {
        None => !(enabled && state == PipelineState::Running),
        Some(up) => up,
    }
}

/// A tap is alive and at work, or absent while the pipeline does not run.
pub fn check_tap_health(state: PipelineState, p: TapProbe) -> (r: bool)
    ensures
        r == tap_is_healthy(state, p),
{
    match p.running {
        None => state != PipelineState::Running,
        Some(up) => up && !wfb_tee_progress_is_stale(p.last_progress, p.now),
    }
}

/// The state of a supervisor whose pipeline has not been started.
pub open spec fn idle_vitals(now: Nanos) -> Vitals {
    Vitals {
        state: PipelineState::Stopped,
        started_at: now,
        first_packet_seen: false,
        inbound_bytes_value: (-1) as i64,
        inbound_bytes_changed_at: now,
        inbound_rate: Rate { bytes: 0, over: HEALTH_CHECK_INTERVAL },
        last_healthy_at: None,
        restart_count: 0,
        cloud_restart_count: 0,
        wfb_tee_restart_count: 0,
        vision_tap_restart_count: 0,
        last_start_error: StartError::NoError,
        cloud_retry_after: None,
    }
}

impl Vitals {
    /// A supervisor whose pipeline has not been started.
    pub fn new(now: Nanos) -> (r: Self)
        ensures
            r == idle_vitals(now),
    {
        Vitals {
            state: PipelineState::Stopped,
            started_at: now,
            first_packet_seen: false,
            inbound_bytes_value: -1,
            inbound_bytes_changed_at: now,
            inbound_rate: Rate { bytes: 0, over: HEALTH_CHECK_INTERVAL },
            last_healthy_at: None,
            restart_count: 0,
            cloud_restart_count: 0,
            wfb_tee_restart_count: 0,
            vision_tap_restart_count: 0,
            last_start_error: StartError::NoError,
            cloud_retry_after: None,
        }
    }

    /// Which part of the supervisor the next tick belongs to.
    pub fn tick_once(&self) -> (r: TickKind)
        ensures
            r == (match self.state {
                PipelineState::Running => TickKind::Supervise,
                PipelineState::Error | PipelineState::Stopped => TickKind::Retry,
                PipelineState::Starting => TickKind::Wait,
            }),
            r == TickKind::Supervise <==> self.state == PipelineState::Running,
            r == TickKind::Wait <==> self.state == PipelineState::Starting,
    {
        match self.state {
            PipelineState::Running => TickKind::Supervise,
            PipelineState::Error | PipelineState::Stopped => TickKind::Retry,
            PipelineState::Starting => TickKind::Wait,
        }
    }

    /// The stall watchdog over one reading of the byte counter.
    fn check_inbound_flow_healthy(&mut self, inbound: Option<u64>, now: Nanos) -> (r: bool)
        ensures
            (*final(self), r) == flow_checked(*old(self), inbound, now),
    {
        match inbound {
            None => true,
            Some(n) => {
                let current: i64 = to_signed(n);
                let since: Nanos = saturating_since(self.inbound_bytes_changed_at, now);
                match inbound_decision(
                    self.inbound_bytes_value,
                    current,
                    since,
                    HEALTH_CHECK_INTERVAL,
                ) {
                    InboundDecision::Seed => {
                        self.inbound_bytes_value = current;
                        self.inbound_bytes_changed_at = now;
                        true
                    },
                    InboundDecision::Advanced { bytes, over } => {
                        self.inbound_rate = Rate { bytes, over };
                        self.inbound_bytes_value = current;
                        self.inbound_bytes_changed_at = now;
                        true
                    },
                    InboundDecision::WithinStall => true,
                    InboundDecision::Stalled => {
                        self.inbound_rate = Rate { bytes: 0, over: HEALTH_CHECK_INTERVAL };
                        false
                    },
                }
            },
        }
    }

    /// One health probe.
    pub fn check_health(&mut self, p: Probe) -> (r: bool)
        ensures
            (*final(self), r) == health_checked(*old(self), p),
    {
        if !p.encoder_alive || !p.mediamtx_alive {
            return false;
        }
        if !self.first_packet_seen {
            return match grace_decision(p.path_ready, saturating_since(self.started_at, p.now)) {
                GraceDecision::FirstPacket => {
                    self.first_packet_seen = true;
                    true
                },
                GraceDecision::StillWaiting => true,
                GraceDecision::Expired => false,
            };
        }
        if !p.path_ready {
            return false;
        }
        self.check_inbound_flow_healthy(p.inbound, p.now)
    }

    /// Note a healthy probe. The first one after an unhealthy one only begins
    /// the run; the counter clears once the run has lasted the window.
    pub fn note_healthy_tick(&mut self, now: Nanos)
        ensures
            *final(self) == healthy_noted(*old(self), now),
    {
        match self.last_healthy_at {
            None => {
                self.last_healthy_at = Some(now);
            },
            Some(since) => {
                if self.restart_count > 0 && healthy_window_elapsed(since, now) {
                    self.restart_count = 0;
                }
            },
        }
    }

    /// Note an unhealthy probe: the healthy run has to begin again.
    pub fn note_unhealthy_tick(&mut self)
        ensures
            *final(self) == (Vitals { last_healthy_at: None, ..*old(self) }),
    {
        self.last_healthy_at = None;
    }

    /// The cloud push may be tried at `now`.
    pub fn cloud_due(&self, now: Nanos) -> (r: bool)
        ensures
            r == cloud_is_due(*self, now),
    {
        match self.cloud_retry_after {
            Some(deadline) => now >= deadline,
            None => true,
        }
    }

    fn tick_probe(&mut self, p: Probe) -> (r: TickAction)
        requires
            old(self).restart_count < u32::MAX,
        ensures
            (*final(self), r) == on_probe(*old(self), p),
    {
        if self.check_health(p) {
            self.note_healthy_tick(p.now);
            return if self.cloud_due(p.now) {
                TickAction::CheckCloud
            } else {
                TickAction::CheckTee
            };
        }
        self.note_unhealthy_tick();
        self.restart_count = self.restart_count + 1;
        if circuit_breaker_tripped(self.restart_count) {
            self.state = PipelineState::Error;
            TickAction::Park { sleep: MAX_RESTART_DELAY }
        } else {
            let delay: Nanos = backoff_delay(
                self.restart_count,
                BASE_RESTART_DELAY,
                MAX_RESTART_DELAY,
            );
            TickAction::Restart { sleep: pre_delay(delay) }
        }
    }

    /// The cloud push of a tick. It never sleeps, whatever it finds.
    pub fn tick_cloud_push(&mut self, enabled: bool, running: Option<bool>, now: Nanos) -> (r:
        TickAction)
        requires
            old(self).cloud_restart_count < u32::MAX,
            now + MAX_RESTART_DELAY <= u64::MAX,
        ensures
            (*final(self), r) == on_cloud(*old(self), enabled, running, now),
    {
        if check_cloud_push_health(self.state, enabled, running) {
            self.cloud_retry_after = None;
            self.cloud_restart_count = 0;
            return TickAction::CheckTee;
        }
        let count: u32 = self.cloud_restart_count + 1;
        if circuit_breaker_tripped(count) {
            self.cloud_retry_after = Some(now + MAX_RESTART_DELAY);
            self.cloud_restart_count = 0;
            TickAction::ParkCloud
        } else {
            self.cloud_restart_count = count;
            TickAction::RearmCloud {
                delay: backoff_delay(count, BASE_RESTART_DELAY, MAX_RESTART_DELAY),
            }
        }
    }

    fn tick_tee(&mut self, g: Gates, p: TapProbe) -> (r: TickAction)
        requires
            old(self).wfb_tee_restart_count < u32::MAX,
        ensures
            (*final(self), r) == on_tee(*old(self), g, p),
    {
        if check_tap_health(self.state, p) {
            if g.vision_supervised {
                TickAction::CheckVision
            } else if g.sei_latency {
                TickAction::CheckSei
            } else {
                TickAction::Done
            }
        } else if !p.path_ready {
            TickAction::StopTee
        } else {
            self.wfb_tee_restart_count = self.wfb_tee_restart_count + 1;
            let delay: Nanos = backoff_delay(
                self.wfb_tee_restart_count,
                BASE_RESTART_DELAY,
                WFB_TEE_RESTART_CEILING,
            );
            TickAction::RestartTee { sleep: pre_delay(delay) }
        }
    }

    fn tick_vision(&mut self, g: Gates, p: TapProbe) -> (r: TickAction)
        requires
            old(self).vision_tap_restart_count < u32::MAX,
        ensures
            (*final(self), r) == on_vision(*old(self), g, p),
    {
        if check_tap_health(self.state, p) {
            if g.sei_latency {
                TickAction::CheckSei
            } else {
                TickAction::Done
            }
        } else if !p.path_ready {
            TickAction::StopVision
        } else {
            self.vision_tap_restart_count = self.vision_tap_restart_count + 1;
            let delay: Nanos = backoff_delay(
                self.vision_tap_restart_count,
                BASE_RESTART_DELAY,
                WFB_TEE_RESTART_CEILING,
            );
            TickAction::RestartVision { sleep: pre_delay(delay) }
        }
    }

    /// One step of a tick of a running pipeline: health, then the cloud push,
    /// then the radio tap, then the vision tap, then the latency tap, each with
    /// a cadence of its own.
    pub fn tick_running(&mut self, g: Gates, e: TickEvent) -> (r: TickAction)
        requires
            has_room(*old(self), e),
        ensures
            (*final(self), r) == ticked(*old(self), g, e),
    {
        match e {
            TickEvent::Probed(p) => self.tick_probe(p),
            TickEvent::Parked => {
                self.restart_count = 0;
                TickAction::Done
            },
            TickEvent::Restarted(ok) => {
                if ok {
                    self.restart_count = 0;
                }
                TickAction::Done
            },
            TickEvent::Cloud(running, now) => self.tick_cloud_push(g.cloud_enabled, running, now),
            TickEvent::CloudReaped => TickAction::CheckTee,
            TickEvent::CloudRearmed(ok, delay, now) => {
                if ok {
                    self.cloud_retry_after = None;
                    self.cloud_restart_count = 0;
                } else {
                    self.cloud_retry_after = Some(now + delay);
                }
                TickAction::CheckTee
            },
            TickEvent::Tee(p) => self.tick_tee(g, p),
            TickEvent::TeeRestarted(up) => {
                if up {
                    self.wfb_tee_restart_count = 0;
                }
                TickAction::Done
            },
            TickEvent::Vision(p) => self.tick_vision(g, p),
            TickEvent::VisionRestarted(up) => {
                if up {
                    self.vision_tap_restart_count = 0;
                }
                TickAction::Done
            },
            TickEvent::Sei(running) => {
                let up = match running {
                    Some(b) => b,
                    None => false,
                };
                if g.sei_latency && !up {
                    TickAction::StartSei
                } else {
                    TickAction::Done
                }
            },
        }
    }

    /// Begin a retry from an error.
    pub fn tick_retry_from_error(&mut self) -> (r: RetryAction)
        requires
            old(self).restart_count < u32::MAX,
        ensures
            (*final(self), r) == retried(*old(self)),
    {
        self.restart_count = self.restart_count + 1;
        let cap: Nanos = retry_cap(self.last_start_error);
        let wake_on_camera = self.last_start_error == StartError::NoPrimaryCamera;
        if circuit_breaker_tripped(self.restart_count) {
            RetryAction::GiveUp { sleep: cap, wake_on_camera }
        } else {
            let delay: Nanos = backoff_delay(self.restart_count, BASE_RESTART_DELAY, cap);
            RetryAction::Start { sleep: pre_delay(delay), wake_on_camera }
        }
    }

    /// End a retry: after a round that was given up, or a start that came up,
    /// the count begins again.
    pub fn retry_ended(&mut self, given_up: bool, started: bool)
        ensures
            *final(self) == (Vitals {
                restart_count: if given_up || started {
                    0
                } else {
                    old(self).restart_count
                },
                ..*old(self)
            }),
            given_up || started ==> final(self).restart_count == 0,
            !given_up && !started ==> *final(self) == *old(self),
    {
        if given_up || started {
            self.restart_count = 0;
        }
    }
}

// ---------------------------------------------------------------------------
// laws
// ---------------------------------------------------------------------------

/// The cloud push never holds the radio up: whatever is found of it, the tick
/// does not sleep on it, does not end on it, and goes on to the radio tap.
pub proof fn law_the_cloud_never_starves_the_radio(
    v: Vitals,
    g: Gates,
    running: Option<bool>,
    now: Nanos,
    ok: bool,
    delay: Nanos,
)
    ensures
        ({
            let a = ticked(v, g, TickEvent::Cloud(running, now)).1;
            a == TickAction::CheckTee || a == TickAction::ParkCloud || a is RearmCloud
        }),
        ticked(v, g, TickEvent::CloudReaped).1 == TickAction::CheckTee,
        ticked(v, g, TickEvent::CloudRearmed(ok, delay, now)).1 == TickAction::CheckTee,
{
}

/// The cloud push touches nothing of the supervisor but its own counter and
/// deadline.
pub proof fn law_the_cloud_keeps_to_itself(
    v: Vitals,
    g: Gates,
    running: Option<bool>,
    now: Nanos,
    ok: bool,
    delay: Nanos,
)
    ensures
        ({
            let a = ticked(v, g, TickEvent::Cloud(running, now)).0;
            v == (Vitals {
                cloud_retry_after: v.cloud_retry_after,
                cloud_restart_count: v.cloud_restart_count,
                ..a
            })
        }),
        ({
            let b = ticked(v, g, TickEvent::CloudRearmed(ok, delay, now)).0;
            v == (Vitals {
                cloud_retry_after: v.cloud_retry_after,
                cloud_restart_count: v.cloud_restart_count,
                ..b
            })
        }),
{
}

/// A parked cloud push is passed over until its deadline: a healthy probe
/// before it goes straight to the radio tap, one at or after it does not.
pub proof fn law_a_parked_cloud_is_passed_over(v: Vitals, p: Probe, deadline: Nanos)
    requires
        health_checked(v, p).1,
        v.cloud_retry_after == Some(deadline),
    ensures
        on_probe(v, p).1 == (if p.now < deadline {
            TickAction::CheckTee
        } else {
            TickAction::CheckCloud
        }),
{
}

/// The radio is tried for ever: an unhealthy tap whose source is up is always
/// restarted, and the tick never sleeps for it.
pub proof fn law_the_radio_is_retried_for_ever(v: Vitals, g: Gates, p: TapProbe)
    requires
        !tap_is_healthy(v.state, p),
        p.path_ready,
        v.wfb_tee_restart_count < u32::MAX,
    ensures
        ticked(v, g, TickEvent::Tee(p)).1 == (TickAction::RestartTee { sleep: 0 }),
{
    health::law_backoff_is_capped(
        (v.wfb_tee_restart_count + 1) as nat,
        BASE_RESTART_DELAY as nat,
        WFB_TEE_RESTART_CEILING as nat,
    );
}

/// Nothing is started against a source that is down.
pub proof fn law_no_tap_against_a_dead_source(v: Vitals, g: Gates, p: TapProbe)
    requires
        !p.path_ready,
    ensures
        !(ticked(v, g, TickEvent::Tee(p)).1 is RestartTee),
        !(ticked(v, g, TickEvent::Vision(p)).1 is RestartVision),
{
}

/// The vision tap never touches what the encoder, the cloud push and the radio
/// are judged by.
pub proof fn law_vision_keeps_to_itself(v: Vitals, g: Gates, p: TapProbe, up: bool)
    ensures
        ({
            let a = ticked(v, g, TickEvent::Vision(p)).0;
            v == (Vitals { vision_tap_restart_count: v.vision_tap_restart_count, ..a })
        }),
        ({
            let b = ticked(v, g, TickEvent::VisionRestarted(up)).0;
            v == (Vitals { vision_tap_restart_count: v.vision_tap_restart_count, ..b })
        }),
{
}

/// A pipeline that is not yet at the breaker is restarted; one that reaches it
/// is parked in the error state, for the longest delay, and counts from zero
/// afterwards. Between ticks the counter stays below the breaker.
pub proof fn law_the_breaker_bounds_the_count(v: Vitals, g: Gates, p: Probe, ok: bool)
    requires
        v.restart_count < CIRCUIT_BREAKER_ATTEMPTS,
    ensures
        ({
            let (w, a) = ticked(v, g, TickEvent::Probed(p));
            match a {
                TickAction::Park { sleep } => {
                    &&& w.restart_count == CIRCUIT_BREAKER_ATTEMPTS
                    &&& w.state == PipelineState::Error
                    &&& sleep == MAX_RESTART_DELAY
                    &&& ticked(w, g, TickEvent::Parked).0.restart_count == 0
                },
                TickAction::Restart { sleep } => {
                    &&& w.restart_count == v.restart_count + 1
                    &&& w.restart_count < CIRCUIT_BREAKER_ATTEMPTS
                    &&& w.state == v.state
                    &&& sleep < MAX_RESTART_DELAY
                    &&& ticked(w, g, TickEvent::Restarted(ok)).0.restart_count
                        < CIRCUIT_BREAKER_ATTEMPTS
                },
                _ => w.restart_count <= v.restart_count,
            }
        }),
{
    health::law_backoff_is_capped(
        (v.restart_count + 1) as nat,
        BASE_RESTART_DELAY as nat,
        MAX_RESTART_DELAY as nat,
    );
}

/// A retry keeps the counter below the breaker, and never sleeps longer than
/// the cap of its error; only a missing camera makes it listen for one.
pub proof fn law_a_retry_is_bounded(v: Vitals, started: bool)
    requires
        v.restart_count < CIRCUIT_BREAKER_ATTEMPTS,
    ensures
        ({
            let (w, a) = retried(v);
            match a {
                RetryAction::GiveUp { sleep, wake_on_camera } => {
                    &&& w.restart_count == CIRCUIT_BREAKER_ATTEMPTS
                    &&& sleep == health::cap_for(v.last_start_error)
                    &&& wake_on_camera == (v.last_start_error == StartError::NoPrimaryCamera)
                },
                RetryAction::Start { sleep, wake_on_camera } => {
                    &&& w.restart_count == v.restart_count + 1 < CIRCUIT_BREAKER_ATTEMPTS
                    &&& sleep <= health::cap_for(v.last_start_error)
                    &&& wake_on_camera == (v.last_start_error == StartError::NoPrimaryCamera)
                },
            }
        }),
{
    health::law_backoff_is_capped(
        (v.restart_count + 1) as nat,
        BASE_RESTART_DELAY as nat,
        health::cap_for(v.last_start_error) as nat,
    );
}

/// The restart counter clears on health alone only when the run has been
/// healthy for longer than the window, with no unhealthy probe in between: an
/// unhealthy probe makes the run begin again.
pub proof fn law_the_count_clears_after_a_healthy_window(v: Vitals, now: Nanos)
    requires
        v.restart_count > 0,
    ensures
        healthy_noted(v, now).restart_count == 0 <==> v.last_healthy_at is Some && now
            - v.last_healthy_at->0 > HEALTHY_RESET_WINDOW,
        healthy_noted(Vitals { last_healthy_at: None, ..v }, now).restart_count == v.restart_count,
        healthy_noted(Vitals { last_healthy_at: None, ..v }, now).last_healthy_at == Some(now),
{
}

/// A byte counter that cannot be read, and one that advances, never make a
/// pipeline unhealthy.
pub proof fn law_flowing_is_healthy(v: Vitals, n: u64, now: Nanos)
    ensures
        flow_checked(v, None, now) == (v, true),
        signed_count(n) > v.inbound_bytes_value >= 0 ==> flow_checked(v, Some(n), now).1,
{
}

/// A probe that finds the encoder dead or the media server dead is unhealthy,
/// whatever else it saw: it changes nothing that health is judged by, and the
/// tick restarts the pipeline or parks it.
pub proof fn law_a_dead_process_is_unhealthy(v: Vitals, g: Gates, p: Probe)
    requires
        !p.encoder_alive || !p.mediamtx_alive,
    ensures
        health_checked(v, p) == (v, false),
        ({
            let a = ticked(v, g, TickEvent::Probed(p)).1;
            a is Restart || a is Park
        }),
{
}

/// When a pipeline is healthy: both processes live, and either the first packet
/// is still owed within half a minute of the start, or there is a publisher
/// and its bytes have not stood still for twelve seconds.
pub proof fn law_what_healthy_means(v: Vitals, p: Probe)
    ensures
        health_checked(v, p).1 <==> p.encoder_alive && p.mediamtx_alive && (if v.first_packet_seen {
            p.path_ready && (p.inbound is None || v.inbound_bytes_value < 0 || signed_count(
                p.inbound->0,
            ) > v.inbound_bytes_value || p.now - v.inbound_bytes_changed_at < 12_000_000_000)
        } else {
            p.path_ready || p.now - v.started_at < 30_000_000_000
        }),
{
}

/// What a probe leaves behind: the first packet is noted once both processes
/// live and there is a publisher, and is never forgotten; a byte counter is
/// noted with its time when it moved or is the first; nothing else changes.
pub proof fn law_what_a_probe_notes(v: Vitals, p: Probe)
    ensures
        ({
            let w = health_checked(v, p).0;
            let live = p.encoder_alive && p.mediamtx_alive && p.path_ready;
            let moved = live && v.first_packet_seen && p.inbound is Some && (v.inbound_bytes_value
                < 0 || signed_count(p.inbound->0) > v.inbound_bytes_value);
            &&& w.first_packet_seen <==> v.first_packet_seen || live
            &&& moved ==> w.inbound_bytes_value == signed_count(p.inbound->0)
                && w.inbound_bytes_changed_at == p.now
            &&& !moved ==> w.inbound_bytes_value == v.inbound_bytes_value
                && w.inbound_bytes_changed_at == v.inbound_bytes_changed_at
            &&& moved && v.inbound_bytes_value >= 0 ==> v.inbound_bytes_value + w.inbound_rate.bytes
                == w.inbound_bytes_value && w.inbound_rate.over >= 5_000_000_000
            &&& v == (Vitals {
                first_packet_seen: v.first_packet_seen,
                inbound_bytes_value: v.inbound_bytes_value,
                inbound_bytes_changed_at: v.inbound_bytes_changed_at,
                inbound_rate: v.inbound_rate,
                ..w
            })
        }),
{
}

/// A stalled flow has the rate zero.
pub proof fn law_a_stall_has_no_rate(v: Vitals, p: Probe)
    requires
        p.encoder_alive && p.mediamtx_alive && p.path_ready && v.first_packet_seen,
        !health_checked(v, p).1,
    ensures
        health_checked(v, p).0.inbound_rate.bytes == 0,
{
}

/// A healthy probe restarts nothing and counts nothing up; an unhealthy one
/// counts one failure, begins the healthy run anew, and leaves the state alone
/// below the breaker.
pub proof fn law_only_failures_count(v: Vitals, g: Gates, p: Probe)
    requires
        v.restart_count < u32::MAX,
    ensures
        ({
            let (w, a) = ticked(v, g, TickEvent::Probed(p));
            let ok = health_checked(v, p).1;
            &&& ok ==> (a == TickAction::CheckCloud || a == TickAction::CheckTee) && w.restart_count
                <= v.restart_count && w.state == v.state
            &&& !ok ==> w.restart_count == v.restart_count + 1 && w.last_healthy_at is None
            &&& !ok && v.restart_count + 1 < 10 ==> a is Restart && w.state == v.state
            &&& !ok && v.restart_count + 1 >= 10 ==> a == (TickAction::Park {
                sleep: 300_000_000_000,
            }) && w.state == PipelineState::Error
        }),
{
}

/// How long a restart waits: the backoff of its attempt, from five seconds
/// doubling up to five minutes, less the five seconds of the tick.
pub proof fn law_how_long_a_restart_waits(v: Vitals, g: Gates, p: Probe)
    requires
        v.restart_count < u32::MAX,
        ticked(v, g, TickEvent::Probed(p)).1 is Restart,
    ensures
        ticked(v, g, TickEvent::Probed(p)).1 matches TickAction::Restart { sleep } && sleep
            + 5_000_000_000 == health::backoff(
            (v.restart_count + 1) as nat,
            5_000_000_000,
            300_000_000_000,
        ),
{
    health::law_backoff_is_monotone(
        1,
        (v.restart_count + 1) as nat,
        5_000_000_000,
        300_000_000_000,
    );
    health::law_backoff_is_capped((v.restart_count + 1) as nat, 5_000_000_000, 300_000_000_000);
}

/// A pipeline that came up, and a park that was slept through, clear the count;
/// one that did not come up keeps it. Both end the tick.
pub proof fn law_what_clears_the_count(v: Vitals, g: Gates)
    ensures
        ticked(v, g, TickEvent::Restarted(true)) == (
            Vitals { restart_count: 0, ..v },
            TickAction::Done,
        ),
        ticked(v, g, TickEvent::Restarted(false)) == (v, TickAction::Done),
        ticked(v, g, TickEvent::Parked) == (Vitals { restart_count: 0, ..v }, TickAction::Done),
{
}

/// When the cloud push is left alone: it runs, or there is none and none is
/// owed, because the relay is not configured or the pipeline does not run.
/// Then its count and its deadline are cleared; otherwise it is started again
/// after a backoff, or, with the tenth failure, parked for five minutes.
pub proof fn law_the_cloud_ladder(v: Vitals, g: Gates, running: Option<bool>, now: Nanos)
    requires
        v.cloud_restart_count < u32::MAX,
        now + 300_000_000_000 <= u64::MAX,
    ensures
        ({
            let (w, a) = ticked(v, g, TickEvent::Cloud(running, now));
            let fine = running == Some(true) || (running is None && (!g.cloud_enabled || v.state
                != PipelineState::Running));
            &&& a == TickAction::CheckTee <==> fine
            &&& fine ==> w.cloud_retry_after is None && w.cloud_restart_count == 0
            &&& !fine && v.cloud_restart_count + 1 >= 10 ==> a == TickAction::ParkCloud
                && w.cloud_restart_count == 0 && w.cloud_retry_after == Some(
                (now + 300_000_000_000) as Nanos,
            )
            &&& !fine && v.cloud_restart_count + 1 < 10 ==> w.cloud_restart_count
                == v.cloud_restart_count + 1 && w.cloud_retry_after == v.cloud_retry_after && (
            a matches TickAction::RearmCloud { delay } && delay == health::backoff(
                (v.cloud_restart_count + 1) as nat,
                5_000_000_000,
                300_000_000_000,
            ))
        }),
{
    health::law_backoff_is_capped(
        (v.cloud_restart_count + 1) as nat,
        5_000_000_000,
        300_000_000_000,
    );
}

/// A cloud push that came up is forgotten about; one that did not waits for its
/// delay from now on, and keeps its count.
pub proof fn law_a_failed_rearm_waits(v: Vitals, g: Gates, delay: Nanos, now: Nanos)
    requires
        now + delay <= u64::MAX,
    ensures
        ticked(v, g, TickEvent::CloudRearmed(true, delay, now)).0 == (Vitals {
            cloud_retry_after: None,
            cloud_restart_count: 0,
            ..v
        }),
        ({
            let w = ticked(v, g, TickEvent::CloudRearmed(false, delay, now)).0;
            &&& w.cloud_retry_after matches Some(t) && t == now + delay
            &&& w.cloud_restart_count == v.cloud_restart_count
            &&& !cloud_is_due(w, now) || delay == 0
        }),
        ticked(v, g, TickEvent::CloudReaped).0 == v,
{
}

/// When a tap is left alone: it runs and made progress within fifteen seconds,
/// or there is none and the pipeline does not run.
pub proof fn law_a_tap_works_or_is_not_owed(v: Vitals, g: Gates, p: TapProbe)
    requires
        v.wfb_tee_restart_count < u32::MAX,
        v.vision_tap_restart_count < u32::MAX,
    ensures
        ({
            let fine = (p.running == Some(true) && p.now - p.last_progress <= 15_000_000_000) || (
            p.running is None && v.state != PipelineState::Running);
            let (w, a) = ticked(v, g, TickEvent::Tee(p));
            let (x, b) = ticked(v, g, TickEvent::Vision(p));
            &&& a is StopTee <==> !fine && !p.path_ready
            &&& a is RestartTee <==> !fine && p.path_ready
            &&& b is StopVision <==> !fine && !p.path_ready
            &&& b is RestartVision <==> !fine && p.path_ready
            &&& fine || !p.path_ready ==> w == v && x == v
            &&& !fine && p.path_ready ==> w == (Vitals {
                wfb_tee_restart_count: (v.wfb_tee_restart_count + 1) as u32,
                ..v
            }) && x == (Vitals {
                vision_tap_restart_count: (v.vision_tap_restart_count + 1) as u32,
                ..v
            })
        }),
{
}

/// What follows in a tick: behind the radio tap the vision tap where it is
/// supervised, behind that the latency tap where latency is measured, and
/// behind that nothing. A tap that was restarted ends the tick.
pub proof fn law_the_order_of_a_tick(v: Vitals, g: Gates, p: TapProbe, running: Option<bool>)
    requires
        p.running == Some(true) && p.now == p.last_progress,
    ensures
        ticked(v, g, TickEvent::Tee(p)).1 == (if g.vision_supervised {
            TickAction::CheckVision
        } else if g.sei_latency {
            TickAction::CheckSei
        } else {
            TickAction::Done
        }),
        ticked(v, g, TickEvent::Vision(p)).1 == (if g.sei_latency {
            TickAction::CheckSei
        } else {
            TickAction::Done
        }),
        ticked(v, g, TickEvent::Sei(running)) == (
            v,
            if g.sei_latency && running != Some(true) {
                TickAction::StartSei
            } else {
                TickAction::Done
            },
        ),
{
}

/// A tap that came up clears its own count; one that did not keeps it.
pub proof fn law_a_restarted_tap(v: Vitals, g: Gates)
    ensures
        ticked(v, g, TickEvent::TeeRestarted(true)) == (
            Vitals { wfb_tee_restart_count: 0, ..v },
            TickAction::Done,
        ),
        ticked(v, g, TickEvent::TeeRestarted(false)) == (v, TickAction::Done),
        ticked(v, g, TickEvent::VisionRestarted(true)) == (
            Vitals { vision_tap_restart_count: 0, ..v },
            TickAction::Done,
        ),
        ticked(v, g, TickEvent::VisionRestarted(false)) == (v, TickAction::Done),
{
}

/// The vision tap is restarted without a wait, as the radio tap is.
pub proof fn law_vision_is_retried_at_once(v: Vitals, g: Gates, p: TapProbe)
    requires
        ticked(v, g, TickEvent::Vision(p)).1 is RestartVision,
        v.vision_tap_restart_count < u32::MAX,
    ensures
        ticked(v, g, TickEvent::Vision(p)).1 == (TickAction::RestartVision { sleep: 0 }),
{
    health::law_backoff_is_capped(
        (v.vision_tap_restart_count + 1) as nat,
        BASE_RESTART_DELAY as nat,
        WFB_TEE_RESTART_CEILING as nat,
    );
}

/// How long a retry waits: the backoff of its attempt up to half a minute where
/// the camera is missing and up to five minutes otherwise, less the five
/// seconds of the tick; with the tenth failure the whole of that time, without
/// a start. Nothing but the count changes.
pub proof fn law_how_long_a_retry_waits(v: Vitals)
    requires
        v.restart_count < u32::MAX,
    ensures
        ({
            let (w, a) = retried(v);
            let missing = v.last_start_error == StartError::NoPrimaryCamera;
            let cap: nat = if missing {
                30_000_000_000
            } else {
                300_000_000_000
            };
            &&& w == (Vitals { restart_count: (v.restart_count + 1) as u32, ..v })
            &&& v.restart_count + 1 >= 10 ==> a == (RetryAction::GiveUp {
                sleep: cap as Nanos,
                wake_on_camera: missing,
            })
            &&& v.restart_count + 1 < 10 ==> (a matches RetryAction::Start { sleep, wake_on_camera }
                && wake_on_camera == missing && sleep + 5_000_000_000 == health::backoff(
                (v.restart_count + 1) as nat,
                5_000_000_000,
                cap,
            ))
        }),
{
    let cap: nat = if v.last_start_error == StartError::NoPrimaryCamera {
        30_000_000_000
    } else {
        300_000_000_000
    };
    health::law_backoff_is_monotone(1, (v.restart_count + 1) as nat, 5_000_000_000, cap);
    health::law_backoff_is_capped((v.restart_count + 1) as nat, 5_000_000_000, cap);
}

/// A byte counter keeps its value while it fits a signed number, and wraps
/// below zero beyond that.
pub proof fn law_counters_wrap(n: u64)
    ensures
        n < 0x8000_0000_0000_0000 <==> signed_count(n) >= 0,
        signed_count(n) >= 0 ==> signed_count(n) == n,
        signed_count(n) < 0 ==> signed_count(n) + 0x1_0000_0000_0000_0000 == n,
{
}

/// A fresh supervisor is stopped, has seen and counted nothing, and owes the
/// cloud push no wait; its first healthy probe only begins a run.
pub proof fn law_a_fresh_supervisor_has_counted_nothing(now: Nanos)
    ensures
        ({
            let v = idle_vitals(now);
            &&& v.state == PipelineState::Stopped
            &&& !v.first_packet_seen
            &&& v.inbound_bytes_value < 0
            &&& v.started_at == now && v.inbound_bytes_changed_at == now
            &&& v.inbound_rate.bytes == 0
            &&& v.restart_count == 0 && v.cloud_restart_count == 0
            &&& v.wfb_tee_restart_count == 0 && v.vision_tap_restart_count == 0
            &&& v.last_start_error == StartError::NoError
            &&& v.last_healthy_at is None
            &&& v.cloud_retry_after is None
            &&& cloud_is_due(v, 0)
        }),
{
}

} // verus!
