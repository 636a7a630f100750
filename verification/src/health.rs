//! Pure health decisions of the video pipeline.
//!
//! Every function is a transition over a sampled value (a counter, an elapsed
//! time, an attempt count). Times are nanoseconds: an instant counts from the
//! start of the service's monotonic clock.
use vstd::arithmetic::power2;
use vstd::prelude::*;

verus! {

/// A duration, or an instant on the service's monotonic clock, in nanoseconds.
pub type Nanos = u64;

/// Health-tick cadence.
pub const HEALTH_CHECK_INTERVAL: Nanos = 5_000_000_000;

/// Startup grace before a pipeline without a publisher is declared dead.
pub const STARTUP_GRACE_MAX: Nanos = 30_000_000_000;

/// How long the inbound byte counter may sit flat.
pub const INBOUND_FLOW_STALL: Nanos = 12_000_000_000;

/// Base restart delay.
pub const BASE_RESTART_DELAY: Nanos = 5_000_000_000;

/// Cap on the restart backoff.
pub const MAX_RESTART_DELAY: Nanos = 300_000_000_000;

/// Tighter cap while no camera is present, which a hotplug resolves.
pub const MAX_RESTART_DELAY_NO_CAMERA: Nanos = 30_000_000_000;

/// Consecutive-healthy window that clears the restart counter.
pub const HEALTHY_RESET_WINDOW: Nanos = 60_000_000_000;

/// Ceiling on the restart backoff of the radio and vision taps.
pub const WFB_TEE_RESTART_CEILING: Nanos = 5_000_000_000;

/// Consecutive failures that trip the circuit breaker.
pub const CIRCUIT_BREAKER_ATTEMPTS: u32 = 10;

/// Pipeline lifecycle state.
#[derive(Debug, Clone, Copy, PartialEq, Eq, Structural)]
pub enum PipelineState {
    Stopped,
    Starting,
    Running,
    Error,
}

/// The cause of the most recent failed start.
#[derive(Debug, Clone, Copy, PartialEq, Eq, Structural)]
pub enum StartError {
    /// No camera won the assignment: transient, short cap.
    NoPrimaryCamera,
    /// No encoder backend is available for the camera.
    NoEncoder,
    /// The encoder command could not be built.
    EncoderCommandFailed,
    /// The encoder process failed to spawn.
    EncoderSpawnFailed,
    /// The media server failed to start.
    MediamtxFailed,
    /// The last start succeeded, or the cause is unknown.
    NoError,
}

/// The operator's words for a start failure.
pub open spec fn reason_text(e: StartError) -> Option<Seq<char>> {
    match e {
        StartError::NoPrimaryCamera => Some("no primary camera"@),
        StartError::NoEncoder => Some("no encoder available"@),
        StartError::EncoderCommandFailed => Some("encoder command could not be built"@),
        StartError::EncoderSpawnFailed => Some("encoder failed to start"@),
        StartError::MediamtxFailed => Some("media server failed to start"@),
        StartError::NoError => None,
    }
}

impl StartError {
    /// The operator's words for the failure; `None` when there was none.
    pub fn reason(self) -> (r: Option<&'static str>)
        ensures
            match r {
                Some(s) => reason_text(self) == Some(s@),
                None => reason_text(self) is None,
            },
    {
        match self {
            StartError::NoPrimaryCamera => Some("no primary camera"),
            StartError::NoEncoder => Some("no encoder available"),
            StartError::EncoderCommandFailed => Some("encoder command could not be built"),
            StartError::EncoderSpawnFailed => Some("encoder failed to start"),
            StartError::MediamtxFailed => Some("media server failed to start"),
            StartError::NoError => None,
        }
    }
}

/// The delay before restart attempt `attempt` (counted from 1): `base`
/// doubled with every attempt after the first, no more than `cap`.
pub open spec fn backoff(attempt: nat, base: nat, cap: nat) -> nat {
    if attempt == 0 {
        0
    } else if base * power2::pow2((attempt - 1) as nat) < cap {
        base * power2::pow2((attempt - 1) as nat)
    } else {
        cap
    }
}

/// Doubling a positive base only moves it up.
proof fn lemma_doubling_grows(base: nat, i: nat, j: nat)
    requires
        i <= j,
    ensures
        base * power2::pow2(i) <= base * power2::pow2(j),
    decreases j - i,
{
    if i < j {
        lemma_doubling_grows(base, i, (j - 1) as nat);
        power2::lemma_pow2_unfold(j);
        let p = power2::pow2((j - 1) as nat);
        assert(base * (2 * p) >= base * p) by (nonlinear_arith)
            requires
                base >= 0,
                p >= 0,
        ;
    }
}

/// The first attempt waits for the base delay itself.
proof fn lemma_first_attempt(base: nat)
    ensures
        base * power2::pow2(0) == base,
{
    power2::lemma2_to64();
    assert(base * 1 == base) by (nonlinear_arith);
}

/// Exponential backoff with a cap. `attempt` is 1-based; attempt 0 waits for
/// nothing.
pub fn backoff_delay(attempt: u32, base: Nanos, cap: Nanos) -> (r: Nanos)
    ensures
        r == backoff(attempt as nat, base as nat, cap as nat),
{
    if attempt == 0 {
        return 0;
    }
    if base == 0 {
        assert(0 * power2::pow2((attempt - 1) as nat) == 0) by (nonlinear_arith);
        return 0;
    }
    let mut delay: Nanos = base;
    let mut done: u32 = 1;
    proof {
        lemma_first_attempt(base as nat);
    }
    while done < attempt
        invariant
            1 <= done <= attempt,
            base > 0,
            delay == base * power2::pow2((done - 1) as nat),
        decreases attempt - done,
    {
        if delay >= cap || delay > cap / 2 {
            proof {
                let p = power2::pow2((done - 1) as nat);
                power2::lemma_pow2_unfold(done as nat);
                assert(base * (2 * p) == 2 * (base * p)) by (nonlinear_arith);
                lemma_doubling_grows(base as nat, done as nat, (attempt - 1) as nat);
            }
            return cap;
        }
        proof {
            let p = power2::pow2((done - 1) as nat);
            power2::lemma_pow2_unfold(done as nat);
            assert(base * (2 * p) == 2 * (base * p)) by (nonlinear_arith);
        }
        delay = delay * 2;
        done += 1;
    }
    if delay < cap {
        delay
    } else {
        cap
    }
}

/// The backoff cap for a retry after `last_error`.
pub open spec fn cap_for(last_error: StartError) -> Nanos {
    if last_error == StartError::NoPrimaryCamera {
        MAX_RESTART_DELAY_NO_CAMERA
    } else {
        MAX_RESTART_DELAY
    }
}

/// The backoff cap for a retry: short while a camera is missing.
pub fn retry_cap(last_error: StartError) -> (r: Nanos)
    ensures
        r == cap_for(last_error),
{
    match last_error {
        StartError::NoPrimaryCamera => MAX_RESTART_DELAY_NO_CAMERA,
        _ => MAX_RESTART_DELAY,
    }
}

/// Should the circuit breaker trip?
pub fn circuit_breaker_tripped(restart_count: u32) -> (r: bool)
    ensures
        r == (restart_count >= CIRCUIT_BREAKER_ATTEMPTS),
{
    restart_count >= CIRCUIT_BREAKER_ATTEMPTS
}

/// The pipeline has been healthy for strictly longer than the reset window.
pub fn healthy_window_elapsed(healthy_since: Nanos, now: Nanos) -> (r: bool)
    ensures
        r == (now - healthy_since > HEALTHY_RESET_WINDOW),
{
    now > healthy_since && now - healthy_since > HEALTHY_RESET_WINDOW
}

/// What the startup-grace step decides.
#[derive(Debug, Clone, Copy, PartialEq, Eq, Structural)]
pub enum GraceDecision {
    /// A publisher appeared.
    FirstPacket,
    /// Inside the grace window without a publisher.
    StillWaiting,
    /// The grace window passed without a publisher.
    Expired,
}

/// The startup-grace decision.
pub open spec fn grace(path_ready: bool, elapsed: int) -> GraceDecision {
    if path_ready {
        GraceDecision::FirstPacket
    } else if elapsed < STARTUP_GRACE_MAX {
        GraceDecision::StillWaiting
    } else {
        GraceDecision::Expired
    }
}

/// The startup-grace decision.
pub fn grace_decision(path_ready: bool, elapsed: Nanos) -> (r: GraceDecision)
    ensures
        r == grace(path_ready, elapsed as int),
{
    if path_ready {
        GraceDecision::FirstPacket
    } else if elapsed < STARTUP_GRACE_MAX {
        GraceDecision::StillWaiting
    } else {
        GraceDecision::Expired
    }
}

/// What the inbound-byte watchdog decides. The rate of an advance is
/// `bytes / over`.
#[derive(Debug, Clone, Copy, PartialEq, Eq, Structural)]
pub enum InboundDecision {
    /// First sample.
    Seed,
    /// The counter advanced by `bytes` over the time `over`.
    Advanced { bytes: u64, over: Nanos },
    /// The counter is flat, within the stall window.
    WithinStall,
    /// The counter is flat past the stall window.
    Stalled,
}

/// The inbound-flow decision over a new byte sample. A negative `prev` means
/// that there was no sample yet.
pub open spec fn inbound(prev: int, current: int, since_change: Nanos, interval: Nanos)
    -> InboundDecision {
    if prev < 0 {
        InboundDecision::Seed
    } else if current > prev {
        InboundDecision::Advanced {
            bytes: (current - prev) as u64,
            over: if since_change > interval {
                since_change
            } else {
                interval
            },
        }
    } else if since_change < INBOUND_FLOW_STALL {
        InboundDecision::WithinStall
    } else {
        InboundDecision::Stalled
    }
}

/// The inbound-flow decision over a new byte sample. The time that the rate
/// is taken over is floored at `interval`; a counter that went backwards
/// counts as flat.
pub fn inbound_decision(prev: i64, current: i64, since_change: Nanos, interval: Nanos) -> (r:
    InboundDecision)
    ensures
        r == inbound(prev as int, current as int, since_change, interval),
{
    if prev < 0 {
        return InboundDecision::Seed;
    }
    if current > prev {
        let over: Nanos = if since_change > interval {
            since_change
        } else {
            interval
        };
        let bytes: u64 = (current - prev) as u64;
        return InboundDecision::Advanced { bytes, over };
    }
    if since_change < INBOUND_FLOW_STALL {
        InboundDecision::WithinStall
    } else {
        InboundDecision::Stalled
    }
}

// ---------------------------------------------------------------------------
// laws
// ---------------------------------------------------------------------------

/// A later attempt never waits less than an earlier one.
pub proof fn law_backoff_is_monotone(i: nat, j: nat, base: nat, cap: nat)
    requires
        i <= j,
    ensures
        backoff(i, base, cap) <= backoff(j, base, cap),
{
    if i > 0 {
        lemma_doubling_grows(base, (i - 1) as nat, (j - 1) as nat);
    }
}

/// No attempt waits longer than the cap, and the first one waits for the base
/// delay or the cap, whichever is less.
pub proof fn law_backoff_is_capped(attempt: nat, base: nat, cap: nat)
    ensures
        backoff(attempt, base, cap) <= cap,
        backoff(1, base, cap) == if base < cap {
            base
        } else {
            cap
        },
{
    lemma_first_attempt(base);
}

/// Each attempt waits twice as long as the one before it, until the cap.
pub proof fn law_backoff_doubles(attempt: nat, base: nat, cap: nat)
    requires
        attempt >= 1,
    ensures
        backoff(0, base, cap) == 0,
        backoff(attempt, base, cap) == cap ==> backoff(attempt + 1, base, cap) == cap,
        backoff(attempt, base, cap) < cap ==> backoff(attempt + 1, base, cap) == (if 2 * backoff(
            attempt,
            base,
            cap,
        ) < cap {
            2 * backoff(attempt, base, cap)
        } else {
            cap
        }),
{
    let e = (attempt - 1) as nat;
    let x = power2::pow2(e);
    power2::lemma_pow2_unfold(attempt);
    assert(power2::pow2(attempt) == 2 * x);
    assert(base * (2 * x) == 2 * (base * x)) by (nonlinear_arith);
    assert(base * x >= 0) by (nonlinear_arith);
}

/// The grace of a start: a publisher ends it, half a minute without one
/// exhausts it, and before that there is nothing to judge.
pub proof fn law_the_grace_is_half_a_minute(path_ready: bool, elapsed: int)
    ensures
        grace(path_ready, elapsed) == GraceDecision::FirstPacket <==> path_ready,
        grace(path_ready, elapsed) == GraceDecision::StillWaiting <==> !path_ready && elapsed
            < 30_000_000_000,
        grace(path_ready, elapsed) == GraceDecision::Expired <==> !path_ready && elapsed
            >= 30_000_000_000,
{
}

/// The flow of bytes: the first sample is kept, a larger one is an advance by
/// the difference over the time since the last change, or the interval if that
/// is more, and a counter that stands still for twelve seconds has stalled.
pub proof fn law_a_counter_advances_or_stalls(
    prev: int,
    current: int,
    since_change: Nanos,
    interval: Nanos,
)
    requires
        current - prev <= u64::MAX,
    ensures
        ({
            let d = inbound(prev, current, since_change, interval);
            &&& d is Seed <==> prev < 0
            &&& d is Advanced <==> 0 <= prev < current
            &&& d is Stalled <==> prev >= 0 && current <= prev && since_change >= 12_000_000_000
            &&& d is WithinStall <==> prev >= 0 && current <= prev && since_change < 12_000_000_000
            &&& d matches InboundDecision::Advanced { bytes, over } ==> prev + bytes == current
                && over >= since_change && over >= interval && (over == since_change || over
                == interval)
        }),
{
}

/// A missing camera is looked for again within half a minute; any other failure
/// may wait for up to five.
pub proof fn law_a_missing_camera_is_looked_for_sooner(e: StartError)
    ensures
        e == StartError::NoPrimaryCamera ==> cap_for(e) == 30_000_000_000,
        e != StartError::NoPrimaryCamera ==> cap_for(e) == 300_000_000_000,
{
}

/// Every failure has words for the operator, and a start without one has none.
pub proof fn law_failures_have_words(e: StartError)
    ensures
        reason_text(e) is None <==> e == StartError::NoError,
        reason_text(StartError::NoPrimaryCamera) == Some("no primary camera"@),
        reason_text(StartError::NoEncoder) == Some("no encoder available"@),
        reason_text(StartError::EncoderCommandFailed) == Some("encoder command could not be built"@),
        reason_text(StartError::EncoderSpawnFailed) == Some("encoder failed to start"@),
        reason_text(StartError::MediamtxFailed) == Some("media server failed to start"@),
{
}

/// The times of the supervision.
pub proof fn law_the_times_of_the_supervision()
    ensures
        HEALTH_CHECK_INTERVAL == 5_000_000_000,
        STARTUP_GRACE_MAX == 30_000_000_000,
        INBOUND_FLOW_STALL == 12_000_000_000,
        BASE_RESTART_DELAY == 5_000_000_000,
        MAX_RESTART_DELAY == 300_000_000_000,
        MAX_RESTART_DELAY_NO_CAMERA == 30_000_000_000,
        HEALTHY_RESET_WINDOW == 60_000_000_000,
        WFB_TEE_RESTART_CEILING == 5_000_000_000,
        CIRCUIT_BREAKER_ATTEMPTS == 10,
{
}

} // verus!
