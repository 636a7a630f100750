//! Restart delays and stream health.
use ados_media::health::{
    backoff_delay, circuit_breaker_tripped, grace_decision, healthy_window_elapsed,
    inbound_decision, retry_cap, GraceDecision, InboundDecision, StartError, BASE_RESTART_DELAY,
    HEALTH_CHECK_INTERVAL, MAX_RESTART_DELAY, MAX_RESTART_DELAY_NO_CAMERA,
    WFB_TEE_RESTART_CEILING,
};

const SEC: u64 = 1_000_000_000;
const MS: u64 = 1_000_000;

#[test]
fn backoff_ladder_matches_python_shape() {
    let at = |n: u32| backoff_delay(n, BASE_RESTART_DELAY, MAX_RESTART_DELAY);
    assert_eq!(at(1), 5 * SEC);
    assert_eq!(at(2), 10 * SEC);
    assert_eq!(at(3), 20 * SEC);
    assert_eq!(at(4), 40 * SEC);
    assert_eq!(at(5), 80 * SEC);
    assert_eq!(at(6), 160 * SEC);
    assert_eq!(at(7), 300 * SEC);
    assert_eq!(at(20), 300 * SEC);
    assert_eq!(at(0), 0);
}

#[test]
fn no_camera_cap_is_30s() {
    let at = |n: u32| backoff_delay(n, BASE_RESTART_DELAY, MAX_RESTART_DELAY_NO_CAMERA);
    assert_eq!(at(1), 5 * SEC);
    assert_eq!(at(2), 10 * SEC);
    assert_eq!(at(3), 20 * SEC);
    assert_eq!(at(4), 30 * SEC);
    assert_eq!(at(10), 30 * SEC);
}

#[test]
fn wfb_tee_ceiling_is_5s() {
    let at = |n: u32| backoff_delay(n, BASE_RESTART_DELAY, WFB_TEE_RESTART_CEILING);
    assert_eq!(at(1), 5 * SEC);
    assert_eq!(at(2), 5 * SEC);
    assert_eq!(at(5), 5 * SEC);
}

#[test]
fn retry_cap_picks_by_error_class() {
    assert_eq!(
        retry_cap(StartError::NoPrimaryCamera),
        MAX_RESTART_DELAY_NO_CAMERA
    );
    assert_eq!(retry_cap(StartError::NoEncoder), MAX_RESTART_DELAY);
    assert_eq!(retry_cap(StartError::EncoderSpawnFailed), MAX_RESTART_DELAY);
    assert_eq!(retry_cap(StartError::MediamtxFailed), MAX_RESTART_DELAY);
    assert_eq!(retry_cap(StartError::NoError), MAX_RESTART_DELAY);
}

#[test]
fn circuit_breaker_trips_at_ten() {
    assert!(!circuit_breaker_tripped(9));
    assert!(circuit_breaker_tripped(10));
    assert!(circuit_breaker_tripped(11));
}

#[test]
fn healthy_window_boundary_at_60s() {
    let base = 1_000 * SEC;
    assert!(!healthy_window_elapsed(base, base + 59_999 * MS));
    assert!(!healthy_window_elapsed(base, base + 60 * SEC));
    assert!(healthy_window_elapsed(base, base + 60_001 * MS));
    assert!(healthy_window_elapsed(base, base + 120 * SEC));
    assert!(!healthy_window_elapsed(base, 0));
}

#[test]
fn grace_decision_transitions() {
    assert_eq!(grace_decision(true, 0), GraceDecision::FirstPacket);
    assert_eq!(grace_decision(true, 40 * SEC), GraceDecision::FirstPacket);
    assert_eq!(grace_decision(false, 5 * SEC), GraceDecision::StillWaiting);
    assert_eq!(
        grace_decision(false, 29_999 * MS),
        GraceDecision::StillWaiting
    );
    assert_eq!(grace_decision(false, 30 * SEC), GraceDecision::Expired);
    assert_eq!(grace_decision(false, 45 * SEC), GraceDecision::Expired);
}

#[test]
fn inbound_decision_seed_on_first_sample() {
    assert_eq!(
        inbound_decision(-1, 1000, 0, HEALTH_CHECK_INTERVAL),
        InboundDecision::Seed
    );
}

#[test]
fn inbound_decision_advanced_computes_rate() {
    let per_s = |d: InboundDecision| match d {
        InboundDecision::Advanced { bytes, over } => bytes as f64 / (over as f64 / 1e9),
        other => panic!("expected Advanced, got {other:?}"),
    };
    let r = per_s(inbound_decision(0, 10_000, 5 * SEC, HEALTH_CHECK_INTERVAL));
    assert!((r - 2000.0).abs() < 1e-6, "got {r}");
    let r = per_s(inbound_decision(0, 5_000, 100 * MS, HEALTH_CHECK_INTERVAL));
    assert!((r - 1000.0).abs() < 1e-6, "got {r}");
}

#[test]
fn inbound_decision_within_and_past_stall() {
    assert_eq!(
        inbound_decision(1000, 1000, 11 * SEC, HEALTH_CHECK_INTERVAL),
        InboundDecision::WithinStall
    );
    assert_eq!(
        inbound_decision(1000, 1000, 12 * SEC, HEALTH_CHECK_INTERVAL),
        InboundDecision::Stalled
    );
    assert_eq!(
        inbound_decision(2000, 1500, 20 * SEC, HEALTH_CHECK_INTERVAL),
        InboundDecision::Stalled
    );
}

#[test]
fn delays_grow_and_stay_under_the_cap() {
    let at = |n: u32| backoff_delay(n, BASE_RESTART_DELAY, MAX_RESTART_DELAY);
    for n in 0..80 {
        assert!(at(n) <= at(n + 1));
        assert!(at(n) <= MAX_RESTART_DELAY);
    }
    assert_eq!(backoff_delay(u32::MAX, 1, u64::MAX), u64::MAX);
    assert_eq!(backoff_delay(3, u64::MAX, u64::MAX), u64::MAX);
    assert_eq!(backoff_delay(9, 0, 7), 0);
}

#[test]
fn every_failure_has_its_reason() {
    let reasons: Vec<_> = [
        StartError::NoPrimaryCamera,
        StartError::NoEncoder,
        StartError::EncoderCommandFailed,
        StartError::EncoderSpawnFailed,
        StartError::MediamtxFailed,
    ]
    .into_iter()
    .map(|e| e.reason().expect("a failure has a reason"))
    .collect();
    for (i, a) in reasons.iter().enumerate() {
        for b in &reasons[i + 1..] {
            assert_ne!(a, b);
        }
    }
    assert_eq!(StartError::NoError.reason(), None);
}
