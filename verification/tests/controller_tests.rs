use drift_core::controller::{DriftController, FsmState};
use drift_core::inference::InferenceResult;
use drift_core::state_engine::InterventionTrigger;

/// A controller that has just ticked at second 0 with an empty gauge, so
/// every following one-second tick integrates exactly one second.
fn primed_controller() -> DriftController {
    let mut c = DriftController::new();
    let t = c.tick(InferenceResult::Inlier, 0, false, false);
    assert_eq!(t, InterventionTrigger::DoNothing);
    assert_eq!(c.gauge_q, 0);
    c
}

#[test]
fn gauge_fills_at_real_time_under_strong_outlier() {
    // Holding StrongOutlier for 20 seconds from an empty gauge leaves a
    // gauge of exactly 20 seconds (80 quarter-seconds).
    let mut c = primed_controller();
    for t in 1..=20u64 {
        c.tick(InferenceResult::StrongOutlier, t, false, false);
    }
    assert_eq!(c.gauge_q, 80);
}

#[test]
fn gauge_time_dilation_under_weak_outlier() {
    // 30 seconds of WeakOutlier with no activity at all: half speed,
    // gauge 15 seconds.
    let mut c = primed_controller();
    for t in 1..=30u64 {
        c.tick(InferenceResult::WeakOutlier, t, false, false);
    }
    assert_eq!(c.gauge_q, 60);

    // 30 seconds of WeakOutlier with the mouse moving but no typing:
    // quarter speed, gauge 7.5 seconds.
    let mut c = primed_controller();
    for t in 1..=30u64 {
        c.tick(InferenceResult::WeakOutlier, t, true, false);
    }
    assert_eq!(c.gauge_q, 30);

    // Mouse moving while also typing counts as half speed again.
    let mut c = primed_controller();
    for t in 1..=30u64 {
        c.tick(InferenceResult::WeakOutlier, t, true, true);
    }
    assert_eq!(c.gauge_q, 60);
}

#[test]
fn gauge_recovers_to_floor_under_inlier() {
    // From a gauge of 30 seconds, 15 seconds of Inlier drain at double
    // speed down to exactly zero, never below.
    let mut c = DriftController {
        gauge_q: 120,
        state: FsmState::Drift,
        last_tick_ts: Some(0),
        last_intervention_ts: None,
    };
    for t in 1..=15u64 {
        c.tick(InferenceResult::Inlier, t, false, false);
        assert!(c.gauge_q <= 120);
    }
    assert_eq!(c.gauge_q, 0);
    assert_eq!(c.state, FsmState::Focus);

    // Further inlier ticks keep it pinned at the floor.
    c.tick(InferenceResult::Inlier, 16, false, false);
    assert_eq!(c.gauge_q, 0);
}

#[test]
fn threshold_crossings_notify_then_block() {
    let mut c = primed_controller();
    // Ride StrongOutlier: the gauge reaches 30 seconds at t = 30 and the
    // state flips to Drift with a notification.
    for t in 1..=29u64 {
        let r = c.tick(InferenceResult::StrongOutlier, t, false, false);
        assert_eq!(r, InterventionTrigger::DoNothing);
        assert_eq!(c.state, FsmState::Focus);
    }
    let r30 = c.tick(InferenceResult::StrongOutlier, 30, false, false);
    assert_eq!(c.gauge_q, 120);
    assert_eq!(c.state, FsmState::Drift);
    assert_eq!(r30, InterventionTrigger::TriggerNotification);

    // Reaching 60 seconds flips to Distracted and blocks (the snooze
    // from t = 50 has expired by then).
    for t in 31..=59u64 {
        c.tick(InferenceResult::StrongOutlier, t, false, false);
    }
    let r60 = c.tick(InferenceResult::StrongOutlier, 60, false, false);
    assert_eq!(c.gauge_q, 240);
    assert_eq!(c.state, FsmState::Distracted);
    assert_eq!(r60, InterventionTrigger::TriggerOverlay);
}

#[test]
fn snooze_suppresses_second_intervention() {
    let mut c = primed_controller();
    for t in 1..=30u64 {
        c.tick(InferenceResult::StrongOutlier, t, false, false);
    }
    assert_eq!(c.last_intervention_ts, Some(30));

    // One second later the gauge has risen further, yet the snooze keeps
    // the controller silent, and keeps doing so until 10 seconds passed.
    for t in 31..=39u64 {
        let r = c.tick(InferenceResult::StrongOutlier, t, false, false);
        assert_eq!(r, InterventionTrigger::DoNothing);
        assert!(c.gauge_q > 120);
    }
    let r40 = c.tick(InferenceResult::StrongOutlier, 40, false, false);
    assert_eq!(r40, InterventionTrigger::TriggerNotification);
}

#[test]
fn scenario_notify_once_then_snoozed() {
    // Model loaded, FOCUS state, StrongOutlier for 35 consecutive
    // one-second ticks with no prior intervention: exactly one
    // notification at second 30, silence for seconds 31 to 35, and a
    // gauge of 35 seconds at tick 35.
    let mut c = primed_controller();
    let mut notifications: u32 = 0;
    for t in 1..=35u64 {
        let r = c.tick(InferenceResult::StrongOutlier, t, false, false);
        match r {
            InterventionTrigger::TriggerNotification => {
                notifications += 1;
                assert_eq!(t, 30);
            }
            InterventionTrigger::DoNothing => {}
            InterventionTrigger::TriggerOverlay => panic!("no overlay expected"),
        }
    }
    assert_eq!(notifications, 1);
    assert_eq!(c.gauge_q, 140);
}

#[test]
fn manual_reset_empties_gauge() {
    let mut c = primed_controller();
    for t in 1..=20u64 {
        c.tick(InferenceResult::StrongOutlier, t, false, false);
    }
    assert!(c.gauge_q > 0);
    c.manual_reset();
    assert_eq!(c.gauge_q, 0);
    assert_eq!(c.state, FsmState::Focus);
}

#[test]
fn gauge_ratio_is_clamped_share_of_block_threshold() {
    let mut c = DriftController::new();
    assert_eq!(c.get_gauge_ratio_permille(), 0);
    c = DriftController {
        gauge_q: 120,
        state: FsmState::Drift,
        last_tick_ts: Some(100),
        last_intervention_ts: None,
    };
    assert_eq!(c.get_gauge_ratio_permille(), 500);
    c = DriftController {
        gauge_q: 700,
        state: FsmState::Distracted,
        last_tick_ts: Some(200),
        last_intervention_ts: None,
    };
    assert_eq!(c.get_gauge_ratio_permille(), 1000);
}

#[test]
fn coarse_ticks_integrate_like_fine_ticks() {
    // One 10-second gap integrates exactly like ten 1-second ticks.
    let mut coarse = primed_controller();
    coarse.tick(InferenceResult::StrongOutlier, 10, false, false);

    let mut fine = primed_controller();
    for t in 1..=10u64 {
        fine.tick(InferenceResult::StrongOutlier, t, false, false);
    }
    assert_eq!(coarse.gauge_q, fine.gauge_q);
    assert_eq!(coarse.gauge_q, 40);
}
