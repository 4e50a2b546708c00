use drift_core::controller::FsmState;
use drift_core::inference::InferenceResult;
use drift_core::orchestrator::Orchestrator;
use drift_core::sample::{
    input_recently_active, mouse_recently_active, ActiveSessionInfo, InputStats,
    update_meaningful_stats, update_mouse_move_stats,
};
use drift_core::state_engine::InterventionTrigger;

#[test]
fn sensing_runs_every_fifth_tick() {
    let mut orch = Orchestrator::new();
    let mut pattern = Vec::new();
    for _ in 0..12 {
        pattern.push(orch.begin_tick(true));
    }
    assert_eq!(
        pattern,
        vec![false, false, false, false, true, false, false, false, false, true, false, false]
    );
}

#[test]
fn inactive_session_resets_gauge_and_skips_sensing() {
    let mut orch = Orchestrator::new();
    for t in 0..=20u64 {
        orch.begin_tick(true);
        orch.record_judgment(InferenceResult::StrongOutlier);
        orch.advance(t, false, false);
    }
    assert!(orch.controller.gauge_q > 0);

    let sense = orch.begin_tick(false);
    assert!(!sense);
    assert_eq!(orch.controller.gauge_q, 0);
    assert_eq!(orch.controller.state, FsmState::Focus);
    assert_eq!(orch.tick_counter, 0);
}

#[test]
fn no_judgment_ever_means_permanent_silence() {
    let mut orch = Orchestrator::new();
    for t in 0..100u64 {
        orch.begin_tick(true);
        let r = orch.advance(t, false, false);
        assert_eq!(r, InterventionTrigger::DoNothing);
    }
    assert_eq!(orch.controller.gauge_q, 0);
}

#[test]
fn stale_judgment_keeps_feeding_the_controller() {
    let mut orch = Orchestrator::new();
    orch.begin_tick(true);
    orch.record_judgment(InferenceResult::StrongOutlier);
    orch.advance(0, false, false);
    // Four seconds without a fresh inference: the cached judgment still
    // drives the gauge forward each second.
    for t in 1..=4u64 {
        orch.begin_tick(true);
        orch.advance(t, false, false);
    }
    assert_eq!(orch.controller.gauge_q, 16);
}

#[test]
fn pipeline_scenario_notifies_at_thirty_seconds() {
    let mut orch = Orchestrator::new();
    orch.begin_tick(true);
    orch.record_judgment(InferenceResult::StrongOutlier);
    orch.advance(0, false, false);

    let mut notifications = Vec::new();
    for t in 1..=35u64 {
        orch.begin_tick(true);
        let r = orch.advance(t, false, false);
        if r != InterventionTrigger::DoNothing {
            notifications.push((t, r));
        }
    }
    assert_eq!(notifications, vec![(30, InterventionTrigger::TriggerNotification)]);
    assert_eq!(orch.controller.gauge_q, 140);
}

#[test]
fn session_elapsed_time_never_underflows() {
    let session = ActiveSessionInfo {
        session_id: "session-7".to_string(),
        task_id: None,
        start_time_s: 1_000,
    };
    assert_eq!(session.elapsed_seconds(1_090), 90);
    // A clock reading behind the recorded start reports zero.
    assert_eq!(session.elapsed_seconds(900), 0);
}

#[test]
fn activity_flags_read_the_shared_counters() {
    let mut stats = InputStats::new(0);
    assert!(!mouse_recently_active(&stats, 10_000));
    assert!(!input_recently_active(&stats, 10_000));

    update_mouse_move_stats(&mut stats, 7_000);
    update_meaningful_stats(&mut stats, 2_000);
    assert_eq!(stats.meaningful_input_events, 1);
    assert_eq!(stats.last_meaningful_input_timestamp_ms, 2_000);
    assert_eq!(stats.last_mouse_move_timestamp_ms, 7_000);

    // Mouse moved three seconds ago: active; typing eight seconds ago:
    // stale.
    assert!(mouse_recently_active(&stats, 10_000));
    assert!(!input_recently_active(&stats, 10_000));
    assert!(input_recently_active(&stats, 7_000));
}
