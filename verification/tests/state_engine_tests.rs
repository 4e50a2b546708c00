use drift_core::sample::InputStats;
use drift_core::sample::WindowSample;
use drift_core::state_engine::{
    InterventionTrigger, StateEngine, SCORE_DISTRACTION_APP, SCORE_INACTIVITY_MILD,
};

/// A fixed "now" for the whole suite, in Unix seconds.
const NOW_S: u64 = 1_000_000;

fn mock_window_info(title: &str, app_name: &str) -> WindowSample {
    WindowSample::new(app_name.to_string(), title.to_string())
}

fn mock_input_stats(last_input_ago_s: u64) -> InputStats {
    let now_ms = NOW_S * 1000;
    InputStats {
        meaningful_input_events: 1,
        last_meaningful_input_timestamp_ms: now_ms.saturating_sub(last_input_ago_s * 1000),
        last_mouse_move_timestamp_ms: 0,
        start_monitoring_timestamp_ms: 0,
    }
}

#[test]
fn test_distraction_score_increases() {
    let mut engine = StateEngine::new();
    let _window_info = mock_window_info("Working on Document", "word.exe");
    let input_stats = mock_input_stats(10);

    assert_eq!(engine.get_current_score(), 0);

    let distraction_window = mock_window_info("YouTube - Google Chrome", "chrome.exe");
    let _trigger = engine.process_activity(&distraction_window, &input_stats, NOW_S);

    assert!(engine.get_current_score() > 0);
    assert_eq!(engine.get_current_score(), SCORE_DISTRACTION_APP);
}

#[test]
fn test_inactivity_score_only_if_distraction() {
    let mut engine = StateEngine::new();

    let window_info_work = mock_window_info("Working on Document", "word.exe");
    let input_stats_inactive = mock_input_stats(240);
    engine.process_activity(&window_info_work, &input_stats_inactive, NOW_S);
    assert_eq!(engine.get_current_score(), 0);

    let window_info_distraction = mock_window_info("YouTube", "chrome.exe");
    engine.process_activity(&window_info_distraction, &input_stats_inactive, NOW_S);
    assert_eq!(
        engine.get_current_score(),
        SCORE_DISTRACTION_APP + SCORE_INACTIVITY_MILD
    );
}

#[test]
fn test_score_decays_when_productive() {
    let mut engine = StateEngine::new();

    let distraction_window = mock_window_info("YouTube", "chrome.exe");
    let input_stats = mock_input_stats(10);
    engine.process_activity(&distraction_window, &input_stats, NOW_S);
    let initial_score = engine.get_current_score();
    assert_eq!(initial_score, SCORE_DISTRACTION_APP);

    let productive_window = mock_window_info("Productive Task", "code.exe");
    let productive_stats_inactive = mock_input_stats(30);
    engine.process_activity(&productive_window, &productive_stats_inactive, NOW_S);

    assert_eq!(engine.get_current_score(), initial_score.saturating_sub(1));

    engine.process_activity(&productive_window, &productive_stats_inactive, NOW_S);

    assert_eq!(engine.get_current_score(), initial_score.saturating_sub(2));
}

#[test]
fn test_intervention_stops_immediately_on_work() {
    let mut engine = StateEngine::new();
    let input_stats = mock_input_stats(10);
    let distraction_window = mock_window_info("YouTube", "chrome.exe");

    let _trigger1 = engine.process_activity(&distraction_window, &input_stats, NOW_S);
    let _trigger2 = engine.process_activity(&distraction_window, &input_stats, NOW_S);
    let _trigger3 = engine.process_activity(&distraction_window, &input_stats, NOW_S);
    let trigger_overlay = engine.process_activity(&distraction_window, &input_stats, NOW_S);

    assert_eq!(engine.get_current_score(), 20);
    assert_eq!(trigger_overlay, InterventionTrigger::TriggerOverlay);
    assert_eq!(engine.overlay_sent, true);

    let productive_window = mock_window_info("Productive Task", "code.exe");
    let trigger_work = engine.process_activity(&productive_window, &input_stats, NOW_S);

    assert_eq!(engine.get_current_score(), 19);
    assert_eq!(trigger_work, InterventionTrigger::DoNothing);
    assert_eq!(engine.overlay_sent, false);
}

#[test]
fn test_notification_sent_only_once() {
    let mut engine = StateEngine::new();
    let input_stats = mock_input_stats(10);
    let distraction_window = mock_window_info("YouTube", "chrome.exe");

    engine.process_activity(&distraction_window, &input_stats, NOW_S);
    let trigger_notify = engine.process_activity(&distraction_window, &input_stats, NOW_S);

    assert_eq!(engine.get_current_score(), 10);
    assert_eq!(trigger_notify, InterventionTrigger::TriggerNotification);
    assert_eq!(engine.notification_sent, true);

    let trigger_nothing = engine.process_activity(&distraction_window, &input_stats, NOW_S);

    assert_eq!(engine.get_current_score(), 15);
    assert_eq!(trigger_nothing, InterventionTrigger::DoNothing);
}

#[test]
fn test_severe_inactivity_weighting() {
    let mut engine = StateEngine::new();
    let distraction_window = mock_window_info("Netflix", "chrome.exe");
    let input_stats = mock_input_stats(700);

    engine.process_activity(&distraction_window, &input_stats, NOW_S);
    // Base keyword score plus the severe inactivity weight.
    assert_eq!(engine.get_current_score(), 15);
}

#[test]
fn test_score_caps_at_maximum() {
    let mut engine = StateEngine::new();
    let distraction_window = mock_window_info("Netflix", "chrome.exe");
    let input_stats = mock_input_stats(700);

    for _ in 0..20 {
        engine.process_activity(&distraction_window, &input_stats, NOW_S);
    }
    assert_eq!(engine.get_current_score(), 100);
}
