use drift_core::extractor::FeatureExtractor;
use drift_core::sample::{InputStats, WindowSample};
use drift_core::text::WeightTable;

fn stats(
    events: u64,
    last_input_ms: u64,
    last_mouse_ms: u64,
) -> InputStats {
    InputStats {
        meaningful_input_events: events,
        last_meaningful_input_timestamp_ms: last_input_ms,
        last_mouse_move_timestamp_ms: last_mouse_ms,
        start_monitoring_timestamp_ms: 0,
    }
}

fn window(app_name: &str, title: &str) -> WindowSample {
    WindowSample::new(app_name.to_string(), title.to_string())
}

#[test]
fn context_neutral_text_scores_exactly_zero() {
    let mut fx = FeatureExtractor::new();
    let w = window("word.exe", "Working on Document");
    let v = fx.extract(&w, &stats(0, 0, 0), 10_000);
    assert_eq!(v.context_milli, 0);
}

#[test]
fn context_scores_average_of_known_tokens() {
    let mut fx = FeatureExtractor::new();
    // Tokens: "code" (900) matches, the rest are unknown.
    let w = window("code.exe", "main rs project");
    let v = fx.extract(&w, &stats(0, 0, 0), 10_000);
    assert_eq!(v.context_milli, 900);

    // "chrome" (100) twice and "youtube" (-900) once: (-700)/3
    // truncates toward zero.
    let mut fx = FeatureExtractor::new();
    let w = window("chrome.exe", "YouTube - Google Chrome");
    let v = fx.extract(&w, &stats(0, 0, 0), 10_000);
    assert_eq!(v.context_milli, -233);
}

#[test]
fn context_tokenization_splits_on_non_alphanumerics() {
    let mut fx = FeatureExtractor::new();
    // "slack" (500) and "notion" (700) separated by punctuation.
    let w = window("SLACK;notion", "");
    let v = fx.extract(&w, &stats(0, 0, 0), 10_000);
    assert_eq!(v.context_milli, 600);
}

#[test]
fn log_input_uses_clipped_delta() {
    let mut fx = FeatureExtractor::new();
    // First call: delta 7, ln(8) = 2.079.
    let v = fx.extract(&window("a", "b"), &stats(7, 0, 0), 10_000);
    assert_eq!(v.log_input_milli, 2079);

    // No new events: delta 0, log 0.
    let v = fx.extract(&window("a", "b"), &stats(7, 0, 0), 11_000);
    assert_eq!(v.log_input_milli, 0);

    // A burst of 10000 events is clipped to 50: ln(51) = 3.932.
    let v = fx.extract(&window("a", "b"), &stats(10_007, 0, 0), 12_000);
    assert_eq!(v.log_input_milli, 3932);
}

#[test]
fn silence_counts_since_last_meaningful_input() {
    let mut fx = FeatureExtractor::new();
    let v = fx.extract(&window("a", "b"), &stats(1, 4_000, 0), 10_000);
    assert_eq!(v.silence_milli, 6_000);

    // No input ever: silence reads zero rather than the whole epoch.
    let mut fx = FeatureExtractor::new();
    let v = fx.extract(&window("a", "b"), &stats(0, 0, 0), 10_000);
    assert_eq!(v.silence_milli, 0);
}

#[test]
fn mouse_active_window_is_five_seconds() {
    let mut fx = FeatureExtractor::new();
    let v = fx.extract(&window("a", "b"), &stats(0, 0, 6_000), 10_000);
    assert_eq!(v.mouse_active_milli, 1000);

    let v = fx.extract(&window("a", "b"), &stats(0, 0, 4_000), 10_000);
    assert_eq!(v.mouse_active_milli, 0);

    // Never moved: inactive.
    let v = fx.extract(&window("a", "b"), &stats(0, 0, 0), 10_000);
    assert_eq!(v.mouse_active_milli, 0);
}

#[test]
fn burstiness_is_stddev_of_delta_history() {
    let mut fx = FeatureExtractor::new();
    // Deltas 3 then 5: mean 4, variance 1, standard deviation 1.000.
    let v = fx.extract(&window("a", "b"), &stats(3, 0, 0), 10_000);
    assert_eq!(v.burstiness_milli, 0); // single sample, spread 0
    let v = fx.extract(&window("a", "b"), &stats(8, 0, 0), 11_000);
    assert_eq!(v.burstiness_milli, 1000);
}

#[test]
fn burstiness_zero_on_all_idle_history() {
    let mut fx = FeatureExtractor::new();
    let v = fx.extract(&window("a", "b"), &stats(0, 0, 0), 10_000);
    assert_eq!(v.burstiness_milli, 0);
    let v = fx.extract(&window("a", "b"), &stats(0, 0, 0), 11_000);
    assert_eq!(v.burstiness_milli, 0);
}

#[test]
fn interaction_gate_passes_positive_context_under_silence() {
    let mut fx = FeatureExtractor::new();
    let v = fx.extract(&window("code", ""), &stats(0, 0, 0), 10_000);
    assert_eq!(v.context_milli, 900);
    assert_eq!(v.interaction_gate_milli, 900);
}

#[test]
fn interaction_gate_shrinks_under_typing() {
    let mut fx = FeatureExtractor::new();
    // Delta 10: sigmoid term is 0.525, gate = 525 * 900 / 1000 = 472.
    let v = fx.extract(&window("code", ""), &stats(10, 0, 0), 10_000);
    assert_eq!(v.interaction_gate_milli, 472);
}

#[test]
fn interaction_gate_zero_for_negative_context() {
    let mut fx = FeatureExtractor::new();
    let v = fx.extract(&window("youtube", ""), &stats(0, 0, 0), 10_000);
    assert_eq!(v.context_milli, -900);
    assert_eq!(v.interaction_gate_milli, 0);
}

#[test]
fn synthetic_weight_table_is_honored() {
    let mut table = WeightTable::empty();
    table.push_entry("focuswork", 1000);
    table.push_entry("doomscroll", -1000);
    let mut fx = FeatureExtractor::with_table(table);
    let v = fx.extract(&window("FocusWork", "doomscroll"), &stats(0, 0, 0), 10_000);
    assert_eq!(v.context_milli, 0); // average of +1000 and -1000
}
