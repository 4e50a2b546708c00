use drift_core::extractor::FeatureVector;
use drift_core::inference::{
    classify_score, InferError, InferenceEngine, InferenceResult, LoadError, ScalerParams,
};

fn vector(context_milli: i64) -> FeatureVector {
    FeatureVector {
        context_milli,
        log_input_milli: 0,
        silence_milli: 0,
        burstiness_milli: 0,
        mouse_active_milli: 0,
        interaction_gate_milli: 0,
    }
}

fn loaded_identity_engine() -> InferenceEngine {
    InferenceEngine::from_parts(
        ScalerParams::identity(),
        "model.onnx".to_string(),
        "scaler.json".to_string(),
    )
}

#[test]
fn judgment_tiers_follow_score_thresholds() {
    assert_eq!(classify_score(1), InferenceResult::Inlier);
    assert_eq!(classify_score(0), InferenceResult::WeakOutlier);
    assert_eq!(classify_score(-499), InferenceResult::WeakOutlier);
    assert_eq!(classify_score(-500), InferenceResult::StrongOutlier);
    assert_eq!(classify_score(-10_000), InferenceResult::StrongOutlier);
}

#[test]
fn scaler_rejects_zero_scale() {
    let r = ScalerParams::try_new([0; 6], [1000, 1000, 0, 1000, 1000, 1000]);
    assert_eq!(r.unwrap_err(), LoadError::ScaleOutOfRange);
}

#[test]
fn scaler_rejects_out_of_range_mean() {
    let r = ScalerParams::try_new([0, 0, 0, i64::MAX, 0, 0], [1000; 6]);
    assert_eq!(r.unwrap_err(), LoadError::MeanOutOfRange);
}

#[test]
fn scaler_accepts_plain_parameters() {
    let r = ScalerParams::try_new([0, 500, -500, 1_000_000, 0, 0], [1000, 2000, 1, 500, 1000, 1000]);
    assert!(r.is_ok());
}

#[test]
fn identity_scaler_standardizes_to_input() {
    let mut engine = loaded_identity_engine();
    let z = engine.prepare_input(&vector(-900), None, 0).unwrap();
    assert_eq!(z, [-900, 0, 0, 0, 0, 0]);
}

#[test]
fn standardization_subtracts_mean_and_divides_by_scale() {
    let scaler = ScalerParams::try_new(
        [1000, 0, 0, 0, 0, 0],
        [2000, 1000, 1000, 1000, 1000, 1000],
    )
    .unwrap();
    let mut engine =
        InferenceEngine::from_parts(scaler, "m".to_string(), "s".to_string());
    let mut v = vector(-1000);
    v.silence_milli = 9000;
    let z = engine.prepare_input(&v, None, 0).unwrap();
    // (-1000 - 1000) * 1000 / 2000 = -1000; silence passes unscaled.
    assert_eq!(z[0], -1000);
    assert_eq!(z[2], 9000);
}

#[test]
fn standardization_rounds_toward_zero() {
    let scaler = ScalerParams::try_new([0; 6], [3000, 3000, 3000, 3000, 3000, 3000]).unwrap();
    let mut engine =
        InferenceEngine::from_parts(scaler, "m".to_string(), "s".to_string());
    let z = engine.prepare_input(&vector(-1000), None, 0).unwrap();
    // -1000 * 1000 / 3000 truncates to -333, not -334.
    assert_eq!(z[0], -333);
}

#[test]
fn unloaded_engine_refuses_inference() {
    let mut engine = InferenceEngine::unloaded("m".to_string(), "s".to_string());
    assert!(!engine.is_loaded());
    let r = engine.prepare_input(&vector(500), None, 0);
    assert_eq!(r, Err(InferError::ModelUnloaded));
    assert!(!engine.is_loaded());

    // The refusal left no trace: loading afterwards works and the
    // feedback cache is still empty, so no override fires.
    engine.load_model(ScalerParams::identity(), "m2".to_string());
    let tok = "notion".to_string();
    let z = engine.prepare_input(&vector(-900), Some(&tok), 0).unwrap();
    assert_eq!(z[0], -900);
}

#[test]
fn feedback_override_forces_context_until_ttl() {
    let mut engine = loaded_identity_engine();
    engine.update_local_cache("notion".to_string(), 1, 0);

    // Inside the hour: the context feature reads its maximum no matter
    // what the table lookup said.
    let tok = "notion".to_string();
    let z = engine.prepare_input(&vector(-900), Some(&tok), 1000).unwrap();
    assert_eq!(z[0], 1000);

    // Another token is not affected.
    let other = "youtube".to_string();
    let z = engine.prepare_input(&vector(-900), Some(&other), 1000).unwrap();
    assert_eq!(z[0], -900);

    // At the expiry the override stops.
    let z = engine
        .prepare_input(&vector(-900), Some(&tok), 3_600_000)
        .unwrap();
    assert_eq!(z[0], -900);

    // And the expired entry was pruned, so even an earlier clock reading
    // no longer sees it.
    let z = engine.prepare_input(&vector(-900), Some(&tok), 1000).unwrap();
    assert_eq!(z[0], -900);
}

#[test]
fn feedback_is_last_write_wins_per_token() {
    let mut engine = loaded_identity_engine();
    engine.update_local_cache("notion".to_string(), 1, 0);
    // Refresh with a shorter expiry: the later write wins.
    engine.update_local_cache("notion".to_string(), 0, 500);
    let tok = "notion".to_string();
    let z = engine.prepare_input(&vector(-900), Some(&tok), 499).unwrap();
    assert_eq!(z[0], 1000);
    let z = engine.prepare_input(&vector(-900), Some(&tok), 500).unwrap();
    assert_eq!(z[0], -900);
}

#[test]
fn hot_swap_failure_leaves_engine_unloaded() {
    let mut engine = loaded_identity_engine();
    engine.update_local_cache("notion".to_string(), 1, 0);

    // Unload, as the swap sequence does before touching files.
    engine.unload_model();
    assert_eq!(
        engine.prepare_input(&vector(0), None, 0),
        Err(InferError::ModelUnloaded)
    );

    // The reload failed: the engine stays unloaded instead of reviving
    // stale in-memory state.
    engine.finish_swap(None, "new.onnx".to_string());
    assert!(!engine.is_loaded());
    assert_eq!(
        engine.prepare_input(&vector(0), None, 0),
        Err(InferError::ModelUnloaded)
    );

    // A later successful reload brings it back, feedback cache intact.
    engine.finish_swap(Some(ScalerParams::identity()), "new.onnx".to_string());
    let tok = "notion".to_string();
    let z = engine.prepare_input(&vector(-900), Some(&tok), 1000).unwrap();
    assert_eq!(z[0], 1000);
}
