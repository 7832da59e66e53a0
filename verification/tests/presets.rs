use smaa::params::{
    BevySmaaMode, SmaaQuality, SmaaShaderDefs, CORNER_ROUNDING_MAX, EDGE_THRESHOLD_MAX,
    LOCAL_CONTRAST_FACTOR_MIN, MAX_SEARCH_STEPS_DIAGONAL_LIMIT, MAX_SEARCH_STEPS_LIMIT,
    REPROJECTION_WEIGHT_SCALE_MAX,
};

#[test]
fn preset_depth_threshold_is_tenth_of_edge_threshold() {
    for defs in [
        SmaaShaderDefs::low(),
        SmaaShaderDefs::medium(),
        SmaaShaderDefs::high(),
        SmaaShaderDefs::ultra(),
    ] {
        assert_eq!(10 * defs.depth_threshold, defs.edge_threshold);
    }
}

#[test]
fn preset_search_steps_grow_monotonically() {
    let low = SmaaShaderDefs::low();
    let medium = SmaaShaderDefs::medium();
    let high = SmaaShaderDefs::high();
    let ultra = SmaaShaderDefs::ultra();
    assert!(low.max_search_steps <= medium.max_search_steps);
    assert!(medium.max_search_steps <= high.max_search_steps);
    assert!(high.max_search_steps <= ultra.max_search_steps);
    assert!(low.max_search_steps_diagonal <= medium.max_search_steps_diagonal);
    assert!(medium.max_search_steps_diagonal <= high.max_search_steps_diagonal);
    assert!(high.max_search_steps_diagonal <= ultra.max_search_steps_diagonal);
}

#[test]
fn low_preset_values() {
    let defs = SmaaShaderDefs::low();
    assert_eq!(defs.quality, SmaaQuality::Low);
    assert_eq!(defs.edge_threshold, 150);
    assert_eq!(defs.depth_threshold, 15);
    assert_eq!(defs.max_search_steps, 4);
    assert!(!defs.diag_detection);
    assert!(!defs.corner_detection);
}

#[test]
fn medium_preset_values() {
    let defs = SmaaShaderDefs::medium();
    assert_eq!(defs.quality, SmaaQuality::Medium);
    assert_eq!(defs.edge_threshold, 100);
    assert_eq!(defs.max_search_steps, 8);
    assert!(!defs.diag_detection);
    assert!(!defs.corner_detection);
}

#[test]
fn high_preset_values() {
    let defs = SmaaShaderDefs::high();
    assert_eq!(defs.quality, SmaaQuality::High);
    assert_eq!(defs.edge_threshold, 100);
    assert_eq!(defs.depth_threshold, 10);
    assert_eq!(defs.max_search_steps, 16);
    assert_eq!(defs.max_search_steps_diagonal, 8);
    assert_eq!(defs.corner_rounding, 25_000);
    assert!(defs.diag_detection);
    assert!(defs.corner_detection);
}

#[test]
fn ultra_preset_values() {
    let defs = SmaaShaderDefs::ultra();
    assert_eq!(defs.quality, SmaaQuality::Ultra);
    assert_eq!(defs.edge_threshold, 50);
    assert_eq!(defs.depth_threshold, 5);
    assert_eq!(defs.max_search_steps, 32);
    assert_eq!(defs.max_search_steps_diagonal, 16);
    assert!(defs.diag_detection);
    assert!(defs.corner_detection);
}

#[test]
fn default_bundle_is_high_values_tagged_custom() {
    let defs = SmaaShaderDefs::default();
    let high = SmaaShaderDefs::high();
    assert_eq!(defs.quality, SmaaQuality::Custom);
    assert_eq!(defs.edge_threshold, high.edge_threshold);
    assert_eq!(defs.depth_threshold, high.depth_threshold);
    assert_eq!(defs.max_search_steps, high.max_search_steps);
    assert_eq!(defs.max_search_steps_diagonal, high.max_search_steps_diagonal);
    assert_eq!(defs.local_contrast_adaptation_factor, 2_000);
    assert!(!defs.predication);
    assert!(!defs.temporal_reprojection);
    assert_eq!(defs.temporal_reprojection_weight_scale, 30_000);
}

#[test]
fn clamped_moves_out_of_range_fields_to_bounds() {
    let mut defs = SmaaShaderDefs::default();
    defs.edge_threshold = 600;
    defs.max_search_steps = 200;
    defs.max_search_steps_diagonal = 30;
    defs.corner_rounding = 200_000;
    defs.local_contrast_adaptation_factor = 500;
    defs.temporal_reprojection_weight_scale = 90_000;
    assert!(!defs.is_within_ranges());
    let clamped = defs.clamped();
    assert_eq!(clamped.edge_threshold, EDGE_THRESHOLD_MAX);
    assert_eq!(clamped.max_search_steps, MAX_SEARCH_STEPS_LIMIT);
    assert_eq!(
        clamped.max_search_steps_diagonal,
        MAX_SEARCH_STEPS_DIAGONAL_LIMIT
    );
    assert_eq!(clamped.corner_rounding, CORNER_ROUNDING_MAX);
    assert_eq!(
        clamped.local_contrast_adaptation_factor,
        LOCAL_CONTRAST_FACTOR_MIN
    );
    assert_eq!(
        clamped.temporal_reprojection_weight_scale,
        REPROJECTION_WEIGHT_SCALE_MAX
    );
    assert!(clamped.is_within_ranges());
}

#[test]
fn clamped_keeps_a_well_formed_bundle_unchanged() {
    let defs = SmaaShaderDefs::ultra();
    assert!(defs.is_within_ranges());
    assert_eq!(defs.clamped(), defs);
}

#[test]
fn mode_equality() {
    assert_eq!(BevySmaaMode::Disabled, BevySmaaMode::Disabled);
    assert_ne!(BevySmaaMode::Disabled, BevySmaaMode::Smaa1X);
}
