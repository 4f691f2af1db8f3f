use sphere_tracer::render::{
    nearest_hit, path_step, PathStep, RenderSettings, SettingsError, MAX_BOUNCE_LIMIT,
};
use sphere_tracer::screen::MAX_SIDE;

#[test]
fn default_settings_are_accepted() {
    let s = RenderSettings::new(2048, 2048, 32, 3).unwrap();
    assert_eq!(s.width(), 2048);
    assert_eq!(s.height(), 2048);
    assert_eq!(s.samples(), 32);
    assert_eq!(s.max_depth(), 3);
}

#[test]
fn settings_errors_in_order() {
    assert_eq!(RenderSettings::new(0, 4, 1, 1), Err(SettingsError::EmptyImage));
    assert_eq!(RenderSettings::new(4, 0, 0, 99), Err(SettingsError::EmptyImage));
    assert_eq!(RenderSettings::new(4, 4, 0, 99), Err(SettingsError::NoSamples));
    assert_eq!(RenderSettings::new(4, 4, 1, MAX_BOUNCE_LIMIT + 1), Err(SettingsError::TooDeep));
    assert_eq!(RenderSettings::new(40_000, 40_000, 1, 1), Err(SettingsError::TooLarge));
    assert!(RenderSettings::new(4, 4, 1, MAX_BOUNCE_LIMIT).is_ok());
}

#[test]
fn largest_bitmap_size_is_accepted() {
    // 54 + 3 * 16_777_216 * 85 = 4_278_190_134 fits a u32; one more row does not
    assert!(RenderSettings::new(MAX_SIDE, 85, 1, 1).is_ok());
    assert_eq!(RenderSettings::new(MAX_SIDE, 86, 1, 1), Err(SettingsError::TooLarge));
    assert_eq!(RenderSettings::new(MAX_SIDE + 1, 1, 1, 1), Err(SettingsError::TooLarge));
    assert_eq!(RenderSettings::new(1, MAX_SIDE + 1, 1, 1), Err(SettingsError::TooLarge));
}

#[test]
fn spent_budget_is_dark() {
    assert_eq!(path_step(3, 3, true), PathStep::Dark);
    assert_eq!(path_step(1, 1, false), PathStep::Dark);
    assert_eq!(path_step(0, 0, true), PathStep::Dark);
}

#[test]
fn hit_bounces() {
    assert_eq!(path_step(0, 1, true), PathStep::Bounce);
    assert_eq!(path_step(2, 3, true), PathStep::Bounce);
}

#[test]
fn secondary_miss_sees_the_lights() {
    assert_eq!(path_step(1, 3, false), PathStep::Sky);
    assert_eq!(path_step(1, 2, false), PathStep::Sky);
}

#[test]
fn primary_miss_is_black() {
    assert_eq!(path_step(0, 3, false), PathStep::Dark);
}

#[test]
fn single_bounce_budget_keeps_emittance_only() {
    // With a budget of one bounce a primary hit bounces once, and the
    // bounced ray is already at the budget, so it brings no light back.
    assert_eq!(path_step(0, 1, true), PathStep::Bounce);
    assert_eq!(path_step(1, 1, true), PathStep::Dark);
    assert_eq!(path_step(1, 1, false), PathStep::Dark);
}

#[test]
fn nearest_hit_takes_smallest_distance() {
    assert_eq!(nearest_hit(&[Some(9), Some(4), None, Some(7)]), Some(1));
    assert_eq!(nearest_hit(&[None, None, Some(0)]), Some(2));
}

#[test]
fn nearest_hit_tie_goes_to_first_sphere() {
    assert_eq!(nearest_hit(&[None, Some(5), Some(3), Some(3)]), Some(2));
    assert_eq!(nearest_hit(&[Some(1), Some(1)]), Some(0));
}

#[test]
fn nearest_hit_none_when_all_miss() {
    assert_eq!(nearest_hit(&[None, None]), None);
    assert_eq!(nearest_hit(&[]), None);
}

#[test]
fn nearest_hit_on_float_distance_keys() {
    // 14.0 (a sphere at z = 5 seen from z = -10) is nearer than 20.5
    let keys = [Some(20.5f32.to_bits()), Some(14.0f32.to_bits())];
    assert_eq!(nearest_hit(&keys), Some(1));
}
