use spectrum_native::settings::{SettingKey, SpectrumSettings, FRACTION_ONE, SETTING_ONE};

fn number(setting: u64) -> f32 {
    (setting as f64 / SETTING_ONE as f64) as f32
}

fn approximately(left: f32, right: f32) {
    assert!((left - right).abs() < 0.000_5, "{left} != {right}");
}

#[test]
fn defaults_preserve_the_browser_preset() {
    let settings = SpectrumSettings::default();
    assert!(settings.enabled);
    approximately(number(settings.sensitivity), 1.0);
    approximately(number(settings.smoothing), 0.67);
    approximately(number(settings.point_spacing), 40.0);
    approximately(number(settings.blur_strength), 40.0);
    approximately(number(settings.brightness), 0.8);
    approximately(number(settings.overlay_opacity), 0.1);
}

#[test]
fn normalized_settings_reach_their_documented_limits() {
    let mut settings = SpectrumSettings::default();
    settings.set_normalized(SettingKey::Sensitivity, 0);
    settings.set_normalized(SettingKey::Smoothing, FRACTION_ONE);
    settings.set_normalized(SettingKey::PointSpacing, FRACTION_ONE);
    settings.set_normalized(SettingKey::BlurStrength, 0);
    settings.set_normalized(SettingKey::Brightness, 0);
    settings.set_normalized(SettingKey::OverlayOpacity, FRACTION_ONE);
    approximately(number(settings.sensitivity), 0.5);
    approximately(number(settings.smoothing), 0.95);
    approximately(number(settings.point_spacing), 80.0);
    approximately(number(settings.blur_strength), 0.0);
    approximately(number(settings.brightness), 0.4);
    approximately(number(settings.overlay_opacity), 0.3);
}

#[test]
fn the_other_limits_are_the_documented_ones_too() {
    let mut settings = SpectrumSettings::default();
    settings.set_normalized(SettingKey::Sensitivity, FRACTION_ONE);
    settings.set_normalized(SettingKey::Smoothing, 0);
    settings.set_normalized(SettingKey::PointSpacing, 0);
    settings.set_normalized(SettingKey::BlurStrength, FRACTION_ONE);
    settings.set_normalized(SettingKey::Brightness, FRACTION_ONE);
    settings.set_normalized(SettingKey::OverlayOpacity, 0);
    assert_eq!(settings.sensitivity, 2 * SETTING_ONE);
    assert_eq!(settings.smoothing, 0);
    assert_eq!(settings.point_spacing, 20 * SETTING_ONE);
    assert_eq!(settings.blur_strength, 80 * SETTING_ONE);
    assert_eq!(settings.brightness, SETTING_ONE);
    assert_eq!(settings.overlay_opacity, 0);
}

#[test]
fn positions_beyond_the_end_are_the_end() {
    let mut settings = SpectrumSettings::default();
    settings.set_normalized(SettingKey::Sensitivity, 5 * FRACTION_ONE);
    assert_eq!(settings.sensitivity, 2 * SETTING_ONE);
}

#[test]
fn the_sliders_show_what_was_set() {
    let mut settings = SpectrumSettings::default();
    let positions = [123_456_789, 1, 999_999_999, 500_000_000, 333_333_333, 250_000_000];
    settings.set_normalized(SettingKey::Sensitivity, positions[0]);
    settings.set_normalized(SettingKey::Smoothing, positions[1]);
    settings.set_normalized(SettingKey::PointSpacing, positions[2]);
    settings.set_normalized(SettingKey::BlurStrength, positions[3]);
    settings.set_normalized(SettingKey::Brightness, positions[4]);
    settings.set_normalized(SettingKey::OverlayOpacity, positions[5]);
    let (first, second) = settings.normalized();
    assert_eq!(first, [positions[0], positions[1], positions[2], positions[3]]);
    assert_eq!(second, [positions[4], positions[5], FRACTION_ONE, 0]);
}

#[test]
fn the_preset_lies_where_the_sliders_show_it() {
    let (first, second) = SpectrumSettings::default().normalized();
    assert_eq!(first, [333_333_333, 705_263_157, 333_333_333, 500_000_000]);
    assert_eq!(second, [666_666_666, 333_333_333, FRACTION_ONE, 0]);
}

#[test]
fn setting_one_leaves_the_others_alone() {
    let mut settings = SpectrumSettings::default();
    settings.set_normalized(SettingKey::Brightness, 0);
    let preset = SpectrumSettings::default();
    assert_eq!(settings.brightness, 40_000_000_000);
    assert_eq!(settings.sensitivity, preset.sensitivity);
    assert_eq!(settings.smoothing, preset.smoothing);
    assert_eq!(settings.point_spacing, preset.point_spacing);
    assert_eq!(settings.blur_strength, preset.blur_strength);
    assert_eq!(settings.overlay_opacity, preset.overlay_opacity);
    assert!(settings.enabled);
}
