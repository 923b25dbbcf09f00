use spectrum_native::controls::{ControlAction, SliderControl};
use spectrum_native::geometry::{PhysicalPosition, PhysicalSize, Viewport, SCALE_ONE, SUBPIXELS};
use spectrum_native::settings::{SettingKey, FRACTION_ONE};

fn window(width: u32, height: u32) -> Viewport {
    Viewport { size: PhysicalSize { width, height }, scale: SCALE_ONE }
}

fn at(x: i64, y: i64) -> PhysicalPosition {
    PhysicalPosition { x: x * SUBPIXELS, y: y * SUBPIXELS }
}

#[test]
fn the_control_bar_is_laid_out_from_left_to_right() {
    let viewport = window(1280, 720);
    let press = |x, y| viewport.control_action(at(x, y), false);
    assert_eq!(press(36, 682), Some(ControlAction::TogglePlayback));
    assert_eq!(press(76, 682), Some(ControlAction::Seek(0)));
    assert_eq!(press(535, 682), Some(ControlAction::Seek(500_000_000)));
    assert_eq!(press(994, 682), Some(ControlAction::Seek(FRACTION_ONE)));
    assert_eq!(press(1040, 682), Some(ControlAction::ToggleMute));
    assert_eq!(press(1116, 682), Some(ControlAction::Volume(500_000_000)));
    assert_eq!(press(1200, 682), Some(ControlAction::ToggleSettings));
    assert_eq!(press(1230, 682), Some(ControlAction::ToggleSettings));
    assert_eq!(press(1231, 682), Some(ControlAction::ToggleFullscreen));
    assert_eq!(press(1279, 682), Some(ControlAction::ControlsBackground));
    assert_eq!(press(36, 650), Some(ControlAction::ControlsBackground));
    assert_eq!(press(36, 648), Some(ControlAction::ControlsBackground));
    assert_eq!(press(36, 647), None);
}

#[test]
fn the_settings_panel_is_laid_out_from_top_to_bottom() {
    // The panel reaches from 944 to 1264 and from 326 to 636.
    let viewport = window(1280, 720);
    let press = |x, y| viewport.control_action(at(x, y), true);
    let half = |key| Some(ControlAction::SetSpectrumSetting(key, 500_000_000));
    assert_eq!(press(1000, 330), Some(ControlAction::SettingsPanel));
    assert_eq!(press(1000, 370), Some(ControlAction::ToggleSpectrum));
    assert_eq!(press(1164, 408), half(SettingKey::Sensitivity));
    assert_eq!(press(1164, 442), half(SettingKey::Smoothing));
    assert_eq!(press(1164, 476), half(SettingKey::PointSpacing));
    assert_eq!(press(1164, 510), half(SettingKey::BlurStrength));
    assert_eq!(press(1164, 544), half(SettingKey::Brightness));
    assert_eq!(press(1164, 578), half(SettingKey::OverlayOpacity));
    assert_eq!(press(1000, 578), Some(ControlAction::SettingsPanel));
    assert_eq!(press(1000, 610), Some(ControlAction::ResetSpectrumSettings));
    assert_eq!(press(1100, 610), Some(ControlAction::SettingsPanel));
    assert_eq!(press(900, 500), None);
    assert_eq!(viewport.control_action(at(1164, 408), false), None);
}

#[test]
fn sliders_answer_a_little_before_their_start() {
    let viewport = window(1280, 720);
    let key = SettingKey::Sensitivity;
    assert_eq!(
        viewport.control_action(at(1076, 408), true),
        Some(ControlAction::SetSpectrumSetting(key, 0))
    );
    assert_eq!(viewport.control_action(at(1075, 408), true), Some(ControlAction::SettingsPanel));
    assert_eq!(
        viewport.control_action(at(1264, 408), true),
        Some(ControlAction::SetSpectrumSetting(key, FRACTION_ONE))
    );
}

#[test]
fn drags_follow_the_pointer_beyond_the_slider() {
    let viewport = window(1280, 720);
    let drag = |x, control| viewport.drag_action(at(x, -100), control);
    assert_eq!(drag(-50, SliderControl::Seek), ControlAction::Seek(0));
    assert_eq!(drag(535, SliderControl::Seek), ControlAction::Seek(500_000_000));
    assert_eq!(drag(5000, SliderControl::Seek), ControlAction::Seek(FRACTION_ONE));
    assert_eq!(drag(1088, SliderControl::Volume), ControlAction::Volume(250_000_000));
    assert_eq!(
        drag(1124, SliderControl::SpectrumSetting(SettingKey::Smoothing)),
        ControlAction::SetSpectrumSetting(SettingKey::Smoothing, 250_000_000)
    );
}

#[test]
fn presses_and_drags_agree_on_a_slider() {
    let viewport = window(1280, 720);
    assert_eq!(
        viewport.control_action(at(300, 682), false),
        Some(viewport.drag_action(at(300, 682), SliderControl::Seek))
    );
    assert_eq!(
        viewport.control_action(at(1100, 682), false),
        Some(viewport.drag_action(at(1100, 682), SliderControl::Volume))
    );
}

#[test]
fn a_larger_scale_makes_larger_controls() {
    let viewport = Viewport {
        size: PhysicalSize { width: 2560, height: 1440 },
        scale: 2 * SCALE_ONE,
    };
    assert_eq!(viewport.control_action(at(72, 1364), false), Some(ControlAction::TogglePlayback));
    assert_eq!(viewport.control_action(at(1070, 1364), false), Some(ControlAction::Seek(500_000_000)));
    assert_eq!(viewport.control_action(at(72, 1295), false), None);
}

#[test]
fn positions_between_pixels_count() {
    let viewport = window(1280, 720);
    let place = PhysicalPosition { x: 36 * SUBPIXELS, y: 648 * SUBPIXELS - 1 };
    assert_eq!(viewport.control_action(place, false), None);
    let seek = PhysicalPosition { x: 535 * SUBPIXELS + SUBPIXELS / 2, y: 682 * SUBPIXELS };
    assert_eq!(viewport.control_action(seek, false), Some(ControlAction::Seek(500_544_662)));
}

#[test]
fn narrow_windows_keep_the_playback_sliders_in_order() {
    let viewport = window(200, 720);
    assert_eq!(viewport.drag_action(at(86, 0), SliderControl::Seek), ControlAction::Seek(500_000_000));
    assert_eq!(
        viewport.drag_action(at(136, 0), SliderControl::Volume),
        ControlAction::Volume(500_000_000)
    );
}

#[test]
fn open_settings_leave_the_bar_alone() {
    let viewport = window(1280, 720);
    for x in 0..1280 {
        for y in [648, 670, 690, 719] {
            assert_eq!(
                viewport.control_action(at(x, y), true),
                viewport.control_action(at(x, y), false)
            );
        }
    }
}
