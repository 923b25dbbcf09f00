//! The spectrum settings that the viewer can change.
//!
//! A slider position is a number of billionths of the slider's length. A
//! setting is a number of hundred-billionths of its unit, so that every slider
//! position has an exact setting.

use vstd::prelude::*;

verus! {

/// A slider position at the far end of the slider.
pub const FRACTION_ONE: u64 = 1_000_000_000;

/// A setting of one.
pub const SETTING_ONE: u64 = 100_000_000_000;

#[derive(Clone, Copy, Debug, PartialEq, Eq, Structural)]
pub enum SettingKey {
    Sensitivity,
    Smoothing,
    PointSpacing,
    BlurStrength,
    Brightness,
    OverlayOpacity,
}

impl SettingKey {
    /// The setting with the slider at its near end.
    pub open spec fn lowest(self) -> int {
        match self {
            SettingKey::Sensitivity => SETTING_ONE as int / 2,
            SettingKey::Smoothing => 0,
            SettingKey::PointSpacing => 20 * SETTING_ONE,
            SettingKey::BlurStrength => 0,
            SettingKey::Brightness => 40 * (SETTING_ONE as int / 100),
            SettingKey::OverlayOpacity => 0,
        }
    }

    /// The setting with the slider at its far end.
    pub open spec fn highest(self) -> int {
        match self {
            SettingKey::Sensitivity => 2 * SETTING_ONE,
            SettingKey::Smoothing => 95 * (SETTING_ONE as int / 100),
            SettingKey::PointSpacing => 80 * SETTING_ONE,
            SettingKey::BlurStrength => 80 * SETTING_ONE,
            SettingKey::Brightness => SETTING_ONE as int,
            SettingKey::OverlayOpacity => 30 * (SETTING_ONE as int / 100),
        }
    }

    /// The setting that lies `position` billionths of the way from the lowest
    /// to the highest.
    pub open spec fn at(self, position: int) -> int {
        match self {
            SettingKey::Sensitivity => self.lowest() + 150 * position,
            SettingKey::Smoothing => self.lowest() + 95 * position,
            SettingKey::PointSpacing => self.lowest() + 6_000 * position,
            SettingKey::BlurStrength => self.lowest() + 8_000 * position,
            SettingKey::Brightness => self.lowest() + 60 * position,
            SettingKey::OverlayOpacity => self.lowest() + 30 * position,
        }
    }

    /// The last slider position at which the setting is not above `setting`.
    pub open spec fn position_of(self, setting: int) -> int {
        match self {
            SettingKey::Sensitivity => (setting - self.lowest()) / 150,
            SettingKey::Smoothing => (setting - self.lowest()) / 95,
            SettingKey::PointSpacing => (setting - self.lowest()) / 6_000,
            SettingKey::BlurStrength => (setting - self.lowest()) / 8_000,
            SettingKey::Brightness => (setting - self.lowest()) / 60,
            SettingKey::OverlayOpacity => (setting - self.lowest()) / 30,
        }
    }
}

/// A slider position, moved to the nearest end where it lies beyond one.
pub open spec fn clamped_fraction(position: u64) -> int {
    if position > FRACTION_ONE {
        FRACTION_ONE as int
    } else {
        position as int
    }
}

#[derive(Clone, Copy, Debug, PartialEq, Eq, Structural)]
pub struct SpectrumSettings {
    pub enabled: bool,
    pub sensitivity: u64,
    pub smoothing: u64,
    pub point_spacing: u64,
    pub blur_strength: u64,
    pub brightness: u64,
    pub overlay_opacity: u64,
}

impl Default for SpectrumSettings {
    fn default() -> (settings: Self)
        ensures
            settings == SpectrumSettings::preset(),
            settings.in_range(),
    {
        SpectrumSettings {
            enabled: true,
            sensitivity: 100_000_000_000,
            smoothing: 67_000_000_000,
            point_spacing: 4_000_000_000_000,
            blur_strength: 4_000_000_000_000,
            brightness: 80_000_000_000,
            overlay_opacity: 10_000_000_000,
        }
    }
}

impl SpectrumSettings {
    /// The settings that a reset restores: sensitivity 1.0, smoothing 0.67,
    /// points every 40 pixels, a blur of 40 pixels, 80 % brightness and 10 %
    /// overlay opacity.
    pub open spec fn preset() -> SpectrumSettings {
        SpectrumSettings {
            enabled: true,
            sensitivity: SETTING_ONE,
            smoothing: (67 * (SETTING_ONE / 100)) as u64,
            point_spacing: (40 * SETTING_ONE) as u64,
            blur_strength: (40 * SETTING_ONE) as u64,
            brightness: (80 * (SETTING_ONE / 100)) as u64,
            overlay_opacity: (10 * (SETTING_ONE / 100)) as u64,
        }
    }

    /// The value of one setting.
    pub open spec fn value(self, key: SettingKey) -> u64 {
        match key {
            SettingKey::Sensitivity => self.sensitivity,
            SettingKey::Smoothing => self.smoothing,
            SettingKey::PointSpacing => self.point_spacing,
            SettingKey::BlurStrength => self.blur_strength,
            SettingKey::Brightness => self.brightness,
            SettingKey::OverlayOpacity => self.overlay_opacity,
        }
    }

    /// Every setting lies between its lowest and its highest value.
    pub open spec fn in_range(self) -> bool {
        forall|key: SettingKey|
            key.lowest() <= #[trigger] self.value(key) <= key.highest()
    }

    /// These settings, with one of them moved to a slider position.
    pub open spec fn with_normalized(self, key: SettingKey, position: u64) -> SpectrumSettings {
        let setting = key.at(clamped_fraction(position)) as u64;
        match key {
            SettingKey::Sensitivity => SpectrumSettings { sensitivity: setting, ..self },
            SettingKey::Smoothing => SpectrumSettings { smoothing: setting, ..self },
            SettingKey::PointSpacing => SpectrumSettings { point_spacing: setting, ..self },
            SettingKey::BlurStrength => SpectrumSettings { blur_strength: setting, ..self },
            SettingKey::Brightness => SpectrumSettings { brightness: setting, ..self },
            SettingKey::OverlayOpacity => SpectrumSettings { overlay_opacity: setting, ..self },
        }
    }

    /// Moves one setting to a slider position.
    pub fn set_normalized(&mut self, key: SettingKey, value: u64)
        ensures
            *final(self) == old(self).with_normalized(key, value),
            final(self).value(key) == key.at(clamped_fraction(value)),
            forall|other: SettingKey|
                other != key ==> #[trigger] final(self).value(other) == old(self).value(other),
            final(self).enabled == old(self).enabled,
            old(self).in_range() ==> final(self).in_range(),
    {
        let value: u64 = if value > FRACTION_ONE {
            FRACTION_ONE
        } else {
            value
        };
        match key {
            SettingKey::Sensitivity => self.sensitivity = 50_000_000_000 + value * 150,
            SettingKey::Smoothing => self.smoothing = value * 95,
            SettingKey::PointSpacing => self.point_spacing = 2_000_000_000_000 + value * 6_000,
            SettingKey::BlurStrength => self.blur_strength = value * 8_000,
            SettingKey::Brightness => self.brightness = 40_000_000_000 + value * 60,
            SettingKey::OverlayOpacity => self.overlay_opacity = value * 30,
        }
        assert(old(self).in_range() ==> self.in_range()) by {
            if old(self).in_range() {
                assert forall|other: SettingKey|
                    other.lowest() <= #[trigger] self.value(other) <= other.highest() by {
                    assert(other.lowest() <= old(self).value(other) <= other.highest());
                }
            }
        }
    }

    /// The slider positions of all settings.
    pub open spec fn positions(self) -> (Seq<u64>, Seq<u64>) {
        (
            seq![
                SettingKey::Sensitivity.position_of(self.sensitivity as int) as u64,
                SettingKey::Smoothing.position_of(self.smoothing as int) as u64,
                SettingKey::PointSpacing.position_of(self.point_spacing as int) as u64,
                SettingKey::BlurStrength.position_of(self.blur_strength as int) as u64,
            ],
            seq![
                SettingKey::Brightness.position_of(self.brightness as int) as u64,
                SettingKey::OverlayOpacity.position_of(self.overlay_opacity as int) as u64,
                if self.enabled {
                    FRACTION_ONE
                } else {
                    0u64
                },
                0u64,
            ],
        )
    }

    /// The slider positions of all settings, in the order in which the panel
    /// lists them; the last but one says whether the spectrum is enabled.
    pub fn normalized(self) -> (positions: ([u64; 4], [u64; 4]))
        requires
            self.in_range(),
        ensures
            positions.0@ == self.positions().0,
            positions.1@ == self.positions().1,
            forall|key: SettingKey|
                0 <= #[trigger] key.position_of(self.value(key) as int) <= FRACTION_ONE,
    {
        assert(SettingKey::Sensitivity.lowest() <= self.value(SettingKey::Sensitivity));
        assert(SettingKey::PointSpacing.lowest() <= self.value(SettingKey::PointSpacing));
        assert(SettingKey::Brightness.lowest() <= self.value(SettingKey::Brightness));
        assert forall|key: SettingKey|
            0 <= #[trigger] key.position_of(self.value(key) as int) <= FRACTION_ONE by {
            assert(key.lowest() <= self.value(key) <= key.highest());
        }
        let enabled: u64 = if self.enabled {
            FRACTION_ONE
        } else {
            0
        };
        (
            [
                (self.sensitivity - 50_000_000_000) / 150,
                self.smoothing / 95,
                (self.point_spacing - 2_000_000_000_000) / 6_000,
                self.blur_strength / 8_000,
            ],
            [
                (self.brightness - 40_000_000_000) / 60,
                self.overlay_opacity / 30,
                enabled,
                0,
            ],
        )
    }
}

/// A setting that was moved to a slider position is shown at that position.
pub proof fn law_slider_shows_what_was_set(
    settings: SpectrumSettings,
    key: SettingKey,
    position: u64,
)
    ensures
        key.position_of(settings.with_normalized(key, position).value(key) as int)
            == clamped_fraction(position),
{
}

/// The ends of a slider reach the limits of its setting, and no position goes
/// beyond them.
pub proof fn law_slider_ends_are_the_limits(key: SettingKey, position: int)
    ensures
        key.at(0) == key.lowest(),
        key.at(FRACTION_ONE as int) == key.highest(),
        0 <= position <= FRACTION_ONE ==> key.lowest() <= key.at(position) <= key.highest(),
{
}

/// The position that is shown for a setting is the last one that does not go
/// beyond it.
pub proof fn law_position_is_the_last_not_beyond(key: SettingKey, setting: int)
    ensures
        key.at(key.position_of(setting)) <= setting < key.at(key.position_of(setting) + 1),
{
}

/// Moving a slider further never lowers its setting.
pub proof fn law_sliders_are_monotone(key: SettingKey, near: int, far: int)
    requires
        near <= far,
    ensures
        key.at(near) <= key.at(far),
{
}

/// Of two positions given to one slider in turn only the later one counts, and
/// sliders of different settings can be moved in either order.
pub proof fn law_settings_are_independent(
    settings: SpectrumSettings,
    key: SettingKey,
    other: SettingKey,
    first: u64,
    second: u64,
)
    ensures
        settings.with_normalized(key, first).with_normalized(key, second)
            == settings.with_normalized(key, second),
        key != other ==> settings.with_normalized(key, first).with_normalized(other, second)
            == settings.with_normalized(other, second).with_normalized(key, first),
{
}

} // verus!
