//! What the sliders of the settings do, for every setting and every position.

use vstd::prelude::*;
use crate::settings::{SettingKey, SpectrumSettings};

verus! {

/// The documented limits of a setting, in hundred-billionths.
pub open spec fn limits(key: SettingKey) -> (int, int) {
    match key {
        SettingKey::Sensitivity => (50_000_000_000, 200_000_000_000),
        SettingKey::Smoothing => (0, 95_000_000_000),
        SettingKey::PointSpacing => (2_000_000_000_000, 8_000_000_000_000),
        SettingKey::BlurStrength => (0, 8_000_000_000_000),
        SettingKey::Brightness => (40_000_000_000, 100_000_000_000),
        SettingKey::OverlayOpacity => (0, 30_000_000_000),
    }
}

/// The field that holds a setting.
pub open spec fn held(settings: SpectrumSettings, key: SettingKey) -> u64 {
    match key {
        SettingKey::Sensitivity => settings.sensitivity,
        SettingKey::Smoothing => settings.smoothing,
        SettingKey::PointSpacing => settings.point_spacing,
        SettingKey::BlurStrength => settings.blur_strength,
        SettingKey::Brightness => settings.brightness,
        SettingKey::OverlayOpacity => settings.overlay_opacity,
    }
}

/// The range of a setting, for each of them.
pub(crate) proof fn lemma_range(key: SettingKey, factor: int)
    ensures
        factor * (limits(key).1 - limits(key).0) == match key {
            SettingKey::Sensitivity => 150_000_000_000 * factor,
            SettingKey::Smoothing => 95_000_000_000 * factor,
            SettingKey::PointSpacing => 6_000_000_000_000 * factor,
            SettingKey::BlurStrength => 8_000_000_000_000 * factor,
            SettingKey::Brightness => 60_000_000_000 * factor,
            SettingKey::OverlayOpacity => 30_000_000_000 * factor,
        },
{
    let range = limits(key).1 - limits(key).0;
    let known: int = match key {
        SettingKey::Sensitivity => 150_000_000_000,
        SettingKey::Smoothing => 95_000_000_000,
        SettingKey::PointSpacing => 6_000_000_000_000,
        SettingKey::BlurStrength => 8_000_000_000_000,
        SettingKey::Brightness => 60_000_000_000,
        SettingKey::OverlayOpacity => 30_000_000_000,
    };
    assert(factor * range == known * factor) by (nonlinear_arith)
        requires
            range == known,
    ;
}

/// A slider moves its setting, in proportion, between the documented limits, and
/// no other setting. Beyond its far end it stays there.
pub proof fn law_a_slider_moves_its_setting_in_proportion(
    settings: &mut SpectrumSettings,
    key: SettingKey,
    position: u64,
    other: SettingKey,
)
    requires
        call_ensures(SpectrumSettings::set_normalized, (settings, key, position), ()),
    ensures
        ({
            let (low, high) = limits(key);
            let value = held(*final(settings), key);
            &&& position <= 1_000_000_000 ==> (value - low) * 1_000_000_000 == position * (high
                - low)
            &&& position >= 1_000_000_000 ==> value == high
        }),
        other != key ==> held(*final(settings), other) == held(*old(settings), other),
        final(settings).enabled == old(settings).enabled,
{
    lemma_range(key, position as int);
}

/// The position at which a slider stands among those that `normalized` returns.
pub open spec fn shown(positions: ([u64; 4], [u64; 4]), key: SettingKey) -> u64 {
    match key {
        SettingKey::Sensitivity => positions.0@[0],
        SettingKey::Smoothing => positions.0@[1],
        SettingKey::PointSpacing => positions.0@[2],
        SettingKey::BlurStrength => positions.0@[3],
        SettingKey::Brightness => positions.1@[0],
        SettingKey::OverlayOpacity => positions.1@[1],
    }
}

/// A slider stands at the part of the way between the documented limits at which
/// its setting lies, rounded down to a billionth; the switch stands at one or at
/// nothing.
pub proof fn law_a_slider_stands_where_its_setting_lies(
    settings: SpectrumSettings,
    positions: ([u64; 4], [u64; 4]),
    key: SettingKey,
)
    requires
        settings.in_range(),
        call_ensures(SpectrumSettings::normalized, (settings,), positions),
    ensures
        ({
            let (low, high) = limits(key);
            let value = held(settings, key);
            let position = shown(positions, key);
            &&& low <= value <= high
            &&& position * (high - low) <= (value - low) * 1_000_000_000 < (position + 1) * (high
                - low)
        }),
        positions.1@[2] == if settings.enabled {
            1_000_000_000u64
        } else {
            0u64
        },
        positions.1@[3] == 0,
{
    lemma_range(key, shown(positions, key) as int);
    lemma_range(key, shown(positions, key) + 1);
    assert(key.lowest() <= settings.value(key) <= key.highest());
}

/// Within its limits, settings are allowed whatever else they are.
pub proof fn law_the_limits_are_all_that_is_asked(settings: SpectrumSettings)
    ensures
        settings.in_range() <==> forall|key: SettingKey|
            limits(key).0 <= #[trigger] held(settings, key) <= limits(key).1,
{
    if settings.in_range() {
        assert forall|key: SettingKey| limits(key).0 <= #[trigger] held(settings, key) <= limits(
            key,
        ).1 by {
            assert(key.lowest() <= settings.value(key) <= key.highest());
        }
    }
    if forall|key: SettingKey| limits(key).0 <= #[trigger] held(settings, key) <= limits(key).1 {
        assert forall|key: SettingKey|
            key.lowest() <= #[trigger] settings.value(key) <= key.highest() by {
            assert(limits(key).0 <= held(settings, key) <= limits(key).1);
        }
    }
}

/// What was set is what is shown, for any setting and whatever the others are.
pub proof fn law_what_was_set_is_shown(
    settings: &mut SpectrumSettings,
    key: SettingKey,
    position: u64,
    positions: ([u64; 4], [u64; 4]),
)
    requires
        position <= 1_000_000_000,
        old(settings).in_range(),
        call_ensures(SpectrumSettings::set_normalized, (settings, key, position), ()),
        call_ensures(SpectrumSettings::normalized, (*final(settings),), positions),
    ensures
        shown(positions, key) == position,
{
}

} // verus!
