//! Where the controls lie, for every window.
//!
//! The laws compare lengths in 4800ths of a 65536th of a physical pixel, of
//! which a logical pixel has `65_536 * scale`.

use vstd::prelude::*;
use crate::controls::{slider_fraction, ControlAction, SliderControl};
use crate::geometry::{PhysicalPosition, Viewport};
use crate::settings::SettingKey;

verus! {

proof fn lemma_fraction(x: int, start: int, end: int)
    requires
        start < end,
    ensures
        ({
            let fraction = slider_fraction(x, start, end);
            &&& 0 <= fraction <= 1_000_000_000
            &&& x <= start ==> fraction == 0
            &&& x >= end ==> fraction == 1_000_000_000
            &&& start < x < end ==> {
                &&& fraction * (end - start) <= (x - start) * 1_000_000_000
                &&& (x - start) * 1_000_000_000 < (fraction + 1) * (end - start)
            }
        }),
{
    if start < x < end {
        let (scaled, length) = ((x - start) * 1_000_000_000, end - start);
        vstd::arithmetic::div_mod::lemma_fundamental_div_mod(scaled, length);
        vstd::arithmetic::div_mod::lemma_mod_bound(scaled, length);
        let fraction = scaled / length;
        assert(fraction * length <= scaled < (fraction + 1) * length) by (nonlinear_arith)
            requires
                scaled == length * fraction + scaled % length,
                0 <= scaled % length < length,
        ;
        assert(0 <= fraction <= 1_000_000_000) by (nonlinear_arith)
            requires
                0 < length,
                0 <= scaled <= length * 1_000_000_000,
                fraction == scaled / length,
        ;
    }
}

/// The control bar covers the lowest 72 logical pixels of the window from side
/// to side, and while the settings are closed nothing else can be pressed.
pub proof fn law_the_bar_covers_the_lower_edge(
    viewport: Viewport,
    position: PhysicalPosition,
    settings_open: bool,
    action: Option<ControlAction>,
)
    requires
        viewport.wf(),
        call_ensures(Viewport::control_action, (viewport, position, settings_open), action),
    ensures
        ({
            let (y, px) = (position.y * 4_800, 65_536 * viewport.scale);
            let height = viewport.size.height * 65_536 * 4_800;
            &&& y >= height - 72 * px ==> action is Some
            &&& y < height - 72 * px && !settings_open ==> action is None
        }),
{
}

/// What each place of the control bar does. From the left there are the play
/// button, 16 to 56 logical pixels from the left edge; the timeline, from 76 to
/// 286 before the right edge, but at least 20 long; the mute button and the volume
/// slider, up to 108 before the right edge, but behind the timeline and at least 20
/// long; the settings button, from 88 to 50 before the right edge; and the
/// fullscreen button, from 50 to 8 before it. Where they overlap the first of them
/// is pressed. An open settings panel changes none of them.
pub proof fn law_the_bar_from_left_to_right(
    viewport: Viewport,
    position: PhysicalPosition,
    settings_open: bool,
    action: Option<ControlAction>,
)
    requires
        viewport.wf(),
        call_ensures(Viewport::control_action, (viewport, position, settings_open), action),
        position.y * 4_800 >= viewport.size.height * 65_536 * 4_800 - 72 * (65_536
            * viewport.scale),
    ensures
        ({
            let px = 65_536 * viewport.scale;
            let left = position.x * 4_800;
            let right = viewport.size.width * 65_536 * 4_800 - left;
            let up = viewport.size.height * 65_536 * 4_800 - position.y * 4_800;
            let width = left + right;
            let timeline_end = if width >= 382 * px {
                width - 286 * px
            } else {
                96 * px
            };
            let volume_start = if width - 220 * px >= timeline_end + 30 * px {
                width - 220 * px
            } else {
                timeline_end + 30 * px
            };
            let volume_end = if width - 108 * px >= volume_start + 20 * px {
                width - 108 * px
            } else {
                volume_start + 20 * px
            };
            let tall = 18 * px <= up <= 58 * px;
            let flat = 20 * px <= up <= 52 * px;
            let play = tall && 16 * px <= left <= 56 * px;
            let seek = flat && 76 * px <= left <= timeline_end;
            let mute = !seek && flat && volume_start - 32 * px <= left <= volume_start - 4 * px;
            let volume = flat && volume_start <= left <= volume_end;
            let gear = tall && 50 * px <= right <= 88 * px && !play && !seek && !mute && !volume;
            let full = tall && 8 * px <= right < 50 * px && !play && !seek && !mute && !volume;
            &&& play <==> action == Some(ControlAction::TogglePlayback)
            &&& seek <==> (action matches Some(ControlAction::Seek(_)))
            &&& mute <==> action == Some(ControlAction::ToggleMute)
            &&& volume <==> (action matches Some(ControlAction::Volume(_)))
            &&& gear <==> action == Some(ControlAction::ToggleSettings)
            &&& full <==> action == Some(ControlAction::ToggleFullscreen)
            &&& !play && !seek && !mute && !volume && !gear && !full <==> action == Some(
                ControlAction::ControlsBackground,
            )
        }),
{
}

/// In every window that is wide enough for all controls, the settings and the
/// fullscreen button have their distance from the right edge.
pub proof fn law_the_buttons_at_the_right_edge(
    viewport: Viewport,
    position: PhysicalPosition,
    settings_open: bool,
    action: Option<ControlAction>,
)
    requires
        viewport.wf(),
        call_ensures(Viewport::control_action, (viewport, position, settings_open), action),
        viewport.size.width * 4_800 >= 402 * viewport.scale,
        ({
            let px = 65_536 * viewport.scale;
            let up = viewport.size.height * 65_536 * 4_800 - position.y * 4_800;
            18 * px <= up <= 58 * px
        }),
    ensures
        ({
            let px = 65_536 * viewport.scale;
            let right = viewport.size.width * 65_536 * 4_800 - position.x * 4_800;
            &&& 50 * px <= right <= 88 * px ==> action == Some(ControlAction::ToggleSettings)
            &&& 8 * px <= right < 50 * px ==> action == Some(ControlAction::ToggleFullscreen)
            &&& right < 8 * px ==> action == Some(ControlAction::ControlsBackground)
        }),
{
}

/// Widening a window that holds all controls moves what is found behind the
/// timeline with the right edge, values of the volume slider and all that is in the
/// settings panel included.
pub proof fn law_the_right_end_follows_the_right_edge(
    narrow: Viewport,
    wide: Viewport,
    position: PhysicalPosition,
    moved: PhysicalPosition,
    settings_open: bool,
    action: Option<ControlAction>,
    moved_action: Option<ControlAction>,
)
    requires
        narrow.wf(),
        narrow.scale == wide.scale,
        narrow.size.height == wide.size.height,
        narrow.size.width <= wide.size.width,
        narrow.size.width * 4_800 >= 402 * narrow.scale,
        position.y == moved.y,
        moved.x - position.x == (wide.size.width - narrow.size.width) * 65_536,
        position.x * 4_800 > narrow.size.width * 65_536 * 4_800 - 286 * (65_536 * narrow.scale)
            || position.y * 4_800 < narrow.size.height * 65_536 * 4_800 - 72 * (65_536
            * narrow.scale),
        call_ensures(Viewport::control_action, (narrow, position, settings_open), action),
        call_ensures(Viewport::control_action, (wide, moved, settings_open), moved_action),
    ensures
        action == moved_action,
{
}

/// The play button and what lies left of the timeline stay at the left edge,
/// however wide the window is.
pub proof fn law_the_left_end_stays_at_the_left_edge(
    one: Viewport,
    other: Viewport,
    position: PhysicalPosition,
    action: Option<ControlAction>,
    other_action: Option<ControlAction>,
)
    requires
        one.wf(),
        one.scale == other.scale,
        one.size.height == other.size.height,
        one.size.width * 4_800 >= 402 * one.scale,
        other.size.width * 4_800 >= 402 * one.scale,
        position.x * 4_800 < 76 * (65_536 * one.scale),
        call_ensures(Viewport::control_action, (one, position, false), action),
        call_ensures(Viewport::control_action, (other, position, false), other_action),
    ensures
        action == other_action,
{
}

/// All controls keep their distance from the lower edge, however high the window
/// is.
pub proof fn law_the_controls_follow_the_lower_edge(
    low: Viewport,
    high: Viewport,
    position: PhysicalPosition,
    moved: PhysicalPosition,
    settings_open: bool,
    action: Option<ControlAction>,
    moved_action: Option<ControlAction>,
)
    requires
        low.wf(),
        low.scale == high.scale,
        low.size.width == high.size.width,
        position.x == moved.x,
        moved.y - position.y == (high.size.height - low.size.height) * 65_536,
        call_ensures(Viewport::control_action, (low, position, settings_open), action),
        call_ensures(Viewport::control_action, (high, moved, settings_open), moved_action),
    ensures
        action == moved_action,
{
}

/// What each place of the open settings panel does. The panel is 310 logical
/// pixels high, ends 84 above the lower edge and reaches from 336, but no further
/// than 16 from the left edge, to 16 before the right edge. Its switch and its
/// sliders have rows of 28 logical pixels, one every 34, and the reset button has
/// the lowest row.
pub proof fn law_the_panel_from_top_to_bottom(
    viewport: Viewport,
    position: PhysicalPosition,
    action: Option<ControlAction>,
)
    requires
        viewport.wf(),
        call_ensures(Viewport::control_action, (viewport, position, true), action),
    ensures
        ({
            let px = 65_536 * viewport.scale;
            let width = viewport.size.width * 65_536 * 4_800;
            let panel_left = if width >= 352 * px {
                width - 336 * px
            } else {
                16 * px
            };
            let x = position.x * 4_800 - panel_left;
            let right = width - position.x * 4_800;
            let y = position.y * 4_800 - (viewport.size.height * 65_536 * 4_800 - 394 * px);
            let inside = 0 <= x && 16 * px <= right && 0 <= y <= 310 * px;
            let row = |n: int| 34 * px * n + 34 * px <= y <= 34 * px * n + 62 * px;
            let slides = inside && x >= 132 * px;
            let reset = inside && 16 * px <= x <= 96 * px && 274 * px <= y <= 302 * px;
            let sets = |key: SettingKey|
                action matches Some(ControlAction::SetSpectrumSetting(found, _)) && found == key;
            &&& inside && row(0) <==> action == Some(ControlAction::ToggleSpectrum)
            &&& slides && row(1) <==> sets(SettingKey::Sensitivity)
            &&& slides && row(2) <==> sets(SettingKey::Smoothing)
            &&& slides && row(3) <==> sets(SettingKey::PointSpacing)
            &&& slides && row(4) <==> sets(SettingKey::BlurStrength)
            &&& slides && row(5) <==> sets(SettingKey::Brightness)
            &&& slides && row(6) <==> sets(SettingKey::OverlayOpacity)
            &&& reset <==> action == Some(ControlAction::ResetSpectrumSettings)
            &&& inside && !reset && !row(0) && !(slides && (row(1) || row(2) || row(3) || row(4)
                || row(5) || row(6))) <==> action == Some(ControlAction::SettingsPanel)
            &&& !inside && y < 322 * px ==> action is None
        }),
{
}

/// Where the pointer drags the timeline to: nothing before 76 logical pixels
/// from the left edge, all from 286 before the right edge on, and in between the
/// part of that length which lies before the pointer, rounded down.
pub proof fn law_the_timeline_follows_the_pointer(
    viewport: Viewport,
    position: PhysicalPosition,
    action: ControlAction,
)
    requires
        viewport.wf(),
        call_ensures(Viewport::drag_action, (viewport, position, SliderControl::Seek), action),
    ensures
        action is Seek,
        ({
            let px = 65_536 * viewport.scale;
            let value = action->Seek_0;
            let width = viewport.size.width * 65_536 * 4_800;
            let length = if width >= 382 * px {
                width - 362 * px
            } else {
                20 * px
            };
            let x = position.x * 4_800 - 76 * px;
            &&& x <= 0 ==> value == 0
            &&& x >= length ==> value == 1_000_000_000
            &&& 0 < x < length ==> value * length <= x * 1_000_000_000 < (value + 1) * length
        }),
{
    let px = 65_536 * viewport.scale;
    let end = if viewport.size.width * 65_536 * 4_800 >= 382 * px {
        viewport.size.width * 65_536 * 4_800 - 286 * px
    } else {
        96 * px
    };
    lemma_fraction(position.x * 4_800, 76 * px, end);
}

/// Where the pointer drags the volume slider to. In a window that holds all
/// controls it reaches from 220 to 108 logical pixels before the right edge.
pub proof fn law_the_volume_follows_the_pointer(
    viewport: Viewport,
    position: PhysicalPosition,
    action: ControlAction,
)
    requires
        viewport.wf(),
        call_ensures(Viewport::drag_action, (viewport, position, SliderControl::Volume), action),
    ensures
        action is Volume,
        ({
            let px = 65_536 * viewport.scale;
            let value = action->Volume_0;
            let width = viewport.size.width * 65_536 * 4_800;
            let start = if width >= 346 * px {
                width - 220 * px
            } else {
                126 * px
            };
            let length = if width - 108 * px >= start + 20 * px {
                width - 108 * px - start
            } else {
                20 * px
            };
            let x = position.x * 4_800 - start;
            &&& x <= 0 ==> value == 0
            &&& x >= length ==> value == 1_000_000_000
            &&& 0 < x < length ==> value * length <= x * 1_000_000_000 < (value + 1) * length
        }),
{
    let px = 65_536 * viewport.scale;
    let width = viewport.size.width * 65_536 * 4_800;
    let start = if width >= 346 * px {
        width - 220 * px
    } else {
        126 * px
    };
    let end = if width - 108 * px >= start + 20 * px {
        width - 108 * px
    } else {
        start + 20 * px
    };
    lemma_fraction(position.x * 4_800, start, end);
}

/// Where the pointer drags a slider of the settings to: it reaches from 140
/// logical pixels behind the panel's left edge to 36 before the right edge of the
/// window, where there is room for it.
pub proof fn law_a_setting_follows_the_pointer(
    viewport: Viewport,
    position: PhysicalPosition,
    key: SettingKey,
    action: ControlAction,
)
    requires
        viewport.wf(),
        call_ensures(
            Viewport::drag_action,
            (viewport, position, SliderControl::SpectrumSetting(key)),
            action,
        ),
        viewport.size.width * 4_800 > 192 * viewport.scale,
    ensures
        action matches ControlAction::SetSpectrumSetting(found, _) && found == key,
        ({
            let px = 65_536 * viewport.scale;
            let value = action->SetSpectrumSetting_1;
            let width = viewport.size.width * 65_536 * 4_800;
            let start = if width >= 352 * px {
                width - 196 * px
            } else {
                156 * px
            };
            let length = width - 36 * px - start;
            let x = position.x * 4_800 - start;
            &&& x <= 0 ==> value == 0
            &&& x >= length ==> value == 1_000_000_000
            &&& 0 < x < length ==> value * length <= x * 1_000_000_000 < (value + 1) * length
        }),
{
    let px = 65_536 * viewport.scale;
    let width = viewport.size.width * 65_536 * 4_800;
    let start = if width >= 352 * px {
        width - 196 * px
    } else {
        156 * px
    };
    lemma_fraction(position.x * 4_800, start, width - 36 * px);
}

/// In a window too narrow for the settings sliders they run backwards: nothing
/// behind their start, all from their end on.
pub proof fn law_a_setting_runs_backwards_in_narrow_windows(
    viewport: Viewport,
    position: PhysicalPosition,
    key: SettingKey,
    action: ControlAction,
)
    requires
        viewport.wf(),
        call_ensures(
            Viewport::drag_action,
            (viewport, position, SliderControl::SpectrumSetting(key)),
            action,
        ),
        viewport.size.width * 4_800 < 192 * viewport.scale,
    ensures
        action matches ControlAction::SetSpectrumSetting(found, _) && found == key,
        ({
            let px = 65_536 * viewport.scale;
            let value = action->SetSpectrumSetting_1;
            let length = 192 * px - viewport.size.width * 65_536 * 4_800;
            let x = 156 * px - position.x * 4_800;
            &&& x <= 0 ==> value == 0
            &&& x >= length ==> value == 1_000_000_000
            &&& 0 < x < length ==> value * length <= x * 1_000_000_000 < (value + 1) * length
        }),
{
    let px = 65_536 * viewport.scale;
    let end = viewport.size.width * 65_536 * 4_800 - 36 * px;
    lemma_fraction(-(position.x * 4_800), -(156 * px), -end);
}

/// Pressing a slider sets it to what dragging it to that place sets it to.
pub proof fn law_a_press_starts_a_drag(
    viewport: Viewport,
    position: PhysicalPosition,
    settings_open: bool,
    pressed: Option<ControlAction>,
    control: SliderControl,
    dragged: ControlAction,
)
    requires
        call_ensures(Viewport::control_action, (viewport, position, settings_open), pressed),
        call_ensures(Viewport::drag_action, (viewport, position, control), dragged),
    ensures
        match (pressed, control) {
            (Some(ControlAction::Seek(_)), SliderControl::Seek) => pressed == Some(dragged),
            (Some(ControlAction::Volume(_)), SliderControl::Volume) => pressed == Some(dragged),
            (
                Some(ControlAction::SetSpectrumSetting(found, _)),
                SliderControl::SpectrumSetting(key),
            ) => found == key ==> pressed == Some(dragged),
            _ => true,
        },
{
}

} // verus!
