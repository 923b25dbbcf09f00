//! Where the on-screen controls are and what a pointer does to them.

use vstd::prelude::*;
use crate::geometry::{
    between, contains, grains, larger, max_length, PhysicalPosition, Viewport,
};
use crate::settings::{SettingKey, FRACTION_ONE};

verus! {

#[derive(Clone, Copy, Debug, PartialEq, Eq, Structural)]
pub enum ControlAction {
    TogglePlayback,
    Seek(u64),
    ToggleMute,
    Volume(u64),
    ToggleFullscreen,
    ToggleSettings,
    ToggleSpectrum,
    SetSpectrumSetting(SettingKey, u64),
    ResetSpectrumSettings,
    SettingsPanel,
    ControlsBackground,
}

#[derive(Clone, Copy, Debug, PartialEq, Eq, Structural)]
pub enum SliderControl {
    Seek,
    Volume,
    SpectrumSetting(SettingKey),
}

/// The part of a slider, in billionths rounded down, that lies before `x`;
/// nothing where `x` lies before the slider, all of it where `x` lies behind.
/// In a window too narrow for it a slider can run backwards.
pub open spec fn slider_fraction(x: int, start: int, end: int) -> int {
    let (travelled, length) = if start <= end {
        (x - start, end - start)
    } else {
        (start - x, start - end)
    };
    if travelled <= 0 {
        0
    } else if travelled >= length {
        FRACTION_ONE as int
    } else {
        travelled * FRACTION_ONE / length
    }
}

impl Viewport {
    pub open spec fn seek_start(self) -> int {
        76 * self.px()
    }

    pub open spec fn seek_end(self) -> int {
        larger(self.width() - 286 * self.px(), 96 * self.px())
    }

    pub open spec fn volume_start(self) -> int {
        larger(self.width() - 220 * self.px(), self.seek_end() + 30 * self.px())
    }

    pub open spec fn volume_end(self) -> int {
        larger(self.width() - 108 * self.px(), self.volume_start() + 20 * self.px())
    }

    pub open spec fn panel_right(self) -> int {
        self.width() - 16 * self.px()
    }

    pub open spec fn panel_left(self) -> int {
        larger(self.panel_right() - 320 * self.px(), 16 * self.px())
    }

    pub open spec fn panel_bottom(self) -> int {
        self.height() - 84 * self.px()
    }

    pub open spec fn panel_top(self) -> int {
        self.panel_bottom() - 310 * self.px()
    }

    pub open spec fn setting_start(self) -> int {
        self.panel_left() + 140 * self.px()
    }

    pub open spec fn setting_end(self) -> int {
        self.panel_right() - 20 * self.px()
    }

    /// The settings panel covers a place.
    pub open spec fn in_panel(self, x: int, y: int) -> bool {
        &&& between(x, self.panel_left(), self.panel_right())
        &&& between(y, self.panel_top(), self.panel_bottom())
    }

    /// A place lies within a row of the panel, at so many logical pixels below
    /// the panel's top.
    pub open spec fn in_panel_row(self, y: int, from: int, to: int) -> bool {
        between(y, self.panel_top() + from * self.px(), self.panel_top() + to * self.px())
    }

    /// The setting whose slider stands in the row at a height.
    pub open spec fn slider_row(self, y: int) -> Option<SettingKey> {
        if self.in_panel_row(y, 68, 96) {
            Some(SettingKey::Sensitivity)
        } else if self.in_panel_row(y, 102, 130) {
            Some(SettingKey::Smoothing)
        } else if self.in_panel_row(y, 136, 164) {
            Some(SettingKey::PointSpacing)
        } else if self.in_panel_row(y, 170, 198) {
            Some(SettingKey::BlurStrength)
        } else if self.in_panel_row(y, 204, 232) {
            Some(SettingKey::Brightness)
        } else if self.in_panel_row(y, 238, 266) {
            Some(SettingKey::OverlayOpacity)
        } else {
            None
        }
    }

    /// What a press does at a place that the settings panel covers.
    pub open spec fn panel_action(self, x: int, y: int) -> ControlAction {
        if self.in_panel_row(y, 34, 62) {
            ControlAction::ToggleSpectrum
        } else if self.slider_row(y) is Some && x >= self.setting_start() - 8 * self.px() {
            ControlAction::SetSpectrumSetting(
                self.slider_row(y)->0,
                slider_fraction(x, self.setting_start(), self.setting_end()) as u64,
            )
        } else if between(x, self.panel_left() + 16 * self.px(), self.panel_left() + 96 * self.px())
            && self.in_panel_row(y, 274, 302) {
            ControlAction::ResetSpectrumSettings
        } else {
            ControlAction::SettingsPanel
        }
    }

    /// A place lies in a band of the control bar, at so many logical pixels
    /// above the window's lower edge.
    pub open spec fn in_bar(self, y: int, from: int, to: int) -> bool {
        between(y, self.height() - from * self.px(), self.height() - to * self.px())
    }

    /// What a press does at a place in the control bar.
    pub open spec fn bar_action(self, x: int, y: int) -> ControlAction {
        if between(x, 16 * self.px(), 56 * self.px()) && self.in_bar(y, 58, 18) {
            ControlAction::TogglePlayback
        } else if between(x, self.seek_start(), self.seek_end()) && self.in_bar(y, 52, 20) {
            ControlAction::Seek(slider_fraction(x, self.seek_start(), self.seek_end()) as u64)
        } else if between(
            x,
            self.volume_start() - 32 * self.px(),
            self.volume_start() - 4 * self.px(),
        ) && self.in_bar(y, 52, 20) {
            ControlAction::ToggleMute
        } else if between(x, self.volume_start(), self.volume_end()) && self.in_bar(y, 52, 20) {
            ControlAction::Volume(slider_fraction(x, self.volume_start(), self.volume_end()) as u64)
        } else if between(x, self.width() - 88 * self.px(), self.width() - 50 * self.px())
            && self.in_bar(y, 58, 18) {
            ControlAction::ToggleSettings
        } else if between(x, self.width() - 50 * self.px(), self.width() - 8 * self.px())
            && self.in_bar(y, 58, 18) {
            ControlAction::ToggleFullscreen
        } else {
            ControlAction::ControlsBackground
        }
    }

    /// What a press does at a place in the window: nothing outside the settings
    /// panel, where that is open, and the control bar, the lowest 72 logical
    /// pixels.
    pub open spec fn press(
        self,
        position: PhysicalPosition,
        settings_open: bool,
    ) -> Option<ControlAction> {
        let (x, y) = (grains(position.x), grains(position.y));
        if settings_open && self.in_panel(x, y) {
            Some(self.panel_action(x, y))
        } else if y < self.height() - 72 * self.px() {
            None
        } else {
            Some(self.bar_action(x, y))
        }
    }

    /// What dragging a slider to a place does, wherever that is.
    pub open spec fn drag(self, position: PhysicalPosition, control: SliderControl) -> ControlAction {
        let x = grains(position.x);
        match control {
            SliderControl::Seek => ControlAction::Seek(
                slider_fraction(x, self.seek_start(), self.seek_end()) as u64,
            ),
            SliderControl::Volume => ControlAction::Volume(
                slider_fraction(x, self.volume_start(), self.volume_end()) as u64,
            ),
            SliderControl::SpectrumSetting(key) => ControlAction::SetSpectrumSetting(
                key,
                slider_fraction(x, self.setting_start(), self.setting_end()) as u64,
            ),
        }
    }
}

/// A length that leaves room for the arithmetic on it.
spec fn moderate(length: int) -> bool {
    -0x1_0000_0000_0000_0000_0000_0000 < length < 0x1_0000_0000_0000_0000_0000_0000
}

fn fraction_along(x: i128, start: i128, end: i128) -> (fraction: u64)
    requires
        moderate(x as int),
        moderate(start as int),
        moderate(end as int),
    ensures
        fraction == slider_fraction(x as int, start as int, end as int),
        fraction <= FRACTION_ONE,
{
    let (travelled, length): (i128, i128) = if start <= end {
        (x - start, end - start)
    } else {
        (start - x, start - end)
    };
    if travelled <= 0 {
        0
    } else if travelled >= length {
        FRACTION_ONE
    } else {
        let scaled: i128 = travelled * 1_000_000_000;
        assert(0 <= scaled / length <= 1_000_000_000) by (nonlinear_arith)
            requires
                0 <= scaled <= length * 1_000_000_000,
                length > 0,
        ;
        (scaled / length) as u64
    }
}

/// The edges of the sliders, in grains.
struct Edges {
    px: i128,
    width: i128,
    height: i128,
    seek_end: i128,
    volume_start: i128,
    volume_end: i128,
    panel_left: i128,
    panel_right: i128,
    panel_top: i128,
    panel_bottom: i128,
}

impl Edges {
    spec fn of(self, v: Viewport) -> bool {
        &&& self.px == v.px()
        &&& self.width == v.width()
        &&& self.height == v.height()
        &&& self.seek_end == v.seek_end()
        &&& self.volume_start == v.volume_start()
        &&& self.volume_end == v.volume_end()
        &&& self.panel_left == v.panel_left()
        &&& self.panel_right == v.panel_right()
        &&& self.panel_top == v.panel_top()
        &&& self.panel_bottom == v.panel_bottom()
    }

    fn new(v: Viewport) -> (edges: Edges)
        requires
            v.wf(),
        ensures
            edges.of(v),
    {
        let px: i128 = 65_536 * v.scale as i128;
        let width: i128 = v.size.width as i128 * 65_536 * 4_800;
        let height: i128 = v.size.height as i128 * 65_536 * 4_800;
        let seek_end: i128 = max_length(width - 286 * px, 96 * px);
        let volume_start: i128 = max_length(width - 220 * px, seek_end + 30 * px);
        let volume_end: i128 = max_length(width - 108 * px, volume_start + 20 * px);
        let panel_right: i128 = width - 16 * px;
        let panel_left: i128 = max_length(panel_right - 320 * px, 16 * px);
        let panel_bottom: i128 = height - 84 * px;
        let panel_top: i128 = panel_bottom - 310 * px;
        Edges {
            px,
            width,
            height,
            seek_end,
            volume_start,
            volume_end,
            panel_left,
            panel_right,
            panel_top,
            panel_bottom,
        }
    }
}

impl Viewport {
    fn slider_row_at(self, edges: &Edges, y: i128) -> (row: Option<SettingKey>)
        requires
            self.wf(),
            edges.of(self),
        ensures
            row == self.slider_row(y as int),
    {
        let px: i128 = edges.px;
        let top: i128 = edges.panel_top;
        if contains(y, top + 68 * px, top + 96 * px) {
            Some(SettingKey::Sensitivity)
        } else if contains(y, top + 102 * px, top + 130 * px) {
            Some(SettingKey::Smoothing)
        } else if contains(y, top + 136 * px, top + 164 * px) {
            Some(SettingKey::PointSpacing)
        } else if contains(y, top + 170 * px, top + 198 * px) {
            Some(SettingKey::BlurStrength)
        } else if contains(y, top + 204 * px, top + 232 * px) {
            Some(SettingKey::Brightness)
        } else if contains(y, top + 238 * px, top + 266 * px) {
            Some(SettingKey::OverlayOpacity)
        } else {
            None
        }
    }

    /// What a press does at a place in the window.
    pub fn control_action(
        self,
        position: PhysicalPosition,
        settings_open: bool,
    ) -> (action: Option<ControlAction>)
        requires
            self.wf(),
        ensures
            action == self.press(position, settings_open),
    {
        let edges = Edges::new(self);
        let px: i128 = edges.px;
        let width: i128 = edges.width;
        let height: i128 = edges.height;
        let x: i128 = position.x as i128 * 4_800;
        let y: i128 = position.y as i128 * 4_800;

        if settings_open && contains(x, edges.panel_left, edges.panel_right)
            && contains(y, edges.panel_top, edges.panel_bottom) {
            let left: i128 = edges.panel_left;
            let top: i128 = edges.panel_top;
            if contains(y, top + 34 * px, top + 62 * px) {
                return Some(ControlAction::ToggleSpectrum);
            }
            let slider_start: i128 = left + 140 * px;
            let slider_end: i128 = edges.panel_right - 20 * px;
            if x >= slider_start - 8 * px {
                if let Some(key) = self.slider_row_at(&edges, y) {
                    let value: u64 = fraction_along(x, slider_start, slider_end);
                    return Some(ControlAction::SetSpectrumSetting(key, value));
                }
            }
            if contains(x, left + 16 * px, left + 96 * px)
                && contains(y, top + 274 * px, top + 302 * px) {
                return Some(ControlAction::ResetSpectrumSettings);
            }
            return Some(ControlAction::SettingsPanel);
        }

        if y < height - 72 * px {
            return None;
        }

        let on_button: bool = contains(y, height - 58 * px, height - 18 * px);
        let on_slider: bool = contains(y, height - 52 * px, height - 20 * px);
        if contains(x, 16 * px, 56 * px) && on_button {
            return Some(ControlAction::TogglePlayback);
        }
        if contains(x, 76 * px, edges.seek_end) && on_slider {
            return Some(ControlAction::Seek(fraction_along(x, 76 * px, edges.seek_end)));
        }
        let volume_start: i128 = edges.volume_start;
        if contains(x, volume_start - 32 * px, volume_start - 4 * px) && on_slider {
            return Some(ControlAction::ToggleMute);
        }
        if contains(x, volume_start, edges.volume_end) && on_slider {
            return Some(ControlAction::Volume(fraction_along(x, volume_start, edges.volume_end)));
        }
        if contains(x, width - 88 * px, width - 50 * px) && on_button {
            return Some(ControlAction::ToggleSettings);
        }
        if contains(x, width - 50 * px, width - 8 * px) && on_button {
            return Some(ControlAction::ToggleFullscreen);
        }
        Some(ControlAction::ControlsBackground)
    }

    /// What dragging a slider to a place does.
    pub fn drag_action(
        self,
        position: PhysicalPosition,
        control: SliderControl,
    ) -> (action: ControlAction)
        requires
            self.wf(),
        ensures
            action == self.drag(position, control),
    {
        let edges = Edges::new(self);
        let px: i128 = edges.px;
        let x: i128 = position.x as i128 * 4_800;
        match control {
            SliderControl::Seek => ControlAction::Seek(fraction_along(x, 76 * px, edges.seek_end)),
            SliderControl::Volume => {
                ControlAction::Volume(fraction_along(x, edges.volume_start, edges.volume_end))
            },
            SliderControl::SpectrumSetting(key) => {
                let start: i128 = edges.panel_left + 140 * px;
                let end: i128 = edges.panel_right - 20 * px;
                ControlAction::SetSpectrumSetting(key, fraction_along(x, start, end))
            },
        }
    }
}

/// The slider that an action sets, if it sets one.
pub open spec fn slider_of(action: ControlAction) -> Option<SliderControl> {
    match action {
        ControlAction::Seek(_) => Some(SliderControl::Seek),
        ControlAction::Volume(_) => Some(SliderControl::Volume),
        ControlAction::SetSpectrumSetting(key, _) => Some(SliderControl::SpectrumSetting(key)),
        _ => None,
    }
}

/// The value to which an action sets its slider.
pub open spec fn slider_value(action: ControlAction) -> int {
    match action {
        ControlAction::Seek(value) => value as int,
        ControlAction::Volume(value) => value as int,
        ControlAction::SetSpectrumSetting(_, value) => value as int,
        _ => 0,
    }
}

/// Pressing a slider sets it to what dragging it to that place sets it to.
pub proof fn law_press_and_drag_agree(
    viewport: Viewport,
    position: PhysicalPosition,
    settings_open: bool,
)
    ensures
        match viewport.press(position, settings_open) {
            Some(action) => slider_of(action) is Some ==> action == viewport.drag(
                position,
                slider_of(action)->0,
            ),
            None => true,
        },
{
}

/// A slider's value lies between nothing and one.
pub proof fn law_fractions_lie_between_nothing_and_one(x: int, start: int, end: int)
    ensures
        0 <= slider_fraction(x, start, end) <= FRACTION_ONE,
{
    let (travelled, length) = if start <= end {
        (x - start, end - start)
    } else {
        (start - x, start - end)
    };
    if 0 < travelled < length {
        assert(0 <= travelled * 1_000_000_000 / length <= 1_000_000_000) by (nonlinear_arith)
            requires
                0 < travelled < length,
        ;
    }
}

/// A slider is at nothing at its near end and at one at its far end.
pub proof fn law_slider_ends(start: int, end: int)
    requires
        start != end,
    ensures
        slider_fraction(start, start, end) == 0,
        slider_fraction(end, start, end) == FRACTION_ONE,
{
}

/// Dragging sets the slider that is dragged, to a value between nothing and
/// one.
pub proof fn law_drag_sets_its_slider(
    viewport: Viewport,
    position: PhysicalPosition,
    control: SliderControl,
)
    ensures
        slider_of(viewport.drag(position, control)) == Some(control),
        0 <= slider_value(viewport.drag(position, control)) <= FRACTION_ONE,
{
    let x = grains(position.x);
    law_fractions_lie_between_nothing_and_one(x, viewport.seek_start(), viewport.seek_end());
    law_fractions_lie_between_nothing_and_one(x, viewport.volume_start(), viewport.volume_end());
    law_fractions_lie_between_nothing_and_one(x, viewport.setting_start(), viewport.setting_end());
}

/// The playback sliders run forwards in every window, and dragging one of them
/// further to the right never lowers its value.
pub proof fn law_dragging_right_never_lowers(
    viewport: Viewport,
    left: PhysicalPosition,
    right: PhysicalPosition,
    control: SliderControl,
)
    requires
        viewport.wf(),
        left.x <= right.x,
        control is SpectrumSetting ==> viewport.setting_start() <= viewport.setting_end(),
    ensures
        slider_value(viewport.drag(left, control)) <= slider_value(viewport.drag(right, control)),
{
    law_drag_sets_its_slider(viewport, left, control);
    law_drag_sets_its_slider(viewport, right, control);
    let (start, end) = match control {
        SliderControl::Seek => (viewport.seek_start(), viewport.seek_end()),
        SliderControl::Volume => (viewport.volume_start(), viewport.volume_end()),
        SliderControl::SpectrumSetting(_) => (viewport.setting_start(), viewport.setting_end()),
    };
    let (a, b) = (grains(left.x), grains(right.x));
    assert(a <= b);
    assert(start <= end);
    law_fractions_lie_between_nothing_and_one(a, start, end);
    law_fractions_lie_between_nothing_and_one(b, start, end);
    if start < a && b < end {
        let length = end - start;
        assert((a - start) * 1_000_000_000 / length <= (b - start) * 1_000_000_000 / length)
            by (nonlinear_arith)
            requires
                a <= b,
                length > 0,
        ;
    }
}

/// Above the control bar nothing is pressed while the settings are closed, and
/// within the bar every place belongs to a control.
pub proof fn law_the_bar_takes_every_press(viewport: Viewport, position: PhysicalPosition)
    ensures
        viewport.press(position, false) is Some <==> grains(position.y) >= viewport.height() - 72
            * viewport.px(),
{
}

/// The settings panel lies above the control bar, so that what a press does in
/// the bar does not depend on the panel.
pub proof fn law_the_panel_leaves_the_bar_alone(viewport: Viewport, position: PhysicalPosition)
    requires
        viewport.wf(),
        grains(position.y) >= viewport.height() - 72 * viewport.px(),
    ensures
        viewport.press(position, true) == viewport.press(position, false),
{
}

} // verus!
