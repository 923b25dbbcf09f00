//! The labels of the settings panel, and the fonts, for every window and system.

use vstd::prelude::*;
use crate::controls::ControlAction;
use crate::geometry::{PhysicalPosition, Viewport};
use crate::labels::{
    candidate_path, font_candidates, font_step, settings_labels, FontCandidate, FontStep, Label,
    LabelAtlas, Platform,
};
use crate::settings::SettingKey;
use crate::text::lines;

verus! {

/// The label of each setting stands at the left of the panel, 8 logical pixels
/// above the middle of the row in which its slider is pressed, in every window that
/// has room for the panel.
pub proof fn law_labels_stand_beside_their_sliders(
    labels: Vec<Label>,
    viewport: Viewport,
    position: PhysicalPosition,
    pressed: Option<ControlAction>,
    key: SettingKey,
    row: int,
)
    requires
        viewport.wf(),
        call_ensures(settings_labels, (), labels),
        call_ensures(Viewport::control_action, (viewport, position, true), pressed),
        row == match key {
            SettingKey::Sensitivity => 2int,
            SettingKey::Smoothing => 3,
            SettingKey::PointSpacing => 4,
            SettingKey::BlurStrength => 5,
            SettingKey::Brightness => 6,
            SettingKey::OverlayOpacity => 7,
        },
        ({
            let px = 65_536 * viewport.scale;
            let top = viewport.size.height * 65_536 * 4_800 - 394 * px;
            let width = viewport.size.width * 65_536 * 4_800;
            &&& position.y * 4_800 == top + (labels@[row].y + 8) * px
            &&& width >= 352 * px
            &&& width - 204 * px <= position.x * 4_800 <= width - 16 * px
        }),
    ensures
        pressed matches Some(ControlAction::SetSpectrumSetting(found, _)) && found == key,
        labels@[row].x == 16,
        labels@[row].text@ == match key {
            SettingKey::Sensitivity => "Sensitivity"@,
            SettingKey::Smoothing => "Smoothing"@,
            SettingKey::PointSpacing => "Spacing"@,
            SettingKey::BlurStrength => "Blur"@,
            SettingKey::Brightness => "Brightness"@,
            SettingKey::OverlayOpacity => "Opacity"@,
        },
        labels@[row].y + 8 == 82 + 34 * (row - 2),
{
    lemma_labels(labels, row);
    let px = 65_536 * viewport.scale;
    let y = labels@[row].y;
    assert((y + 8) * px == match key {
        SettingKey::Sensitivity => 82 * px,
        SettingKey::Smoothing => 116 * px,
        SettingKey::PointSpacing => 150 * px,
        SettingKey::BlurStrength => 184 * px,
        SettingKey::Brightness => 218 * px,
        SettingKey::OverlayOpacity => 252 * px,
    });
}

proof fn lemma_labels(labels: Vec<Label>, row: int)
    requires
        call_ensures(settings_labels, (), labels),
        0 <= row < 9,
    ensures
        labels@.len() == 9,
        (labels@[row].text@, labels@[row].x, labels@[row].y) == crate::labels::panel_labels()[row],
{
    let shown = labels@.map_values(|label: Label| (label.text@, label.x, label.y));
    assert(shown.len() == labels@.len());
    assert(shown[row] == (labels@[row].text@, labels@[row].x, labels@[row].y));
}

/// The title, the label of the switch and that of the reset button stand where
/// the switch and the button are pressed.
pub proof fn law_labels_stand_beside_their_buttons(
    labels: Vec<Label>,
    viewport: Viewport,
    position: PhysicalPosition,
    pressed: Option<ControlAction>,
    row: int,
)
    requires
        viewport.wf(),
        call_ensures(settings_labels, (), labels),
        call_ensures(Viewport::control_action, (viewport, position, true), pressed),
        row == 1 || row == 8,
        ({
            let px = 65_536 * viewport.scale;
            let top = viewport.size.height * 65_536 * 4_800 - 394 * px;
            let width = viewport.size.width * 65_536 * 4_800;
            &&& width >= 352 * px
            &&& position.y * 4_800 == top + px * (labels@[row].y + 8)
            &&& position.x * 4_800 == width - 336 * px + px * labels@[row].x
        }),
    ensures
        labels@.len() == 9,
        row == 1 ==> pressed == Some(ControlAction::ToggleSpectrum),
        row == 1 ==> labels@[row].text@ == "Enabled"@,
        row == 8 ==> pressed == Some(ControlAction::ResetSpectrumSettings),
        row == 8 ==> labels@[row].text@ == "Reset"@,
        labels@[0].text@ == "Spectrum"@,
        labels@[0].y < labels@[1].y,
        labels@[0].x == labels@[1].x,
{
    lemma_labels(labels, row);
    lemma_labels(labels, 0);
    lemma_labels(labels, 1);
    let scale = viewport.scale;
    let (x, y) = (labels@[row].x, labels@[row].y);
    if row == 8 {
        assert(65_536 * scale * (y + 8) == 288 * (65_536 * scale)) by (nonlinear_arith)
            requires
                y == 280,
        ;
        assert(65_536 * scale * x == 27 * (65_536 * scale)) by (nonlinear_arith)
            requires
                x == 27,
        ;
        lemma_reset_is_pressed(viewport, position, pressed);
    } else {
        assert(65_536 * scale * (y + 8) == 48 * (65_536 * scale)) by (nonlinear_arith)
            requires
                y == 40,
        ;
        assert(65_536 * scale * x == 16 * (65_536 * scale)) by (nonlinear_arith)
            requires
                x == 16,
        ;
    }
}

proof fn lemma_reset_is_pressed(
    viewport: Viewport,
    position: PhysicalPosition,
    pressed: Option<ControlAction>,
)
    requires
        viewport.wf(),
        call_ensures(Viewport::control_action, (viewport, position, true), pressed),
        ({
            let px = 65_536 * viewport.scale;
            let width = viewport.size.width * 65_536 * 4_800;
            &&& width >= 352 * px
            &&& position.y * 4_800 == viewport.size.height * 65_536 * 4_800 - 106 * px
            &&& position.x * 4_800 == width - 309 * px
        }),
    ensures
        pressed == Some(ControlAction::ResetSpectrumSettings),
{
}

/// Drawing makes a place at least as opaque as it is covered and never less opaque
/// than it was, changes no other place, and nothing outside.
pub proof fn law_drawing_adds_up(
    atlas: &mut LabelAtlas,
    x: i64,
    y: i64,
    coverage: u8,
    column: int,
    row: int,
)
    requires
        old(atlas).wf(),
        call_ensures(LabelAtlas::draw, (atlas, x, y, coverage), ()),
        0 <= column < old(atlas).width,
        0 <= row < old(atlas).height,
    ensures
        final(atlas).width == old(atlas).width,
        final(atlas).height == old(atlas).height,
        final(atlas).alpha@.len() == old(atlas).alpha@.len(),
        ({
            let place = row * old(atlas).width + column;
            let (before, after) = (old(atlas).alpha@[place], final(atlas).alpha@[place]);
            &&& (column, row) != (x as int, y as int) ==> after == before
            &&& (column, row) == (x as int, y as int) ==> {
                &&& after >= before
                &&& after >= coverage
                &&& after == before || after == coverage
            }
        }),
{
    assert(old(atlas).covers(column, row));
    assert(final(atlas).opacity(column, row) == final(atlas).alpha@[row * old(atlas).width
        + column]);
    assert(old(atlas).opacity(column, row) == old(atlas).alpha@[row * old(atlas).width + column]);
}

/// The picture of the labels starts empty, with the size that labels have.
pub proof fn law_the_labels_start_empty(
    scale: u32,
    atlas: LabelAtlas,
    extent: crate::geometry::PhysicalSize,
    place: int,
)
    requires
        0 < scale <= 33_554_432,
        call_ensures(LabelAtlas::new, (scale,), atlas),
        call_ensures(crate::renderer::label_atlas_extent, (scale,), extent),
        0 <= place < extent.height * extent.width,
    ensures
        atlas.width == extent.width,
        atlas.height == extent.height,
        atlas.alpha@.len() == extent.height * extent.width,
        atlas.alpha@[place] == 0,
{
}

/// The fonts of a system come last, whatever else there is; the font that the
/// environment names comes first; and on Linux the first line that `fc-match` prints
/// stands between them, unless it is empty. Nothing else is tried.
pub proof fn law_fonts_are_tried_in_order(
    overridden: bool,
    platform: Platform,
    printed: Option<String>,
    candidates: Vec<FontCandidate>,
)
    requires
        call_ensures(font_candidates, (overridden, platform, printed), candidates),
    ensures
        ({
            let tried = candidates@.map_values(|candidate: FontCandidate| candidate_path(candidate));
            let matched = platform is Linux && printed is Some && lines((printed->0)@).len() > 0
                && lines((printed->0)@)[0].len() > 0;
            let first: int = if overridden {
                1
            } else {
                0
            };
            let second: int = if matched {
                1
            } else {
                0
            };
            let usual = tried.skip(first + second);
            &&& tried.len() >= first + second
            &&& overridden ==> tried[0] is None
            &&& forall|i: int| first <= i < tried.len() ==> (#[trigger] tried[i]) is Some
            &&& matched ==> tried[first] == Some(lines((printed->0)@)[0])
            &&& match platform {
                Platform::Linux => {
                    &&& usual.len() == 4
                    &&& usual[0] == Some("/usr/share/fonts/noto/NotoSans-Regular.ttf"@)
                    &&& usual[1] == Some("/usr/share/fonts/truetype/dejavu/DejaVuSans.ttf"@)
                    &&& usual[2] == Some("/usr/share/fonts/liberation/LiberationSans-Regular.ttf"@)
                    &&& usual[3] == Some(
                        "/usr/share/fonts/truetype/liberation2/LiberationSans-Regular.ttf"@,
                    )
                },
                Platform::MacOs => usual.len() == 1 && usual[0] == Some(
                    "/System/Library/Fonts/SFNS.ttf"@,
                ),
                Platform::Windows => usual.len() == 1 && usual[0] == Some(
                    "C:\\Windows\\Fonts\\segoeui.ttf"@,
                ),
                Platform::Other => usual.len() == 0,
            }
        }),
{
}

/// The candidates are read one after another until one is usable, and there is no
/// font exactly where all were read and none was.
pub proof fn law_fonts_are_read_until_one_is_usable(
    candidates: usize,
    tried: usize,
    usable: bool,
    step: FontStep,
)
    requires
        tried <= candidates,
        call_ensures(font_step, (candidates, tried, usable), step),
    ensures
        step is Take <==> usable,
        step is Fail <==> !usable && tried == candidates,
        step matches FontStep::Read(place) ==> place == tried && place < candidates,
{
}

/// There is a font exactly where a file was read and holds one, and it is the one
/// that it holds.
pub proof fn law_a_font_is_the_one_in_the_file(
    read: Option<Vec<u8>>,
    font: Option<ab_glyph::FontArc>,
)
    requires
        call_ensures(crate::labels::usable_font, (read,), font),
    ensures
        read is None ==> font is None,
        read matches Some(bytes) ==> {
            &&& font is Some <==> crate::labels::is_font(bytes@)
            &&& crate::labels::is_font_answer(bytes, font)
        },
{
}

} // verus!
