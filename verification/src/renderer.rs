//! What is drawn where.

use vstd::prelude::*;
use crate::analyser::{can_transform, fft_size};
use crate::controls::{ControlAction, SliderControl};
use crate::geometry::{
    rounded, rounded_up, PhysicalPosition, PhysicalSize, Ratio, Viewport, MAX_SCALE, SCALE_ONE,
};
use crate::media::{PlaybackUi, SharedMedia, VideoFrame};
use crate::settings::{clamped_fraction, SettingKey, SpectrumSettings, FRACTION_ONE, SETTING_ONE};

verus! {

/// The most points that the spectrum curve has.
pub const MAX_POINTS: u32 = 1_024;

/// The logical size of the settings panel.
pub const SETTINGS_PANEL_WIDTH: u32 = 320;

pub const SETTINGS_PANEL_HEIGHT: u32 = 310;

/// A side of the blurred picture, which has half the logical resolution of the
/// window.
pub open spec fn blurred_side(side: u32, scale: u32) -> int {
    let texels = rounded_up(side * SCALE_ONE, 2 * scale);
    if texels < 1 {
        1
    } else if texels > u32::MAX {
        u32::MAX as int
    } else {
        texels
    }
}

/// A side of the settings panel in physical pixels.
pub open spec fn panel_side(side: u32, scale: u32) -> int {
    let pixels = rounded_up(side * scale, SCALE_ONE as int);
    if pixels < 1 {
        1
    } else {
        pixels
    }
}

fn blur_side(side: u32, scale: u32) -> (texels: u32)
    requires
        0 < scale <= MAX_SCALE,
    ensures
        texels == blurred_side(side, scale),
        texels > 0,
{
    let divisor: u64 = 2 * scale as u64;
    let scaled: u64 = side as u64 * 4_800;
    let texels: u64 = (scaled + (divisor - 1)) / divisor;
    if texels < 1 {
        1
    } else if texels > u32::MAX as u64 {
        u32::MAX
    } else {
        texels as u32
    }
}

/// The size of the blurred picture.
pub fn blur_extent(viewport: Viewport) -> (extent: PhysicalSize)
    requires
        viewport.wf(),
    ensures
        extent.width == blurred_side(viewport.size.width, viewport.scale),
        extent.height == blurred_side(viewport.size.height, viewport.scale),
        extent.width > 0,
        extent.height > 0,
{
    PhysicalSize {
        width: blur_side(viewport.size.width, viewport.scale),
        height: blur_side(viewport.size.height, viewport.scale),
    }
}

fn label_side(side: u32, scale: u32) -> (pixels: u32)
    requires
        0 < scale <= MAX_SCALE,
        side <= 320,
    ensures
        pixels == panel_side(side, scale),
        pixels > 0,
{
    assert(0 <= side * scale <= 320 * 33_554_432) by (nonlinear_arith)
        requires
            0 <= side <= 320,
            0 <= scale <= 33_554_432,
    ;
    let pixels: u64 = (side as u64 * scale as u64 + 4_799) / 4_800;
    if pixels < 1 {
        1
    } else {
        pixels as u32
    }
}

/// The size of the picture that holds the labels of the settings panel.
pub open spec fn label_size(scale: u32) -> PhysicalSize {
    PhysicalSize {
        width: panel_side(SETTINGS_PANEL_WIDTH, scale) as u32,
        height: panel_side(SETTINGS_PANEL_HEIGHT, scale) as u32,
    }
}

/// The size of the picture that holds the labels of the settings panel.
pub fn label_atlas_extent(scale: u32) -> (extent: PhysicalSize)
    requires
        0 < scale <= MAX_SCALE,
    ensures
        extent == label_size(scale),
        extent.width == panel_side(SETTINGS_PANEL_WIDTH, scale),
        extent.height == panel_side(SETTINGS_PANEL_HEIGHT, scale),
        extent.width > 0,
        extent.height > 0,
{
    PhysicalSize {
        width: label_side(SETTINGS_PANEL_WIDTH, scale),
        height: label_side(SETTINGS_PANEL_HEIGHT, scale),
    }
}

/// The largest picture of the shape `video` that fits into `window`: its width
/// and height as quotients.
pub open spec fn fitted(window: PhysicalSize, video: PhysicalSize) -> ((int, int), (int, int)) {
    (
        if window.width * video.height > video.width * window.height {
            (window.height * video.width, video.height as int)
        } else {
            (window.width as int, 1int)
        },
        if window.width * video.height < video.width * window.height {
            (window.width * video.height, video.width as int)
        } else {
            (window.height as int, 1int)
        },
    )
}

/// Half of what a side of the window leaves beside the picture, in logical
/// pixels, rounded.
pub open spec fn margin(side: u32, content: (int, int), scale: u32) -> int {
    rounded((side * content.1 - content.0) * SCALE_ONE, 2 * content.1 * scale)
}

/// The number of points of a curve across a picture: one every `spacing`
/// logical pixels, counted in logical pixels of the picture, and two more.
pub open spec fn points_across(content: (int, int), spacing: u64, scale: u32) -> int {
    let points = rounded(
        content.0 * (SCALE_ONE * SCALE_ONE) * SETTING_ONE,
        content.1 * spacing * (scale * scale),
    ) + 2;
    if points > MAX_POINTS {
        MAX_POINTS as int
    } else {
        points
    }
}

/// Where the picture lies in the window, and how many points the curve has.
#[derive(Clone, Copy, Debug, PartialEq, Eq)]
pub struct Layout {
    /// The upper left corner of the picture, in physical pixels.
    pub origin: (Ratio, Ratio),
    /// The size of the picture, in physical pixels.
    pub content: (Ratio, Ratio),
    pub points: u32,
}

/// All that a frame is drawn from.
#[derive(Clone, Copy, Debug)]
pub struct Params {
    pub output_size: PhysicalSize,
    pub video_size: PhysicalSize,
    pub content_origin: (Ratio, Ratio),
    pub content_size: (Ratio, Ratio),
    pub blur_size: PhysicalSize,
    pub step_px: Ratio,
    pub scale_factor: u32,
    pub point_count: u32,
    pub playback_progress: u64,
    pub volume: u64,
    pub ui_flags: u32,
    pub blur_scale: Ratio,
    pub filter_brightness: u64,
    pub filter_opacity: u64,
    pub settings_a: [u64; 4],
    pub settings_b: [u64; 4],
}

/// What a point of the curve depends on besides its decibel value.
#[derive(Clone, Copy, Debug, PartialEq, Eq, Structural)]
pub struct CurveScale {
    pub content_height: Ratio,
    pub sensitivity: u64,
    pub scale: u32,
}

/// A single precision number is neither infinite nor undefined.
pub open spec fn is_finite(bits: u32) -> bool {
    (bits / 0x80_0000) % 0x100 != 0xff
}

/// A decibel value, if it is a finite number.
pub open spec fn finite_part(bits: u32) -> Option<u32> {
    if is_finite(bits) {
        Some(bits)
    } else {
        None
    }
}

/// `heights` is something that `height` makes of the decibel values.
pub open spec fn raised<H: Fn(Option<u32>, CurveScale) -> u32>(
    height: H,
    values: Seq<u32>,
    curve: CurveScale,
    heights: Seq<u32>,
) -> bool {
    &&& heights.len() == values.len()
    &&& forall|i: int|
        0 <= i < heights.len() ==> call_ensures(
            height,
            (finite_part(values[i]), curve),
            #[trigger] heights[i],
        )
}

/// The part of a stream that has been played.
pub open spec fn progress(playback: Option<PlaybackUi>) -> int {
    match playback {
        Some(state) => if state.duration == 0 {
            0
        } else if state.position >= state.duration {
            FRACTION_ONE as int
        } else {
            state.position * FRACTION_ONE / state.duration as int
        },
        None => 0,
    }
}

/// One if a condition holds.
pub open spec fn flag(condition: bool) -> int {
    if condition {
        1
    } else {
        0
    }
}

/// The state of the controls, a bit each: that media play, that there are
/// media, that they are muted, that the window fills the screen, that the
/// settings are open and that the spectrum is enabled; and from the ninth bit
/// on the opacity of the controls in 255ths.
pub open spec fn control_flags(
    playback: Option<PlaybackUi>,
    controls_opacity: u64,
    fullscreen: bool,
    settings_open: bool,
    enabled: bool,
) -> int {
    flag(playback matches Some(state) && state.playing) + 2 * flag(playback is Some) + 4 * flag(
        playback matches Some(state) && state.muted,
    ) + 8 * flag(fullscreen) + 16 * flag(settings_open) + 32 * flag(enabled) + 256 * rounded(
        clamped_fraction(controls_opacity) * 255,
        FRACTION_ONE as int,
    )
}

fn playback_progress(playback: Option<PlaybackUi>) -> (part: u64)
    ensures
        part == progress(playback),
        part <= FRACTION_ONE,
{
    match playback {
        None => 0,
        Some(state) => if state.duration == 0 {
            0
        } else if state.position >= state.duration {
            FRACTION_ONE
        } else {
            let scaled: u128 = state.position as u128 * 1_000_000_000;
            let duration: u128 = state.duration as u128;
            assert(0 <= scaled / duration <= 1_000_000_000) by (nonlinear_arith)
                requires
                    0 <= scaled <= duration * 1_000_000_000,
                    duration > 0,
            ;
            (scaled / duration) as u64
        },
    }
}

fn clamp_fraction(position: u64) -> (clamped: u64)
    ensures
        clamped == clamped_fraction(position),
{
    if position > FRACTION_ONE {
        FRACTION_ONE
    } else {
        position
    }
}

fn ui_flags(
    playback: Option<PlaybackUi>,
    controls_opacity: u64,
    fullscreen: bool,
    settings_open: bool,
    enabled: bool,
) -> (flags: u32)
    ensures
        flags == control_flags(playback, controls_opacity, fullscreen, settings_open, enabled),
{
    let opacity: u64 = clamp_fraction(controls_opacity);
    let shade: u64 = (2 * (opacity * 255) + 1_000_000_000) / 2_000_000_000;
    let mut flags: u32 = 256 * shade as u32;
    if let Some(state) = playback {
        flags += 2;
        if state.playing {
            flags += 1;
        }
        if state.muted {
            flags += 4;
        }
    }
    if fullscreen {
        flags += 8;
    }
    if settings_open {
        flags += 16;
    }
    if enabled {
        flags += 32;
    }
    flags
}

/// A quotient with both of its numbers given.
pub open spec fn quotient(numbers: (int, int)) -> Ratio {
    Ratio { numerator: numbers.0 as u128, denominator: numbers.1 as u128 }
}

fn fit(window: PhysicalSize, video: PhysicalSize) -> (content: (Ratio, Ratio))
    requires
        video.width > 0,
        video.height > 0,
    ensures
        content.0 == quotient(fitted(window, video).0),
        content.1 == quotient(fitted(window, video).1),
        content.0.numerator == fitted(window, video).0.0,
        content.1.numerator == fitted(window, video).1.0,
        0 < content.0.denominator <= u32::MAX,
        0 < content.1.denominator <= u32::MAX,
        content.0.numerator <= u64::MAX,
        content.0.numerator <= window.width * content.0.denominator,
        content.1.numerator <= window.height * content.1.denominator,
{
    proof {
        lemma_sides(window.width, video.height);
        lemma_sides(video.width, window.height);
    }
    let across: u64 = window.width as u64 * video.height as u64;
    let down: u64 = video.width as u64 * window.height as u64;
    let width: Ratio = if across > down {
        Ratio { numerator: down as u128, denominator: video.height as u128 }
    } else {
        Ratio { numerator: window.width as u128, denominator: 1 }
    };
    let height: Ratio = if across < down {
        Ratio { numerator: across as u128, denominator: video.width as u128 }
    } else {
        Ratio { numerator: window.height as u128, denominator: 1 }
    };
    assert(video.width * window.height == window.height * video.width) by (nonlinear_arith);
    assert(width.numerator <= window.width * width.denominator);
    assert(height.numerator <= window.height * height.denominator);
    (width, height)
}

proof fn lemma_sides(a: u32, b: u32)
    ensures
        0 <= a * b <= 0xffff_fffe_0000_0001,
{
    assert(0 <= a * b <= 0xffff_ffff * 0xffff_ffff) by (nonlinear_arith)
        requires
            0 <= a <= 0xffff_ffff,
            0 <= b <= 0xffff_ffff,
    ;
}

fn margin_beside(side: u32, content: Ratio, scale: u32) -> (logical: u128)
    requires
        0 < scale <= MAX_SCALE,
        0 < content.denominator <= u32::MAX,
        content.numerator <= side * content.denominator,
    ensures
        logical == margin(
            side,
            (content.numerator as int, content.denominator as int),
            scale,
        ),
        logical <= side * SCALE_ONE,
{
    let ghost free = (side * content.denominator - content.numerator) * SCALE_ONE;
    let ghost divisor = 2 * content.denominator * scale;
    assert(0 <= side * content.denominator <= 0xffff_ffff * 0xffff_ffff) by (nonlinear_arith)
        requires
            0 <= side <= 0xffff_ffff,
            0 <= content.denominator <= 0xffff_ffff,
    ;
    assert(0 < content.denominator * scale <= 0xffff_ffff * 33_554_432) by (nonlinear_arith)
        requires
            0 < content.denominator <= 0xffff_ffff,
            0 < scale <= 33_554_432,
    ;
    let left_over: u128 = (side as u128 * content.denominator - content.numerator) * 4_800;
    let halves: u128 = 2 * (content.denominator * scale as u128);
    assert(halves == divisor) by (nonlinear_arith)
        requires
            halves == 2 * (content.denominator * scale),
            divisor == 2 * content.denominator * scale,
    ;
    let logical: u128 = (2 * left_over + halves) / (2 * halves);
    assert(logical <= side * 4_800) by (nonlinear_arith)
        requires
            logical == (2 * left_over + halves) / (2 * halves),
            left_over <= (side * content.denominator) * 4_800,
            halves == 2 * (content.denominator * scale),
            content.denominator > 0,
            scale > 0,
    ;
    logical
}

fn count_points(content: Ratio, spacing: u64, scale: u32) -> (points: u32)
    requires
        0 < scale <= MAX_SCALE,
        0 < spacing <= 8_000_000_000_000,
        0 < content.denominator <= u32::MAX,
        content.numerator <= u64::MAX,
    ensures
        points == points_across(
            (content.numerator as int, content.denominator as int),
            spacing,
            scale,
        ),
        2 <= points <= MAX_POINTS,
{
    let ghost numerator = content.numerator * (SCALE_ONE * SCALE_ONE) * SETTING_ONE;
    let ghost denominator = content.denominator * spacing * (scale * scale);
    assert(0 < scale * scale <= 33_554_432 * 33_554_432) by (nonlinear_arith)
        requires
            0 < scale <= 33_554_432,
    ;
    assert(0 < content.denominator * spacing <= 0xffff_ffff * 8_000_000_000_000)
        by (nonlinear_arith)
        requires
            0 < content.denominator <= 0xffff_ffff,
            0 < spacing <= 8_000_000_000_000,
    ;
    let square: u128 = scale as u128 * scale as u128;
    let gap: u128 = content.denominator * spacing as u128;
    assert(0 < gap * square <= (0xffff_ffff * 8_000_000_000_000) * (33_554_432 * 33_554_432))
        by (nonlinear_arith)
        requires
            0 < gap <= 0xffff_ffff * 8_000_000_000_000,
            0 < square <= 33_554_432 * 33_554_432,
    ;
    let divisor: u128 = gap * square;
    let scaled: u128 = content.numerator * 23_040_000 * 100_000_000_000;
    assert(scaled == numerator);
    assert(divisor == denominator);
    let steps: u128 = (2 * scaled + divisor) / (2 * divisor);
    if steps + 2 > MAX_POINTS as u128 {
        MAX_POINTS
    } else {
        (steps + 2) as u32
    }
}

/// What drawing needs to know of the window, the media and earlier frames.
pub struct Renderer {
    pub viewport: Viewport,
    /// The size for which the surface of the window is configured.
    pub config: PhysicalSize,
    /// The size of the picture that was uploaded last.
    pub video: PhysicalSize,
    pub has_video: bool,
    /// The size of the blurred picture.
    pub blur: PhysicalSize,
    /// The size of the picture that holds the labels.
    pub label_atlas: PhysicalSize,
    pub last_spectrum: Vec<u32>,
    pub stats_enabled: bool,
    pub stats_started: u64,
    pub rendered_frames: u64,
}

/// What a change of the window's size makes necessary.
#[derive(Clone, Copy, Debug, PartialEq, Eq, Structural)]
pub struct Resize {
    /// The surface is configured anew and the blurred picture made anew.
    pub reconfigure: bool,
    /// The labels are drawn anew.
    pub redraw_labels: bool,
}

/// A picture that is to be uploaded.
pub struct VideoUpload {
    pub frame: VideoFrame,
    /// The picture does not fit what was uploaded before it.
    pub new_texture: bool,
}

/// What is to be drawn.
pub struct Frame {
    pub upload: Option<VideoUpload>,
    pub params: Params,
}

/// How often what was done in a period.
#[derive(Clone, Copy, Debug, PartialEq, Eq, Structural)]
pub struct Stats {
    pub elapsed: u64,
    pub rendered_frames: u64,
    pub video_frames: u64,
    pub audio_frames: u64,
}

/// What came of asking the surface for the next picture to draw on.
#[derive(Clone, Copy, Debug, PartialEq, Eq, Structural)]
pub enum SurfaceStatus {
    Success,
    Suboptimal,
    Timeout,
    Occluded,
    Outdated,
    Lost,
    Validation,
}

/// What is done then.
#[derive(Clone, Copy, Debug, PartialEq, Eq, Structural)]
pub enum SurfaceStep {
    Draw,
    Skip,
    Reconfigure,
    Fail,
}

/// What is done when the surface has been asked for the next picture.
pub open spec fn next_step(status: SurfaceStatus) -> SurfaceStep {
    match status {
        SurfaceStatus::Success | SurfaceStatus::Suboptimal => SurfaceStep::Draw,
        SurfaceStatus::Timeout | SurfaceStatus::Occluded => SurfaceStep::Skip,
        SurfaceStatus::Outdated | SurfaceStatus::Lost => SurfaceStep::Reconfigure,
        SurfaceStatus::Validation => SurfaceStep::Fail,
    }
}

/// What is done when the surface has been asked for the next picture.
pub fn surface_step(status: SurfaceStatus) -> (step: SurfaceStep)
    ensures
        step == next_step(status),
{
    match status {
        SurfaceStatus::Success | SurfaceStatus::Suboptimal => SurfaceStep::Draw,
        SurfaceStatus::Timeout | SurfaceStatus::Occluded => SurfaceStep::Skip,
        SurfaceStatus::Outdated | SurfaceStatus::Lost => SurfaceStep::Reconfigure,
        SurfaceStatus::Validation => SurfaceStep::Fail,
    }
}

/// The first surface format with gamma-encoded colours, given which formats
/// have them.
pub fn preferred_format(srgb: &Vec<bool>) -> (chosen: Option<usize>)
    ensures
        match chosen {
            Some(place) => {
                &&& place < srgb@.len()
                &&& srgb@[place as int]
                &&& forall|i: int| 0 <= i < place ==> !#[trigger] srgb@[i]
            },
            None => forall|i: int| 0 <= i < srgb@.len() ==> !#[trigger] srgb@[i],
        },
        chosen is None ==> !srgb@.contains(true),
{
    let mut place: usize = 0;
    while place < srgb.len()
        invariant
            place <= srgb@.len(),
            forall|i: int| 0 <= i < place ==> !#[trigger] srgb@[i],
        decreases srgb@.len() - place,
    {
        if srgb[place] {
            return Some(place);
        }
        place += 1;
    }
    assert(forall|i: int| 0 <= i < srgb@.len() ==> srgb@[i] != true);
    None
}

/// A picture that can be uploaded.
pub open spec fn is_drawable(frame: Option<VideoFrame>) -> bool {
    frame matches Some(frame) ==> frame.width > 0 && frame.height > 0
}

/// A picture and a size that it has or has not.
pub open spec fn frame_size(frame: VideoFrame) -> PhysicalSize {
    PhysicalSize { width: frame.width, height: frame.height }
}

/// A length of at least one.
pub open spec fn at_least_one(side: u32) -> u32 {
    if side < 1 {
        1
    } else {
        side
    }
}

impl Renderer {
    pub open spec fn wf(self) -> bool {
        &&& self.viewport.wf()
        &&& self.has_video ==> self.video.width > 0 && self.video.height > 0
        &&& self.blur.width > 0
        &&& self.blur.height > 0
    }

    /// The window shows something.
    pub open spec fn visible(self) -> bool {
        self.viewport.size.width > 0 && self.viewport.size.height > 0
    }

    /// The size of the blurred picture that belongs to a viewport.
    pub open spec fn blur_of(viewport: Viewport) -> PhysicalSize {
        PhysicalSize {
            width: blurred_side(viewport.size.width, viewport.scale) as u32,
            height: blurred_side(viewport.size.height, viewport.scale) as u32,
        }
    }

    pub fn new(viewport: Viewport, stats_enabled: bool, now: u64) -> (renderer: Self)
        requires
            viewport.wf(),
        ensures
            renderer.wf(),
            renderer.viewport == viewport,
            renderer.config.width == at_least_one(viewport.size.width),
            renderer.config.height == at_least_one(viewport.size.height),
            renderer.video == (PhysicalSize { width: 1, height: 1 }),
            !renderer.has_video,
            renderer.blur == Self::blur_of(viewport),
            renderer.label_atlas == label_size(viewport.scale),
            renderer.last_spectrum@ == Seq::<u32>::empty(),
            renderer.stats_enabled == stats_enabled,
            renderer.stats_started == now,
            renderer.rendered_frames == 0,
    {
        let width: u32 = if viewport.size.width < 1 {
            1
        } else {
            viewport.size.width
        };
        let height: u32 = if viewport.size.height < 1 {
            1
        } else {
            viewport.size.height
        };
        Renderer {
            viewport,
            config: PhysicalSize { width, height },
            video: PhysicalSize { width: 1, height: 1 },
            has_video: false,
            blur: blur_extent(viewport),
            label_atlas: label_atlas_extent(viewport.scale),
            last_spectrum: Vec::new(),
            stats_enabled,
            stats_started: now,
            rendered_frames: 0,
        }
    }

    /// What a new size asks for.
    pub open spec fn resize_for(self, viewport: Viewport) -> Resize {
        let reconfigure = viewport.size.width > 0 && viewport.size.height > 0;
        Resize {
            reconfigure,
            redraw_labels: reconfigure && self.label_atlas != label_size(viewport.scale),
        }
    }

    /// The state at a new size; a window without an area keeps what is drawn on.
    pub open spec fn resized(self, viewport: Viewport) -> Renderer {
        if self.resize_for(viewport).reconfigure {
            Renderer {
                viewport,
                config: viewport.size,
                blur: Self::blur_of(viewport),
                label_atlas: label_size(viewport.scale),
                ..self
            }
        } else {
            Renderer { viewport, ..self }
        }
    }

    /// The window changes its size or its scale factor.
    pub fn resize(&mut self, viewport: Viewport) -> (change: Resize)
        requires
            old(self).wf(),
            viewport.wf(),
        ensures
            final(self).wf(),
            change == old(self).resize_for(viewport),
            *final(self) == old(self).resized(viewport),
    {
        self.viewport = viewport;
        if viewport.size.width == 0 || viewport.size.height == 0 {
            return Resize { reconfigure: false, redraw_labels: false };
        }
        self.config = viewport.size;
        let redraw_labels: bool = self.recreate_blur_textures();
        Resize { reconfigure: true, redraw_labels }
    }

    /// Adapts the pictures that are drawn by way of to the viewport, and says
    /// whether the labels are drawn anew.
    fn recreate_blur_textures(&mut self) -> (redraw_labels: bool)
        requires
            old(self).viewport.wf(),
        ensures
            redraw_labels == (old(self).label_atlas != label_size(old(self).viewport.scale)),
            *final(self) == (Renderer {
                blur: Self::blur_of(old(self).viewport),
                label_atlas: label_size(old(self).viewport.scale),
                ..*old(self)
            }),
            final(self).blur.width > 0,
            final(self).blur.height > 0,
    {
        self.blur = blur_extent(self.viewport);
        let labels: PhysicalSize = label_atlas_extent(self.viewport.scale);
        let redraw_labels: bool = self.label_atlas.width != labels.width || self.label_atlas.height
            != labels.height;
        if redraw_labels {
            self.label_atlas = labels;
        }
        redraw_labels
    }

    /// The state without a picture and without a spectrum, at the size of `before`.
    pub open spec fn is_reset_of(self, before: Renderer) -> bool {
        &&& self.last_spectrum@ == Seq::<u32>::empty()
        &&& self == (Renderer {
            has_video: false,
            video: PhysicalSize { width: 1, height: 1 },
            last_spectrum: self.last_spectrum,
            ..before
        })
    }

    /// Other media are opened.
    pub fn reset_media(&mut self)
        requires
            old(self).wf(),
        ensures
            final(self).wf(),
            final(self).is_reset_of(*old(self)),
    {
        self.has_video = false;
        self.last_spectrum.clear();
        self.video = PhysicalSize { width: 1, height: 1 };
    }

    /// What a press does at a place in the window.
    pub fn control_action(
        &self,
        position: PhysicalPosition,
        settings_open: bool,
    ) -> (action: Option<ControlAction>)
        requires
            self.wf(),
        ensures
            action == self.viewport.press(position, settings_open),
    {
        self.viewport.control_action(position, settings_open)
    }

    /// What dragging a slider to a place does.
    pub fn drag_action(
        &self,
        position: PhysicalPosition,
        control: SliderControl,
    ) -> (action: ControlAction)
        requires
            self.wf(),
        ensures
            action == self.viewport.drag(position, control),
    {
        self.viewport.drag_action(position, control)
    }

    /// The renderer with a new picture, if there is one.
    pub open spec fn with_video(self, frame: Option<VideoFrame>) -> Renderer {
        match frame {
            Some(frame) => Renderer { video: frame_size(frame), has_video: true, ..self },
            None => self,
        }
    }

    /// Takes a new picture and says whether it needs a texture of another size.
    pub fn upload_video(&mut self, frame: &VideoFrame) -> (new_texture: bool)
        requires
            old(self).wf(),
            frame.width > 0,
            frame.height > 0,
        ensures
            final(self).wf(),
            new_texture == (old(self).video != frame_size(*frame)),
            *final(self) == old(self).with_video(Some(*frame)),
    {
        let new_texture: bool = self.video.width != frame.width || self.video.height
            != frame.height;
        if new_texture {
            self.video = PhysicalSize { width: frame.width, height: frame.height };
        }
        self.has_video = true;
        new_texture
    }

    /// The size of what the spectrum is drawn over: the picture, or the window
    /// where media have none.
    pub open spec fn content(self, has_media: bool) -> Option<((int, int), (int, int))> {
        if self.has_video {
            Some(fitted(self.viewport.size, self.video))
        } else if has_media {
            Some(
                (
                    (self.viewport.size.width as int, 1int),
                    (self.viewport.size.height as int, 1int),
                ),
            )
        } else {
            None
        }
    }

    /// Where everything lies.
    pub open spec fn arranged(self, has_media: bool, settings: SpectrumSettings) -> Layout {
        let (size, scale) = (self.viewport.size, self.viewport.scale);
        match self.content(has_media) {
            Some((width, height)) => Layout {
                origin: (
                    quotient((margin(size.width, width, scale) * scale, SCALE_ONE as int)),
                    quotient((margin(size.height, height, scale) * scale, SCALE_ONE as int)),
                ),
                content: (quotient(width), quotient(height)),
                points: if settings.enabled {
                    points_across(width, settings.point_spacing, scale) as u32
                } else {
                    0
                },
            },
            None => Layout {
                origin: (quotient((0, 1)), quotient((0, 1))),
                content: (quotient((0, 1)), quotient((0, 1))),
                points: 0,
            },
        }
    }

    /// Where everything lies.
    pub fn layout(&self, has_media: bool, settings: &SpectrumSettings) -> (layout: Layout)
        requires
            self.wf(),
            settings.in_range(),
        ensures
            layout == self.arranged(has_media, *settings),
            layout.points == 0 || 2 <= layout.points <= MAX_POINTS,
            layout.points > 0 <==> settings.enabled && (self.has_video || has_media),
    {
        let size: PhysicalSize = self.viewport.size;
        let scale: u32 = self.viewport.scale;
        let nothing = Ratio { numerator: 0, denominator: 1 };
        if !self.has_video && !has_media {
            return Layout { origin: (nothing, nothing), content: (nothing, nothing), points: 0 };
        }
        let content: (Ratio, Ratio) = if self.has_video {
            fit(size, self.video)
        } else {
            (
                Ratio { numerator: size.width as u128, denominator: 1 },
                Ratio { numerator: size.height as u128, denominator: 1 },
            )
        };
        let beside: u128 = margin_beside(size.width, content.0, scale);
        let above: u128 = margin_beside(size.height, content.1, scale);
        assert(0 <= beside * scale <= 0x2000_0000_0000 * 33_554_432) by (nonlinear_arith)
            requires
                0 <= beside <= 0x2000_0000_0000,
                0 <= scale <= 33_554_432,
        ;
        assert(0 <= above * scale <= 0x2000_0000_0000 * 33_554_432) by (nonlinear_arith)
            requires
                0 <= above <= 0x2000_0000_0000,
                0 <= scale <= 33_554_432,
        ;
        assert(SettingKey::PointSpacing.lowest() <= settings.value(SettingKey::PointSpacing)
            <= SettingKey::PointSpacing.highest());
        let points: u32 = if settings.enabled {
            count_points(content.0, settings.point_spacing, scale)
        } else {
            0
        };
        Layout {
            origin: (
                Ratio { numerator: beside * scale as u128, denominator: 4_800 },
                Ratio { numerator: above * scale as u128, denominator: 4_800 },
            ),
            content,
            points,
        }
    }

    /// The picture was last `before` and the media, if any, were `shared`;
    /// working out a frame leaves `after` and the media `analysed`, and gives
    /// `params`.
    pub open spec fn updated<T, B, D, H>(
        self,
        after: Renderer,
        shared: Option<SharedMedia>,
        analysed: Option<SharedMedia>,
        playback: Option<PlaybackUi>,
        controls_opacity: u64,
        fullscreen: bool,
        settings_open: bool,
        settings: SpectrumSettings,
        magnitudes: T,
        blend: B,
        decibels: D,
        height: H,
        params: Params,
    ) -> bool where
        T: Fn(&Vec<u32>) -> Vec<u32>,
        B: Fn(u32, u32, u64) -> u32,
        D: Fn(u32) -> u32,
        H: Fn(Option<u32>, CurveScale) -> u32,
     {
        let layout = self.arranged(shared is Some, settings);
        let scale = self.viewport.scale;
        let curve = CurveScale {
            content_height: layout.content.1,
            sensitivity: settings.sensitivity,
            scale,
        };
        &&& after.wf()
        &&& after == (Renderer { last_spectrum: after.last_spectrum, ..self })
        &&& (layout.points == 0 || shared is None) ==> after == self && analysed == shared
        &&& (layout.points > 0 && shared is Some) ==> {
            &&& analysed is Some
            &&& (analysed->0).wf()
            &&& analysed->0 == (SharedMedia { analyser: (analysed->0).analyser, ..shared->0 })
            &&& exists|values: Seq<u32>|
                {
                    &&& #[trigger] (shared->0).analyser.transformed(
                        (analysed->0).analyser,
                        layout.points as usize,
                        settings.smoothing,
                        magnitudes,
                        blend,
                        decibels,
                        values,
                    )
                    &&& if values.len() == layout.points {
                        raised(height, values, curve, after.last_spectrum@)
                    } else {
                        after == self
                    }
                }
        }
        &&& params.output_size == self.viewport.size
        &&& params.video_size == if self.has_video {
            self.video
        } else {
            PhysicalSize { width: 0, height: 0 }
        }
        &&& params.content_origin == layout.origin
        &&& params.content_size == layout.content
        &&& params.blur_size == self.blur
        &&& params.step_px == quotient(
            (
                settings.point_spacing * (scale * scale),
                SETTING_ONE * (SCALE_ONE * SCALE_ONE) as int,
            ),
        )
        &&& params.scale_factor == scale
        &&& params.point_count == if layout.points == after.last_spectrum@.len() {
            layout.points
        } else {
            0
        }
        &&& params.playback_progress == progress(playback)
        &&& params.volume == match playback {
            Some(state) => clamped_fraction(state.volume),
            None => 0,
        }
        &&& params.ui_flags == control_flags(
            playback,
            controls_opacity,
            fullscreen,
            settings_open,
            settings.enabled,
        )
        &&& params.blur_scale == quotient((settings.blur_strength as int, 40 * SETTING_ONE))
        &&& params.filter_brightness == settings.brightness
        &&& params.filter_opacity == settings.overlay_opacity
        &&& params.settings_a@ == settings.positions().0
        &&& params.settings_b@ == settings.positions().1
    }

    /// Works out what the next frame is drawn from.
    ///
    /// `height` turns a decibel value, where it is a finite number, into the
    /// place of a point of the curve. Where the curve has as many points as are
    /// asked for, they are in `last_spectrum`.
    pub fn update_params_and_spectrum<T, B, D, H>(
        &mut self,
        shared: Option<&mut SharedMedia>,
        playback: Option<PlaybackUi>,
        controls_opacity: u64,
        fullscreen: bool,
        settings_open: bool,
        settings: &SpectrumSettings,
        magnitudes: T,
        blend: B,
        decibels: D,
        height: H,
    ) -> (params: Params) where
        T: Fn(&Vec<u32>) -> Vec<u32>,
        B: Fn(u32, u32, u64) -> u32,
        D: Fn(u32) -> u32,
        H: Fn(Option<u32>, CurveScale) -> u32,

        requires
            old(self).wf(),
            settings.in_range(),
            shared matches Some(media) ==> (*media).wf() && can_transform(
                fft_size((*media).analyser.rate()),
                magnitudes,
                blend,
                decibels,
            ),
            forall|value: Option<u32>, curve: CurveScale| #[trigger]
                call_requires(height, (value, curve)),
        ensures
            old(self).updated(
                *final(self),
                match shared {
                    Some(media) => Some(*media),
                    None => None,
                },
                match shared {
                    Some(media) => Some(*final(media)),
                    None => None,
                },
                playback,
                controls_opacity,
                fullscreen,
                settings_open,
                *settings,
                magnitudes,
                blend,
                decibels,
                height,
                params,
            ),
    {
        let has_media: bool = shared.is_some();
        let scale: u32 = self.viewport.scale;
        let layout: Layout = self.layout(has_media, settings);
        let points: usize = layout.points as usize;
        if points >= 2 {
            if let Some(media) = shared {
                let values: Vec<u32> = media.analyser.frequency_data(
                    points,
                    settings.smoothing,
                    magnitudes,
                    blend,
                    decibels,
                );
                if values.len() == points {
                    let curve = CurveScale {
                        content_height: layout.content.1,
                        sensitivity: settings.sensitivity,
                        scale,
                    };
                    self.last_spectrum = raise(&values, curve, height);
                }
            }
        }
        let mut point_count: u32 = layout.points;
        if points >= 2 && self.last_spectrum.len() != points {
            point_count = 0;
        }
        let volume: u64 = match playback {
            Some(state) => clamp_fraction(state.volume),
            None => 0,
        };
        assert(0 < scale * scale <= 33_554_432 * 33_554_432) by (nonlinear_arith)
            requires
                0 < scale <= 33_554_432,
        ;
        assert(SettingKey::PointSpacing.lowest() <= settings.value(SettingKey::PointSpacing)
            <= SettingKey::PointSpacing.highest());
        let square: u128 = scale as u128 * scale as u128;
        let spacing: u128 = settings.point_spacing as u128;
        assert(0 <= spacing * square <= 8_000_000_000_000 * (33_554_432 * 33_554_432))
            by (nonlinear_arith)
            requires
                0 <= spacing <= 8_000_000_000_000,
                0 < square <= 33_554_432 * 33_554_432,
        ;
        let (settings_a, settings_b) = settings.normalized();
        Params {
            output_size: self.viewport.size,
            video_size: if self.has_video {
                self.video
            } else {
                PhysicalSize { width: 0, height: 0 }
            },
            content_origin: layout.origin,
            content_size: layout.content,
            blur_size: self.blur,
            step_px: Ratio {
                numerator: spacing * square,
                denominator: 2_304_000_000_000_000_000,
            },
            scale_factor: scale,
            point_count,
            playback_progress: playback_progress(playback),
            volume,
            ui_flags: ui_flags(
                playback,
                controls_opacity,
                fullscreen,
                settings_open,
                settings.enabled,
            ),
            blur_scale: Ratio {
                numerator: settings.blur_strength as u128,
                denominator: 4_000_000_000_000,
            },
            filter_brightness: settings.brightness,
            filter_opacity: settings.overlay_opacity,
            settings_a,
            settings_b,
        }
    }
}

impl Renderer {
    /// What is uploaded of a new picture.
    pub open spec fn uploads(self, video: Option<VideoFrame>, upload: Option<VideoUpload>) -> bool {
        match (video, upload) {
            (Some(frame), Some(upload)) => {
                &&& upload.frame == frame
                &&& upload.new_texture == (self.video != frame_size(frame))
            },
            (None, None) => true,
            _ => false,
        }
    }

    /// Works out the next frame, where the window shows anything.
    pub fn render<T, B, D, H>(
        &mut self,
        shared: Option<&mut SharedMedia>,
        playback: Option<PlaybackUi>,
        controls_opacity: u64,
        fullscreen: bool,
        settings_open: bool,
        settings: &SpectrumSettings,
        magnitudes: T,
        blend: B,
        decibels: D,
        height: H,
    ) -> (frame: Option<Frame>) where
        T: Fn(&Vec<u32>) -> Vec<u32>,
        B: Fn(u32, u32, u64) -> u32,
        D: Fn(u32) -> u32,
        H: Fn(Option<u32>, CurveScale) -> u32,

        requires
            old(self).wf(),
            settings.in_range(),
            shared matches Some(media) ==> {
                &&& (*media).wf()
                &&& is_drawable((*media).video)
                &&& can_transform(
                    fft_size((*media).analyser.rate()),
                    magnitudes,
                    blend,
                    decibels,
                )
            },
            forall|value: Option<u32>, curve: CurveScale| #[trigger]
                call_requires(height, (value, curve)),
        ensures
            final(self).wf(),
            frame is Some <==> old(self).visible(),
            frame is None ==> *final(self) == *old(self),
            frame is None ==> (shared matches Some(media) ==> *final(media) == *media),
            frame matches Some(frame) ==> {
                let video = match shared {
                    Some(media) => (*media).video,
                    None => None,
                };
                &&& old(self).uploads(video, frame.upload)
                &&& old(self).with_video(video).updated(
                    *final(self),
                    match shared {
                        Some(media) => Some(SharedMedia { video: None, ..*media }),
                        None => None,
                    },
                    match shared {
                        Some(media) => Some(*final(media)),
                        None => None,
                    },
                    playback,
                    controls_opacity,
                    fullscreen,
                    settings_open,
                    *settings,
                    magnitudes,
                    blend,
                    decibels,
                    height,
                    frame.params,
                )
            },
    {
        if self.viewport.size.width == 0 || self.viewport.size.height == 0 {
            return None;
        }
        let mut shared = shared;
        let video: Option<VideoFrame> = match &mut shared {
            Some(media) => media.take_video(),
            None => None,
        };
        let upload: Option<VideoUpload> = match video {
            Some(frame) => {
                let new_texture: bool = self.upload_video(&frame);
                Some(VideoUpload { frame, new_texture })
            },
            None => None,
        };
        let params: Params = self.update_params_and_spectrum(
            shared,
            playback,
            controls_opacity,
            fullscreen,
            settings_open,
            settings,
            magnitudes,
            blend,
            decibels,
            height,
        );
        Some(Frame { upload, params })
    }

    /// Counts a frame that was drawn, where that is asked for, and once a second
    /// hands out what was counted.
    pub fn report_stats(&mut self, shared: Option<&mut SharedMedia>, now: u64) -> (stats: Option<
        Stats,
    >)
        requires
            old(self).wf(),
            shared matches Some(media) ==> (*media).wf(),
        ensures
            final(self).wf(),
            stats is Some <==> old(self).stats_enabled && now >= old(self).stats_started
                + 1_000_000_000,
            !old(self).stats_enabled ==> *final(self) == *old(self),
            old(self).stats_enabled && stats is None ==> *final(self) == (Renderer {
                rendered_frames: final(self).rendered_frames,
                ..*old(self)
            }),
            old(self).stats_enabled && stats is None ==> final(self).rendered_frames == (
            old(self).rendered_frames + 1) % 0x1_0000_0000_0000_0000,
            stats is None ==> (shared matches Some(media) ==> *final(media) == *media),
            stats matches Some(stats) ==> {
                &&& *final(self) == (Renderer {
                    rendered_frames: 0,
                    stats_started: now,
                    ..*old(self)
                })
                &&& stats.elapsed == now - old(self).stats_started
                &&& stats.rendered_frames == (old(self).rendered_frames + 1)
                    % 0x1_0000_0000_0000_0000
                &&& match shared {
                    Some(media) => {
                        &&& stats.video_frames == (*media).decoded_video_frames
                        &&& stats.audio_frames == (*media).analysed_audio_frames
                        &&& *final(media) == (SharedMedia {
                            decoded_video_frames: 0,
                            analysed_audio_frames: 0,
                            ..*media
                        })
                    },
                    None => stats.video_frames == 0 && stats.audio_frames == 0,
                }
            },
    {
        if !self.stats_enabled {
            return None;
        }
        self.rendered_frames = self.rendered_frames.wrapping_add(1);
        let elapsed: u64 = if now >= self.stats_started {
            now - self.stats_started
        } else {
            0
        };
        if elapsed < 1_000_000_000 {
            return None;
        }
        let (video_frames, audio_frames): (u64, u64) = match shared {
            Some(media) => media.take_counts(),
            None => (0, 0),
        };
        let stats = Stats {
            elapsed,
            rendered_frames: self.rendered_frames,
            video_frames,
            audio_frames,
        };
        self.rendered_frames = 0;
        self.stats_started = now;
        Some(stats)
    }
}

/// The picture fits into the window, touches two opposite sides of it and has
/// the shape of the video.
pub proof fn law_the_picture_fits_and_keeps_its_shape(window: PhysicalSize, video: PhysicalSize)
    requires
        video.width > 0,
        video.height > 0,
    ensures
        ({
            let ((width, across), (height, down)) = fitted(window, video);
            &&& 0 < across <= u32::MAX
            &&& 0 < down <= u32::MAX
            &&& 0 <= width <= window.width * across
            &&& 0 <= height <= window.height * down
            &&& width == window.width * across || height == window.height * down
            &&& (width * video.height) * down == (height * video.width) * across
        }),
{
    let (w, h, vw, vh) = (
        window.width as int,
        window.height as int,
        video.width as int,
        video.height as int,
    );
    assert(0 <= w * vh && 0 <= h * vw) by (nonlinear_arith)
        requires
            0 <= w,
            0 <= h,
            0 < vw,
            0 < vh,
    ;
    assert(vw * h == h * vw) by (nonlinear_arith);
    if w * vh > vw * h {
        assert(((h * vw) * vh) * 1 == (h * vw) * vh);
    } else if w * vh < vw * h {
        assert((w * vh) * vw == ((w * vh) * vw) * 1);
    }
}

/// The margins beside the picture are equal up to the rounding to whole logical
/// pixels.
pub proof fn law_the_picture_is_centred(side: u32, content: (int, int), scale: u32)
    requires
        0 < scale,
        0 < content.1,
        0 <= content.0 <= side * content.1,
    ensures
        0 <= margin(side, content, scale),
        ({
            let free = (side * content.1 - content.0) * SCALE_ONE;
            let doubled = 2 * content.1 * scale;
            &&& 2 * doubled * margin(side, content, scale) <= 2 * free + doubled
            &&& 2 * free < 2 * doubled * margin(side, content, scale) + doubled
        }),
{
    let free = (side * content.1 - content.0) * SCALE_ONE;
    let doubled = 2 * content.1 * scale;
    assert(doubled > 0) by (nonlinear_arith)
        requires
            doubled == 2 * content.1 * scale,
            0 < scale,
            0 < content.1,
    ;
    crate::geometry::law_rounding_is_to_the_nearest(free, doubled);
    assert((2 * free + doubled) / (2 * doubled) >= 0) by (nonlinear_arith)
        requires
            free >= 0,
            doubled > 0,
    ;
}

/// Media without a picture have the whole window for their spectrum.
pub proof fn law_audio_has_the_whole_window(renderer: Renderer, settings: SpectrumSettings)
    requires
        renderer.wf(),
        !renderer.has_video,
    ensures
        ({
            let (size, layout) = (renderer.viewport.size, renderer.arranged(true, settings));
            &&& layout.origin.0.numerator == 0
            &&& layout.origin.1.numerator == 0
            &&& layout.content == (
                quotient((size.width as int, 1)),
                quotient((size.height as int, 1)),
            )
        }),
{
    let (size, scale) = (renderer.viewport.size, renderer.viewport.scale);
    let doubled = 2 * scale;
    assert(doubled / (2 * doubled) == 0) by (nonlinear_arith)
        requires
            doubled > 0,
    ;
    assert(margin(size.width, (size.width as int, 1int), scale) == 0);
    assert(margin(size.height, (size.height as int, 1int), scale) == 0);
    assert(0 * scale == 0);
}

/// Without media and without a picture there is nothing to draw a spectrum of.
pub proof fn law_nothing_has_no_spectrum(renderer: Renderer, settings: SpectrumSettings)
    requires
        !renderer.has_video,
    ensures
        renderer.arranged(false, settings).points == 0,
{
}

fn raise<H: Fn(Option<u32>, CurveScale) -> u32>(
    values: &Vec<u32>,
    curve: CurveScale,
    height: H,
) -> (heights: Vec<u32>)
    requires
        forall|value: Option<u32>, curve: CurveScale| #[trigger]
            call_requires(height, (value, curve)),
    ensures
        raised(height, values@, curve, heights@),
{
    let mut heights: Vec<u32> = Vec::with_capacity(values.len());
    let mut next: usize = 0;
    while next < values.len()
        invariant
            next <= values@.len(),
            heights@.len() == next,
            forall|value: Option<u32>, curve: CurveScale| #[trigger]
                call_requires(height, (value, curve)),
            forall|i: int|
                0 <= i < next ==> call_ensures(
                    height,
                    (finite_part(values@[i]), curve),
                    #[trigger] heights@[i],
                ),
        decreases values@.len() - next,
    {
        let value: u32 = values[next];
        let finite: Option<u32> = if (value / 0x80_0000) % 0x100 != 0xff {
            Some(value)
        } else {
            None
        };
        heights.push(height(finite, curve));
        next += 1;
    }
    heights
}

} // verus!
