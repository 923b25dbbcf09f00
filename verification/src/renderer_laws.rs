//! What a frame is drawn from, for every window, picture and state of playback.

use vstd::prelude::*;
use crate::controls::{ControlAction, SliderControl};
use crate::geometry::{PhysicalPosition, PhysicalSize, Ratio, Viewport};
use crate::media::{PlaybackUi, SharedMedia, VideoFrame};
use crate::renderer::{
    blur_extent, fitted, label_atlas_extent, law_the_picture_fits_and_keeps_its_shape,
    law_the_picture_is_centred, margin, preferred_format, surface_step, CurveScale, Frame, Layout,
    Params, Renderer, Resize, Stats, SurfaceStatus, SurfaceStep,
};
use crate::settings::SpectrumSettings;

verus! {

/// A picture lies in the middle between two sides of the window: twice what is
/// before it and the picture itself make the window, up to one logical pixel, and
/// what is before it is a whole number of logical pixels.
pub open spec fn is_centred(origin: Ratio, content: Ratio, side: u32, scale: u32) -> bool {
    &&& origin.denominator == 4_800
    &&& origin.numerator as int % scale as int == 0
    &&& ({
        let window = side * content.denominator * 4_800;
        let covered = 2 * origin.numerator * content.denominator + content.numerator * 4_800;
        window - content.denominator * scale <= covered <= window + content.denominator * scale
    })
}

proof fn lemma_centred(side: u32, content: (int, int), scale: u32, origin: Ratio, shown: Ratio)
    requires
        0 < scale <= 33_554_432,
        0 < content.1 <= u32::MAX,
        0 <= content.0 <= side * content.1,
        origin == crate::renderer::quotient((margin(side, content, scale) * scale, 4_800)),
        shown == crate::renderer::quotient(content),
    ensures
        shown.numerator == content.0,
        shown.denominator == content.1,
        is_centred(origin, shown, side, scale),
{
    law_the_picture_is_centred(side, content, scale);
    let m = margin(side, content, scale);
    let free = (side * content.1 - content.0) * 4_800;
    assert(side * content.1 <= 0xffff_ffff * 0xffff_ffff) by (nonlinear_arith)
        requires
            0 <= side <= 0xffff_ffff,
            0 < content.1 <= 0xffff_ffff,
    ;
    let doubled = 2 * content.1 * scale;
    assert(2 * doubled * m == 4 * (content.1 * (m * scale))) by (nonlinear_arith)
        requires
            doubled == 2 * content.1 * scale,
    ;
    assert(doubled == 2 * (content.1 * scale)) by (nonlinear_arith)
        requires
            doubled == 2 * content.1 * scale,
    ;
    let before = m * scale;
    assert(content.1 * scale <= 0xffff_ffff * 33_554_432) by (nonlinear_arith)
        requires
            0 < content.1 <= 0xffff_ffff,
            0 < scale <= 33_554_432,
    ;
    assert(0 <= before <= content.1 * before) by (nonlinear_arith)
        requires
            before == m * scale,
            0 <= m,
            0 < scale,
            1 <= content.1,
    ;
    assert(before % scale as int == 0) by {
        vstd::arithmetic::div_mod::lemma_mod_multiples_basic(m, scale as int);
    }
    assert(2 * before * content.1 == 2 * (content.1 * before)) by (nonlinear_arith);
    assert(side * content.1 * 4_800 - content.0 * 4_800 == free) by (nonlinear_arith)
        requires
            free == (side * content.1 - content.0) * 4_800,
    ;
    assert(2 * origin.numerator * shown.denominator == 2 * before * content.1);
    assert(side * shown.denominator * 4_800 == side * content.1 * 4_800);
}

/// The layout of a picture: it fits into the window, touches two opposite sides,
/// has the shape of the video and lies in the middle, at every scale factor, all in
/// physical pixels.
pub proof fn law_the_picture_fits_and_is_centred(
    renderer: &Renderer,
    has_media: bool,
    settings: &SpectrumSettings,
    layout: Layout,
)
    requires
        renderer.wf(),
        renderer.has_video,
        call_ensures(Renderer::layout, (renderer, has_media, settings), layout),
    ensures
        ({
            let (window, video) = (renderer.viewport.size, renderer.video);
            let (width, height) = layout.content;
            &&& width.denominator > 0
            &&& height.denominator > 0
            &&& width.numerator <= window.width * width.denominator
            &&& height.numerator <= window.height * height.denominator
            &&& width.numerator == window.width * width.denominator || height.numerator
                == window.height * height.denominator
            &&& (width.numerator * video.height) * height.denominator == (height.numerator
                * video.width) * width.denominator
            &&& is_centred(layout.origin.0, width, window.width, renderer.viewport.scale)
            &&& is_centred(layout.origin.1, height, window.height, renderer.viewport.scale)
        }),
{
    let (window, video) = (renderer.viewport.size, renderer.video);
    let scale = renderer.viewport.scale;
    law_the_picture_fits_and_keeps_its_shape(window, video);
    let (width, height) = fitted(window, video);
    lemma_centred(window.width, width, scale, layout.origin.0, layout.content.0);
    lemma_centred(window.height, height, scale, layout.origin.1, layout.content.1);
}

/// Media without a picture have the whole window, and without media there is
/// nothing.
pub proof fn law_without_a_picture(
    renderer: &Renderer,
    has_media: bool,
    settings: &SpectrumSettings,
    layout: Layout,
)
    requires
        renderer.wf(),
        !renderer.has_video,
        call_ensures(Renderer::layout, (renderer, has_media, settings), layout),
    ensures
        ({
            let window = renderer.viewport.size;
            &&& layout.origin.0.numerator == 0
            &&& layout.origin.1.numerator == 0
            &&& layout.content.0.denominator == 1
            &&& layout.content.1.denominator == 1
            &&& has_media ==> layout.content.0.numerator == window.width
                && layout.content.1.numerator == window.height
            &&& !has_media ==> layout.content.0.numerator == 0 && layout.content.1.numerator == 0
                && layout.points == 0
        }),
{
    crate::renderer::law_audio_has_the_whole_window(*renderer, *settings);
}

/// The curve has a point every so many logical pixels as the settings say, times
/// the scale factor, over the width of the picture in logical pixels, rounded, and
/// two more; at most 1024; and none where the spectrum is off.
pub proof fn law_points_lie_as_far_apart_as_set(
    renderer: &Renderer,
    has_media: bool,
    settings: &SpectrumSettings,
    layout: Layout,
)
    requires
        renderer.wf(),
        settings.in_range(),
        renderer.has_video || has_media,
        call_ensures(Renderer::layout, (renderer, has_media, settings), layout),
    ensures
        !settings.enabled ==> layout.points == 0,
        settings.enabled ==> {
            let scale = renderer.viewport.scale;
            let width = layout.content.0;
            let gap = width.denominator * settings.point_spacing * (scale * scale);
            let length = width.numerator * 23_040_000 * 100_000_000_000;
            &&& 2 <= layout.points <= 1_024
            &&& 2 * length >= (2 * (layout.points - 2) - 1) * gap
            &&& layout.points < 1_024 ==> 2 * length < (2 * (layout.points - 2) + 1) * gap
        },
{
    let scale = renderer.viewport.scale;
    let window = renderer.viewport.size;
    let width: (int, int) = if renderer.has_video {
        fitted(window, renderer.video).0
    } else {
        (window.width as int, 1int)
    };
    if renderer.has_video {
        law_the_picture_fits_and_keeps_its_shape(window, renderer.video);
        assert(window.width * width.1 <= 0xffff_ffff * 0xffff_ffff) by (nonlinear_arith)
            requires
                0 <= window.width <= 0xffff_ffff,
                0 < width.1 <= 0xffff_ffff,
        ;
    }
    assert(crate::settings::SettingKey::PointSpacing.lowest() <= settings.value(
        crate::settings::SettingKey::PointSpacing,
    ));
    let gap = width.1 * settings.point_spacing * (scale * scale);
    let length = width.0 * 23_040_000 * 100_000_000_000;
    assert(gap > 0) by (nonlinear_arith)
        requires
            gap == width.1 * settings.point_spacing * (scale * scale),
            width.1 > 0,
            settings.point_spacing > 0,
            scale > 0,
    ;
    crate::geometry::law_rounding_is_to_the_nearest(length, gap);
    let steps = crate::geometry::rounded(length, gap);
    assert(steps >= 0) by (nonlinear_arith)
        requires
            steps == (2 * length + gap) / (2 * gap),
            length >= 0,
            gap > 0,
    ;
    if settings.enabled {
        let points = layout.points as int;
        assert(length == width.0 * (4_800 * 4_800) * 100_000_000_000);
        assert(points == if steps + 2 > 1_024 {
            1_024
        } else {
            steps + 2
        });
        assert((2 * (points - 2) - 1) * gap <= 2 * gap * steps - gap) by (nonlinear_arith)
            requires
                points - 2 <= steps,
                gap > 0,
        ;
        assert(points < 1_024 ==> (2 * (points - 2) + 1) * gap == 2 * gap * steps + gap)
            by (nonlinear_arith)
            requires
                points < 1_024 ==> points - 2 == steps,
        ;
    }
}

/// Whether a single precision number is finite: its magnitude lies below that of
/// infinity.
pub open spec fn finite_bits(bits: u32) -> Option<u32> {
    if bits % 0x8000_0000 < 0x7f80_0000 {
        Some(bits)
    } else {
        None
    }
}

/// The curve that a frame draws. Every point has the height that `height` gives
/// for its decibel value, or for none where that is no finite number, in a picture
/// of the height that the frame draws, with the sensitivity of the settings and the
/// scale factor of the window. The decibel values are those of the analyser, as many
/// as the curve has points, smoothed as the settings say.
pub proof fn law_the_curve_stands_in_the_picture<T, B, D, H>(
    renderer: &mut Renderer,
    shared: Option<&mut SharedMedia>,
    playback: Option<PlaybackUi>,
    controls_opacity: u64,
    fullscreen: bool,
    settings_open: bool,
    settings: &SpectrumSettings,
    magnitudes: T,
    blend: B,
    decibels: D,
    height: H,
    params: Params,
    layout: Layout,
) where
    T: Fn(&Vec<u32>) -> Vec<u32>,
    B: Fn(u32, u32, u64) -> u32,
    D: Fn(u32) -> u32,
    H: Fn(Option<u32>, CurveScale) -> u32

    requires
        old(renderer).wf(),
        settings.in_range(),
        shared is Some,
        settings.enabled,
        call_ensures(Renderer::layout, (&*old(renderer), true, settings), layout),
        call_ensures(
            Renderer::update_params_and_spectrum::<T, B, D, H>,
            (
                renderer,
                shared,
                playback,
                controls_opacity,
                fullscreen,
                settings_open,
                settings,
                magnitudes,
                blend,
                decibels,
                height,
            ),
            params,
        ),
    ensures
        match shared {
            Some(media) => exists|values: Seq<u32>|
                {
                    let points = layout.points as usize;
                    let heights = final(renderer).last_spectrum@;
                    let curve = CurveScale {
                        content_height: params.content_size.1,
                        sensitivity: settings.sensitivity,
                        scale: old(renderer).viewport.scale,
                    };
                    &&& #[trigger] (*media).analyser.transformed(
                        (*final(media)).analyser,
                        layout.points as usize,
                        settings.smoothing,
                        magnitudes,
                        blend,
                        decibels,
                        values,
                    )
                    &&& values.len() == points ==> {
                        &&& params.point_count == points
                        &&& heights.len() == points
                        &&& forall|i: int|
                            0 <= i < points ==> call_ensures(
                                height,
                                (finite_bits(values[i]), curve),
                                #[trigger] heights[i],
                            )
                    }
                    &&& values.len() != points ==> heights == old(renderer).last_spectrum@
                },
            None => true,
        },
{
    match shared {
        Some(media) => {
            lemma_points(*old(renderer), *settings);
            let values = choose|values: Seq<u32>|
                {
                    &&& #[trigger] (*media).analyser.transformed(
                        (*final(media)).analyser,
                        layout.points as usize,
                        settings.smoothing,
                        magnitudes,
                        blend,
                        decibels,
                        values,
                    )
                    &&& if values.len() == layout.points {
                        crate::renderer::raised(
                            height,
                            values,
                            CurveScale {
                                content_height: layout.content.1,
                                sensitivity: settings.sensitivity,
                                scale: old(renderer).viewport.scale,
                            },
                            final(renderer).last_spectrum@,
                        )
                    } else {
                        *final(renderer) == *old(renderer)
                    }
                };
            assert((*media).analyser.transformed(
                (*final(media)).analyser,
                layout.points as usize,
                settings.smoothing,
                magnitudes,
                blend,
                decibels,
                values,
            ));
            assert forall|bits: u32| crate::renderer::finite_part(bits) == #[trigger] finite_bits(
                bits,
            ) by {
                assert((bits / 0x80_0000) % 0x100 == (bits % 0x8000_0000) / 0x80_0000);
            }
        },
        None => {},
    }
}

proof fn lemma_points(renderer: Renderer, settings: SpectrumSettings)
    requires
        renderer.wf(),
        settings.in_range(),
        settings.enabled,
    ensures
        renderer.arranged(true, settings).points >= 2,
{
    let scale = renderer.viewport.scale;
    let window = renderer.viewport.size;
    let width: (int, int) = if renderer.has_video {
        fitted(window, renderer.video).0
    } else {
        (window.width as int, 1int)
    };
    if renderer.has_video {
        law_the_picture_fits_and_keeps_its_shape(window, renderer.video);
    }
    assert(crate::settings::SettingKey::PointSpacing.lowest() <= settings.value(
        crate::settings::SettingKey::PointSpacing,
    ));
    let gap = width.1 * settings.point_spacing * (scale * scale);
    let length = width.0 * (4_800 * 4_800) * 100_000_000_000;
    assert(gap > 0) by (nonlinear_arith)
        requires
            gap == width.1 * settings.point_spacing * (scale * scale),
            width.1 > 0,
            settings.point_spacing > 0,
            scale > 0,
    ;
    assert((2 * length + gap) / (2 * gap) >= 0) by (nonlinear_arith)
        requires
            length >= 0,
            gap > 0,
    ;
}

/// What a frame shows of playback and settings: the part of the stream that has
/// been played, rounded down, the volume, up to one, and one flag for each of
/// playing, media, mute, fullscreen, open settings and the spectrum, with the
/// opacity of the controls in 255ths, rounded, above them.
pub proof fn law_a_frame_shows_the_state<T, B, D, H>(
    renderer: &mut Renderer,
    shared: Option<&mut SharedMedia>,
    playback: Option<PlaybackUi>,
    controls_opacity: u64,
    fullscreen: bool,
    settings_open: bool,
    settings: &SpectrumSettings,
    magnitudes: T,
    blend: B,
    decibels: D,
    height: H,
    params: Params,
) where
    T: Fn(&Vec<u32>) -> Vec<u32>,
    B: Fn(u32, u32, u64) -> u32,
    D: Fn(u32) -> u32,
    H: Fn(Option<u32>, CurveScale) -> u32

    requires
        old(renderer).wf(),
        settings.in_range(),
        call_ensures(
            Renderer::update_params_and_spectrum::<T, B, D, H>,
            (
                renderer,
                shared,
                playback,
                controls_opacity,
                fullscreen,
                settings_open,
                settings,
                magnitudes,
                blend,
                decibels,
                height,
            ),
            params,
        ),
    ensures
        match playback {
            Some(state) => {
                &&& params.volume <= 1_000_000_000
                &&& params.volume <= state.volume
                &&& params.volume == state.volume || params.volume == 1_000_000_000
                &&& state.duration == 0 ==> params.playback_progress == 0
                &&& 0 < state.duration <= state.position ==> params.playback_progress
                    == 1_000_000_000
                &&& state.position < state.duration ==> {
                    let scaled = state.position * 1_000_000_000;
                    &&& params.playback_progress * state.duration <= scaled
                    &&& scaled < (params.playback_progress + 1) * state.duration
                }
            },
            None => params.volume == 0 && params.playback_progress == 0,
        },
        ({
            let flags = params.ui_flags as int;
            let shade = flags / 256;
            let opacity: int = if controls_opacity <= 1_000_000_000 {
                controls_opacity as int
            } else {
                1_000_000_000
            };
            &&& flags % 2 == 1 <==> (playback matches Some(state) && state.playing)
            &&& flags / 2 % 2 == 1 <==> playback is Some
            &&& flags / 4 % 2 == 1 <==> (playback matches Some(state) && state.muted)
            &&& flags / 8 % 2 == 1 <==> fullscreen
            &&& flags / 16 % 2 == 1 <==> settings_open
            &&& flags / 32 % 2 == 1 <==> settings.enabled
            &&& flags / 64 % 4 == 0
            &&& 2 * shade * 1_000_000_000 - 1_000_000_000 <= 2 * opacity * 255
            &&& 2 * opacity * 255 < 2 * shade * 1_000_000_000 + 1_000_000_000
        }),
{
    if let Some(state) = playback {
        if state.position < state.duration {
            lemma_progress(state.position, state.duration);
        }
    }
    let opacity: int = if controls_opacity <= 1_000_000_000 {
        controls_opacity as int
    } else {
        1_000_000_000
    };
    let shade = crate::geometry::rounded(opacity * 255, 1_000_000_000);
    lemma_flags(
        playback matches Some(state) && state.playing,
        playback is Some,
        playback matches Some(state) && state.muted,
        fullscreen,
        settings_open,
        settings.enabled,
        shade,
        params.ui_flags as int,
    );
}

proof fn lemma_progress(position: u64, duration: u64)
    requires
        position < duration,
    ensures
        ({
            let scaled = position * 1_000_000_000;
            let part = scaled / duration as int;
            &&& 0 <= part < 1_000_000_000
            &&& part * duration <= scaled < (part + 1) * duration
        }),
{
    let scaled = position * 1_000_000_000;
    let whole = duration as int;
    let part = scaled / whole;
    vstd::arithmetic::div_mod::lemma_fundamental_div_mod(scaled, whole);
    vstd::arithmetic::div_mod::lemma_mod_bound(scaled, whole);
    assert(part * whole <= scaled < (part + 1) * whole) by (nonlinear_arith)
        requires
            scaled == whole * part + scaled % whole,
            0 <= scaled % whole < whole,
    ;
    assert(0 <= part < 1_000_000_000) by (nonlinear_arith)
        requires
            part * whole <= scaled < (part + 1) * whole,
            0 <= scaled < whole * 1_000_000_000,
            whole > 0,
    ;
}

proof fn lemma_flags(
    playing: bool,
    media: bool,
    muted: bool,
    fullscreen: bool,
    open: bool,
    enabled: bool,
    shade: int,
    flags: int,
)
    requires
        shade >= 0,
        flags == crate::renderer::flag(playing) + 2 * crate::renderer::flag(media) + 4
            * crate::renderer::flag(muted) + 8 * crate::renderer::flag(fullscreen) + 16
            * crate::renderer::flag(open) + 32 * crate::renderer::flag(enabled) + 256 * shade,
    ensures
        flags / 256 == shade,
        flags % 2 == 1 <==> playing,
        flags / 2 % 2 == 1 <==> media,
        flags / 4 % 2 == 1 <==> muted,
        flags / 8 % 2 == 1 <==> fullscreen,
        flags / 16 % 2 == 1 <==> open,
        flags / 32 % 2 == 1 <==> enabled,
        flags / 64 % 4 == 0,
{
    let (a, b, c, d, e, f) = (
        crate::renderer::flag(playing),
        crate::renderer::flag(media),
        crate::renderer::flag(muted),
        crate::renderer::flag(fullscreen),
        crate::renderer::flag(open),
        crate::renderer::flag(enabled),
    );
    let after_2 = b + 2 * c + 4 * d + 8 * e + 16 * f + 128 * shade;
    assert(flags / 2 == after_2) by (nonlinear_arith)
        requires
            flags == a + 2 * after_2,
            0 <= a < 2,
    ;
    let after_4 = c + 2 * d + 4 * e + 8 * f + 64 * shade;
    assert(flags / 4 == after_4) by (nonlinear_arith)
        requires
            flags == (a + 2 * b) + 4 * after_4,
            0 <= (a + 2 * b) < 4,
    ;
    let after_8 = d + 2 * e + 4 * f + 32 * shade;
    assert(flags / 8 == after_8) by (nonlinear_arith)
        requires
            flags == (a + 2 * b + 4 * c) + 8 * after_8,
            0 <= (a + 2 * b + 4 * c) < 8,
    ;
    let after_16 = e + 2 * f + 16 * shade;
    assert(flags / 16 == after_16) by (nonlinear_arith)
        requires
            flags == (a + 2 * b + 4 * c + 8 * d) + 16 * after_16,
            0 <= (a + 2 * b + 4 * c + 8 * d) < 16,
    ;
    let after_32 = f + 8 * shade;
    assert(flags / 32 == after_32) by (nonlinear_arith)
        requires
            flags == (a + 2 * b + 4 * c + 8 * d + 16 * e) + 32 * after_32,
            0 <= (a + 2 * b + 4 * c + 8 * d + 16 * e) < 32,
    ;
    let after_64 = 4 * shade;
    assert(flags / 64 == after_64) by (nonlinear_arith)
        requires
            flags == (a + 2 * b + 4 * c + 8 * d + 16 * e + 32 * f) + 64 * after_64,
            0 <= (a + 2 * b + 4 * c + 8 * d + 16 * e + 32 * f) < 64,
    ;
    let after_256 = shade;
    assert(flags / 256 == after_256) by (nonlinear_arith)
        requires
            flags == (a + 2 * b + 4 * c + 8 * d + 16 * e + 32 * f) + 256 * after_256,
            0 <= (a + 2 * b + 4 * c + 8 * d + 16 * e + 32 * f) < 256,
    ;
    lemma_low_bit(a, after_2, flags);
    lemma_low_bit(b, after_4, after_2);
    lemma_low_bit(c, after_8, after_4);
    lemma_low_bit(d, after_16, after_8);
    lemma_low_bit(e, after_32, after_16);
    lemma_low_bit(f, 4 * shade, after_32);
    assert((4 * shade) % 4 == 0) by (nonlinear_arith);
}

proof fn lemma_low_bit(bit: int, rest: int, whole: int)
    requires
        0 <= bit <= 1,
        whole == bit + 2 * rest,
    ensures
        whole % 2 == bit,
{
}

/// What a frame is drawn from besides: the sizes of the window, the picture and
/// the blurred picture, the scale factor, the distance of the points in physical
/// pixels, which is the spacing times the square of the scale factor, and the blur,
/// in parts of 40 logical pixels, brightness and opacity of the settings.
pub proof fn law_a_frame_has_its_sizes<T, B, D, H>(
    renderer: &mut Renderer,
    shared: Option<&mut SharedMedia>,
    playback: Option<PlaybackUi>,
    controls_opacity: u64,
    fullscreen: bool,
    settings_open: bool,
    settings: &SpectrumSettings,
    magnitudes: T,
    blend: B,
    decibels: D,
    height: H,
    params: Params,
) where
    T: Fn(&Vec<u32>) -> Vec<u32>,
    B: Fn(u32, u32, u64) -> u32,
    D: Fn(u32) -> u32,
    H: Fn(Option<u32>, CurveScale) -> u32

    requires
        old(renderer).wf(),
        settings.in_range(),
        call_ensures(
            Renderer::update_params_and_spectrum::<T, B, D, H>,
            (
                renderer,
                shared,
                playback,
                controls_opacity,
                fullscreen,
                settings_open,
                settings,
                magnitudes,
                blend,
                decibels,
                height,
            ),
            params,
        ),
    ensures
        params.output_size == old(renderer).viewport.size,
        params.scale_factor == old(renderer).viewport.scale,
        params.blur_size == old(renderer).blur,
        old(renderer).has_video ==> params.video_size == old(renderer).video,
        !old(renderer).has_video ==> params.video_size.width == 0 && params.video_size.height == 0,
        ({
            let scale = old(renderer).viewport.scale;
            &&& params.step_px.denominator == 100_000_000_000 * 23_040_000
            &&& params.step_px.numerator == settings.point_spacing * (scale * scale)
        }),
        params.blur_scale.denominator == 40 * 100_000_000_000,
        params.blur_scale.numerator == settings.blur_strength,
        params.filter_brightness == settings.brightness,
        params.filter_opacity == settings.overlay_opacity,
        final(renderer).viewport == old(renderer).viewport,
        final(renderer).config == old(renderer).config,
        final(renderer).video == old(renderer).video,
        final(renderer).has_video == old(renderer).has_video,
        final(renderer).blur == old(renderer).blur,
        final(renderer).label_atlas == old(renderer).label_atlas,
{
    let scale = old(renderer).viewport.scale;
    assert(crate::settings::SettingKey::PointSpacing.highest() >= settings.value(
        crate::settings::SettingKey::PointSpacing,
    ));
    assert(0 < scale * scale <= 33_554_432 * 33_554_432) by (nonlinear_arith)
        requires
            0 < scale <= 33_554_432,
    ;
    let square = scale * scale;
    assert(0 <= settings.point_spacing * square <= 8_000_000_000_000 * (33_554_432 * 33_554_432))
        by (nonlinear_arith)
        requires
            0 <= settings.point_spacing <= 8_000_000_000_000,
            0 < square <= 33_554_432 * 33_554_432,
    ;
}

/// The picture and the sliders of a frame are those that `layout` and `normalized`
/// give, and a curve is drawn exactly where the one that is kept has the points that
/// the layout asks for.
pub proof fn law_a_frame_is_laid_out<T, B, D, H>(
    renderer: &mut Renderer,
    shared: Option<&mut SharedMedia>,
    playback: Option<PlaybackUi>,
    controls_opacity: u64,
    fullscreen: bool,
    settings_open: bool,
    settings: &SpectrumSettings,
    magnitudes: T,
    blend: B,
    decibels: D,
    height: H,
    params: Params,
    layout: Layout,
    positions: ([u64; 4], [u64; 4]),
) where
    T: Fn(&Vec<u32>) -> Vec<u32>,
    B: Fn(u32, u32, u64) -> u32,
    D: Fn(u32) -> u32,
    H: Fn(Option<u32>, CurveScale) -> u32

    requires
        old(renderer).wf(),
        settings.in_range(),
        call_ensures(Renderer::layout, (&*old(renderer), shared is Some, settings), layout),
        call_ensures(SpectrumSettings::normalized, (*settings,), positions),
        call_ensures(
            Renderer::update_params_and_spectrum::<T, B, D, H>,
            (
                renderer,
                shared,
                playback,
                controls_opacity,
                fullscreen,
                settings_open,
                settings,
                magnitudes,
                blend,
                decibels,
                height,
            ),
            params,
        ),
    ensures
        params.content_origin == layout.origin,
        params.content_size == layout.content,
        params.settings_a@ == positions.0@,
        params.settings_b@ == positions.1@,
        params.point_count == layout.points || params.point_count == 0,
        params.point_count == layout.points <==> final(renderer).last_spectrum@.len()
            == layout.points || layout.points == 0,
{
}

/// Working out a frame changes nothing of the media but their analyser, and not
/// that either where the spectrum is off; and without media, or with the spectrum
/// off, the curve stays.
pub proof fn law_working_out_a_frame_leaves_the_media<T, B, D, H>(
    renderer: &mut Renderer,
    shared: Option<&mut SharedMedia>,
    playback: Option<PlaybackUi>,
    controls_opacity: u64,
    fullscreen: bool,
    settings_open: bool,
    settings: &SpectrumSettings,
    magnitudes: T,
    blend: B,
    decibels: D,
    height: H,
    params: Params,
) where
    T: Fn(&Vec<u32>) -> Vec<u32>,
    B: Fn(u32, u32, u64) -> u32,
    D: Fn(u32) -> u32,
    H: Fn(Option<u32>, CurveScale) -> u32

    requires
        call_ensures(
            Renderer::update_params_and_spectrum::<T, B, D, H>,
            (
                renderer,
                shared,
                playback,
                controls_opacity,
                fullscreen,
                settings_open,
                settings,
                magnitudes,
                blend,
                decibels,
                height,
            ),
            params,
        ),
    ensures
        match shared {
            Some(media) => {
                &&& (*final(media)).video == (*media).video
                &&& (*final(media)).pending_audio == (*media).pending_audio
                &&& (*final(media)).reset_analyser == (*media).reset_analyser
                &&& (*final(media)).decoded_video_frames == (*media).decoded_video_frames
                &&& (*final(media)).analysed_audio_frames == (*media).analysed_audio_frames
                &&& !settings.enabled ==> *final(media) == *media
            },
            None => true,
        },
        shared is None || !settings.enabled ==> final(renderer).last_spectrum == old(
            renderer,
        ).last_spectrum,
        !settings.enabled ==> params.point_count == 0,
{
}

/// A frame is drawn exactly where the window has an area. It takes the picture
/// that waits, uploads it, with a new texture where its size is not the last one,
/// and is worked out with it; a frame that is not drawn leaves everything.
pub proof fn law_a_frame_takes_the_picture_that_waits<T, B, D, H>(
    renderer: &mut Renderer,
    shared: Option<&mut SharedMedia>,
    playback: Option<PlaybackUi>,
    controls_opacity: u64,
    fullscreen: bool,
    settings_open: bool,
    settings: &SpectrumSettings,
    magnitudes: T,
    blend: B,
    decibels: D,
    height: H,
    frame: Option<Frame>,
) where
    T: Fn(&Vec<u32>) -> Vec<u32>,
    B: Fn(u32, u32, u64) -> u32,
    D: Fn(u32) -> u32,
    H: Fn(Option<u32>, CurveScale) -> u32

    requires
        call_ensures(
            Renderer::render::<T, B, D, H>,
            (
                renderer,
                shared,
                playback,
                controls_opacity,
                fullscreen,
                settings_open,
                settings,
                magnitudes,
                blend,
                decibels,
                height,
            ),
            frame,
        ),
    ensures
        ({
            let size = old(renderer).viewport.size;
            frame is None <==> size.width == 0 || size.height == 0
        }),
        frame is None ==> *final(renderer) == *old(renderer),
        match (shared, frame) {
            (Some(media), None) => *final(media) == *media,
            (Some(media), Some(frame)) => {
                &&& (*final(media)).video is None
                &&& (*final(media)).pending_audio == (*media).pending_audio
                &&& match ((*media).video, frame.upload) {
                    (Some(picture), Some(upload)) => {
                        &&& upload.frame == picture
                        &&& upload.new_texture <==> old(renderer).video.width != picture.width
                            || old(renderer).video.height != picture.height
                        &&& final(renderer).has_video
                        &&& final(renderer).video.width == picture.width
                        &&& final(renderer).video.height == picture.height
                        &&& frame.params.video_size.width == picture.width
                        &&& frame.params.video_size.height == picture.height
                    },
                    (None, None) => {
                        &&& final(renderer).has_video == old(renderer).has_video
                        &&& final(renderer).video == old(renderer).video
                    },
                    _ => false,
                }
            },
            (None, Some(frame)) => {
                &&& frame.upload is None
                &&& final(renderer).has_video == old(renderer).has_video
                &&& final(renderer).video == old(renderer).video
            },
            (None, None) => true,
        },
{
}

/// A frame is worked out as `update_params_and_spectrum` does it for the picture
/// that it takes.
pub proof fn law_a_frame_is_worked_out_with_its_picture<T, B, D, H>(
    renderer: &mut Renderer,
    shared: Option<&mut SharedMedia>,
    playback: Option<PlaybackUi>,
    controls_opacity: u64,
    fullscreen: bool,
    settings_open: bool,
    settings: &SpectrumSettings,
    magnitudes: T,
    blend: B,
    decibels: D,
    height: H,
    frame: Option<Frame>,
) where
    T: Fn(&Vec<u32>) -> Vec<u32>,
    B: Fn(u32, u32, u64) -> u32,
    D: Fn(u32) -> u32,
    H: Fn(Option<u32>, CurveScale) -> u32

    requires
        frame is Some,
        call_ensures(
            Renderer::render::<T, B, D, H>,
            (
                renderer,
                shared,
                playback,
                controls_opacity,
                fullscreen,
                settings_open,
                settings,
                magnitudes,
                blend,
                decibels,
                height,
            ),
            frame,
        ),
    ensures
        ({
            let shown = match shared {
                Some(media) => match (*media).video {
                    Some(picture) => Renderer {
                        has_video: true,
                        video: PhysicalSize { width: picture.width, height: picture.height },
                        ..*old(renderer)
                    },
                    None => *old(renderer),
                },
                None => *old(renderer),
            };
            shown.updated(
                *final(renderer),
                match shared {
                    Some(media) => Some(SharedMedia { video: None, ..*media }),
                    None => None,
                },
                match shared {
                    Some(media) => Some(*final(media)),
                    None => None,
                },
                playback,
                controls_opacity,
                fullscreen,
                settings_open,
                *settings,
                magnitudes,
                blend,
                decibels,
                height,
                (frame->0).params,
            )
        }),
{
}

/// The blurred picture has half the logical size of the window, rounded up, and
/// at least one pixel.
pub proof fn law_the_blur_has_half_the_logical_size(viewport: Viewport, extent: PhysicalSize)
    requires
        viewport.wf(),
        call_ensures(blur_extent, (viewport,), extent),
    ensures
        ({
            let half = |texels: u32, side: u32|
                {
                    &&& texels >= 1
                    &&& texels < u32::MAX ==> 2 * viewport.scale * texels >= side * 4_800
                    &&& texels > 1 ==> 2 * viewport.scale * (texels - 1) < side * 4_800
                };
            half(extent.width, viewport.size.width) && half(extent.height, viewport.size.height)
        }),
{
    lemma_blurred(viewport.size.width, viewport.scale);
    lemma_blurred(viewport.size.height, viewport.scale);
}

proof fn lemma_blurred(side: u32, scale: u32)
    requires
        scale > 0,
    ensures
        ({
            let texels = crate::renderer::blurred_side(side, scale);
            &&& texels >= 1
            &&& texels < u32::MAX ==> 2 * scale * texels >= side * 4_800
            &&& texels > 1 ==> 2 * scale * (texels - 1) < side * 4_800
        }),
{
    let (numerator, denominator) = (side * 4_800, 2 * scale as int);
    crate::geometry::law_rounding_up_is_the_least_not_below(numerator, denominator);
    let whole = crate::geometry::rounded_up(numerator, denominator);
    let texels = crate::renderer::blurred_side(side, scale);
    assert(2 * scale * texels == denominator * texels) by (nonlinear_arith)
        requires
            denominator == 2 * scale,
    ;
    assert(2 * scale * (texels - 1) == denominator * (texels - 1)) by (nonlinear_arith)
        requires
            denominator == 2 * scale,
    ;
    assert(denominator * (whole - 1) == denominator * whole - denominator) by (nonlinear_arith);
    if whole < 1 {
        assert(denominator * texels >= numerator) by (nonlinear_arith)
            requires
                denominator * whole >= numerator,
                whole < 1,
                texels == 1,
                denominator > 0,
        ;
    } else if whole > u32::MAX {
        assert(denominator * (texels - 1) < numerator) by (nonlinear_arith)
            requires
                denominator * (whole - 1) < numerator,
                texels - 1 <= whole - 1,
                denominator > 0,
        ;
    }
}

/// The picture of the labels has the size of the panel, 320 by 310 logical
/// pixels, rounded up.
pub proof fn law_the_labels_have_the_size_of_the_panel(scale: u32, extent: PhysicalSize)
    requires
        0 < scale <= 33_554_432,
        call_ensures(label_atlas_extent, (scale,), extent),
    ensures
        extent.width * 4_800 >= 320 * scale,
        (extent.width - 1) * 4_800 < 320 * scale,
        extent.height * 4_800 >= 310 * scale,
        (extent.height - 1) * 4_800 < 310 * scale,
{
    crate::geometry::law_rounding_up_is_the_least_not_below(320 * scale, 4_800);
    crate::geometry::law_rounding_up_is_the_least_not_below(310 * scale, 4_800);
}

/// A new size that has an area is what is drawn on, with a blur and labels of its
/// size; one without an area is only noted. The labels are drawn anew exactly where
/// their size is another. The picture and the curve stay.
pub proof fn law_a_resize_makes_everything_fit(
    renderer: &mut Renderer,
    viewport: Viewport,
    change: Resize,
    blur: PhysicalSize,
    labels: PhysicalSize,
)
    requires
        viewport.wf(),
        call_ensures(Renderer::resize, (renderer, viewport), change),
        call_ensures(blur_extent, (viewport,), blur),
        call_ensures(label_atlas_extent, (viewport.scale,), labels),
    ensures
        final(renderer).viewport == viewport,
        change.reconfigure <==> viewport.size.width > 0 && viewport.size.height > 0,
        change.redraw_labels <==> change.reconfigure && (old(renderer).label_atlas.width
            != labels.width || old(renderer).label_atlas.height != labels.height),
        change.reconfigure ==> {
            &&& final(renderer).config == viewport.size
            &&& final(renderer).blur == blur
            &&& final(renderer).label_atlas == labels
        },
        !change.reconfigure ==> {
            &&& final(renderer).config == old(renderer).config
            &&& final(renderer).blur == old(renderer).blur
            &&& final(renderer).label_atlas == old(renderer).label_atlas
        },
        final(renderer).video == old(renderer).video,
        final(renderer).has_video == old(renderer).has_video,
        final(renderer).last_spectrum == old(renderer).last_spectrum,
        final(renderer).stats_enabled == old(renderer).stats_enabled,
        final(renderer).stats_started == old(renderer).stats_started,
        final(renderer).rendered_frames == old(renderer).rendered_frames,
{
    lemma_blurred(viewport.size.width, viewport.scale);
    lemma_blurred(viewport.size.height, viewport.scale);
}

/// A new renderer is configured for its window, or for one pixel where that has
/// none, and has neither picture nor curve nor frames.
pub proof fn law_a_new_renderer_shows_nothing(
    viewport: Viewport,
    stats_enabled: bool,
    now: u64,
    renderer: Renderer,
    blur: PhysicalSize,
    labels: PhysicalSize,
)
    requires
        viewport.wf(),
        call_ensures(Renderer::new, (viewport, stats_enabled, now), renderer),
        call_ensures(blur_extent, (viewport,), blur),
        call_ensures(label_atlas_extent, (viewport.scale,), labels),
    ensures
        renderer.viewport == viewport,
        viewport.size.width > 0 ==> renderer.config.width == viewport.size.width,
        viewport.size.width == 0 ==> renderer.config.width == 1,
        viewport.size.height > 0 ==> renderer.config.height == viewport.size.height,
        viewport.size.height == 0 ==> renderer.config.height == 1,
        renderer.blur == blur,
        renderer.label_atlas == labels,
        renderer.video.width == 1,
        renderer.video.height == 1,
        !renderer.has_video,
        renderer.last_spectrum@.len() == 0,
        renderer.stats_enabled == stats_enabled,
        renderer.stats_started == now,
        renderer.rendered_frames == 0,
{
    lemma_blurred(viewport.size.width, viewport.scale);
    lemma_blurred(viewport.size.height, viewport.scale);
}

/// New media start without a picture and without a curve, in the same window.
pub proof fn law_new_media_start_without_a_picture(renderer: &mut Renderer)
    requires
        call_ensures(Renderer::reset_media, (renderer,), ()),
    ensures
        !final(renderer).has_video,
        final(renderer).video.width == 1,
        final(renderer).video.height == 1,
        final(renderer).last_spectrum@.len() == 0,
        final(renderer).viewport == old(renderer).viewport,
        final(renderer).config == old(renderer).config,
        final(renderer).blur == old(renderer).blur,
        final(renderer).label_atlas == old(renderer).label_atlas,
        final(renderer).stats_enabled == old(renderer).stats_enabled,
        final(renderer).stats_started == old(renderer).stats_started,
        final(renderer).rendered_frames == old(renderer).rendered_frames,
{
}

/// A picture that is uploaded is the one that is shown; it needs a new texture
/// exactly where its size is another.
pub proof fn law_an_uploaded_picture_is_shown(
    renderer: &mut Renderer,
    frame: &VideoFrame,
    new_texture: bool,
)
    requires
        call_ensures(Renderer::upload_video, (renderer, frame), new_texture),
    ensures
        final(renderer).has_video,
        final(renderer).video.width == frame.width,
        final(renderer).video.height == frame.height,
        new_texture <==> old(renderer).video.width != frame.width || old(renderer).video.height
            != frame.height,
        final(renderer).viewport == old(renderer).viewport,
        final(renderer).last_spectrum == old(renderer).last_spectrum,
{
}

/// Where counting is on, every frame counts, and from one second after the last
/// report on the next frame reports all that were counted since and starts anew;
/// where it is off nothing happens.
pub proof fn law_frames_are_counted_and_reported(
    renderer: &mut Renderer,
    shared: Option<&mut SharedMedia>,
    now: u64,
    stats: Option<Stats>,
)
    requires
        old(renderer).rendered_frames < u64::MAX,
        call_ensures(Renderer::report_stats, (renderer, shared, now), stats),
    ensures
        !old(renderer).stats_enabled ==> stats is None && *final(renderer) == *old(renderer),
        old(renderer).stats_enabled ==> {
            &&& stats is Some <==> now - old(renderer).stats_started >= 1_000_000_000
            &&& match stats {
                Some(stats) => {
                    &&& stats.elapsed == now - old(renderer).stats_started
                    &&& stats.rendered_frames == old(renderer).rendered_frames + 1
                    &&& final(renderer).rendered_frames == 0
                    &&& final(renderer).stats_started == now
                },
                None => {
                    &&& final(renderer).rendered_frames == old(renderer).rendered_frames + 1
                    &&& final(renderer).stats_started == old(renderer).stats_started
                },
            }
        },
        match (shared, stats) {
            (Some(media), Some(stats)) => {
                &&& stats.video_frames == (*media).decoded_video_frames
                &&& stats.audio_frames == (*media).analysed_audio_frames
                &&& (*final(media)).decoded_video_frames == 0
                &&& (*final(media)).analysed_audio_frames == 0
                &&& (*final(media)).video == (*media).video
                &&& (*final(media)).pending_audio == (*media).pending_audio
            },
            (Some(media), None) => *final(media) == *media,
            (None, Some(stats)) => stats.video_frames == 0 && stats.audio_frames == 0,
            (None, None) => true,
        },
        final(renderer).viewport == old(renderer).viewport,
        final(renderer).last_spectrum == old(renderer).last_spectrum,
        final(renderer).stats_enabled == old(renderer).stats_enabled,
{
}

/// The first format with gamma-encoded colours is chosen, if there is one.
pub proof fn law_the_first_encoded_format_is_chosen(srgb: &Vec<bool>, chosen: Option<usize>)
    requires
        call_ensures(preferred_format, (srgb,), chosen),
    ensures
        chosen is Some <==> srgb@.contains(true),
        chosen matches Some(place) ==> {
            &&& place < srgb@.len()
            &&& srgb@[place as int]
            &&& forall|i: int| 0 <= i < srgb@.len() && #[trigger] srgb@[i] ==> place <= i
        },
{
    if chosen is Some {
        assert(srgb@[chosen->0 as int] == true);
    }
}

/// A surface is drawn on exactly where it gave a picture, mended where it is out
/// of date or lost, and skipped where there is none for now; only a failed
/// validation is a failure.
pub proof fn law_surfaces_are_mended_or_skipped(status: SurfaceStatus, step: SurfaceStep)
    requires
        call_ensures(surface_step, (status,), step),
    ensures
        step is Draw <==> status is Success || status is Suboptimal,
        step is Reconfigure <==> status is Outdated || status is Lost,
        step is Skip <==> status is Timeout || status is Occluded,
        step is Fail <==> status is Validation,
{
}

/// The renderer finds the controls where its window has them.
pub proof fn law_the_renderer_finds_the_controls_of_its_window(
    renderer: &Renderer,
    position: PhysicalPosition,
    settings_open: bool,
    control: SliderControl,
    action: Option<ControlAction>,
    found: Option<ControlAction>,
    dragged: ControlAction,
    moved: ControlAction,
)
    requires
        call_ensures(Renderer::control_action, (renderer, position, settings_open), action),
        call_ensures(
            Viewport::control_action,
            (renderer.viewport, position, settings_open),
            found,
        ),
        call_ensures(Renderer::drag_action, (renderer, position, control), dragged),
        call_ensures(Viewport::drag_action, (renderer.viewport, position, control), moved),
    ensures
        action == found,
        dragged == moved,
{
}

} // verus!
