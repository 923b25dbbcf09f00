use spectrum_native::geometry::{PhysicalSize, Ratio, Viewport, SCALE_ONE};
use spectrum_native::labels::{
    font_candidates, font_step, settings_labels, usable_font, FontCandidate, FontStep, LabelAtlas,
    Platform,
};
use spectrum_native::media::{PlaybackUi, SharedMedia, VideoFrame};
use spectrum_native::renderer::{
    blur_extent, label_atlas_extent, preferred_format, surface_step, CurveScale, Frame, Renderer,
    Resize, Stats, SurfaceStatus, SurfaceStep,
};
use spectrum_native::settings::{SpectrumSettings, FRACTION_ONE, SETTING_ONE};

fn window(width: u32, height: u32) -> Viewport {
    Viewport { size: PhysicalSize { width, height }, scale: SCALE_ONE }
}

fn value(ratio: Ratio) -> f64 {
    ratio.numerator as f64 / ratio.denominator as f64
}

fn picture(width: u32, height: u32) -> VideoFrame {
    VideoFrame { width, height, rgba: vec![0; (width * height * 4) as usize] }
}

/// A height tells which value it was made of.
fn height(decibels: Option<u32>, curve: CurveScale) -> u32 {
    match decibels {
        Some(bits) => bits + curve.scale,
        None => 7,
    }
}

fn render(
    renderer: &mut Renderer,
    shared: Option<&mut SharedMedia>,
    playback: Option<PlaybackUi>,
    opacity: u64,
    settings: &SpectrumSettings,
) -> Option<Frame> {
    renderer.render(
        shared,
        playback,
        opacity,
        true,
        false,
        settings,
        |window: &Vec<u32>| window.clone(),
        |_previous, magnitude, _weight| magnitude,
        |magnitude| magnitude,
        height,
    )
}

#[test]
fn the_blurred_picture_has_half_the_logical_size() {
    assert_eq!(blur_extent(window(1280, 720)), PhysicalSize { width: 640, height: 360 });
    assert_eq!(blur_extent(window(1281, 0)), PhysicalSize { width: 641, height: 1 });
    let large = Viewport { size: PhysicalSize { width: 2561, height: 1440 }, scale: 2 * SCALE_ONE };
    assert_eq!(blur_extent(large), PhysicalSize { width: 641, height: 360 });
}

#[test]
fn labels_have_the_size_of_the_panel() {
    assert_eq!(label_atlas_extent(SCALE_ONE), PhysicalSize { width: 320, height: 310 });
    assert_eq!(label_atlas_extent(SCALE_ONE * 5 / 4), PhysicalSize { width: 400, height: 388 });
    assert_eq!(label_atlas_extent(1), PhysicalSize { width: 1, height: 1 });
}

#[test]
fn a_resize_rebuilds_what_changed() {
    let mut renderer = Renderer::new(window(0, 0), false, 0);
    assert_eq!(renderer.config, PhysicalSize { width: 1, height: 1 });
    let change = renderer.resize(window(800, 600));
    assert!(change.reconfigure && !change.redraw_labels);
    assert_eq!(renderer.config, PhysicalSize { width: 800, height: 600 });
    assert_eq!(renderer.blur, PhysicalSize { width: 400, height: 300 });
    let Resize { reconfigure, redraw_labels } =
        renderer.resize(Viewport { scale: 2 * SCALE_ONE, ..window(800, 600) });
    assert!(reconfigure && redraw_labels);
    assert_eq!(renderer.label_atlas, PhysicalSize { width: 640, height: 620 });
    let change = renderer.resize(window(0, 600));
    assert!(!change.reconfigure && !change.redraw_labels);
    assert_eq!(renderer.config, PhysicalSize { width: 800, height: 600 });
}

#[test]
fn wide_pictures_have_bars_above_and_below() {
    let mut renderer = Renderer::new(window(1000, 1000), false, 0);
    assert!(renderer.upload_video(&picture(4, 2)));
    assert!(!renderer.upload_video(&picture(4, 2)));
    let layout = renderer.layout(true, &SpectrumSettings::default());
    assert_eq!((value(layout.content.0), value(layout.content.1)), (1000.0, 500.0));
    assert_eq!((value(layout.origin.0), value(layout.origin.1)), (0.0, 250.0));
    // 1000 / 40 + 2
    assert_eq!(layout.points, 27);
}

#[test]
fn tall_pictures_have_bars_beside_them() {
    let mut renderer = Renderer::new(window(1001, 1000), false, 0);
    renderer.upload_video(&picture(1, 2));
    let layout = renderer.layout(true, &SpectrumSettings::default());
    assert_eq!((value(layout.content.0), value(layout.content.1)), (500.0, 1000.0));
    // 250.5 is rounded.
    assert_eq!((value(layout.origin.0), value(layout.origin.1)), (251.0, 0.0));
    // 500 / 40 + 2 is rounded.
    assert_eq!(layout.points, 15);
}

#[test]
fn audio_uses_the_whole_window() {
    let renderer = Renderer::new(window(1280, 720), false, 0);
    let layout = renderer.layout(true, &SpectrumSettings::default());
    assert_eq!((value(layout.content.0), value(layout.content.1)), (1280.0, 720.0));
    assert_eq!((value(layout.origin.0), value(layout.origin.1)), (0.0, 0.0));
    assert_eq!(layout.points, 34);
    assert_eq!(renderer.layout(false, &SpectrumSettings::default()).points, 0);
    let off = SpectrumSettings { enabled: false, ..SpectrumSettings::default() };
    assert_eq!(renderer.layout(true, &off).points, 0);
}

#[test]
fn points_lie_further_apart_on_a_larger_scale() {
    let large = Viewport { size: PhysicalSize { width: 2560, height: 1440 }, scale: 2 * SCALE_ONE };
    let mut renderer = Renderer::new(large, false, 0);
    // 1280 logical pixels, 80 of them to a point.
    assert_eq!(renderer.layout(true, &SpectrumSettings::default()).points, 18);
    let mut shared = SharedMedia::default();
    let frame = render(&mut renderer, Some(&mut shared), None, 0, &SpectrumSettings::default());
    assert_eq!(value(frame.unwrap().params.step_px), 160.0);
}

#[test]
fn the_number_of_points_has_a_limit() {
    let renderer = Renderer::new(window(1_000_000, 10), false, 0);
    assert_eq!(renderer.layout(true, &SpectrumSettings::default()).points, 1024);
}

#[test]
fn a_frame_is_drawn_from_the_state_of_playback() {
    let mut renderer = Renderer::new(window(1280, 720), false, 0);
    let mut shared = SharedMedia::default();
    shared.store_video(picture(16, 9));
    let playback = PlaybackUi {
        position: 30_000_000_000,
        duration: 90_000_000_000,
        volume: 2 * FRACTION_ONE,
        playing: true,
        muted: false,
    };
    let settings = SpectrumSettings::default();
    let frame = render(
        &mut renderer,
        Some(&mut shared),
        Some(playback),
        FRACTION_ONE,
        &settings,
    ).unwrap();
    let upload = frame.upload.unwrap();
    assert!(upload.new_texture);
    assert_eq!((upload.frame.width, upload.frame.height), (16, 9));
    let params = frame.params;
    assert_eq!(params.output_size, PhysicalSize { width: 1280, height: 720 });
    assert_eq!(params.video_size, PhysicalSize { width: 16, height: 9 });
    assert_eq!(params.blur_size, PhysicalSize { width: 640, height: 360 });
    assert_eq!(params.scale_factor, SCALE_ONE);
    assert_eq!(params.playback_progress, 333_333_333);
    assert_eq!(params.volume, FRACTION_ONE);
    // Opacity 255, enabled, fullscreen, media, playing.
    assert_eq!(params.ui_flags, 255 * 256 + 32 + 8 + 2 + 1);
    assert_eq!(value(params.step_px), 40.0);
    assert_eq!(value(params.blur_scale), 1.0);
    assert_eq!(params.filter_brightness, 80_000_000_000);
    assert_eq!(params.filter_opacity, 10_000_000_000);
    assert_eq!(params.settings_a, [333_333_333, 705_263_157, 333_333_333, 500_000_000]);
    assert_eq!(params.settings_b, [666_666_666, 333_333_333, FRACTION_ONE, 0]);
    assert!(shared.take_video().is_none());
}

#[test]
fn values_that_are_no_numbers_lie_on_the_ground() {
    let mut renderer = Renderer::new(window(1280, 720), false, 0);
    let mut shared = SharedMedia::default();
    let settings = SpectrumSettings::default();
    let frame = render(&mut renderer, Some(&mut shared), None, 0, &settings).unwrap();
    assert_eq!(frame.params.point_count, 34);
    assert_eq!(renderer.last_spectrum, vec![7; 34]);
    shared.analyser.push_silence(4096);
    render(&mut renderer, Some(&mut shared), None, 0, &settings);
    assert_eq!(renderer.last_spectrum, vec![SCALE_ONE; 34]);
}

#[test]
fn the_last_spectrum_stays_while_it_fits() {
    let mut renderer = Renderer::new(window(1280, 720), false, 0);
    let mut shared = SharedMedia::default();
    shared.store_video(picture(16, 9));
    let settings = SpectrumSettings::default();
    render(&mut renderer, Some(&mut shared), None, 0, &settings);
    let frame = render(&mut renderer, None, None, 0, &settings).unwrap();
    assert_eq!(frame.params.point_count, 34);
    renderer.resize(window(640, 360));
    let frame = render(&mut renderer, None, None, 0, &settings).unwrap();
    assert_eq!(frame.params.point_count, 0);
    assert_eq!(renderer.last_spectrum.len(), 34);
    renderer.reset_media();
    assert!(renderer.last_spectrum.is_empty());
    let frame = render(&mut renderer, None, None, 0, &settings).unwrap();
    assert_eq!(frame.params.video_size, PhysicalSize { width: 0, height: 0 });
    assert_eq!(frame.params.ui_flags, 32 + 8);
}

#[test]
fn nothing_is_drawn_without_an_area() {
    let mut renderer = Renderer::new(window(0, 720), false, 0);
    let mut shared = SharedMedia::default();
    shared.store_video(picture(1, 1));
    let settings = SpectrumSettings::default();
    assert!(render(&mut renderer, Some(&mut shared), None, 0, &settings).is_none());
    assert!(shared.take_video().is_some());
}

#[test]
fn counts_are_handed_out_once_a_second() {
    let mut renderer = Renderer::new(window(8, 8), true, 500);
    let mut shared = SharedMedia::default();
    shared.store_video(picture(1, 1));
    assert_eq!(renderer.report_stats(Some(&mut shared), 1_000_000_499), None);
    assert_eq!(
        renderer.report_stats(Some(&mut shared), 1_000_000_500),
        Some(Stats {
            elapsed: 1_000_000_000,
            rendered_frames: 2,
            video_frames: 1,
            audio_frames: 0,
        })
    );
    assert_eq!(shared.take_counts(), (0, 0));
    assert_eq!(renderer.report_stats(None, 1_000_000_501), None);
    let mut silent = Renderer::new(window(8, 8), false, 0);
    assert_eq!(silent.report_stats(None, 9_000_000_000), None);
    assert_eq!(silent.rendered_frames, 0);
}

#[test]
fn surfaces_are_drawn_on_skipped_or_mended() {
    assert_eq!(surface_step(SurfaceStatus::Success), SurfaceStep::Draw);
    assert_eq!(surface_step(SurfaceStatus::Suboptimal), SurfaceStep::Draw);
    assert_eq!(surface_step(SurfaceStatus::Timeout), SurfaceStep::Skip);
    assert_eq!(surface_step(SurfaceStatus::Occluded), SurfaceStep::Skip);
    assert_eq!(surface_step(SurfaceStatus::Outdated), SurfaceStep::Reconfigure);
    assert_eq!(surface_step(SurfaceStatus::Lost), SurfaceStep::Reconfigure);
    assert_eq!(surface_step(SurfaceStatus::Validation), SurfaceStep::Fail);
    assert_eq!(preferred_format(&vec![false, true, true]), Some(1));
    assert_eq!(preferred_format(&vec![false]), None);
}

#[test]
fn the_panel_has_nine_labels() {
    let labels = settings_labels();
    assert_eq!(labels.len(), 9);
    assert_eq!((labels[0].text, labels[0].x, labels[0].y), ("Spectrum", 16, 13));
    assert_eq!((labels[8].text, labels[8].x, labels[8].y), ("Reset", 27, 280));
}

#[test]
fn labels_darken_and_stay_inside() {
    let mut atlas = LabelAtlas::new(SCALE_ONE);
    assert_eq!((atlas.width, atlas.height, atlas.alpha.len()), (320, 310, 99_200));
    atlas.draw(2, 1, 100);
    atlas.draw(2, 1, 50);
    assert_eq!(atlas.alpha[322], 100);
    atlas.draw(-1, 0, 9);
    atlas.draw(320, 0, 9);
    atlas.draw(0, 310, 9);
    assert_eq!(atlas.alpha.iter().filter(|alpha| **alpha > 0).count(), 1);
}

#[test]
fn fonts_are_tried_in_order() {
    let usual = font_candidates(false, Platform::Linux, None);
    assert_eq!(usual.len(), 4);
    assert!(matches!(
        &usual[0],
        FontCandidate::Path(path) if path == "/usr/share/fonts/noto/NotoSans-Regular.ttf"
    ));
    let printed = || Some("/fonts/a.ttf\n/fonts/b.ttf\n".to_owned());
    let all = font_candidates(true, Platform::Linux, printed());
    assert_eq!(all.len(), 6);
    assert!(matches!(&all[0], FontCandidate::Override));
    assert!(matches!(&all[1], FontCandidate::Path(path) if path == "/fonts/a.ttf"));
    assert_eq!(font_candidates(false, Platform::Linux, Some("\n".to_owned())).len(), 4);
    assert_eq!(
        font_candidates(false, Platform::MacOs, printed()),
        vec![FontCandidate::Path("/System/Library/Fonts/SFNS.ttf".to_owned())]
    );
    assert_eq!(
        font_candidates(false, Platform::Windows, None),
        vec![FontCandidate::Path("C:\\Windows\\Fonts\\segoeui.ttf".to_owned())]
    );
    assert_eq!(font_candidates(true, Platform::Other, None), vec![FontCandidate::Override]);
}

#[test]
fn settings_are_counted_in_small_parts() {
    assert_eq!(SETTING_ONE, 100 * FRACTION_ONE);
}

/// A font of one empty glyph: the three tables that every font has.
fn small_font() -> Vec<u8> {
    let mut head = vec![0; 54];
    head[18..20].copy_from_slice(&1000_u16.to_be_bytes());
    let hhea = vec![0; 36];
    let maxp = vec![0, 0, 0x50, 0, 0, 1];
    let mut bytes = vec![0, 1, 0, 0, 0, 3, 0, 0, 0, 0, 0, 0];
    let mut offset = 60_u32;
    for (tag, table) in [(b"head", &head), (b"hhea", &hhea), (b"maxp", &maxp)] {
        bytes.extend_from_slice(tag);
        bytes.extend_from_slice(&[0; 4]);
        bytes.extend_from_slice(&offset.to_be_bytes());
        bytes.extend_from_slice(&(table.len() as u32).to_be_bytes());
        offset += table.len() as u32;
    }
    for table in [head, hhea, maxp] {
        bytes.extend(table);
    }
    bytes
}

#[test]
fn fonts_are_told_from_other_files() {
    assert!(usable_font(Some(small_font())).is_some());
    let mut broken = small_font();
    broken[78] = 0;
    broken[79] = 0;
    assert!(usable_font(Some(broken)).is_none());
    assert!(usable_font(Some(vec![1, 2, 3])).is_none());
    assert!(usable_font(Some(Vec::new())).is_none());
    assert!(usable_font(None).is_none());
}

#[test]
fn fonts_are_read_until_one_is_usable() {
    assert_eq!(font_step(2, 0, false), FontStep::Read(0));
    assert_eq!(font_step(2, 1, false), FontStep::Read(1));
    assert_eq!(font_step(2, 1, true), FontStep::Take);
    assert_eq!(font_step(2, 2, true), FontStep::Take);
    assert_eq!(font_step(2, 2, false), FontStep::Fail);
    assert_eq!(font_step(0, 0, false), FontStep::Fail);
}
