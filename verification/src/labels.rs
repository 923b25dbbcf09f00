//! The labels of the settings panel and the fonts they can be drawn in.

use vstd::prelude::*;
use vstd::string::StrSliceExecFns;
use crate::geometry::{PhysicalSize, MAX_SCALE};
use crate::renderer::{label_atlas_extent, label_size};
use crate::text::{lines, split_lines};

verus! {

/// A label and its place in the panel, in logical pixels.
#[derive(Clone, Copy, Debug, PartialEq, Eq)]
pub struct Label {
    pub text: &'static str,
    pub x: u32,
    pub y: u32,
}

/// What the labels say, from top to bottom, and where they stand.
pub open spec fn panel_labels() -> Seq<(Seq<char>, u32, u32)> {
    seq![
        ("Spectrum"@, 16u32, 13u32),
        ("Enabled"@, 16u32, 40u32),
        ("Sensitivity"@, 16u32, 74u32),
        ("Smoothing"@, 16u32, 108u32),
        ("Spacing"@, 16u32, 142u32),
        ("Blur"@, 16u32, 176u32),
        ("Brightness"@, 16u32, 210u32),
        ("Opacity"@, 16u32, 244u32),
        ("Reset"@, 27u32, 280u32),
    ]
}

/// The labels of the settings panel.
pub fn settings_labels() -> (labels: Vec<Label>)
    ensures
        labels@.map_values(|label: Label| (label.text@, label.x, label.y)) == panel_labels(),
{
    let labels: Vec<Label> = vec![
        Label { text: "Spectrum", x: 16, y: 13 },
        Label { text: "Enabled", x: 16, y: 40 },
        Label { text: "Sensitivity", x: 16, y: 74 },
        Label { text: "Smoothing", x: 16, y: 108 },
        Label { text: "Spacing", x: 16, y: 142 },
        Label { text: "Blur", x: 16, y: 176 },
        Label { text: "Brightness", x: 16, y: 210 },
        Label { text: "Opacity", x: 16, y: 244 },
        Label { text: "Reset", x: 27, y: 280 },
    ];
    assert(labels@.map_values(|label: Label| (label.text@, label.x, label.y)) =~= panel_labels());
    labels
}

/// A picture with one byte of opacity to the pixel.
pub struct LabelAtlas {
    pub width: u32,
    pub height: u32,
    pub alpha: Vec<u8>,
}

impl LabelAtlas {
    pub open spec fn wf(self) -> bool {
        self.alpha@.len() == self.height * self.width
    }

    /// A place lies in the picture.
    pub open spec fn covers(self, x: int, y: int) -> bool {
        0 <= x < self.width && 0 <= y < self.height
    }

    /// The opacity at a place in the picture.
    pub open spec fn opacity(self, x: int, y: int) -> u8 {
        self.alpha@[y * self.width + x]
    }

    /// An empty picture for the labels.
    pub fn new(scale: u32) -> (atlas: Self)
        requires
            0 < scale <= MAX_SCALE,
            label_size(scale).height * label_size(scale).width <= usize::MAX,
        ensures
            atlas.wf(),
            atlas.width == label_size(scale).width,
            atlas.height == label_size(scale).height,
            forall|i: int| 0 <= i < atlas.alpha@.len() ==> atlas.alpha@[i] == 0,
    {
        let extent: PhysicalSize = label_atlas_extent(scale);
        let alpha: Vec<u8> = vec![0; extent.height as usize * extent.width as usize];
        LabelAtlas { width: extent.width, height: extent.height, alpha }
    }

    /// Makes a place as opaque as `coverage`, unless it is more so, or lies
    /// outside the picture.
    pub fn draw(&mut self, x: i64, y: i64, coverage: u8)
        requires
            old(self).wf(),
        ensures
            final(self).wf(),
            final(self).width == old(self).width,
            final(self).height == old(self).height,
            !old(self).covers(x as int, y as int) ==> *final(self) == *old(self),
            old(self).covers(x as int, y as int) ==> final(self).opacity(x as int, y as int)
                == if coverage > old(self).opacity(x as int, y as int) {
                coverage
            } else {
                old(self).opacity(x as int, y as int)
            },
            forall|column: int, row: int|
                old(self).covers(column, row) && (column, row) != (x as int, y as int)
                    ==> #[trigger] final(self).opacity(column, row) == old(self).opacity(
                    column,
                    row,
                ),
    {
        if x >= 0 && y >= 0 && x < self.width as i64 && y < self.height as i64 {
            assert(self.alpha.len() == self.height * self.width);
            proof {
                lemma_place(x as int, y as int, self.width as int, self.height as int);
                assert forall|column: int, row: int| #[trigger]
                    old(self).covers(column, row) implies {
                    &&& 0 <= row * self.width + column < self.alpha@.len()
                    &&& (column, row) != (x as int, y as int) ==> row * self.width + column != y
                        * self.width + x
                } by {
                    lemma_place(column, row, self.width as int, self.height as int);
                    if (column, row) != (x as int, y as int) {
                        lemma_places_differ(column, row, x as int, y as int, self.width as int);
                    }
                }
            }
            let index: usize = y as usize * self.width as usize + x as usize;
            if coverage > self.alpha[index] {
                self.alpha.set(index, coverage);
            }
        }
    }
}

proof fn lemma_place(x: int, y: int, width: int, height: int)
    requires
        0 <= x < width,
        0 <= y < height,
    ensures
        0 <= y * width,
        y * width + x < height * width,
{
    assert(0 <= y * width && y * width + x < height * width) by (nonlinear_arith)
        requires
            0 <= x < width,
            0 <= y < height,
    ;
}

proof fn lemma_places_differ(x: int, y: int, other_x: int, other_y: int, width: int)
    requires
        0 <= x < width,
        0 <= other_x < width,
        x != other_x || y != other_y,
    ensures
        y * width + x != other_y * width + other_x,
{
    if y < other_y {
        assert(y * width + width <= other_y * width) by (nonlinear_arith)
            requires
                y + 1 <= other_y,
                width > 0,
        ;
    } else if other_y < y {
        assert(other_y * width + width <= y * width) by (nonlinear_arith)
            requires
                other_y + 1 <= y,
                width > 0,
        ;
    }
}

/// A font that is tried.
#[derive(Debug, PartialEq, Eq)]
pub enum FontCandidate {
    /// The font that the environment names.
    Override,
    /// The font in a file.
    Path(String),
}

/// The path of a font, if it is known by its path.
pub open spec fn candidate_path(candidate: FontCandidate) -> Option<Seq<char>> {
    match candidate {
        FontCandidate::Override => None,
        FontCandidate::Path(path) => Some(path@),
    }
}

/// The first line of what `fc-match` prints, unless that is empty.
pub open spec fn matched_path(printed: Seq<char>) -> Option<Seq<char>> {
    if lines(printed).len() > 0 && lines(printed)[0].len() > 0 {
        Some(lines(printed)[0])
    } else {
        None
    }
}

/// The systems whose usual fonts are known.
#[derive(Clone, Copy, Debug, PartialEq, Eq, Structural)]
pub enum Platform {
    Linux,
    MacOs,
    Windows,
    Other,
}

/// The fonts that a system usually has.
pub open spec fn usual_fonts(platform: Platform) -> Seq<Option<Seq<char>>> {
    match platform {
        Platform::Linux => seq![
            Some("/usr/share/fonts/noto/NotoSans-Regular.ttf"@),
            Some("/usr/share/fonts/truetype/dejavu/DejaVuSans.ttf"@),
            Some("/usr/share/fonts/liberation/LiberationSans-Regular.ttf"@),
            Some("/usr/share/fonts/truetype/liberation2/LiberationSans-Regular.ttf"@),
        ],
        Platform::MacOs => seq![Some("/System/Library/Fonts/SFNS.ttf"@)],
        Platform::Windows => seq![Some("C:\\Windows\\Fonts\\segoeui.ttf"@)],
        Platform::Other => seq![],
    }
}

/// The fonts that are tried, in order: the one that the environment names, on
/// Linux the one that `fc-match` names, and the usual ones.
pub open spec fn font_order(
    overridden: bool,
    platform: Platform,
    printed: Option<Seq<char>>,
) -> Seq<Option<Seq<char>>> {
    (if overridden {
        seq![None::<Seq<char>>]
    } else {
        seq![]
    }) + (match printed {
        Some(printed) if platform == Platform::Linux && matched_path(printed) is Some => seq![
            matched_path(printed),
        ],
        _ => seq![],
    }) + usual_fonts(platform)
}

/// The fonts that are tried, given whether the environment names one and what
/// `fc-match` printed, where it succeeded.
pub fn font_candidates(overridden: bool, platform: Platform, printed: Option<String>) -> (candidates:
    Vec<FontCandidate>)
    ensures
        candidates@.map_values(|candidate: FontCandidate| candidate_path(candidate)) == font_order(
            overridden,
            platform,
            match printed {
                Some(printed) => Some(printed@),
                None => None,
            },
        ),
{
    let mut candidates: Vec<FontCandidate> = Vec::new();
    if overridden {
        candidates.push(FontCandidate::Override);
    }
    match platform {
        Platform::Linux => {
            if let Some(printed) = &printed {
                let found = split_lines(printed.as_str());
                if found.len() > 0 && !found[0].as_str().is_empty() {
                    candidates.push(FontCandidate::Path(found[0].clone()));
                }
            }
            candidates.push(
                FontCandidate::Path("/usr/share/fonts/noto/NotoSans-Regular.ttf".to_owned()),
            );
            candidates.push(
                FontCandidate::Path("/usr/share/fonts/truetype/dejavu/DejaVuSans.ttf".to_owned()),
            );
            candidates.push(
                FontCandidate::Path(
                    "/usr/share/fonts/liberation/LiberationSans-Regular.ttf".to_owned(),
                ),
            );
            candidates.push(
                FontCandidate::Path(
                    "/usr/share/fonts/truetype/liberation2/LiberationSans-Regular.ttf".to_owned(),
                ),
            );
        },
        Platform::MacOs => {
            candidates.push(FontCandidate::Path("/System/Library/Fonts/SFNS.ttf".to_owned()));
        },
        Platform::Windows => {
            candidates.push(FontCandidate::Path("C:\\Windows\\Fonts\\segoeui.ttf".to_owned()));
        },
        Platform::Other => {},
    }
    assert(candidates@.map_values(|candidate: FontCandidate| candidate_path(candidate))
        =~= font_order(
        overridden,
        platform,
        match printed {
            Some(printed) => Some(printed@),
            None => None,
        },
    ));
    candidates
}

/// A font that was read.
#[verifier::external_type_specification]
#[verifier::external_body]
pub struct ExFontArc(ab_glyph::FontArc);

/// `ab_glyph::FontArc::try_from_vec` takes the bytes as a font.
pub uninterp spec fn is_font(bytes: Seq<u8>) -> bool;

/// Calls `ab_glyph::FontArc::try_from_vec`. Whether the bytes are taken as a font
/// depends on them alone.
#[verifier::external_body]
fn parse_font(bytes: Vec<u8>) -> (font: Option<ab_glyph::FontArc>)
    ensures
        font is Some == is_font(bytes@),
{
    ab_glyph::FontArc::try_from_vec(bytes).ok()
}

/// `font` is an answer that `parse_font` gives of some bytes.
pub closed spec fn is_font_answer(bytes: Vec<u8>, font: Option<ab_glyph::FontArc>) -> bool {
    call_ensures(parse_font, (bytes,), font)
}

/// The font in a file, given what was read of it: nothing where it could not be
/// read or holds no font, so that the next one is tried.
pub fn usable_font(read: Option<Vec<u8>>) -> (font: Option<ab_glyph::FontArc>)
    ensures
        font is Some <==> (read matches Some(bytes) && is_font(bytes@)),
        read matches Some(bytes) ==> is_font_answer(bytes, font),
{
    match read {
        Some(bytes) => {
            let ask = parse_font;
            ask(bytes)
        },
        None => None,
    }
}

/// What is done next in the search for a font.
#[derive(Clone, Copy, Debug, PartialEq, Eq, Structural)]
pub enum FontStep {
    /// Take the font that was found.
    Take,
    /// Read the candidate at a place.
    Read(usize),
    /// There is no font.
    Fail,
}

/// What is done next, where the first `tried` of so many candidates were read
/// and the last of them held a usable font or not.
pub fn font_step(candidates: usize, tried: usize, usable: bool) -> (step: FontStep)
    requires
        tried <= candidates,
    ensures
        step == if usable {
            FontStep::Take
        } else if tried < candidates {
            FontStep::Read(tried)
        } else {
            FontStep::Fail
        },
{
    if usable {
        FontStep::Take
    } else if tried < candidates {
        FontStep::Read(tried)
    } else {
        FontStep::Fail
    }
}

} // verus!
