//! Text on images: which font a name stands for, how a text is broken into
//! lines, where single letters of a vertical text go, and how a rendered
//! text is turned before it is laid on an image.
//!
//! Rendering the glyphs is left to the caller's text rasterizer; what is
//! computed here are the places and the sizes.

use vstd::prelude::*;
use vstd::utf8::encode_utf8;
use crate::color::Rgb;
use crate::error::GraphicsError;
use crate::graphics::draw_photonimage;
use crate::image::{mask_painted, overlaid, spreads_to, turned, ImageView, PhotonImage};
use crate::layout::Point;
use crate::raster::{
    dilate_mask, rotate_half, rotate_quarter, rotate_three_quarters, split_words, text_eq,
};

verus! {

/// The fonts that come with the toolkit.
#[derive(Debug, Clone, Copy, PartialEq, Eq, Structural)]
pub enum FontFace {
    BebasKai,
    LatoRegular,
    MontserratRegular,
    MrDafoeRegular,
    Oswald,
    OswaldRegular,
    RobotoBold,
    RobotoLight,
    RobotoRegular,
}

impl FontFace {
    /// The font that a name stands for; a name that is not known stands for
    /// `Roboto-Regular`.
    pub open spec fn spec_from_name(name: Seq<char>) -> FontFace {
        if name == "BebasKai"@ {
            FontFace::BebasKai
        } else if name == "Lato-Regular"@ {
            FontFace::LatoRegular
        } else if name == "Montserrat-Regular"@ {
            FontFace::MontserratRegular
        } else if name == "MrDafoe-Regular"@ {
            FontFace::MrDafoeRegular
        } else if name == "Oswald"@ {
            FontFace::Oswald
        } else if name == "Oswald-Regular"@ {
            FontFace::OswaldRegular
        } else if name == "Roboto-Bold"@ {
            FontFace::RobotoBold
        } else if name == "Roboto-Light"@ {
            FontFace::RobotoLight
        } else {
            FontFace::RobotoRegular
        }
    }

    /// The name of the font, which is also the stem of its file.
    pub open spec fn spec_name(self) -> Seq<char> {
        match self {
            FontFace::BebasKai => "BebasKai"@,
            FontFace::LatoRegular => "Lato-Regular"@,
            FontFace::MontserratRegular => "Montserrat-Regular"@,
            FontFace::MrDafoeRegular => "MrDafoe-Regular"@,
            FontFace::Oswald => "Oswald"@,
            FontFace::OswaldRegular => "Oswald-Regular"@,
            FontFace::RobotoBold => "Roboto-Bold"@,
            FontFace::RobotoLight => "Roboto-Light"@,
            FontFace::RobotoRegular => "Roboto-Regular"@,
        }
    }

    /// Looks a font up by its name. A name that is not known gives the
    /// default font, `Roboto-Regular`, rather than a failure.
    pub fn from_name(name: &str) -> (font: FontFace)
        ensures
            font == Self::spec_from_name(name@),
    {
        if text_eq(name, "BebasKai") {
            FontFace::BebasKai
        } else if text_eq(name, "Lato-Regular") {
            FontFace::LatoRegular
        } else if text_eq(name, "Montserrat-Regular") {
            FontFace::MontserratRegular
        } else if text_eq(name, "MrDafoe-Regular") {
            FontFace::MrDafoeRegular
        } else if text_eq(name, "Oswald") {
            FontFace::Oswald
        } else if text_eq(name, "Oswald-Regular") {
            FontFace::OswaldRegular
        } else if text_eq(name, "Roboto-Bold") {
            FontFace::RobotoBold
        } else if text_eq(name, "Roboto-Light") {
            FontFace::RobotoLight
        } else {
            FontFace::RobotoRegular
        }
    }

    /// The name of the font.
    pub fn name(self) -> (name: &'static str)
        ensures
            name@ == self.spec_name(),
    {
        match self {
            FontFace::BebasKai => "BebasKai",
            FontFace::LatoRegular => "Lato-Regular",
            FontFace::MontserratRegular => "Montserrat-Regular",
            FontFace::MrDafoeRegular => "MrDafoe-Regular",
            FontFace::Oswald => "Oswald",
            FontFace::OswaldRegular => "Oswald-Regular",
            FontFace::RobotoBold => "Roboto-Bold",
            FontFace::RobotoLight => "Roboto-Light",
            FontFace::RobotoRegular => "Roboto-Regular",
        }
    }
}

/// Every font is found again by its own name: no two fonts share a name,
/// and none of the names is taken for unknown.
pub proof fn lemma_font_is_found_by_its_name(font: FontFace)
    ensures
        FontFace::spec_from_name(font.spec_name()) == font,
{
    reveal_strlit("BebasKai");
    reveal_strlit("Lato-Regular");
    reveal_strlit("Montserrat-Regular");
    reveal_strlit("MrDafoe-Regular");
    reveal_strlit("Oswald");
    reveal_strlit("Oswald-Regular");
    reveal_strlit("Roboto-Bold");
    reveal_strlit("Roboto-Light");
    reveal_strlit("Roboto-Regular");
    assert("Lato-Regular"@[0] != "Roboto-Light"@[0]);
    assert("Oswald-Regular"@[0] != "Roboto-Regular"@[0]);
    assert("BebasKai"@.len() == 8);
    assert("Lato-Regular"@.len() == 12);
    assert("Montserrat-Regular"@.len() == 18);
    assert("MrDafoe-Regular"@.len() == 15);
    assert("Oswald"@.len() == 6);
    assert("Oswald-Regular"@.len() == 14);
    assert("Roboto-Bold"@.len() == 11);
    assert("Roboto-Light"@.len() == 12);
    assert("Roboto-Regular"@.len() == 14);
}

/// A quarter turn, a half turn or three quarters of a turn, clockwise.
#[derive(Debug, Clone, Copy, PartialEq, Eq, Structural)]
pub enum Rotation {
    Quarter,
    Half,
    ThreeQuarters,
}

impl Rotation {
    /// The rotation that a number of degrees stands for: `90`, `180` or
    /// `270`; anything else is a quarter turn.
    pub open spec fn spec_from_degrees(degrees: Seq<char>) -> Rotation {
        if degrees == "180"@ {
            Rotation::Half
        } else if degrees == "270"@ {
            Rotation::ThreeQuarters
        } else {
            Rotation::Quarter
        }
    }

    /// Reads a rotation from its degrees, `90`, `180` or `270`. Anything
    /// else gives a quarter turn.
    pub fn from_degrees(degrees: &str) -> (rotation: Rotation)
        ensures
            rotation == Self::spec_from_degrees(degrees@),
    {
        if text_eq(degrees, "180") {
            Rotation::Half
        } else if text_eq(degrees, "270") {
            Rotation::ThreeQuarters
        } else {
            Rotation::Quarter
        }
    }

    /// The rotation of a vertical text that faces `left` or `right`, if the
    /// direction is one of the two.
    pub open spec fn spec_facing(direction: Seq<char>) -> Option<Rotation> {
        if direction == "left"@ {
            Some(Rotation::ThreeQuarters)
        } else if direction == "right"@ {
            Some(Rotation::Quarter)
        } else {
            None
        }
    }

    /// The rotation of a vertical text: three quarters of a turn where it
    /// faces `left`, a quarter turn where it faces `right`. Any other
    /// direction gives none, and nothing is to be drawn.
    pub fn facing(direction: &str) -> (rotation: Option<Rotation>)
        ensures
            rotation == Self::spec_facing(direction@),
    {
        if text_eq(direction, "left") {
            Some(Rotation::ThreeQuarters)
        } else if text_eq(direction, "right") {
            Some(Rotation::Quarter)
        } else {
            None
        }
    }
}

/// A font by name, with a size and a colour.
#[derive(Debug, Clone, PartialEq, Eq)]
pub struct Font {
    pub name: String,
    pub size: u8,
    pub color: Rgb,
}

impl Font {
    /// Creates a font.
    pub fn new(name: &str, size: u8, color: Rgb) -> (font: Font)
        ensures
            font.name@ == name@,
            font.size == size,
            font.color == color,
    {
        Font { name: name.to_owned(), size, color }
    }

    /// The face that the name of the font stands for.
    pub fn face(&self) -> (face: FontFace)
        ensures
            face == FontFace::spec_from_name(self.name@),
    {
        FontFace::from_name(self.name.as_str())
    }
}

/// A text to be rendered: what it says, where its anchor is, and in which
/// font, size and colour it is set. The glyphs start ten pixels to the right
/// of the anchor and ten pixels above it; see [`pen_position`].
#[derive(Debug, Clone, PartialEq, Eq)]
pub struct Caption {
    pub text: String,
    pub x: u32,
    pub y: u32,
    pub font: FontFace,
    pub font_size: u32,
    pub color: Rgb,
}

/// Whether a caption says `text` at `(x, y)` in the given font, size and
/// colour.
pub open spec fn is_caption(
    caption: Caption,
    text: Seq<char>,
    x: int,
    y: int,
    font: FontFace,
    font_size: int,
    color: Rgb,
) -> bool {
    &&& caption.text@ == text
    &&& caption.x == x
    &&& caption.y == y
    &&& caption.font == font
    &&& caption.font_size == font_size
    &&& caption.color == color
}

impl Caption {
    /// Makes a caption.
    pub fn new(text: &str, x: u32, y: u32, font: FontFace, font_size: u32, color: Rgb) -> (caption:
        Caption)
        ensures
            is_caption(caption, text@, x as int, y as int, font, font_size as int, color),
    {
        Caption { text: text.to_owned(), x, y, font, font_size, color }
    }
}

/// The words with a space between neighbours.
pub open spec fn joined(words: Seq<Seq<char>>) -> Seq<char>
    decreases words.len(),
{
    if words.len() == 0 {
        Seq::empty()
    } else if words.len() == 1 {
        words[0]
    } else {
        joined(words.drop_last()) + seq![' '] + words.last()
    }
}

/// A share of a dimension in hundredths, rounded down and never more than
/// `u32::MAX`.
pub open spec fn share(dim: int, percent: int) -> int {
    capped((dim * percent) / 100)
}

/// A share of a dimension in hundredths; see [`share`].
pub fn percent_of(dim: u32, percent: u32) -> (part: u32)
    ensures
        part == share(dim as int, percent as int),
{
    assert(0 <= dim * percent <= 0xffff_ffff * 0xffff_ffff) by (nonlinear_arith)
        requires
            0 <= dim <= 0xffff_ffff,
            0 <= percent <= 0xffff_ffff,
    ;
    let part: u64 = (dim as u64 * percent as u64) / 100;
    if part > u32::MAX as u64 {
        u32::MAX
    } else {
        part as u32
    }
}

/// The smaller of a value and the largest 32-bit number.
pub open spec fn capped(value: int) -> int {
    if value > u32::MAX {
        u32::MAX as int
    } else {
        value
    }
}

/// The room that a word of `len` bytes takes in a line: four fifths of the
/// font size for every byte, rounded down, and never more than `u32::MAX`.
pub open spec fn word_width(len: int, font_size: int) -> int {
    capped((4 * font_size * len) / 5)
}

/// The widths of the words `from` up to, not including, `to`, added up.
pub open spec fn span_width(widths: Seq<u32>, from: int, to: int) -> int
    decreases to - from,
{
    if to <= from {
        0
    } else {
        span_width(widths, from, to - 1) + widths[to - 1]
    }
}

/// Where line `k` ends: where the next line starts, or after the last word.
pub open spec fn line_end(starts: Seq<usize>, count: int, k: int) -> int {
    if k + 1 < starts.len() {
        starts[k + 1] as int
    } else {
        count
    }
}

/// Whether `starts` breaks the words into lines as the toolkit does:
/// `starts[k]` is the first word of line `k`.
///
/// The first line starts with the first word and is no wider than the
/// limit, so where the first word alone is wider, the first line is empty.
/// Every later line holds at least one word and is no wider than the limit
/// unless it is a single word. The first word of the next line would not
/// have fitted in the line before it.
pub open spec fn is_wrapping(starts: Seq<usize>, widths: Seq<u32>, limit: int) -> bool {
    &&& starts.len() >= 1
    &&& starts[0] == 0
    &&& forall|k: int| 1 <= k < starts.len() ==> #[trigger] starts[k] < widths.len()
    &&& forall|k: int| 1 <= k && k + 1 < starts.len() ==> #[trigger] starts[k] < starts[k + 1]
    &&& forall|k: int|
        0 <= k < starts.len() ==> {
            ||| span_width(widths, #[trigger] starts[k] as int, line_end(starts, widths.len() as int, k))
                <= limit
            ||| (k >= 1 && line_end(starts, widths.len() as int, k) - starts[k] == 1)
        }
    &&& forall|k: int|
        0 <= k && k + 1 < starts.len() ==> span_width(
            widths,
            #[trigger] starts[k] as int,
            starts[k + 1] as int,
        ) + widths[starts[k + 1] as int] > limit
}

/// A span of words is at least as wide as any span that starts with it.
pub proof fn lemma_span_width_grows(widths: Seq<u32>, from: int, mid: int, to: int)
    requires
        from <= mid <= to,
    ensures
        0 <= span_width(widths, from, mid) <= span_width(widths, from, to),
    decreases to - from,
{
    if mid < to {
        lemma_span_width_grows(widths, from, mid, to - 1);
    } else if from < mid {
        lemma_span_width_grows(widths, from, mid - 1, mid - 1);
    }
}

/// Where two ways of breaking the same words start a line with the same
/// word, and the first has a line after it, so has the second, and that
/// line starts no later than in the first.
pub proof fn lemma_next_line_starts_no_later(
    a: Seq<usize>,
    b: Seq<usize>,
    widths: Seq<u32>,
    limit: int,
    m: int,
)
    requires
        is_wrapping(a, widths, limit),
        is_wrapping(b, widths, limit),
        0 <= m,
        m + 1 < a.len(),
        m < b.len(),
        a[m] == b[m],
    ensures
        m + 1 < b.len(),
        b[m + 1] <= a[m + 1],
{
    let count = widths.len() as int;
    let start = a[m] as int;
    let next = a[m + 1] as int;
    let end = line_end(b, count, m);
    assert(next < count);
    assert(start <= next) by {
        if m >= 1 {
            assert(a[m] < a[m + 1]);
        }
    }
    if next < end {
        assert(span_width(widths, a[m] as int, a[m + 1] as int) + widths[a[m + 1] as int] > limit);
        assert(span_width(widths, start, next + 1) == span_width(widths, start, next)
            + widths[next]);
        lemma_span_width_grows(widths, start, next + 1, end);
        assert(span_width(widths, b[m] as int, end) > limit);
        assert(m >= 1 && end - b[m] == 1);
        assert(a[m] < a[m + 1]);
        assert(false);
    }
    if !(m + 1 < b.len()) {
        assert(end == count);
        assert(false);
    }
}

/// Two ways of breaking the same words agree on the start of every line
/// that both have.
pub proof fn lemma_wrappings_agree(
    a: Seq<usize>,
    b: Seq<usize>,
    widths: Seq<u32>,
    limit: int,
    k: int,
)
    requires
        is_wrapping(a, widths, limit),
        is_wrapping(b, widths, limit),
        0 <= k < a.len(),
        k < b.len(),
    ensures
        a[k] == b[k],
    decreases k,
{
    if k > 0 {
        lemma_wrappings_agree(a, b, widths, limit, k - 1);
        lemma_next_line_starts_no_later(a, b, widths, limit, k - 1);
        lemma_next_line_starts_no_later(b, a, widths, limit, k - 1);
    }
}

/// There is only one way to break words into lines as [`is_wrapping`]
/// describes: the lines of a text are determined by its words, the font
/// size and the width.
pub proof fn lemma_wrapping_is_unique(a: Seq<usize>, b: Seq<usize>, widths: Seq<u32>, limit: int)
    requires
        is_wrapping(a, widths, limit),
        is_wrapping(b, widths, limit),
    ensures
        a == b,
{
    if a.len() > b.len() {
        let m = b.len() - 1;
        lemma_wrappings_agree(a, b, widths, limit, m);
        lemma_next_line_starts_no_later(a, b, widths, limit, m);
    }
    if b.len() > a.len() {
        let m = a.len() - 1;
        lemma_wrappings_agree(a, b, widths, limit, m);
        lemma_next_line_starts_no_later(b, a, widths, limit, m);
    }
    assert forall|k: int| 0 <= k < a.len() implies a[k] == b[k] by {
        lemma_wrappings_agree(a, b, widths, limit, k);
    }
    assert(a =~= b);
}

/// The room that a word of `len` bytes takes; see [`word_width`].
pub fn measure_word(len: usize, font_size: u32) -> (width: u32)
    ensures
        width == word_width(len as int, font_size as int),
{
    assert(0 <= 4 * font_size * len <= 4 * 0xffff_ffff * 0xffff_ffff_ffff_ffff) by (nonlinear_arith)
        requires
            0 <= font_size <= 0xffff_ffff,
            0 <= len <= 0xffff_ffff_ffff_ffff,
    ;
    let product: u128 = 4 * (font_size as u128) * (len as u128);
    let width: u128 = product / 5;
    if width > u32::MAX as u128 {
        u32::MAX
    } else {
        width as u32
    }
}

/// Breaks words of the given widths into lines no wider than `limit`, and
/// returns the index of the first word of every line.
pub fn line_starts(widths: &Vec<u32>, limit: u32) -> (starts: Vec<usize>)
    ensures
        is_wrapping(starts@, widths@, limit as int),
{
    let mut starts: Vec<usize> = Vec::new();
    starts.push(0);
    let mut total: u64 = 0;
    let mut i: usize = 0;
    while i < widths.len()
        invariant
            i <= widths@.len(),
            starts@.len() >= 1,
            starts@[0] == 0,
            starts@.last() <= i,
            starts@.len() >= 2 ==> starts@.last() < i,
            total == span_width(widths@, starts@.last() as int, i as int),
            total <= limit || (starts@.len() >= 2 && i - starts@.last() == 1),
            total <= u32::MAX,
            forall|k: int| 1 <= k < starts@.len() ==> #[trigger] starts@[k] < widths@.len(),
            forall|k: int|
                1 <= k && k + 1 < starts@.len() ==> #[trigger] starts@[k] < starts@[k + 1],
            forall|k: int|
                0 <= k && k + 1 < starts@.len() ==> {
                    ||| span_width(widths@, #[trigger] starts@[k] as int, starts@[k + 1] as int)
                        <= limit
                    ||| (k >= 1 && starts@[k + 1] - starts@[k] == 1)
                },
            forall|k: int|
                0 <= k && k + 1 < starts@.len() ==> span_width(
                    widths@,
                    #[trigger] starts@[k] as int,
                    starts@[k + 1] as int,
                ) + widths@[starts@[k + 1] as int] > limit,
        decreases widths@.len() - i,
    {
        let width: u32 = widths[i];
        let ghost before = starts@;
        if total + width as u64 > limit as u64 {
            starts.push(i);
            total = width as u64;
            proof {
                assert(span_width(widths@, i as int, i as int) == 0);
                assert forall|k: int| 0 <= k && k + 1 < starts@.len() implies {
                    ||| span_width(widths@, #[trigger] starts@[k] as int, starts@[k + 1] as int)
                        <= limit
                    ||| (k >= 1 && starts@[k + 1] - starts@[k] == 1)
                } by {
                    if k + 1 < before.len() {
                        assert(starts@[k] == before[k]);
                        assert(starts@[k + 1] == before[k + 1]);
                    }
                }
                assert forall|k: int| 0 <= k && k + 1 < starts@.len() implies span_width(
                    widths@,
                    #[trigger] starts@[k] as int,
                    starts@[k + 1] as int,
                ) + widths@[starts@[k + 1] as int] > limit by {
                    if k + 1 < before.len() {
                        assert(starts@[k] == before[k]);
                        assert(starts@[k + 1] == before[k + 1]);
                    }
                }
                assert forall|k: int| 1 <= k && k + 1 < starts@.len() implies #[trigger] starts@[k]
                    < starts@[k + 1] by {
                    if k + 1 < before.len() {
                        assert(starts@[k] == before[k]);
                        assert(starts@[k + 1] == before[k + 1]);
                    }
                }
            }
        } else {
            total = total + width as u64;
        }
        i += 1;
    }
    proof {
        let count = widths@.len() as int;
        assert forall|k: int| 0 <= k < starts@.len() implies {
            ||| span_width(widths@, #[trigger] starts@[k] as int, line_end(starts@, count, k))
                <= limit
            ||| (k >= 1 && line_end(starts@, count, k) - starts@[k] == 1)
        } by {
            if k + 1 < starts@.len() {
            } else {
                assert(starts@[k] == starts@.last());
            }
        }
    }
    starts
}

/// Whether `lines` are the words broken at `starts`: line `k` holds the
/// words from `starts[k]` up to the start of the next line, in their order.
pub open spec fn are_lines(lines: Seq<Vec<String>>, words: Seq<Seq<char>>, starts: Seq<usize>) -> bool {
    &&& lines.len() == starts.len()
    &&& forall|k: int|
        0 <= k < lines.len() ==> {
            &&& (#[trigger] lines[k])@.len() == line_end(starts, words.len() as int, k) - starts[k]
            &&& forall|j: int|
                0 <= j < lines[k]@.len() ==> (#[trigger] lines[k]@[j])@ == words[starts[k] + j]
        }
}

/// The number of bytes that a word takes in UTF-8, as a string reports it.
pub open spec fn byte_len(word: Seq<char>) -> int {
    (encode_utf8(word).len() as usize) as int
}

/// The widths of the words of a text at a font size, in 32 bits.
pub open spec fn widths_of(words: Seq<Seq<char>>, font_size: int) -> Seq<u32> {
    Seq::new(words.len(), |i: int| word_width(byte_len(words[i]), font_size) as u32)
}

/// What each of the strings holds.
pub open spec fn views_of(words: Seq<String>) -> Seq<Seq<char>> {
    Seq::new(words.len(), |i: int| words[i]@)
}

/// Whether `lines` are the words broken into lines that fit a width at a
/// font size: broken at starts that meet [`is_wrapping`] for the widths of
/// the words.
pub open spec fn is_wrapped(
    lines: Seq<Vec<String>>,
    words: Seq<Seq<char>>,
    width: int,
    font_size: int,
) -> bool {
    exists|starts: Seq<usize>|
        {
            &&& is_wrapping(starts, widths_of(words, font_size), width)
            &&& #[trigger] are_lines(lines, words, starts)
        }
}

/// The words of a text in their order: the longest runs of characters that
/// are not white space.
pub uninterp spec fn whitespace_words(text: Seq<char>) -> Seq<Seq<char>>;

/// Breaks the words at the given starts into lines.
fn group_words(words: &Vec<String>, starts: &Vec<usize>) -> (lines: Vec<Vec<String>>)
    requires
        starts@.len() >= 1,
        starts@[0] <= words@.len(),
        forall|k: int| 0 <= k && k + 1 < starts@.len() ==> #[trigger] starts@[k] <= starts@[k + 1],
        forall|k: int| 0 <= k < starts@.len() ==> #[trigger] starts@[k] <= words@.len(),
    ensures
        are_lines(lines@, views_of(words@), starts@),
{
    let ghost views = views_of(words@);
    let mut lines: Vec<Vec<String>> = Vec::new();
    let mut k: usize = 0;
    while k < starts.len()
        invariant
            k <= starts@.len(),
            lines@.len() == k,
            views == views_of(words@),
            forall|m: int| 0 <= m && m + 1 < starts@.len() ==> #[trigger] starts@[m] <= starts@[m + 1],
            forall|m: int| 0 <= m < starts@.len() ==> #[trigger] starts@[m] <= words@.len(),
            forall|m: int|
                0 <= m < k ==> {
                    &&& (#[trigger] lines@[m])@.len() == line_end(starts@, words@.len() as int, m)
                        - starts@[m]
                    &&& forall|j: int|
                        0 <= j < lines@[m]@.len() ==> (#[trigger] lines@[m]@[j])@ == views[starts@[m]
                            + j]
                },
        decreases starts@.len() - k,
    {
        let from: usize = starts[k];
        let to: usize = if k + 1 < starts.len() {
            starts[k + 1]
        } else {
            words.len()
        };
        let mut line: Vec<String> = Vec::new();
        let mut i: usize = from;
        while i < to
            invariant
                from <= i <= to <= words@.len(),
                line@.len() == i - from,
                views == views_of(words@),
                forall|j: int| 0 <= j < line@.len() ==> (#[trigger] line@[j])@ == views[from + j],
            decreases to - i,
        {
            line.push(words[i].clone());
            i += 1;
        }
        lines.push(line);
        k += 1;
    }
    lines
}

/// Breaks a text into lines of words that fit a width: a word of `n` bytes
/// takes the room that [`word_width`] gives, and the lines are broken as
/// [`is_wrapping`] describes. There is always at least one line.
pub fn text_to_vec(text: &str, width: u32, font_size: u32) -> (lines: Vec<Vec<String>>)
    ensures
        is_wrapped(lines@, whitespace_words(text@), width as int, font_size as int),
{
    let words = split_words(text);
    let lines = wrap_words(&words, width, font_size);
    assert(views_of(words@) =~= whitespace_words(text@));
    lines
}

/// Breaks words into lines that fit a width; see [`text_to_vec`].
pub fn wrap_words(words: &Vec<String>, width: u32, font_size: u32) -> (lines: Vec<Vec<String>>)
    ensures
        is_wrapped(lines@, views_of(words@), width as int, font_size as int),
{
    let ghost views = views_of(words@);
    let mut widths: Vec<u32> = Vec::new();
    let mut i: usize = 0;
    while i < words.len()
        invariant
            i <= words@.len(),
            widths@.len() == i,
            views == views_of(words@),
            forall|j: int|
                0 <= j < i ==> #[trigger] widths@[j] == widths_of(views, font_size as int)[j],
        decreases words@.len() - i,
    {
        let len: usize = words[i].as_str().len();
        widths.push(measure_word(len, font_size));
        i += 1;
    }
    assert(widths@ =~= widths_of(views, font_size as int));
    let starts = line_starts(&widths, width);
    assert(forall|k: int| 0 <= k < starts@.len() ==> #[trigger] starts@[k] <= words@.len());
    assert forall|k: int| 0 <= k && k + 1 < starts@.len() implies #[trigger] starts@[k]
        <= starts@[k + 1] by {
        if k >= 1 {
        }
    }
    let lines = group_words(words, &starts);
    assert(are_lines(lines@, views, starts@));
    lines
}

/// The size of the canvas on which a text is rendered before it is turned:
/// twelve twenty-fifths of the font size for every byte of the text in
/// width, thirteen tenths of the font size in height, both rounded down and
/// never more than `u32::MAX`.
pub fn rotated_text_canvas(text_len: usize, font_size: u32) -> (size: (u32, u32))
    ensures
        size.0 == capped((12 * font_size * text_len) / 25),
        size.1 == capped((13 * font_size) / 10),
{
    assert(0 <= 12 * font_size * text_len <= 12 * 0xffff_ffff * 0xffff_ffff_ffff_ffff)
        by (nonlinear_arith)
        requires
            0 <= font_size <= 0xffff_ffff,
            0 <= text_len <= 0xffff_ffff_ffff_ffff,
    ;
    let wide: u128 = (12 * (font_size as u128) * (text_len as u128)) / 25;
    let high: u64 = (13 * (font_size as u64)) / 10;
    let width: u32 = if wide > u32::MAX as u128 {
        u32::MAX
    } else {
        wide as u32
    };
    let height: u32 = if high > u32::MAX as u64 {
        u32::MAX
    } else {
        high as u32
    };
    (width, height)
}

/// Where a text is drawn whose anchor is `(x, y)`: ten pixels to the right
/// of it and ten pixels above it.
pub fn pen_position(x: u32, y: u32) -> (pen: (i64, i64))
    ensures
        pen.0 == x + 10,
        pen.1 == y - 10,
{
    (x as i64 + 10, y as i64 - 10)
}

/// The distance between the letters of a vertical text: four fifths of the
/// font size, rounded down.
pub open spec fn letter_step(font_size: int) -> int {
    (4 * font_size) / 5
}

/// Where the letters of a text go that is written from the top down, one
/// letter to a row: all in column `x`, the first one step below `y` and each
/// one step below the one before.
///
/// Fails with `InvalidInput`, and only then, where there are more letters
/// than 32 bits can count.
pub fn vertical_letter_anchors(letters: usize, x: u32, y: u32, font_size: u32) -> (res: Result<
    Vec<Point>,
    GraphicsError,
>)
    ensures
        res is Ok <==> letters <= u32::MAX,
        res matches Ok(anchors) ==> {
            &&& anchors@.len() == letters
            &&& forall|i: int|
                0 <= i < letters ==> (#[trigger] anchors@[i]).x == x && anchors@[i].y == y + (i
                    + 1) * letter_step(font_size as int)
        },
        res matches Err(e) ==> e == GraphicsError::InvalidInput,
{
    if letters > u32::MAX as usize {
        return Err(GraphicsError::InvalidInput);
    }
    let step: u64 = (4 * font_size as u64) / 5;
    let mut anchors: Vec<Point> = Vec::new();
    let mut row: u64 = y as u64 + step;
    let mut i: usize = 0;
    while i < letters
        invariant
            i <= letters <= u32::MAX,
            step == letter_step(font_size as int),
            step <= u32::MAX,
            row == y + (i + 1) * step,
            anchors@.len() == i,
            forall|j: int|
                0 <= j < i ==> (#[trigger] anchors@[j]).x == x && anchors@[j].y == y + (j + 1)
                    * letter_step(font_size as int),
        decreases letters - i,
    {
        anchors.push(Point { x: x as u64, y: row });
        assert((i + 2) * step == (i + 1) * step + step && (i + 2) * step <= 0x1_0000_0000
            * 0xffff_ffff) by (nonlinear_arith)
            requires
                0 <= i < 0xffff_ffff,
                0 <= step <= 0xffff_ffff,
        ;
        row = row + step;
        i += 1;
    }
    Ok(anchors)
}

/// How far the border of a text reaches from its glyphs, in pixels.
pub const BORDER_REACH: u8 = 14;

/// The font size of a text that is drawn with a border.
pub const BORDER_TEXT_SIZE: u32 = 90;

/// How far from the left and from the top of its own canvas a text is
/// rendered that is turned afterwards; see [`rotated_text_canvas`].
pub const TEXT_CANVAS_INSET: i32 = 10;

/// The colour of a text that is drawn with a border.
pub fn border_text_colour() -> (color: Rgb)
    ensures
        color == (Rgb { r: 193, g: 255, b: 255 }),
{
    Rgb { r: 193, g: 255, b: 255 }
}

/// The colour of the border of a text.
pub open spec fn spec_border_pink() -> Rgb {
    Rgb { r: 234, g: 23, b: 123 }
}

/// Draws the border of a text: every pixel of the image that lies within
/// [`BORDER_REACH`] columns and rows of a glyph takes the colour of the
/// border. The glyphs are given as a mask of the size of the image, one byte
/// to the pixel, black where there is no glyph.
///
/// Fails with `InvalidInput`, and only then, where the mask has not one
/// byte for every pixel of the image, or width and height of the image add
/// up to more than `u32::MAX`. The image is then left as it was.
pub fn draw_text_border(image: &mut PhotonImage, text_mask: &Vec<u8>) -> (res: Result<
    (),
    GraphicsError,
>)
    ensures
        res is Ok <==> text_mask@.len() == old(image)@.width * old(image)@.height && old(
            image,
        )@.width + old(image)@.height <= u32::MAX,
        res is Ok ==> final(image)@ == mask_painted(
            old(image)@,
            text_mask@,
            BORDER_REACH as int,
            spec_border_pink(),
        ),
        res is Err ==> final(image)@ == old(image)@,
        res matches Err(e) ==> e == GraphicsError::InvalidInput,
{
    let (width, height) = image.dimensions();
    assert(width * height <= 0xffff_ffff * 0xffff_ffff) by (nonlinear_arith)
        requires
            0 <= width <= 0xffff_ffff,
            0 <= height <= 0xffff_ffff,
    ;
    assert(4 * width * height == 4 * (width * height)) by (nonlinear_arith);
    let count: u64 = width as u64 * height as u64;
    if text_mask.len() as u64 != count || width as u64 + height as u64 > u32::MAX as u64 {
        return Err(GraphicsError::InvalidInput);
    }
    let dilated = dilate_mask(text_mask, width, height, BORDER_REACH);
    let pink = Rgb { r: 234, g: 23, b: 123 };
    let mut painted: Vec<u8> = Vec::new();
    let mut j: usize = 0;
    while j < image.as_raw().len()
        invariant
            j <= image@.pixels.len(),
            image@.pixels.len() == 4 * (width * height),
            image@.width == width,
            image@.height == height,
            dilated@.len() == width * height,
            text_mask@.len() == width * height,
            pink == spec_border_pink(),
            painted@.len() == j,
            forall|p: int|
                0 <= p < dilated@.len() ==> #[trigger] dilated@[p] == (if spreads_to(
                    text_mask@,
                    width as int,
                    height as int,
                    p,
                    BORDER_REACH as int,
                ) {
                    255u8
                } else {
                    0u8
                }),
            forall|t: int|
                0 <= t < j ==> #[trigger] painted@[t] == mask_painted(
                    image@,
                    text_mask@,
                    BORDER_REACH as int,
                    spec_border_pink(),
                ).pixels[t],
        decreases image@.pixels.len() - j,
    {
        let byte: u8 = if dilated[j / 4] != 0 {
            let channel: usize = j % 4;
            if channel == 0 {
                pink.r
            } else if channel == 1 {
                pink.g
            } else if channel == 2 {
                pink.b
            } else {
                255
            }
        } else {
            image.as_raw()[j]
        };
        painted.push(byte);
        j += 1;
    }
    assert(painted@ =~= mask_painted(
        image@,
        text_mask@,
        BORDER_REACH as int,
        spec_border_pink(),
    ).pixels);
    image.replace_pixels(painted);
    Ok(())
}

/// Turns an image clockwise.
pub fn turn(img: &PhotonImage, rotation: Rotation) -> (out: PhotonImage)
    ensures
        out@ == turned(img@, rotation),
{
    match rotation {
        Rotation::Quarter => rotate_quarter(img),
        Rotation::Half => rotate_half(img),
        Rotation::ThreeQuarters => rotate_three_quarters(img),
    }
}

/// Lays a rendered text over an image after turning it by `90`, `180` or
/// `270` degrees; any other number of degrees counts as `90`. The top-left
/// corner of the turned text goes to column `x`, row `y`.
pub fn draw_rotated_text(
    image: &mut PhotonImage,
    text_img: &PhotonImage,
    x: u32,
    y: u32,
    rotation: &str,
)
    ensures
        final(image)@ == overlaid(
            old(image)@,
            turned(text_img@, Rotation::spec_from_degrees(rotation@)),
            x as int,
            y as int,
        ),
{
    let rotated_img = turn(text_img, Rotation::from_degrees(rotation));
    draw_photonimage(image, &rotated_img, x, y);
}

/// What a vertical text leaves on an image: the rendered text, turned so
/// that it faces `left` or `right`, laid over the image; nothing for any
/// other direction.
pub open spec fn vertical_text_drawn(
    view: ImageView,
    text: ImageView,
    x: int,
    y: int,
    direction: Seq<char>,
) -> ImageView {
    match Rotation::spec_facing(direction) {
        Some(rotation) => overlaid(view, turned(text, rotation), x, y),
        None => view,
    }
}

/// Lays a rendered text over an image so that it runs from the top down and
/// faces `left` or `right`. Any other direction draws nothing.
pub fn draw_vertical_text(
    img: &mut PhotonImage,
    text_img: &PhotonImage,
    x: u32,
    y: u32,
    direction: &str,
)
    ensures
        final(img)@ == vertical_text_drawn(old(img)@, text_img@, x as int, y as int, direction@),
{
    match Rotation::facing(direction) {
        Some(rotation) => {
            let rotated_img = turn(text_img, rotation);
            draw_photonimage(img, &rotated_img, x, y);
        },
        None => {},
    }
}

/// Lays a rendered text over an image upside down.
pub fn draw_upsidedown_text(img: &mut PhotonImage, text_img: &PhotonImage, x: u32, y: u32)
    ensures
        final(img)@ == overlaid(
            old(img)@,
            turned(text_img@, Rotation::Half),
            x as int,
            y as int,
        ),
{
    let rotated_img = turn(text_img, Rotation::Half);
    draw_photonimage(img, &rotated_img, x, y);
}

} // verus!
