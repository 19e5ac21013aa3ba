//! Templates for quick graphics: where the texts of a banner, a quote or a
//! postcard go, and the shapes that go with them.
//!
//! A template that only sets text returns the captions to render. One that
//! draws as well takes the image, and the rendered text where it is turned.

use vstd::prelude::*;
use crate::color::Rgb;
use crate::elements::draw_solid_rect;
use crate::error::GraphicsError;
use crate::graphics::draw_photonimage;
use crate::image::{
    canvas_fits, filled, overlaid, resize_fits, resized, size_fits, solid_view, turned,
    ImageView, PhotonImage,
};
use crate::raster::join_words;
use crate::resize::resize;
use crate::text::{
    capped, draw_vertical_text, is_caption, is_wrapped, joined, percent_of, share, text_to_vec,
    views_of, whitespace_words, Caption, Font, FontFace, Rotation,
};

verus! {

/// White.
pub open spec fn spec_white() -> Rgb {
    Rgb { r: 255, g: 255, b: 255 }
}

/// Black.
pub open spec fn spec_black() -> Rgb {
    Rgb { r: 0, g: 0, b: 0 }
}

/// White.
pub fn white() -> (color: Rgb)
    ensures
        color == spec_white(),
{
    Rgb { r: 255, g: 255, b: 255 }
}

/// Black.
pub fn black() -> (color: Rgb)
    ensures
        color == spec_black(),
{
    Rgb { r: 0, g: 0, b: 0 }
}

/// The row of line `k` of a text whose first line is `first` hundredths of
/// the height down and whose lines are `step` hundredths apart; never more
/// than `u32::MAX`.
pub open spec fn line_row(height: int, first: int, step: int, k: int) -> int {
    capped((height * (first + step * k)) / 100)
}

/// The row of line `k`; see [`line_row`].
pub fn row_of_line(height: u32, first: u32, step: u32, k: usize) -> (row: u32)
    ensures
        row == line_row(height as int, first as int, step as int, k as int),
{
    assert(0 <= step * k <= 0xffff_ffff * 0xffff_ffff_ffff_ffff) by (nonlinear_arith)
        requires
            0 <= step <= 0xffff_ffff,
            0 <= k <= 0xffff_ffff_ffff_ffff,
    ;
    let percent: u128 = first as u128 + (step as u128) * (k as u128);
    if height == 0 {
        assert(height * (first + step * k) == 0) by (nonlinear_arith)
            requires
                height == 0,
        ;
        0
    } else if percent >= 100 * 0x1_0000_0000 {
        assert((height * (first + step * k)) / 100 >= 0x1_0000_0000) by (nonlinear_arith)
            requires
                height >= 1,
                first + step * k >= 100 * 0x1_0000_0000,
        ;
        u32::MAX
    } else {
        assert(0 <= height * percent <= 0xffff_ffff * (100 * 0x1_0000_0000)) by (nonlinear_arith)
            requires
                0 <= height <= 0xffff_ffff,
                0 <= percent <= 100 * 0x1_0000_0000,
        ;
        let row: u128 = ((height as u128) * percent) / 100;
        if row > u32::MAX as u128 {
            u32::MAX
        } else {
            row as u32
        }
    }
}

/// Whether `captions` set the lines of a text one below the other: line `k`
/// with its words joined by spaces, in column `x` and the row that
/// [`line_row`] gives.
pub open spec fn are_line_captions(
    captions: Seq<Caption>,
    lines: Seq<Vec<String>>,
    x: int,
    height: int,
    first: int,
    step: int,
    font: FontFace,
    font_size: int,
    color: Rgb,
) -> bool {
    &&& captions.len() == lines.len()
    &&& forall|k: int|
        0 <= k < captions.len() ==> is_caption(
            #[trigger] captions[k],
            joined(views_of(lines[k]@)),
            x,
            line_row(height, first, step, k),
            font,
            font_size,
            color,
        )
}

/// Sets the lines of a text one below the other; see [`are_line_captions`].
pub fn line_captions(
    lines: &Vec<Vec<String>>,
    x: u32,
    height: u32,
    first: u32,
    step: u32,
    font: FontFace,
    font_size: u32,
    color: Rgb,
) -> (captions: Vec<Caption>)
    ensures
        are_line_captions(
            captions@,
            lines@,
            x as int,
            height as int,
            first as int,
            step as int,
            font,
            font_size as int,
            color,
        ),
{
    let mut captions: Vec<Caption> = Vec::new();
    let mut k: usize = 0;
    while k < lines.len()
        invariant
            k <= lines@.len(),
            captions@.len() == k,
            forall|m: int|
                0 <= m < k ==> is_caption(
                    #[trigger] captions@[m],
                    joined(views_of(lines@[m]@)),
                    x as int,
                    line_row(height as int, first as int, step as int, m),
                    font,
                    font_size as int,
                    color,
                ),
        decreases lines@.len() - k,
    {
        let text = join_words(&lines[k]);
        let row = row_of_line(height, first, step, k);
        captions.push(Caption::new(text.as_str(), x, row, font, font_size, color));
        k += 1;
    }
    captions
}

/// Whether `captions` set a text, broken into lines that fit `width` at the
/// font size, one line below the other.
pub open spec fn is_wrapped_text(
    captions: Seq<Caption>,
    text: Seq<char>,
    width: int,
    x: int,
    height: int,
    first: int,
    step: int,
    font: FontFace,
    font_size: int,
    color: Rgb,
) -> bool {
    exists|lines: Seq<Vec<String>>|
        {
            &&& is_wrapped(lines, whitespace_words(text), width, font_size)
            &&& #[trigger] are_line_captions(
                captions,
                lines,
                x,
                height,
                first,
                step,
                font,
                font_size,
                color,
            )
        }
}

/// Centred text: the text in white `BebasKai` at size 150, broken into lines
/// that fit the width of the image, three tenths of the width in, the first
/// line a twentieth of the height down and the lines 15 hundredths apart.
pub fn centre_text(background_img: &PhotonImage, main_text: &str) -> (captions: Vec<Caption>)
    ensures
        is_wrapped_text(
            captions@,
            main_text@,
            background_img@.width,
            share(background_img@.width, 30),
            background_img@.height,
            5,
            15,
            FontFace::BebasKai,
            150,
            spec_white(),
        ),
{
    let (width, height) = background_img.dimensions();
    let font_size: u32 = 150;
    let group_vec = text_to_vec(main_text, width, font_size);
    line_captions(
        &group_vec,
        percent_of(width, 30),
        height,
        5,
        15,
        FontFace::BebasKai,
        font_size,
        white(),
    )
}

/// A quote: the text in black `Oswald` at size 100, broken into lines that
/// fit the width of the image, at the left edge, the first line a tenth of
/// the height down and the lines a tenth apart.
pub fn quote(background_img: &PhotonImage, main_text: &str, small_text: &str) -> (captions: Vec<
    Caption,
>)
    ensures
        is_wrapped_text(
            captions@,
            main_text@,
            background_img@.width,
            0,
            background_img@.height,
            10,
            10,
            FontFace::Oswald,
            100,
            spec_black(),
        ),
{
    let (width, height) = background_img.dimensions();
    let font_size: u32 = 100;
    let group_vec = text_to_vec(main_text, width, font_size);
    line_captions(&group_vec, 0, height, 10, 10, FontFace::Oswald, font_size, black())
}

/// Whether `captions` repeat a text down the image: one caption for every
/// fifty rows of the height, in white `BebasKai` at size 110, a twentieth of
/// the width in, the first a twentieth of the height down and each a tenth
/// below the one before.
pub open spec fn is_repeated_text(
    captions: Seq<Caption>,
    text: Seq<char>,
    width: int,
    height: int,
) -> bool {
    &&& captions.len() == height / 50
    &&& forall|k: int|
        0 <= k < captions.len() ==> is_caption(
            #[trigger] captions[k],
            text,
            share(width, 5),
            line_row(height, 5, 10, k),
            FontFace::BebasKai,
            110,
            spec_white(),
        )
}

/// Repeats the same text on every line; see [`is_repeated_text`].
pub fn repeat_text(background_img: &PhotonImage, main_text: &str) -> (captions: Vec<Caption>)
    ensures
        is_repeated_text(
            captions@,
            main_text@,
            background_img@.width,
            background_img@.height,
        ),
{
    let (width, height) = background_img.dimensions();
    let count: usize = (height / 50) as usize;
    let mut captions: Vec<Caption> = Vec::new();
    let mut k: usize = 0;
    while k < count
        invariant
            k <= count,
            count == height / 50,
            captions@.len() == k,
            forall|m: int|
                0 <= m < k ==> is_caption(
                    #[trigger] captions@[m],
                    main_text@,
                    share(width as int, 5),
                    line_row(height as int, 5, 10, m),
                    FontFace::BebasKai,
                    110,
                    spec_white(),
                ),
        decreases count - k,
    {
        captions.push(
            Caption::new(
                main_text,
                percent_of(width, 5),
                row_of_line(height, 5, 10, k),
                FontFace::BebasKai,
                110,
                white(),
            ),
        );
        k += 1;
    }
    captions
}

/// Repeats the same text on every line, as [`repeat_text`] does.
pub fn text_shades(background_img: &PhotonImage, main_text: &str) -> (captions: Vec<Caption>)
    ensures
        is_repeated_text(
            captions@,
            main_text@,
            background_img@.width,
            background_img@.height,
        ),
{
    repeat_text(background_img, main_text)
}

/// A text banner: the heading in black `BebasKai` at size 110, 15
/// hundredths of the width in and two fifths of the height down, and the
/// smaller text at size 30, 28 hundredths in and 55 hundredths down.
pub fn text_banner(background_img: &PhotonImage, main_text: &str, small_text: &str) -> (captions:
    (Caption, Caption))
    ensures
        is_caption(
            captions.0,
            main_text@,
            share(background_img@.width, 15),
            share(background_img@.height, 40),
            FontFace::BebasKai,
            110,
            spec_black(),
        ),
        is_caption(
            captions.1,
            small_text@,
            share(background_img@.width, 28),
            share(background_img@.height, 55),
            FontFace::BebasKai,
            30,
            spec_black(),
        ),
{
    let (width, height) = background_img.dimensions();
    let heading = Caption::new(
        main_text,
        percent_of(width, 15),
        percent_of(height, 40),
        FontFace::BebasKai,
        110,
        black(),
    );
    let sub_heading = Caption::new(
        small_text,
        percent_of(width, 28),
        percent_of(height, 55),
        FontFace::BebasKai,
        30,
        black(),
    );
    (heading, sub_heading)
}

/// Text on the right-hand side: white `BebasKai` at size 130, 65 hundredths
/// of the width in and two fifths of the height down.
pub fn rhs_text(background_img: &PhotonImage, main_text: &str) -> (caption: Caption)
    ensures
        is_caption(
            caption,
            main_text@,
            share(background_img@.width, 65),
            share(background_img@.height, 40),
            FontFace::BebasKai,
            130,
            spec_white(),
        ),
{
    let (width, height) = background_img.dimensions();
    Caption::new(
        main_text,
        percent_of(width, 65),
        percent_of(height, 40),
        FontFace::BebasKai,
        130,
        white(),
    )
}

/// Text on the left-hand side: black `BebasKai` at size 130, 15 hundredths
/// of the width in and two fifths of the height down. The size of the image
/// decides; the width and height that are passed do not.
pub fn lhs_text(
    background_img: &PhotonImage,
    main_text: &str,
    small_text: &str,
    width: u32,
    height: u32,
) -> (caption: Caption)
    ensures
        is_caption(
            caption,
            main_text@,
            share(background_img@.width, 15),
            share(background_img@.height, 40),
            FontFace::BebasKai,
            130,
            spec_black(),
        ),
{
    let (width, height) = background_img.dimensions();
    Caption::new(
        main_text,
        percent_of(width, 15),
        percent_of(height, 40),
        FontFace::BebasKai,
        130,
        black(),
    )
}

/// The font in which the text of [`vertical_text`] is rendered: white
/// `BebasKai` at size 110.
pub fn vertical_text_font() -> (font: Font)
    ensures
        font.name@ == "BebasKai"@,
        font.size == 110,
        font.color == spec_white(),
{
    Font::new("BebasKai", 110, white())
}

/// The font in which the text of [`vertical_text_rhs`] is rendered:
/// `BebasKai` at size 100, in the red that [`accent_red`] gives.
pub fn vertical_text_rhs_font() -> (font: Font)
    ensures
        font.name@ == "BebasKai"@,
        font.size == 100,
        font.color == (Rgb { r: 200, g: 20, b: 50 }),
{
    Font::new("BebasKai", 100, accent_red())
}

/// The image after the vertical-text template was drawn on it: a black
/// rectangle as wide as the image is high and a fifth of its width high, at
/// the top-left corner, and over it the rendered text, turned to face right,
/// 15 hundredths of the width in and two fifths of the height down.
pub open spec fn vertical_text_painted(view: ImageView, text: ImageView) -> ImageView {
    overlaid(
        filled(view, 0, 0, view.height, share(view.width, 20), spec_black(), 255),
        turned(text, Rotation::Quarter),
        share(view.width, 15),
        share(view.height, 40),
    )
}

/// Draws the vertical-text template; see [`vertical_text_painted`]. The text
/// is rendered by the caller, in the font that [`vertical_text_font`] gives.
///
/// Fails with `InvalidInput`, and only then, where the image is empty or
/// wider or higher than `i32::MAX`, or narrower than five pixels. The image
/// is then left as it was.
pub fn vertical_text(background_img: &mut PhotonImage, text_img: &PhotonImage) -> (res: Result<
    (),
    GraphicsError,
>)
    ensures
        res is Ok <==> canvas_fits(old(background_img)@) && old(background_img)@.width >= 5,
        res is Ok ==> final(background_img)@ == vertical_text_painted(
            old(background_img)@,
            text_img@,
        ),
        res is Err ==> final(background_img)@ == old(background_img)@,
        res matches Err(e) ==> e == GraphicsError::InvalidInput,
{
    let (width, height) = background_img.dimensions();
    match draw_solid_rect(background_img, &black(), height, percent_of(width, 20), 0, 0) {
        Ok(()) => {
            draw_vertical_text(
                background_img,
                text_img,
                percent_of(width, 15),
                percent_of(height, 40),
                "right",
            );
            proof {
                reveal_strlit("right");
                reveal_strlit("left");
                assert("right"@ != "left"@) by {
                    assert("right"@.len() == 5);
                    assert("left"@.len() == 4);
                }
            }
            Ok(())
        },
        Err(e) => Err(e),
    }
}

/// The image after the template with vertical text on the right-hand side
/// was drawn on it: a white rectangle a fifth of the width wide and as high
/// as the image, four fifths of the width in, and over it the rendered text,
/// turned to face right, 85 hundredths of the width in and a tenth of the
/// height down.
pub open spec fn vertical_text_rhs_painted(view: ImageView, text: ImageView) -> ImageView {
    overlaid(
        filled(
            view,
            share(view.width, 80),
            0,
            share(view.width, 20),
            view.height,
            spec_white(),
            255,
        ),
        turned(text, Rotation::Quarter),
        share(view.width, 85),
        share(view.height, 10),
    )
}

/// Draws the template with vertical text on the right-hand side; see
/// [`vertical_text_rhs_painted`]. The text is rendered by the caller, in the
/// font that [`vertical_text_rhs_font`] gives.
///
/// Fails with `InvalidInput`, and only then, where the image is empty or
/// wider or higher than `i32::MAX`, or narrower than five pixels. The image
/// is then left as it was.
pub fn vertical_text_rhs(background_img: &mut PhotonImage, text_img: &PhotonImage) -> (res: Result<
    (),
    GraphicsError,
>)
    ensures
        res is Ok <==> canvas_fits(old(background_img)@) && old(background_img)@.width >= 5,
        res is Ok ==> final(background_img)@ == vertical_text_rhs_painted(
            old(background_img)@,
            text_img@,
        ),
        res is Err ==> final(background_img)@ == old(background_img)@,
        res matches Err(e) ==> e == GraphicsError::InvalidInput,
{
    let (width, height) = background_img.dimensions();
    let strip: u32 = percent_of(width, 20);
    let left: u32 = percent_of(width, 80);
    if left > i32::MAX as u32 {
        return Err(GraphicsError::InvalidInput);
    }
    match draw_solid_rect(background_img, &white(), strip, height, left as i32, 0) {
        Ok(()) => {
            draw_vertical_text(
                background_img,
                text_img,
                percent_of(width, 85),
                percent_of(height, 10),
                "right",
            );
            proof {
                reveal_strlit("right");
                reveal_strlit("left");
                assert("right"@ != "left"@) by {
                    assert("right"@.len() == 5);
                    assert("left"@.len() == 4);
                }
            }
            Ok(())
        },
        Err(e) => Err(e),
    }
}

/// The red of the vertical text on the right-hand side.
pub fn accent_red() -> (color: Rgb)
    ensures
        color == (Rgb { r: 200, g: 20, b: 50 }),
{
    Rgb { r: 200, g: 20, b: 50 }
}

/// The blue of the text of a postcard.
pub open spec fn spec_postcard_blue() -> Rgb {
    Rgb { r: 56, g: 123, b: 254 }
}

/// Whether a postcard of this size can be made of the picture: the card is
/// at least twenty pixels wide and high and can be allocated, and the
/// picture can be brought to the size of the card less ten pixels on every
/// side.
pub open spec fn postcard_fits(picture: ImageView, width: int, height: int) -> bool {
    &&& width >= 20
    &&& height >= 20
    &&& size_fits(width, height)
    &&& resize_fits(picture, width - 20, height - 20)
}

/// The picture of a postcard: the picture, brought to the size of the card
/// less ten pixels on every side, on a white card.
pub open spec fn postcard_view(picture: ImageView, width: int, height: int) -> ImageView {
    overlaid(
        solid_view(width, height, spec_white(), 255),
        resized(picture, width - 20, height - 20),
        10,
        10,
    )
}

/// Makes a postcard: the picture framed in white, and the caption to render
/// on it, in blue `MrDafoe-Regular` at size 130, 15 hundredths of the width
/// of the picture in and a fifth of its height down.
///
/// Fails with `InvalidInput`, and only then, where the card cannot be made,
/// as [`postcard_fits`] says.
pub fn postcard(
    background_img: &PhotonImage,
    main_text: &str,
    small_text: &str,
    width: u32,
    height: u32,
) -> (res: Result<(PhotonImage, Caption), GraphicsError>)
    ensures
        res is Ok <==> postcard_fits(background_img@, width as int, height as int),
        res matches Ok(card) ==> {
            &&& card.0@ == postcard_view(background_img@, width as int, height as int)
            &&& is_caption(
                card.1,
                main_text@,
                share(background_img@.width, 15),
                share(background_img@.height, 20),
                FontFace::MrDafoeRegular,
                130,
                spec_postcard_blue(),
            )
        },
        res matches Err(e) ==> e == GraphicsError::InvalidInput,
{
    if width < 20 || height < 20 {
        return Err(GraphicsError::InvalidInput);
    }
    let blk = Rgb { r: 56, g: 123, b: 254 };
    let resized_img = match resize(background_img, width - 20, height - 20) {
        Ok(resized_img) => resized_img,
        Err(e) => {
            return Err(e);
        },
    };
    let mut container_img = match PhotonImage::new_with_background(width, height, white()) {
        Ok(container_img) => container_img,
        Err(e) => {
            return Err(e);
        },
    };
    draw_photonimage(&mut container_img, &resized_img, 10, 10);
    let (main_img_width, main_img_height) = background_img.dimensions();
    let caption = Caption::new(
        main_text,
        percent_of(main_img_width, 15),
        percent_of(main_img_height, 20),
        FontFace::MrDafoeRegular,
        130,
        blk,
    );
    Ok((container_img, caption))
}

} // verus!
