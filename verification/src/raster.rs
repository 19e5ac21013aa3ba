//! The calls into the `image` and `imageproc` crates, and those into std
//! that have no specification of their own.
//!
//! Nothing in this file is proved: each function states what the outside
//! function does, and the rest of the library is verified against that.

use vstd::prelude::*;
use crate::color::Rgb;
use crate::image::{
    canvas_fits, channel_of, disc_fits, disc_pixels, filled, mixed_channel, outline_fits,
    outline_pixels, pixel_at, rect_fits, resampled, resize_fits, size_fits, spreads_to,
    triangle_canvas_fits, triangle_fits, triangle_pixels, turned, PhotonImage,
};
use crate::text::{joined, views_of, whitespace_words, Rotation};

verus! {

/// `str::eq`: two strings are equal exactly when they hold the same
/// characters.
#[verifier::external_body]
pub(crate) fn text_eq(a: &str, b: &str) -> (same: bool)
    ensures
        same == (a@ == b@),
{
    a == b
}

/// `str::split_whitespace`, each word copied into a string of its own: the
/// words of the text in their order, where a word is a longest run of
/// characters that are not white space.
#[verifier::external_body]
pub(crate) fn split_words(text: &str) -> (words: Vec<String>)
    ensures
        words@.len() == whitespace_words(text@).len(),
        forall|i: int| 0 <= i < words@.len() ==> (#[trigger] words@[i])@ == whitespace_words(text@)[i],
{
    text.split_whitespace().map(|word| word.to_string()).collect()
}

/// `[String]::join` with a single space: the words in their order with one
/// space between neighbours, and nothing before the first or after the last.
#[verifier::external_body]
pub(crate) fn join_words(words: &Vec<String>) -> (line: String)
    ensures
        line@ == joined(views_of(words@)),
{
    words.join(" ")
}

/// `image::ImageBuffer::from_pixel`, as raw bytes: `width * height` pixels,
/// each with the given colour and alpha value. The outside function panics
/// where the bytes are more than a buffer can hold.
#[verifier::external_body]
pub(crate) fn solid_pixels(width: u32, height: u32, color: Rgb, alpha: u8) -> (raw: Vec<u8>)
    requires
        size_fits(width as int, height as int),
    ensures
        raw@.len() == 4 * width * height,
        forall|i: int| 0 <= i < raw@.len() ==> raw@[i] == channel_of(color, alpha, i % 4),
{
    let pixel = image::Rgba([color.r, color.g, color.b, alpha]);
    image::RgbaImage::from_pixel(width, height, pixel).into_raw()
}

/// `image::ImageBuffer::new`, as raw bytes: `width * height` pixels, every
/// byte zero. The outside function panics where the bytes are more than a
/// buffer can hold.
#[verifier::external_body]
pub(crate) fn blank_pixels(width: u32, height: u32) -> (raw: Vec<u8>)
    requires
        size_fits(width as int, height as int),
    ensures
        raw@.len() == 4 * width * height,
        forall|i: int| 0 <= i < raw@.len() ==> raw@[i] == 0,
{
    image::RgbaImage::new(width, height).into_raw()
}

/// `imageproc::drawing::draw_filled_rect_mut` on an RGBA buffer: every pixel
/// of the canvas that lies in the rectangle takes the colour, alpha included,
/// and every other pixel stays as it was.
///
/// The outside code builds a `Rect` for the canvas and one for the shape,
/// which panics on a zero size, and computes their right and bottom edges in
/// `i32`, casting the width and adding it to the left edge before it takes
/// one off: hence the conditions on the canvas and on the rectangle.
#[verifier::external_body]
pub(crate) fn fill_rect(
    img: &mut PhotonImage,
    x: i32,
    y: i32,
    width: u32,
    height: u32,
    color: Rgb,
    alpha: u8,
)
    requires
        canvas_fits(old(img)@),
        rect_fits(x as int, y as int, width as int, height as int),
    ensures
        final(img)@ == filled(
            old(img)@,
            x as int,
            y as int,
            width as int,
            height as int,
            color,
            alpha,
        ),
{
    let raw = std::mem::take(&mut img.raw_pixels);
    let mut canvas = image::RgbaImage::from_raw(img.width, img.height, raw).unwrap();
    let rect = imageproc::rect::Rect::at(x, y).of_size(width, height);
    let pixel = image::Rgba([color.r, color.g, color.b, alpha]);
    imageproc::drawing::draw_filled_rect_mut(&mut canvas, rect, pixel);
    img.raw_pixels = canvas.into_raw();
}

/// `imageproc::drawing::draw_filled_circle_mut` on an RGBA buffer: the disc
/// is filled with the colour, alpha included, as far as it lies inside the
/// image; the size of the image does not change.
///
/// The outside code adds the radius to the centre and takes it off in `i32`,
/// and follows each row as a line in `f32` from end to end, stepping one
/// past its end: hence the condition, which keeps every coordinate far from
/// the ends of `i32` and the rows short enough to be followed.
#[verifier::external_body]
pub(crate) fn fill_disc(
    img: &mut PhotonImage,
    center_x: i32,
    center_y: i32,
    radius: i32,
    color: Rgb,
    alpha: u8,
)
    requires
        disc_fits(center_x as int, center_y as int, radius as int),
    ensures
        final(img)@.width == old(img)@.width,
        final(img)@.height == old(img)@.height,
        final(img)@.pixels.len() == old(img)@.pixels.len(),
        final(img)@.pixels == disc_pixels(
            old(img)@.pixels,
            old(img)@.width,
            old(img)@.height,
            center_x as int,
            center_y as int,
            radius as int,
            seq![color.r, color.g, color.b, alpha],
        ),
{
    let raw = std::mem::take(&mut img.raw_pixels);
    let mut canvas = image::RgbaImage::from_raw(img.width, img.height, raw).unwrap();
    let pixel = image::Rgba([color.r, color.g, color.b, alpha]);
    imageproc::drawing::draw_filled_circle_mut(&mut canvas, (center_x, center_y), radius, pixel);
    img.raw_pixels = canvas.into_raw();
}

/// `imageproc::drawing::draw_hollow_rect_mut` on an RGBA buffer: the outline
/// of the rectangle is drawn in the colour, alpha included, as far as it
/// lies inside the image; the size of the image does not change.
///
/// The outside code builds a `Rect`, which panics on a zero size, casts the
/// width and the height to `i32` to compute the right and bottom edges, and
/// follows each edge as a line in `f32`, stepping one past its end: hence
/// the condition.
#[verifier::external_body]
pub(crate) fn outline_rect(
    img: &mut PhotonImage,
    x: i32,
    y: i32,
    width: u32,
    height: u32,
    color: Rgb,
    alpha: u8,
)
    requires
        outline_fits(x as int, y as int, width as int, height as int),
    ensures
        final(img)@.width == old(img)@.width,
        final(img)@.height == old(img)@.height,
        final(img)@.pixels.len() == old(img)@.pixels.len(),
        final(img)@.pixels == outline_pixels(
            old(img)@.pixels,
            old(img)@.width,
            old(img)@.height,
            x as int,
            y as int,
            width as int,
            height as int,
            seq![color.r, color.g, color.b, alpha],
        ),
{
    let raw = std::mem::take(&mut img.raw_pixels);
    let mut canvas = image::RgbaImage::from_raw(img.width, img.height, raw).unwrap();
    let rect = imageproc::rect::Rect::at(x, y).of_size(width, height);
    let pixel = image::Rgba([color.r, color.g, color.b, alpha]);
    imageproc::drawing::draw_hollow_rect_mut(&mut canvas, rect, pixel);
    img.raw_pixels = canvas.into_raw();
}

/// `imageproc::drawing::draw_polygon_mut` with three points on an RGBA
/// buffer: the triangle is filled with the colour, alpha included, as far as
/// it lies inside the image; the size of the image does not change.
///
/// The outside code panics where the last point is the first, casts width
/// and height of the image to `i32`, writes to row zero of an image that has
/// columns but no rows, takes differences of coordinates in `i32` and
/// follows the edges as lines in `f32`: hence the conditions.
#[verifier::external_body]
pub(crate) fn fill_triangle(
    img: &mut PhotonImage,
    first: (i32, i32),
    second: (i32, i32),
    third: (i32, i32),
    color: Rgb,
    alpha: u8,
)
    requires
        triangle_canvas_fits(old(img)@),
        triangle_fits(
            (first.0 as int, first.1 as int),
            (second.0 as int, second.1 as int),
            (third.0 as int, third.1 as int),
        ),
    ensures
        final(img)@.width == old(img)@.width,
        final(img)@.height == old(img)@.height,
        final(img)@.pixels.len() == old(img)@.pixels.len(),
        final(img)@.pixels == triangle_pixels(
            old(img)@.pixels,
            old(img)@.width,
            old(img)@.height,
            (first.0 as int, first.1 as int),
            (second.0 as int, second.1 as int),
            (third.0 as int, third.1 as int),
            seq![color.r, color.g, color.b, alpha],
        ),
{
    let raw = std::mem::take(&mut img.raw_pixels);
    let mut canvas = image::RgbaImage::from_raw(img.width, img.height, raw).unwrap();
    let points = [
        imageproc::point::Point::new(first.0, first.1),
        imageproc::point::Point::new(second.0, second.1),
        imageproc::point::Point::new(third.0, third.1),
    ];
    let pixel = image::Rgba([color.r, color.g, color.b, alpha]);
    imageproc::drawing::draw_polygon_mut(&mut canvas, &points, pixel);
    img.raw_pixels = canvas.into_raw();
}

/// `imageproc::morphology::dilate_mut` with the chessboard norm on a mask of
/// one byte to the pixel: every pixel within `reach` of a pixel that is not
/// black becomes white, every other pixel black.
///
/// The outside code measures distances up to the sum of width and height,
/// which it adds in `u32`, and up to 255 at most; a reach of that much or
/// more makes every pixel white.
#[verifier::external_body]
pub(crate) fn dilate_mask(mask: &Vec<u8>, width: u32, height: u32, reach: u8) -> (out: Vec<u8>)
    requires
        mask@.len() == width * height,
        width + height <= u32::MAX,
    ensures
        out@.len() == mask@.len(),
        forall|p: int|
            0 <= p < out@.len() ==> #[trigger] out@[p] == (if spreads_to(
                mask@,
                width as int,
                height as int,
                p,
                reach as int,
            ) {
                255u8
            } else {
                0u8
            }),
{
    let mut image = image::GrayImage::from_raw(width, height, mask.clone()).unwrap();
    imageproc::morphology::dilate_mut(&mut image, imageproc::distance_transform::Norm::LInf, reach);
    image.into_raw()
}

/// `image::imageops::overlay` on RGBA buffers: `top` is laid over the image
/// with its top-left corner at column `x`, row `y`. Each pixel of the image
/// that a pixel of `top` covers becomes the blend of the two, as
/// `Rgba::blend` computes it: unchanged under a transparent pixel, replaced
/// by an opaque one, mixed otherwise. Every other pixel stays as it was. The
/// outside code clips the overlap in `i64` and does not panic.
#[verifier::external_body]
pub(crate) fn overlay(img: &mut PhotonImage, top: &PhotonImage, x: u32, y: u32)
    ensures
        final(img)@.width == old(img)@.width,
        final(img)@.height == old(img)@.height,
        final(img)@.pixels.len() == old(img)@.pixels.len(),
        forall|i: int|
            0 <= i < old(img)@.pixels.len() ==> #[trigger] final(img)@.pixels[i] == ({
                let px = (i / 4) % old(img)@.width;
                let py = (i / 4) / old(img)@.width;
                let above = pixel_at(top@, px - x, py - y);
                if !(0 <= px - x < top@.width && 0 <= py - y < top@.height) || above[3] == 0 {
                    old(img)@.pixels[i]
                } else if above[3] == 255 {
                    above[i % 4]
                } else {
                    mixed_channel(pixel_at(old(img)@, px, py), above, i % 4)
                }
            }),
{
    let raw = std::mem::take(&mut img.raw_pixels);
    let mut bottom = image::RgbaImage::from_raw(img.width, img.height, raw).unwrap();
    let above =
        image::ImageBuffer::<image::Rgba<u8>, &[u8]>::from_raw(top.width, top.height, &top.raw_pixels[..])
            .unwrap();
    image::imageops::overlay(&mut bottom, &above, i64::from(x), i64::from(y));
    img.raw_pixels = bottom.into_raw();
}

/// `image::imageops::resize` with `FilterType::Nearest` on an RGBA buffer:
/// the result has the new size. It is a copy where the size does not change.
/// Otherwise it is sampled from the nearest pixels; of an image without
/// pixels nothing is sampled and every byte of the result is zero.
///
/// The outside code allocates the result and, on the way to a different
/// size, an intermediate image of `f32` channels, as wide as the old image
/// and as high as the new one, which panics where the bytes are more than a
/// buffer can hold: hence the condition.
#[verifier::external_body]
pub(crate) fn resize_nearest(img: &PhotonImage, new_width: u32, new_height: u32) -> (out:
    PhotonImage)
    requires
        resize_fits(img@, new_width as int, new_height as int),
    ensures
        out@.width == new_width,
        out@.height == new_height,
        out@.pixels == (if new_width == img@.width && new_height == img@.height {
            img@.pixels
        } else if img@.width == 0 || img@.height == 0 {
            Seq::new((4 * new_width * new_height) as nat, |i: int| 0u8)
        } else {
            resampled(
                img@.pixels,
                img@.width,
                img@.height,
                new_width as int,
                new_height as int,
            )
        }),
{
    let source =
        image::ImageBuffer::<image::Rgba<u8>, &[u8]>::from_raw(img.width, img.height, &img.raw_pixels[..])
            .unwrap();
    let filter = image::imageops::FilterType::Nearest;
    let sampled = image::imageops::resize(&source, new_width, new_height, filter);
    PhotonImage { raw_pixels: sampled.into_raw(), width: new_width, height: new_height }
}

/// `image::imageops::rotate90` on an RGBA buffer: the image turned a quarter
/// turn clockwise, so that width and height change places.
#[verifier::external_body]
pub(crate) fn rotate_quarter(img: &PhotonImage) -> (out: PhotonImage)
    ensures
        out@ == turned(img@, Rotation::Quarter),
{
    let source =
        image::ImageBuffer::<image::Rgba<u8>, &[u8]>::from_raw(img.width, img.height, &img.raw_pixels[..])
            .unwrap();
    let raw_pixels = image::imageops::rotate90(&source).into_raw();
    PhotonImage { raw_pixels, width: img.height, height: img.width }
}

/// `image::imageops::rotate180` on an RGBA buffer: the image turned upside
/// down, at the same size.
#[verifier::external_body]
pub(crate) fn rotate_half(img: &PhotonImage) -> (out: PhotonImage)
    ensures
        out@ == turned(img@, Rotation::Half),
{
    let source =
        image::ImageBuffer::<image::Rgba<u8>, &[u8]>::from_raw(img.width, img.height, &img.raw_pixels[..])
            .unwrap();
    let raw_pixels = image::imageops::rotate180(&source).into_raw();
    PhotonImage { raw_pixels, width: img.width, height: img.height }
}

/// `image::imageops::rotate270` on an RGBA buffer: the image turned three
/// quarters of a turn clockwise, so that width and height change places.
#[verifier::external_body]
pub(crate) fn rotate_three_quarters(img: &PhotonImage) -> (out: PhotonImage)
    ensures
        out@ == turned(img@, Rotation::ThreeQuarters),
{
    let source =
        image::ImageBuffer::<image::Rgba<u8>, &[u8]>::from_raw(img.width, img.height, &img.raw_pixels[..])
            .unwrap();
    let raw_pixels = image::imageops::rotate270(&source).into_raw();
    PhotonImage { raw_pixels, width: img.height, height: img.width }
}

} // verus!
