//! Shapes drawn onto an image.

use vstd::prelude::*;
use crate::color::Rgb;
use crate::error::GraphicsError;
use crate::image::{
    canvas_fits, filled, outline_fits, outlined, rect_fits, triangle_canvas_fits, triangle_fits,
    with_triangle,
    within_reach, ImageView, PhotonImage, REACH,
};
use crate::raster::{fill_rect, fill_triangle, outline_rect};
use crate::text::{is_caption, Caption, FontFace};

verus! {

/// Whether a rectangle with these machine values is one that drawing
/// routines accept.
pub fn rect_is_drawable(width: u32, height: u32, x_pos: i32, y_pos: i32) -> (ok: bool)
    ensures
        ok == rect_fits(x_pos as int, y_pos as int, width as int, height as int),
{
    0 < width && width <= i32::MAX as u32 && 0 < height && height <= i32::MAX as u32 && x_pos as i64
        + width as i64 <= i32::MAX as i64 && y_pos as i64 + height as i64 <= i32::MAX as i64
}

/// Draws a rectangle filled with a colour of the given opacity. The pixels
/// of the rectangle take the colour and the opacity as they are; nothing is
/// blended.
///
/// Fails with `InvalidInput`, and only then, where the image is empty or
/// wider or higher than `i32::MAX`, or the rectangle has no width or no
/// height, or one of `width`, `height`, `x_pos + width` and `y_pos + height`
/// is more than `i32::MAX`. The image is then left as it was.
pub fn draw_opaque_rect(
    img: &mut PhotonImage,
    background_color: &Rgb,
    opacity: u8,
    width: u32,
    height: u32,
    x_pos: i32,
    y_pos: i32,
) -> (res: Result<(), GraphicsError>)
    ensures
        res is Ok <==> canvas_fits(old(img)@) && rect_fits(
            x_pos as int,
            y_pos as int,
            width as int,
            height as int,
        ),
        res is Ok ==> final(img)@ == filled(
            old(img)@,
            x_pos as int,
            y_pos as int,
            width as int,
            height as int,
            *background_color,
            opacity,
        ),
        res is Err ==> final(img)@ == old(img)@,
        res matches Err(e) ==> e == GraphicsError::InvalidInput,
{
    if !img.is_canvas() || !rect_is_drawable(width, height, x_pos, y_pos) {
        return Err(GraphicsError::InvalidInput);
    }
    fill_rect(img, x_pos, y_pos, width, height, *background_color, opacity);
    Ok(())
}

/// Draws a rectangle filled with an opaque colour.
///
/// Fails as [`draw_opaque_rect`] does, and leaves the image as it was.
pub fn draw_solid_rect(
    img: &mut PhotonImage,
    background_color: &Rgb,
    width: u32,
    height: u32,
    x_pos: i32,
    y_pos: i32,
) -> (res: Result<(), GraphicsError>)
    ensures
        res is Ok <==> canvas_fits(old(img)@) && rect_fits(
            x_pos as int,
            y_pos as int,
            width as int,
            height as int,
        ),
        res is Ok ==> final(img)@ == filled(
            old(img)@,
            x_pos as int,
            y_pos as int,
            width as int,
            height as int,
            *background_color,
            255,
        ),
        res is Err ==> final(img)@ == old(img)@,
        res matches Err(e) ==> e == GraphicsError::InvalidInput,
{
    draw_opaque_rect(img, background_color, 255, width, height, x_pos, y_pos)
}

/// Whether a coordinate lies within reach of shapes drawn with lines.
pub fn is_within_reach(coordinate: i64) -> (ok: bool)
    ensures
        ok == within_reach(coordinate as int),
{
    -(REACH as i64) <= coordinate && coordinate <= REACH as i64
}

/// The image after two rectangles of the same size were filled, the second
/// ten pixels to the right of the first and ten pixels below it.
pub open spec fn stacked_rect_painted(
    view: ImageView,
    first: Rgb,
    second: Rgb,
    width: int,
    height: int,
    x: int,
    y: int,
) -> ImageView {
    filled(filled(view, x, y, width, height, first, 255), x + 10, y + 10, width, height, second, 255)
}

/// Draws two rectangles stacked on each other, for depth.
///
/// Fails with `InvalidInput`, and only then, where the image or one of the
/// rectangles is not accepted, as [`canvas_fits`] and [`rect_fits`] say.
/// The image is then left as it was.
pub fn draw_stacked_rect(
    img: &mut PhotonImage,
    background_color1: &Rgb,
    background_color2: &Rgb,
    width: u32,
    height: u32,
    x_pos: i32,
    y_pos: i32,
) -> (res: Result<(), GraphicsError>)
    ensures
        res is Ok <==> canvas_fits(old(img)@) && rect_fits(
            x_pos + 10,
            y_pos + 10,
            width as int,
            height as int,
        ),
        res is Ok ==> final(img)@ == stacked_rect_painted(
            old(img)@,
            *background_color1,
            *background_color2,
            width as int,
            height as int,
            x_pos as int,
            y_pos as int,
        ),
        res is Err ==> final(img)@ == old(img)@,
        res matches Err(e) ==> e == GraphicsError::InvalidInput,
{
    if !img.is_canvas() || x_pos > i32::MAX - 10 || y_pos > i32::MAX - 10 || !rect_is_drawable(
        width,
        height,
        x_pos + 10,
        y_pos + 10,
    ) {
        return Err(GraphicsError::InvalidInput);
    }
    fill_rect(img, x_pos, y_pos, width, height, *background_color1, 255);
    fill_rect(img, x_pos + 10, y_pos + 10, width, height, *background_color2, 255);
    Ok(())
}

/// The image after the outlines of three rectangles of the same size were
/// drawn, each forty pixels to the left of the one before and forty pixels
/// below it.
pub open spec fn stacked_borders_painted(
    view: ImageView,
    color: Rgb,
    width: int,
    height: int,
    x: int,
    y: int,
) -> ImageView {
    outlined(
        outlined(outlined(view, x, y, width, height, color, 255), x - 40, y + 40, width, height, color, 255),
        x - 80,
        y + 80,
        width,
        height,
        color,
        255,
    )
}

/// Draws three borders stacked on each other, for depth.
///
/// Fails with `InvalidInput`, and only then, where the rectangles are
/// empty, wider or higher than `i32::MAX`, or have a corner out of reach, as
/// [`outline_fits`] says. The image is then left as it was.
pub fn draw_stacked_borders(
    img: &mut PhotonImage,
    background_color: &Rgb,
    width: u32,
    height: u32,
    x_pos: i32,
    y_pos: i32,
) -> (res: Result<(), GraphicsError>)
    ensures
        res is Ok <==> outline_fits(x_pos as int, y_pos as int, width as int, height as int)
            && outline_fits(x_pos - 80, y_pos + 80, width as int, height as int),
        res is Ok ==> final(img)@ == stacked_borders_painted(
            old(img)@,
            *background_color,
            width as int,
            height as int,
            x_pos as int,
            y_pos as int,
        ),
        res is Err ==> final(img)@ == old(img)@,
        res matches Err(e) ==> e == GraphicsError::InvalidInput,
{
    let fits = width > 0 && width <= i32::MAX as u32 && height > 0 && height <= i32::MAX as u32
        && is_within_reach(x_pos as i64) && is_within_reach(
        x_pos as i64 - 80,
    ) && is_within_reach(y_pos as i64) && is_within_reach(y_pos as i64 + 80) && is_within_reach(
        x_pos as i64 + width as i64,
    ) && is_within_reach(x_pos as i64 - 80 + width as i64) && is_within_reach(
        y_pos as i64 + height as i64,
    ) && is_within_reach(y_pos as i64 + 80 + height as i64);
    if !fits {
        return Err(GraphicsError::InvalidInput);
    }
    outline_rect(img, x_pos, y_pos, width, height, *background_color, 255);
    outline_rect(img, x_pos - 40, y_pos + 40, width, height, *background_color, 255);
    outline_rect(img, x_pos - 80, y_pos + 80, width, height, *background_color, 255);
    Ok(())
}

/// Whether a triangle can be drawn on the image; see
/// [`triangle_canvas_fits`].
pub fn takes_triangles(img: &PhotonImage) -> (ok: bool)
    ensures
        ok == triangle_canvas_fits(img@),
{
    let (width, height) = img.dimensions();
    width <= i32::MAX as u32 && height <= i32::MAX as u32 && (width == 0 || height > 0)
}

/// A triangle: its colour and the coordinates of its three corners.
#[derive(Debug, Clone, Copy, PartialEq, Eq, Structural)]
pub struct Triangle {
    pub background_color: Rgb,
    pub x1: i32,
    pub y1: i32,
    pub x2: i32,
    pub y2: i32,
    pub x3: i32,
    pub y3: i32,
}

impl Triangle {
    /// Creates a triangle with the given corners and colour.
    pub fn new(background_color: Rgb, x1: i32, y1: i32, x2: i32, y2: i32, x3: i32, y3: i32) -> (t:
        Triangle)
        ensures
            t.background_color == background_color,
            t.x1 == x1,
            t.y1 == y1,
            t.x2 == x2,
            t.y2 == y2,
            t.x3 == x3,
            t.y3 == y3,
    {
        Triangle { background_color, x1, y1, x2, y2, x3, y3 }
    }

    /// The colour of the triangle.
    pub fn background_color(self) -> (color: Rgb)
        ensures
            color == self.background_color,
    {
        self.background_color
    }

    /// Whether the triangle can be drawn; see [`triangle_fits`].
    pub open spec fn fits(self) -> bool {
        triangle_fits(
            (self.x1 as int, self.y1 as int),
            (self.x2 as int, self.y2 as int),
            (self.x3 as int, self.y3 as int),
        )
    }
}

/// Draws a filled triangle.
///
/// Fails with `InvalidInput`, and only then, where the image is wider or
/// higher than `i32::MAX` or has columns but no rows, a corner is out of
/// reach, or the third corner is the first. The image is then left as it
/// was.
pub fn draw_triangle(img: &mut PhotonImage, triangle: Triangle) -> (res: Result<(), GraphicsError>)
    ensures
        res is Ok <==> triangle_canvas_fits(old(img)@) && triangle.fits(),
        res is Ok ==> final(img)@ == with_triangle(
            old(img)@,
            (triangle.x1 as int, triangle.y1 as int),
            (triangle.x2 as int, triangle.y2 as int),
            (triangle.x3 as int, triangle.y3 as int),
            triangle.background_color,
            255,
        ),
        res is Err ==> final(img)@ == old(img)@,
        res matches Err(e) ==> e == GraphicsError::InvalidInput,
{
    let fits = is_within_reach(triangle.x1 as i64) && is_within_reach(triangle.y1 as i64)
        && is_within_reach(triangle.x2 as i64) && is_within_reach(triangle.y2 as i64)
        && is_within_reach(triangle.x3 as i64) && is_within_reach(triangle.y3 as i64) && !(
    triangle.x1 == triangle.x3 && triangle.y1 == triangle.y3);
    if !takes_triangles(img) || !fits {
        return Err(GraphicsError::InvalidInput);
    }
    fill_triangle(
        img,
        (triangle.x1, triangle.y1),
        (triangle.x2, triangle.y2),
        (triangle.x3, triangle.y3),
        triangle.background_color(),
        255,
    );
    Ok(())
}

/// The second corner of the triangle of [`draw_equilateral_triangle`]: one
/// side to the right of the first.
pub open spec fn equilateral_second(side_len: int, x: int, y: int) -> (int, int) {
    (x + side_len, y)
}

/// The third corner of the triangle of [`draw_equilateral_triangle`]: half
/// a side to the right of the first, at three times its row.
pub open spec fn equilateral_third(side_len: int, x: int, y: int) -> (int, int) {
    (x + side_len / 2, y * 3)
}

/// Draws a triangle with a level top edge of the given length, its first
/// corner at `(x_pos, y_pos)` and its other corners where
/// [`equilateral_second`] and [`equilateral_third`] say.
///
/// Fails with `InvalidInput`, and only then, where the image is wider or
/// higher than `i32::MAX` or has columns but no rows, a corner is out of
/// reach, or the third corner is the first. The image is then left as it
/// was.
pub fn draw_equilateral_triangle(
    img: &mut PhotonImage,
    side_len: u32,
    x_pos: i32,
    y_pos: i32,
    background_color: &Rgb,
) -> (res: Result<(), GraphicsError>)
    ensures
        res is Ok <==> triangle_canvas_fits(old(img)@) && triangle_fits(
            (x_pos as int, y_pos as int),
            equilateral_second(side_len as int, x_pos as int, y_pos as int),
            equilateral_third(side_len as int, x_pos as int, y_pos as int),
        ),
        res is Ok ==> final(img)@ == with_triangle(
            old(img)@,
            (x_pos as int, y_pos as int),
            equilateral_second(side_len as int, x_pos as int, y_pos as int),
            equilateral_third(side_len as int, x_pos as int, y_pos as int),
            *background_color,
            255,
        ),
        res is Err ==> final(img)@ == old(img)@,
        res matches Err(e) ==> e == GraphicsError::InvalidInput,
{
    let second_x: i64 = x_pos as i64 + side_len as i64;
    let third_x: i64 = x_pos as i64 + (side_len / 2) as i64;
    let third_y: i64 = y_pos as i64 * 3;
    let fits = is_within_reach(x_pos as i64) && is_within_reach(y_pos as i64) && is_within_reach(
        second_x,
    ) && is_within_reach(third_x) && is_within_reach(third_y) && !(third_x == x_pos as i64
        && third_y == y_pos as i64);
    if !takes_triangles(img) || !fits {
        return Err(GraphicsError::InvalidInput);
    }
    fill_triangle(
        img,
        (x_pos, y_pos),
        (second_x as i32, y_pos),
        (third_x as i32, third_y as i32),
        *background_color,
        255,
    );
    Ok(())
}

/// A coordinate that is kept on the image: zero where it is negative.
pub open spec fn on_image(coordinate: int) -> int {
    if coordinate < 0 {
        0
    } else {
        coordinate
    }
}

/// Draws a filled rectangle and returns the caption to render in it: white
/// `Roboto-Bold` at size 30, a twentieth of `width` to the right of `x_pos`
/// and ten pixels below `y_pos`, and at the left or top edge of the image
/// where that lies to the left of it or above it. The rectangle is `height`
/// wide and `width` high.
///
/// Fails with `InvalidInput`, and only then, where the rectangle cannot be
/// drawn, as [`draw_solid_rect`] says. The image is then left as it was.
pub fn draw_rect_text(
    img: &mut PhotonImage,
    text: &str,
    background_color: &Rgb,
    height: u32,
    width: u32,
    x_pos: i32,
    y_pos: i32,
) -> (res: Result<Caption, GraphicsError>)
    ensures
        res is Ok <==> canvas_fits(old(img)@) && rect_fits(
            x_pos as int,
            y_pos as int,
            height as int,
            width as int,
        ),
        res is Ok ==> final(img)@ == filled(
            old(img)@,
            x_pos as int,
            y_pos as int,
            height as int,
            width as int,
            *background_color,
            255,
        ),
        res matches Ok(caption) ==> is_caption(
            caption,
            text@,
            on_image(x_pos + (width as int) / 20),
            on_image(y_pos + 10),
            FontFace::RobotoBold,
            30,
            Rgb { r: 255, g: 255, b: 255 },
        ),
        res is Err ==> final(img)@ == old(img)@,
        res matches Err(e) ==> e == GraphicsError::InvalidInput,
{
    if !img.is_canvas() || !rect_is_drawable(height, width, x_pos, y_pos) {
        return Err(GraphicsError::InvalidInput);
    }
    let right: i64 = x_pos as i64 + (width / 20) as i64;
    let below: i64 = y_pos as i64 + 10;
    let text_x: u32 = if right < 0 {
        0
    } else {
        right as u32
    };
    let text_y: u32 = if below < 0 {
        0
    } else {
        below as u32
    };
    fill_rect(img, x_pos, y_pos, height, width, *background_color, 255);
    let rgb_white = Rgb { r: 255, g: 255, b: 255 };
    Ok(Caption::new(text, text_x, text_y, FontFace::RobotoBold, 30, rgb_white))
}

} // verus!
