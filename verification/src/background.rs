//! Backgrounds: a solid colour, rows of discs, a picture repeated as a
//! pattern, and the lines of lined and squared backgrounds.

use vstd::prelude::*;
use crate::color::Rgb;
use crate::error::GraphicsError;
use crate::graphics::lay_over;
use crate::image::{
    disc_fits, overlaid, size_fits, solid_view, with_disc, ImageView, PhotonImage,
};
use crate::layout::{Point, Segment};
use crate::raster::fill_disc;

verus! {

/// The colour of the backgrounds with discs.
pub open spec fn spec_mauve() -> Rgb {
    Rgb { r: 190, g: 120, b: 200 }
}

/// The colour of the discs.
pub open spec fn spec_violet() -> Rgb {
    Rgb { r: 123, g: 10, b: 180 }
}

/// Creates a background filled with one opaque colour.
///
/// Fails with `InvalidInput`, and only then, where the bytes of the image
/// are more than a buffer can hold.
pub fn solid_background(width: u32, height: u32, background_color: Rgb) -> (res: Result<
    PhotonImage,
    GraphicsError,
>)
    ensures
        res is Ok <==> size_fits(width as int, height as int),
        res matches Ok(img) ==> img@ == solid_view(
            width as int,
            height as int,
            background_color,
            255,
        ),
        res matches Err(e) ==> e == GraphicsError::InvalidInput,
{
    PhotonImage::new_with_background(width, height, background_color)
}

/// The image after the first `rows` discs of column `column` of a grid
/// were filled, from the top down, the centres `pitch` pixels apart both
/// ways and the first disc of the grid at the top-left corner.
pub open spec fn disc_column_painted(
    view: ImageView,
    radius: int,
    pitch: int,
    column: int,
    rows: nat,
) -> ImageView
    decreases rows,
{
    if rows == 0 {
        view
    } else {
        with_disc(
            disc_column_painted(view, radius, pitch, column, (rows - 1) as nat),
            column * pitch,
            (rows - 1) * pitch,
            radius,
            spec_violet(),
            255,
        )
    }
}

/// The image after the first `columns` columns of a grid of discs were
/// filled, from left to right, each with `rows` discs.
pub open spec fn disc_grid_painted(
    view: ImageView,
    radius: int,
    pitch: int,
    columns: nat,
    rows: nat,
) -> ImageView
    decreases columns,
{
    if columns == 0 {
        view
    } else {
        disc_column_painted(
            disc_grid_painted(view, radius, pitch, (columns - 1) as nat, rows),
            radius,
            pitch,
            columns - 1,
            rows,
        )
    }
}

/// Whether a grid of discs can be drawn: its first disc and its last one
/// fit, and with them all the others.
pub open spec fn disc_grid_fits(radius: int, pitch: int, columns: int, rows: int) -> bool {
    &&& disc_fits(0, 0, radius)
    &&& disc_fits((columns - 1) * pitch, (rows - 1) * pitch, radius)
}

/// Whether a grid of discs can be drawn; see [`disc_grid_fits`].
fn grid_is_drawable(radius: i32, pitch: i64, columns: u8, rows: u8) -> (ok: bool)
    requires
        columns >= 1,
        rows >= 1,
        -0x1_0000_0000 <= pitch <= 0x1_0000_0000,
    ensures
        ok == disc_grid_fits(radius as int, pitch as int, columns as int, rows as int),
{
    assert(-256 * 0x1_0000_0000 <= (columns - 1) * pitch <= 256 * 0x1_0000_0000 && -256
        * 0x1_0000_0000 <= (rows - 1) * pitch <= 256 * 0x1_0000_0000) by (nonlinear_arith)
        requires
            1 <= columns <= 255,
            1 <= rows <= 255,
            -0x1_0000_0000 <= pitch <= 0x1_0000_0000,
    ;
    let last_x: i64 = (columns as i64 - 1) * pitch;
    let last_y: i64 = (rows as i64 - 1) * pitch;
    let reach: i64 = 0x3fff_ffff;
    let r: i64 = radius as i64;
    -reach <= r && r <= 0x1_0000 && -reach <= last_x && last_x <= reach && -reach
        <= last_y && last_y <= reach && (r <= 0 || (-reach <= last_x - r && last_x + r <= reach
        && -reach <= last_y - r && last_y + r <= reach))
}

/// Every disc of a grid that can be drawn fits.
proof fn lemma_disc_of_grid_fits(radius: int, pitch: int, columns: int, rows: int, i: int, j: int)
    requires
        disc_grid_fits(radius, pitch, columns, rows),
        0 <= i < columns,
        0 <= j < rows,
    ensures
        disc_fits(i * pitch, j * pitch, radius),
{
    assert((0 <= i * pitch <= (columns - 1) * pitch) || ((columns - 1) * pitch <= i * pitch <= 0))
        by (nonlinear_arith)
        requires
            0 <= i < columns,
    ;
    assert((0 <= j * pitch <= (rows - 1) * pitch) || ((rows - 1) * pitch <= j * pitch <= 0))
        by (nonlinear_arith)
        requires
            0 <= j < rows,
    ;
}

/// Fills a grid of discs on an image; see [`disc_grid_painted`].
fn draw_discs(img: &mut PhotonImage, radius: i32, pitch: i32, columns: u8, rows: u8)
    requires
        disc_grid_fits(radius as int, pitch as int, columns as int, rows as int),
    ensures
        final(img)@ == disc_grid_painted(
            old(img)@,
            radius as int,
            pitch as int,
            columns as nat,
            rows as nat,
        ),
{
    let violet = Rgb { r: 123, g: 10, b: 180 };
    let mut x: u8 = 0;
    while x < columns
        invariant
            x <= columns,
            disc_grid_fits(radius as int, pitch as int, columns as int, rows as int),
            violet == spec_violet(),
            img@ == disc_grid_painted(
                old(img)@,
                radius as int,
                pitch as int,
                x as nat,
                rows as nat,
            ),
        decreases columns - x,
    {
        let ghost column_start = img@;
        let mut y: u8 = 0;
        while y < rows
            invariant
                y <= rows,
                x < columns,
                disc_grid_fits(radius as int, pitch as int, columns as int, rows as int),
                violet == spec_violet(),
                img@ == disc_column_painted(
                    column_start,
                    radius as int,
                    pitch as int,
                    x as int,
                    y as nat,
                ),
            decreases rows - y,
        {
            proof {
                lemma_disc_of_grid_fits(
                    radius as int,
                    pitch as int,
                    columns as int,
                    rows as int,
                    x as int,
                    y as int,
                );
            }
            fill_disc(img, x as i32 * pitch, y as i32 * pitch, radius, violet, 255);
            y += 1;
        }
        x += 1;
    }
}

/// Creates a background of discs that touch: five columns of six discs,
/// each with a radius of a tenth of the width and fifteen pixels more.
///
/// Fails with `InvalidInput`, and only then, where the bytes of the image
/// are more than a buffer can hold or a disc lies out of reach, as
/// [`disc_grid_fits`] says.
pub fn circle_background(width: u32, height: u32) -> (res: Result<PhotonImage, GraphicsError>)
    ensures
        res is Ok <==> size_fits(width as int, height as int) && disc_grid_fits(
            width / 10 + 15,
            2 * (width / 10 + 15),
            5,
            6,
        ),
        res matches Ok(img) ==> img@ == disc_grid_painted(
            solid_view(width as int, height as int, spec_mauve(), 255),
            width / 10 + 15,
            2 * (width / 10 + 15),
            5,
            6,
        ),
        res matches Err(e) ==> e == GraphicsError::InvalidInput,
{
    let circle_radius: i32 = (width / 10) as i32 + 15;
    if !grid_is_drawable(circle_radius, circle_radius as i64 * 2, 5, 6) {
        return Err(GraphicsError::InvalidInput);
    }
    let background_color = Rgb { r: 190, g: 120, b: 200 };
    let mut rgba_img = PhotonImage::new_with_background(width, height, background_color)?;
    draw_discs(&mut rgba_img, circle_radius, circle_radius * 2, 5, 6);
    Ok(rgba_img)
}

/// Creates a background of discs set apart: eight columns of ten discs,
/// each with a radius of a tenth of the width less 35 pixels, the centres
/// three radii apart. Where the radius is negative nothing of a disc is
/// drawn.
///
/// Fails with `InvalidInput`, and only then, where the bytes of the image
/// are more than a buffer can hold or a disc lies out of reach, as
/// [`disc_grid_fits`] says.
pub fn spaced_circle_background(width: u32, height: u32) -> (res: Result<
    PhotonImage,
    GraphicsError,
>)
    ensures
        res is Ok <==> size_fits(width as int, height as int) && disc_grid_fits(
            width / 10 - 35,
            3 * (width / 10 - 35),
            8,
            10,
        ),
        res matches Ok(img) ==> img@ == disc_grid_painted(
            solid_view(width as int, height as int, spec_mauve(), 255),
            width / 10 - 35,
            3 * (width / 10 - 35),
            8,
            10,
        ),
        res matches Err(e) ==> e == GraphicsError::InvalidInput,
{
    let circle_radius: i32 = (width / 10) as i32 - 35;
    if !grid_is_drawable(circle_radius, circle_radius as i64 * 3, 8, 10) {
        return Err(GraphicsError::InvalidInput);
    }
    let background_color = Rgb { r: 190, g: 120, b: 200 };
    let mut rgba_img = PhotonImage::new_with_background(width, height, background_color)?;
    draw_discs(&mut rgba_img, circle_radius, circle_radius * 3, 8, 10);
    Ok(rgba_img)
}

/// The image after the first `rows` copies of column `column` of a pattern
/// were laid over it: copy `y` with its top-left corner at column `column`
/// more than three times the width of the picture, and at row `y` times its
/// height and fifty more.
pub open spec fn pattern_column_painted(
    view: ImageView,
    picture: ImageView,
    column: int,
    rows: nat,
) -> ImageView
    decreases rows,
{
    if rows == 0 {
        view
    } else {
        overlaid(
            pattern_column_painted(view, picture, column, (rows - 1) as nat),
            picture,
            column + picture.width * 3,
            (rows - 1) * picture.height + 50,
        )
    }
}

/// The image after the first `columns` columns of a pattern were laid over
/// it, each with ten copies of the picture.
pub open spec fn pattern_painted(view: ImageView, picture: ImageView, columns: nat) -> ImageView
    decreases columns,
{
    if columns == 0 {
        view
    } else {
        pattern_column_painted(
            pattern_painted(view, picture, (columns - 1) as nat),
            picture,
            columns - 1,
            10,
        )
    }
}

/// Creates a patterned background by laying a picture over a solid colour
/// in eight columns of ten copies; see [`pattern_painted`].
///
/// Fails with `InvalidInput`, and only then, where the bytes of the image
/// are more than a buffer can hold.
pub fn pattern_from_img(width: u32, height: u32, background_color: Rgb, img: &PhotonImage) -> (res:
    Result<PhotonImage, GraphicsError>)
    ensures
        res is Ok <==> size_fits(width as int, height as int),
        res matches Ok(out) ==> out@ == pattern_painted(
            solid_view(width as int, height as int, background_color, 255),
            img@,
            8,
        ),
        res matches Err(e) ==> e == GraphicsError::InvalidInput,
{
    let mut rgba_img = PhotonImage::new_with_background(width, height, background_color)?;
    let (img_width, img_height) = img.dimensions();
    let ghost start = rgba_img@;
    let mut x: u64 = 0;
    while x < 8
        invariant
            x <= 8,
            img_width == img@.width,
            img_height == img@.height,
            rgba_img@ == pattern_painted(start, img@, x as nat),
        decreases 8 - x,
    {
        let ghost column_start = rgba_img@;
        let mut y: u64 = 0;
        while y < 10
            invariant
                y <= 10,
                x < 8,
                img_width == img@.width,
                img_height == img@.height,
                rgba_img@ == pattern_column_painted(column_start, img@, x as int, y as nat),
            decreases 10 - y,
        {
            assert(0 <= y * img_height <= 10 * 0xffff_ffff) by (nonlinear_arith)
                requires
                    0 <= y < 10,
                    0 <= img_height <= 0xffff_ffff,
            ;
            lay_over(&mut rgba_img, img, x + img_width as u64 * 3, y * img_height as u64 + 50);
            y += 1;
        }
        x += 1;
    }
    Ok(rgba_img)
}

/// How many level lines a lined background has, and how many upright lines
/// a grid has besides.
pub const RULES: u64 = 50;

/// The distance between the level lines of a lined background.
pub const RULE_PITCH: u64 = 20;

/// The distance between the upright lines of a grid.
pub const GRID_PITCH: u64 = 50;

/// The colour of the lines of a lined background and of a grid.
pub fn rule_colour() -> (color: Rgb)
    ensures
        color == (Rgb { r: 255, g: 167, b: 90 }),
{
    Rgb { r: 255, g: 167, b: 90 }
}

/// Whether `lines` are the lines of a lined background: [`RULES`] level
/// lines from the left edge to the column `width`, [`RULE_PITCH`] rows
/// apart, the first in the top row.
pub open spec fn are_rules(lines: Seq<Segment>, width: int) -> bool {
    &&& lines.len() == RULES
    &&& forall|k: int|
        0 <= k < lines.len() ==> {
            &&& (#[trigger] lines[k]).from.x == 0
            &&& lines[k].from.y == RULE_PITCH * k
            &&& lines[k].to.x == width
            &&& lines[k].to.y == RULE_PITCH * k
        }
}

/// Whether `lines` are the upright lines of a grid: [`RULES`] lines from
/// the top edge to the row `height`, [`GRID_PITCH`] columns apart, the first
/// in the left column.
pub open spec fn are_uprights(lines: Seq<Segment>, height: int) -> bool {
    &&& lines.len() == RULES
    &&& forall|k: int|
        0 <= k < lines.len() ==> {
            &&& (#[trigger] lines[k]).from.x == GRID_PITCH * k
            &&& lines[k].from.y == 0
            &&& lines[k].to.x == GRID_PITCH * k
            &&& lines[k].to.y == height
        }
}

/// The lines of a lined background as wide as `width`; see [`are_rules`].
/// The background itself is a [`solid_background`].
pub fn lined_background_rules(width: u32) -> (lines: Vec<Segment>)
    ensures
        are_rules(lines@, width as int),
{
    let mut lines: Vec<Segment> = Vec::new();
    let mut k: u64 = 0;
    while k < RULES
        invariant
            k <= RULES,
            lines@.len() == k,
            forall|j: int|
                0 <= j < k ==> {
                    &&& (#[trigger] lines@[j]).from.x == 0
                    &&& lines@[j].from.y == RULE_PITCH * j
                    &&& lines@[j].to.x == width
                    &&& lines@[j].to.y == RULE_PITCH * j
                },
        decreases RULES - k,
    {
        lines.push(
            Segment {
                from: Point { x: 0, y: RULE_PITCH * k },
                to: Point { x: width as u64, y: RULE_PITCH * k },
            },
        );
        k += 1;
    }
    lines
}

/// The upright lines of a grid as high as `height`; see [`are_uprights`]. A
/// grid has the lines of a lined background as well.
pub fn grid_background_uprights(height: u32) -> (lines: Vec<Segment>)
    ensures
        are_uprights(lines@, height as int),
{
    let mut lines: Vec<Segment> = Vec::new();
    let mut k: u64 = 0;
    while k < RULES
        invariant
            k <= RULES,
            lines@.len() == k,
            forall|j: int|
                0 <= j < k ==> {
                    &&& (#[trigger] lines@[j]).from.x == GRID_PITCH * j
                    &&& lines@[j].from.y == 0
                    &&& lines@[j].to.x == GRID_PITCH * j
                    &&& lines@[j].to.y == height
                },
        decreases RULES - k,
    {
        lines.push(
            Segment {
                from: Point { x: GRID_PITCH * k, y: 0 },
                to: Point { x: GRID_PITCH * k, y: height as u64 },
            },
        );
        k += 1;
    }
    lines
}

} // verus!
