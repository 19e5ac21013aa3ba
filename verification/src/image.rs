//! The pixel buffer that everything is drawn on.
//!
//! A [`PhotonImage`] owns its pixels as plain bytes, four per pixel in the
//! order red, green, blue, alpha, row after row from the top. It always holds
//! exactly as many bytes as its width and height call for.

use vstd::prelude::*;
use crate::color::Rgb;
use crate::error::GraphicsError;
use crate::raster::{blank_pixels, solid_pixels, text_eq};
use crate::text::Rotation;

verus! {

/// The number of bytes that one pixel takes.
pub const CHANNELS: usize = 4;

/// What a pixel buffer is, mathematically: its size and its bytes.
pub struct ImageView {
    pub width: int,
    pub height: int,
    pub pixels: Seq<u8>,
}

/// An image: its raw pixels with its width and height.
#[derive(Debug)]
pub struct PhotonImage {
    pub(crate) raw_pixels: Vec<u8>,
    pub(crate) width: u32,
    pub(crate) height: u32,
}

/// Whether a buffer holds exactly the bytes of its pixels.
pub open spec fn well_formed(view: ImageView) -> bool {
    &&& 0 <= view.width <= u32::MAX
    &&& 0 <= view.height <= u32::MAX
    &&& view.pixels.len() == 4 * view.width * view.height
}

/// Where the first byte of the pixel at column `x`, row `y` stands.
pub open spec fn pixel_index(width: int, x: int, y: int) -> int {
    4 * (y * width + x)
}

/// Channel `channel` (0 red, 1 green, 2 blue, 3 alpha) of a colour with an
/// alpha value.
pub open spec fn channel_of(color: Rgb, alpha: u8, channel: int) -> u8 {
    if channel == 0 {
        color.r
    } else if channel == 1 {
        color.g
    } else if channel == 2 {
        color.b
    } else {
        alpha
    }
}

/// The bytes of a `width` by `height` image whose every pixel has the given
/// colour and alpha value.
pub open spec fn solid_view(width: int, height: int, color: Rgb, alpha: u8) -> ImageView {
    ImageView {
        width,
        height,
        pixels: Seq::new((4 * width * height) as nat, |i: int| channel_of(color, alpha, i % 4)),
    }
}

/// The bytes of a `width` by `height` image whose every byte is zero:
/// transparent black.
pub open spec fn blank_view(width: int, height: int) -> ImageView {
    ImageView { width, height, pixels: Seq::new((4 * width * height) as nat, |i: int| 0u8) }
}

/// Whether drawing routines accept a canvas of this size: it is not empty and
/// its coordinates can be written in 32 signed bits.
pub open spec fn canvas_fits(view: ImageView) -> bool {
    &&& 0 < view.width <= i32::MAX
    &&& 0 < view.height <= i32::MAX
}

/// Whether drawing routines accept a rectangle: it is not empty, and its
/// width, its height, the column after its right edge and the row after its
/// bottom edge can all be written in 32 signed bits.
pub open spec fn rect_fits(x: int, y: int, width: int, height: int) -> bool {
    &&& 0 < width <= i32::MAX
    &&& 0 < height <= i32::MAX
    &&& x + width <= i32::MAX
    &&& y + height <= i32::MAX
}

/// Whether the pixel at column `px`, row `py` lies in the rectangle with the
/// top-left corner `(x, y)` and the given size.
pub open spec fn covers(x: int, y: int, width: int, height: int, px: int, py: int) -> bool {
    x <= px < x + width && y <= py < y + height
}

/// The image after a rectangle was filled: the pixels that the rectangle
/// covers have the colour and the alpha value, the others are unchanged.
/// What of the rectangle lies outside the image is lost.
pub open spec fn filled(
    view: ImageView,
    x: int,
    y: int,
    width: int,
    height: int,
    color: Rgb,
    alpha: u8,
) -> ImageView {
    ImageView {
        width: view.width,
        height: view.height,
        pixels: Seq::new(
            view.pixels.len(),
            |i: int|
                if covers(x, y, width, height, (i / 4) % view.width, (i / 4) / view.width) {
                    channel_of(color, alpha, i % 4)
                } else {
                    view.pixels[i]
                },
        ),
    }
}

/// Filling a rectangle without width or height changes nothing.
pub proof fn lemma_filled_empty(
    view: ImageView,
    x: int,
    y: int,
    width: int,
    height: int,
    color: Rgb,
    alpha: u8,
)
    requires
        width <= 0 || height <= 0,
    ensures
        filled(view, x, y, width, height, color, alpha) == view,
{
    assert(filled(view, x, y, width, height, color, alpha).pixels =~= view.pixels);
}

/// Every byte of a well-formed image belongs to a pixel inside the image.
pub proof fn lemma_pixel_in_image(view: ImageView)
    requires
        well_formed(view),
    ensures
        forall|i: int|
            0 <= i < view.pixels.len() ==> 0 <= #[trigger] ((i / 4) % view.width) < view.width
                && 0 <= (i / 4) / view.width < view.height,
{
    assert forall|i: int| 0 <= i < view.pixels.len() implies 0 <= #[trigger] ((i / 4)
        % view.width) < view.width && 0 <= (i / 4) / view.width < view.height by {
        let p = i / 4;
        let w = view.width;
        let h = view.height;
        assert(4 * w * h == 4 * (w * h)) by (nonlinear_arith);
        assert(0 <= p < w * h);
        assert(w > 0) by (nonlinear_arith)
            requires
                0 <= p < w * h,
                0 <= w,
        ;
        assert(0 <= p % w < w && 0 <= p / w < h) by (nonlinear_arith)
            requires
                0 <= p < w * h,
                0 < w,
        ;
    }
}

/// The four bytes of the pixel at column `x`, row `y`.
pub open spec fn pixel_at(view: ImageView, x: int, y: int) -> Seq<u8> {
    view.pixels.subrange(pixel_index(view.width, x, y), pixel_index(view.width, x, y) + 4)
}

/// One channel of the pixel that alpha blending gives where `above`, a pixel
/// that is neither transparent nor opaque, is laid over `below`. Both are
/// pixels of four bytes.
pub uninterp spec fn mixed_channel(below: Seq<u8>, above: Seq<u8>, channel: int) -> u8;

/// The image after `top` was laid over it with the top-left corner of `top`
/// at column `x`, row `y`. Where a pixel of `top` covers a pixel of the
/// image, a transparent pixel leaves what is below, an opaque one replaces
/// it, and anything between the two is mixed with it. Elsewhere the image is
/// unchanged, and what of `top` lies outside the image is lost.
pub open spec fn overlaid(bottom: ImageView, top: ImageView, x: int, y: int) -> ImageView {
    ImageView {
        width: bottom.width,
        height: bottom.height,
        pixels: Seq::new(
            bottom.pixels.len(),
            |i: int|
                {
                    let px = (i / 4) % bottom.width;
                    let py = (i / 4) / bottom.width;
                    let above = pixel_at(top, px - x, py - y);
                    if !(0 <= px - x < top.width && 0 <= py - y < top.height) || above[3] == 0 {
                        bottom.pixels[i]
                    } else if above[3] == 255 {
                        above[i % 4]
                    } else {
                        mixed_channel(pixel_at(bottom, px, py), above, i % 4)
                    }
                },
        ),
    }
}

/// The image turned clockwise: the pixel at column `x`, row `y` of an image
/// of height `h` goes to column `h - 1 - y`, row `x` by a quarter turn; a
/// half turn is two of these and three quarters of a turn are three.
pub open spec fn turned(view: ImageView, rotation: Rotation) -> ImageView {
    let width = if rotation == Rotation::Half {
        view.width
    } else {
        view.height
    };
    let height = if rotation == Rotation::Half {
        view.height
    } else {
        view.width
    };
    ImageView {
        width,
        height,
        pixels: Seq::new(
            view.pixels.len(),
            |i: int|
                {
                    let column = (i / 4) % width;
                    let row = (i / 4) / width;
                    let x = match rotation {
                        Rotation::Quarter => row,
                        Rotation::Half => view.width - 1 - column,
                        Rotation::ThreeQuarters => view.width - 1 - row,
                    };
                    let y = match rotation {
                        Rotation::Quarter => view.height - 1 - column,
                        Rotation::Half => view.height - 1 - row,
                        Rotation::ThreeQuarters => column,
                    };
                    view.pixels[pixel_index(view.width, x, y) + i % 4]
                },
        ),
    }
}

/// The bytes of an image of `width` by `height` pixels after it was sampled,
/// each new pixel from the nearest old ones, to `new_width` by `new_height`
/// pixels.
pub uninterp spec fn resampled(
    pixels: Seq<u8>,
    width: int,
    height: int,
    new_width: int,
    new_height: int,
) -> Seq<u8>;

/// The image brought to a new size. An image that has the size already is
/// copied as it is, and an image without pixels becomes a transparent image
/// of the new size.
pub open spec fn resized(view: ImageView, new_width: int, new_height: int) -> ImageView {
    if new_width == view.width && new_height == view.height {
        view
    } else if view.width == 0 || view.height == 0 {
        blank_view(new_width, new_height)
    } else {
        ImageView {
            width: new_width,
            height: new_height,
            pixels: resampled(view.pixels, view.width, view.height, new_width, new_height),
        }
    }
}

/// Whether the bytes of an image of this size can be allocated: a buffer
/// holds at most `isize::MAX` bytes.
pub open spec fn size_fits(width: int, height: int) -> bool {
    4 * width * height <= isize::MAX
}

/// Whether an image can be brought to a new size: the result can be
/// allocated, and so can the intermediate image that is made on the way to
/// a different size, as wide as the old and as high as the new with sixteen
/// bytes to the pixel. An image without pixels can be brought to any such
/// size; the result is then transparent.
pub open spec fn resize_fits(view: ImageView, new_width: int, new_height: int) -> bool {
    &&& size_fits(new_width, new_height)
    &&& ((new_width == view.width && new_height == view.height) || 16 * view.width * new_height
        <= isize::MAX)
}

/// The largest coordinate, either way from zero, that shapes drawn with
/// lines may reach: the lines are followed in 32-bit floating point, and the
/// difference of any two coordinates has to fit in 32 signed bits.
pub const REACH: i32 = 0x3fff_ffff;

/// Whether a coordinate lies within [`REACH`] of zero.
pub open spec fn within_reach(coordinate: int) -> bool {
    -0x3fff_ffff <= coordinate <= 0x3fff_ffff
}

/// The bytes of a `width` by `height` image after a disc of the given
/// centre and radius was filled with a colour: the rows of a circle drawn by
/// the midpoint method, each row a line from its left end to its right end.
pub uninterp spec fn disc_pixels(
    pixels: Seq<u8>,
    width: int,
    height: int,
    center_x: int,
    center_y: int,
    radius: int,
    rgba: Seq<u8>,
) -> Seq<u8>;

/// The image after a disc was filled; see [`disc_pixels`].
pub open spec fn with_disc(
    view: ImageView,
    center_x: int,
    center_y: int,
    radius: int,
    color: Rgb,
    alpha: u8,
) -> ImageView {
    ImageView {
        width: view.width,
        height: view.height,
        pixels: disc_pixels(
            view.pixels,
            view.width,
            view.height,
            center_x,
            center_y,
            radius,
            seq![color.r, color.g, color.b, alpha],
        ),
    }
}

/// The largest radius of a disc that is drawn: every row of a disc is
/// followed pixel by pixel, inside the image and outside of it.
pub const WIDEST_DISC: i32 = 0x1_0000;

/// Whether a disc can be drawn: its radius is at most [`WIDEST_DISC`], and
/// within reach where it is negative, and every point of it lies within
/// reach. Of a disc with a negative radius nothing is drawn.
pub open spec fn disc_fits(center_x: int, center_y: int, radius: int) -> bool {
    &&& -0x3fff_ffff <= radius <= 0x1_0000
    &&& within_reach(center_x)
    &&& within_reach(center_y)
    &&& (radius > 0 ==> within_reach(center_x - radius) && within_reach(center_x + radius)
        && within_reach(center_y - radius) && within_reach(center_y + radius))
}

/// The bytes of a `width` by `height` image after the outline of a
/// rectangle was drawn on it in a colour, one pixel thick: four lines along
/// its edges.
pub uninterp spec fn outline_pixels(
    pixels: Seq<u8>,
    width: int,
    height: int,
    x: int,
    y: int,
    rect_width: int,
    rect_height: int,
    rgba: Seq<u8>,
) -> Seq<u8>;

/// The image after the outline of a rectangle was drawn; see
/// [`outline_pixels`].
pub open spec fn outlined(
    view: ImageView,
    x: int,
    y: int,
    width: int,
    height: int,
    color: Rgb,
    alpha: u8,
) -> ImageView {
    ImageView {
        width: view.width,
        height: view.height,
        pixels: outline_pixels(
            view.pixels,
            view.width,
            view.height,
            x,
            y,
            width,
            height,
            seq![color.r, color.g, color.b, alpha],
        ),
    }
}

/// Whether the outline of a rectangle can be drawn: the rectangle is not
/// empty, its width and height can be written in 32 signed bits, and its
/// corners lie within reach.
pub open spec fn outline_fits(x: int, y: int, width: int, height: int) -> bool {
    &&& 0 < width <= i32::MAX
    &&& 0 < height <= i32::MAX
    &&& within_reach(x)
    &&& within_reach(y)
    &&& within_reach(x + width)
    &&& within_reach(y + height)
}

/// The bytes of a `width` by `height` image after a triangle with the given
/// corners, each an `(x, y)` pair, was filled with a colour, its edges
/// included.
pub uninterp spec fn triangle_pixels(
    pixels: Seq<u8>,
    width: int,
    height: int,
    first: (int, int),
    second: (int, int),
    third: (int, int),
    rgba: Seq<u8>,
) -> Seq<u8>;

/// The image after a triangle was filled; see [`triangle_pixels`].
pub open spec fn with_triangle(
    view: ImageView,
    first: (int, int),
    second: (int, int),
    third: (int, int),
    color: Rgb,
    alpha: u8,
) -> ImageView {
    ImageView {
        width: view.width,
        height: view.height,
        pixels: triangle_pixels(
            view.pixels,
            view.width,
            view.height,
            first,
            second,
            third,
            seq![color.r, color.g, color.b, alpha],
        ),
    }
}

/// Whether a triangle can be drawn on an image of this size: neither width
/// nor height is more than `i32::MAX`, and the image has rows unless it has
/// no columns either. On an image without columns nothing is drawn.
pub open spec fn triangle_canvas_fits(view: ImageView) -> bool {
    &&& 0 <= view.width <= i32::MAX
    &&& 0 <= view.height <= i32::MAX
    &&& (view.width == 0 || view.height > 0)
}

/// Whether a triangle can be drawn: its corners lie within reach, so that
/// the difference of any two of their coordinates fits in 32 signed bits,
/// and the third is not the same point as the first.
pub open spec fn triangle_fits(first: (int, int), second: (int, int), third: (int, int)) -> bool {
    &&& within_reach(first.0) && within_reach(first.1)
    &&& within_reach(second.0) && within_reach(second.1)
    &&& within_reach(third.0) && within_reach(third.1)
    &&& first != third
}

/// Whether white spreads to pixel `p` of a mask of `width` by `height`
/// pixels, one byte to the pixel, when it is dilated by `reach` pixels: a
/// pixel of the mask that is not black lies at most `reach` columns and at
/// most `reach` rows away. Distances are counted up to the sum of width and
/// height, and to 255 at most, so a reach that is no less than that takes in
/// every pixel.
pub open spec fn spreads_to(mask: Seq<u8>, width: int, height: int, p: int, reach: int) -> bool {
    ||| reach >= width + height
    ||| reach >= 255
    ||| exists|q: int|
        0 <= q < mask.len() && #[trigger] mask[q] != 0 && -reach <= p % width - q % width <= reach
            && -reach <= p / width - q / width <= reach
}

/// The image after every pixel that white spreads to in the dilated mask
/// was given a colour, opaque; see [`spreads_to`].
pub open spec fn mask_painted(view: ImageView, mask: Seq<u8>, reach: int, color: Rgb) -> ImageView {
    ImageView {
        width: view.width,
        height: view.height,
        pixels: Seq::new(
            view.pixels.len(),
            |j: int|
                if spreads_to(mask, view.width, view.height, j / 4, reach) {
                    channel_of(color, 255, j % 4)
                } else {
                    view.pixels[j]
                },
        ),
    }
}

/// The canvas size of a social-media format; an unknown name gives the
/// smallest size.
pub open spec fn social_media_size(name: Seq<char>) -> (int, int) {
    if name == "linkedin_banner"@ {
        (1400, 425)
    } else if name == "pinterest"@ {
        (735, 1102)
    } else if name == "fb_ad"@ {
        (1200, 628)
    } else if name == "fb_post"@ {
        (940, 788)
    } else if name == "instagram_post"@ {
        (1080, 1080)
    } else if name == "twitter_post"@ {
        (1024, 512)
    } else if name == "twitter_header"@ {
        (1500, 500)
    } else {
        (192, 120)
    }
}

/// The width and height, in pixels, of a social-media format.
pub fn social_media_dimensions(name: &str) -> (size: (u32, u32))
    ensures
        (size.0 as int, size.1 as int) == social_media_size(name@),
{
    if text_eq(name, "linkedin_banner") {
        (1400, 425)
    } else if text_eq(name, "pinterest") {
        (735, 1102)
    } else if text_eq(name, "fb_ad") {
        (1200, 628)
    } else if text_eq(name, "fb_post") {
        (940, 788)
    } else if text_eq(name, "instagram_post") {
        (1080, 1080)
    } else if text_eq(name, "twitter_post") {
        (1024, 512)
    } else if text_eq(name, "twitter_header") {
        (1500, 500)
    } else {
        (192, 120)
    }
}

/// The number of bytes of an image of this size, if they can be allocated.
pub fn buffer_len(width: u32, height: u32) -> (len: Option<usize>)
    ensures
        len is Some <==> size_fits(width as int, height as int),
        len matches Some(n) ==> n == 4 * width * height,
{
    assert(width * height <= 0xffff_ffff * 0xffff_ffff) by (nonlinear_arith)
        requires
            0 <= width <= 0xffff_ffff,
            0 <= height <= 0xffff_ffff,
    ;
    assert(4 * width * height == 4 * (width * height)) by (nonlinear_arith);
    let pixels: u64 = width as u64 * height as u64;
    if pixels > (isize::MAX as usize / CHANNELS) as u64 {
        None
    } else {
        Some(CHANNELS * (pixels as usize))
    }
}

impl View for PhotonImage {
    type V = ImageView;

    closed spec fn view(&self) -> ImageView {
        ImageView {
            width: self.width as int,
            height: self.height as int,
            pixels: self.raw_pixels@,
        }
    }
}

impl PhotonImage {
    #[verifier::type_invariant]
    spec fn holds_its_pixels(self) -> bool {
        self.raw_pixels@.len() == 4 * self.width * self.height
    }

    /// The height, in pixels.
    pub fn height(self) -> (h: u32)
        ensures
            h == self@.height,
    {
        self.height
    }

    /// The width, in pixels.
    pub fn width(self) -> (w: u32)
        ensures
            w == self@.width,
    {
        self.width
    }

    /// The width and the height, in pixels.
    pub fn dimensions(&self) -> (size: (u32, u32))
        ensures
            size.0 == self@.width,
            size.1 == self@.height,
            well_formed(self@),
    {
        proof {
            use_type_invariant(self);
        }
        (self.width, self.height)
    }

    /// Whether drawing routines accept this image as a canvas.
    pub fn is_canvas(&self) -> (ok: bool)
        ensures
            ok == canvas_fits(self@),
            well_formed(self@),
    {
        proof {
            use_type_invariant(self);
        }
        0 < self.width && self.width <= i32::MAX as u32 && 0 < self.height && self.height
            <= i32::MAX as u32
    }

    /// Gives the image other pixels, as many as it has.
    pub(crate) fn replace_pixels(&mut self, raw_pixels: Vec<u8>)
        requires
            raw_pixels@.len() == old(self)@.pixels.len(),
        ensures
            final(self)@ == (ImageView {
                width: old(self)@.width,
                height: old(self)@.height,
                pixels: raw_pixels@,
            }),
    {
        proof {
            use_type_invariant(&*self);
        }
        self.raw_pixels = raw_pixels;
    }

    /// The raw pixels, borrowed.
    pub fn as_raw(&self) -> (raw: &Vec<u8>)
        ensures
            raw@ == self@.pixels,
            well_formed(self@),
    {
        proof {
            use_type_invariant(self);
        }
        &self.raw_pixels
    }

    /// The raw pixels, taken out of the image.
    pub fn raw_pix(self) -> (raw: Vec<u8>)
        ensures
            raw@ == self@.pixels,
    {
        self.raw_pixels
    }

    /// Makes an image of raw pixels. Fails with `InvalidInput`, and only
    /// then, where the number of bytes is not four times width times height,
    /// or is more than a buffer can hold.
    pub fn new_from_rawpixels(raw_pixels: Vec<u8>, width: u32, height: u32) -> (res: Result<
        PhotonImage,
        GraphicsError,
    >)
        ensures
            res is Ok <==> raw_pixels@.len() == 4 * width * height && size_fits(
                width as int,
                height as int,
            ),
            res matches Ok(img) ==> img@ == (ImageView {
                width: width as int,
                height: height as int,
                pixels: raw_pixels@,
            }),
            res matches Err(e) ==> e == GraphicsError::InvalidInput,
    {
        let given: usize = raw_pixels.len();
        match buffer_len(width, height) {
            Some(len) => {
                if given == len {
                    Ok(PhotonImage { raw_pixels, width, height })
                } else {
                    Err(GraphicsError::InvalidInput)
                }
            },
            None => Err(GraphicsError::InvalidInput),
        }
    }

    /// Makes an image filled with one opaque colour. Fails with
    /// `InvalidInput`, and only then, where the bytes of the image are more
    /// than a buffer can hold.
    pub fn new_with_background(width: u32, height: u32, background_color: Rgb) -> (res: Result<
        PhotonImage,
        GraphicsError,
    >)
        ensures
            res is Ok <==> size_fits(width as int, height as int),
            res matches Ok(img) ==> img@ == solid_view(
                width as int,
                height as int,
                background_color,
                255,
            ),
            res matches Err(e) ==> e == GraphicsError::InvalidInput,
    {
        match buffer_len(width, height) {
            Some(len) => {
                let raw_pixels = solid_pixels(width, height, background_color, 255);
                assert(raw_pixels@ =~= solid_view(
                    width as int,
                    height as int,
                    background_color,
                    255,
                ).pixels);
                Ok(PhotonImage { raw_pixels, width, height })
            },
            None => Err(GraphicsError::InvalidInput),
        }
    }

    /// Reserved for patterned backgrounds; it makes nothing yet.
    pub fn new_with_pattern(width: u32, height: u32, background_color: Rgb) {
    }

    /// Makes a transparent canvas of the size of a social-media format:
    /// `linkedin_banner`, `pinterest`, `fb_ad`, `fb_post`, `instagram_post`,
    /// `twitter_post` or `twitter_header`. Any other name gives a canvas of
    /// 192 by 120 pixels.
    pub fn new_socialmedia_graphic(name: &str) -> (img: PhotonImage)
        ensures
            img@ == blank_view(social_media_size(name@).0, social_media_size(name@).1),
    {
        let (width, height) = social_media_dimensions(name);
        assert(4 * width * height <= 4 * 1500 * 1102) by (nonlinear_arith)
            requires
                0 <= width <= 1500,
                0 <= height <= 1102,
        ;
        let raw_pixels = blank_pixels(width, height);
        assert(raw_pixels@ =~= blank_view(width as int, height as int).pixels);
        PhotonImage { raw_pixels, width, height }
    }
}

} // verus!
