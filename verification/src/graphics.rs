//! Images laid on images.

use vstd::prelude::*;
use crate::color::Rgb;
use crate::error::GraphicsError;
use crate::image::{
    buffer_len, lemma_pixel_in_image, overlaid, size_fits, solid_view, ImageView, PhotonImage,
};
use crate::raster::{overlay, solid_pixels};

verus! {

/// The alpha value of an image that [`create_image`] makes.
pub const CREATED_ALPHA: u8 = 100;

/// Makes an image filled with one colour, translucent at an alpha value of
/// [`CREATED_ALPHA`]. Fails with `InvalidInput`, and only then, where the
/// bytes of the image are more than a buffer can hold.
pub fn create_image(width: u32, height: u32, background_color: Rgb) -> (res: Result<
    PhotonImage,
    GraphicsError,
>)
    ensures
        res is Ok <==> size_fits(width as int, height as int),
        res matches Ok(img) ==> img@ == solid_view(
            width as int,
            height as int,
            background_color,
            100,
        ),
        res matches Err(e) ==> e == GraphicsError::InvalidInput,
{
    match buffer_len(width, height) {
        Some(len) => {
            let raw_pixels = solid_pixels(width, height, background_color, CREATED_ALPHA);
            assert(raw_pixels@ =~= solid_view(
                width as int,
                height as int,
                background_color,
                100,
            ).pixels);
            match PhotonImage::new_from_rawpixels(raw_pixels, width, height) {
                Ok(img) => Ok(img),
                Err(e) => Err(e),
            }
        },
        None => Err(GraphicsError::InvalidInput),
    }
}

/// Draws an image onto a container image, with its top-left corner at
/// column `x_pos`, row `y_pos`. Pixels are blended by their alpha value.
pub fn draw_photonimage(
    container_img: &mut PhotonImage,
    photon_img: &PhotonImage,
    x_pos: u32,
    y_pos: u32,
)
    ensures
        final(container_img)@ == overlaid(
            old(container_img)@,
            photon_img@,
            x_pos as int,
            y_pos as int,
        ),
{
    overlay(container_img, photon_img, x_pos, y_pos);
    assert(container_img@.pixels =~= overlaid(
        old(container_img)@,
        photon_img@,
        x_pos as int,
        y_pos as int,
    ).pixels);
}

/// Lays an image over a container image, with its top-left corner at column
/// `x`, row `y`, which may lie far outside of the container.
pub fn lay_over(container_img: &mut PhotonImage, photon_img: &PhotonImage, x: u64, y: u64)
    ensures
        final(container_img)@ == overlaid(old(container_img)@, photon_img@, x as int, y as int),
{
    let (width, height) = container_img.dimensions();
    if x <= width as u64 && y <= height as u64 {
        draw_photonimage(container_img, photon_img, x as u32, y as u32);
    } else {
        assert(container_img@.pixels =~= overlaid(
            container_img@,
            photon_img@,
            x as int,
            y as int,
        ).pixels) by {
            lemma_pixel_in_image(container_img@);
        }
    }
}

/// The image with a border of the given width and colour around it.
pub open spec fn bordered(view: ImageView, width: int, color: Rgb) -> ImageView {
    overlaid(
        solid_view(view.width + 2 * width, view.height + 2 * width, color, 255),
        view,
        width,
        width,
    )
}

/// Whether an image can be given a border of this width: the larger image
/// has a width and a height that fit in 32 bits, and bytes that a buffer can
/// hold.
pub open spec fn border_fits(view: ImageView, width: int) -> bool {
    &&& view.width + 2 * width <= u32::MAX
    &&& view.height + 2 * width <= u32::MAX
    &&& size_fits(view.width + 2 * width, view.height + 2 * width)
}

/// Draws a border around an image: the image grows by the width of the
/// border on every side.
///
/// Fails with `InvalidInput`, and only then, where the larger image does not
/// fit, as [`border_fits`] says. The image is then left as it was.
pub fn draw_border(photon_img: &mut PhotonImage, width: u32, background_color: &Rgb) -> (res:
    Result<(), GraphicsError>)
    ensures
        res is Ok <==> border_fits(old(photon_img)@, width as int),
        res is Ok ==> final(photon_img)@ == bordered(
            old(photon_img)@,
            width as int,
            *background_color,
        ),
        res is Err ==> final(photon_img)@ == old(photon_img)@,
        res matches Err(e) ==> e == GraphicsError::InvalidInput,
{
    let (inner_width, inner_height) = photon_img.dimensions();
    let outer_width: u64 = inner_width as u64 + 2 * width as u64;
    let outer_height: u64 = inner_height as u64 + 2 * width as u64;
    if outer_width > u32::MAX as u64 || outer_height > u32::MAX as u64 {
        return Err(GraphicsError::InvalidInput);
    }
    let made = PhotonImage::new_with_background(
        outer_width as u32,
        outer_height as u32,
        *background_color,
    );
    match made {
        Ok(mut container_img) => {
            draw_photonimage(&mut container_img, photon_img, width, width);
            *photon_img = container_img;
            Ok(())
        },
        Err(e) => Err(e),
    }
}

} // verus!
