//! Collages: several pictures brought to size and laid side by side on one
//! canvas, some with a panel for text.
//!
//! A collage with text returns the picture together with the captions to
//! render on it.

use vstd::prelude::*;
use crate::color::Rgb;
use crate::diagrams::draw_image_as_bar;
use crate::elements::draw_solid_rect;
use crate::error::GraphicsError;
use crate::image::{
    blank_view, buffer_len, filled, overlaid, resize_fits, resized, size_fits, ImageView,
    PhotonImage,
};
use crate::presets::{black, line_row, row_of_line, spec_black, spec_white, white};
use crate::raster::{blank_pixels, split_words};
use crate::resize::resize;
use crate::text::{
    is_caption, percent_of, share, views_of, whitespace_words, Caption, FontFace,
};

verus! {

/// The canvas after a picture was brought to a size and laid over it.
pub open spec fn placed(
    view: ImageView,
    picture: ImageView,
    width: int,
    height: int,
    x: int,
    y: int,
) -> ImageView {
    overlaid(view, resized(picture, width, height), x, y)
}

/// Makes a transparent canvas. Fails with `InvalidInput`, and only then,
/// where its bytes are more than a buffer can hold.
pub fn blank_canvas(width: u32, height: u32) -> (res: Result<PhotonImage, GraphicsError>)
    ensures
        res is Ok <==> size_fits(width as int, height as int),
        res matches Ok(img) ==> img@ == blank_view(width as int, height as int),
        res matches Err(e) ==> e == GraphicsError::InvalidInput,
{
    match buffer_len(width, height) {
        Some(len) => {
            let raw_pixels = blank_pixels(width, height);
            assert(raw_pixels@ =~= blank_view(width as int, height as int).pixels);
            match PhotonImage::new_from_rawpixels(raw_pixels, width, height) {
                Ok(img) => Ok(img),
                Err(e) => Err(e),
            }
        },
        None => Err(GraphicsError::InvalidInput),
    }
}

/// Brings every picture to the same size, in order.
///
/// Fails with `InvalidInput`, and only then, where one of the pictures
/// cannot be brought to the size.
pub fn resize_imgs(imgs: &Vec<PhotonImage>, img_width: u32, img_height: u32) -> (res: Result<
    Vec<PhotonImage>,
    GraphicsError,
>)
    ensures
        res is Ok <==> forall|i: int|
            0 <= i < imgs@.len() ==> resize_fits(
                #[trigger] imgs@[i]@,
                img_width as int,
                img_height as int,
            ),
        res matches Ok(out) ==> {
            &&& out@.len() == imgs@.len()
            &&& forall|i: int|
                0 <= i < out@.len() ==> (#[trigger] out@[i])@ == resized(
                    imgs@[i]@,
                    img_width as int,
                    img_height as int,
                )
        },
        res matches Err(e) ==> e == GraphicsError::InvalidInput,
{
    let mut resized_imgs: Vec<PhotonImage> = Vec::new();
    let mut i: usize = 0;
    while i < imgs.len()
        invariant
            i <= imgs@.len(),
            resized_imgs@.len() == i,
            forall|j: int|
                0 <= j < i ==> resize_fits(
                    #[trigger] imgs@[j]@,
                    img_width as int,
                    img_height as int,
                ),
            forall|j: int|
                0 <= j < i ==> (#[trigger] resized_imgs@[j])@ == resized(
                    imgs@[j]@,
                    img_width as int,
                    img_height as int,
                ),
        decreases imgs@.len() - i,
    {
        match resize(&imgs[i], img_width, img_height) {
            Ok(image) => {
                resized_imgs.push(image);
            },
            Err(e) => {
                return Err(e);
            },
        }
        i += 1;
    }
    Ok(resized_imgs)
}

/// The collage of two pictures side by side, each half as wide as the
/// canvas and as high.
pub open spec fn two_grid_view(a: ImageView, b: ImageView, width: int, height: int) -> ImageView {
    let w = width / 2;
    placed(placed(blank_view(width, height), a, w, height, 0, 0), b, w, height, w, 0)
}

/// Two pictures side by side.
///
/// Fails with `InvalidInput`, and only then, where the canvas is more than a
/// buffer can hold or a picture cannot be brought to half its width.
pub fn two_grid(photon_img: &PhotonImage, photon_img2: &PhotonImage, width: u32, height: u32) -> (res:
    Result<PhotonImage, GraphicsError>)
    ensures
        res is Ok <==> size_fits(width as int, height as int) && resize_fits(
            photon_img@,
            (width / 2) as int,
            height as int,
        ) && resize_fits(photon_img2@, (width / 2) as int, height as int),
        res matches Ok(out) ==> out@ == two_grid_view(
            photon_img@,
            photon_img2@,
            width as int,
            height as int,
        ),
        res matches Err(e) ==> e == GraphicsError::InvalidInput,
{
    let img_width: u32 = width / 2;
    let mut container_img = blank_canvas(width, height)?;
    draw_image_as_bar(&mut container_img, photon_img, img_width, height, 0, 0)?;
    draw_image_as_bar(&mut container_img, photon_img2, img_width, height, img_width, 0)?;
    Ok(container_img)
}

/// The collage of four pictures in two rows of two, each half as wide and
/// half as high as the canvas.
pub open spec fn four_grid_view(
    a: ImageView,
    b: ImageView,
    c: ImageView,
    d: ImageView,
    width: int,
    height: int,
) -> ImageView {
    let w = width / 2;
    let h = height / 2;
    placed(
        placed(placed(placed(blank_view(width, height), a, w, h, 0, 0), b, w, h, w, 0), c, w, h, 0, h),
        d,
        w,
        h,
        w,
        h,
    )
}

/// Whether each of four pictures can be brought to a size.
pub open spec fn four_fit(
    a: ImageView,
    b: ImageView,
    c: ImageView,
    d: ImageView,
    width: int,
    height: int,
) -> bool {
    &&& resize_fits(a, width, height)
    &&& resize_fits(b, width, height)
    &&& resize_fits(c, width, height)
    &&& resize_fits(d, width, height)
}

/// Four pictures in two rows of two.
///
/// Fails with `InvalidInput`, and only then, where the canvas is more than a
/// buffer can hold or a picture cannot be brought to a quarter of it.
pub fn four_grid(
    photon_img: &PhotonImage,
    photon_img2: &PhotonImage,
    photon_img3: &PhotonImage,
    photon_img4: &PhotonImage,
    width: u32,
    height: u32,
) -> (res: Result<PhotonImage, GraphicsError>)
    ensures
        res is Ok <==> size_fits(width as int, height as int) && four_fit(
            photon_img@,
            photon_img2@,
            photon_img3@,
            photon_img4@,
            (width / 2) as int,
            (height / 2) as int,
        ),
        res matches Ok(out) ==> out@ == four_grid_view(
            photon_img@,
            photon_img2@,
            photon_img3@,
            photon_img4@,
            width as int,
            height as int,
        ),
        res matches Err(e) ==> e == GraphicsError::InvalidInput,
{
    let img_width: u32 = width / 2;
    let img_height: u32 = height / 2;
    let mut container_img = blank_canvas(width, height)?;
    draw_image_as_bar(&mut container_img, photon_img, img_width, img_height, 0, 0)?;
    draw_image_as_bar(&mut container_img, photon_img2, img_width, img_height, img_width, 0)?;
    draw_image_as_bar(&mut container_img, photon_img3, img_width, img_height, 0, img_height)?;
    draw_image_as_bar(
        &mut container_img,
        photon_img4,
        img_width,
        img_height,
        img_width,
        img_height,
    )?;
    Ok(container_img)
}

/// The collage of three pictures side by side, each a third as wide as the
/// canvas and `img_height` high.
pub open spec fn triple_grid_view(
    a: ImageView,
    b: ImageView,
    c: ImageView,
    width: int,
    height: int,
    img_height: int,
) -> ImageView {
    let w = width / 3;
    placed(
        placed(placed(blank_view(width, height), a, w, img_height, 0, 0), b, w, img_height, w, 0),
        c,
        w,
        img_height,
        2 * w,
        0,
    )
}

/// Whether each of three pictures can be brought to a size.
pub open spec fn three_fit(a: ImageView, b: ImageView, c: ImageView, width: int, height: int) -> bool {
    &&& resize_fits(a, width, height)
    &&& resize_fits(b, width, height)
    &&& resize_fits(c, width, height)
}

/// Lays three pictures side by side on a new canvas; see
/// [`triple_grid_view`].
fn three_across(
    photon_img: &PhotonImage,
    photon_img2: &PhotonImage,
    photon_img3: &PhotonImage,
    width: u32,
    height: u32,
    img_height: u32,
) -> (res: Result<PhotonImage, GraphicsError>)
    ensures
        res is Ok <==> size_fits(width as int, height as int) && three_fit(
            photon_img@,
            photon_img2@,
            photon_img3@,
            (width / 3) as int,
            img_height as int,
        ),
        res matches Ok(out) ==> out@ == triple_grid_view(
            photon_img@,
            photon_img2@,
            photon_img3@,
            width as int,
            height as int,
            img_height as int,
        ),
        res matches Err(e) ==> e == GraphicsError::InvalidInput,
{
    let img_width: u32 = width / 3;
    let mut container_img = blank_canvas(width, height)?;
    draw_image_as_bar(&mut container_img, photon_img, img_width, img_height, 0, 0)?;
    draw_image_as_bar(&mut container_img, photon_img2, img_width, img_height, img_width, 0)?;
    draw_image_as_bar(&mut container_img, photon_img3, img_width, img_height, img_width * 2, 0)?;
    Ok(container_img)
}

/// Three pictures side by side, as high as the canvas.
///
/// Fails with `InvalidInput`, and only then, where the canvas is more than a
/// buffer can hold or a picture cannot be brought to a third of its width.
pub fn triple_grid(
    photon_img: &PhotonImage,
    photon_img2: &PhotonImage,
    photon_img3: &PhotonImage,
    width: u32,
    height: u32,
) -> (res: Result<PhotonImage, GraphicsError>)
    ensures
        res is Ok <==> size_fits(width as int, height as int) && three_fit(
            photon_img@,
            photon_img2@,
            photon_img3@,
            (width / 3) as int,
            height as int,
        ),
        res matches Ok(out) ==> out@ == triple_grid_view(
            photon_img@,
            photon_img2@,
            photon_img3@,
            width as int,
            height as int,
            height as int,
        ),
        res matches Err(e) ==> e == GraphicsError::InvalidInput,
{
    three_across(photon_img, photon_img2, photon_img3, width, height, height)
}

/// The panel for text that several collages share: a white rectangle as
/// wide as the canvas and three tenths of its height high, three quarters of
/// the height down.
pub open spec fn with_text_panel(view: ImageView) -> ImageView {
    filled(view, 0, share(view.height, 75), view.width, share(view.height, 30), spec_white(), 255)
}

/// Whether the panel for text can be drawn on a canvas of this size: the
/// canvas is neither empty nor wider than `i32::MAX`, at least four pixels
/// high, and the panel ends at or before row `i32::MAX`.
pub open spec fn text_panel_fits(width: int, height: int) -> bool {
    &&& 0 < width <= i32::MAX
    &&& 4 <= height <= i32::MAX
    &&& share(height, 75) + share(height, 30) <= i32::MAX
}

/// Draws the panel for text; see [`with_text_panel`].
fn draw_text_panel(img: &mut PhotonImage) -> (res: Result<(), GraphicsError>)
    ensures
        res is Ok <==> text_panel_fits(old(img)@.width, old(img)@.height),
        res is Ok ==> final(img)@ == with_text_panel(old(img)@),
        res is Err ==> final(img)@ == old(img)@,
        res matches Err(e) ==> e == GraphicsError::InvalidInput,
{
    let (width, height) = img.dimensions();
    let top: u32 = percent_of(height, 75);
    if top > i32::MAX as u32 {
        return Err(GraphicsError::InvalidInput);
    }
    draw_solid_rect(img, &white(), width, percent_of(height, 30), 0, top as i32)
}

/// Three pictures side by side, four fifths of the canvas high, above a
/// panel for text, and the caption to render on the panel: black
/// `Montserrat-Regular` at size 90, a twentieth of the width in and four
/// fifths of the height down.
///
/// Fails with `InvalidInput`, and only then, where the canvas is more than a
/// buffer can hold, a picture cannot be brought to its size, or the panel
/// cannot be drawn.
pub fn triple_grid_text(
    photon_img: &PhotonImage,
    photon_img2: &PhotonImage,
    photon_img3: &PhotonImage,
    text: &str,
    width: u32,
    height: u32,
) -> (res: Result<(PhotonImage, Caption), GraphicsError>)
    ensures
        res is Ok <==> size_fits(width as int, height as int) && three_fit(
            photon_img@,
            photon_img2@,
            photon_img3@,
            (width / 3) as int,
            share(height as int, 80),
        ) && text_panel_fits(width as int, height as int),
        res matches Ok(out) ==> {
            &&& out.0@ == with_text_panel(
                triple_grid_view(
                    photon_img@,
                    photon_img2@,
                    photon_img3@,
                    width as int,
                    height as int,
                    share(height as int, 80),
                ),
            )
            &&& is_caption(
                out.1,
                text@,
                share(width as int, 5),
                share(height as int, 80),
                FontFace::MontserratRegular,
                90,
                spec_black(),
            )
        },
        res matches Err(e) ==> e == GraphicsError::InvalidInput,
{
    let img_height: u32 = percent_of(height, 80);
    let mut container_img = three_across(
        photon_img,
        photon_img2,
        photon_img3,
        width,
        height,
        img_height,
    )?;
    draw_text_panel(&mut container_img)?;
    let caption = Caption::new(
        text,
        percent_of(width, 5),
        percent_of(height, 80),
        FontFace::MontserratRegular,
        90,
        black(),
    );
    Ok((container_img, caption))
}

/// The collage of a mood board: one large picture, three quarters of the
/// canvas wide and four fifths high, three small ones in a column to its
/// right, each a quarter of the canvas wide and high, and the panel for
/// text.
pub open spec fn moodboard_view(
    a: ImageView,
    b: ImageView,
    c: ImageView,
    d: ImageView,
    width: int,
    height: int,
) -> ImageView {
    let w = width / 4;
    let h = height / 4;
    let first = width - w;
    with_text_panel(
        placed(
            placed(
                placed(
                    placed(blank_view(width, height), a, first, share(height, 80), 0, 0),
                    b,
                    w,
                    h,
                    first,
                    0,
                ),
                c,
                w,
                h,
                first,
                h,
            ),
            d,
            w,
            h,
            first,
            2 * h,
        ),
    )
}

/// A mood board of four pictures, and the caption to render on its panel:
/// black `Oswald-Regular` at size 100, a tenth of the width in and three
/// quarters of the height down.
///
/// Fails with `InvalidInput`, and only then, where the canvas is more than a
/// buffer can hold, a picture cannot be brought to its size, or the panel
/// cannot be drawn.
pub fn moodboard(
    photon_img: &PhotonImage,
    photon_img2: &PhotonImage,
    photon_img3: &PhotonImage,
    photon_img4: &PhotonImage,
    text: &str,
    width: u32,
    height: u32,
) -> (res: Result<(PhotonImage, Caption), GraphicsError>)
    ensures
        res is Ok <==> size_fits(width as int, height as int) && resize_fits(
            photon_img@,
            width - (width / 4) as int,
            share(height as int, 80),
        ) && three_fit(photon_img2@, photon_img3@, photon_img4@, (width / 4) as int, (height / 4) as int)
            && text_panel_fits(width as int, height as int),
        res matches Ok(out) ==> {
            &&& out.0@ == moodboard_view(
                photon_img@,
                photon_img2@,
                photon_img3@,
                photon_img4@,
                width as int,
                height as int,
            )
            &&& is_caption(
                out.1,
                text@,
                share(width as int, 10),
                share(height as int, 75),
                FontFace::OswaldRegular,
                100,
                spec_black(),
            )
        },
        res matches Err(e) ==> e == GraphicsError::InvalidInput,
{
    let img_width: u32 = width / 4;
    let img_height: u32 = height / 4;
    let first_img_width: u32 = width - img_width;
    let mut container_img = blank_canvas(width, height)?;
    draw_image_as_bar(
        &mut container_img,
        photon_img,
        first_img_width,
        percent_of(height, 80),
        0,
        0,
    )?;
    draw_image_as_bar(&mut container_img, photon_img2, img_width, img_height, first_img_width, 0)?;
    draw_image_as_bar(
        &mut container_img,
        photon_img3,
        img_width,
        img_height,
        first_img_width,
        img_height,
    )?;
    draw_image_as_bar(
        &mut container_img,
        photon_img4,
        img_width,
        img_height,
        first_img_width,
        img_height * 2,
    )?;
    draw_text_panel(&mut container_img)?;
    let caption = Caption::new(
        text,
        percent_of(width, 10),
        percent_of(height, 75),
        FontFace::OswaldRegular,
        100,
        black(),
    );
    Ok((container_img, caption))
}

/// The collage of a feature grid: a white quarter at the top left for the
/// text, and three pictures in the other quarters.
pub open spec fn feature_grid_view(
    a: ImageView,
    b: ImageView,
    c: ImageView,
    width: int,
    height: int,
) -> ImageView {
    let w = width / 2;
    let h = height / 2;
    placed(
        placed(
            placed(filled(blank_view(width, height), 0, 0, w, h, spec_white(), 255), a, w, h, w, 0),
            b,
            w,
            h,
            0,
            h,
        ),
        c,
        w,
        h,
        w,
        h,
    )
}

/// A feature grid of three pictures, and the caption to render in its white
/// quarter: black `BebasKai` at size 100, a tenth of the width in and three
/// tenths of the height down.
///
/// Fails with `InvalidInput`, and only then, where the canvas is more than a
/// buffer can hold, narrower or lower than two pixels, or wider or higher
/// than `i32::MAX`, or a picture cannot be brought to a quarter of it.
pub fn feature_grid(
    photon_img: &PhotonImage,
    photon_img2: &PhotonImage,
    photon_img3: &PhotonImage,
    main_text: &str,
    width: u32,
    height: u32,
) -> (res: Result<(PhotonImage, Caption), GraphicsError>)
    ensures
        res is Ok <==> size_fits(width as int, height as int) && 2 <= width <= i32::MAX && 2
            <= height <= i32::MAX && three_fit(
            photon_img@,
            photon_img2@,
            photon_img3@,
            (width / 2) as int,
            (height / 2) as int,
        ),
        res matches Ok(out) ==> {
            &&& out.0@ == feature_grid_view(
                photon_img@,
                photon_img2@,
                photon_img3@,
                width as int,
                height as int,
            )
            &&& is_caption(
                out.1,
                main_text@,
                share(width as int, 10),
                share(height as int, 30),
                FontFace::BebasKai,
                100,
                spec_black(),
            )
        },
        res matches Err(e) ==> e == GraphicsError::InvalidInput,
{
    let img_width: u32 = width / 2;
    let img_height: u32 = height / 2;
    let mut container_img = blank_canvas(width, height)?;
    draw_solid_rect(&mut container_img, &white(), img_width, img_height, 0, 0)?;
    draw_image_as_bar(&mut container_img, photon_img, img_width, img_height, img_width, 0)?;
    draw_image_as_bar(&mut container_img, photon_img2, img_width, img_height, 0, img_height)?;
    draw_image_as_bar(
        &mut container_img,
        photon_img3,
        img_width,
        img_height,
        img_width,
        img_height,
    )?;
    let caption = Caption::new(
        main_text,
        percent_of(width, 10),
        percent_of(height, 30),
        FontFace::BebasKai,
        100,
        black(),
    );
    Ok((container_img, caption))
}

/// The yellow panel of [`two_grid_text`].
pub open spec fn spec_yellow() -> Rgb {
    Rgb { r: 255, g: 226, b: 98 }
}

/// The lilac panel of [`two_grid_text`].
pub open spec fn spec_lilac() -> Rgb {
    Rgb { r: 204, g: 195, b: 240 }
}

/// The collage of two pictures on a diagonal, top left and bottom right,
/// each a quarter of the canvas, with a yellow panel at the top right and a
/// lilac one at the bottom left. A panel is as wide as a picture is high and
/// as high as a picture is wide.
pub open spec fn two_grid_text_view(a: ImageView, b: ImageView, width: int, height: int) -> ImageView {
    let w = width / 2;
    let h = height / 2;
    filled(
        filled(
            placed(placed(blank_view(width, height), a, w, h, 0, 0), b, w, h, w, h),
            w,
            0,
            h,
            w,
            spec_yellow(),
            255,
        ),
        0,
        h,
        h,
        w,
        spec_lilac(),
        255,
    )
}

/// Whether the panels of a collage with two pictures can be drawn on a
/// canvas of this size: it is at least two pixels wide and high and no wider
/// or higher than `i32::MAX`.
pub open spec fn panels_fit(width: int, height: int) -> bool {
    &&& 2 <= width <= i32::MAX
    &&& 2 <= height <= i32::MAX
}

/// Two pictures on a diagonal with two coloured panels, and the caption to
/// render on the yellow one: `Daisies In the Underground` in white
/// `Roboto-Bold` at size 30, thirty pixels into the panel and a quarter of
/// the height down.
///
/// Fails with `InvalidInput`, and only then, where the canvas is more than a
/// buffer can hold, a picture cannot be brought to a quarter of it, or the
/// panels cannot be drawn.
pub fn two_grid_text(image: &PhotonImage, image2: &PhotonImage, width: u32, height: u32) -> (res:
    Result<(PhotonImage, Caption), GraphicsError>)
    ensures
        res is Ok <==> size_fits(width as int, height as int) && resize_fits(
            image@,
            (width / 2) as int,
            (height / 2) as int,
        ) && resize_fits(image2@, (width / 2) as int, (height / 2) as int) && panels_fit(
            width as int,
            height as int,
        ),
        res matches Ok(out) ==> {
            &&& out.0@ == two_grid_text_view(image@, image2@, width as int, height as int)
            &&& is_caption(
                out.1,
                "Daisies In the Underground"@,
                width / 2 + 30,
                ((height / 2) / 2) as int,
                FontFace::RobotoBold,
                30,
                spec_white(),
            )
        },
        res matches Err(e) ==> e == GraphicsError::InvalidInput,
{
    let img_width: u32 = width / 2;
    let img_height: u32 = height / 2;
    let mut container_img = blank_canvas(width, height)?;
    draw_image_as_bar(&mut container_img, image, img_width, img_height, 0, 0)?;
    draw_image_as_bar(&mut container_img, image2, img_width, img_height, img_width, img_height)?;
    let lilac = Rgb { r: 204, g: 195, b: 240 };
    let yellow = Rgb { r: 255, g: 226, b: 98 };
    if img_width > i32::MAX as u32 || img_height > i32::MAX as u32 {
        return Err(GraphicsError::InvalidInput);
    }
    draw_solid_rect(&mut container_img, &yellow, img_height, img_width, img_width as i32, 0)?;
    draw_solid_rect(&mut container_img, &lilac, img_height, img_width, 0, img_height as i32)?;
    let caption = Caption::new(
        "Daisies In the Underground",
        img_width + 30,
        img_height / 2,
        FontFace::RobotoBold,
        30,
        white(),
    );
    Ok((container_img, caption))
}

/// The collage of two pictures one above the other in the right half of the
/// canvas, each a quarter of it, with a white panel at the top left, as
/// wide as the canvas is high, less one pixel where that is odd, and as high
/// as a picture is wide.
pub open spec fn split_imgs_text_view(a: ImageView, b: ImageView, width: int, height: int) -> ImageView {
    let w = width / 2;
    let h = height / 2;
    filled(
        placed(placed(blank_view(width, height), a, w, h, w, 0), b, w, h, w, h),
        0,
        0,
        2 * h,
        w,
        spec_white(),
        255,
    )
}

/// Two pictures in the right half of the canvas beside a white panel, and
/// the caption to render on the panel: `Life Is An Adventure` in white
/// `BebasKai` at size 80, 45 pixels in and a quarter of the height down.
///
/// Fails with `InvalidInput`, and only then, where the canvas is more than a
/// buffer can hold, a picture cannot be brought to a quarter of it, or the
/// panel cannot be drawn.
pub fn split_imgs_text(image: &PhotonImage, image2: &PhotonImage, width: u32, height: u32) -> (res:
    Result<(PhotonImage, Caption), GraphicsError>)
    ensures
        res is Ok <==> size_fits(width as int, height as int) && resize_fits(
            image@,
            (width / 2) as int,
            (height / 2) as int,
        ) && resize_fits(image2@, (width / 2) as int, (height / 2) as int) && panels_fit(
            width as int,
            height as int,
        ),
        res matches Ok(out) ==> {
            &&& out.0@ == split_imgs_text_view(image@, image2@, width as int, height as int)
            &&& is_caption(
                out.1,
                "Life Is An Adventure"@,
                45,
                ((height / 2) / 2) as int,
                FontFace::BebasKai,
                80,
                spec_white(),
            )
        },
        res matches Err(e) ==> e == GraphicsError::InvalidInput,
{
    let img_width: u32 = width / 2;
    let img_height: u32 = height / 2;
    let mut container_img = blank_canvas(width, height)?;
    draw_image_as_bar(&mut container_img, image, img_width, img_height, img_width, 0)?;
    draw_image_as_bar(&mut container_img, image2, img_width, img_height, img_width, img_height)?;
    draw_solid_rect(&mut container_img, &white(), img_height * 2, img_width, 0, 0)?;
    let caption = Caption::new(
        "Life Is An Adventure",
        45,
        img_height / 2,
        FontFace::BebasKai,
        80,
        white(),
    );
    Ok((container_img, caption))
}

/// The collage of four pictures with a white square over their middle:
/// three tenths of the canvas wide and four fifths high, three tenths of the
/// width in and 15 hundredths of the height down.
pub open spec fn center_square_view(
    a: ImageView,
    b: ImageView,
    c: ImageView,
    d: ImageView,
    width: int,
    height: int,
) -> ImageView {
    filled(
        four_grid_view(a, b, c, d, width, height),
        share(width, 30),
        share(height, 15),
        share(width, 30),
        share(height, 80),
        spec_white(),
        255,
    )
}

/// Whether the square over the middle can be drawn on a canvas of this size:
/// the canvas is no wider or higher than `i32::MAX`, at least four pixels
/// wide and two pixels high.
pub open spec fn center_square_fits(width: int, height: int) -> bool {
    &&& 4 <= width <= i32::MAX
    &&& 2 <= height <= i32::MAX
}

/// Whether `captions` set one word to a line in the square over the middle:
/// black `BebasKai` at size 100, 32 hundredths of the width in, the first
/// word a fifth of the height down and the words 15 hundredths apart.
pub open spec fn are_word_captions(
    captions: Seq<Caption>,
    words: Seq<Seq<char>>,
    width: int,
    height: int,
) -> bool {
    &&& captions.len() == words.len()
    &&& forall|k: int|
        0 <= k < captions.len() ==> is_caption(
            #[trigger] captions[k],
            words[k],
            share(width, 32),
            line_row(height, 20, 15, k),
            FontFace::BebasKai,
            100,
            spec_black(),
        )
}

/// Sets one word to a line; see [`are_word_captions`].
pub fn word_captions(words: &Vec<String>, width: u32, height: u32) -> (captions: Vec<Caption>)
    ensures
        are_word_captions(captions@, views_of(words@), width as int, height as int),
{
    let mut captions: Vec<Caption> = Vec::new();
    let mut k: usize = 0;
    while k < words.len()
        invariant
            k <= words@.len(),
            captions@.len() == k,
            forall|m: int|
                0 <= m < k ==> is_caption(
                    #[trigger] captions@[m],
                    views_of(words@)[m],
                    share(width as int, 32),
                    line_row(height as int, 20, 15, m),
                    FontFace::BebasKai,
                    100,
                    spec_black(),
                ),
        decreases words@.len() - k,
    {
        captions.push(
            Caption::new(
                words[k].as_str(),
                percent_of(width, 32),
                row_of_line(height, 20, 15, k),
                FontFace::BebasKai,
                100,
                black(),
            ),
        );
        k += 1;
    }
    captions
}

/// Four pictures with a white square over their middle, and the captions to
/// render in the square, one for each word of the text.
///
/// Fails with `InvalidInput`, and only then, where the canvas is more than a
/// buffer can hold, a picture cannot be brought to a quarter of it, or the
/// square cannot be drawn.
pub fn four_grid_center_square(
    photon_img: &PhotonImage,
    photon_img2: &PhotonImage,
    photon_img3: &PhotonImage,
    photon_img4: &PhotonImage,
    text: &str,
    width: u32,
    height: u32,
) -> (res: Result<(PhotonImage, Vec<Caption>), GraphicsError>)
    ensures
        res is Ok <==> size_fits(width as int, height as int) && four_fit(
            photon_img@,
            photon_img2@,
            photon_img3@,
            photon_img4@,
            (width / 2) as int,
            (height / 2) as int,
        ) && center_square_fits(width as int, height as int),
        res matches Ok(out) ==> {
            &&& out.0@ == center_square_view(
                photon_img@,
                photon_img2@,
                photon_img3@,
                photon_img4@,
                width as int,
                height as int,
            )
            &&& are_word_captions(out.1@, whitespace_words(text@), width as int, height as int)
        },
        res matches Err(e) ==> e == GraphicsError::InvalidInput,
{
    let mut container_img = four_grid(
        photon_img,
        photon_img2,
        photon_img3,
        photon_img4,
        width,
        height,
    )?;
    let left: u32 = percent_of(width, 30);
    let top: u32 = percent_of(height, 15);
    if left > i32::MAX as u32 || top > i32::MAX as u32 {
        return Err(GraphicsError::InvalidInput);
    }
    draw_solid_rect(
        &mut container_img,
        &white(),
        percent_of(width, 30),
        percent_of(height, 80),
        left as i32,
        top as i32,
    )?;
    let word_vec = split_words(text);
    assert(views_of(word_vec@) =~= whitespace_words(text@));
    let captions = word_captions(&word_vec, width, height);
    Ok((container_img, captions))
}

/// The collage of six pictures, three in the top third of the canvas and
/// three in the bottom third, with a white band for text across the middle.
/// Each picture is a third of the canvas wide and high.
pub open spec fn six_grid_view(
    a: ImageView,
    b: ImageView,
    c: ImageView,
    d: ImageView,
    e: ImageView,
    f: ImageView,
    width: int,
    height: int,
) -> ImageView {
    let w = width / 3;
    let h = height / 3;
    filled(
        placed(
            placed(
                placed(triple_grid_view(a, b, c, width, height, h), d, w, h, 0, 2 * h),
                e,
                w,
                h,
                w,
                2 * h,
            ),
            f,
            w,
            h,
            2 * w,
            2 * h,
        ),
        0,
        h,
        width,
        h,
        spec_white(),
        255,
    )
}

/// Six pictures around a white band, and the caption to render on the band:
/// black `Montserrat-Regular` at size 90, a twentieth of the width in and
/// three tenths of the band down.
///
/// Fails with `InvalidInput`, and only then, where the canvas is more than a
/// buffer can hold, lower than three pixels, empty or wider or higher than
/// `i32::MAX`, or a picture cannot be brought to its size.
pub fn six_grid_text(
    photon_img: &PhotonImage,
    photon_img2: &PhotonImage,
    photon_img3: &PhotonImage,
    photon_img4: &PhotonImage,
    photon_img5: &PhotonImage,
    photon_img6: &PhotonImage,
    text: &str,
    width: u32,
    height: u32,
) -> (res: Result<(PhotonImage, Caption), GraphicsError>)
    ensures
        res is Ok <==> size_fits(width as int, height as int) && three_fit(
            photon_img@,
            photon_img2@,
            photon_img3@,
            (width / 3) as int,
            (height / 3) as int,
        ) && three_fit(
            photon_img4@,
            photon_img5@,
            photon_img6@,
            (width / 3) as int,
            (height / 3) as int,
        ) && 0 < width <= i32::MAX && 3 <= height <= i32::MAX,
        res matches Ok(out) ==> {
            &&& out.0@ == six_grid_view(
                photon_img@,
                photon_img2@,
                photon_img3@,
                photon_img4@,
                photon_img5@,
                photon_img6@,
                width as int,
                height as int,
            )
            &&& is_caption(
                out.1,
                text@,
                share(width as int, 5),
                height / 3 + share((height / 3) as int, 30),
                FontFace::MontserratRegular,
                90,
                spec_black(),
            )
        },
        res matches Err(e) ==> e == GraphicsError::InvalidInput,
{
    let img_width: u32 = width / 3;
    let img_height: u32 = height / 3;
    let mut container_img = three_across(
        photon_img,
        photon_img2,
        photon_img3,
        width,
        height,
        img_height,
    )?;
    draw_image_as_bar(&mut container_img, photon_img4, img_width, img_height, 0, img_height * 2)?;
    draw_image_as_bar(
        &mut container_img,
        photon_img5,
        img_width,
        img_height,
        img_width,
        img_height * 2,
    )?;
    draw_image_as_bar(
        &mut container_img,
        photon_img6,
        img_width,
        img_height,
        img_width * 2,
        img_height * 2,
    )?;
    if img_height > i32::MAX as u32 {
        return Err(GraphicsError::InvalidInput);
    }
    draw_solid_rect(&mut container_img, &white(), width, img_height, 0, img_height as i32)?;
    let caption = Caption::new(
        text,
        percent_of(width, 5),
        img_height + percent_of(img_height, 30),
        FontFace::MontserratRegular,
        90,
        black(),
    );
    Ok((container_img, caption))
}

} // verus!
