//! Images brought to a new size, among them the sizes of social-media
//! formats.

use vstd::prelude::*;
use crate::error::GraphicsError;
use crate::image::{
    buffer_len, resize_fits, resized, social_media_dimensions, social_media_size, ImageView,
    PhotonImage,
};
use crate::raster::resize_nearest;

verus! {

/// How many formats [`resize_socialmedia_all`] makes.
pub const ALL_FORMATS: usize = 8;

/// The formats that [`resize_socialmedia_all`] makes, in their order;
/// `twitter_post` comes twice.
pub open spec fn format_at(i: int) -> Seq<char> {
    if i == 0 {
        "linkedin_banner"@
    } else if i == 1 {
        "pinterest"@
    } else if i == 2 {
        "fb_ad"@
    } else if i == 3 {
        "fb_post"@
    } else if i == 4 {
        "instagram_post"@
    } else if i == 5 {
        "twitter_post"@
    } else if i == 6 {
        "twitter_post"@
    } else {
        "twitter_header"@
    }
}

/// The image in a social-media format.
pub open spec fn in_format(view: ImageView, format: Seq<char>) -> ImageView {
    resized(view, social_media_size(format).0, social_media_size(format).1)
}

/// Whether the image can be brought to a social-media format.
pub open spec fn format_fits(view: ImageView, format: Seq<char>) -> bool {
    resize_fits(view, social_media_size(format).0, social_media_size(format).1)
}

/// The name of format `i` of [`resize_socialmedia_all`].
pub fn format_name(i: usize) -> (name: &'static str)
    ensures
        name@ == format_at(i as int),
{
    if i == 0 {
        "linkedin_banner"
    } else if i == 1 {
        "pinterest"
    } else if i == 2 {
        "fb_ad"
    } else if i == 3 {
        "fb_post"
    } else if i == 4 {
        "instagram_post"
    } else if i == 5 {
        "twitter_post"
    } else if i == 6 {
        "twitter_post"
    } else {
        "twitter_header"
    }
}

/// Whether the image can be brought to the new size.
pub fn can_resize(img: &PhotonImage, width: u32, height: u32) -> (ok: bool)
    ensures
        ok == resize_fits(img@, width as int, height as int),
{
    let (old_width, old_height) = img.dimensions();
    assert(old_width * height <= 0xffff_ffff * 0xffff_ffff) by (nonlinear_arith)
        requires
            0 <= old_width <= 0xffff_ffff,
            0 <= height <= 0xffff_ffff,
    ;
    assert(16 * old_width * height == 16 * (old_width * height)) by (nonlinear_arith);
    let between: u64 = old_width as u64 * height as u64;
    buffer_len(width, height).is_some() && ((width == old_width && height == old_height)
        || between <= (isize::MAX as u64) / 16)
}

/// Brings an image to a new size, each new pixel sampled from the nearest
/// old ones. An image that has the size already is copied, and an image
/// without pixels gives a transparent image of the new size.
///
/// Fails with `InvalidInput`, and only then, where the new size is more than
/// a buffer can hold, as [`resize_fits`] says.
pub fn resize(img: &PhotonImage, width: u32, height: u32) -> (res: Result<
    PhotonImage,
    GraphicsError,
>)
    ensures
        res is Ok <==> resize_fits(img@, width as int, height as int),
        res matches Ok(out) ==> out@ == resized(img@, width as int, height as int),
        res matches Err(e) ==> e == GraphicsError::InvalidInput,
{
    if !can_resize(img, width, height) {
        return Err(GraphicsError::InvalidInput);
    }
    let out = resize_nearest(img, width, height);
    proof {
        if !(width == img@.width && height == img@.height) {
            assert(out@ == resized(img@, width as int, height as int));
        }
    }
    Ok(out)
}

/// Brings an image to the size of a social-media format: `linkedin_banner`,
/// `pinterest`, `fb_ad`, `fb_post`, `instagram_post`, `twitter_post` or
/// `twitter_header`. Any other name gives 192 by 120 pixels.
///
/// Fails with `InvalidInput`, and only then, where [`resize`] does.
pub fn resize_socialmedia(img: &PhotonImage, format: &str) -> (res: Result<
    PhotonImage,
    GraphicsError,
>)
    ensures
        res is Ok <==> format_fits(img@, format@),
        res matches Ok(out) ==> out@ == in_format(img@, format@),
        res matches Err(e) ==> e == GraphicsError::InvalidInput,
{
    let (width, height) = social_media_dimensions(format);
    resize(img, width, height)
}

/// Brings every image to the size of a social-media format, in order.
///
/// Fails with `InvalidInput`, and only then, where one of the images cannot
/// be brought to the format.
pub fn resize_socialmedia_vec(imgs: Vec<PhotonImage>, format: &str) -> (res: Result<
    Vec<PhotonImage>,
    GraphicsError,
>)
    ensures
        res is Ok <==> forall|i: int| 0 <= i < imgs@.len() ==> format_fits(imgs@[i]@, format@),
        res matches Ok(out) ==> {
            &&& out@.len() == imgs@.len()
            &&& forall|i: int|
                0 <= i < out@.len() ==> (#[trigger] out@[i])@ == in_format(imgs@[i]@, format@)
        },
        res matches Err(e) ==> e == GraphicsError::InvalidInput,
{
    let mut resized_imgs: Vec<PhotonImage> = Vec::new();
    let mut i: usize = 0;
    while i < imgs.len()
        invariant
            i <= imgs@.len(),
            resized_imgs@.len() == i,
            forall|j: int| 0 <= j < i ==> format_fits(imgs@[j]@, format@),
            forall|j: int|
                0 <= j < i ==> (#[trigger] resized_imgs@[j])@ == in_format(imgs@[j]@, format@),
        decreases imgs@.len() - i,
    {
        match resize_socialmedia(&imgs[i], format) {
            Ok(resized_img) => {
                resized_imgs.push(resized_img);
            },
            Err(e) => {
                return Err(e);
            },
        }
        i += 1;
    }
    Ok(resized_imgs)
}

/// Brings an image to each of the social-media formats that [`format_at`]
/// lists, in that order.
///
/// Fails with `InvalidInput`, and only then, where the image cannot be
/// brought to one of the formats.
pub fn resize_socialmedia_all(img: &PhotonImage) -> (res: Result<Vec<PhotonImage>, GraphicsError>)
    ensures
        res is Ok <==> forall|i: int| 0 <= i < ALL_FORMATS ==> format_fits(img@, format_at(i)),
        res matches Ok(out) ==> {
            &&& out@.len() == ALL_FORMATS
            &&& forall|i: int|
                0 <= i < out@.len() ==> (#[trigger] out@[i])@ == in_format(img@, format_at(i))
        },
        res matches Err(e) ==> e == GraphicsError::InvalidInput,
{
    let mut resized_imgs: Vec<PhotonImage> = Vec::new();
    let mut i: usize = 0;
    while i < ALL_FORMATS
        invariant
            i <= ALL_FORMATS,
            resized_imgs@.len() == i,
            forall|j: int| 0 <= j < i ==> format_fits(img@, format_at(j)),
            forall|j: int|
                0 <= j < i ==> (#[trigger] resized_imgs@[j])@ == in_format(img@, format_at(j)),
        decreases ALL_FORMATS - i,
    {
        match resize_socialmedia(img, format_name(i)) {
            Ok(new_img) => {
                resized_imgs.push(new_img);
            },
            Err(e) => {
                return Err(e);
            },
        }
        i += 1;
    }
    Ok(resized_imgs)
}

} // verus!
