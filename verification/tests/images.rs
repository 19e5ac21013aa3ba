use gdl::chart::{Chart, ChartKind, Orientation};
use gdl::color::Rgb;
use gdl::diagrams::{
    draw_bar_pictures, draw_horizontal_image_barchart, draw_image_as_bar, draw_image_bars,
    draw_vertical_image_barchart,
};
use gdl::error::GraphicsError;
use gdl::geometry::bar_rectangles;
use gdl::graphics::{create_image, draw_border, draw_photonimage, lay_over};
use gdl::image::PhotonImage;
use gdl::resize::{
    can_resize, format_name, resize, resize_socialmedia, resize_socialmedia_all,
    resize_socialmedia_vec,
};
use gdl::text::{
    draw_rotated_text, draw_text_border, draw_upsidedown_text, draw_vertical_text, turn, Rotation,
    BORDER_REACH,
};

/// An image whose bytes all differ from their neighbours.
fn pattern(width: u32, height: u32, alpha: u8) -> PhotonImage {
    let mut raw = Vec::new();
    for i in 0..(width * height) {
        raw.push((i * 7 % 251) as u8);
        raw.push((i * 13 % 241) as u8);
        raw.push((i * 29 % 239) as u8);
        raw.push(alpha);
    }
    PhotonImage::new_from_rawpixels(raw, width, height).unwrap()
}

fn copy_of(img: &PhotonImage) -> PhotonImage {
    let (width, height) = img.dimensions();
    PhotonImage::new_from_rawpixels(img.as_raw().clone(), width, height).unwrap()
}

/// What laying an opaque or transparent image over another is documented to
/// do, written out pixel by pixel.
fn lay(bottom: &PhotonImage, top: &PhotonImage, x: i64, y: i64) -> Vec<u8> {
    let (bw, _) = bottom.dimensions();
    let (tw, th) = top.dimensions();
    let mut out = bottom.as_raw().clone();
    for i in 0..out.len() {
        let px = ((i / 4) % bw as usize) as i64;
        let py = ((i / 4) / bw as usize) as i64;
        let (tx, ty) = (px - x, py - y);
        if 0 <= tx && tx < tw as i64 && 0 <= ty && ty < th as i64 {
            let at = 4 * (ty as usize * tw as usize + tx as usize);
            let alpha = top.as_raw()[at + 3];
            assert!(alpha == 0 || alpha == 255);
            if alpha == 255 {
                out[i] = top.as_raw()[at + i % 4];
            }
        }
    }
    out
}

fn through_the_image_crate(img: &PhotonImage) -> image::RgbaImage {
    let (width, height) = img.dimensions();
    image::RgbaImage::from_raw(width, height, img.as_raw().clone()).unwrap()
}

#[test]
fn created_image_is_translucent() {
    let img = create_image(2, 2, Rgb { r: 1, g: 2, b: 3 }).unwrap();
    assert_eq!(*img.as_raw(), [1, 2, 3, 100].repeat(4));
    assert!(create_image(u32::MAX, u32::MAX, Rgb { r: 1, g: 2, b: 3 }).is_err());
}

#[test]
fn opaque_image_replaces_what_is_below() {
    let mut bottom = pattern(7, 5, 255);
    let before = copy_of(&bottom);
    let top = pattern(3, 4, 255);
    draw_photonimage(&mut bottom, &top, 2, 1);
    assert_eq!(*bottom.as_raw(), lay(&before, &top, 2, 1));
    assert_ne!(bottom.as_raw(), before.as_raw());
    // Partly outside.
    let mut bottom = copy_of(&before);
    draw_photonimage(&mut bottom, &top, 5, 3);
    assert_eq!(*bottom.as_raw(), lay(&before, &top, 5, 3));
    // Wholly outside.
    let mut bottom = copy_of(&before);
    draw_photonimage(&mut bottom, &top, 7, 0);
    assert_eq!(bottom.as_raw(), before.as_raw());
    let mut bottom = copy_of(&before);
    lay_over(&mut bottom, &top, u64::MAX, 0);
    assert_eq!(bottom.as_raw(), before.as_raw());
    let mut bottom = copy_of(&before);
    lay_over(&mut bottom, &top, 1, 1);
    assert_eq!(*bottom.as_raw(), lay(&before, &top, 1, 1));
}

#[test]
fn transparent_image_leaves_what_is_below() {
    let mut bottom = pattern(4, 4, 200);
    let before = copy_of(&bottom);
    let top = pattern(2, 2, 0);
    draw_photonimage(&mut bottom, &top, 1, 1);
    assert_eq!(bottom.as_raw(), before.as_raw());
}

#[test]
fn translucent_image_is_blended_as_the_image_crate_does() {
    let mut bottom = pattern(4, 4, 255);
    let top = pattern(2, 3, 128);
    let mut expected = through_the_image_crate(&bottom);
    image::imageops::overlay(&mut expected, &through_the_image_crate(&top), 1, 0);
    let before = copy_of(&bottom);
    draw_photonimage(&mut bottom, &top, 1, 0);
    assert_eq!(*bottom.as_raw(), expected.into_raw());
    assert_ne!(bottom.as_raw(), before.as_raw());
    // Outside of the overlap nothing changes.
    assert_eq!(bottom.as_raw()[0..4], before.as_raw()[0..4]);
    assert_eq!(bottom.as_raw()[4 * 15..], before.as_raw()[4 * 15..]);
}

#[test]
fn border_grows_the_image_on_every_side() {
    let mut img = pattern(3, 2, 255);
    let inner = copy_of(&img);
    draw_border(&mut img, 2, &Rgb { r: 9, g: 9, b: 9 }).unwrap();
    assert_eq!(img.dimensions(), (7, 6));
    let frame = PhotonImage::new_with_background(7, 6, Rgb { r: 9, g: 9, b: 9 }).unwrap();
    assert_eq!(*img.as_raw(), lay(&frame, &inner, 2, 2));
    assert_eq!(img.as_raw()[0..4], [9, 9, 9, 255]);
    let mut img = copy_of(&inner);
    assert_eq!(
        draw_border(&mut img, u32::MAX, &Rgb { r: 9, g: 9, b: 9 }),
        Err(GraphicsError::InvalidInput)
    );
    assert_eq!(img.as_raw(), inner.as_raw());
    assert_eq!(img.dimensions(), (3, 2));
}

#[test]
fn resize_gives_the_new_size() {
    let img = pattern(6, 4, 255);
    let out = resize(&img, 3, 2).unwrap();
    assert_eq!(out.dimensions(), (3, 2));
    let expected = image::imageops::resize(
        &through_the_image_crate(&img),
        3,
        2,
        image::imageops::FilterType::Nearest,
    );
    assert_eq!(*out.as_raw(), expected.into_raw());
    let larger = resize(&img, 12, 9).unwrap();
    assert_eq!(larger.dimensions(), (12, 9));
    assert_eq!(larger.as_raw().len(), 4 * 12 * 9);
    let twice = resize(&img, 12, 9).unwrap();
    assert_eq!(larger.as_raw(), twice.as_raw());
}

#[test]
fn resize_to_the_same_size_is_a_copy() {
    let img = pattern(5, 3, 77);
    let out = resize(&img, 5, 3).unwrap();
    assert_eq!(out.dimensions(), (5, 3));
    assert_eq!(out.as_raw(), img.as_raw());
}

#[test]
fn resize_to_nothing_gives_an_empty_image() {
    let img = pattern(5, 3, 77);
    let out = resize(&img, 0, 9).unwrap();
    assert_eq!(out.dimensions(), (0, 9));
    assert!(out.as_raw().is_empty());
    let out = resize(&img, 4, 0).unwrap();
    assert_eq!(out.dimensions(), (4, 0));
}

#[test]
fn image_without_pixels_becomes_a_transparent_image() {
    for (width, height) in [(0u32, 4u32), (4, 0), (0, 0)] {
        let empty = PhotonImage::new_from_rawpixels(Vec::new(), width, height).unwrap();
        assert!(can_resize(&empty, 3, 5));
        let out = resize(&empty, 3, 5).unwrap();
        assert_eq!(out.dimensions(), (3, 5));
        assert_eq!(*out.as_raw(), vec![0u8; 4 * 3 * 5]);
        let through = image::imageops::resize(
            &through_the_image_crate(&empty),
            3,
            5,
            image::imageops::FilterType::Nearest,
        );
        assert_eq!(*out.as_raw(), through.into_raw());
        let same = resize(&empty, width, height).unwrap();
        assert_eq!(same.dimensions(), (width, height));
        assert!(same.as_raw().is_empty());
        let format = resize_socialmedia(&empty, "pinterest").unwrap();
        assert_eq!(format.dimensions(), (735, 1102));
        assert_eq!(format.as_raw().len(), 4 * 735 * 1102);
        assert!(format.as_raw().iter().all(|byte| *byte == 0));
    }
}

#[test]
fn size_that_is_too_large_cannot_be_had() {
    let img = pattern(2, 2, 255);
    assert!(can_resize(&img, 10, 10));
    assert!(!can_resize(&img, u32::MAX, u32::MAX));
    assert_eq!(resize(&img, u32::MAX, u32::MAX).err(), Some(GraphicsError::InvalidInput));
}

#[test]
fn social_media_formats() {
    let img = pattern(8, 8, 255);
    let out = resize_socialmedia(&img, "fb_ad").unwrap();
    assert_eq!(out.dimensions(), (1200, 628));
    let out = resize_socialmedia(&img, "anything else").unwrap();
    assert_eq!(out.dimensions(), (192, 120));
    let many = resize_socialmedia_vec(vec![pattern(2, 2, 255), pattern(3, 1, 255)], "twitter_post")
        .unwrap();
    assert_eq!(many.len(), 2);
    assert_eq!(many[0].dimensions(), (1024, 512));
    assert_eq!(many[1].dimensions(), (1024, 512));
    assert_eq!(
        *many[1].as_raw(),
        *resize_socialmedia(&pattern(3, 1, 255), "twitter_post").unwrap().as_raw()
    );
    let empty = PhotonImage::new_from_rawpixels(Vec::new(), 0, 0).unwrap();
    let with_empty =
        resize_socialmedia_vec(vec![pattern(2, 2, 255), empty], "twitter_post").unwrap();
    assert_eq!(with_empty.len(), 2);
    assert_eq!(with_empty[1].dimensions(), (1024, 512));
    assert!(with_empty[1].as_raw().iter().all(|byte| *byte == 0));
    assert!(resize_socialmedia_vec(Vec::new(), "twitter_post").unwrap().is_empty());
}

#[test]
fn all_social_media_formats_in_order() {
    let img = pattern(4, 4, 255);
    let all = resize_socialmedia_all(&img).unwrap();
    let sizes: Vec<(u32, u32)> = all.iter().map(|img| img.dimensions()).collect();
    assert_eq!(
        sizes,
        vec![
            (1400, 425),
            (735, 1102),
            (1200, 628),
            (940, 788),
            (1080, 1080),
            (1024, 512),
            (1024, 512),
            (1500, 500)
        ]
    );
    assert_eq!(format_name(0), "linkedin_banner");
    assert_eq!(format_name(6), "twitter_post");
    assert_eq!(format_name(7), "twitter_header");
    let empty = PhotonImage::new_from_rawpixels(Vec::new(), 0, 0).unwrap();
    let of_empty = resize_socialmedia_all(&empty).unwrap();
    assert_eq!(of_empty.iter().map(|img| img.dimensions()).collect::<Vec<_>>(), sizes);
    assert!(of_empty.iter().all(|img| img.as_raw().iter().all(|byte| *byte == 0)));
}

/// The pixel of an image at a column and a row.
fn pixel(img: &PhotonImage, x: u32, y: u32) -> Vec<u8> {
    let (width, _) = img.dimensions();
    let at = 4 * (y as usize * width as usize + x as usize);
    img.as_raw()[at..at + 4].to_vec()
}

#[test]
fn quarter_turn_moves_the_left_column_to_the_top_row() {
    let img = pattern(3, 2, 255);
    let out = turn(&img, Rotation::Quarter);
    assert_eq!(out.dimensions(), (2, 3));
    for y in 0..2 {
        for x in 0..3 {
            assert_eq!(pixel(&out, 2 - 1 - y, x), pixel(&img, x, y));
        }
    }
    assert_eq!(pixel(&out, 1, 0), pixel(&img, 0, 0));
}

#[test]
fn half_turn_and_three_quarters() {
    let img = pattern(3, 2, 255);
    let half = turn(&img, Rotation::Half);
    assert_eq!(half.dimensions(), (3, 2));
    let three = turn(&img, Rotation::ThreeQuarters);
    assert_eq!(three.dimensions(), (2, 3));
    for y in 0..2 {
        for x in 0..3 {
            assert_eq!(pixel(&half, 3 - 1 - x, 2 - 1 - y), pixel(&img, x, y));
            assert_eq!(pixel(&three, y, 3 - 1 - x), pixel(&img, x, y));
        }
    }
    // Two quarter turns are a half turn, and four bring the image back.
    let twice = turn(&turn(&img, Rotation::Quarter), Rotation::Quarter);
    assert_eq!(twice.as_raw(), half.as_raw());
    let back = turn(&turn(&half, Rotation::Quarter), Rotation::Quarter);
    assert_eq!(back.as_raw(), img.as_raw());
}

#[test]
fn rotated_text_is_laid_over_the_image() {
    let text = pattern(4, 2, 255);
    let blank = PhotonImage::new_with_background(9, 9, Rgb { r: 0, g: 0, b: 0 }).unwrap();
    for (degrees, rotation) in [
        ("90", Rotation::Quarter),
        ("180", Rotation::Half),
        ("270", Rotation::ThreeQuarters),
        ("45", Rotation::Quarter),
    ] {
        let mut img = copy_of(&blank);
        draw_rotated_text(&mut img, &text, 3, 1, degrees);
        assert_eq!(*img.as_raw(), lay(&blank, &turn(&text, rotation), 3, 1));
    }
    let mut img = copy_of(&blank);
    draw_upsidedown_text(&mut img, &text, 0, 0);
    assert_eq!(*img.as_raw(), lay(&blank, &turn(&text, Rotation::Half), 0, 0));
    let mut img = copy_of(&blank);
    draw_vertical_text(&mut img, &text, 2, 2, "left");
    assert_eq!(*img.as_raw(), lay(&blank, &turn(&text, Rotation::ThreeQuarters), 2, 2));
    let mut img = copy_of(&blank);
    draw_vertical_text(&mut img, &text, 2, 2, "right");
    assert_eq!(*img.as_raw(), lay(&blank, &turn(&text, Rotation::Quarter), 2, 2));
    let mut img = copy_of(&blank);
    draw_vertical_text(&mut img, &text, 2, 2, "up");
    assert_eq!(img.as_raw(), blank.as_raw());
}

fn chart_of(data: Vec<u16>, width: u32, height: u32) -> Chart {
    let blue = Rgb { r: 40, g: 50, b: 200 };
    Chart::new("Earnings".to_string(), blue, data, Vec::new(), height, width).unwrap()
}

#[test]
fn picture_bars_are_resized_and_laid_over() {
    let chart = chart_of(vec![2, 4, 0, 1], 200, 100);
    let picture = pattern(5, 5, 255);
    let blank = PhotonImage::new_with_background(200, 100, Rgb { r: 0, g: 0, b: 0 }).unwrap();
    for (orientation, vertical) in [(Orientation::Vertical, true), (Orientation::Horizontal, false)]
    {
        let mut expected = copy_of(&blank);
        for bar in bar_rectangles(&chart, orientation, ChartKind::BarChart).unwrap() {
            let sized = resize(&picture, bar.width, bar.height).unwrap();
            let next = lay(&expected, &sized, bar.x as i64, bar.y as i64);
            expected = PhotonImage::new_from_rawpixels(next, 200, 100).unwrap();
        }
        let mut img = copy_of(&blank);
        if vertical {
            draw_vertical_image_barchart(&mut img, &picture, &chart).unwrap();
        } else {
            draw_horizontal_image_barchart(&mut img, &picture, &chart).unwrap();
        }
        assert_eq!(img.as_raw(), expected.as_raw());
        assert_ne!(img.as_raw(), blank.as_raw());
        let mut again = copy_of(&blank);
        draw_image_bars(&mut again, &picture, &chart, orientation, ChartKind::BarChart).unwrap();
        assert_eq!(again.as_raw(), img.as_raw());
    }
}

#[test]
fn picture_bars_fail_before_anything_is_drawn() {
    let picture = pattern(5, 5, 255);
    let empty = PhotonImage::new_from_rawpixels(Vec::new(), 0, 0).unwrap();
    let blank = PhotonImage::new_with_background(50, 50, Rgb { r: 0, g: 0, b: 0 }).unwrap();
    let mut img = copy_of(&blank);
    assert_eq!(
        draw_vertical_image_barchart(&mut img, &picture, &chart_of(vec![], 50, 50)),
        Err(GraphicsError::InvalidInput)
    );
    assert_eq!(
        draw_horizontal_image_barchart(&mut img, &picture, &chart_of(vec![1, 2], u32::MAX, u32::MAX)),
        Err(GraphicsError::InvalidInput)
    );
    assert_eq!(
        draw_image_as_bar(&mut img, &picture, u32::MAX, u32::MAX, 0, 0),
        Err(GraphicsError::InvalidInput)
    );
    assert_eq!(img.as_raw(), blank.as_raw());
    // A picture without pixels gives transparent bars, which leave no mark.
    assert_eq!(
        draw_vertical_image_barchart(&mut img, &empty, &chart_of(vec![1, 2], 50, 50)),
        Ok(())
    );
    assert_eq!(draw_image_as_bar(&mut img, &empty, 3, 3, 0, 0), Ok(()));
    assert_eq!(img.as_raw(), blank.as_raw());
    draw_image_as_bar(&mut img, &picture, 5, 5, 10, 20).unwrap();
    assert_eq!(*img.as_raw(), lay(&blank, &picture, 10, 20));
}

/// What the border of a text is documented to be, written out pixel by
/// pixel: pink wherever a glyph lies within reach.
fn bordered(img: &PhotonImage, mask: &[u8], reach: i64) -> Vec<u8> {
    let (width, height) = img.dimensions();
    let (w, h) = (width as i64, height as i64);
    let mut out = img.as_raw().clone();
    for p in 0..(w * h) {
        let near = (0..(w * h)).any(|q| {
            mask[q as usize] != 0
                && (p % w - q % w).abs() <= reach
                && (p / w - q / w).abs() <= reach
        });
        if near || reach >= w + h {
            out[4 * p as usize..4 * p as usize + 4].copy_from_slice(&[234, 23, 123, 255]);
        }
    }
    out
}

#[test]
fn text_border_reaches_fourteen_pixels() {
    assert_eq!(BORDER_REACH, 14);
    let mut img = pattern(60, 50, 255);
    let before = copy_of(&img);
    let mut mask = vec![0u8; 60 * 50];
    mask[20 * 60 + 30] = 255;
    draw_text_border(&mut img, &mask).unwrap();
    assert_eq!(*img.as_raw(), bordered(&before, &mask, 14));
    // Fourteen pixels away is border, fifteen is not, in a square.
    assert_eq!(pixel(&img, 44, 34), [234, 23, 123, 255]);
    assert_eq!(pixel(&img, 16, 6), [234, 23, 123, 255]);
    assert_eq!(pixel(&img, 45, 20), pixel(&before, 45, 20));
    assert_eq!(pixel(&img, 30, 35), pixel(&before, 30, 35));
    assert_eq!(pixel(&img, 30, 5), pixel(&before, 30, 5));
}

#[test]
fn text_border_follows_any_mask() {
    let mut seed: u32 = 12345;
    for (width, height) in [(40u32, 33u32), (70, 20), (17, 64), (15, 1), (1, 40)] {
        let mut img = pattern(width, height, 255);
        let before = copy_of(&img);
        let mut mask = vec![0u8; (width * height) as usize];
        for byte in mask.iter_mut() {
            seed = seed.wrapping_mul(1664525).wrapping_add(1013904223);
            if seed >> 24 < 3 {
                *byte = (seed >> 8) as u8 | 1;
            }
        }
        draw_text_border(&mut img, &mask).unwrap();
        assert_eq!(*img.as_raw(), bordered(&before, &mask, 14), "{} by {}", width, height);
    }
}

#[test]
fn text_border_of_an_empty_mask() {
    let mut img = pattern(30, 30, 255);
    let before = copy_of(&img);
    draw_text_border(&mut img, &vec![0u8; 900]).unwrap();
    assert_eq!(img.as_raw(), before.as_raw());
    // An image whose width and height add up to no more than the reach is
    // border all over.
    let mut small = pattern(9, 5, 255);
    draw_text_border(&mut small, &vec![0u8; 45]).unwrap();
    assert_eq!(*small.as_raw(), [234, 23, 123, 255].repeat(45));
    let mut edge = pattern(10, 5, 255);
    let edge_before = copy_of(&edge);
    draw_text_border(&mut edge, &vec![0u8; 50]).unwrap();
    assert_eq!(edge.as_raw(), edge_before.as_raw());
}

#[test]
fn text_border_needs_a_mask_of_the_size_of_the_image() {
    let mut img = pattern(30, 30, 255);
    let before = copy_of(&img);
    assert_eq!(draw_text_border(&mut img, &vec![0u8; 899]), Err(GraphicsError::InvalidInput));
    assert_eq!(draw_text_border(&mut img, &vec![255u8; 3600]), Err(GraphicsError::InvalidInput));
    assert_eq!(img.as_raw(), before.as_raw());
    let mut empty = PhotonImage::new_from_rawpixels(Vec::new(), 0, 0).unwrap();
    assert_eq!(draw_text_border(&mut empty, &Vec::new()), Ok(()));
}

#[test]
fn pictures_of_the_caller_are_laid_at_the_bars() {
    let chart = chart_of(vec![2, 4, 1], 200, 100);
    let blank = PhotonImage::new_with_background(200, 100, Rgb { r: 0, g: 0, b: 0 }).unwrap();
    let bars = bar_rectangles(&chart, Orientation::Vertical, ChartKind::BarChart).unwrap();
    let pictures: Vec<PhotonImage> =
        bars.iter().map(|bar| pattern(bar.width, bar.height, 255)).collect();
    let mut expected = copy_of(&blank);
    for (bar, picture) in bars.iter().zip(pictures.iter()) {
        let next = lay(&expected, picture, bar.x as i64, bar.y as i64);
        expected = PhotonImage::new_from_rawpixels(next, 200, 100).unwrap();
    }
    let mut img = copy_of(&blank);
    draw_bar_pictures(&mut img, &pictures, &chart, Orientation::Vertical, ChartKind::BarChart)
        .unwrap();
    assert_eq!(img.as_raw(), expected.as_raw());
    assert_ne!(img.as_raw(), blank.as_raw());
    let mut img = copy_of(&blank);
    assert_eq!(
        draw_bar_pictures(
            &mut img,
            &pictures[..2].iter().map(copy_of).collect(),
            &chart,
            Orientation::Vertical,
            ChartKind::BarChart
        ),
        Err(GraphicsError::InvalidInput)
    );
    assert_eq!(
        draw_bar_pictures(
            &mut img,
            &Vec::new(),
            &chart_of(vec![], 200, 100),
            Orientation::Vertical,
            ChartKind::BarChart
        ),
        Err(GraphicsError::InvalidInput)
    );
    assert_eq!(img.as_raw(), blank.as_raw());
}
