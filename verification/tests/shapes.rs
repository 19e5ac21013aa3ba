use gdl::background::{
    circle_background, grid_background_uprights, lined_background_rules, pattern_from_img,
    rule_colour, solid_background, spaced_circle_background,
};
use gdl::layout::{Point, Segment};
use gdl::color::{Rgb, Rgba};
use gdl::elements::{
    draw_equilateral_triangle, draw_rect_text, draw_stacked_borders, draw_stacked_rect,
    draw_triangle, is_within_reach, Triangle,
};
use gdl::error::GraphicsError;
use gdl::gradients::{paint_columns, GradientPreset};
use gdl::image::PhotonImage;
use gdl::text::{Caption, FontFace};

const BLACK: Rgb = Rgb { r: 0, g: 0, b: 0 };
const RED: Rgb = Rgb { r: 200, g: 20, b: 50 };
const GREEN: Rgb = Rgb { r: 20, g: 200, b: 50 };

fn canvas(width: u32, height: u32) -> PhotonImage {
    PhotonImage::new_with_background(width, height, BLACK).unwrap()
}

fn through_the_image_crate(img: &PhotonImage) -> image::RgbaImage {
    let (width, height) = img.dimensions();
    image::RgbaImage::from_raw(width, height, img.as_raw().clone()).unwrap()
}

fn rgba(color: Rgb) -> image::Rgba<u8> {
    image::Rgba([color.r, color.g, color.b, 255])
}

#[test]
fn stacked_rects_are_ten_pixels_apart() {
    let mut img = canvas(40, 40);
    let mut expected = through_the_image_crate(&img);
    draw_stacked_rect(&mut img, &RED, &GREEN, 12, 8, 5, 6).unwrap();
    imageproc::drawing::draw_filled_rect_mut(
        &mut expected,
        imageproc::rect::Rect::at(5, 6).of_size(12, 8),
        rgba(RED),
    );
    imageproc::drawing::draw_filled_rect_mut(
        &mut expected,
        imageproc::rect::Rect::at(15, 16).of_size(12, 8),
        rgba(GREEN),
    );
    assert_eq!(*img.as_raw(), expected.into_raw());
    // The second rectangle lies over the first.
    let at = 4 * (16 * 40 + 15);
    assert_eq!(img.as_raw()[at..at + 4], [20, 200, 50, 255]);
    let at = 4 * (6 * 40 + 5);
    assert_eq!(img.as_raw()[at..at + 4], [200, 20, 50, 255]);
}

#[test]
fn stacked_rect_that_does_not_fit_is_invalid() {
    let mut img = canvas(40, 40);
    let before = img.as_raw().clone();
    for res in [
        draw_stacked_rect(&mut img, &RED, &GREEN, 0, 8, 5, 6),
        draw_stacked_rect(&mut img, &RED, &GREEN, 12, 8, i32::MAX - 5, 6),
        draw_stacked_rect(&mut img, &RED, &GREEN, 12, 8, 5, i32::MAX - 17),
    ] {
        assert_eq!(res, Err(GraphicsError::InvalidInput));
    }
    assert_eq!(*img.as_raw(), before);
    assert!(draw_stacked_rect(&mut img, &RED, &GREEN, 12, 8, 5, i32::MAX - 18).is_ok());
}

#[test]
fn stacked_borders_are_three_outlines() {
    let mut img = canvas(200, 200);
    let mut expected = through_the_image_crate(&img);
    let before = img.as_raw().clone();
    draw_stacked_borders(&mut img, &RED, 60, 50, 100, 20).unwrap();
    for k in 0..3 {
        imageproc::drawing::draw_hollow_rect_mut(
            &mut expected,
            imageproc::rect::Rect::at(100 - 40 * k, 20 + 40 * k).of_size(60, 50),
            rgba(RED),
        );
    }
    assert_eq!(*img.as_raw(), expected.into_raw());
    assert_ne!(*img.as_raw(), before);
    // A corner of the first outline, and the middle of it.
    let at = 4 * (20 * 200 + 100);
    assert_eq!(img.as_raw()[at..at + 4], [200, 20, 50, 255]);
    let at = 4 * (30 * 200 + 130);
    assert_eq!(img.as_raw()[at..at + 4], [0, 0, 0, 255]);
}

#[test]
fn borders_out_of_reach_are_invalid() {
    let mut img = canvas(20, 20);
    let before = img.as_raw().clone();
    for res in [
        draw_stacked_borders(&mut img, &RED, 0, 5, 0, 0),
        draw_stacked_borders(&mut img, &RED, 5, 0, 0, 0),
        draw_stacked_borders(&mut img, &RED, 5, 5, i32::MAX, 0),
        draw_stacked_borders(&mut img, &RED, 5, 5, 0, i32::MAX),
        draw_stacked_borders(&mut img, &RED, 5, 5, i32::MIN, 0),
        draw_stacked_borders(&mut img, &RED, u32::MAX, 5, 0, 0),
        draw_stacked_borders(&mut img, &RED, 0x8000_0000, 5, -0x3fff_ff00, 0),
        draw_stacked_borders(&mut img, &RED, 5, 0x8000_0000, 0, -0x3fff_ffff),
        draw_stacked_borders(&mut img, &RED, 5, 5, -0x4000_0000 + 80, 0),
    ] {
        assert_eq!(res, Err(GraphicsError::InvalidInput));
    }
    assert_eq!(*img.as_raw(), before);
    assert!(is_within_reach(0x3fff_ffff));
    assert!(is_within_reach(-0x3fff_ffff));
    assert!(!is_within_reach(0x4000_0000));
    assert!(!is_within_reach(-0x4000_0000));
    assert!(draw_stacked_borders(&mut img, &RED, 5, 5, -0x3fff_ff00, 0x3fff_ff00).is_ok());
}

#[test]
fn triangle_is_filled_as_a_polygon() {
    let triangle = Triangle::new(GREEN, 5, 5, 40, 10, 20, 45);
    assert_eq!(triangle.background_color(), GREEN);
    assert_eq!((triangle.x1, triangle.y1, triangle.x2, triangle.y2), (5, 5, 40, 10));
    assert_eq!((triangle.x3, triangle.y3), (20, 45));
    let mut img = canvas(50, 50);
    let mut expected = through_the_image_crate(&img);
    let before = img.as_raw().clone();
    draw_triangle(&mut img, triangle).unwrap();
    imageproc::drawing::draw_polygon_mut(
        &mut expected,
        &[
            imageproc::point::Point::new(5, 5),
            imageproc::point::Point::new(40, 10),
            imageproc::point::Point::new(20, 45),
        ],
        rgba(GREEN),
    );
    assert_eq!(*img.as_raw(), expected.into_raw());
    assert_ne!(*img.as_raw(), before);
    // A point well inside, and a corner of the image outside.
    let at = 4 * (20 * 50 + 20);
    assert_eq!(img.as_raw()[at..at + 4], [20, 200, 50, 255]);
    assert_eq!(img.as_raw()[0..4], [0, 0, 0, 255]);
}

#[test]
fn triangle_partly_outside_is_clipped() {
    let mut img = canvas(30, 30);
    let mut expected = through_the_image_crate(&img);
    draw_triangle(&mut img, Triangle::new(RED, -20, -5, 60, 12, 10, 90)).unwrap();
    imageproc::drawing::draw_polygon_mut(
        &mut expected,
        &[
            imageproc::point::Point::new(-20, -5),
            imageproc::point::Point::new(60, 12),
            imageproc::point::Point::new(10, 90),
        ],
        rgba(RED),
    );
    assert_eq!(*img.as_raw(), expected.into_raw());
}

#[test]
fn degenerate_triangles() {
    let mut img = canvas(30, 30);
    let before = img.as_raw().clone();
    assert_eq!(
        draw_triangle(&mut img, Triangle::new(RED, 3, 3, 9, 9, 3, 3)),
        Err(GraphicsError::InvalidInput)
    );
    assert_eq!(
        draw_triangle(&mut img, Triangle::new(RED, 3, 3, 9, 9, i32::MAX, 3)),
        Err(GraphicsError::InvalidInput)
    );
    // Corners so far apart that their difference does not fit in 32 bits.
    assert_eq!(
        draw_triangle(&mut img, Triangle::new(RED, -1073741824, 0, 1073741824, 2, 0, 5)),
        Err(GraphicsError::InvalidInput)
    );
    assert_eq!(
        draw_triangle(&mut img, Triangle::new(RED, 0, -0x4000_0000, 4, 0x3fff_ffff, 0, 5)),
        Err(GraphicsError::InvalidInput)
    );
    assert_eq!(*img.as_raw(), before);
    // All corners on one row, and two corners at one point, are drawn.
    assert!(draw_triangle(&mut img, Triangle::new(RED, 3, 3, 9, 3, 20, 3)).is_ok());
    assert!(draw_triangle(&mut img, Triangle::new(RED, 3, 3, 3, 3, 20, 9)).is_ok());
    assert!(draw_triangle(&mut img, Triangle::new(RED, 3, 3, 20, 9, 20, 9)).is_ok());
    // On an image without columns nothing is drawn; one with columns but
    // without rows is refused.
    let mut empty = canvas(0, 0);
    assert_eq!(draw_triangle(&mut empty, Triangle::new(RED, 3, 3, 9, 9, 1, 7)), Ok(()));
    assert_eq!(draw_triangle(&mut empty, Triangle::new(RED, -3, -3, 9, 0, 1, 7)), Ok(()));
    let mut narrow = canvas(0, 5);
    assert_eq!(draw_triangle(&mut narrow, Triangle::new(RED, -3, -3, 9, 9, 1, 7)), Ok(()));
    assert_eq!(draw_equilateral_triangle(&mut narrow, 4, -1, 1, &RED), Ok(()));
    let mut flat = canvas(5, 0);
    assert_eq!(
        draw_triangle(&mut flat, Triangle::new(RED, -3, -3, 9, 9, 1, 7)),
        Err(GraphicsError::InvalidInput)
    );
}

#[test]
fn equilateral_triangle_has_a_level_top() {
    let mut img = canvas(60, 60);
    let mut expected = through_the_image_crate(&img);
    draw_equilateral_triangle(&mut img, 30, 10, 12, &GREEN).unwrap();
    imageproc::drawing::draw_polygon_mut(
        &mut expected,
        &[
            imageproc::point::Point::new(10, 12),
            imageproc::point::Point::new(40, 12),
            imageproc::point::Point::new(25, 36),
        ],
        rgba(GREEN),
    );
    assert_eq!(*img.as_raw(), expected.into_raw());
    let before = img.as_raw().clone();
    assert_eq!(
        draw_equilateral_triangle(&mut img, 1, 10, 0, &GREEN),
        Err(GraphicsError::InvalidInput)
    );
    assert_eq!(
        draw_equilateral_triangle(&mut img, u32::MAX, 10, 5, &GREEN),
        Err(GraphicsError::InvalidInput)
    );
    assert_eq!(
        draw_equilateral_triangle(&mut img, 10, 10, i32::MAX, &GREEN),
        Err(GraphicsError::InvalidInput)
    );
    assert_eq!(*img.as_raw(), before);
    assert!(draw_equilateral_triangle(&mut img, 2, 10, 0, &GREEN).is_ok());
}

#[test]
fn rect_with_text_gives_its_caption() {
    let mut img = canvas(300, 200);
    let mut expected = through_the_image_crate(&img);
    let caption = draw_rect_text(&mut img, "Start", &RED, 100, 130, 20, 20).unwrap();
    imageproc::drawing::draw_filled_rect_mut(
        &mut expected,
        imageproc::rect::Rect::at(20, 20).of_size(100, 130),
        rgba(RED),
    );
    assert_eq!(*img.as_raw(), expected.into_raw());
    assert_eq!(
        caption,
        Caption {
            text: "Start".to_string(),
            x: 26,
            y: 30,
            font: FontFace::RobotoBold,
            font_size: 30,
            color: Rgb { r: 255, g: 255, b: 255 },
        }
    );
    let before = img.as_raw().clone();
    assert_eq!(
        draw_rect_text(&mut img, "Start", &RED, 0, 130, 20, 20).err(),
        Some(GraphicsError::InvalidInput)
    );
    assert_eq!(*img.as_raw(), before);
    // An anchor to the left of the image or above it is kept at its edge.
    let at_edge = draw_rect_text(&mut img, "Start", &RED, 100, 130, -60, -11).unwrap();
    assert_eq!((at_edge.x, at_edge.y), (0, 0));
    let inside = draw_rect_text(&mut img, "Start", &RED, 100, 130, -6, -10).unwrap();
    assert_eq!((inside.x, inside.y), (0, 0));
    let below = draw_rect_text(&mut img, "Start", &RED, 100, 140, -6, -9).unwrap();
    assert_eq!((below.x, below.y), (1, 1));
}

#[test]
fn solid_background_is_one_colour() {
    let img = solid_background(4, 3, RED).unwrap();
    assert_eq!(img.dimensions(), (4, 3));
    assert_eq!(*img.as_raw(), [200, 20, 50, 255].repeat(12));
    assert_eq!(solid_background(u32::MAX, u32::MAX, RED).err(), Some(GraphicsError::InvalidInput));
}

#[test]
fn circle_background_is_a_grid_of_discs() {
    let img = circle_background(200, 150).unwrap();
    let mut expected = image::RgbaImage::from_pixel(200, 150, image::Rgba([190, 120, 200, 255]));
    let radius = 200 / 10 + 15;
    for x in 0..5 {
        for y in 0..6 {
            imageproc::drawing::draw_filled_circle_mut(
                &mut expected,
                (x * radius * 2, y * radius * 2),
                radius,
                image::Rgba([123, 10, 180, 255]),
            );
        }
    }
    assert_eq!(*img.as_raw(), expected.into_raw());
    // The centre of the first disc, and a gap between four discs.
    assert_eq!(img.as_raw()[0..4], [123, 10, 180, 255]);
    let at = 4 * (35 * 200 + 35);
    assert_eq!(img.as_raw()[at..at + 4], [190, 120, 200, 255]);
}

#[test]
fn spaced_circles() {
    let img = spaced_circle_background(500, 120).unwrap();
    let mut expected = image::RgbaImage::from_pixel(500, 120, image::Rgba([190, 120, 200, 255]));
    let radius = 500 / 10 - 35;
    for x in 0..8 {
        for y in 0..10 {
            imageproc::drawing::draw_filled_circle_mut(
                &mut expected,
                (x * radius * 3, y * radius * 3),
                radius,
                image::Rgba([123, 10, 180, 255]),
            );
        }
    }
    assert_eq!(*img.as_raw(), expected.into_raw());
    assert_ne!(*img.as_raw(), *solid_background(500, 120, Rgb { r: 190, g: 120, b: 200 }).unwrap().as_raw());
    // A narrow image has a negative radius and no discs.
    let plain = spaced_circle_background(100, 40).unwrap();
    assert_eq!(*plain.as_raw(), [190, 120, 200, 255].repeat(100 * 40));
}

#[test]
fn circles_out_of_reach_are_invalid() {
    assert_eq!(circle_background(u32::MAX, 1).err(), Some(GraphicsError::InvalidInput));
    // A radius of more than 65536 pixels is not drawn.
    assert_eq!(circle_background(655_220, 1).err(), Some(GraphicsError::InvalidInput));
    assert_eq!(spaced_circle_background(655_720, 1).err(), Some(GraphicsError::InvalidInput));
    assert_eq!(spaced_circle_background(u32::MAX, 1).err(), Some(GraphicsError::InvalidInput));
    assert_eq!(circle_background(u32::MAX, u32::MAX).err(), Some(GraphicsError::InvalidInput));
    assert!(circle_background(0, 0).is_ok());
}

#[test]
fn pattern_repeats_a_picture() {
    let picture = PhotonImage::new_with_background(6, 4, GREEN).unwrap();
    let img = pattern_from_img(40, 120, RED, &picture).unwrap();
    let mut expected = image::RgbaImage::from_pixel(40, 120, rgba(RED));
    let top = through_the_image_crate(&picture);
    for x in 0..8i64 {
        for y in 0..10i64 {
            image::imageops::overlay(&mut expected, &top, x + 6 * 3, y * 4 + 50);
        }
    }
    assert_eq!(*img.as_raw(), expected.into_raw());
    let at = 4 * (50 * 40 + 18);
    assert_eq!(img.as_raw()[at..at + 4], [20, 200, 50, 255]);
    let at = 4 * (49 * 40 + 18);
    assert_eq!(img.as_raw()[at..at + 4], [200, 20, 50, 255]);
    assert_eq!(
        pattern_from_img(u32::MAX, u32::MAX, RED, &picture).err(),
        Some(GraphicsError::InvalidInput)
    );
}

#[test]
fn columns_are_painted_from_their_colours() {
    let columns = vec![
        Rgba { r: 1, g: 2, b: 3, a: 4 },
        Rgba { r: 5, g: 6, b: 7, a: 8 },
        Rgba { r: 9, g: 10, b: 11, a: 12 },
    ];
    let img = paint_columns(3, 2, &columns).unwrap();
    assert_eq!(img.dimensions(), (3, 2));
    assert_eq!(
        *img.as_raw(),
        vec![1, 2, 3, 4, 5, 6, 7, 8, 9, 10, 11, 12, 1, 2, 3, 4, 5, 6, 7, 8, 9, 10, 11, 12]
    );
    assert!(paint_columns(3, 0, &columns).unwrap().as_raw().is_empty());
    assert_eq!(paint_columns(0, 5, &Vec::new()).unwrap().dimensions(), (0, 5));
    assert_eq!(paint_columns(2, 2, &columns).err(), Some(GraphicsError::InvalidInput));
    assert_eq!(paint_columns(4, 2, &columns).err(), Some(GraphicsError::InvalidInput));
}

#[test]
fn gradients_are_looked_up_by_name() {
    assert_eq!(GradientPreset::from_name("pinkblue"), GradientPreset::PinkBlue);
    assert_eq!(GradientPreset::from_name("lemongrass"), GradientPreset::Lemongrass);
    assert_eq!(GradientPreset::from_name("pink_pastel"), GradientPreset::PinkPastel);
    assert_eq!(GradientPreset::from_name("mauve_pastel"), GradientPreset::MauvePastel);
    assert_eq!(GradientPreset::from_name("sunrise"), GradientPreset::BlueGreen);
    assert_eq!(GradientPreset::from_name("pastel_pink"), GradientPreset::BlueGreen);
    assert_eq!(GradientPreset::from_name(""), GradientPreset::BlueGreen);
}

#[test]
fn triangle_with_far_corners_is_drawn_as_the_outside_crate_draws_it() {
    let mut img = canvas(40, 40);
    let mut expected = through_the_image_crate(&img);
    draw_triangle(&mut img, Triangle::new(GREEN, -1_000_000, -5, 1_000_000, 12, 10, 2_000_000))
        .unwrap();
    imageproc::drawing::draw_polygon_mut(
        &mut expected,
        &[
            imageproc::point::Point::new(-1_000_000, -5),
            imageproc::point::Point::new(1_000_000, 12),
            imageproc::point::Point::new(10, 2_000_000),
        ],
        rgba(GREEN),
    );
    assert_eq!(*img.as_raw(), expected.into_raw());
}

#[test]
fn lined_and_squared_backgrounds_have_fifty_lines_each_way() {
    let rules = lined_background_rules(300);
    assert_eq!(rules.len(), 50);
    assert_eq!(rules[0], Segment { from: Point { x: 0, y: 0 }, to: Point { x: 300, y: 0 } });
    assert_eq!(rules[7], Segment { from: Point { x: 0, y: 140 }, to: Point { x: 300, y: 140 } });
    assert_eq!(rules[49], Segment { from: Point { x: 0, y: 980 }, to: Point { x: 300, y: 980 } });
    let uprights = grid_background_uprights(200);
    assert_eq!(uprights.len(), 50);
    assert_eq!(uprights[0], Segment { from: Point { x: 0, y: 0 }, to: Point { x: 0, y: 200 } });
    assert_eq!(
        uprights[49],
        Segment { from: Point { x: 2450, y: 0 }, to: Point { x: 2450, y: 200 } }
    );
    assert_eq!(rule_colour(), Rgb { r: 255, g: 167, b: 90 });
    assert_eq!(lined_background_rules(u32::MAX)[49].to.x, u32::MAX as u64);
}
