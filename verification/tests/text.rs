use gdl::error::GraphicsError;
use gdl::layout::Point;
use gdl::color::Rgb;
use gdl::gradients::preset_stops;
use gdl::text::{
    line_starts, measure_word, pen_position, rotated_text_canvas, text_to_vec,
    vertical_letter_anchors, wrap_words, Caption, Font, FontFace, Rotation,
};

fn lines(text: &str, width: u32, font_size: u32) -> Vec<Vec<String>> {
    text_to_vec(text, width, font_size)
}

fn strings(words: &[&str]) -> Vec<String> {
    words.iter().map(|word| word.to_string()).collect()
}

#[test]
fn a_word_takes_four_fifths_of_the_font_size_per_byte() {
    assert_eq!(measure_word(5, 100), 400);
    assert_eq!(measure_word(3, 11), 26);
    assert_eq!(measure_word(0, 100), 0);
    assert_eq!(measure_word(7, 0), 0);
    assert_eq!(measure_word(usize::MAX, u32::MAX), u32::MAX);
}

#[test]
fn words_are_kept_on_a_line_while_they_fit() {
    // At a font size of 10 a byte takes 8 pixels.
    assert_eq!(
        lines("the quick brown fox", 100, 10),
        vec![strings(&["the", "quick"]), strings(&["brown", "fox"])]
    );
    assert_eq!(
        lines("the quick brown fox", 104, 10),
        vec![strings(&["the", "quick", "brown"]), strings(&["fox"])]
    );
    assert_eq!(lines("the quick brown fox", 1000, 10), vec![strings(&["the", "quick", "brown", "fox"])]);
    assert_eq!(
        lines("the quick brown fox", 40, 10),
        vec![strings(&["the"]), strings(&["quick"]), strings(&["brown"]), strings(&["fox"])]
    );
}

#[test]
fn a_line_that_is_exactly_full_is_not_broken() {
    // 3 + 2 bytes take 40 pixels.
    assert_eq!(lines("abc de f", 40, 10), vec![strings(&["abc", "de"]), strings(&["f"])]);
    assert_eq!(lines("abc de f", 39, 10), vec![strings(&["abc"]), strings(&["de", "f"])]);
}

#[test]
fn a_first_word_that_is_too_wide_leaves_the_first_line_empty() {
    assert_eq!(
        lines("extraordinary day", 50, 10),
        vec![Vec::<String>::new(), strings(&["extraordinary"]), strings(&["day"])]
    );
}

#[test]
fn a_text_without_words_is_one_empty_line() {
    assert_eq!(lines("", 100, 10), vec![Vec::<String>::new()]);
    assert_eq!(lines("  \t \n ", 100, 10), vec![Vec::<String>::new()]);
}

#[test]
fn white_space_of_any_kind_and_length_divides_words() {
    assert_eq!(
        lines("  one\ttwo \n three\u{2003}four ", 1000, 10),
        vec![strings(&["one", "two", "three", "four"])]
    );
}

#[test]
fn a_word_is_measured_in_bytes() {
    // Four letters of two bytes each take 64 pixels.
    assert_eq!(lines("\u{e9}\u{e9}\u{e9}\u{e9} a", 70, 10), vec![strings(&["\u{e9}\u{e9}\u{e9}\u{e9}"]), strings(&["a"])]);
    assert_eq!(lines("eeee a", 70, 10), vec![strings(&["eeee", "a"])]);
}

#[test]
fn banner_text_at_the_sizes_of_the_presets() {
    assert_eq!(
        lines("The Lemonade Company makes lemonade", 1500, 150),
        vec![strings(&["The", "Lemonade"]), strings(&["Company", "makes"]), strings(&["lemonade"])]
    );
    assert_eq!(wrap_words(&strings(&["a", "b"]), 100, 100), vec![strings(&["a"]), strings(&["b"])]);
}

#[test]
fn line_starts_and_groups() {
    assert_eq!(line_starts(&vec![24, 40, 40, 24], 100), vec![0, 2]);
    assert_eq!(line_starts(&vec![], 100), vec![0]);
    assert_eq!(line_starts(&vec![101], 100), vec![0, 0]);
    assert_eq!(line_starts(&vec![101, 5, 200, 1], 100), vec![0, 0, 1, 2, 3]);
    assert_eq!(line_starts(&vec![50, 50, 1, 99, 1], 100), vec![0, 2, 4]);
    assert_eq!(line_starts(&vec![u32::MAX, u32::MAX], u32::MAX), vec![0, 1]);
}

#[test]
fn fonts_are_looked_up_by_name() {
    let all = [
        FontFace::BebasKai,
        FontFace::LatoRegular,
        FontFace::MontserratRegular,
        FontFace::MrDafoeRegular,
        FontFace::Oswald,
        FontFace::OswaldRegular,
        FontFace::RobotoBold,
        FontFace::RobotoLight,
        FontFace::RobotoRegular,
    ];
    for font in all {
        assert_eq!(FontFace::from_name(font.name()), font);
    }
    assert_eq!(FontFace::from_name("Roboto-Bold"), FontFace::RobotoBold);
    assert_eq!(FontFace::BebasKai.name(), "BebasKai");
    assert_eq!(FontFace::LatoRegular.name(), "Lato-Regular");
    assert_eq!(FontFace::from_name("Comic Sans"), FontFace::RobotoRegular);
    assert_eq!(FontFace::from_name(""), FontFace::RobotoRegular);
    assert_eq!(FontFace::from_name("bebaskai"), FontFace::RobotoRegular);
}

#[test]
fn font_and_caption_hold_their_parts() {
    let red = Rgb { r: 200, g: 20, b: 50 };
    let font = Font::new("Lato-Regular", 12, red);
    assert_eq!(font.name, "Lato-Regular");
    assert_eq!(font.size, 12);
    assert_eq!(font.color, red);
    assert_eq!(font.face(), FontFace::LatoRegular);
    assert_eq!(Font::new("Papyrus", 12, red).face(), FontFace::RobotoRegular);
    let caption = Caption::new("Hello", 3, 4, FontFace::Oswald, 50, red);
    assert_eq!(caption.text, "Hello");
    assert_eq!((caption.x, caption.y, caption.font_size), (3, 4, 50));
    assert_eq!(caption.font, FontFace::Oswald);
    assert_eq!(caption.color, red);
    let mut other = Rgb { r: 1, g: 2, b: 3 };
    assert_eq!(other.new(7, 8, 9), Rgb { r: 7, g: 8, b: 9 });
    assert_eq!(other, Rgb { r: 1, g: 2, b: 3 });
}

#[test]
fn rotations_are_read_from_degrees_and_directions() {
    assert_eq!(Rotation::from_degrees("90"), Rotation::Quarter);
    assert_eq!(Rotation::from_degrees("180"), Rotation::Half);
    assert_eq!(Rotation::from_degrees("270"), Rotation::ThreeQuarters);
    assert_eq!(Rotation::from_degrees("360"), Rotation::Quarter);
    assert_eq!(Rotation::facing("left"), Some(Rotation::ThreeQuarters));
    assert_eq!(Rotation::facing("right"), Some(Rotation::Quarter));
    assert_eq!(Rotation::facing("down"), None);
}

#[test]
fn canvas_of_a_text_that_is_to_be_turned() {
    // 18 bytes at a size of 110: 18 * 110 * 0.48 wide and 110 * 1.3 high.
    assert_eq!(rotated_text_canvas(18, 110), (950, 143));
    assert_eq!(rotated_text_canvas(0, 110), (0, 143));
    assert_eq!(rotated_text_canvas(1, 1), (0, 1));
    assert_eq!(rotated_text_canvas(usize::MAX, u32::MAX), (u32::MAX, u32::MAX));
}

#[test]
fn pen_is_ten_pixels_right_and_up() {
    assert_eq!(pen_position(230, 270), (240, 260));
    assert_eq!(pen_position(0, 0), (10, -10));
    assert_eq!(pen_position(u32::MAX, u32::MAX), (u32::MAX as i64 + 10, u32::MAX as i64 - 10));
}

#[test]
fn letters_of_a_vertical_text_go_down_in_equal_steps() {
    let anchors = vertical_letter_anchors(3, 40, 100, 50).unwrap();
    assert_eq!(
        anchors,
        vec![Point { x: 40, y: 140 }, Point { x: 40, y: 180 }, Point { x: 40, y: 220 }]
    );
    assert!(vertical_letter_anchors(0, 40, 100, 50).unwrap().is_empty());
    assert_eq!(vertical_letter_anchors(2, 0, 0, 11).unwrap()[1], Point { x: 0, y: 16 });
    assert_eq!(
        vertical_letter_anchors(u32::MAX as usize + 1, 0, 0, 1).err(),
        Some(GraphicsError::InvalidInput)
    );
}

#[test]
fn preset_gradients_of_the_canvas() {
    assert_eq!(preset_stops("lemongrass"), ("blue", "yellow"));
    assert_eq!(preset_stops("flames"), ("#f12711", "#f5af19"));
    assert_eq!(preset_stops("pastel"), ("#8360c3", "#2ebf91"));
    assert_eq!(preset_stops("pink"), ("#DD5E89", "#F7BB97"));
    assert_eq!(preset_stops("ocean"), ("#4CB8C4", "#3CD3AD"));
    assert_eq!(preset_stops("aquamarine"), ("#1A2980", "#26D0CE"));
    assert_eq!(preset_stops("rosewater"), ("#E55D87", "#5FC3E4"));
    assert_eq!(preset_stops("zigzag"), ("#3CA55C", "#B5AC49"));
    assert_eq!(preset_stops("seaweed"), ("#348F50", "#56B4D3"));
    assert_eq!(preset_stops("tropics"), ("#16A085", "#F4D03F"));
    assert_eq!(preset_stops("sunset"), ("magenta", "black"));
}
