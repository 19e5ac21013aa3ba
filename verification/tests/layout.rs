use gdl::chart::{Chart, ChartKind, Orientation};
use gdl::color::Rgb;
use gdl::error::GraphicsError;
use gdl::layout::{
    axes, axis_segments, bar_separators, label_anchors, label_captions, line_colour,
    line_points, line_segments, separator_colour, title_anchor, title_caption, Axes, Point,
    Segment,
};
use gdl::text::{Caption, FontFace};

fn chart_of(data: Vec<u16>, labels: &[&str], width: u32, height: u32) -> Chart {
    let labels = labels.iter().map(|label| label.to_string()).collect();
    Chart::new("Earnings".to_string(), Rgb { r: 1, g: 2, b: 3 }, data, labels, height, width)
        .unwrap()
}

#[test]
fn chart_checks_its_parts() {
    let blue = Rgb { r: 40, g: 50, b: 200 };
    let made = |data: Vec<u16>, labels: Vec<String>, height: u32, width: u32| {
        Chart::new("Earnings".to_string(), blue, data, labels, height, width)
    };
    let chart = made(vec![1, 2], vec!["a".to_string(), "b".to_string()], 30, 40).unwrap();
    assert_eq!(chart.title, "Earnings");
    assert_eq!(chart.color, blue);
    assert_eq!(chart.data, vec![1, 2]);
    assert_eq!(chart.labels, vec!["a".to_string(), "b".to_string()]);
    assert_eq!((chart.height, chart.width), (30, 40));
    assert!(chart.is_valid());
    assert!(made(vec![1, 2], Vec::new(), 30, 40).is_ok());
    assert!(made(Vec::new(), Vec::new(), 30, 40).is_ok());
    assert_eq!(made(vec![1, 2], Vec::new(), 0, 40).err(), Some(GraphicsError::InvalidInput));
    assert_eq!(made(vec![1, 2], Vec::new(), 30, 0).err(), Some(GraphicsError::InvalidInput));
    assert_eq!(
        made(vec![1, 2], vec!["a".to_string()], 30, 40).err(),
        Some(GraphicsError::InvalidInput)
    );
    assert_eq!(
        made(vec![0, 5, 40, 20, 30], vec!["a".to_string(); 4], 1500, 1500).err(),
        Some(GraphicsError::InvalidInput)
    );
    let mut by_hand = chart.clone();
    by_hand.width = 0;
    assert!(!by_hand.is_valid());
}

#[test]
fn axes_run_between_the_margins() {
    let chart = chart_of(vec![1], &[], 1500, 1000);
    assert_eq!(
        axes(&chart),
        Ok(Axes {
            origin: Point { x: 150, y: 900 },
            x_axis_end: Point { x: 1350, y: 900 },
            y_axis_end: Point { x: 150, y: 100 },
        })
    );
}

#[test]
fn labels_are_evenly_spaced_along_the_axis() {
    let chart = chart_of(vec![0, 5, 40, 20], &["a", "b", "c", "d"], 1500, 1500);
    let anchors = label_anchors(&chart, Orientation::Vertical).unwrap();
    assert_eq!(anchors.len(), 4);
    assert_eq!(anchors[0], Point { x: 150, y: 1350 });
    for pair in anchors.windows(2) {
        assert_eq!(pair[1].x - pair[0].x, 1200 / 4);
        assert_eq!(pair[1].y, pair[0].y);
    }
    let down = label_anchors(&chart, Orientation::Horizontal).unwrap();
    assert_eq!(down[0], Point { x: 150, y: 150 });
    assert_eq!(down[3], Point { x: 150, y: 150 + 3 * 300 });
}

#[test]
fn labels_of_a_crowded_axis_share_a_place() {
    let data = vec![1; 20];
    let labels = vec!["x"; 20];
    let chart = chart_of(data, &labels, 10, 10);
    let anchors = label_anchors(&chart, Orientation::Vertical).unwrap();
    assert!(anchors.iter().all(|anchor| *anchor == Point { x: 1, y: 9 }));
}

#[test]
fn chart_without_labels_has_no_anchors() {
    let chart = chart_of(vec![1, 2, 3], &[], 300, 300);
    assert_eq!(label_anchors(&chart, Orientation::Vertical), Ok(Vec::new()));
}

#[test]
fn line_rises_with_the_values() {
    let chart = chart_of(vec![0, 5, 40, 20, 30], &[], 1500, 1500);
    let points = line_points(&chart).unwrap();
    assert_eq!(
        points,
        vec![
            Point { x: 390, y: 1350 },
            Point { x: 630, y: 1200 },
            Point { x: 870, y: 150 },
            Point { x: 1110, y: 750 },
            Point { x: 1350, y: 450 },
        ]
    );
}

#[test]
fn line_of_zeros_lies_on_the_base_line() {
    let chart = chart_of(vec![0, 0], &[], 100, 100);
    assert_eq!(
        line_points(&chart),
        Ok(vec![Point { x: 50, y: 90 }, Point { x: 90, y: 90 }])
    );
}

#[test]
fn title_goes_to_the_base_line_or_below_the_bars() {
    let chart = chart_of(vec![5, 10, 20, 40], &[], 1500, 1500);
    assert_eq!(
        title_anchor(&chart, Orientation::Vertical, ChartKind::BarChart),
        Ok(Point { x: 10, y: 1350 })
    );
    assert_eq!(
        title_anchor(&chart, Orientation::Horizontal, ChartKind::BarChart),
        Ok(Point { x: 10, y: 150 + 4 * 270 })
    );
    assert_eq!(
        title_anchor(&chart, Orientation::Horizontal, ChartKind::Histogram),
        Ok(Point { x: 10, y: 150 + 4 * 240 })
    );
}

#[test]
fn layout_of_an_empty_series_is_invalid_input() {
    let chart = chart_of(vec![], &[], 1500, 1500);
    assert_eq!(axes(&chart), Err(GraphicsError::InvalidInput));
    assert_eq!(label_anchors(&chart, Orientation::Vertical), Err(GraphicsError::InvalidInput));
    assert_eq!(line_points(&chart), Err(GraphicsError::InvalidInput));
    assert_eq!(
        title_anchor(&chart, Orientation::Vertical, ChartKind::BarChart),
        Err(GraphicsError::InvalidInput)
    );
}

#[test]
fn layout_at_the_largest_canvas_does_not_overflow() {
    let chart = chart_of(vec![1, 65535], &["a", "b"], u32::MAX, u32::MAX);
    assert!(axes(&chart).is_ok());
    assert_eq!(label_anchors(&chart, Orientation::Horizontal).unwrap().len(), 2);
    assert_eq!(line_points(&chart).unwrap().len(), 2);
    assert!(title_anchor(&chart, Orientation::Horizontal, ChartKind::BarChart).is_ok());
}

#[test]
fn title_is_set_in_lato_at_fifty() {
    let chart = chart_of(vec![5, 10, 20, 40], &[], 1500, 1500);
    let yellow = Rgb { r: 255, g: 226, b: 98 };
    assert_eq!(
        title_caption(&chart, Orientation::Vertical, ChartKind::BarChart),
        Ok(Caption {
            text: "Earnings".to_string(),
            x: 10,
            y: 1350,
            font: FontFace::LatoRegular,
            font_size: 50,
            color: yellow,
        })
    );
    let lying = title_caption(&chart, Orientation::Horizontal, ChartKind::Histogram).unwrap();
    assert_eq!((lying.x, lying.y), (10, 150 + 4 * 240));
    // A row beyond 32 bits is given as the last row that 32 bits can name.
    let huge = chart_of(vec![1; 40_000_000], &[], u32::MAX, u32::MAX);
    let far = title_caption(&huge, Orientation::Horizontal, ChartKind::BarChart).unwrap();
    assert_eq!(far.y, u32::MAX);
    assert_eq!(
        title_caption(&chart_of(vec![], &[], 10, 10), Orientation::Vertical, ChartKind::BarChart),
        Err(GraphicsError::InvalidInput)
    );
}

#[test]
fn labels_are_set_in_roboto_at_thirty() {
    let chart = chart_of(vec![0, 5, 40], &["zero", "five", "forty"], 1500, 1500);
    let green = Rgb { r: 150, g: 150, b: 30 };
    let captions = label_captions(&chart, Orientation::Vertical).unwrap();
    let expected: Vec<Caption> = [("zero", 150), ("five", 550), ("forty", 950)]
        .iter()
        .map(|(text, x)| Caption {
            text: text.to_string(),
            x: *x,
            y: 1350,
            font: FontFace::RobotoRegular,
            font_size: 30,
            color: green,
        })
        .collect();
    assert_eq!(captions, expected);
    let down = label_captions(&chart, Orientation::Horizontal).unwrap();
    assert_eq!((down[2].x, down[2].y), (150, 950));
    assert_eq!(down[2].text, "forty");
    assert!(label_captions(&chart_of(vec![1], &[], 9, 9), Orientation::Vertical)
        .unwrap()
        .is_empty());
    assert_eq!(
        label_captions(&chart_of(vec![], &[], 9, 9), Orientation::Vertical),
        Err(GraphicsError::InvalidInput)
    );
}

#[test]
fn histogram_bars_are_parted_by_lines() {
    let chart = chart_of(vec![1, 2, 4], &[], 1000, 600);
    let lines = bar_separators(&chart, ChartKind::Histogram).unwrap();
    assert_eq!(
        lines,
        vec![
            Segment { from: Point { x: 100, y: 188 }, to: Point { x: 300, y: 188 } },
            Segment { from: Point { x: 100, y: 316 }, to: Point { x: 500, y: 316 } },
            Segment { from: Point { x: 100, y: 444 }, to: Point { x: 900, y: 444 } },
        ]
    );
    assert_eq!(bar_separators(&chart, ChartKind::BarChart), Ok(Vec::new()));
    assert_eq!(
        bar_separators(&chart_of(vec![], &[], 9, 9), ChartKind::Histogram),
        Err(GraphicsError::InvalidInput)
    );
    assert_eq!(separator_colour(), Rgb { r: 255, g: 255, b: 255 });
    assert_eq!(line_colour(), Rgb { r: 255, g: 167, b: 90 });
    let huge = chart_of(vec![1, 65535], &[], u32::MAX, u32::MAX);
    assert_eq!(bar_separators(&huge, ChartKind::Histogram).unwrap().len(), 2);
}

#[test]
fn line_runs_from_the_origin_through_the_points() {
    let chart = chart_of(vec![0, 5, 40], &[], 1500, 1500);
    let points = line_points(&chart).unwrap();
    let lines = line_segments(&chart).unwrap();
    assert_eq!(
        lines,
        vec![
            Segment { from: Point { x: 150, y: 1350 }, to: points[0] },
            Segment { from: points[0], to: points[1] },
            Segment { from: points[1], to: points[2] },
        ]
    );
    assert_eq!(lines[2].to, Point { x: 1350, y: 150 });
    assert_eq!(line_segments(&chart_of(vec![], &[], 9, 9)), Err(GraphicsError::InvalidInput));
}

#[test]
fn axes_as_segments() {
    let chart = chart_of(vec![1], &[], 1500, 1000);
    let origin = Point { x: 150, y: 900 };
    assert_eq!(
        axis_segments(&chart),
        Ok((
            Segment { from: origin, to: Point { x: 150, y: 100 } },
            Segment { from: origin, to: Point { x: 1350, y: 900 } },
        ))
    );
    assert_eq!(axis_segments(&chart_of(vec![], &[], 9, 9)), Err(GraphicsError::InvalidInput));
}
