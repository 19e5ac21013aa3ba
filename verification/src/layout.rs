//! Axis and label layout: where the axes of a chart run, where each label is
//! anchored, where the points of a line chart lie and where the title goes.
//!
//! All of it sits between the margins that the geometry calculator keeps free.
//! Labels and line points advance by the slot of one value: the available
//! room divided by the number of values, rounded down.

use vstd::prelude::*;
use crate::chart::{Chart, ChartKind, Orientation};
use crate::color::Rgb;
use crate::error::GraphicsError;
use crate::geometry::{
    are_bars, available_extent, bar_height, bar_offset, bar_rectangles, bar_slot, bar_thickness,
    bar_width, bar_x, bar_y, drawable, drawable_extent, is_bar, lemma_drawable_extent_bounds,
    lemma_scaled_extent_bounds, lemma_series_max_is_upper_bound, lemma_thickness_fits, margin,
    max_value, scale_to_extent, scaled_extent, series_max,
};
use crate::text::{capped, is_caption, Caption, FontFace};

verus! {

/// The distance of the title from the left edge of the canvas.
pub const TITLE_INSET: u64 = 10;

/// A position on the canvas, in pixels from the top-left corner.
#[derive(Debug, Clone, Copy, PartialEq, Eq, Structural)]
pub struct Point {
    pub x: u64,
    pub y: u64,
}

/// The two axes of a chart: they meet at the origin, the x-axis runs to the
/// right and the y-axis runs up.
#[derive(Debug, Clone, Copy, PartialEq, Eq, Structural)]
pub struct Axes {
    pub origin: Point,
    pub x_axis_end: Point,
    pub y_axis_end: Point,
}

/// The x-coordinate of the origin: the left margin.
pub open spec fn origin_x(chart: Chart) -> int {
    margin(chart.width as int)
}

/// The y-coordinate of the origin: the base line, one margin above the bottom.
pub open spec fn origin_y(chart: Chart) -> int {
    chart.height - margin(chart.height as int)
}

/// Whether `axes` are the axes of the chart: the x-axis ends at the right
/// margin, the y-axis at the top margin.
pub open spec fn are_axes(axes: Axes, chart: Chart) -> bool {
    &&& axes.origin.x == origin_x(chart)
    &&& axes.origin.y == origin_y(chart)
    &&& axes.x_axis_end.x == chart.width - margin(chart.width as int)
    &&& axes.x_axis_end.y == origin_y(chart)
    &&& axes.y_axis_end.x == origin_x(chart)
    &&& axes.y_axis_end.y == margin(chart.height as int)
}

/// How far label `i` is from the start of the axis along which the values
/// follow one another.
pub open spec fn label_offset(chart: Chart, orientation: Orientation, i: int) -> int {
    margin(orientation.cross_dim(chart)) + i * bar_slot(chart, orientation)
}

/// The x-coordinate of the anchor of label `i`.
pub open spec fn label_x(chart: Chart, orientation: Orientation, i: int) -> int {
    match orientation {
        Orientation::Horizontal => origin_x(chart),
        Orientation::Vertical => label_offset(chart, orientation, i),
    }
}

/// The y-coordinate of the anchor of label `i`.
pub open spec fn label_y(chart: Chart, orientation: Orientation, i: int) -> int {
    match orientation {
        Orientation::Horizontal => label_offset(chart, orientation, i),
        Orientation::Vertical => origin_y(chart),
    }
}

/// Whether `anchors` are the label anchors of the chart: one per label, in
/// the order of the labels.
pub open spec fn are_label_anchors(
    anchors: Seq<Point>,
    chart: Chart,
    orientation: Orientation,
) -> bool {
    &&& anchors.len() == chart.labels@.len()
    &&& forall|i: int|
        0 <= i < anchors.len() ==> {
            &&& (#[trigger] anchors[i]).x == label_x(chart, orientation, i)
            &&& anchors[i].y == label_y(chart, orientation, i)
        }
}

/// The x-coordinate of point `i` of the line: one slot further than label `i`.
pub open spec fn line_point_x(chart: Chart, i: int) -> int {
    origin_x(chart) + (i + 1) * bar_slot(chart, Orientation::Vertical)
}

/// The y-coordinate of point `i` of the line: above the base line by the
/// share of the drawable height that the value earns.
pub open spec fn line_point_y(chart: Chart, i: int) -> int {
    origin_y(chart) - scaled_extent(
        drawable_extent(chart.height as int),
        chart.data@[i] as int,
        series_max(chart.data@),
    )
}

/// Whether `points` are the points of the line chart: one per value, in the
/// order of the values.
pub open spec fn are_line_points(points: Seq<Point>, chart: Chart) -> bool {
    &&& points.len() == chart.data@.len()
    &&& forall|i: int|
        0 <= i < points.len() ==> {
            &&& (#[trigger] points[i]).x == line_point_x(chart, i)
            &&& points[i].y == line_point_y(chart, i)
        }
}

/// The y-coordinate of the title: the base line of a vertical chart, the end
/// of the bar sequence of a horizontal one.
pub open spec fn title_y(chart: Chart, orientation: Orientation, kind: ChartKind) -> int {
    match orientation {
        Orientation::Horizontal => bar_offset(
            chart,
            orientation,
            kind,
            chart.data@.len() as int,
        ),
        Orientation::Vertical => origin_y(chart),
    }
}

/// The slots of all the values together fit in the available room.
pub proof fn lemma_slots_fit(available: int, count: int)
    requires
        0 <= available,
        0 < count,
    ensures
        0 <= available / count <= available,
        forall|i: int| 0 <= i <= count ==> 0 <= #[trigger] (i * (available / count)) <= available,
{
    let slot = available / count;
    assert(0 <= slot <= available && slot * count <= available) by (nonlinear_arith)
        requires
            0 <= available,
            0 < count,
            slot == available / count,
    ;
    assert forall|i: int| 0 <= i <= count implies 0 <= #[trigger] (i * slot) <= available by {
        assert(0 <= i * slot <= slot * count) by (nonlinear_arith)
            requires
                0 <= i <= count,
                0 <= slot,
        ;
    }
}

/// Computes the axes of the chart.
///
/// Fails with `InvalidInput`, and only then, where the chart is not valid or
/// has no value.
pub fn axes(chart: &Chart) -> (res: Result<Axes, GraphicsError>)
    ensures
        res is Ok <==> chart.drawable(),
        res matches Ok(axes) ==> are_axes(axes, *chart),
        res matches Err(e) ==> e == GraphicsError::InvalidInput,
{
    if !chart.is_valid() || chart.data.len() == 0 {
        return Err(GraphicsError::InvalidInput);
    }
    let left: u32 = chart.width / 10;
    let top: u32 = chart.height / 10;
    let base: u32 = chart.height - top;
    Ok(
        Axes {
            origin: Point { x: left as u64, y: base as u64 },
            x_axis_end: Point { x: (chart.width - left) as u64, y: base as u64 },
            y_axis_end: Point { x: left as u64, y: top as u64 },
        },
    )
}

/// Computes the anchor of every label of the chart.
///
/// Fails with `InvalidInput`, and only then, where the chart is not valid or
/// has no value. A chart without labels has no anchors.
pub fn label_anchors(chart: &Chart, orientation: Orientation) -> (res: Result<
    Vec<Point>,
    GraphicsError,
>)
    ensures
        res is Ok <==> chart.drawable(),
        res matches Ok(anchors) ==> are_label_anchors(anchors@, *chart, orientation),
        res matches Err(e) ==> e == GraphicsError::InvalidInput,
{
    if !chart.is_valid() || chart.data.len() == 0 {
        return Err(GraphicsError::InvalidInput);
    }
    let count: usize = chart.data.len();
    let cross_dim: u32 = match orientation {
        Orientation::Horizontal => chart.height,
        Orientation::Vertical => chart.width,
    };
    let slot: u32 = drawable(cross_dim) / (count as u32);
    let lead: u32 = cross_dim / 10;
    let left: u32 = chart.width / 10;
    let base: u32 = chart.height - chart.height / 10;
    proof {
        lemma_drawable_extent_bounds(cross_dim as int);
        lemma_slots_fit(drawable_extent(cross_dim as int), count as int);
    }
    let mut anchors: Vec<Point> = Vec::new();
    let mut cursor: u64 = lead as u64;
    let mut i: usize = 0;
    while i < chart.labels.len()
        invariant
            chart.drawable(),
            count == chart.data@.len(),
            i <= chart.labels@.len() <= count,
            cross_dim == orientation.cross_dim(*chart),
            slot == bar_slot(*chart, orientation),
            lead == margin(cross_dim as int),
            left == origin_x(*chart),
            base == origin_y(*chart),
            forall|j: int|
                0 <= j <= count ==> 0 <= #[trigger] (j * (drawable_extent(cross_dim as int) / (
                count as int))) <= drawable_extent(cross_dim as int),
            cursor == label_offset(*chart, orientation, i as int),
            anchors@.len() == i,
            forall|j: int|
                0 <= j < i ==> {
                    &&& (#[trigger] anchors@[j]).x == label_x(*chart, orientation, j)
                    &&& anchors@[j].y == label_y(*chart, orientation, j)
                },
        decreases chart.labels@.len() - i,
    {
        let anchor = match orientation {
            Orientation::Horizontal => Point { x: left as u64, y: cursor },
            Orientation::Vertical => Point { x: cursor, y: base as u64 },
        };
        anchors.push(anchor);
        proof {
            assert((i + 1) * (drawable_extent(cross_dim as int) / (count as int))
                <= drawable_extent(cross_dim as int));
            assert((i + 1) * (slot as int) == i * (slot as int) + slot) by (nonlinear_arith);
        }
        cursor = cursor + slot as u64;
        i += 1;
    }
    Ok(anchors)
}

/// Computes the points of a line chart, one per value, from left to right.
///
/// Fails with `InvalidInput`, and only then, where the chart is not valid or
/// has no value. A series whose values are all zero lies on the base line.
pub fn line_points(chart: &Chart) -> (res: Result<Vec<Point>, GraphicsError>)
    ensures
        res is Ok <==> chart.drawable(),
        res matches Ok(points) ==> are_line_points(points@, *chart),
        res matches Err(e) ==> e == GraphicsError::InvalidInput,
{
    if !chart.is_valid() || chart.data.len() == 0 {
        return Err(GraphicsError::InvalidInput);
    }
    let count: usize = chart.data.len();
    let max: u16 = max_value(&chart.data);
    let full: u32 = drawable(chart.height);
    let slot: u32 = drawable(chart.width) / (count as u32);
    let left: u32 = chart.width / 10;
    let base: u32 = chart.height - chart.height / 10;
    proof {
        lemma_drawable_extent_bounds(chart.width as int);
        lemma_drawable_extent_bounds(chart.height as int);
        lemma_slots_fit(drawable_extent(chart.width as int), count as int);
    }
    let mut points: Vec<Point> = Vec::new();
    let mut cursor: u64 = left as u64 + slot as u64;
    let mut i: usize = 0;
    while i < count
        invariant
            chart.drawable(),
            count == chart.data@.len(),
            i <= count,
            max == series_max(chart.data@),
            full == drawable_extent(chart.height as int),
            slot == bar_slot(*chart, Orientation::Vertical),
            slot <= u32::MAX,
            left == origin_x(*chart),
            base == origin_y(*chart),
            base >= full,
            forall|j: int|
                0 <= j <= count ==> 0 <= #[trigger] (j * (drawable_extent(chart.width as int) / (
                count as int))) <= drawable_extent(chart.width as int),
            cursor == line_point_x(*chart, i as int),
            cursor <= 2 * u32::MAX,
            points@.len() == i,
            forall|j: int|
                0 <= j < i ==> {
                    &&& (#[trigger] points@[j]).x == line_point_x(*chart, j)
                    &&& points@[j].y == line_point_y(*chart, j)
                },
        decreases count - i,
    {
        let value: u16 = chart.data[i];
        proof {
            lemma_series_max_is_upper_bound(chart.data@, i as int);
            lemma_scaled_extent_bounds(full as int, value as int, max as int);
        }
        let rise: u32 = scale_to_extent(full, value, max);
        points.push(Point { x: cursor, y: (base - rise) as u64 });
        proof {
            let s = drawable_extent(chart.width as int) / (count as int);
            assert((i + 1) * s <= drawable_extent(chart.width as int));
            assert((i + 2) * s == (i + 1) * s + s) by (nonlinear_arith);
        }
        cursor = cursor + slot as u64;
        i += 1;
    }
    Ok(points)
}

/// Computes where the title of a bar chart or histogram is anchored:
/// [`TITLE_INSET`] pixels from the left edge, at the height that [`title_y`]
/// gives.
///
/// Fails with `InvalidInput`, and only then, where the chart is not valid or
/// has no value.
pub fn title_anchor(chart: &Chart, orientation: Orientation, kind: ChartKind) -> (res: Result<
    Point,
    GraphicsError,
>)
    ensures
        res is Ok <==> chart.drawable(),
        res matches Ok(anchor) ==> anchor.x == TITLE_INSET && anchor.y == title_y(
            *chart,
            orientation,
            kind,
        ),
        res matches Err(e) ==> e == GraphicsError::InvalidInput,
{
    if !chart.is_valid() || chart.data.len() == 0 {
        return Err(GraphicsError::InvalidInput);
    }
    match orientation {
        Orientation::Vertical => Ok(
            Point { x: TITLE_INSET, y: (chart.height - chart.height / 10) as u64 },
        ),
        Orientation::Horizontal => {
            let count: u64 = chart.data.len() as u64;
            let available: u32 = drawable(chart.height);
            let slot: u32 = available / (count as u32);
            let thickness: u32 = ((slot as u64 * 4) / 5) as u32;
            let step: u64 = thickness as u64 + kind.gap() as u64;
            proof {
                lemma_drawable_extent_bounds(chart.height as int);
                lemma_thickness_fits(available as int, count as int);
                assert(thickness == bar_thickness(*chart, orientation));
                assert(0 <= count * (thickness as int) <= available);
                assert(count * step == count * (thickness as int) + count * kind.spec_gap())
                    by (nonlinear_arith)
                    requires
                        step == thickness + kind.spec_gap(),
                ;
                assert(0 <= count * kind.spec_gap() <= 30 * count) by (nonlinear_arith)
                    requires
                        0 <= kind.spec_gap() <= 30,
                        0 <= count,
                ;
            }
            Ok(Point { x: TITLE_INSET, y: (chart.height / 10) as u64 + count * step })
        },
    }
}

/// Label anchors advance evenly along the axis: each is exactly one slot, the
/// available room divided by the number of values, further than the one
/// before, so the anchors never run backwards, and they move forward
/// wherever the slot is at least one pixel. All of them lie between the two
/// margins.
pub proof fn lemma_labels_evenly_spaced(chart: Chart, orientation: Orientation, i: int)
    requires
        chart.drawable(),
        0 <= i,
        i + 1 < chart.data@.len(),
    ensures
        label_offset(chart, orientation, i + 1) - label_offset(chart, orientation, i)
            == available_extent(chart, orientation) / (chart.data@.len() as int),
        label_offset(chart, orientation, i) <= label_offset(chart, orientation, i + 1),
        available_extent(chart, orientation) >= chart.data@.len() ==> label_offset(
            chart,
            orientation,
            i,
        ) < label_offset(chart, orientation, i + 1),
        margin(orientation.cross_dim(chart)) <= label_offset(chart, orientation, i),
        label_offset(chart, orientation, i + 1) <= orientation.cross_dim(chart) - margin(
            orientation.cross_dim(chart),
        ),
{
    let available = available_extent(chart, orientation);
    let count = chart.data@.len() as int;
    let slot = available / count;
    lemma_drawable_extent_bounds(orientation.cross_dim(chart));
    lemma_slots_fit(available, count);
    assert((i + 1) * slot == i * slot + slot) by (nonlinear_arith);
    assert(0 <= i * slot);
    assert((i + 1) * slot <= available);
    assert(available >= count ==> slot >= 1) by (nonlinear_arith)
        requires
            0 < count,
            slot == available / count,
    ;
}

/// Any two label anchors are as far apart as their indices, in slots: the
/// order of the labels along the axis is the order of their indices.
pub proof fn lemma_labels_monotonic(chart: Chart, orientation: Orientation, i: int, j: int)
    requires
        chart.drawable(),
        0 <= i <= j,
    ensures
        label_offset(chart, orientation, j) - label_offset(chart, orientation, i) == (j - i)
            * (available_extent(chart, orientation) / (chart.data@.len() as int)),
        label_offset(chart, orientation, i) <= label_offset(chart, orientation, j),
{
    let available = available_extent(chart, orientation);
    let count = chart.data@.len() as int;
    let slot = available / count;
    lemma_drawable_extent_bounds(orientation.cross_dim(chart));
    lemma_slots_fit(available, count);
    assert(j * slot - i * slot == (j - i) * slot && (j - i) * slot >= 0) by (nonlinear_arith)
        requires
            0 <= i <= j,
            0 <= slot,
    ;
}

/// Every point of the line lies inside the rectangle that the two axes span.
pub proof fn lemma_line_points_inside_axes(chart: Chart, i: int)
    requires
        chart.drawable(),
        0 <= i < chart.data@.len(),
    ensures
        origin_x(chart) <= line_point_x(chart, i) <= chart.width - margin(chart.width as int),
        margin(chart.height as int) <= line_point_y(chart, i) <= origin_y(chart),
        (chart.data@[i] == series_max(chart.data@) && series_max(chart.data@) > 0)
            ==> line_point_y(chart, i) == margin(chart.height as int),
{
    lemma_drawable_extent_bounds(chart.width as int);
    lemma_drawable_extent_bounds(chart.height as int);
    lemma_slots_fit(drawable_extent(chart.width as int), chart.data@.len() as int);
    lemma_series_max_is_upper_bound(chart.data@, i);
    lemma_scaled_extent_bounds(
        drawable_extent(chart.height as int),
        chart.data@[i] as int,
        series_max(chart.data@),
    );
    let slot = drawable_extent(chart.width as int) / (chart.data@.len() as int);
    assert(0 <= (i + 1) * slot <= drawable_extent(chart.width as int));
}

/// A straight line from one point to another.
#[derive(Debug, Clone, Copy, PartialEq, Eq, Structural)]
pub struct Segment {
    pub from: Point,
    pub to: Point,
}

/// The colour of the title of a chart.
pub open spec fn spec_title_colour() -> Rgb {
    Rgb { r: 255, g: 226, b: 98 }
}

/// The colour of the labels of a chart.
pub open spec fn spec_label_colour() -> Rgb {
    Rgb { r: 150, g: 150, b: 30 }
}

/// The colour of the axes and of the line of a line chart.
pub open spec fn spec_line_colour() -> Rgb {
    Rgb { r: 255, g: 167, b: 90 }
}

/// The colour of the lines that part the bars of a lying histogram.
pub open spec fn spec_separator_colour() -> Rgb {
    Rgb { r: 255, g: 255, b: 255 }
}

/// The colour of the axes and of the line of a line chart.
pub fn line_colour() -> (color: Rgb)
    ensures
        color == spec_line_colour(),
{
    Rgb { r: 255, g: 167, b: 90 }
}

/// The colour of the lines that part the bars of a lying histogram.
pub fn separator_colour() -> (color: Rgb)
    ensures
        color == spec_separator_colour(),
{
    Rgb { r: 255, g: 255, b: 255 }
}

/// A coordinate in 32 bits, at `u32::MAX` where it is more.
fn cap(value: u64) -> (capped_value: u32)
    ensures
        capped_value == capped(value as int),
{
    if value > u32::MAX as u64 {
        u32::MAX
    } else {
        value as u32
    }
}

/// The caption of the title of a bar chart or histogram: the title of the
/// chart in `Lato-Regular` at size 50, anchored where [`title_y`] says,
/// [`TITLE_INSET`] pixels from the left edge. A row beyond `u32::MAX` is
/// given as `u32::MAX`.
///
/// Fails with `InvalidInput`, and only then, where the chart is not valid or
/// has no value.
pub fn title_caption(chart: &Chart, orientation: Orientation, kind: ChartKind) -> (res: Result<
    Caption,
    GraphicsError,
>)
    ensures
        res is Ok <==> chart.drawable(),
        res matches Ok(caption) ==> is_caption(
            caption,
            chart.title@,
            TITLE_INSET as int,
            capped(title_y(*chart, orientation, kind)),
            FontFace::LatoRegular,
            50,
            spec_title_colour(),
        ),
        res matches Err(e) ==> e == GraphicsError::InvalidInput,
{
    let anchor = title_anchor(chart, orientation, kind)?;
    let yellow = Rgb { r: 255, g: 226, b: 98 };
    Ok(
        Caption::new(
            chart.title.as_str(),
            cap(anchor.x),
            cap(anchor.y),
            FontFace::LatoRegular,
            50,
            yellow,
        ),
    )
}

/// The captions of the labels of a chart: label `i` in `Roboto-Regular` at
/// size 30, at anchor `i`. A chart without labels has no captions.
///
/// Fails with `InvalidInput`, and only then, where the chart is not valid or
/// has no value.
pub fn label_captions(chart: &Chart, orientation: Orientation) -> (res: Result<
    Vec<Caption>,
    GraphicsError,
>)
    ensures
        res is Ok <==> chart.drawable(),
        res matches Ok(captions) ==> {
            &&& captions@.len() == chart.labels@.len()
            &&& forall|i: int|
                0 <= i < captions@.len() ==> is_caption(
                    #[trigger] captions@[i],
                    chart.labels@[i]@,
                    capped(label_x(*chart, orientation, i)),
                    capped(label_y(*chart, orientation, i)),
                    FontFace::RobotoRegular,
                    30,
                    spec_label_colour(),
                )
        },
        res matches Err(e) ==> e == GraphicsError::InvalidInput,
{
    let anchors = label_anchors(chart, orientation)?;
    let colour = Rgb { r: 150, g: 150, b: 30 };
    let mut captions: Vec<Caption> = Vec::new();
    let mut i: usize = 0;
    while i < chart.labels.len()
        invariant
            i <= chart.labels@.len(),
            are_label_anchors(anchors@, *chart, orientation),
            colour == spec_label_colour(),
            captions@.len() == i,
            forall|j: int|
                0 <= j < i ==> is_caption(
                    #[trigger] captions@[j],
                    chart.labels@[j]@,
                    capped(label_x(*chart, orientation, j)),
                    capped(label_y(*chart, orientation, j)),
                    FontFace::RobotoRegular,
                    30,
                    spec_label_colour(),
                ),
        decreases chart.labels@.len() - i,
    {
        let anchor = anchors[i];
        captions.push(
            Caption::new(
                chart.labels[i].as_str(),
                cap(anchor.x),
                cap(anchor.y),
                FontFace::RobotoRegular,
                30,
                colour,
            ),
        );
        i += 1;
    }
    Ok(captions)
}

/// The row of the line under bar `i` of a lying chart: the row after the
/// last row of the bar.
pub open spec fn separator_row(chart: Chart, kind: ChartKind, i: int) -> int {
    bar_y(chart, Orientation::Horizontal, kind, i) + bar_height(chart, Orientation::Horizontal, i)
}

/// Whether `lines` part the bars of a lying chart: a histogram has one line
/// under each bar, as long as the bar; a bar chart has none.
pub open spec fn are_separators(lines: Seq<Segment>, chart: Chart, kind: ChartKind) -> bool {
    &&& lines.len() == (if kind == ChartKind::Histogram {
        chart.data@.len()
    } else {
        0
    })
    &&& forall|i: int|
        0 <= i < lines.len() ==> {
            &&& (#[trigger] lines[i]).from.x == bar_x(chart, Orientation::Horizontal, kind, i)
            &&& lines[i].from.y == separator_row(chart, kind, i)
            &&& lines[i].to.x == bar_x(chart, Orientation::Horizontal, kind, i) + bar_width(
                chart,
                Orientation::Horizontal,
                i,
            )
            &&& lines[i].to.y == separator_row(chart, kind, i)
        }
}

/// Every bar starts within thirty-two times the range of 32 bits.
pub proof fn lemma_bar_offset_is_bounded(
    chart: Chart,
    orientation: Orientation,
    kind: ChartKind,
    i: int,
)
    requires
        chart.drawable(),
        0 <= i <= chart.data@.len(),
    ensures
        0 <= bar_offset(chart, orientation, kind, i) <= 32 * 0xffff_ffff,
{
    lemma_drawable_extent_bounds(orientation.cross_dim(chart));
    lemma_thickness_fits(available_extent(chart, orientation), chart.data@.len() as int);
    let thickness = bar_thickness(chart, orientation);
    let gap = kind.spec_gap();
    assert(0 <= i * thickness <= available_extent(chart, orientation));
    assert(i * (thickness + gap) == i * thickness + i * gap && 0 <= i * gap <= 30 * 0xffff_ffff)
        by (nonlinear_arith)
        requires
            0 <= i <= 0xffff_ffff,
            0 <= gap <= 30,
    ;
}

/// The lines that part the bars of a lying chart; see [`are_separators`].
///
/// Fails with `InvalidInput`, and only then, where the chart is not valid or
/// has no value.
pub fn bar_separators(chart: &Chart, kind: ChartKind) -> (res: Result<Vec<Segment>, GraphicsError>)
    ensures
        res is Ok <==> chart.drawable(),
        res matches Ok(lines) ==> are_separators(lines@, *chart, kind),
        res matches Err(e) ==> e == GraphicsError::InvalidInput,
{
    let bars = bar_rectangles(chart, Orientation::Horizontal, kind)?;
    let mut lines: Vec<Segment> = Vec::new();
    match kind {
        ChartKind::BarChart => {},
        ChartKind::Histogram => {
            let mut i: usize = 0;
            while i < bars.len()
                invariant
                    i <= bars@.len(),
                    chart.drawable(),
                    kind == ChartKind::Histogram,
                    are_bars(bars@, *chart, Orientation::Horizontal, kind),
                    lines@.len() == i,
                    forall|j: int|
                        0 <= j < i ==> {
                            &&& (#[trigger] lines@[j]).from.x == bar_x(
                                *chart,
                                Orientation::Horizontal,
                                kind,
                                j,
                            )
                            &&& lines@[j].from.y == separator_row(*chart, kind, j)
                            &&& lines@[j].to.x == bar_x(*chart, Orientation::Horizontal, kind, j)
                                + bar_width(*chart, Orientation::Horizontal, j)
                            &&& lines@[j].to.y == separator_row(*chart, kind, j)
                        },
                decreases bars@.len() - i,
            {
                let bar = bars[i];
                proof {
                    assert(is_bar(bar, *chart, Orientation::Horizontal, kind, i as int));
                    lemma_bar_offset_is_bounded(*chart, Orientation::Horizontal, kind, i as int);
                }
                let below: u64 = bar.y + bar.height as u64;
                lines.push(
                    Segment {
                        from: Point { x: bar.x, y: below },
                        to: Point { x: bar.x + bar.width as u64, y: below },
                    },
                );
                i += 1;
            }
        },
    }
    Ok(lines)
}

/// Whether `lines` draw the line of a line chart: the first runs from the
/// origin to the first point, every other from the point before to its own
/// point.
pub open spec fn are_line_segments(lines: Seq<Segment>, chart: Chart) -> bool {
    &&& lines.len() == chart.data@.len()
    &&& forall|i: int|
        0 <= i < lines.len() ==> {
            &&& (#[trigger] lines[i]).to.x == line_point_x(chart, i)
            &&& lines[i].to.y == line_point_y(chart, i)
            &&& lines[i].from.x == (if i == 0 {
                origin_x(chart)
            } else {
                line_point_x(chart, i - 1)
            })
            &&& lines[i].from.y == (if i == 0 {
                origin_y(chart)
            } else {
                line_point_y(chart, i - 1)
            })
        }
}

/// The segments of the line of a line chart, from left to right; see
/// [`are_line_segments`].
///
/// Fails with `InvalidInput`, and only then, where the chart is not valid or
/// has no value.
pub fn line_segments(chart: &Chart) -> (res: Result<Vec<Segment>, GraphicsError>)
    ensures
        res is Ok <==> chart.drawable(),
        res matches Ok(lines) ==> are_line_segments(lines@, *chart),
        res matches Err(e) ==> e == GraphicsError::InvalidInput,
{
    let frame = axes(chart)?;
    let points = line_points(chart)?;
    let mut lines: Vec<Segment> = Vec::new();
    let mut from: Point = frame.origin;
    let mut i: usize = 0;
    while i < points.len()
        invariant
            i <= points@.len(),
            are_line_points(points@, *chart),
            are_axes(frame, *chart),
            from.x == (if i == 0 {
                origin_x(*chart)
            } else {
                line_point_x(*chart, i - 1)
            }),
            from.y == (if i == 0 {
                origin_y(*chart)
            } else {
                line_point_y(*chart, i - 1)
            }),
            lines@.len() == i,
            forall|j: int|
                0 <= j < i ==> {
                    &&& (#[trigger] lines@[j]).to.x == line_point_x(*chart, j)
                    &&& lines@[j].to.y == line_point_y(*chart, j)
                    &&& lines@[j].from.x == (if j == 0 {
                        origin_x(*chart)
                    } else {
                        line_point_x(*chart, j - 1)
                    })
                    &&& lines@[j].from.y == (if j == 0 {
                        origin_y(*chart)
                    } else {
                        line_point_y(*chart, j - 1)
                    })
                },
        decreases points@.len() - i,
    {
        let to = points[i];
        lines.push(Segment { from, to });
        from = to;
        i += 1;
    }
    Ok(lines)
}

/// The two axes of a chart as segments from the origin: the y-axis first,
/// then the x-axis.
///
/// Fails with `InvalidInput`, and only then, where the chart is not valid or
/// has no value.
pub fn axis_segments(chart: &Chart) -> (res: Result<(Segment, Segment), GraphicsError>)
    ensures
        res is Ok <==> chart.drawable(),
        res matches Ok(lines) ==> are_axes(
            Axes { origin: lines.0.from, x_axis_end: lines.1.to, y_axis_end: lines.0.to },
            *chart,
        ) && lines.1.from == lines.0.from,
        res matches Err(e) ==> e == GraphicsError::InvalidInput,
{
    let frame = axes(chart)?;
    Ok(
        (
            Segment { from: frame.origin, to: frame.y_axis_end },
            Segment { from: frame.origin, to: frame.x_axis_end },
        ),
    )
}

} // verus!
