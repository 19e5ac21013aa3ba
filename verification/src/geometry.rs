//! The geometry calculator: from a chart, an orientation and a chart kind to
//! one rectangle per value.
//!
//! A tenth of each canvas dimension is kept free at both ends. Along the value
//! axis a bar is as long as its value's share of the largest value; along the
//! other axis every bar takes four fifths of an equal slot, and the chart kind
//! decides the gap between neighbours. A series whose values are all zero has
//! bars of length zero.

use vstd::prelude::*;
use crate::chart::{Chart, ChartKind, Orientation};
use crate::error::GraphicsError;

verus! {

/// A bar: the top-left corner and the size, in pixels.
#[derive(Debug, Clone, Copy, PartialEq, Eq, Structural)]
pub struct BarRect {
    pub x: u64,
    pub y: u64,
    pub width: u32,
    pub height: u32,
}

/// The margin kept free at each end of a dimension: a tenth of it.
pub open spec fn margin(dim: int) -> int {
    dim / 10
}

/// What is left of a dimension between the two margins.
pub open spec fn drawable_extent(dim: int) -> int {
    dim - 2 * margin(dim)
}

/// The largest value of a series; zero for the empty series.
pub open spec fn series_max(values: Seq<u16>) -> int
    decreases values.len(),
{
    if values.len() == 0 {
        0
    } else {
        let rest = series_max(values.drop_last());
        if values.last() > rest {
            values.last() as int
        } else {
            rest
        }
    }
}

/// The share of `full` that `value` earns when `max` earns all of it,
/// rounded down; zero when `max` is zero.
pub open spec fn scaled_extent(full: int, value: int, max: int) -> int {
    if max <= 0 {
        0
    } else {
        (full * value) / max
    }
}

/// The longest that a bar can be.
pub open spec fn max_drawable_extent(chart: Chart, orientation: Orientation) -> int {
    drawable_extent(orientation.value_dim(chart))
}

/// The room that the bars share along the axis on which they follow one
/// another.
pub open spec fn available_extent(chart: Chart, orientation: Orientation) -> int {
    drawable_extent(orientation.cross_dim(chart))
}

/// The equal share of the available room that each bar is given.
pub open spec fn bar_slot(chart: Chart, orientation: Orientation) -> int {
    available_extent(chart, orientation) / (chart.data@.len() as int)
}

/// The thickness of every bar: four fifths of its slot, rounded down.
pub open spec fn bar_thickness(chart: Chart, orientation: Orientation) -> int {
    (bar_slot(chart, orientation) * 4) / 5
}

/// The length of bar `i` along the value axis.
pub open spec fn bar_extent(chart: Chart, orientation: Orientation, i: int) -> int {
    scaled_extent(
        max_drawable_extent(chart, orientation),
        chart.data@[i] as int,
        series_max(chart.data@),
    )
}

/// Where bar `i` starts along the axis on which the bars follow one another.
pub open spec fn bar_offset(chart: Chart, orientation: Orientation, kind: ChartKind, i: int) -> int {
    margin(orientation.cross_dim(chart)) + i * (bar_thickness(chart, orientation)
        + kind.spec_gap())
}

/// The sum of the thicknesses of `count` bars and of the gaps between them.
pub open spec fn occupied_extent(count: int, thickness: int, gap: int) -> int {
    count * thickness + (count - 1) * gap
}

/// The left edge of bar `i`.
pub open spec fn bar_x(chart: Chart, orientation: Orientation, kind: ChartKind, i: int) -> int {
    match orientation {
        Orientation::Horizontal => margin(chart.width as int),
        Orientation::Vertical => bar_offset(chart, orientation, kind, i),
    }
}

/// The top edge of bar `i`. A vertical bar stands on the base line, one
/// margin above the bottom of the canvas.
pub open spec fn bar_y(chart: Chart, orientation: Orientation, kind: ChartKind, i: int) -> int {
    match orientation {
        Orientation::Horizontal => bar_offset(chart, orientation, kind, i),
        Orientation::Vertical => chart.height - margin(chart.height as int) - bar_extent(
            chart,
            orientation,
            i,
        ),
    }
}

/// The width of bar `i`.
pub open spec fn bar_width(chart: Chart, orientation: Orientation, i: int) -> int {
    match orientation {
        Orientation::Horizontal => bar_extent(chart, orientation, i),
        Orientation::Vertical => bar_thickness(chart, orientation),
    }
}

/// The height of bar `i`.
pub open spec fn bar_height(chart: Chart, orientation: Orientation, i: int) -> int {
    match orientation {
        Orientation::Horizontal => bar_thickness(chart, orientation),
        Orientation::Vertical => bar_extent(chart, orientation, i),
    }
}

/// Whether `rect` is bar `i` of the chart.
pub open spec fn is_bar(
    rect: BarRect,
    chart: Chart,
    orientation: Orientation,
    kind: ChartKind,
    i: int,
) -> bool {
    &&& rect.x == bar_x(chart, orientation, kind, i)
    &&& rect.y == bar_y(chart, orientation, kind, i)
    &&& rect.width == bar_width(chart, orientation, i)
    &&& rect.height == bar_height(chart, orientation, i)
}

/// Whether `bars` are the bars of the chart, one per value and in the order of
/// the values.
pub open spec fn are_bars(
    bars: Seq<BarRect>,
    chart: Chart,
    orientation: Orientation,
    kind: ChartKind,
) -> bool {
    &&& bars.len() == chart.data@.len()
    &&& forall|i: int|
        0 <= i < bars.len() ==> is_bar(#[trigger] bars[i], chart, orientation, kind, i)
}

/// Every value of a series is at most the largest.
pub proof fn lemma_series_max_is_upper_bound(values: Seq<u16>, i: int)
    requires
        0 <= i < values.len(),
    ensures
        values[i] <= series_max(values),
    decreases values.len(),
{
    if i < values.len() - 1 {
        lemma_series_max_is_upper_bound(values.drop_last(), i);
    }
}

/// The largest value of a non-empty series is one of its values.
pub proof fn lemma_series_max_is_attained(values: Seq<u16>) -> (at: int)
    requires
        values.len() > 0,
    ensures
        0 <= at < values.len(),
        values[at] == series_max(values),
    decreases values.len(),
{
    if values.len() == 1 {
        assert(series_max(values.drop_last()) == 0);
        0
    } else if values.last() > series_max(values.drop_last()) {
        values.len() - 1
    } else {
        lemma_series_max_is_attained(values.drop_last())
    }
}

/// The largest value of a series is positive exactly when one of its values
/// is.
pub proof fn lemma_series_max_positive(values: Seq<u16>)
    ensures
        0 <= series_max(values) <= u16::MAX,
        series_max(values) > 0 <==> exists|i: int| 0 <= i < values.len() && values[i] > 0,
    decreases values.len(),
{
    if values.len() > 0 {
        let at = lemma_series_max_is_attained(values);
        if series_max(values) == 0 {
            assert forall|i: int| 0 <= i < values.len() implies values[i] == 0 by {
                lemma_series_max_is_upper_bound(values, i);
            }
        }
    }
}

/// The scaled extent lies between zero and the full extent.
pub proof fn lemma_scaled_extent_bounds(full: int, value: int, max: int)
    requires
        0 <= full,
        0 <= value <= max,
    ensures
        0 <= scaled_extent(full, value, max) <= full,
        max > 0 ==> (scaled_extent(full, value, max) > 0 <==> full * value >= max),
        (max > 0 && value == max) ==> scaled_extent(full, value, max) == full,
{
    if max > 0 {
        assert(0 <= (full * value) / max <= full && (((full * value) / max > 0) <==> full * value
            >= max) && (value == max ==> (full * value) / max == full)) by (nonlinear_arith)
            requires
                0 <= full,
                0 <= value <= max,
                max > 0,
        ;
    }
}

/// What is left between the margins is positive for a positive dimension, and
/// never more than the dimension.
pub proof fn lemma_drawable_extent_bounds(dim: int)
    requires
        0 <= dim,
    ensures
        0 <= margin(dim),
        0 <= drawable_extent(dim) <= dim,
        dim > 0 ==> drawable_extent(dim) > 0,
        margin(dim) + drawable_extent(dim) + margin(dim) == dim,
{
}

/// The thicknesses of all the bars together fit in the available room.
pub proof fn lemma_thickness_fits(available: int, count: int)
    requires
        0 <= available,
        0 < count,
    ensures
        0 <= (available / count) * 4 / 5 <= available / count,
        count * ((available / count) * 4 / 5) <= available,
        forall|i: int|
            0 <= i <= count ==> 0 <= #[trigger] (i * ((available / count) * 4 / 5)) <= available,
{
    let slot = available / count;
    let thickness = slot * 4 / 5;
    assert(0 <= slot && slot * count <= available) by (nonlinear_arith)
        requires
            0 <= available,
            0 < count,
            slot == available / count,
    ;
    assert(0 <= thickness <= slot);
    assert forall|i: int| 0 <= i <= count implies 0 <= #[trigger] (i * thickness)
        <= available by {
        assert(0 <= i * thickness <= count * slot) by (nonlinear_arith)
            requires
                0 <= i <= count,
                0 <= thickness <= slot,
        ;
        assert(count * slot == slot * count) by (nonlinear_arith);
    }
    assert(count * thickness <= available);
}

/// The largest value of the series.
pub fn max_value(data: &Vec<u16>) -> (max: u16)
    ensures
        max == series_max(data@),
{
    let mut max: u16 = 0;
    let mut i: usize = 0;
    while i < data.len()
        invariant
            i <= data.len(),
            max == series_max(data@.take(i as int)),
        decreases data.len() - i,
    {
        assert(data@.take(i + 1).drop_last() =~= data@.take(i as int));
        if data[i] > max {
            max = data[i];
        }
        i += 1;
    }
    assert(data@.take(i as int) =~= data@);
    max
}

/// The dimension less a tenth of it at each end.
pub fn drawable(dim: u32) -> (extent: u32)
    ensures
        extent == drawable_extent(dim as int),
{
    dim - 2 * (dim / 10)
}

/// The share of `full` that `value` earns when `max` earns all of it.
pub(crate) fn scale_to_extent(full: u32, value: u16, max: u16) -> (extent: u32)
    requires
        value <= max,
    ensures
        extent == scaled_extent(full as int, value as int, max as int),
{
    if max == 0 {
        0
    } else {
        proof {
            lemma_scaled_extent_bounds(full as int, value as int, max as int);
            assert(0 <= full * value <= 0xffff_ffff * 0xffff) by (nonlinear_arith)
                requires
                    0 <= full <= 0xffff_ffff,
                    0 <= value <= 0xffff,
            ;
        }
        let product: u64 = full as u64 * value as u64;
        (product / max as u64) as u32
    }
}

/// Computes the rectangle of every bar of the chart.
///
/// Fails with `InvalidInput`, and only then, where the chart is not valid or
/// has no value. Otherwise there is one rectangle per value, in the order of
/// the values, each as [`is_bar`] describes it.
pub fn bar_rectangles(chart: &Chart, orientation: Orientation, kind: ChartKind) -> (res: Result<
    Vec<BarRect>,
    GraphicsError,
>)
    ensures
        res is Ok <==> chart.drawable(),
        res matches Ok(bars) ==> are_bars(bars@, *chart, orientation, kind),
        res matches Err(e) ==> e == GraphicsError::InvalidInput,
{
    if !chart.is_valid() || chart.data.len() == 0 {
        return Err(GraphicsError::InvalidInput);
    }
    let count: usize = chart.data.len();
    let (value_dim, cross_dim): (u32, u32) = match orientation {
        Orientation::Horizontal => (chart.width, chart.height),
        Orientation::Vertical => (chart.height, chart.width),
    };
    let max: u16 = max_value(&chart.data);
    let full: u32 = drawable(value_dim);
    let available: u32 = drawable(cross_dim);
    let slot: u32 = available / (count as u32);
    let thickness: u32 = ((slot as u64 * 4) / 5) as u32;
    let step: u64 = thickness as u64 + kind.gap() as u64;
    let lead: u32 = cross_dim / 10;
    let base: u32 = match orientation {
        Orientation::Horizontal => chart.width / 10,
        Orientation::Vertical => chart.height - chart.height / 10,
    };
    proof {
        lemma_thickness_fits(available as int, count as int);
        assert(thickness == bar_thickness(*chart, orientation));
    }
    let mut bars: Vec<BarRect> = Vec::new();
    let mut cursor: u64 = lead as u64;
    let mut i: usize = 0;
    while i < count
        invariant
            chart.drawable(),
            count == chart.data@.len(),
            i <= count,
            max == series_max(chart.data@),
            full == max_drawable_extent(*chart, orientation),
            value_dim == orientation.value_dim(*chart),
            cross_dim == orientation.cross_dim(*chart),
            thickness == bar_thickness(*chart, orientation),
            step == thickness + kind.spec_gap(),
            lead == margin(cross_dim as int),
            base == match orientation {
                Orientation::Horizontal => margin(chart.width as int),
                Orientation::Vertical => chart.height - margin(chart.height as int),
            },
            forall|j: int| 0 <= j <= count ==> 0 <= #[trigger] (j * thickness) <= available,
            cursor == bar_offset(*chart, orientation, kind, i as int),
            bars@.len() == i,
            forall|j: int|
                0 <= j < i ==> is_bar(#[trigger] bars@[j], *chart, orientation, kind, j),
        decreases count - i,
    {
        let value: u16 = chart.data[i];
        proof {
            lemma_series_max_is_upper_bound(chart.data@, i as int);
            lemma_scaled_extent_bounds(full as int, value as int, max as int);
            lemma_drawable_extent_bounds(value_dim as int);
        }
        let extent: u32 = scale_to_extent(full, value, max);
        let rect = match orientation {
            Orientation::Horizontal => BarRect {
                x: base as u64,
                y: cursor,
                width: extent,
                height: thickness,
            },
            Orientation::Vertical => BarRect {
                x: cursor,
                y: (base - extent) as u64,
                width: thickness,
                height: extent,
            },
        };
        bars.push(rect);
        proof {
            let gap = kind.spec_gap();
            assert((i + 1) * thickness <= available);
            assert((i + 1) * (thickness + gap) == i * (thickness + gap) + thickness + gap
                && (i + 1) * (thickness + gap) == (i + 1) * thickness + (i + 1) * gap)
                by (nonlinear_arith);
        }
        cursor = cursor + step;
        i += 1;
    }
    Ok(bars)
}

/// Whether the bars of the chart and the gaps between them take no more
/// than the available room.
///
/// Fails with `InvalidInput`, and only then, where the chart is not valid or
/// has no value.
pub fn bars_fit_available_extent(chart: &Chart, orientation: Orientation, kind: ChartKind) -> (res:
    Result<bool, GraphicsError>)
    ensures
        res is Ok <==> chart.drawable(),
        res matches Ok(fits) ==> fits == (occupied_extent(
            chart.data@.len() as int,
            bar_thickness(*chart, orientation),
            kind.spec_gap(),
        ) <= available_extent(*chart, orientation)),
        res matches Err(e) ==> e == GraphicsError::InvalidInput,
{
    if !chart.is_valid() || chart.data.len() == 0 {
        return Err(GraphicsError::InvalidInput);
    }
    let count: u64 = chart.data.len() as u64;
    let cross_dim: u32 = match orientation {
        Orientation::Horizontal => chart.height,
        Orientation::Vertical => chart.width,
    };
    let available: u32 = drawable(cross_dim);
    let slot: u32 = available / (count as u32);
    let thickness: u32 = ((slot as u64 * 4) / 5) as u32;
    let gap: u64 = kind.gap() as u64;
    proof {
        lemma_thickness_fits(available as int, count as int);
        assert(0 <= count * (thickness as int) <= available);
        assert(0 <= (count - 1) * gap <= 30 * 0xffff_ffff) by (nonlinear_arith)
            requires
                1 <= count <= 0xffff_ffff,
                0 <= gap <= 30,
        ;
    }
    Ok(count * thickness as u64 + (count - 1) * gap <= available as u64)
}

/// Where at least one value of the series is positive, every bar is at
/// most as long as the longest that a bar can be, and a bar has a positive
/// length exactly when its value earns at least one pixel.
///
/// A value of zero, or one so small beside the largest that its share rounds
/// down to nothing, gives a bar of length zero.
pub proof fn lemma_bar_extent_bounds(chart: Chart, orientation: Orientation, i: int)
    requires
        chart.drawable(),
        0 <= i < chart.data@.len(),
        exists|j: int| 0 <= j < chart.data@.len() && chart.data@[j] > 0,
    ensures
        0 <= bar_extent(chart, orientation, i) <= max_drawable_extent(chart, orientation),
        bar_extent(chart, orientation, i) > 0 <==> max_drawable_extent(chart, orientation)
            * chart.data@[i] >= series_max(chart.data@),
        chart.data@[i] == 0 ==> bar_extent(chart, orientation, i) == 0,
{
    lemma_series_max_positive(chart.data@);
    lemma_series_max_is_upper_bound(chart.data@, i);
    lemma_drawable_extent_bounds(orientation.value_dim(chart));
    lemma_scaled_extent_bounds(
        max_drawable_extent(chart, orientation),
        chart.data@[i] as int,
        series_max(chart.data@),
    );
    if chart.data@[i] == 0 {
        assert(max_drawable_extent(chart, orientation) * 0 == 0);
    }
}

/// A bar whose value is the largest of the series is exactly as long as the
/// longest that a bar can be, provided that the largest value is not zero.
pub proof fn lemma_max_bar_has_full_extent(chart: Chart, orientation: Orientation, i: int)
    requires
        chart.drawable(),
        0 <= i < chart.data@.len(),
        chart.data@[i] == series_max(chart.data@),
        series_max(chart.data@) > 0,
    ensures
        bar_extent(chart, orientation, i) == max_drawable_extent(chart, orientation),
{
    lemma_drawable_extent_bounds(orientation.value_dim(chart));
    lemma_scaled_extent_bounds(
        max_drawable_extent(chart, orientation),
        chart.data@[i] as int,
        series_max(chart.data@),
    );
}

/// Where all the values are zero, every bar has length zero.
pub proof fn lemma_zero_series_has_empty_bars(chart: Chart, orientation: Orientation, i: int)
    requires
        chart.drawable(),
        0 <= i < chart.data@.len(),
        series_max(chart.data@) == 0,
    ensures
        bar_extent(chart, orientation, i) == 0,
{
}

/// The bars of a histogram, which have no gaps, never take more than the
/// available room.
pub proof fn lemma_histogram_fits(chart: Chart, orientation: Orientation)
    requires
        chart.drawable(),
    ensures
        0 <= occupied_extent(
            chart.data@.len() as int,
            bar_thickness(chart, orientation),
            ChartKind::Histogram.spec_gap(),
        ) <= available_extent(chart, orientation),
{
    lemma_drawable_extent_bounds(orientation.cross_dim(chart));
    lemma_thickness_fits(available_extent(chart, orientation), chart.data@.len() as int);
    let count = chart.data@.len() as int;
    let thickness = bar_thickness(chart, orientation);
    assert(0 <= count * thickness <= available_extent(chart, orientation));
    assert((count - 1) * 0 == 0);
}

/// The bars of a bar chart and the gaps between them take no more than the
/// available room whenever the gaps, at five times their size, fit in it:
/// the bars leave a fifth of the room to the gaps.
pub proof fn lemma_bar_chart_fits(chart: Chart, orientation: Orientation)
    requires
        chart.drawable(),
        5 * ((chart.data@.len() - 1) * ChartKind::BarChart.spec_gap()) <= available_extent(
            chart,
            orientation,
        ),
    ensures
        0 <= occupied_extent(
            chart.data@.len() as int,
            bar_thickness(chart, orientation),
            ChartKind::BarChart.spec_gap(),
        ) <= available_extent(chart, orientation),
{
    lemma_drawable_extent_bounds(orientation.cross_dim(chart));
    let available = available_extent(chart, orientation);
    let count = chart.data@.len() as int;
    lemma_thickness_fits(available, count);
    let slot = available / count;
    let thickness = bar_thickness(chart, orientation);
    assert(thickness == slot * 4 / 5);
    assert(0 <= count * thickness);
    assert(5 * (count * thickness) <= 4 * available) by (nonlinear_arith)
        requires
            0 <= available,
            0 < count,
            slot == available / count,
            thickness == slot * 4 / 5,
    ;
}

/// Where the bars and the gaps between them take no more than the available
/// room, every bar lies between the two margins of the axis on which the
/// bars follow one another, and no bar starts before its predecessor ends.
pub proof fn lemma_bars_stay_between_margins(
    chart: Chart,
    orientation: Orientation,
    kind: ChartKind,
    i: int,
)
    requires
        chart.drawable(),
        0 <= i < chart.data@.len(),
        occupied_extent(
            chart.data@.len() as int,
            bar_thickness(chart, orientation),
            kind.spec_gap(),
        ) <= available_extent(chart, orientation),
    ensures
        margin(orientation.cross_dim(chart)) <= bar_offset(chart, orientation, kind, i),
        bar_offset(chart, orientation, kind, i) + bar_thickness(chart, orientation)
            <= orientation.cross_dim(chart) - margin(orientation.cross_dim(chart)),
        i + 1 < chart.data@.len() ==> bar_offset(chart, orientation, kind, i + 1) == bar_offset(
            chart,
            orientation,
            kind,
            i,
        ) + bar_thickness(chart, orientation) + kind.spec_gap(),
{
    lemma_drawable_extent_bounds(orientation.cross_dim(chart));
    let available = available_extent(chart, orientation);
    let count = chart.data@.len() as int;
    lemma_thickness_fits(available, count);
    let thickness = bar_thickness(chart, orientation);
    let gap = kind.spec_gap();
    assert(0 <= i * (thickness + gap) && i * (thickness + gap) + thickness <= count * thickness
        + (count - 1) * gap && (i + 1) * (thickness + gap) == i * (thickness + gap) + thickness
        + gap) by (nonlinear_arith)
        requires
            0 <= i < count,
            0 <= thickness,
            0 <= gap,
    ;
}

/// Along the value axis every bar lies between the two margins: a vertical
/// bar stands on the base line and ends below the top margin, a horizontal
/// bar starts at the left margin and ends before the right one.
pub proof fn lemma_bars_stay_inside_value_axis(
    chart: Chart,
    orientation: Orientation,
    kind: ChartKind,
    i: int,
)
    requires
        chart.drawable(),
        0 <= i < chart.data@.len(),
    ensures
        orientation == Orientation::Vertical ==> {
            &&& margin(chart.height as int) <= bar_y(chart, orientation, kind, i)
            &&& bar_y(chart, orientation, kind, i) + bar_height(chart, orientation, i)
                == chart.height - margin(chart.height as int)
        },
        orientation == Orientation::Horizontal ==> {
            &&& bar_x(chart, orientation, kind, i) == margin(chart.width as int)
            &&& bar_x(chart, orientation, kind, i) + bar_width(chart, orientation, i)
                <= chart.width - margin(chart.width as int)
        },
{
    lemma_series_max_is_upper_bound(chart.data@, i);
    lemma_drawable_extent_bounds(orientation.value_dim(chart));
    lemma_scaled_extent_bounds(
        max_drawable_extent(chart, orientation),
        chart.data@[i] as int,
        series_max(chart.data@),
    );
}

/// The geometry is a function of the chart, the orientation and the kind:
/// two computations on the same input give the same rectangles.
pub proof fn lemma_geometry_is_deterministic(
    chart: Chart,
    orientation: Orientation,
    kind: ChartKind,
    first: Seq<BarRect>,
    second: Seq<BarRect>,
)
    requires
        are_bars(first, chart, orientation, kind),
        are_bars(second, chart, orientation, kind),
    ensures
        first == second,
{
    assert(first =~= second);
}

} // verus!
