//! The chart data holder, the chart kind and the orientation.

use vstd::prelude::*;
use crate::color::Rgb;
use crate::error::GraphicsError;
use crate::raster::text_eq;

verus! {

/// The gap, in pixels, between neighbouring bars of a bar chart.
pub const BAR_CHART_GAP: u32 = 30;

/// Which way the bars of a chart run.
#[derive(Debug, Clone, Copy, PartialEq, Eq, Structural)]
pub enum Orientation {
    /// Bars grow from the left margin to the right; they are stacked from the
    /// top down.
    Horizontal,
    /// Bars grow from the base line upwards; they are laid out from left to
    /// right.
    Vertical,
}

/// What separates neighbouring bars.
#[derive(Debug, Clone, Copy, PartialEq, Eq, Structural)]
pub enum ChartKind {
    /// Bars divided by a fixed gap of [`BAR_CHART_GAP`] pixels.
    BarChart,
    /// Bars that touch.
    Histogram,
}

impl ChartKind {
    /// The gap between neighbouring bars, as a mathematical integer.
    pub open spec fn spec_gap(self) -> int {
        match self {
            ChartKind::BarChart => 30,
            ChartKind::Histogram => 0,
        }
    }

    /// The kind that a name stands for, if any: `barchart` or `histogram`.
    pub open spec fn spec_from_name(name: Seq<char>) -> Option<ChartKind> {
        if name == "barchart"@ {
            Some(ChartKind::BarChart)
        } else if name == "histogram"@ {
            Some(ChartKind::Histogram)
        } else {
            None
        }
    }

    /// Reads a chart kind from its name, `barchart` or `histogram`. Any
    /// other name is `InvalidInput`.
    pub fn from_name(name: &str) -> (res: Result<ChartKind, GraphicsError>)
        ensures
            res is Ok <==> Self::spec_from_name(name@) is Some,
            res matches Ok(kind) ==> Self::spec_from_name(name@) == Some(kind),
            res matches Err(e) ==> e == GraphicsError::InvalidInput,
    {
        if text_eq(name, "barchart") {
            Ok(ChartKind::BarChart)
        } else if text_eq(name, "histogram") {
            Ok(ChartKind::Histogram)
        } else {
            Err(GraphicsError::InvalidInput)
        }
    }

    /// The gap between neighbouring bars, in pixels.
    pub fn gap(self) -> (g: u32)
        ensures
            g == self.spec_gap(),
    {
        match self {
            ChartKind::BarChart => BAR_CHART_GAP,
            ChartKind::Histogram => 0,
        }
    }
}

impl Orientation {
    /// The canvas dimension along which a value is encoded.
    pub open spec fn value_dim(self, chart: Chart) -> int {
        match self {
            Orientation::Horizontal => chart.width as int,
            Orientation::Vertical => chart.height as int,
        }
    }

    /// The canvas dimension along which the bars follow one another.
    pub open spec fn cross_dim(self, chart: Chart) -> int {
        match self {
            Orientation::Horizontal => chart.height as int,
            Orientation::Vertical => chart.width as int,
        }
    }
}

/// All that a chart drawing needs: title, colour, data series, labels and the
/// size of the canvas.
#[derive(Debug, Clone)]
pub struct Chart {
    pub title: String,
    pub color: Rgb,
    pub data: Vec<u16>,
    pub labels: Vec<String>,
    pub height: u32,
    pub width: u32,
}

impl Chart {
    /// The conditions under which the fields describe a chart: both canvas
    /// dimensions are positive, labels are either absent or one per value,
    /// and the values can be counted in 32 bits, as canvas coordinates are.
    pub open spec fn valid_parts(
        data_len: int,
        labels_len: int,
        height: int,
        width: int,
    ) -> bool {
        &&& height > 0
        &&& width > 0
        &&& (labels_len == 0 || labels_len == data_len)
        &&& data_len <= u32::MAX
    }

    /// Whether this value satisfies the invariant of a chart.
    pub open spec fn valid(self) -> bool {
        Self::valid_parts(
            self.data@.len() as int,
            self.labels@.len() as int,
            self.height as int,
            self.width as int,
        )
    }

    /// Whether there is anything to draw: a valid chart with at least one
    /// value.
    pub open spec fn drawable(self) -> bool {
        self.valid() && self.data@.len() > 0
    }

    /// Creates a chart, or reports `InvalidInput` where the parts break the
    /// invariant described at [`Chart::valid_parts`].
    pub fn new(
        title: String,
        color: Rgb,
        data: Vec<u16>,
        labels: Vec<String>,
        height: u32,
        width: u32,
    ) -> (res: Result<Chart, GraphicsError>)
        ensures
            res is Ok <==> Self::valid_parts(
                data@.len() as int,
                labels@.len() as int,
                height as int,
                width as int,
            ),
            res matches Ok(chart) ==> {
                &&& chart.valid()
                &&& chart.title == title
                &&& chart.color == color
                &&& chart.data == data
                &&& chart.labels == labels
                &&& chart.height == height
                &&& chart.width == width
            },
            res matches Err(e) ==> e == GraphicsError::InvalidInput,
    {
        if height == 0 || width == 0 {
            return Err(GraphicsError::InvalidInput);
        }
        if labels.len() != 0 && labels.len() != data.len() {
            return Err(GraphicsError::InvalidInput);
        }
        if data.len() > u32::MAX as usize {
            return Err(GraphicsError::InvalidInput);
        }
        Ok(Chart { title, color, data, labels, height, width })
    }

    /// Checks the invariant of a chart whose fields were set by hand.
    pub fn is_valid(&self) -> (ok: bool)
        ensures
            ok == self.valid(),
    {
        self.height > 0 && self.width > 0 && (self.labels.len() == 0 || self.labels.len()
            == self.data.len()) && self.data.len() <= u32::MAX as usize
    }
}

} // verus!
