//! Charts drawn onto an image: bar charts and histograms, upright or lying,
//! and a small flow chart.
//!
//! A drawing either completes or fails before the first pixel is written:
//! the geometry is computed and checked in full, then the bars are painted.

use vstd::prelude::*;
use crate::chart::{Chart, ChartKind, Orientation};
use crate::color::Rgb;
use crate::elements::draw_solid_rect;
use crate::error::GraphicsError;
use crate::geometry::{
    are_bars, bar_height, bar_rectangles, bar_width, bar_x, bar_y, is_bar, BarRect,
};
use crate::graphics::{draw_photonimage, lay_over};
use crate::image::{
    canvas_fits, channel_of, covers, filled, lemma_filled_empty, overlaid, rect_fits,
    resize_fits, resized, ImageView, PhotonImage,
};
use crate::resize::{can_resize, resize};

verus! {

/// Whether bar `i` of the chart can be painted: it is empty, and then
/// nothing is painted for it, or it is a rectangle that drawing routines
/// accept.
pub open spec fn bar_fits(chart: Chart, orientation: Orientation, kind: ChartKind, i: int) -> bool {
    ||| bar_width(chart, orientation, i) == 0
    ||| bar_height(chart, orientation, i) == 0
    ||| rect_fits(
        bar_x(chart, orientation, kind, i),
        bar_y(chart, orientation, kind, i),
        bar_width(chart, orientation, i),
        bar_height(chart, orientation, i),
    )
}

/// Whether every bar of the chart can be painted.
pub open spec fn bars_fit(chart: Chart, orientation: Orientation, kind: ChartKind) -> bool {
    forall|i: int| 0 <= i < chart.data@.len() ==> bar_fits(chart, orientation, kind, i)
}

/// The image after the first `count` bars of the chart were painted in the
/// colour of the chart, one after the other.
pub open spec fn bars_painted(
    view: ImageView,
    chart: Chart,
    orientation: Orientation,
    kind: ChartKind,
    count: nat,
) -> ImageView
    decreases count,
{
    if count == 0 {
        view
    } else {
        filled(
            bars_painted(view, chart, orientation, kind, (count - 1) as nat),
            bar_x(chart, orientation, kind, count - 1),
            bar_y(chart, orientation, kind, count - 1),
            bar_width(chart, orientation, count - 1),
            bar_height(chart, orientation, count - 1),
            chart.color,
            255,
        )
    }
}

/// The image after the whole chart was painted.
pub open spec fn chart_painted(
    view: ImageView,
    chart: Chart,
    orientation: Orientation,
    kind: ChartKind,
) -> ImageView {
    bars_painted(view, chart, orientation, kind, chart.data@.len())
}

/// Whether one of the first `count` bars of the chart covers the pixel at
/// column `px`, row `py`.
pub open spec fn covered_by_bar(
    chart: Chart,
    orientation: Orientation,
    kind: ChartKind,
    count: nat,
    px: int,
    py: int,
) -> bool {
    exists|j: int|
        0 <= j < count && #[trigger] covers(
            bar_x(chart, orientation, kind, j),
            bar_y(chart, orientation, kind, j),
            bar_width(chart, orientation, j),
            bar_height(chart, orientation, j),
            px,
            py,
        )
}

/// Painting the bars of a chart leaves the size of the image as it was,
/// gives every pixel that a bar covers the colour of the chart, opaque, and
/// leaves every other pixel as it was.
pub proof fn lemma_bars_painted_pixel(
    view: ImageView,
    chart: Chart,
    orientation: Orientation,
    kind: ChartKind,
    count: nat,
    i: int,
)
    requires
        0 <= i < view.pixels.len(),
    ensures
        bars_painted(view, chart, orientation, kind, count).width == view.width,
        bars_painted(view, chart, orientation, kind, count).height == view.height,
        bars_painted(view, chart, orientation, kind, count).pixels.len() == view.pixels.len(),
        bars_painted(view, chart, orientation, kind, count).pixels[i] == (if covered_by_bar(
            chart,
            orientation,
            kind,
            count,
            (i / 4) % view.width,
            (i / 4) / view.width,
        ) {
            channel_of(chart.color, 255, i % 4)
        } else {
            view.pixels[i]
        }),
    decreases count,
{
    let px = (i / 4) % view.width;
    let py = (i / 4) / view.width;
    if count > 0 {
        let before = (count - 1) as nat;
        lemma_bars_painted_pixel(view, chart, orientation, kind, before, i);
        let last = covers(
            bar_x(chart, orientation, kind, count - 1),
            bar_y(chart, orientation, kind, count - 1),
            bar_width(chart, orientation, count - 1),
            bar_height(chart, orientation, count - 1),
            px,
            py,
        );
        if covered_by_bar(chart, orientation, kind, count, px, py) {
            if !last {
                let j = choose|j: int|
                    0 <= j < count && #[trigger] covers(
                        bar_x(chart, orientation, kind, j),
                        bar_y(chart, orientation, kind, j),
                        bar_width(chart, orientation, j),
                        bar_height(chart, orientation, j),
                        px,
                        py,
                    );
                assert(j < before);
                assert(covered_by_bar(chart, orientation, kind, before, px, py));
            }
        } else {
            assert(!last);
            if covered_by_bar(chart, orientation, kind, before, px, py) {
                let j = choose|j: int|
                    0 <= j < before && #[trigger] covers(
                        bar_x(chart, orientation, kind, j),
                        bar_y(chart, orientation, kind, j),
                        bar_width(chart, orientation, j),
                        bar_height(chart, orientation, j),
                        px,
                        py,
                    );
                assert(0 <= j < count);
            }
        }
    }
}

/// Whether the rectangle can be painted; see [`bar_fits`].
fn bar_is_paintable(bar: &BarRect) -> (ok: bool)
    ensures
        ok == (bar.width == 0 || bar.height == 0 || rect_fits(
            bar.x as int,
            bar.y as int,
            bar.width as int,
            bar.height as int,
        )),
{
    bar.width == 0 || bar.height == 0 || (bar.x <= i32::MAX as u64 && bar.y <= i32::MAX as u64
        && bar.x + bar.width as u64 <= i32::MAX as u64 && bar.y + bar.height as u64
        <= i32::MAX as u64)
}

/// Paints the bars of a chart in the colour of the chart. A bar of length
/// zero, or of thickness zero, leaves no mark.
///
/// Fails with `InvalidInput`, and only then, where the chart is not valid or
/// has no value, the image is empty or wider or higher than `i32::MAX`, or
/// a bar that is not empty ends beyond `i32::MAX`. The image is then left
/// as it was.
pub fn draw_bars(
    img: &mut PhotonImage,
    chart: &Chart,
    orientation: Orientation,
    kind: ChartKind,
) -> (res: Result<(), GraphicsError>)
    ensures
        res is Ok <==> chart.drawable() && canvas_fits(old(img)@) && bars_fit(
            *chart,
            orientation,
            kind,
        ),
        res is Ok ==> final(img)@ == chart_painted(old(img)@, *chart, orientation, kind),
        res is Err ==> final(img)@ == old(img)@,
        res matches Err(e) ==> e == GraphicsError::InvalidInput,
{
    let bars = match bar_rectangles(chart, orientation, kind) {
        Ok(bars) => bars,
        Err(e) => {
            return Err(e);
        },
    };
    if !img.is_canvas() {
        return Err(GraphicsError::InvalidInput);
    }
    let mut i: usize = 0;
    while i < bars.len()
        invariant
            i <= bars@.len(),
            are_bars(bars@, *chart, orientation, kind),
            forall|j: int| 0 <= j < i ==> bar_fits(*chart, orientation, kind, j),
        decreases bars@.len() - i,
    {
        assert(is_bar(bars@[i as int], *chart, orientation, kind, i as int));
        if !bar_is_paintable(&bars[i]) {
            assert(!bar_fits(*chart, orientation, kind, i as int));
            return Err(GraphicsError::InvalidInput);
        }
        i += 1;
    }
    let mut i: usize = 0;
    while i < bars.len()
        invariant
            i <= bars@.len(),
            are_bars(bars@, *chart, orientation, kind),
            bars_fit(*chart, orientation, kind),
            canvas_fits(img@),
            img@ == bars_painted(old(img)@, *chart, orientation, kind, i as nat),
        decreases bars@.len() - i,
    {
        let bar = bars[i];
        assert(is_bar(bar, *chart, orientation, kind, i as int));
        assert(bar_fits(*chart, orientation, kind, i as int));
        if bar.width == 0 || bar.height == 0 {
            proof {
                lemma_filled_empty(
                    img@,
                    bar.x as int,
                    bar.y as int,
                    bar.width as int,
                    bar.height as int,
                    chart.color,
                    255,
                );
            }
        } else {
            let painted = draw_solid_rect(
                img,
                &chart.color,
                bar.width,
                bar.height,
                bar.x as i32,
                bar.y as i32,
            );
            assert(painted is Ok);
        }
        i += 1;
    }
    Ok(())
}

/// Paints the bars of an upright chart whose kind is given by name,
/// `barchart` or `histogram`.
///
/// Fails with `InvalidInput`, and only then, where the name is neither of
/// the two or [`draw_bars`] fails. The image is then left as it was.
pub fn draw_vertical_bars(img: &mut PhotonImage, barchart: &Chart, chart_type: &str) -> (res:
    Result<(), GraphicsError>)
    ensures
        res is Ok <==> ChartKind::spec_from_name(chart_type@) is Some && barchart.drawable()
            && canvas_fits(old(img)@) && bars_fit(
            *barchart,
            Orientation::Vertical,
            ChartKind::spec_from_name(chart_type@)->0,
        ),
        res is Ok ==> final(img)@ == chart_painted(
            old(img)@,
            *barchart,
            Orientation::Vertical,
            ChartKind::spec_from_name(chart_type@)->0,
        ),
        res is Err ==> final(img)@ == old(img)@,
        res matches Err(e) ==> e == GraphicsError::InvalidInput,
{
    match ChartKind::from_name(chart_type) {
        Ok(kind) => draw_bars(img, barchart, Orientation::Vertical, kind),
        Err(e) => Err(e),
    }
}

/// Paints the bars of a lying chart whose kind is given by name, `barchart`
/// or `histogram`.
///
/// Fails with `InvalidInput`, and only then, where the name is neither of
/// the two or [`draw_bars`] fails. The image is then left as it was.
pub fn draw_horizontal_bars(img: &mut PhotonImage, barchart: &Chart, chart_type: &str) -> (res:
    Result<(), GraphicsError>)
    ensures
        res is Ok <==> ChartKind::spec_from_name(chart_type@) is Some && barchart.drawable()
            && canvas_fits(old(img)@) && bars_fit(
            *barchart,
            Orientation::Horizontal,
            ChartKind::spec_from_name(chart_type@)->0,
        ),
        res is Ok ==> final(img)@ == chart_painted(
            old(img)@,
            *barchart,
            Orientation::Horizontal,
            ChartKind::spec_from_name(chart_type@)->0,
        ),
        res is Err ==> final(img)@ == old(img)@,
        res matches Err(e) ==> e == GraphicsError::InvalidInput,
{
    match ChartKind::from_name(chart_type) {
        Ok(kind) => draw_bars(img, barchart, Orientation::Horizontal, kind),
        Err(e) => Err(e),
    }
}

/// Paints the bars of a lying bar chart; see [`draw_bars`].
pub fn draw_horizontal_barchart(img: &mut PhotonImage, barchart: &Chart) -> (res: Result<
    (),
    GraphicsError,
>)
    ensures
        res is Ok <==> barchart.drawable() && canvas_fits(old(img)@) && bars_fit(
            *barchart,
            Orientation::Horizontal,
            ChartKind::BarChart,
        ),
        res is Ok ==> final(img)@ == chart_painted(
            old(img)@,
            *barchart,
            Orientation::Horizontal,
            ChartKind::BarChart,
        ),
        res is Err ==> final(img)@ == old(img)@,
        res matches Err(e) ==> e == GraphicsError::InvalidInput,
{
    draw_bars(img, barchart, Orientation::Horizontal, ChartKind::BarChart)
}

/// Paints the bars of an upright bar chart; see [`draw_bars`].
pub fn draw_vertical_barchart(img: &mut PhotonImage, barchart: &Chart) -> (res: Result<
    (),
    GraphicsError,
>)
    ensures
        res is Ok <==> barchart.drawable() && canvas_fits(old(img)@) && bars_fit(
            *barchart,
            Orientation::Vertical,
            ChartKind::BarChart,
        ),
        res is Ok ==> final(img)@ == chart_painted(
            old(img)@,
            *barchart,
            Orientation::Vertical,
            ChartKind::BarChart,
        ),
        res is Err ==> final(img)@ == old(img)@,
        res matches Err(e) ==> e == GraphicsError::InvalidInput,
{
    draw_bars(img, barchart, Orientation::Vertical, ChartKind::BarChart)
}

/// Paints the bars of a lying histogram; see [`draw_bars`].
pub fn draw_horizontal_histogram(img: &mut PhotonImage, barchart: &Chart) -> (res: Result<
    (),
    GraphicsError,
>)
    ensures
        res is Ok <==> barchart.drawable() && canvas_fits(old(img)@) && bars_fit(
            *barchart,
            Orientation::Horizontal,
            ChartKind::Histogram,
        ),
        res is Ok ==> final(img)@ == chart_painted(
            old(img)@,
            *barchart,
            Orientation::Horizontal,
            ChartKind::Histogram,
        ),
        res is Err ==> final(img)@ == old(img)@,
        res matches Err(e) ==> e == GraphicsError::InvalidInput,
{
    draw_bars(img, barchart, Orientation::Horizontal, ChartKind::Histogram)
}

/// Paints the bars of an upright histogram; see [`draw_bars`].
pub fn draw_vertical_histogram(img: &mut PhotonImage, histogram: &Chart) -> (res: Result<
    (),
    GraphicsError,
>)
    ensures
        res is Ok <==> histogram.drawable() && canvas_fits(old(img)@) && bars_fit(
            *histogram,
            Orientation::Vertical,
            ChartKind::Histogram,
        ),
        res is Ok ==> final(img)@ == chart_painted(
            old(img)@,
            *histogram,
            Orientation::Vertical,
            ChartKind::Histogram,
        ),
        res is Err ==> final(img)@ == old(img)@,
        res matches Err(e) ==> e == GraphicsError::InvalidInput,
{
    draw_bars(img, histogram, Orientation::Vertical, ChartKind::Histogram)
}

/// Whether the picture can be brought to the size of every bar of the chart.
pub open spec fn picture_fits(
    picture: ImageView,
    chart: Chart,
    orientation: Orientation,
    kind: ChartKind,
) -> bool {
    forall|i: int|
        0 <= i < chart.data@.len() ==> resize_fits(
            picture,
            #[trigger] bar_width(chart, orientation, i),
            bar_height(chart, orientation, i),
        )
}

/// The image after the first `count` bars of the chart were drawn, each as
/// the picture brought to the size of the bar and laid over the image at the
/// place of the bar.
pub open spec fn picture_bars_painted(
    view: ImageView,
    picture: ImageView,
    chart: Chart,
    orientation: Orientation,
    kind: ChartKind,
    count: nat,
) -> ImageView
    decreases count,
{
    if count == 0 {
        view
    } else {
        overlaid(
            picture_bars_painted(view, picture, chart, orientation, kind, (count - 1) as nat),
            resized(
                picture,
                bar_width(chart, orientation, count - 1),
                bar_height(chart, orientation, count - 1),
            ),
            bar_x(chart, orientation, kind, count - 1),
            bar_y(chart, orientation, kind, count - 1),
        )
    }
}

/// Draws a picture as one bar: brought to the size of the bar and laid over
/// the image with its top-left corner at column `start_x`, row `start_y`.
///
/// Fails with `InvalidInput`, and only then, where the picture cannot be
/// brought to that size. The image is then left as it was.
pub fn draw_image_as_bar(
    img: &mut PhotonImage,
    bar_img: &PhotonImage,
    bar_width: u32,
    bar_height: u32,
    start_x: u32,
    start_y: u32,
) -> (res: Result<(), GraphicsError>)
    ensures
        res is Ok <==> resize_fits(bar_img@, bar_width as int, bar_height as int),
        res is Ok ==> final(img)@ == overlaid(
            old(img)@,
            resized(bar_img@, bar_width as int, bar_height as int),
            start_x as int,
            start_y as int,
        ),
        res is Err ==> final(img)@ == old(img)@,
        res matches Err(e) ==> e == GraphicsError::InvalidInput,
{
    match resize(bar_img, bar_width, bar_height) {
        Ok(resized_img) => {
            draw_photonimage(img, &resized_img, start_x, start_y);
            Ok(())
        },
        Err(e) => Err(e),
    }
}

/// Draws a chart whose bars are filled with a picture.
///
/// Fails with `InvalidInput`, and only then, where the chart is not valid or
/// has no value, or the picture cannot be brought to the size of one of the
/// bars. The image is then left as it was. A bar that starts
/// beyond the reach of 32 bits lies outside of every image and is passed
/// over.
pub fn draw_image_bars(
    img: &mut PhotonImage,
    bar_img: &PhotonImage,
    chart: &Chart,
    orientation: Orientation,
    kind: ChartKind,
) -> (res: Result<(), GraphicsError>)
    ensures
        res is Ok <==> chart.drawable() && picture_fits(bar_img@, *chart, orientation, kind),
        res is Ok ==> final(img)@ == picture_bars_painted(
            old(img)@,
            bar_img@,
            *chart,
            orientation,
            kind,
            chart.data@.len(),
        ),
        res is Err ==> final(img)@ == old(img)@,
        res matches Err(e) ==> e == GraphicsError::InvalidInput,
{
    let bars = match bar_rectangles(chart, orientation, kind) {
        Ok(bars) => bars,
        Err(e) => {
            return Err(e);
        },
    };
    let mut i: usize = 0;
    while i < bars.len()
        invariant
            i <= bars@.len(),
            are_bars(bars@, *chart, orientation, kind),
            forall|j: int|
                0 <= j < i ==> resize_fits(
                    bar_img@,
                    #[trigger] bar_width(*chart, orientation, j),
                    bar_height(*chart, orientation, j),
                ),
        decreases bars@.len() - i,
    {
        assert(is_bar(bars@[i as int], *chart, orientation, kind, i as int));
        if !can_resize(bar_img, bars[i].width, bars[i].height) {
            assert(!resize_fits(
                bar_img@,
                bar_width(*chart, orientation, i as int),
                bar_height(*chart, orientation, i as int),
            ));
            return Err(GraphicsError::InvalidInput);
        }
        i += 1;
    }
    let mut i: usize = 0;
    while i < bars.len()
        invariant
            i <= bars@.len(),
            are_bars(bars@, *chart, orientation, kind),
            picture_fits(bar_img@, *chart, orientation, kind),
            img@ == picture_bars_painted(
                old(img)@,
                bar_img@,
                *chart,
                orientation,
                kind,
                i as nat,
            ),
        decreases bars@.len() - i,
    {
        let bar = bars[i];
        assert(is_bar(bar, *chart, orientation, kind, i as int));
        assert(resize_fits(
            bar_img@,
            bar_width(*chart, orientation, i as int),
            bar_height(*chart, orientation, i as int),
        ));
        match resize(bar_img, bar.width, bar.height) {
            Ok(resized_img) => {
                lay_over(img, &resized_img, bar.x, bar.y);
            },
            Err(_) => {
                assert(false);
            },
        }
        i += 1;
    }
    Ok(())
}

/// Draws an upright bar chart whose bars are filled with a picture; see
/// [`draw_image_bars`].
pub fn draw_vertical_image_barchart(
    img: &mut PhotonImage,
    bar_img: &PhotonImage,
    barchart: &Chart,
) -> (res: Result<(), GraphicsError>)
    ensures
        res is Ok <==> barchart.drawable() && picture_fits(
            bar_img@,
            *barchart,
            Orientation::Vertical,
            ChartKind::BarChart,
        ),
        res is Ok ==> final(img)@ == picture_bars_painted(
            old(img)@,
            bar_img@,
            *barchart,
            Orientation::Vertical,
            ChartKind::BarChart,
            barchart.data@.len(),
        ),
        res is Err ==> final(img)@ == old(img)@,
        res matches Err(e) ==> e == GraphicsError::InvalidInput,
{
    draw_image_bars(img, bar_img, barchart, Orientation::Vertical, ChartKind::BarChart)
}

/// Draws a lying bar chart whose bars are filled with a picture; see
/// [`draw_image_bars`].
pub fn draw_horizontal_image_barchart(
    img: &mut PhotonImage,
    bar_img: &PhotonImage,
    barchart: &Chart,
) -> (res: Result<(), GraphicsError>)
    ensures
        res is Ok <==> barchart.drawable() && picture_fits(
            bar_img@,
            *barchart,
            Orientation::Horizontal,
            ChartKind::BarChart,
        ),
        res is Ok ==> final(img)@ == picture_bars_painted(
            old(img)@,
            bar_img@,
            *barchart,
            Orientation::Horizontal,
            ChartKind::BarChart,
            barchart.data@.len(),
        ),
        res is Err ==> final(img)@ == old(img)@,
        res matches Err(e) ==> e == GraphicsError::InvalidInput,
{
    draw_image_bars(img, bar_img, barchart, Orientation::Horizontal, ChartKind::BarChart)
}

/// The image after the first `count` of the pictures were laid over it, one
/// for each bar of the chart, each with its top-left corner at the top-left
/// corner of its bar.
pub open spec fn bar_pictures_painted(
    view: ImageView,
    pictures: Seq<PhotonImage>,
    chart: Chart,
    orientation: Orientation,
    kind: ChartKind,
    count: nat,
) -> ImageView
    decreases count,
{
    if count == 0 {
        view
    } else {
        overlaid(
            bar_pictures_painted(view, pictures, chart, orientation, kind, (count - 1) as nat),
            pictures[count - 1]@,
            bar_x(chart, orientation, kind, count - 1),
            bar_y(chart, orientation, kind, count - 1),
        )
    }
}

/// Draws a chart whose bars are pictures that the caller has made, one for
/// each value and in the order of the values: a gradient of the size of
/// each bar, for one. Every picture is laid over the image at the place of
/// its bar, whatever its size.
///
/// Fails with `InvalidInput`, and only then, where the chart is not valid or
/// has no value, or there is not one picture for every value. The image is
/// then left as it was.
pub fn draw_bar_pictures(
    img: &mut PhotonImage,
    pictures: &Vec<PhotonImage>,
    chart: &Chart,
    orientation: Orientation,
    kind: ChartKind,
) -> (res: Result<(), GraphicsError>)
    ensures
        res is Ok <==> chart.drawable() && pictures@.len() == chart.data@.len(),
        res is Ok ==> final(img)@ == bar_pictures_painted(
            old(img)@,
            pictures@,
            *chart,
            orientation,
            kind,
            chart.data@.len(),
        ),
        res is Err ==> final(img)@ == old(img)@,
        res matches Err(e) ==> e == GraphicsError::InvalidInput,
{
    let bars = match bar_rectangles(chart, orientation, kind) {
        Ok(bars) => bars,
        Err(e) => {
            return Err(e);
        },
    };
    if pictures.len() != bars.len() {
        return Err(GraphicsError::InvalidInput);
    }
    let mut i: usize = 0;
    while i < bars.len()
        invariant
            i <= bars@.len(),
            pictures@.len() == bars@.len(),
            are_bars(bars@, *chart, orientation, kind),
            img@ == bar_pictures_painted(
                old(img)@,
                pictures@,
                *chart,
                orientation,
                kind,
                i as nat,
            ),
        decreases bars@.len() - i,
    {
        let bar = bars[i];
        assert(is_bar(bar, *chart, orientation, kind, i as int));
        lay_over(img, &pictures[i], bar.x, bar.y);
        i += 1;
    }
    Ok(())
}

/// The image after the two boxes of the flow chart were painted.
pub open spec fn flowchart_painted(view: ImageView) -> ImageView {
    let white = Rgb { r: 255, g: 255, b: 255 };
    filled(filled(view, 20, 20, 100, 130, white, 255), 200, 20, 100, 130, white, 255)
}

/// Draws the two white boxes of a flow chart, side by side.
///
/// Fails with `InvalidInput`, and only then, where the image is empty or
/// wider or higher than `i32::MAX`. The image is then left as it was.
pub fn draw_flowchart(img: &mut PhotonImage, item1: &str) -> (res: Result<(), GraphicsError>)
    ensures
        res is Ok <==> canvas_fits(old(img)@),
        res is Ok ==> final(img)@ == flowchart_painted(old(img)@),
        res is Err ==> final(img)@ == old(img)@,
        res matches Err(e) ==> e == GraphicsError::InvalidInput,
{
    let rgb = Rgb { r: 255, g: 255, b: 255 };
    let start_x: i32 = 20;
    let start_y: i32 = 20;
    let width: i32 = 130;
    let height: i32 = 100;
    match draw_solid_rect(img, &rgb, 100, 130, start_x, start_y) {
        Ok(()) => {
            let second = draw_solid_rect(img, &rgb, 100, 130, start_x + width + 50, start_y);
            assert(second is Ok);
            Ok(())
        },
        Err(e) => Err(e),
    }
}

} // verus!
