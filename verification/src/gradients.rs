//! Gradients: an image painted column by column from the colours that a
//! gradient takes, the gradients that have a name, and the named gradients
//! of the browser canvas.

use vstd::prelude::*;
use crate::color::Rgba;
use crate::error::GraphicsError;
use crate::image::{buffer_len, size_fits, ImageView, PhotonImage};
use crate::raster::text_eq;

verus! {

/// The image of `width` by `height` pixels whose every column has one
/// colour: column `x` has `columns[x]`.
pub open spec fn columns_view(width: int, height: int, columns: Seq<Rgba>) -> ImageView {
    ImageView {
        width,
        height,
        pixels: Seq::new(
            (4 * width * height) as nat,
            |j: int| columns[(j / 4) % width].channel(j % 4),
        ),
    }
}

/// Paints an image column by column: every pixel of column `x` takes the
/// colour `columns[x]`. This is how a gradient that runs from left to right
/// becomes an image, once its colours are sampled.
///
/// Fails with `InvalidInput`, and only then, where there is not one colour
/// for every column or the bytes of the image are more than a buffer can
/// hold.
pub fn paint_columns(width: u32, height: u32, columns: &Vec<Rgba>) -> (res: Result<
    PhotonImage,
    GraphicsError,
>)
    ensures
        res is Ok <==> columns@.len() == width && size_fits(width as int, height as int),
        res matches Ok(img) ==> img@ == columns_view(width as int, height as int, columns@),
        res matches Err(e) ==> e == GraphicsError::InvalidInput,
{
    if columns.len() != width as usize || buffer_len(width, height).is_none() {
        return Err(GraphicsError::InvalidInput);
    }
    let ghost wanted = columns_view(width as int, height as int, columns@).pixels;
    let mut raw: Vec<u8> = Vec::new();
    let mut y: u32 = 0;
    while y < height
        invariant
            y <= height,
            columns@.len() == width,
            4 * width * height <= isize::MAX,
            wanted == columns_view(width as int, height as int, columns@).pixels,
            raw@.len() == 4 * (width * y),
            forall|j: int| 0 <= j < raw@.len() ==> raw@[j] == #[trigger] wanted[j],
        decreases height - y,
    {
        let mut x: u32 = 0;
        while x < width
            invariant
                x <= width,
                y < height,
                columns@.len() == width,
                4 * width * height <= isize::MAX,
                wanted == columns_view(width as int, height as int, columns@).pixels,
                raw@.len() == 4 * (width * y + x),
                forall|j: int| 0 <= j < raw@.len() ==> raw@[j] == #[trigger] wanted[j],
            decreases width - x,
        {
            let color = columns[x as usize];
            proof {
                let pixel = width * y + x;
                assert(pixel % (width as int) == x && pixel < width * height && 4 * width * height
                    == 4 * (width * height)) by (nonlinear_arith)
                    requires
                        pixel == width * y + x,
                        0 <= x < width,
                        0 <= y < height,
                ;
                assert((4 * pixel) / 4 == pixel && (4 * pixel + 1) / 4 == pixel && (4 * pixel + 2)
                    / 4 == pixel && (4 * pixel + 3) / 4 == pixel);
                assert(wanted[4 * pixel] == color.r);
                assert(wanted[4 * pixel + 1] == color.g);
                assert(wanted[4 * pixel + 2] == color.b);
                assert(wanted[4 * pixel + 3] == color.a);
            }
            raw.push(color.r);
            raw.push(color.g);
            raw.push(color.b);
            raw.push(color.a);
            x += 1;
        }
        assert(width * y + width == width * (y + 1)) by (nonlinear_arith);
        y += 1;
    }
    assert(raw@ =~= wanted) by {
        assert(4 * width * height == 4 * (width * height)) by (nonlinear_arith);
    }
    PhotonImage::new_from_rawpixels(raw, width, height)
}

/// The gradients that an image can be filled with by name.
#[derive(Debug, Clone, Copy, PartialEq, Eq, Structural)]
pub enum GradientPreset {
    /// From blue to pink.
    PinkBlue,
    /// From blue to a grass green.
    Lemongrass,
    /// From pink to a pale turquoise.
    PinkPastel,
    /// From mauve to a pale blue.
    MauvePastel,
    /// From blue to green: the gradient of every name that is not known.
    BlueGreen,
}

impl GradientPreset {
    /// The gradient that a name stands for: `pinkblue`, `lemongrass`,
    /// `pink_pastel` or `mauve_pastel`; any other name stands for the
    /// gradient from blue to green.
    pub open spec fn spec_from_name(name: Seq<char>) -> GradientPreset {
        if name == "pinkblue"@ {
            GradientPreset::PinkBlue
        } else if name == "lemongrass"@ {
            GradientPreset::Lemongrass
        } else if name == "pink_pastel"@ {
            GradientPreset::PinkPastel
        } else if name == "mauve_pastel"@ {
            GradientPreset::MauvePastel
        } else {
            GradientPreset::BlueGreen
        }
    }

    /// Looks a gradient up by its name. A name that is not known gives the
    /// gradient from blue to green rather than a failure.
    pub fn from_name(name: &str) -> (preset: GradientPreset)
        ensures
            preset == Self::spec_from_name(name@),
    {
        if text_eq(name, "pinkblue") {
            GradientPreset::PinkBlue
        } else if text_eq(name, "lemongrass") {
            GradientPreset::Lemongrass
        } else if text_eq(name, "pink_pastel") {
            GradientPreset::PinkPastel
        } else if text_eq(name, "mauve_pastel") {
            GradientPreset::MauvePastel
        } else {
            GradientPreset::BlueGreen
        }
    }
}

/// The colours that a preset runs between, from the first to the second, as
/// the browser reads them. A name that is not known runs from magenta to
/// black.
pub open spec fn spec_preset_stops(preset: Seq<char>) -> (Seq<char>, Seq<char>) {
    if preset == "lemongrass"@ {
        ("blue"@, "yellow"@)
    } else if preset == "flames"@ {
        ("#f12711"@, "#f5af19"@)
    } else if preset == "pastel"@ {
        ("#8360c3"@, "#2ebf91"@)
    } else if preset == "pink"@ {
        ("#DD5E89"@, "#F7BB97"@)
    } else if preset == "ocean"@ {
        ("#4CB8C4"@, "#3CD3AD"@)
    } else if preset == "aquamarine"@ {
        ("#1A2980"@, "#26D0CE"@)
    } else if preset == "rosewater"@ {
        ("#E55D87"@, "#5FC3E4"@)
    } else if preset == "zigzag"@ {
        ("#3CA55C"@, "#B5AC49"@)
    } else if preset == "seaweed"@ {
        ("#348F50"@, "#56B4D3"@)
    } else if preset == "tropics"@ {
        ("#16A085"@, "#F4D03F"@)
    } else {
        ("magenta"@, "black"@)
    }
}

/// Looks up the two colours of a preset gradient: `lemongrass`, `flames`,
/// `pastel`, `pink`, `ocean`, `aquamarine`, `rosewater`, `zigzag`, `seaweed`
/// or `tropics`. Any other name gives magenta and black.
pub fn preset_stops(preset: &str) -> (stops: (&'static str, &'static str))
    ensures
        (stops.0@, stops.1@) == spec_preset_stops(preset@),
{
    if text_eq(preset, "lemongrass") {
        ("blue", "yellow")
    } else if text_eq(preset, "flames") {
        ("#f12711", "#f5af19")
    } else if text_eq(preset, "pastel") {
        ("#8360c3", "#2ebf91")
    } else if text_eq(preset, "pink") {
        ("#DD5E89", "#F7BB97")
    } else if text_eq(preset, "ocean") {
        ("#4CB8C4", "#3CD3AD")
    } else if text_eq(preset, "aquamarine") {
        ("#1A2980", "#26D0CE")
    } else if text_eq(preset, "rosewater") {
        ("#E55D87", "#5FC3E4")
    } else if text_eq(preset, "zigzag") {
        ("#3CA55C", "#B5AC49")
    } else if text_eq(preset, "seaweed") {
        ("#348F50", "#56B4D3")
    } else if text_eq(preset, "tropics") {
        ("#16A085", "#F4D03F")
    } else {
        ("magenta", "black")
    }
}

} // verus!
