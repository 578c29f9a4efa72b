use vstd::prelude::*;
use crate::error::AppError;
use crate::raster::RgbaImage;

verus! {

/// Number of entries the quantizer is asked for.
pub const PALETTE_SIZE: usize = 256;

/// Palette index of the primary color.
pub const PRIMARY_INDEX: usize = 0;

/// Palette index of the secondary color.
pub const SECONDARY_INDEX: usize = 200;

/// Alpha value of a fully opaque color.
pub const ALPHA_CHANNEL: u8 = 255;

/// The two colors derived from one picture, each fully opaque.
#[derive(Debug, Clone, Copy, PartialEq, Eq)]
pub struct Color {
    pub primary: [u8; 4],
    pub secondary: [u8; 4],
}

/// A palette entry with its alpha forced to fully opaque.
pub open spec fn opaque(c: [u8; 4]) -> Seq<u8> {
    seq![c@[0], c@[1], c@[2], 255u8]
}

/// The color pair that a palette gives: its entries at the primary and
/// secondary indices, made opaque.
pub open spec fn pair_from(palette: Seq<[u8; 4]>, c: Color) -> bool {
    &&& c.primary@ == opaque(palette[PRIMARY_INDEX as int])
    &&& c.secondary@ == opaque(palette[SECONDARY_INDEX as int])
}

/// Relies on exoquant::convert_to_indexed with the k-means optimizer and
/// Floyd-Steinberg dithering. Its palette always holds exactly `num_colors`
/// entries: the quantizer splits one node per step until it has that many, and
/// neither the optimizer nor the palette sort changes the count. It asserts at
/// most 256 colors, and divides by the width once there is a pixel. Which colors
/// come out depends on the order in which its hash-map histogram is walked.
#[verifier::external_body]
fn quantize_palette(rgba: &Vec<u8>, width: u32, num_colors: usize) -> (r: Vec<[u8; 4]>)
    requires
        rgba@.len() % 4 == 0,
        rgba@.len() > 0 ==> width > 0,
        1 <= num_colors <= 256,
    ensures
        r@.len() == num_colors,
{
    let pixels: Vec<exoquant::Color> = rgba.chunks(4).map(
        |c| exoquant::Color::new(c[0], c[1], c[2], c[3]),
    ).collect();
    let (palette, _) = exoquant::convert_to_indexed(
        &pixels,
        width as usize,
        num_colors,
        &exoquant::optimizer::KMeans,
        &exoquant::ditherer::FloydSteinberg::new(),
    );
    palette.iter().map(|c| [c.r, c.g, c.b, c.a]).collect()
}

/// Takes the primary and secondary colors out of a palette, fully opaque.
/// A palette with no entry at the secondary index gives
/// `PaletteIndexOutOfRange`.
pub fn colors_from_palette(palette: &Vec<[u8; 4]>) -> (r: Result<Color, AppError>)
    ensures
        match r {
            Ok(c) => palette@.len() > SECONDARY_INDEX && pair_from(palette@, c),
            Err(e) => palette@.len() <= SECONDARY_INDEX && e == AppError::PaletteIndexOutOfRange,
        },
{
    if palette.len() <= SECONDARY_INDEX {
        return Err(AppError::PaletteIndexOutOfRange);
    }
    let p = palette[PRIMARY_INDEX];
    let s = palette[SECONDARY_INDEX];
    let primary: [u8; 4] = [p[0], p[1], p[2], ALPHA_CHANNEL];
    let secondary: [u8; 4] = [s[0], s[1], s[2], ALPHA_CHANNEL];
    assert(primary@ =~= opaque(p));
    assert(secondary@ =~= opaque(s));
    Ok(Color { primary, secondary })
}

/// A palette that holds one color throughout gives that color twice, fully
/// opaque.
pub proof fn lemma_uniform_palette_one_color(palette: Seq<[u8; 4]>, fill: [u8; 4], c: Color)
    requires
        palette.len() > SECONDARY_INDEX,
        forall|i: int| 0 <= i < palette.len() ==> #[trigger] palette[i] == fill,
        pair_from(palette, c),
    ensures
        c.primary == c.secondary,
        c.primary@ == opaque(fill),
{
    assert(palette[PRIMARY_INDEX as int] == fill);
    assert(palette[SECONDARY_INDEX as int] == fill);
    assert(c.primary@ =~= c.secondary@);
    assert(c.primary == c.secondary);
}

/// Quantizes `img` to a palette of `PALETTE_SIZE` entries and takes its color
/// pair. The palette always reaches the secondary index, so this never fails.
pub fn get_color_palette(img: &RgbaImage) -> (r: Color)
    requires
        img.wf(),
    ensures
        exists|palette: Seq<[u8; 4]>| palette.len() == PALETTE_SIZE && pair_from(palette, r),
        r.primary@[3] == ALPHA_CHANNEL,
        r.secondary@[3] == ALPHA_CHANNEL,
{
    proof {
        assert(img.data@.len() % 4 == 0) by (nonlinear_arith)
            requires img.data@.len() == 4 * (img.width * img.height);
        if img.data@.len() > 0 {
            assert(img.width > 0) by (nonlinear_arith)
                requires img.data@.len() == 4 * (img.width * img.height), img.data@.len() > 0;
        }
    }
    let palette = quantize_palette(&img.data, img.width, PALETTE_SIZE);
    match colors_from_palette(&palette) {
        Ok(c) => c,
        Err(_) => {
            assert(false);
            Color { primary: [0, 0, 0, ALPHA_CHANNEL], secondary: [0, 0, 0, ALPHA_CHANNEL] }
        },
    }
}

} // verus!
