use vstd::prelude::*;
use crate::error::AppError;

verus! {

/// Bytes per pixel: red, green, blue and alpha, eight bits each.
pub const CHANNELS: usize = 4;

/// A decoded picture as raw interleaved RGBA bytes, row after row.
#[derive(Debug, Clone)]
pub struct RgbaImage {
    pub width: u32,
    pub height: u32,
    pub data: Vec<u8>,
}

/// Number of bytes in a buffer of `width` by `height` pixels.
pub open spec fn byte_len(width: int, height: int) -> int {
    4 * (width * height)
}

impl RgbaImage {
    /// The buffer holds exactly four bytes for each pixel.
    pub open spec fn wf(&self) -> bool {
        self.data@.len() == byte_len(self.width as int, self.height as int)
    }

    /// Offset of the first byte of pixel `(x, y)` in a buffer `width` pixels wide.
    pub open spec fn offset(width: int, x: int, y: int) -> int {
        4 * (y * width + x)
    }

    /// The four channels of pixel `(x, y)`.
    pub open spec fn pixel(&self, x: int, y: int) -> Seq<u8> {
        let o = Self::offset(self.width as int, x, y);
        self.data@.subrange(o, o + 4)
    }

    /// `self` is `top` with `bottom` below it: same width, summed heights, and
    /// the two buffers one after the other.
    pub open spec fn is_stack_of(&self, top: RgbaImage, bottom: RgbaImage) -> bool {
        &&& self.wf()
        &&& self.width == top.width
        &&& self.height == top.height + bottom.height
        &&& self.data@ == top.data@ + bottom.data@
    }

    /// Wraps a raw buffer, or gives `None` when its length does not match the size.
    pub fn from_raw(width: u32, height: u32, data: Vec<u8>) -> (r: Option<RgbaImage>)
        ensures
            match r {
                Some(img) => img.wf() && img.width == width && img.height == height
                    && img.data@ == data@,
                None => data@.len() != byte_len(width as int, height as int),
            },
    {
        proof {
            assert((width as int) * (height as int) <= 0xffff_ffff * 0xffff_ffff) by (nonlinear_arith)
                requires width <= 0xffff_ffff, height <= 0xffff_ffff;
        }
        let need: u128 = 4u128 * ((width as u128) * (height as u128));
        if data.len() as u128 == need {
            Some(RgbaImage { width, height, data })
        } else {
            None
        }
    }
}

/// Puts `first` on top of `second`: the composite has their shared width and
/// the sum of their heights, and its buffer is the first buffer followed by
/// the second. Pictures of different widths give `MismatchSize`.
pub fn join_photos_vertically(first: RgbaImage, second: RgbaImage) -> (r: Result<
    RgbaImage,
    AppError,
>)
    requires
        first.wf(),
        second.wf(),
        first.height + second.height <= u32::MAX,
    ensures
        match r {
            Ok(img) => first.width == second.width && img.is_stack_of(first, second),
            Err(e) => first.width != second.width && e == AppError::MismatchSize,
        },
{
    if first.width != second.width {
        return Err(AppError::MismatchSize);
    }
    let width = first.width;
    let height = first.height + second.height;
    let mut pixels = first.data;
    let mut rest = second.data;
    pixels.append(&mut rest);
    proof {
        assert(byte_len(width as int, height as int) == byte_len(width as int, first.height as int)
            + byte_len(width as int, second.height as int)) by (nonlinear_arith)
            requires height == first.height + second.height;
    }
    Ok(RgbaImage { width, height, data: pixels })
}

/// Stacking keeps every pixel: in a stack of two pictures of one width, the
/// top rows are the first picture pixel for pixel, and the rows below them
/// are the second.
pub proof fn lemma_stack_keeps_pixels(top: RgbaImage, bottom: RgbaImage, joined: RgbaImage)
    requires
        top.wf(),
        bottom.wf(),
        top.width == bottom.width,
        joined.is_stack_of(top, bottom),
    ensures
        joined.width == top.width,
        joined.height == top.height + bottom.height,
        forall|x: int, y: int|
            0 <= x < top.width && 0 <= y < top.height ==> #[trigger] joined.pixel(x, y)
                == top.pixel(x, y),
        forall|x: int, y: int|
            0 <= x < bottom.width && 0 <= y < bottom.height ==> #[trigger] joined.pixel(
                x,
                top.height + y,
            ) == bottom.pixel(x, y),
{
    let w = top.width as int;
    let h1 = top.height as int;
    assert forall|x: int, y: int| 0 <= x < w && 0 <= y < h1 implies #[trigger] joined.pixel(x, y)
        == top.pixel(x, y) by {
        let o = RgbaImage::offset(w, x, y);
        assert(o + 4 <= byte_len(w, h1)) by (nonlinear_arith)
            requires o == 4 * (y * w + x), 0 <= x < w, 0 <= y < h1;
        assert(joined.pixel(x, y) =~= top.pixel(x, y));
    }
    assert forall|x: int, y: int| 0 <= x < w && 0 <= y < bottom.height implies #[trigger] joined.pixel(
        x,
        h1 + y,
    ) == bottom.pixel(x, y) by {
        let o = RgbaImage::offset(w, x, y);
        let o2 = RgbaImage::offset(w, x, h1 + y);
        assert(o2 == byte_len(w, h1) + o) by (nonlinear_arith)
            requires o == 4 * (y * w + x), o2 == 4 * ((h1 + y) * w + x);
        assert(o + 4 <= byte_len(w, bottom.height as int)) by (nonlinear_arith)
            requires o == 4 * (y * w + x), 0 <= x < w, 0 <= y < bottom.height;
        assert(0 <= o) by (nonlinear_arith)
            requires o == 4 * (y * w + x), 0 <= x, 0 <= y, 0 <= w;
        assert(joined.pixel(x, h1 + y) =~= bottom.pixel(x, y));
    }
}

} // verus!
