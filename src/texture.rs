use vstd::prelude::*;

verus! {

/// Bytes per texel of the RGBA8 data the texture is written with.
pub const BYTES_PER_TEXEL: u64 = 4;

/// A 2D texture of `width` by `height` texels, one mip level. Holds what the
/// copy planning reads; the GPU resource itself is owned by the caller.
#[derive(Clone, Copy, Debug, PartialEq, Eq, Structural)]
pub struct Texture {
    pub width: u32,
    pub height: u32,
}

/// The nonnegative fraction `num / den`; `den == 0` stands for an unbounded
/// value, as a float division by zero gives.
#[derive(Clone, Copy, Debug, PartialEq, Eq, Structural)]
pub struct Fraction {
    pub num: u32,
    pub den: u32,
}

/// A rectangular upload into mip level 0: the destination rectangle, and the
/// layout of the source bytes (row stride in bytes, rows per image).
#[derive(Clone, Copy, Debug, PartialEq, Eq, Structural)]
pub struct TextureCopy {
    pub origin_x: u32,
    pub origin_y: u32,
    pub width: u32,
    pub height: u32,
    pub bytes_per_row: u64,
    pub rows_per_image: u32,
}

/// Why a partial upload was refused.
#[derive(Clone, Copy, Debug, PartialEq, Eq, Structural)]
pub enum CopyError {
    /// A dimension of the rectangle is negative.
    NegativeSize,
    /// The rectangle reaches past the texture's extent.
    OutOfBounds,
}

/// The rectangle at `(ox, oy)` of `w` by `h` texels lies inside a texture of
/// `tw` by `th` texels.
pub open spec fn rect_within(ox: int, oy: int, w: int, h: int, tw: int, th: int) -> bool {
    0 <= w && 0 <= h && ox + w <= tw && oy + h <= th
}

impl Texture {
    /// A texture for a decoded RGBA bitmap of the given dimensions.
    pub fn new(bitmap_width: usize, bitmap_height: usize) -> (r: Texture)
        requires
            bitmap_width <= u32::MAX,
            bitmap_height <= u32::MAX,
        ensures
            r.width == bitmap_width,
            r.height == bitmap_height,
    {
        Texture { width: bitmap_width as u32, height: bitmap_height as u32 }
    }

    /// A texture with no contents yet, of the given extent.
    pub fn empty(width: u32, height: u32) -> (r: Texture)
        ensures
            r.width == width,
            r.height == height,
    {
        Texture { width, height }
    }

    /// The extent in texels, width first.
    pub fn size(&self) -> (r: (u32, u32))
        ensures
            r == (self.width, self.height),
    {
        (self.width, self.height)
    }

    /// The size of one texel in texture coordinates: `(1 / width, 1 / height)`.
    pub fn get_texel_size(&self) -> (r: (Fraction, Fraction))
        ensures
            r.0 == (Fraction { num: 1, den: self.width }),
            r.1 == (Fraction { num: 1, den: self.height }),
            self.width > 0 ==> r.0.num * self.width == r.0.den * 1,
            self.height > 0 ==> r.1.num * self.height == r.1.den * 1,
    {
        (Fraction { num: 1, den: self.width }, Fraction { num: 1, den: self.height })
    }

    /// The upload of a whole image: the full extent from the origin, source
    /// rows `4 * width` bytes apart.
    pub fn write_all(&self) -> (r: TextureCopy)
        ensures
            r == (TextureCopy {
                origin_x: 0,
                origin_y: 0,
                width: self.width,
                height: self.height,
                bytes_per_row: (BYTES_PER_TEXEL * self.width) as u64,
                rows_per_image: self.height,
            }),
    {
        TextureCopy {
            origin_x: 0,
            origin_y: 0,
            width: self.width,
            height: self.height,
            bytes_per_row: BYTES_PER_TEXEL * self.width as u64,
            rows_per_image: self.height,
        }
    }

    /// The upload of a `size` rectangle at `origin`. The source bytes are laid
    /// out as a whole image of this texture (rows `4 * width` bytes apart).
    /// Refused when a dimension of `size` is negative, or when the rectangle
    /// reaches past the texture's extent.
    pub fn write_partially(&self, origin: (u32, u32), size: (i32, i32)) -> (r: Result<
        TextureCopy,
        CopyError,
    >)
        ensures
            r is Ok <==> rect_within(
                origin.0 as int,
                origin.1 as int,
                size.0 as int,
                size.1 as int,
                self.width as int,
                self.height as int,
            ),
            r == Err::<TextureCopy, CopyError>(CopyError::NegativeSize) <==> (size.0 < 0 || size.1
                < 0),
            r == Err::<TextureCopy, CopyError>(CopyError::OutOfBounds) <==> (0 <= size.0 && 0
                <= size.1 && (origin.0 + size.0 > self.width || origin.1 + size.1 > self.height)),
            r is Ok ==> r->Ok_0 == (TextureCopy {
                origin_x: origin.0,
                origin_y: origin.1,
                width: size.0 as u32,
                height: size.1 as u32,
                bytes_per_row: (BYTES_PER_TEXEL * self.width) as u64,
                rows_per_image: self.height,
            }),
            r is Ok ==> r->Ok_0.origin_x + r->Ok_0.width <= self.width && r->Ok_0.origin_y
                + r->Ok_0.height <= self.height,
    {
        if size.0 < 0 || size.1 < 0 {
            return Err(CopyError::NegativeSize);
        }
        let w = size.0 as u32;
        let h = size.1 as u32;
        if w > self.width || origin.0 > self.width - w || h > self.height || origin.1
            > self.height - h {
            return Err(CopyError::OutOfBounds);
        }
        Ok(
            TextureCopy {
                origin_x: origin.0,
                origin_y: origin.1,
                width: w,
                height: h,
                bytes_per_row: BYTES_PER_TEXEL * self.width as u64,
                rows_per_image: self.height,
            },
        )
    }
}

} // verus!
