//! Pictures as plain bytes, and the two picture operations that the fit
//! needs: resampling to a new size and cutting out a rectangle.

use vstd::prelude::*;
use vstd::arithmetic::div_mod::{lemma_fundamental_div_mod, lemma_mod_pos_bound};
use crate::fit::{centre_offset, product};

verus! {

/// What a [`Raster`] holds: its size and its samples, row after row, three
/// samples (red, green, blue) per pixel.
pub ghost struct RasterView {
    pub width: nat,
    pub height: nat,
    pub data: Seq<u8>,
}

impl RasterView {
    /// There are exactly three samples for each pixel.
    pub open spec fn wf(self) -> bool {
        self.data.len() == 3 * (self.width * self.height)
    }

    /// Channel `c` of the pixel in column `x` of row `y`.
    pub open spec fn sample(self, x: int, y: int, c: int) -> u8 {
        self.data[(y * self.width + x) * 3 + c]
    }

    /// This picture is the part of `src` whose top-left corner is column `x`
    /// of row `y`: every pixel equals the pixel of `src` that lies `x`
    /// columns to the right and `y` rows below.
    pub open spec fn is_crop_of(self, src: RasterView, x: int, y: int) -> bool {
        &&& self.wf()
        &&& forall|i: int, j: int, c: int|
            0 <= i < self.width && 0 <= j < self.height && 0 <= c < 3 ==> #[trigger] self.sample(
                i,
                j,
                c,
            ) == src.sample(x + i, y + j, c)
    }
}

/// A cut is determined by the picture, the corner and the size: two cuts of
/// the same size from the same corner of the same picture are equal.
pub proof fn lemma_crop_is_determined(a: RasterView, b: RasterView, src: RasterView, x: int, y: int)
    requires
        a.is_crop_of(src, x, y),
        b.is_crop_of(src, x, y),
        a.width == b.width,
        a.height == b.height,
    ensures
        a == b,
{
    let w = a.width as int;
    let h = a.height as int;
    assert forall|k: int| 0 <= k < a.data.len() implies a.data[k] == b.data[k] by {
        assert(w > 0) by (nonlinear_arith)
            requires
                0 <= k < 3 * (w * h),
                w >= 0,
        ;
        let p = k / 3;
        let c = k % 3;
        let i = p % w;
        let j = p / w;
        lemma_fundamental_div_mod(p, w);
        lemma_mod_pos_bound(p, w);
        assert(0 <= j < h && j * w + i == p) by (nonlinear_arith)
            requires
                p == w * j + i,
                0 <= i < w,
                0 <= p < w * h,
        ;
        assert(a.sample(i, j, c) == a.data[k]);
        assert(b.sample(i, j, c) == b.data[k]);
    }
    assert(a.data =~= b.data);
}

/// A picture is its own cut from the corner `(0, 0)`.
pub proof fn lemma_whole_is_own_crop(src: RasterView)
    requires
        src.wf(),
    ensures
        src.is_crop_of(src, 0, 0),
{
}

/// An RGB picture with 8 bits per channel.
#[derive(Debug)]
pub struct Raster {
    width: u32,
    height: u32,
    data: Vec<u8>,
}

impl View for Raster {
    type V = RasterView;

    closed spec fn view(&self) -> RasterView {
        RasterView { width: self.width as nat, height: self.height as nat, data: self.data@ }
    }
}

/// The longest side, in pixels, of a picture that is resampled and of the
/// picture that comes out. Up to here single-precision arithmetic places
/// every output sample within about a quarter of a source sample of where it
/// belongs.
pub const MAX_RESIZE_SIDE: u32 = 0x20_0000;

/// All four sides of a resampling, those of the source and those asked for,
/// are at most [`MAX_RESIZE_SIDE`].
pub open spec fn resize_sides_in_range(
    source_width: int,
    source_height: int,
    width: int,
    height: int,
) -> bool {
    &&& source_width <= MAX_RESIZE_SIDE
    &&& source_height <= MAX_RESIZE_SIDE
    &&& width <= MAX_RESIZE_SIDE
    &&& height <= MAX_RESIZE_SIDE
}

/// A resampling of a `source_width` wide picture to `width` by `height`
/// pixels can be held in memory: the result, three bytes per pixel, and the
/// intermediate picture of the source's width and the new height, sixteen
/// bytes per pixel.
pub open spec fn resize_fits_memory(source_width: int, width: int, height: int) -> bool {
    &&& 16 * (source_width * height) <= isize::MAX
    &&& 3 * (width * height) <= isize::MAX
}

/// A picture of `source_width` by `source_height` pixels can be resampled to
/// `width` by `height` pixels: no side is too long, and the pictures can be
/// held in memory.
pub open spec fn can_resize(source_width: int, source_height: int, width: int, height: int) -> bool {
    &&& resize_sides_in_range(source_width, source_height, width, height)
    &&& resize_fits_memory(source_width, width, height)
}

/// Calls `image::imageops::resize` with the filter `FilterType::Lanczos3` on
/// the picture, handed over as an `image::ImageBuffer` that borrows the
/// bytes. Claimed of it: the buffer that it returns was made by
/// `ImageBuffer::new` with the two sizes asked for, so it has that width and
/// height and three bytes per pixel; and where the new size is the old one,
/// the function samples nothing and returns a copy of the pixels. Nothing
/// else is claimed of the colours, which come out of floating-point sums.
///
/// Two kinds of input are left out because the call panics on them. The
/// first are the sizes on which `ImageBuffer::new` panics, for the result or
/// for the intermediate `Rgba32FImage`. The second are sides so long that a
/// window of the filter can miss every source sample that has a weight: the
/// weights then sum to zero, the division by the sum gives NaN, and the
/// conversion `NumCast::from(..).unwrap()` panics. With no side over
/// [`MAX_RESIZE_SIDE`] that does not happen, in `vertical_sample` as in
/// `horizontal_sample`:
/// - every side, every index and every index plus one half is below 2^22 in
///   steps of one half, so `f32` holds it exactly;
/// - the position `(index + 0.5) * ratio` carries two roundings of relative
///   size 2^-24 on a value below 2^21, so it is off by less than 0.26 source
///   samples;
/// - the true position lies inside the source, so the source sample nearest
///   to it exists and is within 0.5 of it, hence within 0.76 of the computed
///   position;
/// - the window `left..right` reaches three or more samples to either side
///   of the computed position before it is clamped to the source, so it
///   holds that sample;
/// - the distance of that sample is divided by a ratio of at least one, so
///   the kernel `sinc(x) * sinc(x / 3)` is asked for an `x` below 0.8, where
///   it is above 0.2.
/// The other weights of a window are those of the same kernel at a spacing
/// of at most one, whose two negative lobes are too shallow to cancel the
/// main lobe; this last step is taken from the shape of the kernel.
#[verifier::external_body]
fn resize_lanczos3(src: &Raster, width: u32, height: u32) -> (out: Raster)
    requires
        src@.wf(),
        src@.width > 0,
        src@.height > 0,
        width > 0,
        height > 0,
        can_resize(src@.width as int, src@.height as int, width as int, height as int),
    ensures
        out@.wf(),
        out@.width == width,
        out@.height == height,
        width == src@.width && height == src@.height ==> out@ == src@,
{
    let img = image::ImageBuffer::<image::Rgb<u8>, &[u8]>::from_raw(
        src.width,
        src.height,
        src.data.as_slice(),
    ).unwrap();
    let filter = image::imageops::FilterType::Lanczos3;
    let resized = image::imageops::resize(&img, width, height, filter);
    Raster { width: resized.width(), height: resized.height(), data: resized.into_raw() }
}

/// Calls `image::imageops::crop_imm` and then `SubImage::to_image` on the
/// picture, handed over as an `image::RgbImage`. Claimed of them: for a
/// rectangle that lies inside the picture `crop_imm` keeps the four numbers
/// as they are, and `to_image` copies each pixel of the rectangle into a new
/// buffer of the rectangle's size.
#[verifier::external_body]
fn crop_region(src: &Raster, x: u32, y: u32, width: u32, height: u32) -> (out: Raster)
    requires
        src@.wf(),
        x + width <= src@.width,
        y + height <= src@.height,
    ensures
        out@.width == width,
        out@.height == height,
        out@.is_crop_of(src@, x as int, y as int),
{
    let img = image::RgbImage::from_raw(src.width, src.height, src.data.clone()).unwrap();
    let cut = image::imageops::crop_imm(&img, x, y, width, height).to_image();
    Raster { width: cut.width(), height: cut.height(), data: cut.into_raw() }
}

impl Raster {
    /// The picture is well formed: see [`RasterView::wf`].
    pub open spec fn wf(&self) -> bool {
        self@.wf()
    }

    /// Makes a picture of the given size from its samples. The samples must
    /// be exactly three per pixel; otherwise there is no picture.
    pub fn new(width: u32, height: u32, data: Vec<u8>) -> (made: Option<Raster>)
        ensures
            made is Some <==> data@.len() == 3 * (width * height),
            made is Some ==> made->0@ == (RasterView {
                width: width as nat,
                height: height as nat,
                data: data@,
            }),
    {
        let pixels: u64 = product(width, height);
        if data.len() as u128 == 3 * (pixels as u128) {
            Some(Raster { width, height, data })
        } else {
            None
        }
    }

    /// Number of columns.
    pub fn width(&self) -> (w: u32)
        ensures
            w == self@.width,
    {
        self.width
    }

    /// Number of rows.
    pub fn height(&self) -> (h: u32)
        ensures
            h == self@.height,
    {
        self.height
    }

    /// The samples, row after row.
    pub fn as_bytes(&self) -> (bytes: &Vec<u8>)
        ensures
            bytes@ == self@.data,
    {
        &self.data
    }

    /// Gives the samples back.
    pub fn into_raw(self) -> (bytes: Vec<u8>)
        ensures
            bytes@ == self@.data,
    {
        self.data
    }

    /// The red, green and blue sample of the pixel in column `x` of row `y`,
    /// if the picture has such a pixel.
    pub fn pixel(&self, x: u32, y: u32) -> (rgb: Option<(u8, u8, u8)>)
        requires
            self.wf(),
        ensures
            rgb is Some <==> x < self@.width && y < self@.height,
            rgb is Some ==> rgb->0 == (
                self@.sample(x as int, y as int, 0),
                self@.sample(x as int, y as int, 1),
                self@.sample(x as int, y as int, 2),
            ),
    {
        if x >= self.width || y >= self.height {
            return None;
        }
        let row: u64 = product(y, self.width);
        let samples: usize = self.data.len();
        proof {
            let (w, h) = (self.width as int, self.height as int);
            assert(y * w + x + 1 <= w * h) by (nonlinear_arith)
                requires
                    0 <= x < w,
                    0 <= y < h,
            ;
            assert((row + x) * 3 + 2 < samples);
        }
        let at: usize = ((row + x as u64) * 3) as usize;
        Some((self.data[at], self.data[at + 1], self.data[at + 2]))
    }

    /// Resamples the picture to `width` by `height` pixels with a three-lobe
    /// Lanczos filter; a picture that already has that size is copied. There
    /// is no result where the picture or the new size is empty, where a side
    /// of either is longer than [`MAX_RESIZE_SIDE`], or where the new size
    /// cannot be held in memory.
    pub fn resized(&self, width: u32, height: u32) -> (out: Option<Raster>)
        requires
            self.wf(),
        ensures
            out is Some <==> self@.width > 0 && self@.height > 0 && width > 0 && height > 0
                && can_resize(
                self@.width as int,
                self@.height as int,
                width as int,
                height as int,
            ),
            out is Some ==> out->0.wf() && out->0@.width == width && out->0@.height == height,
            out is Some && width == self@.width && height == self@.height ==> out->0@ == self@,
    {
        if self.width == 0 || self.height == 0 || width == 0 || height == 0 {
            return None;
        }
        if self.width > MAX_RESIZE_SIDE || self.height > MAX_RESIZE_SIDE || width > MAX_RESIZE_SIDE
            || height > MAX_RESIZE_SIDE {
            return None;
        }
        let middle: u128 = 16 * (product(self.width, height) as u128);
        let result: u128 = 3 * (product(width, height) as u128);
        if middle > isize::MAX as u128 || result > isize::MAX as u128 {
            return None;
        }
        Some(resize_lanczos3(self, width, height))
    }

    /// Cuts `width` by `height` pixels out of the middle of the picture: in
    /// each axis the cut starts at half of what the picture has more than
    /// the cut, rounded down. There is no result where the cut is wider or
    /// higher than the picture.
    pub fn crop_center(&self, width: u32, height: u32) -> (out: Option<Raster>)
        requires
            self.wf(),
        ensures
            out is Some <==> width <= self@.width && height <= self@.height,
            out is Some ==> {
                &&& out->0@.width == width
                &&& out->0@.height == height
                &&& out->0@.is_crop_of(
                    self@,
                    centre_offset(self@.width as int, width as int),
                    centre_offset(self@.height as int, height as int),
                )
            },
            out is Some && width == self@.width && height == self@.height ==> out->0@ == self@,
    {
        if width > self.width || height > self.height {
            return None;
        }
        let x: u32 = (self.width - width) / 2;
        let y: u32 = (self.height - height) / 2;
        let out = crop_region(self, x, y, width, height);
        proof {
            if width == self.width && height == self.height {
                lemma_whole_is_own_crop(self@);
                lemma_crop_is_determined(out@, self@, self@, 0, 0);
            }
        }
        Some(out)
    }
}

} // verus!
