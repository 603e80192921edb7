//! Rasters of RGB pixels.
//!
//! A raster keeps its pixels in an `image::RgbImage`: row after row, three
//! samples for each pixel, no header.

use vstd::prelude::*;

verus! {

/// A raster of RGB pixels, `width` by `height`, fixed when it is made.
#[verifier::external_body]
pub struct Raster {
    image: image::RgbImage,
}

/// Width and height of the raster in pixels.
pub uninterp spec fn raster_size(raster: Raster) -> (u32, u32);

/// The samples of the raster: row after row, and red, green and blue of each
/// pixel in a row.
pub uninterp spec fn raster_data(raster: Raster) -> Seq<u8>;

/// Where the first sample of pixel `(x, y)` stands in a raster `width` wide.
pub open spec fn sample_offset(width: u32, x: u32, y: u32) -> int {
    (y * width + x) * 3
}

/// Red, green and blue at pixel `(x, y)` of samples laid out `width` wide.
pub open spec fn pixel_of(data: Seq<u8>, width: u32, x: u32, y: u32) -> [u8; 3] {
    let at = sample_offset(width, x, y);
    [data[at], data[at + 1], data[at + 2]]
}

/// The samples after pixel `(x, y)` of samples laid out `width` wide has been
/// set to `rgb`.
pub open spec fn with_pixel(data: Seq<u8>, width: u32, x: u32, y: u32, rgb: [u8; 3]) -> Seq<u8> {
    let at = sample_offset(width, x, y);
    data.update(at, rgb[0]).update(at + 1, rgb[1]).update(at + 2, rgb[2])
}

/// Whether the samples of a raster of this size fit in a vector: three for
/// each pixel, no more than half of the largest `usize`.
pub open spec fn fits_in_memory(width: u32, height: u32) -> bool {
    3 * width * height <= usize::MAX / 2
}

impl Raster {
    /// The width in pixels.
    pub open spec fn spec_width(self) -> u32 {
        raster_size(self).0
    }

    /// The height in pixels.
    pub open spec fn spec_height(self) -> u32 {
        raster_size(self).1
    }

    /// The samples, as many as the size calls for.
    pub open spec fn view(self) -> Seq<u8> {
        raster_data(self)
    }

    /// A raster holds three samples for each of its pixels.
    pub open spec fn wf(self) -> bool {
        self@.len() == 3 * self.spec_width() * self.spec_height()
    }

    /// Red, green and blue at pixel `(x, y)`.
    pub open spec fn pixel(self, x: u32, y: u32) -> [u8; 3] {
        pixel_of(self@, self.spec_width(), x, y)
    }

    /// `image::ImageBuffer::new`: a raster of the given size with every
    /// sample zero. The call panics when the samples outgrow the largest
    /// vector, which the precondition leaves out.
    #[verifier::external_body]
    fn allocate(width: u32, height: u32) -> (r: Raster)
        requires
            fits_in_memory(width, height),
        ensures
            raster_size(r) == (width, height),
            raster_data(r) == Seq::new((3 * width * height) as nat, |i: int| 0u8),
    {
        Raster { image: image::ImageBuffer::new(width, height) }
    }

    /// `image::ImageBuffer::dimensions`: width and height as the raster was
    /// made with.
    #[verifier::external_body]
    fn dimensions(&self) -> (r: (u32, u32))
        ensures
            r == raster_size(*self),
    {
        self.image.dimensions()
    }

    /// `image::ImageBuffer::get_pixel`: the three samples that start at
    /// `(y * width + x) * 3`. The call panics outside the raster, which the
    /// precondition leaves out.
    #[verifier::external_body]
    fn read(&self, x: u32, y: u32) -> (r: [u8; 3])
        requires
            x < raster_size(*self).0,
            y < raster_size(*self).1,
        ensures
            r == pixel_of(raster_data(*self), raster_size(*self).0, x, y),
    {
        self.image.get_pixel(x, y).0
    }

    /// `image::ImageBuffer::put_pixel`: overwrites the three samples that
    /// start at `(y * width + x) * 3` and nothing else. The call panics
    /// outside the raster, which the precondition leaves out.
    #[verifier::external_body]
    fn write(&mut self, x: u32, y: u32, rgb: [u8; 3])
        requires
            x < raster_size(*old(self)).0,
            y < raster_size(*old(self)).1,
        ensures
            raster_size(*final(self)) == raster_size(*old(self)),
            raster_data(*final(self)) == with_pixel(
                raster_data(*old(self)),
                raster_size(*old(self)).0,
                x,
                y,
                rgb,
            ),
    {
        self.image.put_pixel(x, y, image::Rgb(rgb))
    }

    /// `image::ImageBuffer::into_raw`: the samples as the vector that held
    /// them.
    #[verifier::external_body]
    fn samples(self) -> (r: Vec<u8>)
        ensures
            r@ == raster_data(self),
    {
        self.image.into_raw()
    }

    /// Tells whether a raster of the given size can be made.
    pub fn fits(width: u32, height: u32) -> (r: bool)
        ensures
            r == fits_in_memory(width, height),
    {
        assert(width * height <= 0xFFFF_FFFF * 0xFFFF_FFFF) by (nonlinear_arith)
            requires
                width <= 0xFFFF_FFFF,
                height <= 0xFFFF_FFFF,
        ;
        let pixels: u64 = (width as u64) * (height as u64);
        let samples: u128 = 3 * (pixels as u128);
        let limit: usize = usize::MAX / 2;
        assert(3 * width * height == 3 * (width * height)) by (nonlinear_arith);
        samples <= limit as u128
    }

    /// Returns a raster of the given size with every sample zero. The size
    /// must be one that fits in memory.
    pub fn new(width: u32, height: u32) -> (r: Raster)
        requires
            fits_in_memory(width, height),
        ensures
            r.spec_width() == width,
            r.spec_height() == height,
            r@ == Seq::new((3 * width * height) as nat, |i: int| 0u8),
            r.wf(),
    {
        Raster::allocate(width, height)
    }

    /// Returns the width in pixels.
    pub fn width(&self) -> (r: u32)
        ensures
            r == self.spec_width(),
    {
        self.dimensions().0
    }

    /// Returns the height in pixels.
    pub fn height(&self) -> (r: u32)
        ensures
            r == self.spec_height(),
    {
        self.dimensions().1
    }

    /// Returns red, green and blue at pixel `(x, y)`, or `None` outside the
    /// raster.
    pub fn get_pixel(&self, x: u32, y: u32) -> (r: Option<[u8; 3]>)
        ensures
            r == if x < self.spec_width() && y < self.spec_height() {
                Some(self.pixel(x, y))
            } else {
                None
            },
    {
        let (width, height) = self.dimensions();
        if x < width && y < height {
            Some(self.read(x, y))
        } else {
            None
        }
    }

    /// Sets pixel `(x, y)` to `rgb` and leaves every other sample as it is.
    /// Outside the raster nothing is written; the result says whether the
    /// pixel was inside.
    pub fn put_pixel(&mut self, x: u32, y: u32, rgb: [u8; 3]) -> (inside: bool)
        ensures
            inside == (x < old(self).spec_width() && y < old(self).spec_height()),
            final(self).spec_width() == old(self).spec_width(),
            final(self).spec_height() == old(self).spec_height(),
            inside ==> final(self)@ == with_pixel(old(self)@, old(self).spec_width(), x, y, rgb),
            !inside ==> final(self)@ == old(self)@,
    {
        let (width, height) = self.dimensions();
        if x < width && y < height {
            self.write(x, y, rgb);
            true
        } else {
            false
        }
    }

    /// Hands out the samples: row after row, three for each pixel.
    pub fn into_raw(self) -> (r: Vec<u8>)
        ensures
            r@ == self@,
    {
        self.samples()
    }
}

/// Pixels inside a raster have their samples inside its data, and different
/// pixels have different samples.
pub proof fn samples_are_apart(width: u32, height: u32, x: u32, y: u32, u: u32, v: u32)
    requires
        x < width,
        y < height,
        u < width,
        v < height,
    ensures
        0 <= sample_offset(width, x, y),
        sample_offset(width, x, y) + 3 <= 3 * width * height,
        (x, y) != (u, v) ==> sample_offset(width, x, y) + 3 <= sample_offset(width, u, v)
            || sample_offset(width, u, v) + 3 <= sample_offset(width, x, y),
{
    let w = width as int;
    let h = height as int;
    let yi = y as int;
    let vi = v as int;
    assert(yi * w + w <= h * w) by (nonlinear_arith)
        requires
            0 <= yi < h,
            0 <= w,
    ;
    assert(0 <= yi * w) by (nonlinear_arith)
        requires
            0 <= yi,
            0 <= w,
    ;
    assert(3 * (h * w) == 3 * width * height) by (nonlinear_arith)
        requires
            w == width,
            h == height,
    ;
    if yi < vi {
        assert(yi * w + w <= vi * w) by (nonlinear_arith)
            requires
                yi < vi,
                0 <= w,
        ;
    }
    if vi < yi {
        assert(vi * w + w <= yi * w) by (nonlinear_arith)
            requires
                vi < yi,
                0 <= w,
        ;
    }
}

/// Setting a pixel inside a raster gives that pixel the new colour and leaves
/// every other pixel and the number of samples as they were.
pub proof fn with_pixel_sets_one_pixel(
    data: Seq<u8>,
    width: u32,
    height: u32,
    x: u32,
    y: u32,
    rgb: [u8; 3],
)
    requires
        data.len() == 3 * width * height,
        x < width,
        y < height,
    ensures
        with_pixel(data, width, x, y, rgb).len() == data.len(),
        pixel_of(with_pixel(data, width, x, y, rgb), width, x, y) == rgb,
        forall|u: u32, v: u32|
            u < width && v < height && (u, v) != (x, y) ==> #[trigger] pixel_of(
                with_pixel(data, width, x, y, rgb),
                width,
                u,
                v,
            ) == pixel_of(data, width, u, v),
{
    samples_are_apart(width, height, x, y, x, y);
    let after = with_pixel(data, width, x, y, rgb);
    assert(pixel_of(after, width, x, y) =~= rgb);
    assert forall|u: u32, v: u32|
        u < width && v < height && (u, v) != (x, y) implies #[trigger] pixel_of(
        after,
        width,
        u,
        v,
    ) == pixel_of(data, width, u, v) by {
        samples_are_apart(width, height, x, y, u, v);
        samples_are_apart(width, height, u, v, u, v);
        assert(pixel_of(after, width, u, v) =~= pixel_of(data, width, u, v));
    }
}

} // verus!
