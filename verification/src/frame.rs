//! The captured frame: an RGBA pixel buffer, stored in an image-crate
//! buffer that the contracts see through three names — width, height, and
//! the map from pixel position to channel values — and a handful of
//! trusted wrappers around the crate's buffer operations. Values cross the
//! boundary as plain bytes: four per pixel, rows first.

use vstd::prelude::*;

verus! {

/// A frame of RGBA pixels. The buffer inside is the image crate's; nothing
/// reads it but the wrappers below.
#[verifier::external_body]
pub struct Frame {
    inner: image::RgbaImage,
}

/// The width of a frame, in pixels.
pub uninterp spec fn frame_width(img: Frame) -> u32;

/// The height of a frame, in pixels.
pub uninterp spec fn frame_height(img: Frame) -> u32;

/// What a frame holds: each in-range position's RGBA channel values.
pub uninterp spec fn frame_pixels(img: Frame) -> Map<(int, int), (u8, u8, u8, u8)>;

impl Frame {
    /// Relies on ImageBuffer::width.
    #[verifier::external_body]
    pub fn width(&self) -> (r: u32)
        ensures
            r == frame_width(*self),
    {
        self.inner.width()
    }

    /// Relies on ImageBuffer::height.
    #[verifier::external_body]
    pub fn height(&self) -> (r: u32)
        ensures
            r == frame_height(*self),
    {
        self.inner.height()
    }

    /// Relies on ImageBuffer::get_pixel; the in-range requirement keeps the
    /// call from panicking.
    #[verifier::external_body]
    pub fn pixel_at(&self, x: u32, y: u32) -> (r: (u8, u8, u8, u8))
        requires
            x < frame_width(*self),
            y < frame_height(*self),
        ensures
            r == frame_pixels(*self)[(x as int, y as int)],
    {
        let p = self.inner.get_pixel(x, y);
        (p.0[0], p.0[1], p.0[2], p.0[3])
    }

    /// Relies on ImageBuffer::from_raw: a frame over the given bytes, four
    /// per pixel, rows first; it exists exactly when the buffer length
    /// suffices and the byte count fits the address space.
    #[verifier::external_body]
    pub fn from_raw(w: u32, h: u32, bytes: Vec<u8>) -> (r: Option<Frame>)
        ensures
            (r is Some <==> (4 * w * h <= usize::MAX && bytes@.len() >= 4 * w * h)),
            r is Some ==> frame_width(r->0) == w && frame_height(r->0) == h,
            r is Some ==> forall|i: int, j: int|
                0 <= i < w && 0 <= j < h ==> frame_pixels(r->0)[(i, j)] == (
                    bytes@[4 * (j * w + i)],
                    bytes@[4 * (j * w + i) + 1],
                    bytes@[4 * (j * w + i) + 2],
                    bytes@[4 * (j * w + i) + 3],
                ),
    {
        image::RgbaImage::from_raw(w, h, bytes).map(|inner| Frame { inner })
    }

    /// Relies on ImageBuffer::into_raw: the pixel bytes back, four per
    /// pixel, rows first.
    #[verifier::external_body]
    pub fn into_raw(self) -> (r: Vec<u8>)
        ensures
            r@.len() >= 4 * frame_width(self) * frame_height(self),
            forall|i: int, j: int|
                0 <= i < frame_width(self) && 0 <= j < frame_height(self) ==> frame_pixels(self)[(
                    i,
                    j,
                )] == (
                    r@[4 * (j * frame_width(self) + i)],
                    r@[4 * (j * frame_width(self) + i) + 1],
                    r@[4 * (j * frame_width(self) + i) + 2],
                    r@[4 * (j * frame_width(self) + i) + 3],
                ),
    {
        self.inner.into_raw()
    }

    /// Relies on imageops::crop_imm and SubImage::to_image: an in-bounds
    /// region copied out of the frame. The requirement keeps the crate's
    /// own clamping idle, so the region is exactly the requested one.
    #[verifier::external_body]
    pub fn crop(&self, x: u32, y: u32, w: u32, h: u32) -> (r: Frame)
        requires
            x + w <= frame_width(*self),
            y + h <= frame_height(*self),
        ensures
            frame_width(r) == w,
            frame_height(r) == h,
            forall|i: int, j: int|
                0 <= i < w && 0 <= j < h ==> frame_pixels(r)[(i, j)] == frame_pixels(*self)[(
                    x + i,
                    y + j,
                )],
    {
        Frame { inner: image::imageops::crop_imm(&self.inner, x, y, w, h).to_image() }
    }

    /// Relies on imageops::resize: a resampled copy with exactly the
    /// requested dimensions, its content the named function of source,
    /// size and filter. The requirements keep every buffer the resampling
    /// allocates representable — the output's four bytes per pixel, and
    /// the intermediate float image of source width by target height at
    /// sixteen — which the crate's own length checks would otherwise
    /// panic on.
    #[verifier::external_body]
    pub fn resize(&self, w: u32, h: u32, filter: ResampleFilter) -> (r: Frame)
        requires
            4 * (w as int) * (h as int) < 0x8000_0000_0000_0000,
            16 * (frame_width(*self) as int) * (h as int) < 0x8000_0000_0000_0000,
        ensures
            frame_width(r) == w,
            frame_height(r) == h,
            frame_pixels(r) == resampled(*self, w, h, filter),
    {
        let f = match filter {
            ResampleFilter::Nearest => image::imageops::FilterType::Nearest,
            ResampleFilter::Triangle => image::imageops::FilterType::Triangle,
            ResampleFilter::CatmullRom => image::imageops::FilterType::CatmullRom,
            ResampleFilter::Gaussian => image::imageops::FilterType::Gaussian,
            ResampleFilter::Lanczos3 => image::imageops::FilterType::Lanczos3,
        };
        Frame { inner: image::imageops::resize(&self.inner, w, h, f) }
    }
}

/// The largest dimension the rescale consumes or produces. Within it,
/// every buffer the resampling allocates stays representable: the
/// intermediate float image costs sixteen bytes per pixel of source width
/// by target height, and two such dimensions keep that product under the
/// allocator's limit.
pub const DIM_LIMIT: u32 = 0x2000_0000;

/// How scaled frames are resampled under each of the image crate's
/// filters.
#[derive(Debug, Clone, Copy, PartialEq, Eq, Structural)]
pub enum ResampleFilter {
    Nearest,
    Triangle,
    CatmullRom,
    Gaussian,
    Lanczos3,
}

/// What the image crate's resampling produces: a function of the source
/// frame, the target size and the filter alone.
pub uninterp spec fn resampled(img: Frame, w: u32, h: u32, filter: ResampleFilter) -> Map<
    (int, int),
    (u8, u8, u8, u8),
>;

} // verus!
