use vstd::prelude::*;
use std::sync::Arc;

verus! {

/// A shared, immutable grayscale raster: one `image::GrayImage` behind an `Arc`.
#[verifier::external_body]
pub struct GrayFrame {
    img: Arc<image::GrayImage>,
}

/// The samples that a frame holds, one byte per pixel, row by row.
pub uninterp spec fn frame_samples(f: GrayFrame) -> Seq<u8>;

/// Width and height of a frame, in pixels.
pub uninterp spec fn frame_dims(f: GrayFrame) -> (u32, u32);

/// Relies on `ImageBuffer::from_raw`: an image over `data` when it holds at least
/// `width * height` samples (one channel), else `None`; the buffer is kept whole.
#[verifier::external_body]
fn image_from_raw(width: u32, height: u32, data: Vec<u8>) -> (r: Option<GrayFrame>)
    ensures
        r is Some <==> (width as int) * (height as int) <= data@.len(),
        r matches Some(f) ==> frame_samples(f) == data@ && frame_dims(f) == (width, height),
{
    image::GrayImage::from_raw(width, height, data).map(|img| GrayFrame { img: Arc::new(img) })
}

/// Relies on `ImageBuffer::as_raw`: the whole sample buffer.
#[verifier::external_body]
fn image_raw(f: &GrayFrame) -> (r: &Vec<u8>)
    ensures
        r@ == frame_samples(*f),
{
    f.img.as_raw()
}

/// Relies on `ImageBuffer::dimensions`: width and height, in that order.
#[verifier::external_body]
fn image_dimensions(f: &GrayFrame) -> (r: (u32, u32))
    ensures
        r == frame_dims(*f),
{
    f.img.dimensions()
}

impl Clone for GrayFrame {
    /// Relies on `Arc::clone`: the copy shares the same image.
    #[verifier::external_body]
    fn clone(&self) -> (r: Self)
        ensures
            frame_samples(r) == frame_samples(*self),
            frame_dims(r) == frame_dims(*self),
    {
        GrayFrame { img: Arc::clone(&self.img) }
    }
}

impl GrayFrame {
    /// A `width` by `height` frame over `data`, row by row; `None` when `data` holds
    /// fewer than `width * height` samples.
    pub fn new(width: u32, height: u32, data: Vec<u8>) -> (r: Option<GrayFrame>)
        ensures
            r is Some <==> (width as int) * (height as int) <= data@.len(),
            r matches Some(f) ==> frame_samples(f) == data@ && frame_dims(f) == (width, height),
    {
        image_from_raw(width, height, data)
    }

    /// The frame's samples, row by row.
    pub fn samples(&self) -> (r: &Vec<u8>)
        ensures
            r@ == frame_samples(*self),
    {
        image_raw(self)
    }

    /// Width and height, in pixels.
    pub fn dimensions(&self) -> (r: (u32, u32))
        ensures
            r == frame_dims(*self),
    {
        image_dimensions(self)
    }

    /// Whether the frame holds no samples, as after its image was released.
    pub fn is_empty(&self) -> (r: bool)
        ensures
            r == (frame_samples(*self).len() == 0),
    {
        frame_len(self) == 0
    }
}

/// Relies on `ImageBuffer`'s `Deref` to its whole sample buffer and on slice `len`.
#[verifier::external_body]
pub(crate) fn frame_len(f: &GrayFrame) -> (r: usize)
    ensures
        r == frame_samples(*f).len(),
{
    f.img.len()
}

/// Relies on `ImageBuffer::default`: a 0 by 0 image over an empty buffer.
#[verifier::external_body]
pub(crate) fn empty_frame() -> (r: GrayFrame)
    ensures
        frame_samples(r).len() == 0,
        frame_dims(r) == (0u32, 0u32),
{
    GrayFrame { img: Arc::new(image::GrayImage::default()) }
}

} // verus!
