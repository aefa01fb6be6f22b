use vstd::prelude::*;

use crate::dtype::{accepts, Accessor};
use crate::error::WzError;

verus! {

/// The `image` crate's in-memory image, carried through unopened.
#[verifier::external_type_specification]
#[verifier::external_body]
pub struct ExDynamicImage(image::DynamicImage);

/// Relies on `image::ImageBuffer::from_raw`, which accepts a buffer exactly
/// when `channels * width * height` (computed with checked multiplication)
/// is at most its length; BGRA pixels have four channels. The accepted
/// buffer is tagged as BGRA by `image::DynamicImage::ImageBgra8`.
#[verifier::external_body]
fn bgra_image(width: u32, height: u32, data: Vec<u8>) -> (r: Option<image::DynamicImage>)
    ensures
        r is Some <==> 4 * width * height <= data@.len(),
{
    image::ImageBuffer::from_raw(width, height, data).map(image::DynamicImage::ImageBgra8)
}

/// The number of bytes of a `width` by `height` BGRA8 pixel buffer.
pub open spec fn pixel_bytes(width: u32, height: u32) -> int {
    4 * width * height
}

/// The byte length of a `width` by `height` BGRA8 pixel buffer, when it
/// fits in `usize`.
pub fn image_len(width: u32, height: u32) -> (r: Option<usize>)
    ensures
        r is Some <==> pixel_bytes(width, height) <= usize::MAX,
        r matches Some(n) ==> n == pixel_bytes(width, height),
{
    let w: u128 = width as u128;
    let h: u128 = height as u128;
    proof {
        assert(4 * w * h <= 4 * 0xffff_ffffu128 * 0xffff_ffffu128) by (nonlinear_arith)
            requires
                w <= 0xffff_ffffu128,
                h <= 0xffff_ffffu128,
        ;
    }
    let n: u128 = 4u128 * w * h;
    if n <= usize::MAX as u128 {
        Some(n as usize)
    } else {
        None
    }
}

/// A decoded image, copied out of the native parser's memory: its size,
/// bit depth, scale and BGRA8 pixels, four bytes per pixel.
pub struct ImageBuffer {
    width: u32,
    height: u32,
    depth: u16,
    scale: u8,
    data: Vec<u8>,
}

impl ImageBuffer {
    #[verifier::type_invariant]
    spec fn inv(&self) -> bool {
        self.data@.len() == pixel_bytes(self.width, self.height)
    }

    pub closed spec fn spec_width(&self) -> u32 {
        self.width
    }

    pub closed spec fn spec_height(&self) -> u32 {
        self.height
    }

    pub closed spec fn spec_depth(&self) -> u16 {
        self.depth
    }

    pub closed spec fn spec_scale(&self) -> u8 {
        self.scale
    }

    pub closed spec fn spec_data(&self) -> Seq<u8> {
        self.data@
    }

    pub fn width(&self) -> (r: u32)
        ensures
            r == self.spec_width(),
    {
        self.width
    }

    pub fn height(&self) -> (r: u32)
        ensures
            r == self.spec_height(),
    {
        self.height
    }

    pub fn depth(&self) -> (r: u16)
        ensures
            r == self.spec_depth(),
    {
        self.depth
    }

    pub fn scale(&self) -> (r: u8)
        ensures
            r == self.spec_scale(),
    {
        self.scale
    }

    /// The pixels, four bytes (blue, green, red, alpha) per pixel, row by row.
    pub fn data(&self) -> (r: &[u8])
        ensures
            r@ == self.spec_data(),
            r@.len() == pixel_bytes(self.spec_width(), self.spec_height()),
    {
        proof {
            use_type_invariant(self);
        }
        self.data.as_slice()
    }

    /// Hands the pixels to the `image` crate as a BGRA8 image. The buffer
    /// always has the size its dimensions give, so the image is always made.
    pub fn into_dynamic(self) -> (r: Option<image::DynamicImage>)
        ensures
            r is Some,
    {
        proof {
            use_type_invariant(&self);
        }
        bgra_image(self.width, self.height, self.data)
    }
}

/// The result of an image query on a node with numeric tag `tag`: a type
/// error unless the node is an image, a decode error when the native parser
/// returned no pixels or a buffer of another size than the dimensions give.
pub fn read_image(
    tag: u8,
    width: u32,
    height: u32,
    depth: u16,
    scale: u8,
    pixels: Option<Vec<u8>>,
) -> (r: Result<ImageBuffer, WzError>)
    ensures
        !accepts(Accessor::Image, tag) ==> r == Err::<ImageBuffer, WzError>(WzError::TypeError),
        accepts(Accessor::Image, tag) ==> {
            &&& r is Ok <==> (pixels matches Some(p) && p@.len() == pixel_bytes(width, height))
            &&& r matches Err(e) ==> e == WzError::DecodeError
        },
        r matches Ok(img) ==> {
            &&& img.spec_width() == width
            &&& img.spec_height() == height
            &&& img.spec_depth() == depth
            &&& img.spec_scale() == scale
            &&& pixels matches Some(p) && img.spec_data() == p@
        },
{
    if !Accessor::Image.accepts(tag) {
        return Err(WzError::TypeError);
    }
    match pixels {
        Some(data) => {
            let len = data.len();
            match image_len(width, height) {
                Some(n) if len == n => Ok(ImageBuffer { width, height, depth, scale, data }),
                _ => Err(WzError::DecodeError),
            }
        },
        None => Err(WzError::DecodeError),
    }
}

} // verus!
