//! The pixel data behind the 2-D texture: a shape in pixels and an RGBA
//! byte buffer that matches it.
//!
//! Uploading a texture hands the GPU a byte buffer together with a width
//! and a height, and the upload reads four bytes per pixel from the front
//! of the buffer; bytes past that prefix are never read. The buffer kept
//! here is exactly that prefix, and the relation between its length and
//! the shape is the invariant proved in this module. The decoding of an
//! encoded image (PNG and the like) is the image crate's work, behind a
//! trusted wrapper; everything after the decode is verified.

use vstd::prelude::*;

verus! {

/// Size of a texture in pixels.
#[derive(Clone, Copy, Debug, PartialEq, Eq, Structural)]
pub struct Shape {
    /// Width in pixels.
    pub width: u32,
    /// Height in pixels.
    pub height: u32,
}

/// Bytes an RGBA8 buffer of this shape must hold: four bytes per pixel.
pub open spec fn rgba_len(shape: Shape) -> int {
    4 * shape.width * shape.height
}

/// An RGBA8 pixel buffer whose length matches its shape, ready to be
/// uploaded as a texture.
#[derive(Clone, Debug)]
pub struct RgbaPixels {
    /// Pixel bytes, row-major, four per pixel.
    pub bytes: Vec<u8>,
    /// The shape the bytes fill.
    pub shape: Shape,
}

// What the image crate's decoder makes of a byte string: nothing when the
// bytes do not decode, else the RGBA8 pixels with their width and height.
// The decode depends on the bytes alone, so the result can be named even
// though stating it would take pages.
pub uninterp spec fn decoded_rgba8(bytes: Seq<u8>) -> Option<(Seq<u8>, u32, u32)>;

/// Relies on image::load_from_memory and image::DynamicImage::into_rgba8
/// (with ImageBuffer::into_raw): bytes that decode as an image hand back
/// the decoded RGBA8 pixels with their width and height, and the pixel
/// buffer holds exactly four bytes per pixel; bytes that do not decode
/// hand back nothing.
#[verifier::external_body]
fn decode_image_rgba8(bytes: &[u8]) -> (r: Option<(Vec<u8>, u32, u32)>)
    ensures
        r is Some <==> decoded_rgba8(bytes@) is Some,
        r matches Some(d) ==> {
            &&& (decoded_rgba8(bytes@) matches Some(e)
                && d.0@ == e.0 && d.1 == e.1 && d.2 == e.2)
            &&& d.0@.len() == 4 * d.1 * d.2
        },
{
    let img = match image::load_from_memory(bytes) {
        Ok(img) => img,
        Err(_) => return None,
    };
    let width = img.width();
    let height = img.height();
    Some((img.into_rgba8().into_raw(), width, height))
}

impl RgbaPixels {
    /// The buffer matches the shape: four bytes for every pixel.
    pub open spec fn wf(&self) -> bool {
        self.bytes@.len() == rgba_len(self.shape)
    }

    /// Take a raw RGBA8 buffer for a texture of the given shape. Succeeds
    /// exactly when the buffer holds at least four bytes per pixel; the
    /// texture reads only that prefix, so trailing bytes are dropped, and
    /// a buffer too short for the shape is rejected rather than handed to
    /// the GPU.
    pub fn new_from_rgb8(bytes: Vec<u8>, shape: Shape) -> (r: Option<Self>)
        ensures
            r is Some <==> bytes@.len() >= rgba_len(shape),
            r matches Some(p) ==> {
                &&& p.wf()
                &&& p.bytes@ == bytes@.subrange(0, rgba_len(shape))
                &&& p.shape == shape
            },
    {
        proof {
            assert(4 * (shape.width as int) * (shape.height as int) < u128::MAX) by (nonlinear_arith)
                requires
                    shape.width < 0x1_0000_0000,
                    shape.height < 0x1_0000_0000,
            ;
        }
        let needed: u128 = 4u128 * (shape.width as u128) * (shape.height as u128);
        if (bytes.len() as u128) >= needed {
            let mut prefix = bytes;
            prefix.truncate(needed as usize);
            Some(RgbaPixels { bytes: prefix, shape })
        } else {
            None
        }
    }

    /// Decode an encoded image (PNG and the like) into an RGBA8 buffer.
    /// Succeeds exactly when the bytes decode; the pixels and the shape
    /// are the decoder's, and the buffer matches the shape.
    pub fn new_from_img_bytes(bytes: &[u8]) -> (r: Option<Self>)
        ensures
            r is Some <==> decoded_rgba8(bytes@) is Some,
            r matches Some(p) ==> {
                &&& p.wf()
                &&& (decoded_rgba8(bytes@) matches Some(e)
                    && p.bytes@ == e.0 && p.shape.width == e.1 && p.shape.height == e.2)
            },
    {
        match decode_image_rgba8(bytes) {
            None => None,
            Some((data, width, height)) => {
                proof {
                    assert(data@.subrange(0, data@.len() as int) =~= data@);
                }
                Self::new_from_rgb8(data, Shape { width, height })
            },
        }
    }
}

} // verus!
