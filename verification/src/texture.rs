//! The texture loader's decoding half.
//!
//! An encoded image is decoded to an 8-bit RGBA pixel buffer with its
//! dimensions; the host then uploads the buffer into a GPU texture of the
//! matching extent.  Decoding is the `image` crate's work behind trusted
//! wrappers; everything after — sizing the buffer exactly, the row stride of
//! the upload — is verified here.  Malformed bytes surface a decode error
//! and construct nothing.

use vstd::prelude::*;

verus! {

/// The bytes could not be decoded as an image.
#[derive(Clone, Copy, Debug, PartialEq, Eq, Structural)]
pub struct DecodeError {
}

#[verifier::external_type_specification]
#[verifier::external_body]
pub struct ExImageError(image::ImageError);

/// Whether the bytes decode as an image of a supported encoded format.
pub uninterp spec fn decode_ok(bytes: Seq<u8>) -> bool;

/// Width, in pixels, of the image the bytes decode to.
pub uninterp spec fn decode_width(bytes: Seq<u8>) -> u32;

/// Height, in pixels, of the image the bytes decode to.
pub uninterp spec fn decode_height(bytes: Seq<u8>) -> u32;

/// Raw byte container of the decoded image's 8-bit RGBA buffer: four bytes
/// per pixel, row by row, possibly followed by spare capacity.
pub uninterp spec fn decode_rgba(bytes: Seq<u8>) -> Seq<u8>;

/// Relies on `image::guess_format`, `image::load_from_memory_with_format`
/// and `image::DynamicImage::to_rgba8`: the format comes from the static
/// magic-byte table alone and the decoder is the built-in one for that
/// format, never a registered hook, so whether the bytes decode and the
/// extent and RGBA buffer they decode to are functions of the bytes alone;
/// the buffer's container holds at least `4 * width * height` bytes;
/// malformed input returns the error.
#[verifier::external_body]
fn decode_bytes(bytes: &[u8]) -> (r: Result<(u32, u32, Vec<u8>), image::ImageError>)
    ensures
        r is Ok <==> decode_ok(bytes@),
        r matches Ok(t) ==> t.0 == decode_width(bytes@) && t.1 == decode_height(bytes@) && t.2@
            == decode_rgba(bytes@) && t.2@.len() >= 4 * (t.0 as int) * (t.1 as int),
{
    let format = image::guess_format(bytes)?;
    let img = image::load_from_memory_with_format(bytes, format)?;
    let rgba = img.to_rgba8();
    let (width, height) = rgba.dimensions();
    Ok((width, height, rgba.into_raw()))
}

/// A decoded image ready to upload: its extent and exactly `4 * width *
/// height` RGBA bytes.
pub struct ImageTexture {
    pub width: u32,
    pub height: u32,
    pub pixels: Vec<u8>,
}

impl ImageTexture {
    /// The pixel buffer holds exactly four bytes for each of the
    /// `width * height` pixels.
    pub open spec fn wf(self) -> bool {
        self.pixels@.len() == 4 * (self.width as int) * (self.height as int)
    }

    /// Decodes encoded image bytes into an RGBA pixel buffer of the
    /// image's extent; exactly the bytes that decode succeed, and
    /// malformed bytes yield the decode error and no texture.
    pub fn from_bytes(bytes: &[u8]) -> (r: Result<ImageTexture, DecodeError>)
        ensures
            r is Ok <==> decode_ok(bytes@),
            r matches Ok(t) ==> t.wf() && t.width == decode_width(bytes@) && t.height
                == decode_height(bytes@) && t.pixels@ == decode_rgba(bytes@).subrange(
                0,
                4 * (t.width as int) * (t.height as int),
            ),
    {
        match decode_bytes(bytes) {
            Ok((width, height, mut pixels)) => {
                let exact: usize = exact_rgba_len(width, height, pixels.len());
                pixels.truncate(exact);
                Ok(ImageTexture { width, height, pixels })
            },
            Err(_) => Err(DecodeError {  }),
        }
    }

    pub fn width(&self) -> (w: u32)
        ensures
            w == self.width,
    {
        self.width
    }

    pub fn height(&self) -> (h: u32)
        ensures
            h == self.height,
    {
        self.height
    }

    /// Byte count of one pixel row as handed to the upload: the real row
    /// stride of the tightly packed RGBA buffer.
    pub fn bytes_per_row(&self) -> (n: u64)
        ensures
            n == 4 * (self.width as int),
    {
        4u64 * (self.width as u64)
    }
}

/// The exact byte count of a tightly packed RGBA image of the given
/// extent, computable without overflow because a buffer at least that
/// large exists.
fn exact_rgba_len(width: u32, height: u32, available: usize) -> (n: usize)
    requires
        available >= 4 * (width as int) * (height as int),
    ensures
        n == 4 * (width as int) * (height as int),
{
    proof {
        assert((width as int) * (height as int) >= 0 && 4 * ((width as int) * (height as int))
            == 4 * (width as int) * (height as int)) by (nonlinear_arith);
    }
    let wh: usize = (width as usize) * (height as usize);
    4usize * wh
}

} // verus!
