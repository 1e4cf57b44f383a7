//! Snapshot export: the pixels read back from a view, encoded as a PNG file
//! image.

use vstd::prelude::*;

verus! {

/// The error of the PNG encoder.
#[verifier::external_type_specification]
#[verifier::external_body]
pub struct ExEncodingError(png::EncodingError);

/// What the PNG encoder makes of an image of 8-bit RGBA pixels: the bytes of
/// the file, or `None` where it gives up.
pub uninterp spec fn png_rgba8(data: Seq<u8>, width: u32, height: u32) -> Option<Seq<u8>>;

/// Why a snapshot could not be encoded.
#[derive(Clone, Copy, Debug, PartialEq, Eq, Structural)]
pub enum SnapshotError {
    /// The image has no width or no height.
    EmptyImage,
    /// The data is not four bytes for each pixel.
    WrongSize,
    /// The encoder failed.
    Encoder,
}

/// The bytes that the pixels of an image take at four bytes each.
pub open spec fn snapshot_len(width: u32, height: u32) -> int {
    width * height * 4
}

/// Runs `png::Encoder` over a byte vector: 8-bit RGBA, default options,
/// header, image data, end. Trusted: the result is what the encoder returns
/// for these arguments, the file's bytes or its error; the encoder is
/// deterministic. The `requires` is what keeps the encoder's own size
/// arithmetic in range.
#[verifier::external_body]
fn png_encode_rgba8(data: &Vec<u8>, width: u32, height: u32) -> (r: Result<Vec<u8>, png::EncodingError>)
    requires
        width > 0,
        height > 0,
        data@.len() == snapshot_len(width, height),
    ensures
        match r {
            Ok(bytes) => png_rgba8(data@, width, height) == Some(bytes@),
            Err(_) => png_rgba8(data@, width, height) is None,
        },
{
    let mut out: Vec<u8> = Vec::new();
    let mut encoder = png::Encoder::new(&mut out, width, height);
    encoder.set_color(png::ColorType::Rgba);
    encoder.set_depth(png::BitDepth::Eight);
    let mut writer = encoder.write_header()?;
    writer.write_image_data(data)?;
    writer.finish()?;
    Ok(out)
}

/// Whether `len` bytes are four for each pixel of the image.
pub fn fits_image(len: usize, width: u32, height: u32) -> (r: bool)
    ensures
        r == (len == snapshot_len(width, height)),
{
    let w: u128 = width as u128;
    let h: u128 = height as u128;
    assert(w * h <= 0xffff_ffff * 0xffff_ffff) by (nonlinear_arith)
        requires
            0 <= w <= 0xffff_ffff,
            0 <= h <= 0xffff_ffff,
    ;
    len as u128 == w * h * 4
}

/// What `encode_png` returns for what the encoder made of the image.
pub open spec fn encoded(data: Seq<u8>, width: u32, height: u32, png: Option<Seq<u8>>) -> Result<
    Seq<u8>,
    SnapshotError,
> {
    if width == 0 || height == 0 {
        Err(SnapshotError::EmptyImage)
    } else if data.len() != snapshot_len(width, height) {
        Err(SnapshotError::WrongSize)
    } else {
        match png {
            Some(bytes) => Ok(bytes),
            None => Err(SnapshotError::Encoder),
        }
    }
}

/// Encodes an image of 8-bit RGBA pixels, rows from the top, as a PNG file
/// image.
pub fn encode_png(data: &Vec<u8>, width: u32, height: u32) -> (r: Result<Vec<u8>, SnapshotError>)
    ensures
        match encoded(data@, width, height, png_rgba8(data@, width, height)) {
            Ok(bytes) => r is Ok && r->Ok_0@ == bytes,
            Err(e) => r == Err::<Vec<u8>, SnapshotError>(e),
        },
{
    if width == 0 || height == 0 {
        return Err(SnapshotError::EmptyImage);
    }
    if !fits_image(data.len(), width, height) {
        return Err(SnapshotError::WrongSize);
    }
    match png_encode_rgba8(data, width, height) {
        Ok(bytes) => Ok(bytes),
        Err(_) => Err(SnapshotError::Encoder),
    }
}

} // verus!
