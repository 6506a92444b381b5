use vstd::prelude::*;

verus! {

/// Declares `image::ImageError`, why an image could not be decoded; opaque
/// here.
#[verifier::external_type_specification]
#[verifier::external_body]
pub struct ExImageError(image::ImageError);

/// What decoding PNG bytes into 8-bit RGBA gives: the pixel bytes row by
/// row, the width and the height; `None` when they cannot be decoded.
pub uninterp spec fn png_rgba8_decoding_of(encoded: Seq<u8>) -> Option<(Seq<u8>, u32, u32)>;

/// Relies on `image::ImageReader::with_format` with `ImageFormat::Png` and
/// `ImageReader::decode`, which use the built-in PNG decoder alone (no
/// registered format-detection or decoding hook), then on
/// `DynamicImage::into_rgba8`, `ImageBuffer::dimensions` and
/// `ImageBuffer::into_raw` to hand out the RGBA bytes and the size. An image
/// buffer always holds at least four bytes for each of its pixels.
#[verifier::external_body]
fn decode_png_rgba8(encoded: &[u8]) -> (r: Result<(Vec<u8>, u32, u32), image::ImageError>)
    ensures
        match r {
            Ok((rgba, width, height)) => {
                &&& png_rgba8_decoding_of(encoded@) == Some((rgba@, width, height))
                &&& rgba@.len() >= 4 * width * height
            },
            Err(_) => png_rgba8_decoding_of(encoded@) is None,
        },
{
    let reader = image::ImageReader::with_format(
        std::io::Cursor::new(encoded),
        image::ImageFormat::Png,
    );
    let img = reader.decode()?.into_rgba8();
    let (width, height) = img.dimensions();
    Ok((img.into_raw(), width, height))
}

/// Pixels for the tray icon: 8-bit RGBA, row by row.
#[derive(Debug, PartialEq, Eq)]
pub struct IconImage {
    pub rgba: Vec<u8>,
    pub width: u32,
    pub height: u32,
}

impl IconImage {
    /// Every pixel of the image has its four bytes.
    pub open spec fn well_formed(&self) -> bool {
        self.rgba@.len() >= 4 * self.width * self.height
    }
}

/// Why no tray icon could be made.
#[derive(Clone, Copy, Debug, PartialEq, Eq, Structural)]
pub enum IconError {
    /// The bytes are not a PNG image that can be decoded.
    Undecodable,
}

/// Decodes the bundled PNG icon into the RGBA pixels of the tray icon.
pub fn decode_tray_icon(encoded: &[u8]) -> (r: Result<IconImage, IconError>)
    ensures
        match r {
            Ok(icon) => {
                &&& png_rgba8_decoding_of(encoded@) == Some((icon.rgba@, icon.width, icon.height))
                &&& icon.well_formed()
            },
            Err(e) => png_rgba8_decoding_of(encoded@) is None && e == IconError::Undecodable,
        },
{
    match decode_png_rgba8(encoded) {
        Ok((rgba, width, height)) => Ok(IconImage { rgba, width, height }),
        Err(_) => Err(IconError::Undecodable),
    }
}

} // verus!
