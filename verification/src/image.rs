//! Image helpers: the conversion of a device-independent bitmap to PNG and
//! the test for image file extensions.

use crate::body::FilePath;
use crate::mime_type::{mime_of_extension, ImageMimeType};
use vstd::prelude::*;

verus! {

/// The PNG encoding that the image codec produces for a device-independent
/// bitmap (a BMP without its file header); `None` where the codec rejects the
/// bitmap or cannot encode it.
pub uninterp spec fn png_of_dib(dib: Seq<u8>) -> Option<Seq<u8>>;

/// The view of optional bytes.
pub open spec fn opt_bytes_view(bytes: Option<Vec<u8>>) -> Option<Seq<u8>> {
    match bytes {
        Some(b) => Some(b@),
        None => None,
    }
}

/// Calls the `image` crate: `BmpDecoder::new_without_file_header` reads the
/// bitmap's header, `DynamicImage::from_decoder` decodes the pixels and
/// `DynamicImage::write_to` encodes them as PNG into a fresh buffer. An error
/// of any of the three gives `None`.
///
/// The contract only names the result: it claims that the same bytes always
/// give the same answer, and nothing about what the answer is. The codec
/// reserves memory for as many pixels as the header announces (at most
/// 65535 by 65535) before it finds out whether the bytes hold them.
#[verifier::external_body]
fn decode_dib_encode_png(dib_bytes: &[u8]) -> (png: Option<Vec<u8>>)
    ensures
        opt_bytes_view(png) == png_of_dib(dib_bytes@),
{
    let cursor = std::io::Cursor::new(dib_bytes);
    let decoder = image::codecs::bmp::BmpDecoder::new_without_file_header(cursor).ok()?;
    let dynamic_image = image::DynamicImage::from_decoder(decoder).ok()?;
    let mut png_buffer = Vec::new();
    let mut writer = std::io::Cursor::new(&mut png_buffer);
    dynamic_image.write_to(&mut writer, image::ImageFormat::Png).ok()?;
    Some(png_buffer)
}

/// Converts a device-independent bitmap, as the clipboard hands it over, to
/// PNG. `None` when the bytes are no bitmap that the codec accepts.
pub fn convert_dib_to_png(dib_bytes: &[u8]) -> (png: Option<Vec<u8>>)
    ensures
        opt_bytes_view(png) == png_of_dib(dib_bytes@),
{
    decode_dib_encode_png(dib_bytes)
}

/// Whether `ext` is the extension of an image file: one of `png`, `jpg`,
/// `jpeg`, `gif`, `bmp`, `webp`, `svg`, `ico`.
pub open spec fn image_extension(ext: Option<Seq<char>>) -> bool {
    match ext {
        Some(e) => mime_of_extension(e) is Some,
        None => false,
    }
}

/// Whether the path has the extension of an image file.
pub fn file_is_image(path: &FilePath) -> (is_image: bool)
    ensures
        is_image == image_extension(path@.extension),
{
    match &path.extension {
        Some(ext) => ImageMimeType::from_ext(ext.as_str()).is_some(),
        None => false,
    }
}

} // verus!
