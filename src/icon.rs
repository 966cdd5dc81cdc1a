//! The window icon: a PNG decoded to tightly packed RGBA pixels.
use vstd::prelude::*;

use image::GenericImageView;

verus! {

/// Why the icon could not be used.
#[derive(Debug, Copy, Clone, PartialEq, Eq, Structural)]
pub enum IconError {
    /// The bytes are not an image in a supported format.
    Decode,
}

/// Pixels in RGBA order, four bytes each, row by row.
#[derive(Debug, Clone, PartialEq, Eq)]
pub struct IconImage {
    pub rgba: Vec<u8>,
    pub width: u32,
    pub height: u32,
}

/// Relies on image::load_from_memory, which guesses the format and decodes,
/// and on DynamicImage::into_rgba8 and ImageBuffer::into_raw: an RGBA buffer
/// holds at least four bytes for each of its width times height pixels.
#[verifier::external_body]
fn decode_rgba(bytes: &[u8]) -> (r: Result<IconImage, IconError>)
    ensures
        r is Ok ==> r->Ok_0.rgba@.len() >= 4 * (r->Ok_0.width as int) * (r->Ok_0.height as int),
{
    match image::load_from_memory(bytes) {
        Ok(decoded) => {
            let (width, height) = decoded.dimensions();
            Ok(IconImage { rgba: decoded.into_rgba8().into_raw(), width, height })
        },
        Err(_) => Err(IconError::Decode),
    }
}

/// Decodes an icon and keeps exactly four bytes per pixel, as the windowing
/// system requires.
pub fn load_icon(png: &[u8]) -> (r: Result<IconImage, IconError>)
    ensures
        r is Ok ==> r->Ok_0.rgba@.len() == 4 * (r->Ok_0.width as int) * (r->Ok_0.height as int),
{
    match decode_rgba(png) {
        Ok(decoded) => {
            let IconImage { mut rgba, width, height } = decoded;
            let available = rgba.len();
            let ghost len = rgba@.len();
            assert(4 * (width as int) * (height as int) == (width as int) * (height as int) * 4)
                by (nonlinear_arith);
            assert((width as int) * (height as int) <= len) by (nonlinear_arith)
                requires
                    len >= 4 * (width as int) * (height as int),
                    width >= 0,
                    height >= 0,
            ;
            assert(4 * ((width as int) * (height as int)) == 4 * (width as int) * (height as int))
                by (nonlinear_arith);
            let pixels = (width as usize) * (height as usize);
            let bytes = pixels * 4;
            if bytes < available {
                rgba.truncate(bytes);
            }
            Ok(IconImage { rgba, width, height })
        },
        Err(e) => Err(e),
    }
}

} // verus!
