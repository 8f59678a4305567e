//! Serialising a canvas: PNG bytes, chosen by the output path's extension.

use vstd::prelude::*;
use crate::canvas::{buffer_png, png_encoding, Canvas};

verus! {

/// Why a canvas could not be serialised.
#[derive(Debug)]
pub enum RenderError {
    /// The output path's extension names no image format.
    UnknownFormat(image::ImageError),
    /// The output path's extension names a format other than PNG.
    NotPng,
    /// The encoder refused the image.
    Encoding(image::ImageError),
}

/// What `encode_chosen` returns for a canvas whose PNG encoding is `png`
/// when the path's format was found to be `choice`.
pub open spec fn chosen_encoding(
    png: Option<Seq<u8>>,
    choice: Result<bool, image::ImageError>,
    out: Result<Vec<u8>, RenderError>,
) -> bool {
    match choice {
        Err(e) => out == Err::<Vec<u8>, RenderError>(RenderError::UnknownFormat(e)),
        Ok(false) => out == Err::<Vec<u8>, RenderError>(RenderError::NotPng),
        Ok(true) => match out {
            Ok(bytes) => png == Some(bytes@),
            Err(e) => png is None && e is Encoding,
        },
    }
}

/// The choice of format that stands for PNG.
pub open spec fn png_chosen() -> Result<bool, image::ImageError> {
    Ok(true)
}

/// Whether `path` is a bare file name that ends in `.png`: more than the
/// extension alone, in lower case, and free of the characters that part a
/// path into components on any platform.
pub open spec fn is_png_file_name(path: Seq<char>) -> bool {
    &&& path.len() > 4
    &&& path.subrange(path.len() - 4, path.len() as int) == seq!['.', 'p', 'n', 'g']
    &&& forall|i: int|
        0 <= i < path.len() ==> #[trigger] path[i] != '/' && path[i] != '\\' && path[i] != ':'
}

/// Calls `image::ImageFormat::from_path`, which looks the extension of the
/// path's last component up in the crate's table of formats, and tells `Png`
/// from the other formats. How a path splits into components is the
/// platform's matter, so the answer is claimed for bare file names only: one
/// that ends in `.png` has the extension `png`, which the table maps to
/// `Png`.
#[verifier::external_body]
fn path_names_png(path: &str) -> (choice: Result<bool, image::ImageError>)
    ensures
        is_png_file_name(path@) ==> choice == png_chosen(),
{
    match image::ImageFormat::from_path(path) {
        Ok(image::ImageFormat::Png) => Ok(true),
        Ok(_) => Ok(false),
        Err(e) => Err(e),
    }
}

/// The canvas as a PNG byte stream of 8-bit RGB pixels.
pub fn encode_png(canvas: &Canvas) -> (out: Result<Vec<u8>, RenderError>)
    ensures
        match out {
            Ok(bytes) => png_encoding(canvas@) == Some(bytes@),
            Err(e) => png_encoding(canvas@) is None && e is Encoding,
        },
        canvas@.width == 0 || canvas@.height == 0 ==> out is Err,
{
    match buffer_png(canvas) {
        Ok(bytes) => Ok(bytes),
        Err(e) => Err(RenderError::Encoding(e)),
    }
}

/// Serialises the canvas once the format its output path names is known:
/// PNG is encoded, any other format and an unknown one are errors, and the
/// canvas is not encoded for them.
pub fn encode_chosen(
    canvas: &Canvas,
    choice: Result<bool, image::ImageError>,
) -> (out: Result<Vec<u8>, RenderError>)
    ensures
        chosen_encoding(png_encoding(canvas@), choice, out),
{
    match choice {
        Err(e) => Err(RenderError::UnknownFormat(e)),
        Ok(false) => Err(RenderError::NotPng),
        Ok(true) => encode_png(canvas),
    }
}

/// Serialises the canvas in the format that the extension of `path` names.
/// Nothing is written to `path`: the bytes are returned. For a bare file
/// name that ends in `.png` the result is that of `encode_png`.
pub fn encode_for_path(canvas: &Canvas, path: &str) -> (out: Result<Vec<u8>, RenderError>)
    ensures
        out matches Ok(bytes) ==> png_encoding(canvas@) == Some(bytes@),
        out matches Err(e) ==> (e is Encoding ==> png_encoding(canvas@) is None),
        is_png_file_name(path@) ==> chosen_encoding(png_encoding(canvas@), png_chosen(), out),
{
    let choice = path_names_png(path);
    encode_chosen(canvas, choice)
}

} // verus!
