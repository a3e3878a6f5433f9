//! Decoding images held in memory.

use vstd::prelude::*;

verus! {

/// Why an image could not be loaded.
#[derive(Debug, PartialEq, Eq)]
pub enum ImageError {
    /// The file could not be read.
    IoError,
    /// The bytes are not an image the decoder accepts; the text is the
    /// decoder's own description of what is wrong.
    Decoding(String),
}

/// The error type of the `png` crate's decoder.
#[verifier::external_type_specification]
#[verifier::external_body]
pub struct ExDecodingError(png::DecodingError);

/// The number of bytes that the first frame of the PNG image in `bytes`
/// takes once decoded, as the `png` crate works it out from the image's
/// header with its default transformations and limits; `None` if it does not
/// accept the header.
pub uninterp spec fn png_frame_size(bytes: Seq<u8>) -> Option<nat>;

/// The pixels of the first frame of the PNG image in `bytes`, as the `png`
/// crate decodes them with its default transformations and limits into a
/// buffer of the size it asked for; `None` if it does not accept `bytes`.
pub uninterp spec fn png_first_frame(bytes: Seq<u8>) -> Option<Seq<u8>>;

/// `png::Decoder::new` and `Decoder::read_info`, then
/// `OutputInfo::buffer_size`: reads the header of the image in `bytes` and
/// says how large a buffer its first frame needs. The contract only gives
/// the result its name; the decoder reads nothing but `bytes`.
#[verifier::external_body]
fn frame_size(bytes: &Vec<u8>) -> (r: Result<usize, png::DecodingError>)
    ensures
        r matches Ok(size) ==> png_frame_size(bytes@) == Some(size as nat),
        r is Err ==> png_frame_size(bytes@) is None,
{
    let (info, _reader) = png::Decoder::new(bytes.as_slice()).read_info()?;
    Ok(info.buffer_size())
}

/// `png::Decoder::new` and `Decoder::read_info`, then `Reader::next_frame`:
/// decodes the first frame of the image in `bytes` into `buff`, which is
/// zeroed and of the size the decoder asked for. The contract only gives
/// the pixels their name and says that the buffer keeps its length.
#[verifier::external_body]
fn read_frame(bytes: &Vec<u8>, buff: &mut Vec<u8>) -> (r: Result<(), png::DecodingError>)
    requires
        png_frame_size(bytes@) == Some(old(buff)@.len()),
        forall|i: int| 0 <= i < old(buff)@.len() ==> old(buff)@[i] == 0u8,
    ensures
        final(buff)@.len() == old(buff)@.len(),
        r is Ok ==> png_first_frame(bytes@) == Some(final(buff)@),
        r is Err ==> png_first_frame(bytes@) is None,
{
    let (_info, mut reader) = png::Decoder::new(bytes.as_slice()).read_info()?;
    reader.next_frame(buff.as_mut_slice())
}

/// `<png::DecodingError as ToString>::to_string`: the decoder's description
/// of an error. Nothing is claimed of the text.
#[verifier::external_body]
fn decoding_error_text(error: &png::DecodingError) -> (text: String) {
    error.to_string()
}

/// A zeroed buffer of `size` bytes, for a frame to be decoded into.
pub fn frame_buffer(size: usize) -> (buff: Vec<u8>)
    ensures
        buff@.len() == size,
        forall|i: int| 0 <= i < size ==> buff@[i] == 0u8,
{
    vec![0u8; size]
}

/// The two ways in which loading an image fails.
pub enum ImageFailure {
    /// The file could not be read.
    Unreadable,
    /// The decoder did not accept the bytes.
    Undecodable,
}

/// What loading the image file with contents `read` gives, `None` standing
/// for a file that could not be read: the pixels of its first frame, or the
/// way in which it failed.
pub open spec fn loaded_image(read: Option<Seq<u8>>) -> Result<Seq<u8>, ImageFailure> {
    match read {
        None => Err(ImageFailure::Unreadable),
        Some(bytes) => if png_frame_size(bytes) is Some && png_first_frame(bytes) is Some {
            Ok(png_first_frame(bytes)->Some_0)
        } else {
            Err(ImageFailure::Undecodable)
        },
    }
}

/// The view of a loading result: the pixels, or the way in which it failed.
/// The text of a decoding error is the decoder's to choose.
pub open spec fn image_view(r: Result<Vec<u8>, ImageError>) -> Result<Seq<u8>, ImageFailure> {
    match r {
        Ok(buff) => Ok(buff@),
        Err(ImageError::IoError) => Err(ImageFailure::Unreadable),
        Err(ImageError::Decoding(_)) => Err(ImageFailure::Undecodable),
    }
}

/// Decodes the image file whose contents are `read`, `None` standing for a
/// file that could not be read, and returns the pixels of its first frame.
/// The pixels fill a buffer of exactly the size the decoder asks for.
pub fn load_image_rgba(read: Option<Vec<u8>>) -> (r: Result<Vec<u8>, ImageError>)
    ensures
        image_view(r) == loaded_image(
            match read {
                Some(bytes) => Some(bytes@),
                None => None,
            },
        ),
        r matches Ok(buff) ==> png_frame_size(read->Some_0@) == Some(buff@.len()),
{
    match read {
        None => Err(ImageError::IoError),
        Some(bytes) => {
            let size = match frame_size(&bytes) {
                Ok(size) => size,
                Err(error) => {
                    return Err(ImageError::Decoding(decoding_error_text(&error)));
                },
            };
            let mut buff = frame_buffer(size);
            match read_frame(&bytes, &mut buff) {
                Ok(()) => Ok(buff),
                Err(error) => Err(ImageError::Decoding(decoding_error_text(&error))),
            }
        },
    }
}

} // verus!
