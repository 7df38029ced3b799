//! From a response to the bytes of an image.

use base64::prelude::{Engine, BASE64_STANDARD};
use vstd::prelude::*;
use crate::response::{
    first_inline_data,
    has_inline_data,
    lemma_nothing_carried,
    lemma_yields_iff_carried,
    InlineData,
    InlineDataView,
    PartView,
    Response,
};

verus! {

/// The error type of `base64`'s decoders, carried as an opaque value.
#[verifier::external_type_specification]
#[verifier::external_body]
pub struct ExDecodeError(base64::DecodeError);

/// The bytes that `text` stands for in base64 with the standard alphabet
/// and canonical padding, or `None` where `text` is no such encoding.
pub uninterp spec fn base64_standard(text: Seq<char>) -> Option<Seq<u8>>;

/// Calls `Engine::decode` of `base64` on its standard engine.
///
/// Trusted: whether the call succeeds, and with which bytes, depends on the
/// characters of `text` alone; `base64_standard` names that outcome.
#[verifier::external_body]
fn decode_standard(text: &str) -> (decoded: Result<Vec<u8>, base64::DecodeError>)
    ensures
        decoded matches Ok(bytes) ==> base64_standard(text@) == Some(bytes@),
        decoded is Err ==> base64_standard(text@) is None,
{
    BASE64_STANDARD.decode(text)
}

/// An image taken from a response.
#[derive(Clone, Debug, PartialEq, Eq)]
pub struct DecodedImage {
    /// The bytes to write to the output file.
    pub bytes: Vec<u8>,
    /// The media type that the response reports for them.
    pub mime_type: String,
}

/// Why a response gave no image.
#[derive(Debug, PartialEq, Eq)]
pub enum ImageError {
    /// No part of any candidate carries inline data.
    NoImageData,
    /// The inline data is not valid base64.
    Decode(base64::DecodeError),
}

impl ImageError {
    /// Returns the text that reports the error: a fixed sentence where the
    /// response held no image data, and what the decoder says of its error
    /// where the data did not decode.
    pub fn message(&self) -> (text: String)
        ensures
            match *self {
                ImageError::NoImageData => text@ == "No image data in response"@,
                ImageError::Decode(e) => vstd::string::to_string_from_display_ensures::<
                    base64::DecodeError,
                >(&e, text),
            },
    {
        match self {
            ImageError::NoImageData => "No image data in response".to_string(),
            ImageError::Decode(e) => e.to_string(),
        }
    }
}

/// Returns the image for decoded inline data, or the error for data that
/// did not decode.
pub fn image_from_decoded(
    mime_type: &str,
    decoded: Result<Vec<u8>, base64::DecodeError>,
) -> (image: Result<DecodedImage, ImageError>)
    ensures
        match decoded {
            Ok(bytes) => image matches Ok(img) && img.bytes@ == bytes@ && img.mime_type@
                == mime_type@,
            Err(e) => image == Err::<DecodedImage, ImageError>(ImageError::Decode(e)),
        },
{
    match decoded {
        Ok(bytes) => Ok(DecodedImage { bytes, mime_type: mime_type.to_string() }),
        Err(e) => Err(ImageError::Decode(e)),
    }
}

/// What a response gives to the image command.
pub enum ImageView {
    /// The bytes of an image and their media type.
    Image { bytes: Seq<u8>, mime_type: Seq<char> },
    /// Nothing: no part of any candidate carries inline data.
    NoImageData,
    /// Nothing: the inline data is not valid base64.
    Undecodable,
}

/// What inline data gives: the bytes that its text stands for, with the
/// media type beside them.
pub open spec fn image_in(data: InlineDataView) -> ImageView {
    match base64_standard(data.data) {
        Some(bytes) => ImageView::Image { bytes, mime_type: data.mime_type },
        None => ImageView::Undecodable,
    }
}

/// What a response gives: the image in the first part that carries inline
/// data.
pub open spec fn image_of(response: Seq<Seq<PartView>>) -> ImageView {
    match first_inline_data(response) {
        Some(data) => image_in(data),
        None => ImageView::NoImageData,
    }
}

/// What a result of this module stands for.
pub open spec fn result_view(image: Result<DecodedImage, ImageError>) -> ImageView {
    match image {
        Ok(img) => ImageView::Image { bytes: img.bytes@, mime_type: img.mime_type@ },
        Err(ImageError::NoImageData) => ImageView::NoImageData,
        Err(ImageError::Decode(_)) => ImageView::Undecodable,
    }
}

/// A response without candidates gives no image data, and so does one none
/// of whose parts carries inline data.
pub proof fn lemma_no_image_data(response: Seq<Seq<PartView>>)
    requires
        response.len() == 0 || forall|c: int, p: int|
            0 <= c < response.len() && 0 <= p < response[c].len() ==> (
            #[trigger] response[c][p]).inline_data is None,
    ensures
        image_of(response) == ImageView::NoImageData,
{
    lemma_nothing_carried(response);
}

/// A response gives no image data only where none of its parts carries
/// inline data.
pub proof fn lemma_no_image_data_only_without(response: Seq<Seq<PartView>>)
    ensures
        image_of(response) == ImageView::NoImageData <==> !has_inline_data(response),
{
    lemma_yields_iff_carried(response);
}

/// Returns the image that inline data holds.
pub fn decode_inline_data(data: &InlineData) -> (image: Result<DecodedImage, ImageError>)
    ensures
        result_view(image) == image_in(data@),
{
    image_from_decoded(data.mime_type.as_str(), decode_standard(data.data.as_str()))
}

/// Returns the image of a response: the decoded inline data of the first
/// part that carries any. Parts and candidates after it are not looked at,
/// and a response without inline data gives `NoImageData`.
pub fn image_reply(response: &Response) -> (image: Result<DecodedImage, ImageError>)
    ensures
        result_view(image) == image_of(response@),
{
    match response.first_inline_data() {
        Some(data) => decode_inline_data(data),
        None => Err(ImageError::NoImageData),
    }
}

} // verus!
