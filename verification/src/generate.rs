//! The two commands: what each sends and what each prints.

use vstd::prelude::*;
use vstd::string::StringExecFns;
use crate::model::{endpoint, endpoint_text, ImageModel, TEXT_MODEL};
use crate::request::{
    image_body,
    lemma_image_request_json,
    lemma_text_request_json,
    text_body,
    ImageRequest,
    TextRequest,
};
use crate::response::{first_text, PartView, Response};

verus! {

/// The media type of every request body.
pub const CONTENT_TYPE: &'static str = "application/json";

/// One HTTP POST: where it goes and what it carries.
#[derive(Clone, Debug, PartialEq, Eq)]
pub struct ApiCall {
    /// The address, with the key in its query.
    pub url: String,
    /// The value of the `Content-Type` header.
    pub content_type: String,
    /// The body.
    pub body: String,
}

/// A call as a mathematical value.
pub struct ApiCallView {
    pub url: Seq<char>,
    pub content_type: Seq<char>,
    pub body: Seq<char>,
}

impl View for ApiCall {
    type V = ApiCallView;

    open spec fn view(&self) -> ApiCallView {
        ApiCallView { url: self.url@, content_type: self.content_type@, body: self.body@ }
    }
}

/// What the text command prints for a response: the text of the first part
/// of the first candidate and a line feed, or nothing where there is no such
/// text.
pub open spec fn text_shown(response: Seq<Seq<PartView>>) -> Seq<char> {
    match first_text(response) {
        Some(text) => text + seq!['\n'],
        None => Seq::empty(),
    }
}

/// What the image command prints once the image is written: a line with
/// the path and a line with the media type.
pub open spec fn image_shown(path: Seq<char>, mime_type: Seq<char>) -> Seq<char> {
    "Image saved to: "@ + path + seq!['\n'] + "Mime type: "@ + mime_type + seq!['\n']
}

/// Returns the call that asks the text model to answer `prompt`. The prompt
/// goes into the body as it is, an empty one too.
pub fn text_call(api_key: &str, prompt: &str) -> (call: ApiCall)
    ensures
        call@.url == endpoint_text(TEXT_MODEL@, api_key@),
        call@.content_type == CONTENT_TYPE@,
        call@.body == text_body(prompt@),
{
    let request = TextRequest::new(prompt);
    proof {
        lemma_text_request_json(prompt@);
    }
    ApiCall {
        url: endpoint(TEXT_MODEL, api_key),
        content_type: CONTENT_TYPE.to_string(),
        body: request.to_json(),
    }
}

/// Returns the call that asks `model` for an image that answers `prompt`.
/// The body is that of a text call with the request for text and image
/// output added.
pub fn image_call(api_key: &str, prompt: &str, model: &ImageModel) -> (call: ApiCall)
    ensures
        call@.url == endpoint_text(model.model_id(), api_key@),
        call@.content_type == CONTENT_TYPE@,
        call@.body == image_body(prompt@),
{
    let request = ImageRequest::new(prompt);
    proof {
        lemma_image_request_json(prompt@);
    }
    ApiCall {
        url: endpoint(model.api_name(), api_key),
        content_type: CONTENT_TYPE.to_string(),
        body: request.to_json(),
    }
}

/// Returns what the text command prints for a response.
pub fn text_output(response: &Response) -> (shown: String)
    ensures
        shown@ == text_shown(response@),
{
    match response.first_text() {
        Some(text) => {
            let mut shown = text.clone();
            shown.append("\n");
            proof {
                reveal_strlit("\n");
                assert(shown@ =~= text_shown(response@));
            }
            shown
        },
        None => String::new(),
    }
}

/// Returns what the image command prints once it has written the image to
/// `path`.
pub fn image_output(path: &str, mime_type: &str) -> (shown: String)
    ensures
        shown@ == image_shown(path@, mime_type@),
{
    let mut shown = "Image saved to: ".to_string();
    shown.append(path);
    shown.append("\n");
    shown.append("Mime type: ");
    shown.append(mime_type);
    shown.append("\n");
    proof {
        reveal_strlit("\n");
        assert(shown@ =~= image_shown(path@, mime_type@));
    }
    shown
}

} // verus!
