//! Model identifiers and the endpoint addresses built from them.

use vstd::prelude::*;
use vstd::string::StringExecFns;

verus! {

/// The model that answers text prompts.
pub const TEXT_MODEL: &'static str = "gemini-2.0-flash";

/// The image models that can be selected.
#[derive(Clone, Copy, Debug, PartialEq, Eq)]
pub enum ImageModel {
    /// The newer model, selected when no choice is made.
    NanoBanana2,
    /// The legacy model.
    NanoBanana1,
}

impl ImageModel {
    /// The identifier under which the API knows the model.
    pub open spec fn model_id(self) -> Seq<char> {
        match self {
            ImageModel::NanoBanana2 => "gemini-3.1-flash-image"@,
            ImageModel::NanoBanana1 => "gemini-2.0-flash-exp-image-generation"@,
        }
    }

    /// The two models have identifiers that are not empty and differ from
    /// one another.
    pub proof fn lemma_model_ids()
        ensures
            ImageModel::NanoBanana2.model_id().len() > 0,
            ImageModel::NanoBanana1.model_id().len() > 0,
            ImageModel::NanoBanana2.model_id() != ImageModel::NanoBanana1.model_id(),
    {
        reveal_strlit("gemini-3.1-flash-image");
        reveal_strlit("gemini-2.0-flash-exp-image-generation");
    }

    /// Returns the identifier to put into the endpoint address.
    pub fn api_name(&self) -> (name: &'static str)
        ensures
            name@ == self.model_id(),
            name@.len() > 0,
    {
        proof {
            Self::lemma_model_ids();
        }
        match self {
            ImageModel::NanoBanana2 => "gemini-3.1-flash-image",
            ImageModel::NanoBanana1 => "gemini-2.0-flash-exp-image-generation",
        }
    }
}

/// The address that answers requests to `model` for the holder of
/// `api_key`.
pub open spec fn endpoint_text(model: Seq<char>, api_key: Seq<char>) -> Seq<char> {
    "https://generativelanguage.googleapis.com/v1beta/models/"@ + model + ":generateContent?key="@
        + api_key
}

/// Returns the address to which a request to `model` is posted. Neither the
/// model identifier nor the key is changed on the way.
pub fn endpoint(model: &str, api_key: &str) -> (url: String)
    ensures
        url@ == endpoint_text(model@, api_key@),
{
    let mut url = "https://generativelanguage.googleapis.com/v1beta/models/".to_string();
    url.append(model);
    url.append(":generateContent?key=");
    url.append(api_key);
    url
}

impl Default for ImageModel {
    /// The newer model is the default.
    fn default() -> (model: ImageModel)
        ensures
            model == ImageModel::NanoBanana2,
    {
        ImageModel::NanoBanana2
    }
}

} // verus!
