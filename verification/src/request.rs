//! The request bodies and their JSON text.

use vstd::prelude::*;
use vstd::string::StringExecFns;
use crate::json::{array, array_text, escaped, quote, separated, string_literal, texts};

verus! {

/// One fragment of a prompt.
#[derive(Clone, Debug, PartialEq, Eq)]
pub struct Part {
    pub text: String,
}

/// An ordered list of parts.
#[derive(Clone, Debug, PartialEq, Eq)]
pub struct Content {
    pub parts: Vec<Part>,
}

/// The body of a text request.
#[derive(Clone, Debug, PartialEq, Eq)]
pub struct TextRequest {
    pub contents: Vec<Content>,
}

/// The kinds of output that an image request asks for.
#[derive(Clone, Debug, PartialEq, Eq)]
pub struct ImageGenerationConfig {
    pub response_modalities: Vec<String>,
}

/// The body of an image request.
#[derive(Clone, Debug, PartialEq, Eq)]
pub struct ImageRequest {
    pub contents: Vec<Content>,
    pub generation_config: ImageGenerationConfig,
}

/// An image request as a mathematical value.
pub struct ImageRequestView {
    pub contents: Seq<Seq<Seq<char>>>,
    pub response_modalities: Seq<Seq<char>>,
}

/// A part is its text.
impl View for Part {
    type V = Seq<char>;

    open spec fn view(&self) -> Seq<char> {
        self.text@
    }
}

/// A content is the sequence of its parts.
impl View for Content {
    type V = Seq<Seq<char>>;

    open spec fn view(&self) -> Seq<Seq<char>> {
        self.parts@.map_values(|p: Part| p@)
    }
}

/// A text request is the sequence of its contents.
impl View for TextRequest {
    type V = Seq<Seq<Seq<char>>>;

    open spec fn view(&self) -> Seq<Seq<Seq<char>>> {
        content_views(self.contents@)
    }
}

/// A configuration is the sequence of its modalities.
impl View for ImageGenerationConfig {
    type V = Seq<Seq<char>>;

    open spec fn view(&self) -> Seq<Seq<char>> {
        texts(self.response_modalities@)
    }
}

impl View for ImageRequest {
    type V = ImageRequestView;

    open spec fn view(&self) -> ImageRequestView {
        ImageRequestView {
            contents: content_views(self.contents@),
            response_modalities: self.generation_config@,
        }
    }
}

/// The values of a list of contents.
pub open spec fn content_views(contents: Seq<Content>) -> Seq<Seq<Seq<char>>> {
    contents.map_values(|c: Content| c@)
}

/// The JSON object for a part: `{"text":` the literal `}`.
pub open spec fn part_text(text: Seq<char>) -> Seq<char> {
    "{\"text\":"@ + string_literal(text) + "}"@
}

/// The JSON object for a content: `{"parts":` the array of its parts `}`.
pub open spec fn content_text(parts: Seq<Seq<char>>) -> Seq<char> {
    "{\"parts\":"@ + array_text(parts.map_values(|t: Seq<char>| part_text(t))) + "}"@
}

/// The JSON array for a list of contents.
pub open spec fn contents_text(contents: Seq<Seq<Seq<char>>>) -> Seq<char> {
    array_text(contents.map_values(|c: Seq<Seq<char>>| content_text(c)))
}

/// The JSON object for a text request: `{"contents":` the array `}`.
pub open spec fn text_request_text(contents: Seq<Seq<Seq<char>>>) -> Seq<char> {
    "{\"contents\":"@ + contents_text(contents) + "}"@
}

/// The JSON object for a generation configuration:
/// `{"responseModalities":` the array of literals `}`.
pub open spec fn config_text(modalities: Seq<Seq<char>>) -> Seq<char> {
    "{\"responseModalities\":"@ + array_text(
        modalities.map_values(|m: Seq<char>| string_literal(m)),
    ) + "}"@
}

/// The JSON object for an image request: the contents, then the generation
/// configuration.
pub open spec fn image_request_text(request: ImageRequestView) -> Seq<char> {
    "{\"contents\":"@ + contents_text(request.contents) + ",\"generationConfig\":"@ + config_text(
        request.response_modalities,
    ) + "}"@
}

/// The image request for one prompt as a mathematical value.
pub open spec fn single_prompt_image_request(prompt: Seq<char>) -> ImageRequestView {
    ImageRequestView {
        contents: seq![seq![prompt]],
        response_modalities: seq!["TEXT"@, "IMAGE"@],
    }
}

/// The body that asks for text in answer to `prompt`.
pub open spec fn text_body(prompt: Seq<char>) -> Seq<char> {
    "{\"contents\":[{\"parts\":[{\"text\":"@ + string_literal(prompt) + "}]}]}"@
}

/// What the body of an image request has more than that of a text request.
pub open spec fn image_addition() -> Seq<char> {
    ",\"generationConfig\":{\"responseModalities\":[\"TEXT\",\"IMAGE\"]}"@
}

/// The body that asks for an image in answer to `prompt`.
pub open spec fn image_body(prompt: Seq<char>) -> Seq<char> {
    "{\"contents\":[{\"parts\":[{\"text\":"@ + string_literal(prompt) + "}]}]"@
        + image_addition() + "}"@
}

/// The JSON text of the request for one prompt is
/// `{"contents":[{"parts":[{"text":`, the string literal of the prompt, and
/// `}]}]}`, for every prompt.
pub proof fn lemma_text_request_json(prompt: Seq<char>)
    ensures
        text_request_text(seq![seq![prompt]]) == text_body(prompt),
{
    reveal_strlit("{\"text\":");
    reveal_strlit("}");
    reveal_strlit("{\"parts\":");
    reveal_strlit("{\"contents\":");
    reveal_strlit("{\"contents\":[{\"parts\":[{\"text\":");
    reveal_strlit("}]}]}");
    let parts = seq![prompt].map_values(|t: Seq<char>| part_text(t));
    assert(parts =~= seq![part_text(prompt)]);
    let contents = seq![seq![prompt]].map_values(|c: Seq<Seq<char>>| content_text(c));
    assert(contents =~= seq![content_text(seq![prompt])]);
    assert(text_request_text(seq![seq![prompt]]) =~= text_body(prompt));
}

/// The JSON array of the modalities `TEXT` and `IMAGE` is `["TEXT","IMAGE"]`.
proof fn lemma_text_and_image_array()
    ensures
        array_text(seq!["TEXT"@, "IMAGE"@].map_values(|m: Seq<char>| string_literal(m)))
            == "[\"TEXT\",\"IMAGE\"]"@,
{
    reveal_strlit("TEXT");
    reveal_strlit("IMAGE");
    reveal_strlit("[\"TEXT\",\"IMAGE\"]");
    reveal_with_fuel(escaped, 6);
    assert(string_literal("TEXT"@) =~= seq!['"', 'T', 'E', 'X', 'T', '"']);
    assert(string_literal("IMAGE"@) =~= seq!['"', 'I', 'M', 'A', 'G', 'E', '"']);
    let literals = seq!["TEXT"@, "IMAGE"@].map_values(|m: Seq<char>| string_literal(m));
    assert(literals =~= seq![string_literal("TEXT"@), string_literal("IMAGE"@)]);
    assert(literals.drop_last() =~= seq![string_literal("TEXT"@)]);
    assert(separated(literals.drop_last()) == string_literal("TEXT"@));
    assert(separated(literals) == string_literal("TEXT"@) + seq![','] + string_literal("IMAGE"@));
    assert(array_text(literals) =~= "[\"TEXT\",\"IMAGE\"]"@);
}

/// The JSON text of the image request for one prompt is that of the text
/// request with `,"generationConfig":{"responseModalities":["TEXT","IMAGE"]}`
/// added before the closing brace, for every prompt.
pub proof fn lemma_image_request_json(prompt: Seq<char>)
    ensures
        image_request_text(single_prompt_image_request(prompt)) == image_body(prompt),
        image_body(prompt) == text_body(prompt).drop_last() + image_addition() + "}"@,
{
    lemma_text_request_json(prompt);
    lemma_text_and_image_array();
    reveal_strlit("{\"contents\":");
    reveal_strlit("}");
    reveal_strlit(",\"generationConfig\":");
    reveal_strlit("{\"responseModalities\":");
    reveal_strlit("[\"TEXT\",\"IMAGE\"]");
    reveal_strlit("{\"contents\":[{\"parts\":[{\"text\":");
    reveal_strlit("}]}]}");
    reveal_strlit("}]}]");
    reveal_strlit(",\"generationConfig\":{\"responseModalities\":[\"TEXT\",\"IMAGE\"]}");
    let whole = text_request_text(seq![seq![prompt]]);
    assert(whole.drop_last() =~= "{\"contents\":"@ + contents_text(seq![seq![prompt]]));
    assert(image_request_text(single_prompt_image_request(prompt)) =~= whole.drop_last()
        + image_addition() + "}"@);
    assert(image_body(prompt) =~= text_body(prompt).drop_last() + image_addition() + "}"@);
}

/// Returns `open`, `inner` and `close` in one string.
fn enclose(open: &str, inner: &str, close: &str) -> (text: String)
    ensures
        text@ == open@ + inner@ + close@,
{
    let mut out = open.to_string();
    out.append(inner);
    out.append(close);
    out
}

/// Returns the JSON array for a list of contents.
fn contents_to_json(contents: &Vec<Content>) -> (json: String)
    ensures
        json@ == contents_text(content_views(contents@)),
{
    let mut rendered: Vec<String> = Vec::new();
    let mut i: usize = 0;
    while i < contents.len()
        invariant
            i <= contents.len(),
            rendered@.len() == i,
            forall|k: int| 0 <= k < i ==> (#[trigger] rendered@[k])@ == content_text(contents@[k]@),
        decreases contents.len() - i,
    {
        rendered.push(contents[i].to_json());
        i += 1;
    }
    proof {
        assert(texts(rendered@) =~= content_views(contents@).map_values(
            |c: Seq<Seq<char>>| content_text(c),
        ));
    }
    array(&rendered)
}

impl Part {
    /// Returns the part as JSON text.
    pub fn to_json(&self) -> (json: String)
        ensures
            json@ == part_text(self@),
    {
        let literal = quote(self.text.as_str());
        enclose("{\"text\":", literal.as_str(), "}")
    }
}

impl Content {
    /// Returns the content as JSON text.
    pub fn to_json(&self) -> (json: String)
        ensures
            json@ == content_text(self@),
    {
        let mut rendered: Vec<String> = Vec::new();
        let mut i: usize = 0;
        while i < self.parts.len()
            invariant
                i <= self.parts.len(),
                rendered@.len() == i,
                forall|k: int| 0 <= k < i ==> (#[trigger] rendered@[k])@ == part_text(self.parts@[k]@),
            decreases self.parts.len() - i,
        {
            rendered.push(self.parts[i].to_json());
            i += 1;
        }
        proof {
            assert(texts(rendered@) =~= self@.map_values(|t: Seq<char>| part_text(t)));
        }
        let parts = array(&rendered);
        enclose("{\"parts\":", parts.as_str(), "}")
    }
}

impl TextRequest {
    /// Returns the request for a single prompt: one content with one part.
    pub fn new(prompt: &str) -> (request: TextRequest)
        ensures
            request@ == seq![seq![prompt@]],
    {
        let mut parts: Vec<Part> = Vec::new();
        parts.push(Part { text: prompt.to_string() });
        let mut contents: Vec<Content> = Vec::new();
        contents.push(Content { parts });
        let request = TextRequest { contents };
        proof {
            assert(request.contents@[0]@ =~= seq![prompt@]);
            assert(request@ =~= seq![seq![prompt@]]);
        }
        request
    }

    /// Returns the request as JSON text.
    pub fn to_json(&self) -> (json: String)
        ensures
            json@ == text_request_text(self@),
    {
        let contents = contents_to_json(&self.contents);
        enclose("{\"contents\":", contents.as_str(), "}")
    }
}

impl ImageGenerationConfig {
    /// Returns the configuration that asks for text and image output.
    pub fn text_and_image() -> (config: ImageGenerationConfig)
        ensures
            config@ == seq!["TEXT"@, "IMAGE"@],
    {
        let mut response_modalities: Vec<String> = Vec::new();
        response_modalities.push("TEXT".to_string());
        response_modalities.push("IMAGE".to_string());
        let config = ImageGenerationConfig { response_modalities };
        proof {
            assert(config@ =~= seq!["TEXT"@, "IMAGE"@]);
        }
        config
    }

    /// Returns the configuration as JSON text.
    pub fn to_json(&self) -> (json: String)
        ensures
            json@ == config_text(self@),
    {
        let mut rendered: Vec<String> = Vec::new();
        let mut i: usize = 0;
        while i < self.response_modalities.len()
            invariant
                i <= self.response_modalities.len(),
                rendered@.len() == i,
                forall|k: int|
                    0 <= k < i ==> (#[trigger] rendered@[k])@ == string_literal(
                        self.response_modalities@[k]@,
                    ),
            decreases self.response_modalities.len() - i,
        {
            rendered.push(quote(self.response_modalities[i].as_str()));
            i += 1;
        }
        proof {
            assert(texts(rendered@) =~= self@.map_values(|m: Seq<char>| string_literal(m)));
        }
        let modalities = array(&rendered);
        enclose("{\"responseModalities\":", modalities.as_str(), "}")
    }
}

impl ImageRequest {
    /// Returns the request for a single prompt: one content with one part,
    /// and a configuration that asks for text and image output.
    pub fn new(prompt: &str) -> (request: ImageRequest)
        ensures
            request@.contents == seq![seq![prompt@]],
            request@.response_modalities == seq!["TEXT"@, "IMAGE"@],
    {
        let text = TextRequest::new(prompt);
        ImageRequest { contents: text.contents, generation_config: ImageGenerationConfig::text_and_image() }
    }

    /// Returns the request as JSON text.
    pub fn to_json(&self) -> (json: String)
        ensures
            json@ == image_request_text(self@),
    {
        let contents = contents_to_json(&self.contents);
        let config = self.generation_config.to_json();
        let mut out = enclose("{\"contents\":", contents.as_str(), ",\"generationConfig\":");
        out.append(config.as_str());
        out.append("}");
        out
    }
}

} // verus!
