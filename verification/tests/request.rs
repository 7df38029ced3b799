use nano_banana::json::{array, quote};
use nano_banana::request::{Content, ImageGenerationConfig, ImageRequest, Part, TextRequest};

fn one_part(text: &str) -> Vec<Content> {
    vec![Content {
        parts: vec![Part {
            text: text.to_string(),
        }],
    }]
}

#[test]
fn test_text_request_serialization() {
    let request = TextRequest {
        contents: vec![Content {
            parts: vec![Part {
                text: "Hello".to_string(),
            }],
        }],
    };

    let json = request.to_json();
    assert!(json.contains("Hello"));
    assert!(json.contains("contents"));
    assert!(json.contains("parts"));
    assert!(json.contains("text"));
}

#[test]
fn test_image_request_serialization() {
    let request = ImageRequest {
        contents: vec![Content {
            parts: vec![Part {
                text: "A cat".to_string(),
            }],
        }],
        generation_config: ImageGenerationConfig {
            response_modalities: vec!["TEXT".to_string(), "IMAGE".to_string()],
        },
    };

    let json = request.to_json();
    assert!(json.contains("A cat"));
    assert!(json.contains("generationConfig"));
    assert!(json.contains("responseModalities"));
    assert!(json.contains("IMAGE"));
}

#[test]
fn text_request_is_exact() {
    assert_eq!(
        TextRequest::new("Hello").to_json(),
        r#"{"contents":[{"parts":[{"text":"Hello"}]}]}"#
    );
}

#[test]
fn image_request_is_exact() {
    assert_eq!(
        ImageRequest::new("A cat").to_json(),
        r#"{"contents":[{"parts":[{"text":"A cat"}]}],"generationConfig":{"responseModalities":["TEXT","IMAGE"]}}"#
    );
}

#[test]
fn image_request_is_text_request_with_configuration() {
    for prompt in ["", "A cat", "say \"hi\"\n", "日本語 🍌"] {
        let text = TextRequest::new(prompt).to_json();
        let image = ImageRequest::new(prompt).to_json();
        let mut expected = text[..text.len() - 1].to_string();
        expected.push_str(r#","generationConfig":{"responseModalities":["TEXT","IMAGE"]}}"#);
        assert_eq!(image, expected);
    }
}

#[test]
fn new_requests_hold_one_content_with_one_part() {
    let text = TextRequest::new("Hello");
    assert_eq!(text.contents, one_part("Hello"));

    let image = ImageRequest::new("A cat");
    assert_eq!(image.contents, one_part("A cat"));
    assert_eq!(
        image.generation_config.response_modalities,
        vec!["TEXT".to_string(), "IMAGE".to_string()]
    );
    assert_eq!(
        ImageGenerationConfig::text_and_image(),
        image.generation_config
    );
}

#[test]
fn empty_prompt_is_passed_through() {
    assert_eq!(
        TextRequest::new("").to_json(),
        r#"{"contents":[{"parts":[{"text":""}]}]}"#
    );
    assert_eq!(TextRequest::new("").contents, one_part(""));
}

#[test]
fn quote_escapes_what_json_requires() {
    assert_eq!(quote(""), r#""""#);
    assert_eq!(quote("Hello"), r#""Hello""#);
    assert_eq!(quote("say \"hi\""), r#""say \"hi\"""#);
    assert_eq!(quote("a\\b"), r#""a\\b""#);
    assert_eq!(quote("\u{8}\t\n\u{c}\r"), r#""\b\t\n\f\r""#);
    assert_eq!(quote("\u{0}\u{1}\u{b}\u{1f}"), r#""\u0000\u0001\u000b\u001f""#);
    assert_eq!(quote("/"), r#""/""#);
    assert_eq!(quote(" \u{7f}"), "\" \u{7f}\"");
    assert_eq!(quote("é日本🍌\u{2028}"), "\"é日本🍌\u{2028}\"");
}

#[test]
fn quote_escapes_each_character_below_the_space() {
    for code in 0u32..0x20 {
        let c = char::from_u32(code).unwrap();
        let expected = match c {
            '\u{8}' => "\"\\b\"".to_string(),
            '\t' => "\"\\t\"".to_string(),
            '\n' => "\"\\n\"".to_string(),
            '\u{c}' => "\"\\f\"".to_string(),
            '\r' => "\"\\r\"".to_string(),
            _ => format!("\"\\u00{:02x}\"", code),
        };
        assert_eq!(quote(&c.to_string()), expected);
    }
}

#[test]
fn quote_leaves_every_other_character_alone() {
    for code in 0x20u32..0x3000 {
        let c = char::from_u32(code).unwrap();
        if c == '"' || c == '\\' {
            continue;
        }
        assert_eq!(quote(&c.to_string()), format!("\"{}\"", c));
    }
    for c in ['\u{d7ff}', '\u{e000}', '\u{fffd}', '\u{10000}', '\u{10ffff}'] {
        assert_eq!(quote(&c.to_string()), format!("\"{}\"", c));
    }
}

#[test]
fn quoted_text_reads_back_as_the_text() {
    let mut all = String::new();
    for code in 0u32..0x100 {
        all.push(char::from_u32(code).unwrap());
    }
    for text in ["", "Hello", "a\"b\\c/d", "line\nbreak\ttab", "日本語 🍌", all.as_str()] {
        let back: String = serde_json::from_str(&quote(text)).unwrap();
        assert_eq!(back, text);
    }
}

#[test]
fn array_puts_commas_between_its_items() {
    assert_eq!(array(&vec![]), "[]");
    assert_eq!(array(&vec!["1".to_string()]), "[1]");
    assert_eq!(
        array(&vec!["1".to_string(), "\"a\"".to_string(), "{}".to_string()]),
        r#"[1,"a",{}]"#
    );
    assert_eq!(array(&vec!["".to_string(), "".to_string()]), "[,]");
}

#[test]
fn parts_and_contents_are_written_in_order() {
    let part = Part {
        text: "a".to_string(),
    };
    assert_eq!(part.to_json(), r#"{"text":"a"}"#);

    let content = Content {
        parts: vec![
            Part {
                text: "a".to_string(),
            },
            Part {
                text: "b".to_string(),
            },
        ],
    };
    assert_eq!(content.to_json(), r#"{"parts":[{"text":"a"},{"text":"b"}]}"#);

    let request = TextRequest {
        contents: vec![content.clone(), Content { parts: vec![] }, content],
    };
    assert_eq!(
        request.to_json(),
        r#"{"contents":[{"parts":[{"text":"a"},{"text":"b"}]},{"parts":[]},{"parts":[{"text":"a"},{"text":"b"}]}]}"#
    );
}

#[test]
fn requests_without_contents() {
    assert_eq!(TextRequest { contents: vec![] }.to_json(), r#"{"contents":[]}"#);
    let image = ImageRequest {
        contents: vec![],
        generation_config: ImageGenerationConfig {
            response_modalities: vec![],
        },
    };
    assert_eq!(
        image.to_json(),
        r#"{"contents":[],"generationConfig":{"responseModalities":[]}}"#
    );
}

#[test]
fn configuration_quotes_its_modalities() {
    let config = ImageGenerationConfig {
        response_modalities: vec!["A\"B".to_string()],
    };
    assert_eq!(config.to_json(), r#"{"responseModalities":["A\"B"]}"#);
    assert_eq!(
        ImageGenerationConfig::text_and_image().to_json(),
        r#"{"responseModalities":["TEXT","IMAGE"]}"#
    );
}

#[test]
fn request_text_is_json_with_the_prompt_in_place() {
    for prompt in ["Hello", "", "say \"hi\"\\\n", "\u{1}\u{1f}", "日本語 🍌"] {
        let text: serde_json::Value =
            serde_json::from_str(&TextRequest::new(prompt).to_json()).unwrap();
        assert_eq!(
            text.get("contents")
                .and_then(|c| c.get(0))
                .and_then(|c| c.get("parts"))
                .and_then(|p| p.get(0))
                .and_then(|p| p.get("text"))
                .and_then(|t| t.as_str()),
            Some(prompt)
        );
        assert_eq!(text.as_object().unwrap().len(), 1);

        let image: serde_json::Value =
            serde_json::from_str(&ImageRequest::new(prompt).to_json()).unwrap();
        assert_eq!(image.get("contents"), text.get("contents"));
        let modalities = image
            .get("generationConfig")
            .and_then(|c| c.get("responseModalities"))
            .and_then(|m| m.as_array())
            .unwrap();
        assert_eq!(modalities.len(), 2);
        assert_eq!(modalities[0].as_str(), Some("TEXT"));
        assert_eq!(modalities[1].as_str(), Some("IMAGE"));
    }
}

#[test]
fn request_text_is_what_serde_json_writes_for_the_same_value() {
    for prompt in ["Hello", "", "a\"b\\c\u{7}\n", "日本語"] {
        let mut part = serde_json::Map::new();
        part.insert("text".to_string(), serde_json::Value::String(prompt.to_string()));
        let mut content = serde_json::Map::new();
        content.insert(
            "parts".to_string(),
            serde_json::Value::Array(vec![serde_json::Value::Object(part)]),
        );
        let mut request = serde_json::Map::new();
        request.insert(
            "contents".to_string(),
            serde_json::Value::Array(vec![serde_json::Value::Object(content)]),
        );
        assert_eq!(
            TextRequest::new(prompt).to_json(),
            serde_json::to_string(&serde_json::Value::Object(request.clone())).unwrap()
        );

        let mut config = serde_json::Map::new();
        config.insert(
            "responseModalities".to_string(),
            serde_json::Value::Array(vec![
                serde_json::Value::String("TEXT".to_string()),
                serde_json::Value::String("IMAGE".to_string()),
            ]),
        );
        request.insert("generationConfig".to_string(), serde_json::Value::Object(config));
        assert_eq!(
            ImageRequest::new(prompt).to_json(),
            serde_json::to_string(&serde_json::Value::Object(request)).unwrap()
        );
    }
}
