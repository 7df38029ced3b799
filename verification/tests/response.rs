use nano_banana::generate::text_output;
use nano_banana::parse::DeserializationError;
use nano_banana::response::{Candidate, CandidateContent, InlineData, Response, ResponsePart};

fn text_part(text: &str) -> ResponsePart {
    ResponsePart {
        text: Some(text.to_string()),
        inline_data: None,
    }
}

fn data_part(mime_type: &str, data: &str) -> ResponsePart {
    ResponsePart {
        text: None,
        inline_data: Some(InlineData {
            mime_type: mime_type.to_string(),
            data: data.to_string(),
        }),
    }
}

fn bare_part() -> ResponsePart {
    ResponsePart {
        text: None,
        inline_data: None,
    }
}

fn response(candidates: Vec<Vec<ResponsePart>>) -> Response {
    Response {
        candidates: candidates
            .into_iter()
            .map(|parts| Candidate {
                content: CandidateContent { parts },
            })
            .collect(),
    }
}

#[test]
fn test_text_response_deserialization() {
    let json = r#"{
            "candidates": [{
                "content": {
                    "parts": [{"text": "Hello back!"}]
                }
            }]
        }"#;

    let response: Response = Response::from_json(json).unwrap();
    assert_eq!(response.candidates.len(), 1);
    assert_eq!(
        response.candidates[0].content.parts[0].text,
        Some("Hello back!".to_string())
    );
}

#[test]
fn test_image_response_deserialization() {
    let json = r#"{
            "candidates": [{
                "content": {
                    "parts": [{
                        "inlineData": {
                            "mimeType": "image/png",
                            "data": "iVBORw0KGgo="
                        }
                    }]
                }
            }]
        }"#;

    let response: Response = Response::from_json(json).unwrap();
    assert_eq!(response.candidates.len(), 1);
    let inline_data = response.candidates[0].content.parts[0]
        .inline_data
        .as_ref()
        .unwrap();
    assert_eq!(inline_data.mime_type, "image/png");
    assert_eq!(inline_data.data, "iVBORw0KGgo=");
}

#[test]
fn compact_text_response() {
    let response =
        Response::from_json(r#"{"candidates":[{"content":{"parts":[{"text":"Hello back!"}]}}]}"#)
            .unwrap();
    assert_eq!(response, self::response(vec![vec![text_part("Hello back!")]]));
    assert_eq!(response.first_text(), Some(&"Hello back!".to_string()));
}

#[test]
fn a_part_may_hold_both_fields_or_neither() {
    let parsed = Response::from_json(
        r#"{"candidates":[{"content":{"parts":[
            {},
            {"text":"t","inlineData":{"mimeType":"image/png","data":"AA=="}},
            {"text":null,"inlineData":null}
        ]}}]}"#,
    )
    .unwrap();
    let both = ResponsePart {
        text: Some("t".to_string()),
        inline_data: Some(InlineData {
            mime_type: "image/png".to_string(),
            data: "AA==".to_string(),
        }),
    };
    assert_eq!(parsed, response(vec![vec![bare_part(), both, bare_part()]]));
}

#[test]
fn members_that_are_not_named_are_passed_over() {
    let parsed = Response::from_json(
        r#"{"usageMetadata":{"total":3},"candidates":[
            {"finishReason":"STOP","content":{"role":"model","parts":[{"text":"a","thought":true}]}},
            {"content":{"parts":[]},"index":1}
        ],"modelVersion":"x"}"#,
    )
    .unwrap();
    assert_eq!(parsed, response(vec![vec![text_part("a")], vec![]]));
}

#[test]
fn candidates_and_parts_keep_their_order() {
    let parsed = Response::from_json(
        r#"{"candidates":[
            {"content":{"parts":[{"text":"a"},{"text":"b"}]}},
            {"content":{"parts":[{"inlineData":{"mimeType":"m","data":"d"}},{"text":"c"}]}}
        ]}"#,
    )
    .unwrap();
    assert_eq!(
        parsed,
        response(vec![
            vec![text_part("a"), text_part("b")],
            vec![data_part("m", "d"), text_part("c")],
        ])
    );
}

#[test]
fn escapes_in_strings_are_resolved() {
    let parsed = Response::from_json(
        r#"{"candidates":[{"content":{"parts":[{"text":"a\"b\\c\né🍌"}]}}]}"#,
    )
    .unwrap();
    assert_eq!(parsed.first_text(), Some(&"a\"b\\c\né🍌".to_string()));
}

#[test]
fn no_candidates() {
    let parsed = Response::from_json(r#"{"candidates":[]}"#).unwrap();
    assert_eq!(parsed, response(vec![]));
}

#[test]
fn text_that_is_not_json() {
    for text in ["", "{", "not json", r#"{"candidates":[}"#, r#"{"candidates":[]} x"#] {
        assert!(matches!(
            Response::from_json(text),
            Err(DeserializationError::InvalidJson(_))
        ));
    }
}

#[test]
fn json_of_another_shape() {
    for text in [
        "null",
        "[]",
        "3",
        "\"candidates\"",
        "{}",
        r#"{"candidates":null}"#,
        r#"{"candidates":{}}"#,
        r#"{"candidates":"x"}"#,
        r#"{"candidates":[null]}"#,
        r#"{"candidates":[{}]}"#,
        r#"{"candidates":[{"content":null}]}"#,
        r#"{"candidates":[{"content":{}}]}"#,
        r#"{"candidates":[{"content":{"parts":null}}]}"#,
        r#"{"candidates":[{"content":{"parts":{}}}]}"#,
        r#"{"candidates":[{"content":{"parts":[null]}}]}"#,
        r#"{"candidates":[{"content":{"parts":[3]}}]}"#,
        r#"{"candidates":[{"content":{"parts":["text"]}}]}"#,
        r#"{"candidates":[{"content":{"parts":[[]]}}]}"#,
        r#"{"candidates":[{"content":{"parts":[{"text":3}]}}]}"#,
        r#"{"candidates":[{"content":{"parts":[{"text":["a"]}]}}]}"#,
        r#"{"candidates":[{"content":{"parts":[{"inlineData":"x"}]}}]}"#,
        r#"{"candidates":[{"content":{"parts":[{"inlineData":{}}]}}]}"#,
        r#"{"candidates":[{"content":{"parts":[{"inlineData":{"mimeType":"m"}}]}}]}"#,
        r#"{"candidates":[{"content":{"parts":[{"inlineData":{"data":"d"}}]}}]}"#,
        r#"{"candidates":[{"content":{"parts":[{"inlineData":{"mimeType":null,"data":"d"}}]}}]}"#,
        r#"{"candidates":[{"content":{"parts":[{"inlineData":{"mimeType":"m","data":1}}]}}]}"#,
        r#"{"candidates":[{"content":{"parts":[{"text":"ok"}]}},{"content":{"parts":[{"text":1}]}}]}"#,
    ] {
        assert!(
            matches!(
                Response::from_json(text),
                Err(DeserializationError::UnexpectedShape)
            ),
            "{}",
            text
        );
    }
}

#[test]
fn errors_say_what_went_wrong() {
    let shape = Response::from_json("{}").unwrap_err();
    assert_eq!(shape.message(), "response does not match the expected shape");

    let syntax = Response::from_json("{").unwrap_err();
    let reference = serde_json::from_str::<serde_json::Value>("{").unwrap_err();
    assert_eq!(syntax.message(), reference.to_string());
}

#[test]
fn a_document_built_by_calls() {
    let mut part = serde_json::Map::new();
    part.insert("text".to_string(), serde_json::Value::String("Hi".to_string()));
    let mut content = serde_json::Map::new();
    content.insert(
        "parts".to_string(),
        serde_json::Value::Array(vec![serde_json::Value::Object(part)]),
    );
    let mut candidate = serde_json::Map::new();
    candidate.insert("content".to_string(), serde_json::Value::Object(content));
    let mut root = serde_json::Map::new();
    root.insert(
        "candidates".to_string(),
        serde_json::Value::Array(vec![serde_json::Value::Object(candidate)]),
    );

    let parsed = Response::from_value(&serde_json::Value::Object(root)).unwrap();
    assert_eq!(parsed, response(vec![vec![text_part("Hi")]]));

    assert!(matches!(
        Response::from_value(&serde_json::Value::Null),
        Err(DeserializationError::UnexpectedShape)
    ));
}

#[test]
fn first_text_is_that_of_the_first_part_of_the_first_candidate() {
    let r = response(vec![
        vec![text_part("first"), text_part("second")],
        vec![text_part("third")],
    ]);
    assert_eq!(r.first_text(), Some(&"first".to_string()));
    assert_eq!(text_output(&r), "first\n");
}

#[test]
fn no_text_where_the_first_part_has_none() {
    let r = response(vec![
        vec![data_part("image/png", "AA=="), text_part("second")],
        vec![text_part("third")],
    ]);
    assert_eq!(r.first_text(), None);
    assert_eq!(text_output(&r), "");

    let r = response(vec![vec![bare_part(), text_part("second")]]);
    assert_eq!(r.first_text(), None);
    assert_eq!(text_output(&r), "");
}

#[test]
fn no_text_without_candidates_or_parts() {
    let r = response(vec![]);
    assert_eq!(r.first_text(), None);
    assert_eq!(text_output(&r), "");

    let r = response(vec![vec![], vec![text_part("later")]]);
    assert_eq!(r.first_text(), None);
    assert_eq!(text_output(&r), "");
}

#[test]
fn text_is_printed_as_it_is() {
    let r = response(vec![vec![text_part("")]]);
    assert_eq!(r.first_text(), Some(&String::new()));
    assert_eq!(text_output(&r), "\n");

    let r = response(vec![vec![text_part("two\nlines\n")]]);
    assert_eq!(text_output(&r), "two\nlines\n\n");
}

#[test]
fn first_inline_data_in_reading_order() {
    let r = response(vec![
        vec![text_part("a"), bare_part()],
        vec![],
        vec![text_part("b"), data_part("image/png", "one"), data_part("image/jpeg", "two")],
        vec![data_part("image/gif", "three")],
    ]);
    let found = r.first_inline_data().unwrap();
    assert_eq!(found.mime_type, "image/png");
    assert_eq!(found.data, "one");
}

#[test]
fn inline_data_of_a_part_that_also_has_text() {
    let r = response(vec![vec![ResponsePart {
        text: Some("caption".to_string()),
        inline_data: Some(InlineData {
            mime_type: "image/png".to_string(),
            data: "AA==".to_string(),
        }),
    }]]);
    assert_eq!(r.first_inline_data().unwrap().data, "AA==");
    assert_eq!(r.first_text(), Some(&"caption".to_string()));
}

#[test]
fn no_inline_data() {
    assert_eq!(response(vec![]).first_inline_data(), None);
    assert_eq!(response(vec![vec![]]).first_inline_data(), None);
    assert_eq!(
        response(vec![vec![text_part("a"), bare_part()], vec![text_part("b")]]).first_inline_data(),
        None
    );
}

#[test]
fn what_follows_the_first_inline_data_does_not_matter() {
    let short = response(vec![vec![text_part("a"), data_part("image/png", "one")]]);
    let long = response(vec![
        vec![text_part("a"), data_part("image/png", "one"), data_part("x", "y")],
        vec![data_part("z", "w")],
    ]);
    assert_eq!(short.first_inline_data(), long.first_inline_data());
}
