use nano_banana::model::{endpoint, ImageModel, TEXT_MODEL};

#[test]
fn test_image_model_api_names() {
    assert_eq!(ImageModel::NanoBanana2.api_name(), "gemini-3.1-flash-image");
    assert_eq!(
        ImageModel::NanoBanana1.api_name(),
        "gemini-2.0-flash-exp-image-generation"
    );
}

#[test]
fn default_model_is_the_newer_one() {
    assert_eq!(ImageModel::default(), ImageModel::NanoBanana2);
    assert_eq!(ImageModel::default().api_name(), "gemini-3.1-flash-image");
}

#[test]
fn model_names_are_not_empty_and_differ() {
    let newer = ImageModel::NanoBanana2.api_name();
    let legacy = ImageModel::NanoBanana1.api_name();
    assert!(!newer.is_empty());
    assert!(!legacy.is_empty());
    assert_ne!(newer, legacy);
}

#[test]
fn text_model_name() {
    assert_eq!(TEXT_MODEL, "gemini-2.0-flash");
}

#[test]
fn endpoint_holds_model_and_key() {
    assert_eq!(
        endpoint("gemini-2.0-flash", "abc123"),
        "https://generativelanguage.googleapis.com/v1beta/models/gemini-2.0-flash:generateContent?key=abc123"
    );
}

#[test]
fn endpoint_leaves_model_and_key_as_they_are() {
    assert_eq!(
        endpoint("", ""),
        "https://generativelanguage.googleapis.com/v1beta/models/:generateContent?key="
    );
    assert_eq!(
        endpoint("m/x", "k&y=z w"),
        "https://generativelanguage.googleapis.com/v1beta/models/m/x:generateContent?key=k&y=z w"
    );
}
