use openai::images::edits::ImageEdit;
use openai::images::variations::ImageVariation;
use openai::images::{BuildError, Image, ImageBuilder, ImageFormat, ImageSize};

#[test]
fn image_builder_sets_fields() {
    let request = Image::builder("A cute baby sea otter")
        .n(2)
        .size(ImageSize::Large)
        .response_format(ImageFormat::Base64Json)
        .user("u1")
        .build()
        .unwrap();
    assert_eq!(request.prompt, "A cute baby sea otter");
    assert_eq!(request.n, Some(2));
    assert_eq!(request.size, Some(ImageSize::Large));
    assert_eq!(request.response_format, Some(ImageFormat::Base64Json));
    assert_eq!(request.user.as_deref(), Some("u1"));
}

#[test]
fn image_builder_needs_a_prompt() {
    match ImageBuilder::create_empty().n(1).build() {
        Err(BuildError::UninitializedField(f)) => assert_eq!(f, "prompt"),
        Ok(_) => panic!("a request without a prompt was built"),
    }
}

#[test]
fn wire_names_and_defaults() {
    assert_eq!(ImageSize::Small.wire_name(), "256x256");
    assert_eq!(ImageSize::Medium.wire_name(), "512x512");
    assert_eq!(ImageSize::Large.wire_name(), "1024x1024");
    assert_eq!(ImageFormat::Url.wire_name(), "url");
    assert_eq!(ImageFormat::Base64Json.wire_name(), "b64_json");
    assert_eq!(ImageSize::default(), ImageSize::Large);
    assert_eq!(ImageFormat::default(), ImageFormat::Url);
}

#[test]
fn edit_builder_sets_fields() {
    let request = ImageEdit::builder("@otter.png", "A cute baby sea otter wearing a beret")
        .mask("@mask.png")
        .n(2)
        .size(ImageSize::Large)
        .build()
        .unwrap();
    assert_eq!(request.image, "@otter.png");
    assert_eq!(request.prompt, "A cute baby sea otter wearing a beret");
    assert_eq!(request.mask.as_deref(), Some("@mask.png"));
    assert_eq!(request.n, Some(2));
    assert_eq!(request.response_format, None);
}

#[test]
fn variation_builder_sets_fields() {
    let request = ImageVariation::builder("@otter.png").n(2).size(ImageSize::Large).build().unwrap();
    assert_eq!(request.image, "@otter.png");
    assert_eq!(request.n, Some(2));
    assert_eq!(request.size, Some(ImageSize::Large));
    assert_eq!(request.user, None);
}
