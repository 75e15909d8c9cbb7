use boringblog::BuildError;
use boringblog::RequiredField;
use boringblog::front_matter::get_info_value;
use boringblog::front_matter::parse;

#[test]
fn parse_returns_fields_and_body() {
    let doc = "---\ntitle: Hello\ntitleSlug: hello\ndate: 2024-01-01\n---\n# Hi";
    let (info, body) = parse(doc).unwrap();
    assert_eq!(info.title, "Hello");
    assert_eq!(info.title_slug, "hello");
    assert_eq!(info.date.as_deref(), Some("2024-01-01"));
    assert_eq!(info.description, None);
    assert_eq!(body, "# Hi");
}

#[test]
fn parse_keeps_description() {
    let doc = "---\ntitle: T\ntitleSlug: t\ndescription: A post\n---\nbody text";
    let (info, body) = parse(doc).unwrap();
    assert_eq!(info.title, "T");
    assert_eq!(info.description.as_deref(), Some("A post"));
    assert_eq!(info.date, None);
    assert_eq!(body, "body text");
}

#[test]
fn parse_missing_title_fails() {
    let doc = "---\ntitleSlug: hello\n---\nbody";
    let r = parse(doc);
    assert!(matches!(
        r,
        Err(BuildError::MissingRequiredField(RequiredField::Title))
    ));
}

#[test]
fn parse_missing_slug_fails() {
    let doc = "---\ntitle: Hello\n---\nbody";
    let r = parse(doc);
    assert!(matches!(
        r,
        Err(BuildError::MissingRequiredField(RequiredField::TitleSlug))
    ));
}

#[test]
fn parse_non_string_required_field_fails() {
    let doc = "---\ntitle: [a, b]\ntitleSlug: hello\n---\nbody";
    let r = parse(doc);
    assert!(matches!(
        r,
        Err(BuildError::MissingRequiredField(RequiredField::Title))
    ));
}

#[test]
fn parse_malformed_yaml_fails() {
    let doc = "---\ntitle: 'never closed\n---\nbody";
    let r = parse(doc);
    assert!(matches!(r, Err(BuildError::FrontMatterSyntaxError)));
}

#[test]
fn parse_without_front_matter_fails() {
    let doc = "no metadata block at all";
    let r = parse(doc);
    assert!(matches!(
        r,
        Err(BuildError::MissingRequiredField(RequiredField::Title))
    ));
}

#[test]
fn parse_body_keeps_later_fences() {
    let doc = "---\ntitle: T\ntitleSlug: t\n---\nbody\n---\nmore\n";
    let (_, body) = parse(doc).unwrap();
    assert_eq!(body, "body\n---\nmore\n");
}

#[test]
fn parse_unclosed_fence_means_no_metadata() {
    let doc = "---\ntitle: T\ntitleSlug: t\n";
    let r = parse(doc);
    assert!(matches!(
        r,
        Err(BuildError::MissingRequiredField(RequiredField::Title))
    ));
}

#[test]
fn parse_empty_block_means_no_metadata() {
    let doc = "---\n---\nbody";
    let r = parse(doc);
    assert!(matches!(
        r,
        Err(BuildError::MissingRequiredField(RequiredField::Title))
    ));
}

#[test]
fn get_info_value_reads_string_fields() {
    let docs = yaml_rust::YamlLoader::load_from_str("title: Hello\ncount: 3").unwrap();
    let meta = &docs[0];
    assert_eq!(
        get_info_value("title".to_string(), meta).as_deref(),
        Some("Hello")
    );
    assert_eq!(get_info_value("count".to_string(), meta), None);
    assert_eq!(get_info_value("missing".to_string(), meta), None);
}
