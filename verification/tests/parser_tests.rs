use sitegen::date::Date;
use sitegen::models::TemplateKind;
use sitegen::parser::page::{parse_page};
use sitegen::parser::{parse_markdown, ParseError};
use sitegen::urls::post_rel_path;

#[test]
fn parses_a_full_post() {
    let src = "---\ntitle: \"Hello\"\ndate: \"2024-01-05\"\nslug: \"hello\"\ndraft: false\nsummary: \"short\"\ntags: [rust, web]\ncategory: \"dev\"\n---\nBody text.";
    let post = parse_markdown(src).unwrap();
    assert_eq!(post.frontmatter.title, "Hello");
    assert_eq!(post.frontmatter.date, "2024-01-05");
    assert_eq!(post.frontmatter.slug, "hello");
    assert!(!post.frontmatter.draft);
    assert_eq!(post.frontmatter.summary, "short");
    assert_eq!(post.frontmatter.tags, vec!["rust".to_string(), "web".to_string()]);
    assert_eq!(post.frontmatter.category, "dev");
    assert_eq!(post.pub_date, Date { year: 2024, month: 1, day: 5 });
    assert!(post.content.contains("Body text."));
}

#[test]
fn applies_field_defaults() {
    let src = "---\ntitle: \"T\"\ndate: \"2024-01-05\"\nslug: \"t\"\n---\nx";
    let post = parse_markdown(src).unwrap();
    assert!(!post.frontmatter.draft);
    assert_eq!(post.frontmatter.summary, "");
    assert!(post.frontmatter.tags.is_empty());
    assert_eq!(post.frontmatter.category, "");
}

#[test]
fn keeps_the_draft_flag() {
    let src = "---\ntitle: \"T\"\ndate: \"2024-01-05\"\nslug: \"t\"\ndraft: true\n---\nx";
    let post = parse_markdown(src).unwrap();
    assert!(post.frontmatter.draft);
}

#[test]
fn one_delimiter_is_a_structural_error() {
    let src = "---\ntitle: \"T\"";
    assert!(matches!(parse_markdown(src), Err(ParseError::Frontmatter)));
}

#[test]
fn no_delimiter_is_a_structural_error() {
    assert!(matches!(parse_markdown("just text"), Err(ParseError::Frontmatter)));
}

#[test]
fn missing_required_fields_fail() {
    let no_title = "---\ndate: \"2024-01-05\"\nslug: \"t\"\n---\nx";
    assert!(matches!(parse_markdown(no_title), Err(ParseError::Header)));
    let no_date = "---\ntitle: \"T\"\nslug: \"t\"\n---\nx";
    assert!(matches!(parse_markdown(no_date), Err(ParseError::Header)));
    let no_slug = "---\ntitle: \"T\"\ndate: \"2024-01-05\"\n---\nx";
    assert!(matches!(parse_markdown(no_slug), Err(ParseError::Header)));
}

#[test]
fn mistyped_fields_fail() {
    let bad_draft = "---\ntitle: \"T\"\ndate: \"2024-01-05\"\nslug: \"t\"\ndraft: 5\n---\nx";
    assert!(matches!(parse_markdown(bad_draft), Err(ParseError::Header)));
    let bad_tags = "---\ntitle: \"T\"\ndate: \"2024-01-05\"\nslug: \"t\"\ntags: [1, 2]\n---\nx";
    assert!(matches!(parse_markdown(bad_tags), Err(ParseError::Header)));
    let scalar_tags = "---\ntitle: \"T\"\ndate: \"2024-01-05\"\nslug: \"t\"\ntags: \"rust\"\n---\nx";
    assert!(matches!(parse_markdown(scalar_tags), Err(ParseError::Header)));
}

#[test]
fn an_unparsable_date_fails() {
    let src = "---\ntitle: \"T\"\ndate: \"2024-13-01\"\nslug: \"t\"\n---\nx";
    assert!(matches!(parse_markdown(src), Err(ParseError::Date)));
    let src2 = "---\ntitle: \"T\"\ndate: \"soon\"\nslug: \"t\"\n---\nx";
    assert!(matches!(parse_markdown(src2), Err(ParseError::Date)));
}

#[test]
fn round_trips_a_post_to_heading_and_path() {
    let src = "---\ntitle: \"A\"\ndate: \"2024-01-05\"\nslug: \"a\"\n---\n# Hi";
    let post = parse_markdown(src).unwrap();
    assert!(post.content.contains("<h1>"));
    assert!(post.content.contains("Hi"));
    assert_eq!(post_rel_path(&post.frontmatter.slug), "a.html");
}

#[test]
fn renders_markdown_extensions() {
    let src = "---\ntitle: \"T\"\ndate: \"2024-01-05\"\nslug: \"t\"\n---\n~~gone~~";
    let post = parse_markdown(src).unwrap();
    assert!(post.content.contains("<del>"));
}

#[test]
fn parses_a_markdown_page() {
    let src = "---\ntitle: \"About\"\nslug: \"about\"\ntemplate: \"about\"\n---\n# Who";
    let page = parse_page("md", src).unwrap();
    assert_eq!(page.title, "About");
    assert_eq!(page.slug, "about");
    assert_eq!(page.template, TemplateKind::About);
    assert!(page.content.contains("<h1>"));
    assert!(page.custom_data.is_none());
}

#[test]
fn page_template_names_resolve() {
    let mk = |t: &str| {
        format!("---\ntitle: \"P\"\nslug: \"p\"\ntemplate: \"{}\"\n---\nx", t)
    };
    assert_eq!(parse_page("md", &mk("default")).unwrap().template, TemplateKind::Default);
    assert_eq!(parse_page("md", &mk("")).unwrap().template, TemplateKind::Default);
    assert_eq!(parse_page("md", &mk("contact")).unwrap().template, TemplateKind::Contact);
    assert!(matches!(parse_page("md", &mk("weird")), Err(ParseError::UnknownTemplate)));
}

#[test]
fn a_markdown_page_without_delimiters_fails() {
    assert!(matches!(parse_page("md", "title: x"), Err(ParseError::Frontmatter)));
}

#[test]
fn a_markdown_page_with_custom_data() {
    let src = "---\ntitle: \"P\"\nslug: \"p\"\ntemplate: \"default\"\ncustom_data:\n  greeting: \"hi\"\n---\nx";
    let page = parse_page("md", src).unwrap();
    let data = page.custom_data.expect("payload should carry over");
    assert_eq!(data.get("greeting").and_then(|v| v.as_str()), Some("hi"));
}

#[test]
fn parses_a_json_page_verbatim() {
    let src = "{\"title\": \"Contact\", \"slug\": \"contact\", \"content\": \"<p># not markdown</p>\", \"template\": \"contact\"}";
    let page = parse_page("json", src).unwrap();
    assert_eq!(page.title, "Contact");
    assert_eq!(page.slug, "contact");
    assert_eq!(page.content, "<p># not markdown</p>");
    assert_eq!(page.template, TemplateKind::Contact);
    assert!(page.custom_data.is_none());
}

#[test]
fn a_json_page_keeps_its_payload() {
    let src = "{\"title\": \"P\", \"slug\": \"p\", \"content\": \"c\", \"template\": \"default\", \"custom_data\": {\"n\": 3}}";
    let page = parse_page("json", src).unwrap();
    let data = page.custom_data.expect("payload should carry over");
    assert_eq!(data.get("n").and_then(|v| v.as_i64()), Some(3));
}

#[test]
fn a_json_page_missing_a_field_fails() {
    let src = "{\"title\": \"P\", \"slug\": \"p\", \"content\": \"c\"}";
    assert!(matches!(parse_page("json", src), Err(ParseError::Header)));
    assert!(matches!(parse_page("json", "not json"), Err(ParseError::Header)));
}

#[test]
fn an_unsupported_extension_fails() {
    assert!(matches!(parse_page("txt", "anything"), Err(ParseError::UnsupportedFormat)));
    assert!(matches!(parse_page("", "anything"), Err(ParseError::UnsupportedFormat)));
}
