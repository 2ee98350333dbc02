use bloggen::config::{Config, ConfigError, RawConfig};
use bloggen::post::{extract_first_heading, Post, PostError, PostMeta};
use bloggen::template::{Template, TemplateError};
use bloggen::text::{find_from, replace_all};

fn meta_none() -> PostMeta {
    PostMeta {
        title: None,
        timestamp: None,
        tags: None,
        description: None,
        keywords: None,
        main_image: None,
        draft: None,
    }
}

#[test]
fn replace_all_replaces_every_occurrence() {
    assert_eq!(replace_all("a TOKEN b TOKEN c", "TOKEN", "x"), "a x b x c");
}

#[test]
fn replace_all_resumes_after_each_replacement() {
    assert_eq!(replace_all("aaa", "aa", "b"), "ba");
}

#[test]
fn replace_all_leaves_text_without_matches_unchanged() {
    assert_eq!(replace_all("abc", "x", "y"), "abc");
}

#[test]
fn replace_all_empty_pattern_is_a_no_op() {
    assert_eq!(replace_all("abc", "", "y"), "abc");
}

#[test]
fn replace_all_on_empty_text() {
    assert_eq!(replace_all("", "x", "y"), "");
}

#[test]
fn find_from_finds_leftmost_match() {
    assert_eq!(find_from("abcabc", "bc", 0), Some(1));
    assert_eq!(find_from("abcabc", "bc", 2), Some(4));
    assert_eq!(find_from("abcabc", "zz", 0), None);
}

#[test]
fn extract_heading_between_h1_tags() {
    assert_eq!(
        extract_first_heading("<p>x</p><h1>Hello</h1><h1>Other</h1>"),
        Some("Hello".to_string())
    );
}

#[test]
fn extract_heading_absent_without_h1() {
    assert_eq!(extract_first_heading("<p>no heading</p>"), None);
}

#[test]
fn extract_heading_absent_when_unclosed() {
    assert_eq!(extract_first_heading("<h1>unclosed"), None);
}

#[test]
fn config_default_values() {
    let c = Config::default();
    assert_eq!(c.dest, "./public");
    assert_eq!(c.title, "Blogname");
    assert_eq!(c.description, "Blogname");
    assert_eq!(c.selector_content, "CONTENT");
    assert_eq!(c.selector_title, "TITLE");
    assert_eq!(c.selector_description, "DESCRIPTION");
    assert_eq!(c.selector_timestamp, "TIMESTAMP");
    assert_eq!(c.selector_main_image, "MAIN_IMAGE");
}

#[test]
fn config_missing_selector_title_falls_back_to_default() {
    let raw = RawConfig {
        dest: Some("out".to_string()),
        title: Some("My blog".to_string()),
        description: Some("About things".to_string()),
        selector_content: Some("BODY".to_string()),
        selector_title: None,
        selector_description: Some("DESC".to_string()),
        selector_timestamp: Some("WHEN".to_string()),
        selector_main_image: Some("IMG".to_string()),
    };
    let c = Config::resolve(raw);
    assert_eq!(c.selector_title, "TITLE");
    assert_eq!(c.dest, "out");
    assert_eq!(c.title, "My blog");
    assert_eq!(c.selector_content, "BODY");
    assert_eq!(c.selector_description, "DESC");
    assert_eq!(c.selector_timestamp, "WHEN");
    assert_eq!(c.selector_main_image, "IMG");
}

#[test]
fn meta_default_is_all_absent() {
    let m = PostMeta::default();
    assert!(m.title.is_none());
    assert!(m.timestamp.is_none());
    assert!(m.tags.is_none());
    assert!(m.description.is_none());
    assert!(m.keywords.is_none());
    assert!(m.main_image.is_none());
    assert!(m.draft.is_none());
}

#[test]
fn title_prefers_explicit_metadata_title() {
    let mut meta = meta_none();
    meta.title = Some("Given".to_string());
    let p = Post::new(
        "slug".to_string(),
        "<h1>Heading</h1>".to_string(),
        "dir".to_string(),
        meta,
    );
    assert_eq!(p.title, "Given");
}

#[test]
fn title_falls_back_to_first_heading() {
    let p = Post::new(
        "slug".to_string(),
        "<p>intro</p><h1>Heading</h1>".to_string(),
        "dir".to_string(),
        meta_none(),
    );
    assert_eq!(p.title, "Heading");
}

#[test]
fn title_falls_back_to_slug() {
    let p = Post::new(
        "slug".to_string(),
        "<p>no heading</p>".to_string(),
        "dir".to_string(),
        meta_none(),
    );
    assert_eq!(p.title, "slug");
}

#[test]
fn title_derivation_is_idempotent() {
    let a = Post::new(
        "s".to_string(),
        "<h1>H</h1>".to_string(),
        "d".to_string(),
        meta_none(),
    );
    let b = Post::new(
        "s".to_string(),
        "<h1>H</h1>".to_string(),
        "d".to_string(),
        meta_none(),
    );
    assert_eq!(a.title, b.title);
    assert!(!a.title.is_empty());
}

#[test]
fn render_date_formats_epoch_seconds() {
    let mut meta = meta_none();
    meta.timestamp = Some(1431648000);
    let p = Post::new("s".to_string(), String::new(), "d".to_string(), meta);
    assert_eq!(p.render_date(), "2015-05-15");
}

#[test]
fn render_date_of_epoch_start() {
    let mut meta = meta_none();
    meta.timestamp = Some(200);
    let p = Post::new("s".to_string(), String::new(), "d".to_string(), meta);
    assert_eq!(p.render_date(), "1970-01-01");
}

#[test]
fn render_date_empty_without_timestamp() {
    let p = Post::new("s".to_string(), String::new(), "d".to_string(), meta_none());
    assert_eq!(p.render_date(), "");
}

#[test]
fn render_link_holds_slug_and_title() {
    let mut meta = meta_none();
    meta.title = Some("Hi".to_string());
    let p = Post::new("hello".to_string(), String::new(), "d".to_string(), meta);
    assert_eq!(p.render_link(), "<a href=\"/hello\">Hi</a>");
}

#[test]
fn markdown_is_rendered_not_echoed() {
    let p = Post::from_sources(
        "s".to_string(),
        "d".to_string(),
        "# Hi\n\nbody text",
        None,
    );
    assert!(p.html.contains("<h1>"));
    assert!(p.html.contains("Hi"));
    assert!(p.html.contains("<p>body text</p>"));
    assert_ne!(p.html, "# Hi\n\nbody text");
    assert_eq!(p.title, "Hi");
}

#[test]
fn missing_metadata_means_empty_metadata() {
    let p = Post::from_sources("s".to_string(), "d".to_string(), "text", None);
    assert!(p.meta.title.is_none());
    assert!(p.meta.timestamp.is_none());
    assert!(p.meta.tags.is_none());
}

#[test]
fn template_substitutes_all_five_with_full_metadata() {
    let c = Config::default();
    let t = Template::new("A CONTENT B DESCRIPTION C TIMESTAMP D MAIN_IMAGE E TITLE".to_string());
    let mut meta = meta_none();
    meta.description = Some("dd".to_string());
    meta.timestamp = Some(200);
    meta.main_image = Some("mm.png".to_string());
    let page = t.build_page(&c, "cc", "tt", Some(&meta));
    assert_eq!(page, "A cc B dd C 1970-01-01 D mm.png E tt");
}

#[test]
fn template_without_metadata_leaves_meta_tokens() {
    let c = Config::default();
    let t = Template::new("A CONTENT B DESCRIPTION C TIMESTAMP D MAIN_IMAGE E TITLE".to_string());
    let page = t.build_page(&c, "cc", "tt", None);
    assert_eq!(page, "A cc B DESCRIPTION C TIMESTAMP D MAIN_IMAGE E tt");
}

#[test]
fn template_absent_fields_leave_their_tokens() {
    let c = Config::default();
    let t = Template::new("A CONTENT B DESCRIPTION C TIMESTAMP D MAIN_IMAGE E TITLE".to_string());
    let mut meta = meta_none();
    meta.description = Some("dd".to_string());
    let page = t.build_page(&c, "cc", "tt", Some(&meta));
    assert_eq!(page, "A cc B dd C TIMESTAMP D MAIN_IMAGE E tt");
}

#[test]
fn template_substitution_order_content_before_title() {
    let c = Config::default();
    let t = Template::new("CONTENT".to_string());
    let page = t.build_page(&c, "TITLE!", "zz", None);
    assert_eq!(page, "zz!");
}

#[test]
fn error_messages() {
    assert_eq!(ConfigError::InvalidConfig.message(), "InvalidConfig");
    assert_eq!(ConfigError::CantReadFile.message(), "CantReadFile");
    assert_eq!(PostError::InvalidPostMeta.message(), "InvalidPostMeta");
    assert_eq!(PostError::InvalidPostFile.message(), "InvalidPostFile");
    assert_eq!(PostError::CantReadFile.message(), "CantReadFile");
    assert_eq!(PostError::CantReadPath.message(), "CantReadPath");
    assert_eq!(TemplateError::CantReadTemplateFile.message(), "CantReadTemplateFile");
}
