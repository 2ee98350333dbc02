use bloggen::config::{Config, RawConfig};
use bloggen::ordering::sort_posts;
use bloggen::post::{Post, PostMeta};
use bloggen::site::{build_site_plan, is_image_name, Action};
use bloggen::tags::build_tag_index;
use bloggen::template::Template;

fn meta_none() -> PostMeta {
    PostMeta {
        title: None,
        timestamp: None,
        tags: None,
        description: None,
        keywords: None,
        main_image: None,
        draft: None,
    }
}

fn post(slug: &str, timestamp: Option<u64>, tags: Option<Vec<&str>>) -> Post {
    let mut meta = meta_none();
    meta.timestamp = timestamp;
    meta.tags = tags.map(|ts| ts.into_iter().map(|t| t.to_string()).collect());
    Post::new(
        slug.to_string(),
        format!("<p>{} body</p>", slug),
        format!("src/posts/{}", slug),
        meta,
    )
}

fn slugs(posts: &[Post]) -> Vec<String> {
    posts.iter().map(|p| p.slug.clone()).collect()
}

#[test]
fn sort_places_larger_timestamps_first() {
    let mut posts = vec![
        post("old", Some(100), None),
        post("new", Some(900), None),
        post("mid", Some(500), None),
    ];
    sort_posts(&mut posts);
    assert_eq!(slugs(&posts), vec!["new", "mid", "old"]);
}

#[test]
fn sort_places_timestamp_less_posts_last() {
    let mut posts = vec![
        post("none1", None, None),
        post("new", Some(900), None),
        post("none2", None, None),
        post("old", Some(1), None),
    ];
    sort_posts(&mut posts);
    assert_eq!(posts[0].slug, "new");
    assert_eq!(posts[1].slug, "old");
    assert!(posts[2].meta.timestamp.is_none());
    assert!(posts[3].meta.timestamp.is_none());
    assert_eq!(posts.len(), 4);
}

#[test]
fn sort_keeps_equal_timestamps() {
    let mut posts = vec![post("a", Some(5), None), post("b", Some(5), None)];
    sort_posts(&mut posts);
    let mut s = slugs(&posts);
    s.sort();
    assert_eq!(s, vec!["a", "b"]);
}

#[test]
fn tag_index_buckets_follow_post_order() {
    let posts = vec![
        post("first", Some(300), Some(vec!["a", "b"])),
        post("second", Some(200), Some(vec!["b"])),
        post("third", Some(100), None),
    ];
    let idx = build_tag_index(&posts);
    assert_eq!(idx.len(), 2);
    assert_eq!(idx[0].tag, "a");
    assert_eq!(idx[0].posts, vec![0]);
    assert_eq!(idx[1].tag, "b");
    assert_eq!(idx[1].posts, vec![0, 1]);
}

#[test]
fn untagged_post_is_in_no_bucket() {
    let posts = vec![post("only", Some(1), None)];
    let idx = build_tag_index(&posts);
    assert!(idx.is_empty());
}

#[test]
fn image_names() {
    assert!(is_image_name("photo.png"));
    assert!(is_image_name("photo.jpg"));
    assert!(is_image_name("photo.jpeg"));
    assert!(is_image_name("archive.tar.png"));
    assert!(!is_image_name("notes.txt"));
    assert!(!is_image_name(".png"));
    assert!(!is_image_name("png"));
    assert!(!is_image_name(""));
}

fn test_config(dest: &str) -> Config {
    Config::resolve(RawConfig {
        dest: Some(dest.to_string()),
        title: Some("Site".to_string()),
        description: None,
        selector_content: None,
        selector_title: None,
        selector_description: None,
        selector_timestamp: None,
        selector_main_image: None,
    })
}

fn written_paths(plan: &[Action]) -> Vec<String> {
    plan.iter()
        .filter_map(|a| match a {
            Action::WritePage { path, .. } => Some(path.clone()),
            _ => None,
        })
        .collect()
}

fn page_for<'a>(plan: &'a [Action], path: &str) -> Option<&'a String> {
    plan.iter().find_map(|a| match a {
        Action::WritePage { path: p, html } if p == path => Some(html),
        _ => None,
    })
}

#[test]
fn plan_begins_by_clearing_the_destination() {
    let config = test_config("out");
    let template = Template::new("CONTENT".to_string());
    let plan = build_site_plan("blog", &config, &template, &vec![], &vec![]);
    assert!(matches!(&plan[0], Action::ClearDest { path } if path == "out"));
}

#[test]
fn rebuilt_plan_holds_no_trace_of_a_removed_post() {
    let config = test_config("out");
    let template = Template::new("CONTENT".to_string());
    let kept = post("kept", Some(2), None);
    let removed = post("removed", Some(1), None);

    let first = build_site_plan(
        "blog",
        &config,
        &template,
        &vec![kept.clone(), removed],
        &vec![],
    );
    assert!(written_paths(&first).contains(&"out/removed/index.html".to_string()));

    let second = build_site_plan("blog", &config, &template, &vec![kept], &vec![]);
    assert!(matches!(&second[0], Action::ClearDest { path } if path == "out"));
    for a in &second {
        let touched = match a {
            Action::ClearDest { path } => path.clone(),
            Action::MakeDir { path } => path.clone(),
            Action::CopyAll { to, .. } => to.clone(),
            Action::CopyImages { to, .. } => to.clone(),
            Action::WritePage { path, .. } => path.clone(),
        };
        assert!(!touched.contains("removed"));
    }
}

#[test]
fn end_to_end_two_posts_with_tag_page() {
    let config = test_config("dest");
    let template = Template::new("B:CONTENT|T:TITLE".to_string());

    let hello = Post::from_sources(
        "hello".to_string(),
        "blog/posts/hello".to_string(),
        "hello body",
        Some(PostMeta {
            title: None,
            timestamp: Some(200),
            tags: Some(vec!["intro".to_string()]),
            description: None,
            keywords: None,
            main_image: None,
            draft: None,
        }),
    );
    let world = Post::from_sources(
        "world".to_string(),
        "blog/posts/world".to_string(),
        "world body",
        None,
    );

    let mut posts = vec![world, hello];
    sort_posts(&mut posts);
    assert_eq!(slugs(&posts), vec!["hello", "world"]);

    let plan = build_site_plan("blog", &config, &template, &posts, &vec![]);

    let tag_page = page_for(&plan, "dest/tags/intro/index.html").expect("tag page missing");
    assert!(tag_page.contains("<a href=\"/hello\">"));
    assert!(!tag_page.contains("<a href=\"/world\">"));
    assert!(tag_page.contains("All posts tagged with intro"));
    assert!(tag_page.contains("1970-01-01"));

    let world_page = page_for(&plan, "dest/world/index.html").expect("world page missing");
    assert!(world_page.contains("T:world"));

    let index = page_for(&plan, "dest/index.html").expect("front page missing");
    assert!(index.contains("<a href=\"/hello\">"));
    assert!(index.contains("<a href=\"/world\">"));
    assert!(index.contains("T:Site"));
    let hello_pos = index.find("/hello").unwrap();
    let world_pos = index.find("/world").unwrap();
    assert!(hello_pos < world_pos);
}

#[test]
fn plan_materialises_posts_in_order_with_assets() {
    let config = test_config("o");
    let template = Template::new("CONTENT".to_string());
    let posts = vec![post("p1", Some(2), None)];
    let statics = vec![post("about", None, None)];
    let plan = build_site_plan("s", &config, &template, &posts, &statics);

    assert!(matches!(&plan[0], Action::ClearDest { path } if path == "o"));
    assert!(matches!(&plan[1], Action::MakeDir { path } if path == "o/assets"));
    assert!(
        matches!(&plan[2], Action::CopyAll { from, to } if from == "s/assets" && to == "o/assets")
    );
    assert!(matches!(&plan[3], Action::MakeDir { path } if path == "o/p1"));
    assert!(
        matches!(&plan[4], Action::CopyImages { from, to } if from == "src/posts/p1" && to == "o/p1")
    );
    assert!(matches!(&plan[5], Action::WritePage { path, .. } if path == "o/p1/index.html"));
    assert!(matches!(&plan[6], Action::MakeDir { path } if path == "o/about"));
    assert!(matches!(&plan[8], Action::WritePage { path, .. } if path == "o/about/index.html"));
    assert!(matches!(&plan[9], Action::MakeDir { path } if path == "o/tags"));
    assert!(matches!(plan.last().unwrap(), Action::WritePage { path, .. } if path == "o/index.html"));
}
