use wrustblog::content::{
    classify_entry, image_source, output_file_name, read_blog_file, read_post_file, read_post_metadata, Blog,
    EntryKind, Post, PostItem, Tag,
};
use wrustblog::date::DateTime;
use wrustblog::errors::Error;
use wrustblog::front_matter::split_content;
use wrustblog::order::sort_newest_first;

fn post_text(title: &str, date: &str, body: &str) -> String {
    format!(
        "---\ntitle: {}\ndate: {}\ntags:\n  - rust\n  - blog\nsummary: A summary\nauthor: Ann\n---\n{}",
        title, date, body
    )
}

fn dated_post(title: &str, year: i32, month: u32) -> Post {
    Post {
        title: title.to_string(),
        date: DateTime { year, month, day: 1, hour: 10, minute: 0 },
        tags: vec![],
        summary: String::new(),
        content: String::new(),
        favorite: false,
        file_name: format!("{}.html", title),
        author: String::new(),
        year: year.to_string(),
    }
}

#[test]
fn split_content_separates_front_matter_and_body() {
    let (body, front) = split_content("---\ntitle: a\n---\nbody");
    assert_eq!(front, "---\ntitle: a\n---");
    assert_eq!(body, "\nbody");
}

#[test]
fn split_content_without_opening_delimiter_is_all_body() {
    let (body, front) = split_content("title: a\n---\nbody");
    assert_eq!(front, "");
    assert_eq!(body, "title: a\n---\nbody");
}

#[test]
fn split_content_without_closing_delimiter_keeps_original_text() {
    let (body, front) = split_content("---\ntitle: a\nbody");
    assert_eq!(front, "");
    assert_eq!(body, "---\ntitle: a\nbody");
}

#[test]
fn split_content_of_empty_text() {
    let (body, front) = split_content("");
    assert_eq!(front, "");
    assert_eq!(body, "");
}

#[test]
fn split_content_finds_first_closing_delimiter() {
    let (body, front) = split_content("------rest---more");
    assert_eq!(front, "------");
    assert_eq!(body, "rest---more");
}

#[test]
fn post_without_front_matter_fails() {
    let r = read_post_file("posts/p.md", "just a body");
    match r {
        Err(Error::NoFrontMatter(p)) => assert_eq!(p, "posts/p.md"),
        _ => panic!("expected a missing front matter failure"),
    }
}

#[test]
fn post_with_unclosed_front_matter_fails() {
    let r = read_post_metadata("posts/p.md", "---\ntitle: x\n");
    assert!(matches!(r, Err(Error::NoFrontMatter(p)) if p == "posts/p.md"));
}

#[test]
fn home_without_front_matter_fails() {
    let r = read_blog_file("content/home.md", "# Hello");
    assert!(matches!(r, Err(Error::NoFrontMatter(p)) if p == "content/home.md"));
}

#[test]
fn post_is_loaded_from_its_source() {
    let text = post_text("First", "2020-01-01 10:00", "Hello *world*\n");
    let post = read_post_file("content/posts/post-1.md", &text).ok().unwrap();
    assert_eq!(post.title, "First");
    assert_eq!(post.date, DateTime { year: 2020, month: 1, day: 1, hour: 10, minute: 0 });
    let tags: Vec<String> = post.tags.iter().map(|t| t.0.clone()).collect();
    assert_eq!(tags, vec!["rust".to_string(), "blog".to_string()]);
    assert_eq!(post.summary, "A summary");
    assert_eq!(post.author, "Ann");
    assert!(!post.favorite);
    assert_eq!(post.file_name, "post-1.html");
    assert_eq!(post.year, "2020");
    assert_eq!(post.content, "<p>Hello <em>world</em></p>\n");
}

#[test]
fn post_image_is_served_from_post_assets() {
    let text = post_text("Pic", "2020-01-01 10:00", "![alt](pic.png)\n");
    let post = read_post_file("posts/pic.md", &text).ok().unwrap();
    assert!(post.content.contains("<img src=\"post_assets/pic.png\" alt=\"alt\""));
}

#[test]
fn post_links_are_not_rewritten() {
    let text = post_text("Link", "2020-01-01 10:00", "[a link](other.png) and ![i](x.jpg)\n");
    let post = read_post_file("posts/link.md", &text).ok().unwrap();
    assert!(post.content.contains("href=\"other.png\""));
    assert!(post.content.contains("src=\"post_assets/x.jpg\""));
}

#[test]
fn strikethrough_is_enabled() {
    let text = post_text("Strike", "2020-01-01 10:00", "~~gone~~\n");
    let post = read_post_file("posts/s.md", &text).ok().unwrap();
    assert_eq!(post.content, "<p><del>gone</del></p>\n");
}

#[test]
fn favorite_flag_is_read() {
    let text = "---\ntitle: F\ndate: 2021-05-06 07:08\ntags: []\nsummary: s\nauthor: a\nfavorite: true\n---\nx";
    let post = read_post_file("posts/f.md", text).ok().unwrap();
    assert!(post.favorite);
}

#[test]
fn malformed_date_fails() {
    let text = post_text("Bad", "2020/01/01 10:00", "x");
    let r = read_post_file("posts/bad.md", &text);
    assert!(matches!(r, Err(Error::Undefined(_))));
}

#[test]
fn missing_field_fails() {
    let text = "---\ntitle: T\ndate: 2020-01-01 10:00\ntags: []\nauthor: a\n---\nx";
    let r = read_post_file("posts/m.md", text);
    match r {
        Err(Error::Undefined(m)) => assert_eq!(m, "missing field `summary`"),
        _ => panic!("expected a missing field failure"),
    }
}

#[test]
fn metadata_keeps_source_file_name() {
    let text = post_text("First", "2020-01-01 10:00", "body");
    let m = read_post_metadata("content/posts/post-1.md", &text).ok().unwrap();
    assert_eq!(m.file_name, "post-1.md");
    assert_eq!(m.title, "First");
}

#[test]
fn home_is_loaded() {
    let text = "---\ntitle: My blog\ntwitter: me\nauthor: Ann\nyear: 2023\n---\nWelcome\n";
    let b = read_blog_file("content/home.md", text).ok().unwrap();
    assert_eq!(b.title, "My blog");
    assert_eq!(b.twitter, "me");
    assert_eq!(b.author, "Ann");
    assert_eq!(b.year, 2023);
    assert_eq!(b.home_content, "<p>Welcome</p>\n");
    assert!(b.posts.is_empty());
}

#[test]
fn home_year_out_of_range_fails() {
    let text = "---\ntitle: t\ntwitter: me\nauthor: Ann\nyear: 70000\n---\nx";
    assert!(matches!(read_blog_file("home.md", text), Err(Error::Undefined(_))));
}

#[test]
fn image_source_prefixes_asset_route() {
    assert_eq!(image_source("pic.png"), "post_assets/pic.png");
}

#[test]
fn output_name_replaces_extension() {
    assert_eq!(output_file_name("content/posts/post-1.md"), "post-1.html");
    assert_eq!(output_file_name("notes"), "notes.html");
}

#[test]
fn entries_are_classified_by_extension() {
    assert_eq!(classify_entry("posts/a.md"), EntryKind::Content);
    assert_eq!(classify_entry("posts/a.png"), EntryKind::Asset);
    assert_eq!(classify_entry("posts/README"), EntryKind::Skipped);
    assert_eq!(classify_entry("posts/.md"), EntryKind::Skipped);
}

#[test]
fn posts_are_sorted_newest_first_and_stable() {
    let posts = vec![
        dated_post("a", 2020, 1),
        dated_post("b", 2021, 1),
        dated_post("c", 2020, 1),
        dated_post("d", 2019, 6),
        dated_post("e", 2021, 1),
    ];
    let sorted = sort_newest_first(posts);
    let titles: Vec<String> = sorted.iter().map(|p| p.title.clone()).collect();
    assert_eq!(titles, vec!["b", "e", "a", "c", "d"]);
}

#[test]
fn blog_gathers_sorted_posts_and_assets() {
    let home = Blog {
        title: "t".to_string(),
        twitter: "w".to_string(),
        author: "a".to_string(),
        year: 2020,
        home_content: "<p>h</p>".to_string(),
        posts: vec![],
        post_assets: vec![],
    };
    let items = vec![
        PostItem::Content(dated_post("post-1", 2020, 1)),
        PostItem::Asset("posts/pic.png".to_string()),
        PostItem::Content(dated_post("post-2", 2021, 1)),
        PostItem::Asset("posts/doc.pdf".to_string()),
    ];
    let blog = Blog::read_from(home, items);
    let titles: Vec<String> = blog.posts.iter().map(|p| p.title.clone()).collect();
    assert_eq!(titles, vec!["post-2", "post-1"]);
    assert_eq!(blog.post_assets, vec!["posts/pic.png".to_string(), "posts/doc.pdf".to_string()]);
    assert_eq!(blog.title, "t");
    assert_eq!(blog.year, 2020);
}

#[test]
fn tag_holds_its_label() {
    let t = Tag("x".to_string());
    assert_eq!(t.0, "x");
}

#[test]
fn single_image_post_renders_from_post_assets() {
    let text = "---\ntitle: Pic\ndate: 2020-01-01 10:00\ntags: []\nsummary: s\nauthor: a\n---![alt](pic.png)";
    let post = read_post_file("posts/pic.md", text).ok().unwrap();
    assert_eq!(post.content, "<p><img src=\"post_assets/pic.png\" alt=\"alt\" /></p>\n");
}

#[test]
fn null_favorite_fails() {
    let text = "---\ntitle: F\ndate: 2021-05-06 07:08\ntags: []\nsummary: s\nauthor: a\nfavorite:\n---\nx";
    assert!(matches!(read_post_file("posts/f.md", text), Err(Error::Undefined(_))));
}

#[test]
fn wrong_typed_optional_field_fails() {
    let text = "---\ntitle: F\ndate: 2021-05-06 07:08\ntags: []\nsummary: s\nauthor: a\nyear: 2021\n---\nx";
    assert!(matches!(read_post_file("posts/f.md", text), Err(Error::Undefined(_))));
}

#[test]
fn front_matter_that_is_not_a_mapping_fails_as_malformed() {
    let text = "---\n- a\n- b\n---\nx";
    assert!(matches!(read_post_file("posts/l.md", text), Err(Error::Undefined(_))));
}
