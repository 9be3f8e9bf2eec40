use std::collections::hash_map::RandomState;
use wrustblog::content::{read_post_file, read_post_metadata, Blog};
use wrustblog::date::DateTime;
use wrustblog::errors::Error;
use wrustblog::pack::{advance, pack_plan, PackStep};
use wrustblog::templates::{
    generate_main_page_content, generate_post_content, pack_post_model, post_route_of, Main, Post,
};

fn post_text(title: &str, date: &str) -> String {
    format!(
        "---\ntitle: {}\ndate: {}\ntags:\n  - t1\nsummary: S\nauthor: Ann\nfavorite: true\n---\nBody ![a](pic.png)\n",
        title, date
    )
}

fn home() -> Blog {
    Blog {
        title: "Blog".to_string(),
        twitter: "tw".to_string(),
        author: "Ann".to_string(),
        year: 2021,
        home_content: "<p>home</p>\n".to_string(),
        posts: vec![],
        post_assets: vec![],
    }
}

#[test]
fn listing_shows_newer_post_first() {
    let p1 = read_post_metadata("content/posts/post-1.md", &post_text("One", "2020-01-01 10:00")).ok().unwrap();
    let p2 = read_post_metadata("content/posts/post-2.md", &post_text("Two", "2021-01-01 10:00")).ok().unwrap();
    let model = generate_main_page_content(&home(), vec![p1, p2]);
    assert_eq!(model.posts.len(), 2);
    assert_eq!(model.posts[0].file_name, "/posts/post-2");
    assert_eq!(model.posts[1].file_name, "/posts/post-1");
    assert_eq!(model.posts[0].title, "Two");
    assert_eq!(model.posts[0].content, "");
    assert!(!model.posts[0].favorite);
    assert_eq!(model.posts[0].year, "");
    assert_eq!(model.posts[0].root_page, "/");
    assert_eq!(model.title, "Blog");
    assert_eq!(model.year, 2021);
}

#[test]
fn pack_and_serve_models_differ_only_in_root_page() {
    let post = read_post_file("content/posts/post-1.md", &post_text("One", "2020-01-01 10:00")).ok().unwrap();
    let packed = pack_post_model(&post);
    let served = generate_post_content(&post);
    assert_eq!(packed.root_page, "index.html");
    assert_eq!(served.root_page, "/");
    assert_eq!(packed.title, served.title);
    assert_eq!(packed.date, served.date);
    assert_eq!(packed.summary, served.summary);
    assert_eq!(packed.content, served.content);
    assert_eq!(packed.favorite, served.favorite);
    assert_eq!(packed.file_name, served.file_name);
    assert_eq!(packed.author, served.author);
    assert_eq!(packed.year, served.year);
    let a: Vec<String> = packed.tags.iter().map(|t| t.0.clone()).collect();
    let b: Vec<String> = served.tags.iter().map(|t| t.0.clone()).collect();
    assert_eq!(a, b);
    assert_eq!(served.file_name, "post-1.html");
}

#[test]
fn pack_of_one_post_and_one_asset() {
    let post = read_post_file("content/posts/post-1.md", &post_text("One", "2020-01-01 10:00")).ok().unwrap();
    let mut blog = home();
    blog.posts.push(post);
    blog.post_assets.push("content/posts/pic.png".to_string());
    let plan = pack_plan(&blog);
    assert_eq!(plan.pages.len(), 1);
    assert_eq!(plan.pages[0].file_name, "post-1.html");
    assert_eq!(plan.pages[0].root_page, "index.html");
    assert_eq!(plan.assets.len(), 1);
    assert_eq!(plan.assets[0].source, "content/posts/pic.png");
    assert_eq!(plan.assets[0].target, "post_assets/pic.png");
    assert_eq!(plan.main.posts.len(), 1);
    assert_eq!(plan.main.home_content, "<p>home</p>\n");
}

#[test]
fn pack_steps_run_in_order_and_stop_on_failure() {
    let mut s = PackStep::Start;
    let mut seen = vec![s];
    while s != PackStep::Done {
        s = advance(s, true);
        seen.push(s);
    }
    assert_eq!(
        seen,
        vec![PackStep::Start, PackStep::AssetsCopied, PackStep::PagesWritten, PackStep::PostAssetsCopied, PackStep::Done]
    );
    assert_eq!(advance(PackStep::AssetsCopied, false), PackStep::Failed);
    assert_eq!(advance(PackStep::Failed, true), PackStep::Failed);
    assert_eq!(advance(PackStep::Done, false), PackStep::Done);
}

#[test]
fn route_of_listing_entry_strips_md() {
    assert_eq!(post_route_of("post-1.md"), "/posts/post-1");
    assert_eq!(post_route_of("notes.txt"), "/posts/notes.txt");
}

#[test]
fn dates_render_with_padding() {
    let d = DateTime { year: 2020, month: 1, day: 2, hour: 3, minute: 4 };
    assert_eq!(d.render(), "2020-01-02 03:04");
    let early = DateTime { year: 33, month: 12, day: 31, hour: 23, minute: 59 };
    assert_eq!(early.render(), "0033-12-31 23:59");
    assert_eq!(early.year_text(), "33");
}

#[test]
fn dates_parse_exact_format() {
    let d = DateTime::parse("2021-01-01 10:00").ok().unwrap();
    assert_eq!(d, DateTime { year: 2021, month: 1, day: 1, hour: 10, minute: 0 });
    assert!(DateTime::parse("2021-01-01").is_err());
    assert!(DateTime::parse("2021-13-01 10:00").is_err());
    assert!(DateTime::parse("01/01/2021 10:00").is_err());
}

#[test]
fn later_dates_compare_later() {
    let a = DateTime { year: 2021, month: 1, day: 1, hour: 10, minute: 0 };
    let b = DateTime { year: 2020, month: 12, day: 31, hour: 23, minute: 59 };
    assert!(a.is_later_than(&b));
    assert!(!b.is_later_than(&a));
    assert!(!a.is_later_than(&a));
}

#[test]
fn template_sets_without_templates_are_refused() {
    let empty = ramhorns::Ramhorns::<RandomState>::lazy(".").ok().unwrap();
    assert!(matches!(Main::read_from_dir(empty), Err(Error::NoBlogTemplateFound)));
    let empty = ramhorns::Ramhorns::<RandomState>::lazy(".").ok().unwrap();
    assert!(matches!(Post::read_from_dir(empty), Err(Error::NoPostsTemplateFound)));
    let a = ramhorns::Ramhorns::<RandomState>::lazy(".").ok().unwrap();
    let b = ramhorns::Ramhorns::<RandomState>::lazy(".").ok().unwrap();
    assert!(matches!(wrustblog::templates::Blog::read_from_dir(a, b), Err(Error::NoBlogTemplateFound)));
}

#[test]
fn error_messages() {
    assert_eq!(Error::NoFrontMatter("a.md".to_string()).message(), "no front matter in a.md");
    assert_eq!(Error::Undefined("boom".to_string()).message(), "boom");
    assert_eq!(Error::NoBlogTemplateFound.message(), "no main template file found");
    assert_eq!(Error::NoPostsTemplateFound.message(), "no posts template file found");
}
