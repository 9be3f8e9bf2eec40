//! The blog's content: posts, their metadata, the home document, and how
//! they are built from source files.
use vstd::prelude::*;
use pulldown_cmark::{html, Event, Options, Parser, Tag as MdTag};
use crate::date::parsed_timestamp;
use crate::errors::Error;
use crate::front_matter::{closing_delimiter, split_content, split_spec};
use crate::order::{sort_newest_first, stable_newest_first};
use crate::text::{base_name, base_name_of, extension, extension_of, same_text, stem, stem_of};
use crate::yaml::{
    field, fields_of, flag_field, front_matter_fields, get_field, parse_front_matter, read_flag,
    read_small_number, read_text, read_text_list, small_number_field, text_field, text_list_field,
    FrontMatter, FrontMatterData, YamlValue,
};

pub use crate::date::DateTime;

verus! {

/// A label attached to a post.
#[derive(Clone, Debug)]
pub struct Tag(pub String);

/// A post, with its body rendered to HTML.
#[derive(Clone, Debug)]
pub struct Post {
    pub title: String,
    pub date: DateTime,
    pub tags: Vec<Tag>,
    pub summary: String,
    pub content: String,
    pub favorite: bool,
    pub file_name: String,
    pub author: String,
    pub year: String,
}

/// What a listing needs of a post: its front matter and source file name.
#[derive(Clone, Debug)]
pub struct PostMetadata {
    pub title: String,
    pub date: DateTime,
    pub tags: Vec<Tag>,
    pub summary: String,
    pub author: String,
    pub file_name: String,
}

/// The home document together with the posts, newest first, and the post
/// assets found beside them.
#[derive(Clone, Debug)]
pub struct Blog {
    pub title: String,
    pub twitter: String,
    pub author: String,
    pub year: u16,
    pub home_content: String,
    pub posts: Vec<Post>,
    pub post_assets: Vec<String>,
}

/// The texts of a sequence of tags.
pub open spec fn tag_texts(tags: Seq<Tag>) -> Seq<Seq<char>> {
    tags.map_values(|t: Tag| t.0@)
}

fn tags_of(texts: Vec<String>) -> (r: Vec<Tag>)
    ensures
        tag_texts(r@) == texts@.map_values(|s: String| s@),
{
    let mut r: Vec<Tag> = Vec::new();
    let mut i: usize = 0;
    while i < texts.len()
        invariant
            i <= texts@.len(),
            tag_texts(r@) == texts@.map_values(|s: String| s@).subrange(0, i as int),
        decreases texts@.len() - i,
    {
        let t = texts[i].clone();
        let ghost before = r@;
        r.push(Tag(t));
        assert(r@ == before.push(Tag(t)));
        assert(tag_texts(r@) == tag_texts(before).push(t@));
        i = i + 1;
        assert(tag_texts(r@) =~= texts@.map_values(|s: String| s@).subrange(0, i as int));
    }
    assert(texts@.map_values(|s: String| s@).subrange(0, i as int) =~= texts@.map_values(
        |s: String| s@,
    ));
    r
}

/// The source of an image as published: the reference, under `post_assets/`.
pub open spec fn published_image_source(url: Seq<char>) -> Seq<char> {
    "post_assets/"@ + url
}

/// Rewrites an image reference of a post body to where post assets are published.
pub fn image_source(url: &str) -> (r: String)
    ensures
        r@ == published_image_source(url@),
{
    String::from_str("post_assets/").concat(url)
}

/// The HTML that pulldown-cmark renders from Markdown text, with
/// strikethrough on, every other extension off, and the source of each image
/// passed through `image_source`.
pub uninterp spec fn markdown_html(text: Seq<char>) -> Seq<char>;

/// Relies on pulldown_cmark's `Parser::new_ext` and `html::push_html`: the
/// HTML depends on the text alone; each image's destination goes through
/// `image_source`. A paragraph of one image is written as `html.rs` writes
/// `Tag::Image` inside `<p>`.
#[verifier::external_body]
fn render_markdown(text: &str) -> (r: String)
    ensures
        r@ == markdown_html(text@),
        text@ == "![alt](pic.png)"@ ==> r@ == "<p><img src=\"post_assets/pic.png\" alt=\"alt\" /></p>\n"@,
{
    let parser = Parser::new_ext(text, Options::ENABLE_STRIKETHROUGH).map(|event| match event {
        Event::Start(MdTag::Image(kind, url, title)) => Event::Start(
            MdTag::Image(kind, image_source(&url).into(), title),
        ),
        other => other,
    });
    let mut out = String::new();
    html::push_html(&mut out, parser);
    out
}

/// The name of the page a post is published as: its file name with the
/// extension replaced by `.html`.
pub open spec fn output_name(path: Seq<char>) -> Seq<char> {
    stem(base_name(path)) + ".html"@
}

/// The name of the page a post is published as.
pub fn output_file_name(path: &str) -> (r: String)
    ensures
        r@ == output_name(path@),
{
    let name = base_name_of(path);
    stem_of(name.as_str()).concat(".html")
}

/// Field `key` is absent or holds text: a field the loader fills in itself
/// must still be text where the front matter gives it.
pub open spec fn optional_text_ok(m: Map<Seq<char>, YamlValue>, key: Seq<char>) -> bool {
    field(m, key) is None || text_field(m, key) is Some
}

/// The front matter holds every field a post needs, well formed.
pub open spec fn post_front_matter_ok(m: Map<Seq<char>, YamlValue>) -> bool {
    &&& text_field(m, "title"@) is Some
    &&& text_field(m, "date"@) matches Some(t) && parsed_timestamp(t) is Some
    &&& text_list_field(m, "tags"@) is Some
    &&& text_field(m, "summary"@) is Some
    &&& flag_field(m, "favorite"@) is Some
    &&& text_field(m, "author"@) is Some
    &&& optional_text_ok(m, "content"@)
    &&& optional_text_ok(m, "file_name"@)
    &&& optional_text_ok(m, "year"@)
}

/// `p` holds the front matter's fields.
pub open spec fn post_shows_fields(p: Post, m: Map<Seq<char>, YamlValue>) -> bool {
    &&& text_field(m, "title"@) == Some(p.title@)
    &&& text_field(m, "date"@) matches Some(t) && parsed_timestamp(t) == Some(p.date.fields())
    &&& p.date.wf()
    &&& text_list_field(m, "tags"@) == Some(tag_texts(p.tags@))
    &&& text_field(m, "summary"@) == Some(p.summary@)
    &&& flag_field(m, "favorite"@) == Some(p.favorite)
    &&& text_field(m, "author"@) == Some(p.author@)
    &&& p.year@ == p.date.year_string()
}

/// The front matter holds every field a listing entry needs, well formed.
pub open spec fn metadata_front_matter_ok(m: Map<Seq<char>, YamlValue>) -> bool {
    &&& text_field(m, "title"@) is Some
    &&& text_field(m, "date"@) matches Some(t) && parsed_timestamp(t) is Some
    &&& text_list_field(m, "tags"@) is Some
    &&& text_field(m, "summary"@) is Some
    &&& text_field(m, "author"@) is Some
    &&& optional_text_ok(m, "file_name"@)
}

/// `e` holds the front matter's fields.
pub open spec fn metadata_shows_fields(e: PostMetadata, m: Map<Seq<char>, YamlValue>) -> bool {
    &&& text_field(m, "title"@) == Some(e.title@)
    &&& text_field(m, "date"@) matches Some(t) && parsed_timestamp(t) == Some(e.date.fields())
    &&& e.date.wf()
    &&& text_list_field(m, "tags"@) == Some(tag_texts(e.tags@))
    &&& text_field(m, "summary"@) == Some(e.summary@)
    &&& text_field(m, "author"@) == Some(e.author@)
}

/// The front matter holds every field the home document needs, well formed.
pub open spec fn home_front_matter_ok(m: Map<Seq<char>, YamlValue>) -> bool {
    &&& text_field(m, "title"@) is Some
    &&& text_field(m, "twitter"@) is Some
    &&& text_field(m, "author"@) is Some
    &&& small_number_field(m, "year"@) is Some
    &&& optional_text_ok(m, "home_content"@)
}

/// `b` holds the front matter's fields, and no posts or assets yet.
pub open spec fn home_shows_fields(b: Blog, m: Map<Seq<char>, YamlValue>) -> bool {
    &&& text_field(m, "title"@) == Some(b.title@)
    &&& text_field(m, "twitter"@) == Some(b.twitter@)
    &&& text_field(m, "author"@) == Some(b.author@)
    &&& small_number_field(m, "year"@) == Some(b.year)
    &&& b.posts@.len() == 0
    &&& b.post_assets@.len() == 0
}

fn read_date(d: &FrontMatterData) -> (r: Result<DateTime, Error>)
    ensures
        r is Ok <==> (text_field(fields_of(*d), "date"@) matches Some(t) && parsed_timestamp(t) is Some),
        r matches Ok(x) ==> x.wf() && (text_field(fields_of(*d), "date"@) matches Some(t)
            && parsed_timestamp(t) == Some(x.fields())),
        r matches Err(e) ==> e is Undefined,
{
    let text = read_text(d, "date")?;
    match DateTime::parse(text.as_str()) {
        Ok(x) => Ok(x),
        Err(m) => Err(Error::Undefined(m)),
    }
}

fn check_optional_text(d: &FrontMatterData, key: &str) -> (r: Result<(), Error>)
    ensures
        r is Ok <==> optional_text_ok(fields_of(*d), key@),
        r matches Err(e) ==> e is Undefined,
{
    match get_field(d, key) {
        None => Ok(()),
        Some(_) => {
            let _text = read_text(d, key)?;
            Ok(())
        },
    }
}

impl Post {
    /// Builds a post from its front matter, its rendered body and the name
    /// of its page.
    pub fn from_front_matter(d: &FrontMatterData, content: String, file_name: String) -> (r: Result<Post, Error>)
        ensures
            r is Ok <==> post_front_matter_ok(fields_of(*d)),
            r matches Err(e) ==> e is Undefined,
            r matches Ok(p) ==> post_shows_fields(p, fields_of(*d)) && p.content == content && p.file_name
                == file_name,
    {
        let title = read_text(d, "title")?;
        let date = read_date(d)?;
        let tags = tags_of(read_text_list(d, "tags")?);
        let summary = read_text(d, "summary")?;
        let favorite = read_flag(d, "favorite")?;
        let author = read_text(d, "author")?;
        check_optional_text(d, "content")?;
        check_optional_text(d, "file_name")?;
        check_optional_text(d, "year")?;
        let year = date.year_text();
        Ok(Post { title, date, tags, summary, content, favorite, file_name, author, year })
    }
}

impl PostMetadata {
    /// Builds a listing entry from a post's front matter and its source file name.
    pub fn from_front_matter(d: &FrontMatterData, file_name: String) -> (r: Result<PostMetadata, Error>)
        ensures
            r is Ok <==> metadata_front_matter_ok(fields_of(*d)),
            r matches Err(e) ==> e is Undefined,
            r matches Ok(e) ==> metadata_shows_fields(e, fields_of(*d)) && e.file_name == file_name,
    {
        let title = read_text(d, "title")?;
        let date = read_date(d)?;
        let tags = tags_of(read_text_list(d, "tags")?);
        let summary = read_text(d, "summary")?;
        let author = read_text(d, "author")?;
        check_optional_text(d, "file_name")?;
        Ok(PostMetadata { title, date, tags, summary, author, file_name })
    }
}

impl Blog {
    /// Builds the home document, without posts or assets, from its front
    /// matter and its rendered body.
    pub fn from_front_matter(d: &FrontMatterData, home_content: String) -> (r: Result<Blog, Error>)
        ensures
            r is Ok <==> home_front_matter_ok(fields_of(*d)),
            r matches Err(e) ==> e is Undefined,
            r matches Ok(b) ==> home_shows_fields(b, fields_of(*d)) && b.home_content == home_content,
    {
        let title = read_text(d, "title")?;
        let twitter = read_text(d, "twitter")?;
        let author = read_text(d, "author")?;
        let year = read_small_number(d, "year")?;
        check_optional_text(d, "home_content")?;
        Ok(Blog { title, twitter, author, year, home_content, posts: Vec::new(), post_assets: Vec::new() })
    }
}

/// The fields of a document's front matter: none where the document has no
/// delimiter pair or its block holds no YAML data, `Some(None)` where the
/// data is not a mapping.
pub open spec fn document_fields(text: Seq<char>) -> Option<Option<Map<Seq<char>, YamlValue>>> {
    if closing_delimiter(text) is None {
        None
    } else {
        front_matter_fields(split_spec(text).1)
    }
}

/// Splits a document and reads its front matter. Without a delimiter pair, or
/// without YAML data between them, the document at `path` has no front
/// matter; data that is not a mapping is malformed.
fn front_matter_and_body(path: &str, text: &str) -> (r: Result<(FrontMatterData, String), Error>)
    ensures
        document_fields(text@) is None ==> (r matches Err(Error::NoFrontMatter(p)) && p@ == path@),
        document_fields(text@) == Some(None::<Map<Seq<char>, YamlValue>>) ==> (r matches Err(e) && e is Undefined),
        r matches Err(Error::NoFrontMatter(p)) ==> p@ == path@ && document_fields(text@) is None,
        r matches Err(e) ==> (e is NoFrontMatter || e is Undefined),
        r is Ok <==> document_fields(text@) matches Some(Some(_)),
        r matches Ok(x) ==> document_fields(text@) == Some(Some(fields_of(x.0))) && x.1@ == split_spec(text@).0,
{
    let (body, front) = split_content(text);
    if front.unicode_len() == 0 {
        return Err(Error::NoFrontMatter(String::from_str(path)));
    }
    match parse_front_matter(front.as_str()) {
        FrontMatter::Fields(d) => Ok((d, body)),
        FrontMatter::NotMapping => Err(Error::Undefined(String::from_str("invalid type: front matter is not a mapping"))),
        FrontMatter::Absent => Err(Error::NoFrontMatter(String::from_str(path))),
    }
}

/// Loads a post from the text of its source file at `post_path`.
pub fn read_post_file(post_path: &str, text: &str) -> (r: Result<Post, Error>)
    ensures
        r is Ok <==> (document_fields(text@) matches Some(Some(m)) && post_front_matter_ok(m)),
        document_fields(text@) is None ==> (r matches Err(Error::NoFrontMatter(p)) && p@ == post_path@),
        r matches Err(Error::NoFrontMatter(p)) ==> p@ == post_path@,
        document_fields(text@) is Some ==> !(r matches Err(Error::NoFrontMatter(_))),
        r matches Ok(p) ==> {
            &&& document_fields(text@) matches Some(Some(m)) && post_shows_fields(p, m)
            &&& p.content@ == markdown_html(split_spec(text@).0)
            &&& p.file_name@ == output_name(post_path@)
        },
{
    let (d, body) = front_matter_and_body(post_path, text)?;
    let content = render_markdown(body.as_str());
    Post::from_front_matter(&d, content, output_file_name(post_path))
}

/// Loads a post's listing entry from the text of its source file at
/// `post_path`; the entry keeps the source file's name.
pub fn read_post_metadata(post_path: &str, text: &str) -> (r: Result<PostMetadata, Error>)
    ensures
        r is Ok <==> (document_fields(text@) matches Some(Some(m)) && metadata_front_matter_ok(m)),
        document_fields(text@) is None ==> (r matches Err(Error::NoFrontMatter(p)) && p@ == post_path@),
        r matches Err(Error::NoFrontMatter(p)) ==> p@ == post_path@,
        document_fields(text@) is Some ==> !(r matches Err(Error::NoFrontMatter(_))),
        r matches Ok(e) ==> {
            &&& document_fields(text@) matches Some(Some(m)) && metadata_shows_fields(e, m)
            &&& e.file_name@ == base_name(post_path@)
        },
{
    let (d, _body) = front_matter_and_body(post_path, text)?;
    PostMetadata::from_front_matter(&d, base_name_of(post_path))
}

/// Loads the home document from the text of its file at `blog_path`.
pub fn read_blog_file(blog_path: &str, text: &str) -> (r: Result<Blog, Error>)
    ensures
        r is Ok <==> (document_fields(text@) matches Some(Some(m)) && home_front_matter_ok(m)),
        document_fields(text@) is None ==> (r matches Err(Error::NoFrontMatter(p)) && p@ == blog_path@),
        r matches Err(Error::NoFrontMatter(p)) ==> p@ == blog_path@,
        document_fields(text@) is Some ==> !(r matches Err(Error::NoFrontMatter(_))),
        r matches Ok(b) ==> {
            &&& document_fields(text@) matches Some(Some(m)) && home_shows_fields(b, m)
            &&& b.home_content@ == markdown_html(split_spec(text@).0)
        },
{
    let (d, body) = front_matter_and_body(blog_path, text)?;
    let content = render_markdown(body.as_str());
    Blog::from_front_matter(&d, content)
}

/// How a file beside the posts is treated.
#[derive(Clone, Copy, Debug, PartialEq, Eq, Structural)]
pub enum EntryKind {
    /// A post source, with extension `md`.
    Content,
    /// A post asset, with any other extension.
    Asset,
    /// A file without extension, left alone.
    Skipped,
}

/// How the file at `path` is treated, by the extension of its name.
pub open spec fn entry_kind(path: Seq<char>) -> EntryKind {
    match extension(base_name(path)) {
        Some(e) => if e == "md"@ {
            EntryKind::Content
        } else {
            EntryKind::Asset
        },
        None => EntryKind::Skipped,
    }
}

/// How the file at `path` is treated.
pub fn classify_entry(path: &str) -> (r: EntryKind)
    ensures
        r == entry_kind(path@),
{
    let name = base_name_of(path);
    match extension_of(name.as_str()) {
        Some(e) => if same_text(e.as_str(), "md") {
            EntryKind::Content
        } else {
            EntryKind::Asset
        },
        None => EntryKind::Skipped,
    }
}

/// A loaded file from beside the posts.
#[derive(Clone, Debug)]
pub enum PostItem {
    Content(Post),
    Asset(String),
}

/// The posts among the items, in order.
pub open spec fn item_posts(s: Seq<PostItem>) -> Seq<Post>
    decreases s.len(),
{
    if s.len() == 0 {
        Seq::empty()
    } else {
        let r = item_posts(s.drop_last());
        match s.last() {
            PostItem::Content(p) => r.push(p),
            PostItem::Asset(_) => r,
        }
    }
}

/// The asset paths among the items, in order.
pub open spec fn item_assets(s: Seq<PostItem>) -> Seq<Seq<char>>
    decreases s.len(),
{
    if s.len() == 0 {
        Seq::empty()
    } else {
        let r = item_assets(s.drop_last());
        match s.last() {
            PostItem::Content(_) => r,
            PostItem::Asset(a) => r.push(a@),
        }
    }
}

impl Blog {
    /// The blog: the home document with the loaded posts, newest first, and
    /// the post assets in the order they were found.
    pub fn read_from(home: Blog, items: Vec<PostItem>) -> (r: Blog)
        ensures
            stable_newest_first(item_posts(items@), r.posts@),
            r.posts@.len() == item_posts(items@).len(),
            r.post_assets@.map_values(|a: String| a@) == item_assets(items@),
            r.title == home.title,
            r.twitter == home.twitter,
            r.author == home.author,
            r.year == home.year,
            r.home_content == home.home_content,
    {
        let ghost orig = items@;
        let n = items.len();
        let mut rest = items;
        let mut posts: Vec<Post> = Vec::new();
        let mut assets: Vec<String> = Vec::new();
        while rest.len() > 0
            invariant
                n == orig.len(),
                rest@.len() <= n,
                rest@ == orig.subrange(n - rest@.len(), n as int),
                posts@ == item_posts(orig.subrange(0, n - rest@.len())),
                assets@.map_values(|a: String| a@) == item_assets(orig.subrange(0, n - rest@.len())),
            decreases rest.len(),
        {
            let ghost taken = n - rest@.len();
            let item = rest.remove(0);
            proof {
                let next = orig.subrange(0, taken + 1);
                assert(next.drop_last() == orig.subrange(0, taken));
                assert(next.last() == item);
            }
            match item {
                PostItem::Content(p) => posts.push(p),
                PostItem::Asset(a) => {
                    assets.push(a);
                    assert(assets@.map_values(|a: String| a@) =~= item_assets(
                        orig.subrange(0, taken + 1),
                    ));
                },
            }
        }
        assert(orig.subrange(0, n as int) == orig);
        Blog {
            title: home.title,
            twitter: home.twitter,
            author: home.author,
            year: home.year,
            home_content: home.home_content,
            posts: sort_newest_first(posts),
            post_assets: assets,
        }
    }
}

} // verus!
