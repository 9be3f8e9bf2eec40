//! The template set and the flat models that templates are rendered from.
use vstd::prelude::*;
use std::collections::hash_map::RandomState;
use crate::content::{self, tag_texts, Blog as ContentBlog, Post as ContentPost, PostMetadata};
use crate::errors::Error;
use crate::order::{sort_newest_first, stable_newest_first};
use crate::text::{extension, extension_of, same_text, stem, stem_of};

pub use crate::date::DateTime;

verus! {

/// The name of the home page template.
pub const MAIN_TEMPLATE: &'static str = "index.html";

/// The name of the post page template.
pub const POST_TEMPLATE: &'static str = "post.html";

/// Where a post page links back to the home page when published as files.
pub const PACK_ROOT_PAGE: &'static str = "index.html";

/// Where a post page links back to the home page when served.
pub const SERVE_ROOT_PAGE: &'static str = "/";

#[verifier::external_type_specification]
#[verifier::external_body]
#[verifier::reject_recursive_types(H)]
pub struct ExRamhorns<H>(ramhorns::Ramhorns<H>);

/// The names of the templates that a loaded set holds.
pub uninterp spec fn template_names(templates: ramhorns::Ramhorns<RandomState>) -> Set<Seq<char>>;

/// Relies on ramhorns' `Ramhorns::get`: whether the set holds a template of
/// that name.
#[verifier::external_body]
fn has_template(templates: &ramhorns::Ramhorns<RandomState>, name: &str) -> (r: bool)
    ensures
        r == template_names(*templates).contains(name@),
{
    templates.get(name).is_some()
}

/// A label as a template shows it.
#[derive(Clone, Debug)]
pub struct Tag(pub String);

/// What the post page template, and each entry of the home page's listing,
/// is rendered from.
#[derive(Clone, Debug)]
pub struct PostTemplateModel {
    pub title: String,
    pub date: DateTime,
    pub tags: Vec<Tag>,
    pub summary: String,
    pub root_page: String,
    pub content: String,
    pub favorite: bool,
    pub file_name: String,
    pub author: String,
    pub year: String,
}

/// What the home page template is rendered from.
#[derive(Clone, Debug)]
pub struct MainTemplateModel {
    pub title: String,
    pub twitter: String,
    pub home_content: String,
    pub author: String,
    pub year: u16,
    pub posts: Vec<PostTemplateModel>,
}

/// The texts of a sequence of template tags.
pub open spec fn model_tag_texts(tags: Seq<Tag>) -> Seq<Seq<char>> {
    tags.map_values(|t: Tag| t.0@)
}

fn model_tags(tags: &Vec<content::Tag>) -> (r: Vec<Tag>)
    ensures
        model_tag_texts(r@) == tag_texts(tags@),
{
    let mut r: Vec<Tag> = Vec::new();
    let mut i: usize = 0;
    while i < tags.len()
        invariant
            i <= tags@.len(),
            model_tag_texts(r@) == tag_texts(tags@).subrange(0, i as int),
        decreases tags@.len() - i,
    {
        let t = tags[i].0.clone();
        let ghost before = r@;
        r.push(Tag(t));
        assert(r@ == before.push(Tag(t)));
        assert(model_tag_texts(r@) == model_tag_texts(before).push(t@));
        i = i + 1;
        assert(model_tag_texts(r@) =~= tag_texts(tags@).subrange(0, i as int));
    }
    assert(tag_texts(tags@).subrange(0, i as int) =~= tag_texts(tags@));
    r
}

/// `m` shows post `p` with a link back to `root_page`.
pub open spec fn models_post(m: PostTemplateModel, p: ContentPost, root_page: Seq<char>) -> bool {
    &&& m.title@ == p.title@
    &&& m.date == p.date
    &&& model_tag_texts(m.tags@) == tag_texts(p.tags@)
    &&& m.summary@ == p.summary@
    &&& m.root_page@ == root_page
    &&& m.content@ == p.content@
    &&& m.favorite == p.favorite
    &&& m.file_name@ == p.file_name@
    &&& m.author@ == p.author@
    &&& m.year@ == p.year@
}

/// Two models agree in everything but the link back to the home page.
pub open spec fn same_but_root_page(a: PostTemplateModel, b: PostTemplateModel) -> bool {
    &&& a.title@ == b.title@
    &&& a.date == b.date
    &&& model_tag_texts(a.tags@) == model_tag_texts(b.tags@)
    &&& a.summary@ == b.summary@
    &&& a.content@ == b.content@
    &&& a.favorite == b.favorite
    &&& a.file_name@ == b.file_name@
    &&& a.author@ == b.author@
    &&& a.year@ == b.year@
}

/// The model of a post page, linking back to `root_page`.
pub fn post_model(post: &ContentPost, root_page: &str) -> (r: PostTemplateModel)
    ensures
        models_post(r, *post, root_page@),
{
    PostTemplateModel {
        title: post.title.clone(),
        date: post.date,
        tags: model_tags(&post.tags),
        summary: post.summary.clone(),
        root_page: String::from_str(root_page),
        content: post.content.clone(),
        favorite: post.favorite,
        file_name: post.file_name.clone(),
        author: post.author.clone(),
        year: post.year.clone(),
    }
}

/// The model of a post page as published to files: it links back to `index.html`.
pub fn pack_post_model(post: &ContentPost) -> (r: PostTemplateModel)
    ensures
        models_post(r, *post, PACK_ROOT_PAGE@),
{
    post_model(post, PACK_ROOT_PAGE)
}

/// The model of a post page as served: it links back to `/`.
pub fn generate_post_content(post: &ContentPost) -> (r: PostTemplateModel)
    ensures
        models_post(r, *post, SERVE_ROOT_PAGE@),
{
    post_model(post, SERVE_ROOT_PAGE)
}

/// A post's page is the same whether published to files or served, but for
/// the link back to the home page: any two models of one post agree in every
/// other field.
pub proof fn lemma_modes_agree_but_root_page(
    post: ContentPost,
    packed: PostTemplateModel,
    served: PostTemplateModel,
)
    requires
        models_post(packed, post, PACK_ROOT_PAGE@),
        models_post(served, post, SERVE_ROOT_PAGE@),
    ensures
        same_but_root_page(packed, served),
        packed.root_page@ == PACK_ROOT_PAGE@,
        served.root_page@ == SERVE_ROOT_PAGE@,
{
}

/// A source file name without its `.md` extension.
pub open spec fn without_md(name: Seq<char>) -> Seq<char> {
    if extension(name) == Some("md"@) {
        stem(name)
    } else {
        name
    }
}

/// The route a listing entry links to: the source name, without `.md`, under `/posts/`.
pub open spec fn post_route(name: Seq<char>) -> Seq<char> {
    "/posts/"@ + without_md(name)
}

/// The route a listing entry links to.
pub fn post_route_of(name: &str) -> (r: String)
    ensures
        r@ == post_route(name@),
{
    let bare = match extension_of(name) {
        Some(e) => if same_text(e.as_str(), "md") {
            stem_of(name)
        } else {
            String::from_str(name)
        },
        None => String::from_str(name),
    };
    String::from_str("/posts/").concat(bare.as_str())
}

/// `m` is the listing entry of `p`: no body, not a favorite, no year, and
/// the post's route as its file name.
pub open spec fn lists_post(m: PostTemplateModel, p: PostMetadata) -> bool {
    &&& m.title@ == p.title@
    &&& m.date == p.date
    &&& model_tag_texts(m.tags@) == tag_texts(p.tags@)
    &&& m.summary@ == p.summary@
    &&& m.root_page@ == SERVE_ROOT_PAGE@
    &&& m.content@ == Seq::<char>::empty()
    &&& !m.favorite
    &&& m.file_name@ == post_route(p.file_name@)
    &&& m.author@ == p.author@
    &&& m.year@ == Seq::<char>::empty()
}

/// The listing entry of a post on the served home page.
pub fn listing_model(m: &PostMetadata) -> (r: PostTemplateModel)
    ensures
        lists_post(r, *m),
{
    PostTemplateModel {
        title: m.title.clone(),
        date: m.date,
        tags: model_tags(&m.tags),
        summary: m.summary.clone(),
        root_page: String::from_str(SERVE_ROOT_PAGE),
        content: String::new(),
        favorite: false,
        file_name: post_route_of(m.file_name.as_str()),
        author: m.author.clone(),
        year: String::new(),
    }
}

/// `m` shows the home document `b` with the given post entries.
pub open spec fn models_home(m: MainTemplateModel, b: ContentBlog) -> bool {
    &&& m.title@ == b.title@
    &&& m.twitter@ == b.twitter@
    &&& m.home_content@ == b.home_content@
    &&& m.author@ == b.author@
    &&& m.year == b.year
}

/// The model of the served home page: the home document and a listing of
/// the posts, newest first.
pub fn generate_main_page_content(home: &ContentBlog, posts: Vec<PostMetadata>) -> (r: MainTemplateModel)
    ensures
        models_home(r, *home),
        r.posts@.len() == posts@.len(),
        exists|sorted: Seq<PostMetadata>| {
            &&& stable_newest_first(posts@, sorted)
            &&& sorted.len() == r.posts@.len()
            &&& forall|i: int| 0 <= i < sorted.len() ==> lists_post(#[trigger] r.posts@[i], sorted[i])
        },
{
    let sorted = sort_newest_first(posts);
    let mut models: Vec<PostTemplateModel> = Vec::new();
    let mut i: usize = 0;
    while i < sorted.len()
        invariant
            i <= sorted@.len(),
            models@.len() == i,
            forall|k: int| 0 <= k < i ==> lists_post(#[trigger] models@[k], sorted@[k]),
        decreases sorted@.len() - i,
    {
        models.push(listing_model(&sorted[i]));
        i = i + 1;
    }
    MainTemplateModel {
        title: home.title.clone(),
        twitter: home.twitter.clone(),
        home_content: home.home_content.clone(),
        author: home.author.clone(),
        year: home.year,
        posts: models,
    }
}

/// The model of the published home page: the home document and every post,
/// in the blog's order, each linking back to `index.html`.
pub fn pack_main_model(blog: &ContentBlog) -> (r: MainTemplateModel)
    ensures
        models_home(r, *blog),
        r.posts@.len() == blog.posts@.len(),
        forall|i: int| 0 <= i < r.posts@.len() ==> models_post(#[trigger] r.posts@[i], blog.posts@[i], PACK_ROOT_PAGE@),
{
    let mut models: Vec<PostTemplateModel> = Vec::new();
    let mut i: usize = 0;
    while i < blog.posts.len()
        invariant
            i <= blog.posts@.len(),
            models@.len() == i,
            forall|k: int| 0 <= k < i ==> models_post(#[trigger] models@[k], blog.posts@[k], PACK_ROOT_PAGE@),
        decreases blog.posts@.len() - i,
    {
        models.push(pack_post_model(&blog.posts[i]));
        i = i + 1;
    }
    MainTemplateModel {
        title: blog.title.clone(),
        twitter: blog.twitter.clone(),
        home_content: blog.home_content.clone(),
        author: blog.author.clone(),
        year: blog.year,
        posts: models,
    }
}

/// The home page template.
pub struct Main {
    templates: ramhorns::Ramhorns<RandomState>,
}

impl Main {
    /// The template set held.
    pub closed spec fn template_set(&self) -> ramhorns::Ramhorns<RandomState> {
        self.templates
    }

    /// Takes a loaded template set that must hold the home page template.
    pub fn read_from_dir(templates: ramhorns::Ramhorns<RandomState>) -> (r: Result<Main, Error>)
        ensures
            r is Ok <==> template_names(templates).contains(MAIN_TEMPLATE@),
            r matches Ok(m) ==> m.template_set() == templates,
            r matches Err(e) ==> e is NoBlogTemplateFound,
    {
        if !has_template(&templates, MAIN_TEMPLATE) {
            return Err(Error::NoBlogTemplateFound);
        }
        Ok(Main { templates })
    }

    /// The template set, for rendering.
    pub fn templates(&self) -> (r: &ramhorns::Ramhorns<RandomState>)
        ensures
            *r == self.template_set(),
    {
        &self.templates
    }
}

/// The post page template.
pub struct Post {
    templates: ramhorns::Ramhorns<RandomState>,
}

impl Post {
    /// The template set held.
    pub closed spec fn template_set(&self) -> ramhorns::Ramhorns<RandomState> {
        self.templates
    }

    /// Takes a loaded template set that must hold the post page template.
    pub fn read_from_dir(templates: ramhorns::Ramhorns<RandomState>) -> (r: Result<Post, Error>)
        ensures
            r is Ok <==> template_names(templates).contains(POST_TEMPLATE@),
            r matches Ok(p) ==> p.template_set() == templates,
            r matches Err(e) ==> e is NoPostsTemplateFound,
    {
        if !has_template(&templates, POST_TEMPLATE) {
            return Err(Error::NoPostsTemplateFound);
        }
        Ok(Post { templates })
    }

    /// The template set, for rendering.
    pub fn templates(&self) -> (r: &ramhorns::Ramhorns<RandomState>)
        ensures
            *r == self.template_set(),
    {
        &self.templates
    }
}

/// Both templates of the blog.
pub struct Blog {
    main: Main,
    post: Post,
}

impl Blog {
    /// Takes two loaded copies of the template set; the first must hold the
    /// home page template, the second the post page template.
    pub fn read_from_dir(main: ramhorns::Ramhorns<RandomState>, post: ramhorns::Ramhorns<RandomState>) -> (r: Result<Blog, Error>)
        ensures
            r is Ok <==> template_names(main).contains(MAIN_TEMPLATE@) && template_names(post).contains(
                POST_TEMPLATE@,
            ),
            r matches Err(e) ==> if template_names(main).contains(MAIN_TEMPLATE@) {
                e is NoPostsTemplateFound
            } else {
                e is NoBlogTemplateFound
            },
    {
        let main = Main::read_from_dir(main)?;
        let post = Post::read_from_dir(post)?;
        Ok(Blog { main, post })
    }

    /// The two templates, apart.
    pub fn parts(self) -> (Main, Post) {
        (self.main, self.post)
    }
}

} // verus!
