//! Resolving requests of the live blog to what answers them.
use vstd::prelude::*;
use crate::text::{
    base_name_of, begins_with, file_name, file_name_of, chars_of, climbs, extension, extension_of, has_parent_segment,
    has_prefix, same_text, slice_of,
};
use crate::text::{decimal, digits};

verus! {

/// Where the template's own assets are served.
pub const ASSETS_ROUTE: &'static str = "/assets";

/// Where posts are served.
pub const POSTS_ROUTE: &'static str = "/posts";

/// Where post assets are served.
pub const POST_ASSETS_ROUTE: &'static str = "/posts/post_assets";

/// The directory of the content that holds the posts.
pub const POST_SUBDIR: &'static str = "posts";

/// The directory of the templates that holds their assets.
pub const ASSETS_SUBDIR: &'static str = "assets";

/// How much the server logs.
#[derive(Copy, Clone, PartialEq, Eq, PartialOrd, Ord, Debug)]
pub enum LogLevel {
    Off,
    Error,
    Info,
    Debug,
}

/// The status of a response.
#[derive(Copy, Clone, Debug, PartialEq, Eq, Structural)]
pub enum Status {
    Success,
    BadRequest,
    NotFound,
    InternalServerError,
}

impl Status {
    /// The HTTP status code.
    pub fn code(&self) -> (r: u16)
        ensures
            *self is Success ==> r == 200,
            *self is BadRequest ==> r == 400,
            *self is NotFound ==> r == 404,
            *self is InternalServerError ==> r == 500,
    {
        match self {
            Status::Success => 200,
            Status::BadRequest => 400,
            Status::NotFound => 404,
            Status::InternalServerError => 500,
        }
    }
}

/// What remains of `uri` below `route`: empty for the route itself, the
/// text after `route/` for a path beneath it, none for any other path.
pub open spec fn under_route(route: Seq<char>, uri: Seq<char>) -> Option<Seq<char>> {
    if uri == route {
        Some(Seq::empty())
    } else if uri.len() > route.len() && begins_with(uri, route) && uri[route.len() as int] == '/' {
        Some(uri.subrange(route.len() as int + 1, uri.len() as int))
    } else {
        None
    }
}

/// What remains of `uri` below `route`.
pub fn strip_route(route: &str, uri: &str) -> (r: Option<String>)
    ensures
        r matches Some(s) ==> under_route(route@, uri@) == Some(s@),
        r is None ==> under_route(route@, uri@) is None,
{
    if same_text(route, uri) {
        return Some(String::new());
    }
    let u = chars_of(uri);
    let p = chars_of(route);
    if u.len() > p.len() && has_prefix(&u, &p) && u[p.len()] == '/' {
        Some(slice_of(uri, p.len() + 1, u.len()))
    } else {
        None
    }
}

/// The extension is in the list.
pub open spec fn excluded(list: Seq<String>, e: Seq<char>) -> bool {
    exists|i: int| 0 <= i < list.len() && (#[trigger] list[i])@ == e
}

fn is_excluded(list: &Vec<String>, e: &str) -> (r: bool)
    ensures
        r == excluded(list@, e@),
{
    let mut i: usize = 0;
    while i < list.len()
        invariant
            i <= list@.len(),
            forall|j: int| 0 <= j < i ==> (#[trigger] list@[j])@ != e@,
        decreases list@.len() - i,
    {
        if same_text(list[i].as_str(), e) {
            return true;
        }
        i = i + 1;
    }
    false
}

/// The file a static request asks for, relative to the directory served
/// under `route`, or the status that refuses it: a path outside the route is
/// a bad request; the route itself, a requested file name with an excluded
/// extension, an absolute rest or a `..` segment are not found.
pub open spec fn static_target(route: Seq<char>, uri: Seq<char>, exclude: Seq<String>) -> Result<Seq<char>, Status> {
    match under_route(route, uri) {
        None => Err(Status::BadRequest),
        Some(rest) => if rest.len() == 0 || rest[0] == '/' {
            Err(Status::NotFound)
        } else if extension(file_name(uri)) matches Some(e) && excluded(exclude, e) {
            Err(Status::NotFound)
        } else if climbs(rest) {
            Err(Status::NotFound)
        } else {
            Ok(rest)
        },
    }
}

/// Resolves a static request below `route` to a relative file path.
pub fn serve_static(route: &str, uri: &str, exclude: &Vec<String>) -> (r: Result<String, Status>)
    ensures
        r matches Ok(p) ==> static_target(route@, uri@, exclude@) == Ok::<Seq<char>, Status>(p@),
        r matches Err(s) ==> static_target(route@, uri@, exclude@) == Err::<Seq<char>, Status>(s),
{
    let rest = match strip_route(route, uri) {
        Some(rest) => rest,
        None => return Err(Status::BadRequest),
    };
    let chars = chars_of(rest.as_str());
    if chars.len() == 0 || chars[0] == '/' {
        return Err(Status::NotFound);
    }
    let name = file_name_of(uri);
    if let Some(e) = extension_of(name.as_str()) {
        if is_excluded(exclude, e.as_str()) {
            return Err(Status::NotFound);
        }
    }
    if has_parent_segment(&chars) {
        return Err(Status::NotFound);
    }
    Ok(rest)
}

/// The post a request asks for, by its file name (trailing `/` ignored), or the status that
/// refuses it: a `.md` path is not found; a path outside the posts route is
/// a bad request.
pub open spec fn post_target(uri: Seq<char>) -> Result<Seq<char>, Status> {
    if extension(file_name(uri)) == Some("md"@) {
        Err(Status::NotFound)
    } else {
        match under_route(POSTS_ROUTE@, uri) {
            None => Err(Status::BadRequest),
            Some(rest) => Ok(file_name(rest)),
        }
    }
}

/// Resolves a post request to the post's base file name.
pub fn serve_post(uri: &str) -> (r: Result<String, Status>)
    ensures
        r matches Ok(p) ==> post_target(uri@) == Ok::<Seq<char>, Status>(p@),
        r matches Err(s) ==> post_target(uri@) == Err::<Seq<char>, Status>(s),
{
    let name = file_name_of(uri);
    if let Some(e) = extension_of(name.as_str()) {
        if same_text(e.as_str(), "md") {
            return Err(Status::NotFound);
        }
    }
    match strip_route(POSTS_ROUTE, uri) {
        Some(rest) => Ok(file_name_of(rest.as_str())),
        None => Err(Status::BadRequest),
    }
}

/// Whether a request to the home page route asks for the home page itself:
/// only `/` (or the empty path) does; anything else is not found.
pub fn serve_main_page(uri: &str) -> (r: bool)
    ensures
        r == (uri@ == "/"@ || uri@ == ""@),
{
    same_text(uri, "/") || same_text(uri, "")
}

/// The source file of a post, by its base name, in the content directory.
pub open spec fn post_source(content_dir: Seq<char>, name: Seq<char>) -> Seq<char> {
    content_dir + "/"@ + POST_SUBDIR@ + "/"@ + name + ".md"@
}

/// The source file of a post, by its base name, in the content directory.
pub fn post_source_path(content_dir: &str, name: &str) -> (r: String)
    ensures
        r@ == post_source(content_dir@, name@),
{
    String::from_str(content_dir).concat("/").concat(POST_SUBDIR).concat("/").concat(name).concat(".md")
}

/// The handler that a request goes to, by the longest route it lies under.
#[derive(Copy, Clone, Debug, PartialEq, Eq, Structural)]
pub enum Route {
    Home,
    Assets,
    Posts,
    PostAssets,
}

/// The handler for `uri`.
pub open spec fn route_for(uri: Seq<char>) -> Route {
    if under_route(POST_ASSETS_ROUTE@, uri) is Some {
        Route::PostAssets
    } else if under_route(POSTS_ROUTE@, uri) is Some {
        Route::Posts
    } else if under_route(ASSETS_ROUTE@, uri) is Some {
        Route::Assets
    } else {
        Route::Home
    }
}

/// Picks the handler for `uri`.
pub fn dispatch(uri: &str) -> (r: Route)
    ensures
        r == route_for(uri@),
{
    if strip_route(POST_ASSETS_ROUTE, uri).is_some() {
        Route::PostAssets
    } else if strip_route(POSTS_ROUTE, uri).is_some() {
        Route::Posts
    } else if strip_route(ASSETS_ROUTE, uri).is_some() {
        Route::Assets
    } else {
        Route::Home
    }
}

/// A header of a response.
#[derive(Clone, Debug)]
pub struct Header {
    pub name: String,
    pub value: String,
}

/// The media type that mime_guess gives a path, by its extension;
/// `application/octet-stream` where it knows none.
pub uninterp spec fn guessed_mime(path: Seq<char>) -> Seq<char>;

/// Relies on mime_guess's `from_path(..).first_or_octet_stream()`: the type
/// depends on the path alone.
#[verifier::external_body]
fn guess_mime(path: &str) -> (r: String)
    ensures
        r@ == guessed_mime(path@),
{
    mime_guess::from_path(path).first_or_octet_stream().to_string()
}

/// The headers of a static file's response: its length and its media type.
pub fn static_headers(path: &str, size: u64) -> (r: Vec<Header>)
    ensures
        r@.len() == 2,
        r@[0].name@ == "Content-Length"@,
        r@[0].value@ == digits(size as nat),
        r@[1].name@ == "Content-Type"@,
        r@[1].value@ == guessed_mime(path@),
{
    let mut r: Vec<Header> = Vec::new();
    r.push(Header { name: String::from_str("Content-Length"), value: decimal(size) });
    r.push(Header { name: String::from_str("Content-Type"), value: guess_mime(path) });
    r
}

/// What looking up a static file found.
#[derive(Copy, Clone, Debug, PartialEq, Eq, Structural)]
pub enum FileLookup {
    /// The file is there, with this size in bytes.
    Found(u64),
    /// There is no such file.
    Missing,
    /// The lookup failed otherwise.
    Failed,
}

/// The status of a static file's response, by what the lookup found.
pub fn lookup_status(found: FileLookup) -> (r: Status)
    ensures
        found is Found ==> r is Success,
        found is Missing ==> r is NotFound,
        found is Failed ==> r is InternalServerError,
{
    match found {
        FileLookup::Found(_) => Status::Success,
        FileLookup::Missing => Status::NotFound,
        FileLookup::Failed => Status::InternalServerError,
    }
}

/// The extensions that static requests never serve: `md`.
pub fn default_exclusions() -> (r: Vec<String>)
    ensures
        r@.len() == 1,
        r@[0]@ == "md"@,
        excluded(r@, "md"@),
{
    let mut r: Vec<String> = Vec::new();
    r.push(String::from_str("md"));
    assert(r@[0]@ == "md"@);
    r
}

/// A request for a `.md` file under the posts route, or under a static
/// route whose exclusions hold `md`, is not found, whatever is on disk.
pub proof fn lemma_md_requests_not_found(uri: Seq<char>, route: Seq<char>, exclude: Seq<String>)
    requires
        extension(file_name(uri)) == Some("md"@),
        excluded(exclude, "md"@),
        under_route(route, uri) is Some,
    ensures
        post_target(uri) == Err::<Seq<char>, Status>(Status::NotFound),
        static_target(route, uri, exclude) == Err::<Seq<char>, Status>(Status::NotFound),
{
}

/// A request for a static route itself, with or without a trailing `/`, is
/// not found.
pub proof fn lemma_bare_route_not_found(route: Seq<char>, exclude: Seq<String>)
    ensures
        static_target(route, route, exclude) == Err::<Seq<char>, Status>(Status::NotFound),
        static_target(route, route + "/"@, exclude) == Err::<Seq<char>, Status>(Status::NotFound),
{
    let slashed = route + "/"@;
    reveal_strlit("/");
    assert(slashed.subrange(0, route.len() as int) == route);
    assert(slashed[route.len() as int] == '/');
    if slashed == route {
        assert(slashed.len() == route.len());
    } else {
        assert(under_route(route, slashed) == Some(slashed.subrange(route.len() as int + 1, slashed.len() as int)));
        assert(slashed.subrange(route.len() as int + 1, slashed.len() as int) =~= Seq::<char>::empty());
    }
}

} // verus!
