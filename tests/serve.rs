use wrustblog::serve::{
    default_exclusions, dispatch, lookup_status, post_source_path, serve_main_page, serve_post, serve_static,
    static_headers, FileLookup, Route, Status, ASSETS_ROUTE, POST_ASSETS_ROUTE,
};

#[test]
fn md_files_are_never_served_as_posts() {
    assert_eq!(serve_post("/posts/post-1.md"), Err(Status::NotFound));
    assert_eq!(serve_post("/posts/missing.md"), Err(Status::NotFound));
}

#[test]
fn md_files_are_never_served_as_assets() {
    let ex = default_exclusions();
    assert_eq!(serve_static(ASSETS_ROUTE, "/assets/readme.md", &ex), Err(Status::NotFound));
    assert_eq!(serve_static(POST_ASSETS_ROUTE, "/posts/post_assets/post-1.md", &ex), Err(Status::NotFound));
}

#[test]
fn bare_static_routes_are_not_found() {
    let ex = default_exclusions();
    assert_eq!(serve_static(ASSETS_ROUTE, "/assets", &ex), Err(Status::NotFound));
    assert_eq!(serve_static(ASSETS_ROUTE, "/assets/", &ex), Err(Status::NotFound));
    assert_eq!(serve_static(POST_ASSETS_ROUTE, "/posts/post_assets", &ex), Err(Status::NotFound));
}

#[test]
fn static_files_resolve_below_their_route() {
    let ex = default_exclusions();
    assert_eq!(serve_static(ASSETS_ROUTE, "/assets/css/site.css", &ex), Ok("css/site.css".to_string()));
    assert_eq!(serve_static(POST_ASSETS_ROUTE, "/posts/post_assets/pic.png", &ex), Ok("pic.png".to_string()));
}

#[test]
fn static_requests_outside_route_are_bad() {
    let ex = default_exclusions();
    assert_eq!(serve_static(ASSETS_ROUTE, "/other/x.css", &ex), Err(Status::BadRequest));
    assert_eq!(serve_static(ASSETS_ROUTE, "/assetsx/x.css", &ex), Err(Status::BadRequest));
}

#[test]
fn static_requests_cannot_climb_out() {
    let ex = default_exclusions();
    assert_eq!(serve_static(ASSETS_ROUTE, "/assets/../secret.txt", &ex), Err(Status::NotFound));
    assert_eq!(serve_static(ASSETS_ROUTE, "/assets/a/../../b", &ex), Err(Status::NotFound));
    assert_eq!(serve_static(ASSETS_ROUTE, "/assets//etc/passwd", &ex), Err(Status::NotFound));
    assert_eq!(serve_static(ASSETS_ROUTE, "/assets/a..b.txt", &ex), Ok("a..b.txt".to_string()));
}

#[test]
fn post_requests_resolve_to_base_name() {
    assert_eq!(serve_post("/posts/post-1"), Ok("post-1".to_string()));
    assert_eq!(serve_post("/posts/a/post-2"), Ok("post-2".to_string()));
    assert_eq!(serve_post("/elsewhere/post-1"), Err(Status::BadRequest));
}

#[test]
fn main_page_only_at_root() {
    assert!(serve_main_page("/"));
    assert!(serve_main_page(""));
    assert!(!serve_main_page("/index.html"));
}

#[test]
fn requests_dispatch_to_longest_route() {
    assert_eq!(dispatch("/"), Route::Home);
    assert_eq!(dispatch("/about"), Route::Home);
    assert_eq!(dispatch("/assets/x.css"), Route::Assets);
    assert_eq!(dispatch("/posts/post-1"), Route::Posts);
    assert_eq!(dispatch("/posts/post_assets/pic.png"), Route::PostAssets);
}

#[test]
fn post_source_is_under_posts() {
    assert_eq!(post_source_path("/srv/content", "post-1"), "/srv/content/posts/post-1.md");
}

#[test]
fn static_headers_give_length_and_type() {
    let h = static_headers("/srv/posts/pic.png", 1234);
    assert_eq!(h[0].name, "Content-Length");
    assert_eq!(h[0].value, "1234");
    assert_eq!(h[1].name, "Content-Type");
    assert_eq!(h[1].value, "image/png");
    let h = static_headers("/srv/posts/blob.unknownext", 0);
    assert_eq!(h[0].value, "0");
    assert_eq!(h[1].value, "application/octet-stream");
}

#[test]
fn lookups_map_to_statuses() {
    assert_eq!(lookup_status(FileLookup::Found(3)), Status::Success);
    assert_eq!(lookup_status(FileLookup::Missing), Status::NotFound);
    assert_eq!(lookup_status(FileLookup::Failed), Status::InternalServerError);
    assert_eq!(Status::NotFound.code(), 404);
    assert_eq!(Status::Success.code(), 200);
    assert_eq!(Status::BadRequest.code(), 400);
    assert_eq!(Status::InternalServerError.code(), 500);
}

#[test]
fn trailing_slash_does_not_hide_md() {
    let ex = default_exclusions();
    assert_eq!(serve_post("/posts/post-1.md/"), Err(Status::NotFound));
    assert_eq!(serve_static(ASSETS_ROUTE, "/assets/readme.md/", &ex), Err(Status::NotFound));
}

#[test]
fn trailing_slash_keeps_post_name() {
    assert_eq!(serve_post("/posts/post-1/"), Ok("post-1".to_string()));
}
