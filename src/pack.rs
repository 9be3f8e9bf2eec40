//! Publishing the blog as files: what is written where, and the order of
//! the steps.
use vstd::prelude::*;
use crate::content::Blog;
use crate::templates::{models_home, models_post, pack_main_model, pack_post_model, MainTemplateModel, PostTemplateModel, PACK_ROOT_PAGE};
use crate::text::{base_name, base_name_of};

verus! {

/// The directory of the output that receives the post assets.
pub const POST_ASSETS_DIR: &'static str = "post_assets";

/// The directory of the output that receives the template's assets.
pub const ASSETS_DIR: &'static str = "assets";

/// The file of the output that receives the home page.
pub const MAIN_PAGE: &'static str = "index.html";

/// A post asset to copy, flattened to its file name under `post_assets/`.
#[derive(Clone, Debug)]
pub struct AssetCopy {
    pub source: String,
    pub target: String,
}

/// Where a post asset is published.
pub open spec fn asset_target(source: Seq<char>) -> Seq<char> {
    POST_ASSETS_DIR@ + "/"@ + base_name(source)
}

/// Everything the published blog holds: the home page model, one page per
/// post (written to the post's file name), and the post assets to copy.
#[derive(Clone, Debug)]
pub struct PackPlan {
    pub main: MainTemplateModel,
    pub pages: Vec<PostTemplateModel>,
    pub assets: Vec<AssetCopy>,
}

/// What publishing `blog` writes.
pub fn pack_plan(blog: &Blog) -> (r: PackPlan)
    ensures
        models_home(r.main, *blog),
        r.pages@.len() == blog.posts@.len(),
        r.main.posts@.len() == blog.posts@.len(),
        forall|i: int| 0 <= i < r.pages@.len() ==> models_post(#[trigger] r.pages@[i], blog.posts@[i], PACK_ROOT_PAGE@),
        forall|i: int| 0 <= i < r.main.posts@.len() ==> models_post(#[trigger] r.main.posts@[i], blog.posts@[i], PACK_ROOT_PAGE@),
        r.assets@.len() == blog.post_assets@.len(),
        forall|i: int| 0 <= i < r.assets@.len() ==> (#[trigger] r.assets@[i]).source@ == blog.post_assets@[i]@
            && r.assets@[i].target@ == asset_target(blog.post_assets@[i]@),
{
    let main = pack_main_model(blog);
    let mut pages: Vec<PostTemplateModel> = Vec::new();
    let mut j: usize = 0;
    while j < blog.posts.len()
        invariant
            j <= blog.posts@.len(),
            pages@.len() == j,
            forall|k: int| 0 <= k < j ==> models_post(#[trigger] pages@[k], blog.posts@[k], PACK_ROOT_PAGE@),
        decreases blog.posts@.len() - j,
    {
        pages.push(pack_post_model(&blog.posts[j]));
        j = j + 1;
    }
    let mut assets: Vec<AssetCopy> = Vec::new();
    let mut i: usize = 0;
    while i < blog.post_assets.len()
        invariant
            i <= blog.post_assets@.len(),
            assets@.len() == i,
            forall|k: int| 0 <= k < i ==> (#[trigger] assets@[k]).source@ == blog.post_assets@[k]@
                && assets@[k].target@ == asset_target(blog.post_assets@[k]@),
        decreases blog.post_assets@.len() - i,
    {
        let source = blog.post_assets[i].clone();
        let target = String::from_str(POST_ASSETS_DIR).concat("/").concat(base_name_of(source.as_str()).as_str());
        assets.push(AssetCopy { source, target });
        i = i + 1;
    }
    PackPlan { main, pages, assets }
}

/// A stage of publishing.
#[derive(Copy, Clone, Debug, PartialEq, Eq, Structural)]
pub enum PackStep {
    /// Nothing done yet; next, the output's assets directory is emptied and
    /// the template's assets copied into it.
    Start,
    /// The template's assets are in place; next, the pages are written.
    AssetsCopied,
    /// The pages are written; next, the post assets are copied.
    PagesWritten,
    /// The post assets are copied; nothing is left.
    PostAssetsCopied,
    /// Publishing finished.
    Done,
    /// A step failed; publishing stopped there.
    Failed,
}

/// The stage after the current step succeeded or failed. A failure stops
/// publishing; a finished or failed run stays as it is.
pub fn advance(step: PackStep, succeeded: bool) -> (r: PackStep)
    ensures
        step is Done ==> r is Done,
        step is Failed ==> r is Failed,
        !(step is Done || step is Failed) && !succeeded ==> r is Failed,
        succeeded && step is Start ==> r is AssetsCopied,
        succeeded && step is AssetsCopied ==> r is PagesWritten,
        succeeded && step is PagesWritten ==> r is PostAssetsCopied,
        succeeded && step is PostAssetsCopied ==> r is Done,
{
    match step {
        PackStep::Done => PackStep::Done,
        PackStep::Failed => PackStep::Failed,
        _ => if !succeeded {
            PackStep::Failed
        } else {
            match step {
                PackStep::Start => PackStep::AssetsCopied,
                PackStep::AssetsCopied => PackStep::PagesWritten,
                PackStep::PagesWritten => PackStep::PostAssetsCopied,
                _ => PackStep::Done,
            }
        },
    }
}

} // verus!
