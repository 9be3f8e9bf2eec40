//! The library's failures.
use vstd::prelude::*;

verus! {

/// Why loading or rendering the blog failed.
#[derive(Clone, Debug)]
pub enum Error {
    /// A failure described by its message (I/O, a malformed field).
    Undefined(String),
    /// The document at this path has no front matter.
    NoFrontMatter(String),
    /// The template set has no home page template.
    NoBlogTemplateFound,
    /// The template set has no post page template.
    NoPostsTemplateFound,
}

impl Error {
    /// The error as a line of text.
    pub fn message(&self) -> (r: String)
        ensures
            self matches Error::Undefined(m) ==> r@ == m@,
            self matches Error::NoFrontMatter(p) ==> r@ == "no front matter in "@ + p@,
            self is NoBlogTemplateFound ==> r@ == "no main template file found"@,
            self is NoPostsTemplateFound ==> r@ == "no posts template file found"@,
    {
        match self {
            Error::Undefined(m) => m.clone(),
            Error::NoFrontMatter(p) => String::from_str("no front matter in ").concat(p.as_str()),
            Error::NoBlogTemplateFound => String::from_str("no main template file found"),
            Error::NoPostsTemplateFound => String::from_str("no posts template file found"),
        }
    }
}

} // verus!
