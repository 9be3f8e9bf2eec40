//! A blog content pipeline: front-matter splitting, post loading, ordering,
//! template models and request resolution for serving the blog.
pub mod errors;
pub mod text;
pub mod front_matter;
pub mod yaml;
pub mod date;
pub mod content;
pub mod order;
pub mod templates;
pub mod serve;
pub mod pack;
