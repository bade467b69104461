//! A static site builder's content pipeline: content files are parsed into
//! posts and pages, the posts are filtered and sorted, cross-cutting views
//! (navigation adjacency, tag and category groups) are derived, and every
//! output model (per-post page, index, feed, sitemap) draws its paths and
//! URLs from one resolver, so that all outputs agree.

pub mod date;
pub mod groups;
pub mod json;
pub mod markdown;
pub mod models;
pub mod parser;
pub mod render;
pub mod store;
pub mod urls;
pub mod yaml;
