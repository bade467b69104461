//! The output generators' models: each submodule turns the store and the
//! derived views into the typed model for one kind of output file, with
//! every path and URL drawn from the resolver.

pub mod categories;
pub mod index;
pub mod page;
pub mod post;
pub mod rss;
pub mod sitemap;
pub mod tags;
