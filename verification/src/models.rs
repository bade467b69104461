//! The in-memory content model: one build's posts, pages and derived records.

use vstd::prelude::*;
use crate::date::Date;

verus! {

/// The structured header of a post file.
#[derive(Debug)]
pub struct Frontmatter {
    /// Required.
    pub title: String,
    /// Required; the raw `YYYY-MM-DD` string as authored.
    pub date: String,
    /// Required; the post's file name and URL segment, taken verbatim.
    pub slug: String,
    /// A draft is parsed and then dropped from every output; absent means false.
    pub draft: bool,
    /// Absent means empty.
    pub summary: String,
    /// Absent means no tags.
    pub tags: Vec<String>,
    /// Absent or empty means uncategorized.
    pub category: String,
}

/// One parsed post: its header, its body rendered to HTML, and the publish
/// date that orders it. Immutable once parsed.
#[derive(Debug)]
pub struct Post {
    pub frontmatter: Frontmatter,
    /// The body segment rendered to HTML.
    pub content: String,
    /// The header's date, parsed; it orders the build and stamps the feed.
    pub pub_date: Date,
}

/// Which template a page asks for; a closed set, so rendering is a total match.
#[derive(Debug, Clone, Copy, PartialEq, Eq, Structural)]
pub enum TemplateKind {
    Default,
    About,
    Contact,
}

/// One standalone page: no date, no place in the chronological order.
#[derive(Debug)]
pub struct Page {
    pub title: String,
    pub slug: String,
    /// Final HTML: rendered from markdown, or taken verbatim from a JSON file.
    pub content: String,
    pub template: TemplateKind,
    /// Free-form payload handed to the template layer verbatim.
    pub custom_data: Option<serde_json::Value>,
}

/// A light projection of an adjacent post, for previous/next links.
#[derive(Debug)]
pub struct NavigationLink {
    pub title: String,
    pub slug: String,
}

/// One sitemap entry: an absolute URL and its last-modified instant.
#[derive(Debug)]
pub struct SitemapUrl {
    pub loc: String,
    /// RFC 3339 form.
    pub lastmod: String,
}

/// A tag's or category's group: its key and the members' positions in the
/// sorted post sequence, in increasing order.
#[derive(Debug)]
pub struct Group {
    pub key: String,
    pub members: Vec<usize>,
}

/// Whether the post carries the given tag.
pub open spec fn has_tag(p: Post, t: Seq<char>) -> bool {
    exists|k: int| 0 <= k < p.frontmatter.tags@.len() && p.frontmatter.tags@[k]@ == t
}

/// Whether the post belongs to the given category; the empty category means
/// uncategorized and belongs to no group.
pub open spec fn has_category(p: Post, c: Seq<char>) -> bool {
    c.len() > 0 && p.frontmatter.category@ == c
}

} // verus!
