//! The URL resolver: the single mapping from a content record or group key
//! to its output-relative path and its absolute public URL.
//!
//! Every generator states its links through the spec functions here, so the
//! HTML pages, the feed and the sitemap are forced to agree byte for byte.

use vstd::prelude::*;
use vstd::string::*;

verus! {

pub open spec fn html_ext() -> Seq<char> {
    seq!['.', 'h', 't', 'm', 'l']
}

pub open spec fn tags_prefix() -> Seq<char> {
    seq!['t', 'a', 'g', 's', '/']
}

pub open spec fn categories_prefix() -> Seq<char> {
    seq!['c', 'a', 't', 'e', 'g', 'o', 'r', 'i', 'e', 's', '/']
}

/// A post is written to `{slug}.html`, the slug taken verbatim.
pub open spec fn spec_post_rel_path(slug: Seq<char>) -> Seq<char> {
    slug + html_ext()
}

/// A page is written to `{slug}.html`, like a post.
pub open spec fn spec_page_rel_path(slug: Seq<char>) -> Seq<char> {
    slug + html_ext()
}

/// A tag's index page is written to `tags/{tag}.html`.
pub open spec fn spec_tag_rel_path(tag: Seq<char>) -> Seq<char> {
    tags_prefix() + tag + html_ext()
}

/// A category's index page is written to `categories/{category}.html`.
pub open spec fn spec_category_rel_path(category: Seq<char>) -> Seq<char> {
    categories_prefix() + category + html_ext()
}

/// The chronological index is written to `index.html`.
pub open spec fn spec_index_rel_path() -> Seq<char> {
    seq!['i', 'n', 'd', 'e', 'x', '.', 'h', 't', 'm', 'l']
}

/// An absolute URL is the base URL (which ends with a path separator)
/// followed by the output-relative path.
pub open spec fn spec_abs_url(base: Seq<char>, rel: Seq<char>) -> Seq<char> {
    base + rel
}

fn with_html_ext(slug: &str) -> (r: String)
    ensures
        r@ == slug@ + html_ext(),
{
    let mut out = String::from_str(slug);
    out.append(".html");
    proof {
        reveal_strlit(".html");
        assert(out@ =~= slug@ + html_ext());
    }
    out
}

pub fn post_rel_path(slug: &str) -> (r: String)
    ensures
        r@ == spec_post_rel_path(slug@),
{
    with_html_ext(slug)
}

pub fn page_rel_path(slug: &str) -> (r: String)
    ensures
        r@ == spec_page_rel_path(slug@),
{
    with_html_ext(slug)
}

pub fn tag_rel_path(tag: &str) -> (r: String)
    ensures
        r@ == spec_tag_rel_path(tag@),
{
    let mut out = String::from_str("tags/");
    out.append(tag);
    out.append(".html");
    proof {
        reveal_strlit("tags/");
        reveal_strlit(".html");
        assert(out@ =~= spec_tag_rel_path(tag@));
    }
    out
}

pub fn category_rel_path(category: &str) -> (r: String)
    ensures
        r@ == spec_category_rel_path(category@),
{
    let mut out = String::from_str("categories/");
    out.append(category);
    out.append(".html");
    proof {
        reveal_strlit("categories/");
        reveal_strlit(".html");
        assert(out@ =~= spec_category_rel_path(category@));
    }
    out
}

pub fn index_rel_path() -> (r: String)
    ensures
        r@ == spec_index_rel_path(),
{
    let out = String::from_str("index.html");
    proof {
        reveal_strlit("index.html");
        assert(out@ =~= spec_index_rel_path());
    }
    out
}

/// The absolute public URL for an output-relative path.
pub fn abs_url(base: &str, rel: &str) -> (r: String)
    ensures
        r@ == spec_abs_url(base@, rel@),
{
    let mut out = String::from_str(base);
    out.append(rel);
    out
}

} // verus!
