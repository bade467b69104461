//! One post's page model: its output path and its navigation links.

use vstd::prelude::*;
use crate::models::{NavigationLink, Post};
use crate::urls::{post_rel_path, spec_post_rel_path};

verus! {

/// The model for one post's page: where the file goes, and the links to
/// the chronologically adjacent posts.
pub struct PostPage {
    pub rel_path: String,
    /// The next newer post: the one just before this post in the sorted
    /// store. The newest post has none.
    pub next_post: Option<NavigationLink>,
    /// The next older post: the one just after this post in the sorted
    /// store. The oldest post has none.
    pub previous_post: Option<NavigationLink>,
}

fn nav_link(p: &Post) -> (r: NavigationLink)
    ensures
        r.title@ == p.frontmatter.title@,
        r.slug@ == p.frontmatter.slug@,
{
    NavigationLink { title: p.frontmatter.title.clone(), slug: p.frontmatter.slug.clone() }
}

/// Build the page model for the post at position `i` of the sorted store:
/// its "next" link is the post at `i - 1` (if any), its "previous" link
/// the post at `i + 1` (if any). Computed against the full store, so the
/// adjacency agrees with the sort order.
pub fn render_post(posts: &Vec<Post>, i: usize) -> (r: PostPage)
    requires
        i < posts@.len(),
    ensures
        r.rel_path@ == spec_post_rel_path(posts@[i as int].frontmatter.slug@),
        r.next_post is Some <==> i > 0,
        i > 0 ==> r.next_post->0.title@ == posts@[i - 1].frontmatter.title@
            && r.next_post->0.slug@ == posts@[i - 1].frontmatter.slug@,
        r.previous_post is Some <==> i + 1 < posts@.len(),
        i + 1 < posts@.len() ==> r.previous_post->0.title@ == posts@[i + 1].frontmatter.title@
            && r.previous_post->0.slug@ == posts@[i + 1].frontmatter.slug@,
{
    let rel_path = post_rel_path(posts[i].frontmatter.slug.as_str());
    let next_post = if i > 0 {
        Some(nav_link(&posts[i - 1]))
    } else {
        None
    };
    let previous_post = if i < posts.len() - 1 {
        Some(nav_link(&posts[i + 1]))
    } else {
        None
    };
    PostPage { rel_path, next_post, previous_post }
}

} // verus!
