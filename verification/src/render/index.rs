//! The chronological index page's model.

use vstd::prelude::*;
use crate::models::Post;
use crate::urls::{index_rel_path, post_rel_path, spec_index_rel_path, spec_post_rel_path};

verus! {

/// One row of the index: a post's heading data and its link, drawn from
/// the resolver.
pub struct IndexEntry {
    pub title: String,
    pub date: String,
    pub summary: String,
    pub rel_path: String,
}

/// The index page: its output path and one entry per post, in store order.
pub struct IndexPage {
    pub rel_path: String,
    pub entries: Vec<IndexEntry>,
}

/// Build the index model over the sorted store: one entry per post, in the
/// store's order, each linking where the post's own page is written.
#[verifier::loop_isolation(false)]
pub fn render_index(posts: &Vec<Post>) -> (r: IndexPage)
    ensures
        r.rel_path@ == spec_index_rel_path(),
        r.entries@.len() == posts@.len(),
        forall|i: int|
            0 <= i < posts@.len() ==> {
                &&& (#[trigger] r.entries@[i]).title@ == posts@[i].frontmatter.title@
                &&& r.entries@[i].date@ == posts@[i].frontmatter.date@
                &&& r.entries@[i].summary@ == posts@[i].frontmatter.summary@
                &&& r.entries@[i].rel_path@ == spec_post_rel_path(posts@[i].frontmatter.slug@)
            },
{
    let mut entries: Vec<IndexEntry> = Vec::new();
    let mut i: usize = 0;
    while i < posts.len()
        invariant
            i <= posts@.len(),
            entries@.len() == i,
            forall|ii: int|
                0 <= ii < i ==> {
                    &&& (#[trigger] entries@[ii]).title@ == posts@[ii].frontmatter.title@
                    &&& entries@[ii].date@ == posts@[ii].frontmatter.date@
                    &&& entries@[ii].summary@ == posts@[ii].frontmatter.summary@
                    &&& entries@[ii].rel_path@ == spec_post_rel_path(posts@[ii].frontmatter.slug@)
                },
        decreases posts@.len() - i,
    {
        let p = &posts[i];
        entries.push(
            IndexEntry {
                title: p.frontmatter.title.clone(),
                date: p.frontmatter.date.clone(),
                summary: p.frontmatter.summary.clone(),
                rel_path: post_rel_path(p.frontmatter.slug.as_str()),
            },
        );
        i += 1;
    }
    IndexPage { rel_path: index_rel_path(), entries }
}

} // verus!
