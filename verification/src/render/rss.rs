//! The RSS feed's model.

use vstd::prelude::*;
use crate::date::{rfc3339_midnight, spec_rfc3339_midnight};
use crate::models::Post;
use crate::urls::{abs_url, post_rel_path, spec_abs_url, spec_post_rel_path};

verus! {

/// One feed item: a post's heading data, its absolute link, and its
/// publish instant.
pub struct RssItem {
    pub title: String,
    pub link: String,
    pub pub_date: String,
    pub summary: String,
    pub content: String,
}

/// Build the feed model over the sorted store: one item per post, in the
/// store's order, each linking the post's absolute URL and stamped with
/// its publish instant at midnight UTC.
#[verifier::loop_isolation(false)]
pub fn render_rss(posts: &Vec<Post>, base_url: &str) -> (r: Vec<RssItem>)
    ensures
        r@.len() == posts@.len(),
        forall|i: int|
            0 <= i < posts@.len() ==> {
                &&& (#[trigger] r@[i]).title@ == posts@[i].frontmatter.title@
                &&& r@[i].link@ == spec_abs_url(
                    base_url@,
                    spec_post_rel_path(posts@[i].frontmatter.slug@),
                )
                &&& r@[i].pub_date@ == spec_rfc3339_midnight(posts@[i].pub_date)
                &&& r@[i].summary@ == posts@[i].frontmatter.summary@
                &&& r@[i].content@ == posts@[i].content@
            },
{
    let mut items: Vec<RssItem> = Vec::new();
    let mut i: usize = 0;
    while i < posts.len()
        invariant
            i <= posts@.len(),
            items@.len() == i,
            forall|ii: int|
                0 <= ii < i ==> {
                    &&& (#[trigger] items@[ii]).title@ == posts@[ii].frontmatter.title@
                    &&& items@[ii].link@ == spec_abs_url(
                        base_url@,
                        spec_post_rel_path(posts@[ii].frontmatter.slug@),
                    )
                    &&& items@[ii].pub_date@ == spec_rfc3339_midnight(posts@[ii].pub_date)
                    &&& items@[ii].summary@ == posts@[ii].frontmatter.summary@
                    &&& items@[ii].content@ == posts@[ii].content@
                },
        decreases posts@.len() - i,
    {
        let p = &posts[i];
        let rel = post_rel_path(p.frontmatter.slug.as_str());
        items.push(
            RssItem {
                title: p.frontmatter.title.clone(),
                link: abs_url(base_url, rel.as_str()),
                pub_date: rfc3339_midnight(&p.pub_date),
                summary: p.frontmatter.summary.clone(),
                content: p.content.clone(),
            },
        );
        i += 1;
    }
    items
}

} // verus!
