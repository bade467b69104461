//! The sitemap's model: one entry for the homepage, one per post, one per
//! page, one per distinct tag and one per distinct category, every URL
//! drawn from the resolver.

use vstd::prelude::*;
use vstd::string::*;
use crate::date::{date_key, date_key_num, rfc3339_midnight, spec_rfc3339_midnight, Date};
use crate::models::{Group, Page, Post, SitemapUrl};
use crate::urls::{
    abs_url, category_rel_path, page_rel_path, post_rel_path, spec_abs_url, spec_category_rel_path,
    spec_page_rel_path, spec_post_rel_path, spec_tag_rel_path, tag_rel_path,
};

verus! {

/// The latest publish date among the posts; on a tie, the earlier post's
/// date (the value is the same day either way).
pub open spec fn spec_latest(s: Seq<Post>) -> Date
    recommends
        s.len() > 0,
    decreases s.len(),
{
    if s.len() <= 1 {
        s[0].pub_date
    } else {
        let rest = spec_latest(s.drop_last());
        if date_key(s.last().pub_date) > date_key(rest) {
            s.last().pub_date
        } else {
            rest
        }
    }
}

/// The homepage's last-modified stamp: the latest post date at midnight
/// UTC, or the given build instant when there are no posts.
pub open spec fn spec_home_lastmod(posts: Seq<Post>, now: Seq<char>) -> Seq<char> {
    if posts.len() == 0 {
        now
    } else {
        spec_rfc3339_midnight(spec_latest(posts))
    }
}

#[verifier::loop_isolation(false)]
fn latest_date(posts: &Vec<Post>) -> (d: Date)
    requires
        posts@.len() > 0,
    ensures
        d == spec_latest(posts@),
{
    let mut best = posts[0].pub_date;
    let mut i: usize = 1;
    while i < posts.len()
        invariant
            1 <= i <= posts@.len(),
            best == spec_latest(posts@.subrange(0, i as int)),
        decreases posts@.len() - i,
    {
        let ghost prefix = posts@.subrange(0, i as int);
        let ghost prefix1 = posts@.subrange(0, i + 1);
        if date_key_num(&posts[i].pub_date) > date_key_num(&best) {
            best = posts[i].pub_date;
        }
        proof {
            assert(prefix1.drop_last() =~= prefix);
            assert(prefix1.last() == posts@[i as int]);
            assert(best == spec_latest(prefix1));
        }
        i += 1;
    }
    proof {
        assert(posts@.subrange(0, posts@.len() as int) =~= posts@);
    }
    best
}

fn home_lastmod(posts: &Vec<Post>, now_rfc3339: &str) -> (r: String)
    ensures
        r@ == spec_home_lastmod(posts@, now_rfc3339@),
{
    if posts.len() == 0 {
        String::from_str(now_rfc3339)
    } else {
        rfc3339_midnight(&latest_date(posts))
    }
}

/// Build the sitemap over the store, the pages and the two groupings:
/// first the homepage, then every post, page, tag and category, in that
/// order, each URL exactly what the resolver gives the other generators
/// for the same entity. With the groupings from `render_tags` and
/// `render_categories`, whose keys are distinct, the entry count is one
/// plus the posts, the pages, the distinct tags and the distinct
/// categories.
#[verifier::loop_isolation(false)]
pub fn render_sitemap(
    posts: &Vec<Post>,
    pages: &Vec<Page>,
    tags: &Vec<Group>,
    categories: &Vec<Group>,
    base_url: &str,
    now_rfc3339: &str,
) -> (r: Vec<SitemapUrl>)
    ensures
        r@.len() == 1 + posts@.len() + pages@.len() + tags@.len() + categories@.len(),
        r@[0].loc@ == base_url@,
        r@[0].lastmod@ == spec_home_lastmod(posts@, now_rfc3339@),
        forall|i: int|
            0 <= i < posts@.len() ==> {
                &&& (#[trigger] r@[1 + i]).loc@ == spec_abs_url(
                    base_url@,
                    spec_post_rel_path(posts@[i].frontmatter.slug@),
                )
                &&& r@[1 + i].lastmod@ == spec_rfc3339_midnight(posts@[i].pub_date)
            },
        forall|i: int|
            0 <= i < pages@.len() ==> {
                &&& (#[trigger] r@[1 + posts@.len() + i]).loc@ == spec_abs_url(
                    base_url@,
                    spec_page_rel_path(pages@[i].slug@),
                )
                &&& r@[1 + posts@.len() + i].lastmod@ == spec_home_lastmod(posts@, now_rfc3339@)
            },
        forall|i: int|
            0 <= i < tags@.len() ==> {
                &&& (#[trigger] r@[1 + posts@.len() + pages@.len() + i]).loc@ == spec_abs_url(
                    base_url@,
                    spec_tag_rel_path(tags@[i].key@),
                )
                &&& r@[1 + posts@.len() + pages@.len() + i].lastmod@ == spec_home_lastmod(
                    posts@,
                    now_rfc3339@,
                )
            },
        forall|i: int|
            0 <= i < categories@.len() ==> {
                &&& (#[trigger] r@[1 + posts@.len() + pages@.len() + tags@.len() + i]).loc@
                    == spec_abs_url(base_url@, spec_category_rel_path(categories@[i].key@))
                &&& r@[1 + posts@.len() + pages@.len() + tags@.len() + i].lastmod@
                    == spec_home_lastmod(posts@, now_rfc3339@)
            },
{
    let home = home_lastmod(posts, now_rfc3339);
    let mut r: Vec<SitemapUrl> = Vec::new();
    r.push(SitemapUrl { loc: String::from_str(base_url), lastmod: home.clone() });
    let mut i: usize = 0;
    while i < posts.len()
        invariant
            i <= posts@.len(),
            r@.len() == 1 + i,
            r@[0].loc@ == base_url@,
            r@[0].lastmod@ == spec_home_lastmod(posts@, now_rfc3339@),
            forall|ii: int|
                0 <= ii < i ==> {
                    &&& (#[trigger] r@[1 + ii]).loc@ == spec_abs_url(
                        base_url@,
                        spec_post_rel_path(posts@[ii].frontmatter.slug@),
                    )
                    &&& r@[1 + ii].lastmod@ == spec_rfc3339_midnight(posts@[ii].pub_date)
                },
        decreases posts@.len() - i,
    {
        let p = &posts[i];
        let rel = post_rel_path(p.frontmatter.slug.as_str());
        r.push(
            SitemapUrl {
                loc: abs_url(base_url, rel.as_str()),
                lastmod: rfc3339_midnight(&p.pub_date),
            },
        );
        i += 1;
    }
    let mut j: usize = 0;
    while j < pages.len()
        invariant
            j <= pages@.len(),
            r@.len() == 1 + posts@.len() + j,
            r@[0].loc@ == base_url@,
            r@[0].lastmod@ == spec_home_lastmod(posts@, now_rfc3339@),
            forall|ii: int|
                0 <= ii < posts@.len() ==> {
                    &&& (#[trigger] r@[1 + ii]).loc@ == spec_abs_url(
                        base_url@,
                        spec_post_rel_path(posts@[ii].frontmatter.slug@),
                    )
                    &&& r@[1 + ii].lastmod@ == spec_rfc3339_midnight(posts@[ii].pub_date)
                },
            forall|ii: int|
                0 <= ii < j ==> {
                    &&& (#[trigger] r@[1 + posts@.len() + ii]).loc@ == spec_abs_url(
                        base_url@,
                        spec_page_rel_path(pages@[ii].slug@),
                    )
                    &&& r@[1 + posts@.len() + ii].lastmod@ == spec_home_lastmod(
                        posts@,
                        now_rfc3339@,
                    )
                },
        decreases pages@.len() - j,
    {
        let rel = page_rel_path(pages[j].slug.as_str());
        r.push(SitemapUrl { loc: abs_url(base_url, rel.as_str()), lastmod: home.clone() });
        j += 1;
    }
    let mut t: usize = 0;
    while t < tags.len()
        invariant
            t <= tags@.len(),
            r@.len() == 1 + posts@.len() + pages@.len() + t,
            r@[0].loc@ == base_url@,
            r@[0].lastmod@ == spec_home_lastmod(posts@, now_rfc3339@),
            forall|ii: int|
                0 <= ii < posts@.len() ==> {
                    &&& (#[trigger] r@[1 + ii]).loc@ == spec_abs_url(
                        base_url@,
                        spec_post_rel_path(posts@[ii].frontmatter.slug@),
                    )
                    &&& r@[1 + ii].lastmod@ == spec_rfc3339_midnight(posts@[ii].pub_date)
                },
            forall|ii: int|
                0 <= ii < pages@.len() ==> {
                    &&& (#[trigger] r@[1 + posts@.len() + ii]).loc@ == spec_abs_url(
                        base_url@,
                        spec_page_rel_path(pages@[ii].slug@),
                    )
                    &&& r@[1 + posts@.len() + ii].lastmod@ == spec_home_lastmod(
                        posts@,
                        now_rfc3339@,
                    )
                },
            forall|ii: int|
                0 <= ii < t ==> {
                    &&& (#[trigger] r@[1 + posts@.len() + pages@.len() + ii]).loc@ == spec_abs_url(
                        base_url@,
                        spec_tag_rel_path(tags@[ii].key@),
                    )
                    &&& r@[1 + posts@.len() + pages@.len() + ii].lastmod@ == spec_home_lastmod(
                        posts@,
                        now_rfc3339@,
                    )
                },
        decreases tags@.len() - t,
    {
        let rel = tag_rel_path(tags[t].key.as_str());
        r.push(SitemapUrl { loc: abs_url(base_url, rel.as_str()), lastmod: home.clone() });
        t += 1;
    }
    let mut c: usize = 0;
    while c < categories.len()
        invariant
            c <= categories@.len(),
            r@.len() == 1 + posts@.len() + pages@.len() + tags@.len() + c,
            r@[0].loc@ == base_url@,
            r@[0].lastmod@ == spec_home_lastmod(posts@, now_rfc3339@),
            forall|ii: int|
                0 <= ii < posts@.len() ==> {
                    &&& (#[trigger] r@[1 + ii]).loc@ == spec_abs_url(
                        base_url@,
                        spec_post_rel_path(posts@[ii].frontmatter.slug@),
                    )
                    &&& r@[1 + ii].lastmod@ == spec_rfc3339_midnight(posts@[ii].pub_date)
                },
            forall|ii: int|
                0 <= ii < pages@.len() ==> {
                    &&& (#[trigger] r@[1 + posts@.len() + ii]).loc@ == spec_abs_url(
                        base_url@,
                        spec_page_rel_path(pages@[ii].slug@),
                    )
                    &&& r@[1 + posts@.len() + ii].lastmod@ == spec_home_lastmod(
                        posts@,
                        now_rfc3339@,
                    )
                },
            forall|ii: int|
                0 <= ii < tags@.len() ==> {
                    &&& (#[trigger] r@[1 + posts@.len() + pages@.len() + ii]).loc@ == spec_abs_url(
                        base_url@,
                        spec_tag_rel_path(tags@[ii].key@),
                    )
                    &&& r@[1 + posts@.len() + pages@.len() + ii].lastmod@ == spec_home_lastmod(
                        posts@,
                        now_rfc3339@,
                    )
                },
            forall|ii: int|
                0 <= ii < c ==> {
                    &&& (#[trigger] r@[1 + posts@.len() + pages@.len() + tags@.len() + ii]).loc@
                        == spec_abs_url(base_url@, spec_category_rel_path(categories@[ii].key@))
                    &&& r@[1 + posts@.len() + pages@.len() + tags@.len() + ii].lastmod@
                        == spec_home_lastmod(posts@, now_rfc3339@)
                },
        decreases categories@.len() - c,
    {
        let rel = category_rel_path(categories[c].key.as_str());
        r.push(SitemapUrl { loc: abs_url(base_url, rel.as_str()), lastmod: home.clone() });
        c += 1;
    }
    r
}

} // verus!
