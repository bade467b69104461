//! Category pages: one group per distinct non-empty category over the
//! sorted store.

use vstd::prelude::*;
use crate::groups::{group_by_keys, group_with_key, has_member, spec_has_key};
use crate::models::{has_category, Group, Post};

verus! {

/// The keys a post contributes to the category grouping: its category,
/// unless that is empty, which means uncategorized.
pub open spec fn spec_category_keys(p: Post) -> Seq<String> {
    if p.frontmatter.category@.len() == 0 {
        Seq::empty()
    } else {
        seq![p.frontmatter.category]
    }
}

proof fn lemma_has_category_is_has_key(p: Post, t: Seq<char>)
    ensures
        has_category(p, t) == spec_has_key(spec_category_keys(p), t),
{
    let ks = spec_category_keys(p);
    if has_category(p, t) {
        assert(ks[0]@ == t);
        assert(spec_has_key(ks, t));
    }
    if spec_has_key(ks, t) {
        let k = choose|k: int| 0 <= k < ks.len() && ks[k]@ == t;
        assert(ks.len() == 1 && k == 0);
        assert(t == p.frontmatter.category@);
        assert(has_category(p, t));
    }
}

/// Derive the category groups: one group per distinct non-empty category,
/// each group's members being exactly the positions of the posts in it, in
/// store order. A post with an empty category joins no group.
#[verifier::loop_isolation(false)]
pub fn render_categories(posts: &Vec<Post>) -> (r: Vec<Group>)
    ensures
        forall|a: int, b: int| 0 <= a < b < r@.len() ==> r@[a].key@ != r@[b].key@,
        forall|g: int, j: int|
            0 <= g < r@.len() && 0 <= j < r@[g].members@.len() ==> #[trigger] r@[g].members@[j]
                < posts@.len() && has_category(posts@[r@[g].members@[j] as int], r@[g].key@),
        forall|g: int, j1: int, j2: int|
            0 <= g < r@.len() && 0 <= j1 < j2 < r@[g].members@.len() ==> #[trigger] r@[
                g
            ].members@[j1] < #[trigger] r@[g].members@[j2],
        forall|i: int|
            0 <= i < posts@.len() && posts@[i].frontmatter.category@.len() > 0 ==> group_with_key(
                r@,
                #[trigger] posts@[i].frontmatter.category@,
            ),
        forall|g: int, i: int|
            0 <= g < r@.len() && 0 <= i < posts@.len() && has_category(
                #[trigger] posts@[i],
                #[trigger] r@[g].key@,
            ) ==> has_member(r@[g].members@, i),
{
    let mut keys: Vec<Vec<String>> = Vec::new();
    let mut i: usize = 0;
    while i < posts.len()
        invariant
            i <= posts@.len(),
            keys@.len() == i,
            forall|ii: int| 0 <= ii < i ==> #[trigger] keys@[ii]@ == spec_category_keys(posts@[ii]),
        decreases posts@.len() - i,
    {
        let p = &posts[i];
        let mut ks: Vec<String> = Vec::new();
        if !p.frontmatter.category.as_str().is_empty() {
            ks.push(p.frontmatter.category.clone());
        }
        proof {
            assert(ks@ =~= spec_category_keys(posts@[i as int]));
        }
        keys.push(ks);
        i += 1;
    }
    let r = group_by_keys(&keys);
    proof {
        assert forall|g: int, j: int|
            0 <= g < r@.len() && 0 <= j < r@[g].members@.len() implies #[trigger] r@[g].members@[j]
            < posts@.len() && has_category(posts@[r@[g].members@[j] as int], r@[g].key@) by {
            let m = r@[g].members@[j] as int;
            assert(spec_has_key(keys@[m]@, r@[g].key@));
            lemma_has_category_is_has_key(posts@[m], r@[g].key@);
        }
        assert forall|i2: int|
            0 <= i2 < posts@.len() && posts@[i2].frontmatter.category@.len() > 0 implies
            group_with_key(r@, #[trigger] posts@[i2].frontmatter.category@) by {
            assert(keys@[i2]@[0] == posts@[i2].frontmatter.category);
            assert(group_with_key(r@, keys@[i2]@[0]@));
        }
        assert forall|g: int, i2: int|
            0 <= g < r@.len() && 0 <= i2 < posts@.len() && has_category(
                #[trigger] posts@[i2],
                #[trigger] r@[g].key@,
            ) implies has_member(r@[g].members@, i2) by {
            lemma_has_category_is_has_key(posts@[i2], r@[g].key@);
            assert(spec_has_key(keys@[i2]@, r@[g].key@));
        }
    }
    r
}

} // verus!
