//! Tag pages: one group per distinct tag over the sorted store.

use vstd::prelude::*;
use crate::groups::{group_by_keys, group_with_key, has_member, spec_has_key};
use crate::models::{has_tag, Group, Post};

verus! {

proof fn lemma_has_tag_is_has_key(p: Post, t: Seq<char>)
    ensures
        has_tag(p, t) == spec_has_key(p.frontmatter.tags@, t),
{
    if has_tag(p, t) {
        let k = choose|k: int| 0 <= k < p.frontmatter.tags@.len() && p.frontmatter.tags@[k]@ == t;
        assert(spec_has_key(p.frontmatter.tags@, t));
    }
    if spec_has_key(p.frontmatter.tags@, t) {
        let k = choose|k: int|
            0 <= k < p.frontmatter.tags@.len() && p.frontmatter.tags@[k]@ == t;
        assert(has_tag(p, t));
    }
}

pub(crate) fn clone_strings(v: &Vec<String>) -> (r: Vec<String>)
    ensures
        r@ == v@,
{
    let mut r: Vec<String> = Vec::new();
    let mut j: usize = 0;
    while j < v.len()
        invariant
            j <= v@.len(),
            r@.len() == j,
            forall|jj: int| 0 <= jj < j ==> r@[jj] == v@[jj],
        decreases v@.len() - j,
    {
        r.push(v[j].clone());
        j += 1;
    }
    proof {
        assert(r@ =~= v@);
    }
    r
}

/// Derive the tag groups: one group per distinct tag of the given posts,
/// the group's members being exactly the positions of the posts carrying
/// the tag, in their order in the store. Called on the store, whose posts
/// are already sorted and draft-free, this is the tag index.
#[verifier::loop_isolation(false)]
pub fn render_tags(posts: &Vec<Post>) -> (r: Vec<Group>)
    ensures
        forall|a: int, b: int| 0 <= a < b < r@.len() ==> r@[a].key@ != r@[b].key@,
        forall|g: int, j: int|
            0 <= g < r@.len() && 0 <= j < r@[g].members@.len() ==> #[trigger] r@[g].members@[j]
                < posts@.len() && has_tag(posts@[r@[g].members@[j] as int], r@[g].key@),
        forall|g: int, j1: int, j2: int|
            0 <= g < r@.len() && 0 <= j1 < j2 < r@[g].members@.len() ==> #[trigger] r@[
                g
            ].members@[j1] < #[trigger] r@[g].members@[j2],
        forall|i: int, k: int|
            #![trigger posts@[i].frontmatter.tags@[k]]
            0 <= i < posts@.len() && 0 <= k < posts@[i].frontmatter.tags@.len()
                ==> group_with_key(r@, posts@[i].frontmatter.tags@[k]@),
        forall|g: int, i: int|
            0 <= g < r@.len() && 0 <= i < posts@.len() && has_tag(
                #[trigger] posts@[i],
                #[trigger] r@[g].key@,
            ) ==> has_member(r@[g].members@, i),
{
    let mut keys: Vec<Vec<String>> = Vec::new();
    let mut i: usize = 0;
    while i < posts.len()
        invariant
            i <= posts@.len(),
            keys@.len() == i,
            forall|ii: int| 0 <= ii < i ==> #[trigger] keys@[ii]@ == posts@[ii].frontmatter.tags@,
        decreases posts@.len() - i,
    {
        keys.push(clone_strings(&posts[i].frontmatter.tags));
        i += 1;
    }
    let r = group_by_keys(&keys);
    proof {
        assert forall|g: int, j: int|
            0 <= g < r@.len() && 0 <= j < r@[g].members@.len() implies #[trigger] r@[g].members@[j]
            < posts@.len() && has_tag(posts@[r@[g].members@[j] as int], r@[g].key@) by {
            let m = r@[g].members@[j] as int;
            assert(spec_has_key(keys@[m]@, r@[g].key@));
            lemma_has_tag_is_has_key(posts@[m], r@[g].key@);
        }
        assert forall|i2: int, k: int|
            #![trigger posts@[i2].frontmatter.tags@[k]]
            0 <= i2 < posts@.len() && 0 <= k < posts@[i2].frontmatter.tags@.len() implies
            group_with_key(r@, posts@[i2].frontmatter.tags@[k]@) by {
            assert(keys@[i2]@[k] == posts@[i2].frontmatter.tags@[k]);
            assert(group_with_key(r@, keys@[i2]@[k]@));
        }
        assert forall|g: int, i2: int|
            0 <= g < r@.len() && 0 <= i2 < posts@.len() && has_tag(
                #[trigger] posts@[i2],
                #[trigger] r@[g].key@,
            ) implies has_member(r@[g].members@, i2) by {
            lemma_has_tag_is_has_key(posts@[i2], r@[g].key@);
            assert(spec_has_key(keys@[i2]@, r@[g].key@));
        }
    }
    r
}

} // verus!
