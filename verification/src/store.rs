//! The content store: one build's posts, drafts dropped, sorted by publish
//! date, newest first.
//!
//! The sort is stated as a recursive specification (`spec_sort_desc`) that
//! pins the result uniquely: each post is inserted, in input order, behind
//! the already-placed posts of equal key, which is exactly a stable
//! descending sort. The laws at the end say so in the usual terms: the
//! result is descending, strictly descending when no two posts share a
//! date, and posts of equal date keep their input order.

use vstd::prelude::*;
use crate::date::date_key;
use crate::date::date_key_num;
use crate::models::Post;

verus! {

/// The sort key of a post: its publish date's key.
pub open spec fn post_key(p: Post) -> int {
    date_key(p.pub_date)
}

/// Whether the post is kept by the store.
pub open spec fn non_draft(p: Post) -> bool {
    !p.frontmatter.draft
}

/// Descending by key, ties allowed.
pub open spec fn sorted_desc(s: Seq<Post>) -> bool {
    forall|i: int, j: int| 0 <= i < j < s.len() ==> post_key(s[i]) >= post_key(s[j])
}

/// Insert a post into a sequence: it passes every post of equal or greater
/// key and stands before the first strictly smaller one.
pub open spec fn spec_insert_desc(p: Post, s: Seq<Post>) -> Seq<Post>
    decreases s.len(),
{
    if s.len() == 0 {
        seq![p]
    } else if post_key(p) > post_key(s[0]) {
        seq![p] + s
    } else {
        seq![s[0]] + spec_insert_desc(p, s.subrange(1, s.len() as int))
    }
}

/// The stable descending sort: posts are inserted in input order, so a
/// later post of equal key lands behind an earlier one.
pub open spec fn spec_sort_desc(s: Seq<Post>) -> Seq<Post>
    decreases s.len(),
{
    if s.len() == 0 {
        Seq::empty()
    } else {
        spec_insert_desc(s.last(), spec_sort_desc(s.drop_last()))
    }
}

/// The predicate the store filters by, as one shared function value.
pub open spec fn non_draft_pred() -> spec_fn(Post) -> bool {
    |q: Post| non_draft(q)
}

/// The predicate that picks the posts of one key, as one shared function
/// value.
pub open spec fn key_pred(k: int) -> spec_fn(Post) -> bool {
    |q: Post| post_key(q) == k
}

/// The input's non-draft posts, in input order.
pub open spec fn spec_non_draft(s: Seq<Post>) -> Seq<Post> {
    s.filter(non_draft_pred())
}

/// What the store holds: the non-draft posts, stably sorted descending.
pub open spec fn spec_store(s: Seq<Post>) -> Seq<Post> {
    spec_sort_desc(spec_non_draft(s))
}

/// The posts of one key, in order: the subsequence the stability law talks
/// about.
pub open spec fn key_filter(s: Seq<Post>, k: int) -> Seq<Post> {
    s.filter(key_pred(k))
}

proof fn lemma_insert_desc_elems(p: Post, s: Seq<Post>)
    ensures
        spec_insert_desc(p, s).len() == s.len() + 1,
        forall|i: int|
            0 <= i < spec_insert_desc(p, s).len() ==> (#[trigger] spec_insert_desc(p, s)[i] == p
                || exists|m: int| 0 <= m < s.len() && spec_insert_desc(p, s)[i] == s[m]),
    decreases s.len(),
{
    let r = spec_insert_desc(p, s);
    if s.len() == 0 {
    } else if post_key(p) > post_key(s[0]) {
        assert forall|i: int| 0 <= i < r.len() implies (#[trigger] r[i] == p || exists|m: int|
            0 <= m < s.len() && r[i] == s[m]) by {
            if i > 0 {
                assert(r[i] == s[i - 1]);
            }
        }
    } else {
        let s1 = s.subrange(1, s.len() as int);
        lemma_insert_desc_elems(p, s1);
        let r1 = spec_insert_desc(p, s1);
        assert forall|i: int| 0 <= i < r.len() implies (#[trigger] r[i] == p || exists|m: int|
            0 <= m < s.len() && r[i] == s[m]) by {
            if i == 0 {
                assert(r[0] == s[0]);
            } else {
                assert(r[i] == r1[i - 1]);
                if r1[i - 1] != p {
                    let m = choose|m: int| 0 <= m < s1.len() && r1[i - 1] == s1[m];
                    assert(s1[m] == s[m + 1]);
                    assert(r[i] == s[m + 1]);
                }
            }
        }
    }
}

proof fn lemma_insert_desc_sorted(p: Post, s: Seq<Post>)
    requires
        sorted_desc(s),
    ensures
        sorted_desc(spec_insert_desc(p, s)),
    decreases s.len(),
{
    let r = spec_insert_desc(p, s);
    if s.len() == 0 {
    } else if post_key(p) > post_key(s[0]) {
        assert forall|i: int, j: int| 0 <= i < j < r.len() implies post_key(r[i]) >= post_key(
            r[j],
        ) by {
            if i > 0 {
                assert(r[i] == s[i - 1] && r[j] == s[j - 1]);
            } else {
                assert(r[j] == s[j - 1]);
                if j > 1 {
                    assert(post_key(s[0]) >= post_key(s[j - 1]));
                }
            }
        }
    } else {
        let s1 = s.subrange(1, s.len() as int);
        assert forall|i: int, j: int| 0 <= i < j < s1.len() implies post_key(s1[i]) >= post_key(
            s1[j],
        ) by {
            assert(s1[i] == s[i + 1] && s1[j] == s[j + 1]);
        }
        lemma_insert_desc_sorted(p, s1);
        lemma_insert_desc_elems(p, s1);
        let r1 = spec_insert_desc(p, s1);
        assert forall|i: int, j: int| 0 <= i < j < r.len() implies post_key(r[i]) >= post_key(
            r[j],
        ) by {
            if i > 0 {
                assert(r[i] == r1[i - 1] && r[j] == r1[j - 1]);
            } else {
                assert(r[0] == s[0]);
                assert(r[j] == r1[j - 1]);
                if r1[j - 1] == p {
                } else {
                    let m = choose|m: int| 0 <= m < s1.len() && r1[j - 1] == s1[m];
                    assert(s1[m] == s[m + 1]);
                    assert(post_key(s[0]) >= post_key(s[m + 1]));
                }
            }
        }
    }
}

proof fn lemma_insert_desc_at(p: Post, s: Seq<Post>, j: int)
    requires
        0 <= j <= s.len(),
        forall|k: int| 0 <= k < j ==> post_key(p) <= post_key(#[trigger] s[k]),
        j < s.len() ==> post_key(p) > post_key(s[j]),
    ensures
        spec_insert_desc(p, s) == s.subrange(0, j) + seq![p] + s.subrange(j, s.len() as int),
    decreases j,
{
    let n = s.len() as int;
    if j == 0 {
        if n == 0 {
            assert(spec_insert_desc(p, s) =~= s.subrange(0, 0) + seq![p] + s.subrange(0, 0));
        } else {
            assert(post_key(p) > post_key(s[0]));
            assert(spec_insert_desc(p, s) =~= s.subrange(0, 0) + seq![p] + s.subrange(0, n));
        }
    } else {
        let s1 = s.subrange(1, n);
        assert(post_key(p) <= post_key(s[0]));
        assert forall|k: int| 0 <= k < j - 1 implies post_key(p) <= post_key(#[trigger] s1[k]) by {
            assert(s1[k] == s[k + 1]);
        }
        assert(j - 1 < s1.len() ==> post_key(p) > post_key(s1[j - 1]));
        lemma_insert_desc_at(p, s1, j - 1);
        assert(spec_insert_desc(p, s) == seq![s[0]] + spec_insert_desc(p, s1));
        assert(spec_insert_desc(p, s) =~= s.subrange(0, j) + seq![p] + s.subrange(j, n));
    }
}

/// The sort neither adds nor loses posts: same length, every element drawn
/// from the input.
pub proof fn lemma_sort_desc_elems(s: Seq<Post>)
    ensures
        spec_sort_desc(s).len() == s.len(),
        forall|i: int|
            0 <= i < s.len() ==> exists|m: int|
                0 <= m < s.len() && #[trigger] spec_sort_desc(s)[i] == s[m],
    decreases s.len(),
{
    if s.len() == 0 {
    } else {
        let d = s.drop_last();
        lemma_sort_desc_elems(d);
        lemma_insert_desc_elems(s.last(), spec_sort_desc(d));
        let r = spec_sort_desc(s);
        assert forall|i: int| 0 <= i < s.len() implies exists|m: int|
            0 <= m < s.len() && #[trigger] r[i] == s[m] by {
            if r[i] == s.last() {
                assert(r[i] == s[s.len() - 1]);
            } else {
                let q = choose|q: int|
                    0 <= q < spec_sort_desc(d).len() && r[i] == spec_sort_desc(d)[q];
                let m = choose|m: int| 0 <= m < d.len() && spec_sort_desc(d)[q] == d[m];
                assert(d[m] == s[m]);
                assert(r[i] == s[m]);
            }
        }
    }
}

/// The draft law: whatever its date, a draft post never stands in the
/// store, and so never reaches an index, a group, the feed or the sitemap,
/// which all read the store.
pub proof fn lemma_store_draft_free(posts: Seq<Post>, i: int)
    requires
        0 <= i < spec_store(posts).len(),
    ensures
        non_draft(spec_store(posts)[i]),
{
    let f = spec_non_draft(posts);
    lemma_sort_desc_elems(f);
    let m = choose|m: int| 0 <= m < f.len() && spec_store(posts)[i] == f[m];
    posts.lemma_filter_pred(non_draft_pred(), m);
}

/// The sort's order law: the sorted sequence descends by publish key.
pub proof fn lemma_sort_desc_sorted(s: Seq<Post>)
    ensures
        sorted_desc(spec_sort_desc(s)),
    decreases s.len(),
{
    if s.len() == 0 {
    } else {
        lemma_sort_desc_sorted(s.drop_last());
        lemma_insert_desc_sorted(s.last(), spec_sort_desc(s.drop_last()));
    }
}

proof fn lemma_key_filter_empty(s: Seq<Post>, k: int)
    requires
        forall|i: int| 0 <= i < s.len() ==> post_key(#[trigger] s[i]) != k,
    ensures
        key_filter(s, k) =~= Seq::<Post>::empty(),
    decreases s.len(),
{
    reveal(Seq::filter);
    if s.len() > 0 {
        let d = s.drop_last();
        assert forall|i: int| 0 <= i < d.len() implies post_key(#[trigger] d[i]) != k by {
            assert(d[i] == s[i]);
        }
        lemma_key_filter_empty(d, k);
        assert(post_key(s.last()) != k);
    }
}

proof fn lemma_filter_singleton(p: Post, pred: spec_fn(Post) -> bool)
    ensures
        seq![p].filter(pred) == if pred(p) {
            seq![p]
        } else {
            Seq::<Post>::empty()
        },
{
    reveal(Seq::filter);
    let s = seq![p];
    assert(s.last() == p);
    assert(s.drop_last() =~= Seq::<Post>::empty());
    assert(s.drop_last().filter(pred) =~= Seq::<Post>::empty());
    if pred(p) {
        assert(s.filter(pred) =~= Seq::<Post>::empty().push(p));
        assert(Seq::<Post>::empty().push(p) =~= seq![p]);
    }
}

proof fn lemma_insert_desc_key_filter(p: Post, s: Seq<Post>, k: int)
    requires
        sorted_desc(s),
    ensures
        key_filter(spec_insert_desc(p, s), k) == if post_key(p) == k {
            key_filter(s, k).push(p)
        } else {
            key_filter(s, k)
        },
    decreases s.len(),
{
    reveal(Seq::filter);
    let pred = key_pred(k);
    let r = spec_insert_desc(p, s);
    lemma_filter_singleton(p, pred);
    if s.len() == 0 {
        if post_key(p) == k {
            assert(key_filter(s, k) =~= Seq::<Post>::empty());
            assert(r.filter(pred) =~= key_filter(s, k).push(p));
        }
    } else if post_key(p) > post_key(s[0]) {
        Seq::filter_distributes_over_add(seq![p], s, pred);
        if post_key(p) == k {
            assert forall|i: int| 0 <= i < s.len() implies post_key(#[trigger] s[i]) != k by {
                if i > 0 {
                    assert(post_key(s[0]) >= post_key(s[i]));
                }
            }
            lemma_key_filter_empty(s, k);
            assert(key_filter(r, k) =~= key_filter(s, k).push(p));
        } else {
            assert(key_filter(r, k) =~= key_filter(s, k));
        }
    } else {
        let s1 = s.subrange(1, s.len() as int);
        assert forall|i: int, j: int| 0 <= i < j < s1.len() implies post_key(s1[i]) >= post_key(
            s1[j],
        ) by {
            assert(s1[i] == s[i + 1] && s1[j] == s[j + 1]);
        }
        lemma_insert_desc_key_filter(p, s1, k);
        lemma_filter_singleton(s[0], pred);
        let r1 = spec_insert_desc(p, s1);
        assert(r == seq![s[0]] + r1);
        Seq::filter_distributes_over_add(seq![s[0]], r1, pred);
        assert(s =~= seq![s[0]] + s1);
        Seq::filter_distributes_over_add(seq![s[0]], s1, pred);
        if post_key(p) == k {
            assert(key_filter(r, k) =~= key_filter(s, k).push(p));
        } else {
            assert(key_filter(r, k) =~= key_filter(s, k));
        }
    }
}

/// The sort's stability law: for any key, the posts of that key stand in
/// the sorted sequence exactly as they stood in the input.
pub proof fn lemma_sort_desc_stable(s: Seq<Post>, k: int)
    ensures
        key_filter(spec_sort_desc(s), k) == key_filter(s, k),
    decreases s.len(),
{
    reveal(Seq::filter);
    let pred = key_pred(k);
    if s.len() == 0 {
        assert(key_filter(s, k) =~= Seq::<Post>::empty());
    } else {
        let d = s.drop_last();
        lemma_sort_desc_stable(d, k);
        lemma_sort_desc_sorted(d);
        lemma_insert_desc_key_filter(s.last(), spec_sort_desc(d), k);
    }
}

proof fn lemma_key_filter_one(s: Seq<Post>, k: int, i: int)
    requires
        0 <= i < s.len(),
        post_key(s[i]) == k,
    ensures
        key_filter(s, k).len() >= 1,
{
    let pred = key_pred(k);
    s.lemma_filter_contains(pred, i);
}

proof fn lemma_key_filter_two(s: Seq<Post>, k: int, i: int, j: int)
    requires
        0 <= i < j < s.len(),
        post_key(s[i]) == k,
        post_key(s[j]) == k,
    ensures
        key_filter(s, k).len() >= 2,
{
    let pred = key_pred(k);
    let a = s.subrange(0, i + 1);
    let b = s.subrange(i + 1, s.len() as int);
    assert(s =~= a + b);
    Seq::filter_distributes_over_add(a, b, pred);
    assert(a[i] == s[i]);
    lemma_key_filter_one(a, k, i);
    assert(b[j - i - 1] == s[j]);
    lemma_key_filter_one(b, k, j - i - 1);
}

/// The strict order law: when no two posts share a publish key, the sorted
/// sequence descends strictly.
pub proof fn lemma_sort_desc_strict(s: Seq<Post>)
    requires
        forall|i: int, j: int|
            0 <= i < j < s.len() ==> post_key(#[trigger] s[i]) != post_key(#[trigger] s[j]),
    ensures
        forall|i: int, j: int|
            0 <= i < j < spec_sort_desc(s).len() ==> post_key(#[trigger] spec_sort_desc(s)[i])
                > post_key(#[trigger] spec_sort_desc(s)[j]),
{
    let r = spec_sort_desc(s);
    lemma_sort_desc_sorted(s);
    assert forall|i: int, j: int| 0 <= i < j < r.len() implies post_key(#[trigger] r[i])
        > post_key(#[trigger] r[j]) by {
        if post_key(r[i]) == post_key(r[j]) {
            let k = post_key(r[i]);
            lemma_key_filter_two(r, k, i, j);
            lemma_sort_desc_stable(s, k);
            lemma_key_filter_distinct(s, k);
        }
    }
}

proof fn lemma_key_filter_distinct(s: Seq<Post>, k: int)
    requires
        forall|i: int, j: int|
            0 <= i < j < s.len() ==> post_key(#[trigger] s[i]) != post_key(#[trigger] s[j]),
    ensures
        key_filter(s, k).len() <= 1,
    decreases s.len(),
{
    reveal(Seq::filter);
    if s.len() > 0 {
        let d = s.drop_last();
        assert forall|i: int, j: int| 0 <= i < j < d.len() implies post_key(#[trigger] d[i])
            != post_key(#[trigger] d[j]) by {
            assert(d[i] == s[i] && d[j] == s[j]);
        }
        lemma_key_filter_distinct(d, k);
        if post_key(s.last()) == k {
            assert forall|i: int| 0 <= i < d.len() implies post_key(#[trigger] d[i]) != k by {
                assert(d[i] == s[i]);
                assert(post_key(s[i]) != post_key(s[s.len() - 1]));
            }
            lemma_key_filter_empty(d, k);
        }
    }
}

#[verifier::loop_isolation(false)]
fn insert_sorted(sorted: &mut Vec<Post>, p: Post)
    ensures
        final(sorted)@ == spec_insert_desc(p, old(sorted)@),
{
    let key = date_key_num(&p.pub_date);
    let mut j: usize = 0;
    while j < sorted.len() && date_key_num(&sorted[j].pub_date) >= key
        invariant
            j <= sorted@.len(),
            sorted@ == old(sorted)@,
            forall|k: int| 0 <= k < j ==> post_key(p) <= post_key(#[trigger] sorted@[k]),
        decreases sorted@.len() - j,
    {
        j += 1;
    }
    proof {
        lemma_insert_desc_at(p, sorted@, j as int);
    }
    let ghost before = sorted@;
    sorted.insert(j, p);
    proof {
        assert(sorted@ =~= before.subrange(0, j as int) + seq![p] + before.subrange(
            j as int,
            before.len() as int,
        ));
    }
}

/// Sort posts by publish date, newest first, stably: the result is exactly
/// `spec_sort_desc` of the input.
#[verifier::loop_isolation(false)]
pub fn sort_posts(posts: Vec<Post>) -> (r: Vec<Post>)
    ensures
        r@ == spec_sort_desc(posts@),
{
    let ghost orig = posts@;
    let mut rest = posts;
    let mut sorted: Vec<Post> = Vec::new();
    while rest.len() > 0
        invariant
            rest@.len() <= orig.len(),
            rest@ == orig.subrange(orig.len() - rest@.len(), orig.len() as int),
            sorted@ == spec_sort_desc(orig.subrange(0, orig.len() - rest@.len())),
        decreases rest@.len(),
    {
        let ghost done_before = orig.len() - rest@.len();
        let p = rest.remove(0);
        insert_sorted(&mut sorted, p);
        proof {
            let done = done_before + 1;
            assert(p == orig[done_before as int]);
            assert(rest@ =~= orig.subrange(done as int, orig.len() as int));
            let prefix = orig.subrange(0, done_before as int);
            let prefix1 = orig.subrange(0, done as int);
            assert(prefix1 =~= prefix.push(p));
            assert(prefix1.drop_last() =~= prefix);
            assert(prefix1.last() == p);
            assert(spec_sort_desc(prefix1) == spec_insert_desc(p, spec_sort_desc(prefix)));
        }
    }
    proof {
        assert(orig.subrange(0, orig.len() as int) =~= orig);
    }
    sorted
}

/// Collect the store for one build: parsed posts come in, drafts are
/// dropped, and what remains is stably sorted, newest first. No draft ever
/// reaches an index, a group, the feed or the sitemap, because every
/// generator reads this store.
#[verifier::loop_isolation(false)]
pub fn build_store(posts: Vec<Post>) -> (r: Vec<Post>)
    ensures
        r@ == spec_store(posts@),
        forall|i: int| 0 <= i < r@.len() ==> non_draft(#[trigger] r@[i]),
        sorted_desc(r@),
{
    let ghost orig = posts@;
    let mut rest = posts;
    let mut kept: Vec<Post> = Vec::new();
    proof {
        reveal(Seq::filter);
        assert(orig.subrange(0, orig.len() as int) =~= orig);
        assert(spec_non_draft(orig.subrange(0, 0)) =~= Seq::<Post>::empty());
    }
    while rest.len() > 0
        invariant
            rest@.len() <= orig.len(),
            rest@ == orig.subrange(orig.len() - rest@.len(), orig.len() as int),
            kept@ == spec_non_draft(orig.subrange(0, orig.len() - rest@.len())),
        decreases rest@.len(),
    {
        let ghost done_before = orig.len() - rest@.len();
        let p = rest.remove(0);
        let ghost kept_before = kept@;
        let keep = !p.frontmatter.draft;
        if keep {
            kept.push(p);
        }
        proof {
            reveal(Seq::filter);
            let done = done_before + 1;
            assert(rest@ =~= orig.subrange(done as int, orig.len() as int));
            let prefix = orig.subrange(0, done_before as int);
            let prefix1 = orig.subrange(0, done as int);
            assert(prefix1 =~= prefix.push(p));
            assert(prefix1.drop_last() =~= prefix);
            assert(prefix1.last() == p);
            assert(kept@ == spec_non_draft(prefix1));
        }
    }
    proof {
        assert(orig.subrange(0, orig.len() as int) =~= orig);
    }
    let store = sort_posts(kept);
    proof {
        lemma_sort_desc_sorted(spec_non_draft(orig));
        assert forall|i: int| 0 <= i < store@.len() implies non_draft(#[trigger] store@[i]) by {
            lemma_store_draft_free(orig, i);
        }
    }
    store
}

} // verus!
