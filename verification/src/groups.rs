//! Grouping: from a per-record list of keys to one `Group` per distinct
//! key, its members listed in record order.
//!
//! Tag pages and category pages are both groupings; they differ only in
//! which keys a post contributes, so each hands this module its key lists.

use vstd::prelude::*;
use crate::models::Group;

verus! {

/// Whether one record's key list carries the key.
pub open spec fn spec_has_key(ks: Seq<String>, t: Seq<char>) -> bool {
    exists|k: int| 0 <= k < ks.len() && ks[k]@ == t
}

/// Whether some string of the list reads `t`.
pub open spec fn seq_has_str(d: Seq<String>, t: Seq<char>) -> bool {
    exists|g: int| 0 <= g < d.len() && d[g]@ == t
}

/// Whether the member list carries record `i`.
pub open spec fn has_member(m: Seq<usize>, i: int) -> bool {
    exists|j: int| 0 <= j < m.len() && m[j] == i
}

/// Whether some group carries the key.
pub open spec fn group_with_key(r: Seq<Group>, t: Seq<char>) -> bool {
    exists|g: int| 0 <= g < r.len() && r[g].key@ == t
}

/// Whether the key occurs in some record's key list.
pub open spec fn from_keys(keys: Seq<Vec<String>>, t: Seq<char>) -> bool {
    exists|ii: int, kk: int|
        0 <= ii < keys.len() && 0 <= kk < keys[ii]@.len() && keys[ii]@[kk]@ == t
}

proof fn lemma_seq_has_str_push(d: Seq<String>, x: String, t: Seq<char>)
    requires
        seq_has_str(d, t),
    ensures
        seq_has_str(d.push(x), t),
{
    let g0 = choose|g0: int| 0 <= g0 < d.len() && d[g0]@ == t;
    assert(d.push(x)[g0]@ == t);
}

proof fn lemma_has_member_push(m: Seq<usize>, x: usize, i: int)
    requires
        has_member(m, i),
    ensures
        has_member(m.push(x), i),
{
    let j0 = choose|j0: int| 0 <= j0 < m.len() && m[j0] == i;
    assert(m.push(x)[j0] == i);
}

/// Does the record carry this key? A linear scan of its key list.
fn has_key(ks: &Vec<String>, t: &String) -> (b: bool)
    ensures
        b == spec_has_key(ks@, t@),
{
    let mut k: usize = 0;
    while k < ks.len()
        invariant
            k <= ks@.len(),
            forall|kk: int| 0 <= kk < k ==> ks@[kk]@ != t@,
        decreases ks@.len() - k,
    {
        if ks[k] == *t {
            return true;
        }
        k += 1;
    }
    false
}

fn key_position(keys: &Vec<String>, t: &String) -> (o: Option<usize>)
    ensures
        o is Some ==> 0 <= o->0 < keys@.len() && keys@[o->0 as int]@ == t@,
        o is None ==> !seq_has_str(keys@, t@),
{
    let mut g: usize = 0;
    while g < keys.len()
        invariant
            g <= keys@.len(),
            forall|gg: int| 0 <= gg < g ==> keys@[gg]@ != t@,
        decreases keys@.len() - g,
    {
        if keys[g] == *t {
            return Some(g);
        }
        g += 1;
    }
    None
}

/// Collect the distinct keys over all records, first occurrence first.
#[verifier::loop_isolation(false)]
fn distinct_keys(keys: &Vec<Vec<String>>) -> (dk: Vec<String>)
    ensures
        forall|a: int, b: int| 0 <= a < b < dk@.len() ==> dk@[a]@ != dk@[b]@,
        forall|i: int, k: int|
            #![trigger keys@[i]@[k]]
            0 <= i < keys@.len() && 0 <= k < keys@[i]@.len() ==> seq_has_str(dk@, keys@[i]@[k]@),
        forall|g: int| 0 <= g < dk@.len() ==> from_keys(keys@, #[trigger] dk@[g]@),
{
    let mut dk: Vec<String> = Vec::new();
    let mut i: usize = 0;
    while i < keys.len()
        invariant
            i <= keys@.len(),
            forall|a: int, b: int| 0 <= a < b < dk@.len() ==> dk@[a]@ != dk@[b]@,
            forall|ii: int, k: int|
                #![trigger keys@[ii]@[k]]
                0 <= ii < i && 0 <= k < keys@[ii]@.len() ==> seq_has_str(dk@, keys@[ii]@[k]@),
            forall|g: int| 0 <= g < dk@.len() ==> from_keys(keys@, #[trigger] dk@[g]@),
        decreases keys@.len() - i,
    {
        let ks = &keys[i];
        let mut k: usize = 0;
        while k < ks.len()
            invariant
                k <= ks@.len(),
                forall|a: int, b: int| 0 <= a < b < dk@.len() ==> dk@[a]@ != dk@[b]@,
                forall|ii: int, kk: int|
                    #![trigger keys@[ii]@[kk]]
                    0 <= ii < i && 0 <= kk < keys@[ii]@.len() ==> seq_has_str(dk@, keys@[ii]@[kk]@),
                forall|kk: int| 0 <= kk < k ==> seq_has_str(dk@, #[trigger] ks@[kk]@),
                forall|g: int| 0 <= g < dk@.len() ==> from_keys(keys@, #[trigger] dk@[g]@),
            decreases ks@.len() - k,
        {
            let t = &ks[k];
            match key_position(&dk, t) {
                Some(at) => {
                    proof {
                        assert(dk@[at as int]@ == ks@[k as int]@);
                        assert(seq_has_str(dk@, ks@[k as int]@));
                    }
                },
                None => {
                    let ghost dk_old = dk@;
                    dk.push(t.clone());
                    proof {
                        assert(dk@ =~= dk_old.push(*t));
                        assert(dk@[dk_old.len() as int]@ == ks@[k as int]@);
                        assert(seq_has_str(dk@, ks@[k as int]@));
                        assert(ks@[k as int]@ == keys@[i as int]@[k as int]@);
                        assert(from_keys(keys@, dk@[dk_old.len() as int]@));
                        assert forall|ii: int, kk: int|
                            #![trigger keys@[ii]@[kk]]
                            0 <= ii < i && 0 <= kk < keys@[ii]@.len() implies seq_has_str(
                            dk@,
                            keys@[ii]@[kk]@,
                        ) by {
                            lemma_seq_has_str_push(dk_old, *t, keys@[ii]@[kk]@);
                        }
                        assert forall|kk: int| 0 <= kk < k implies seq_has_str(
                            dk@,
                            #[trigger] ks@[kk]@,
                        ) by {
                            lemma_seq_has_str_push(dk_old, *t, ks@[kk]@);
                        }
                        assert forall|g: int| 0 <= g < dk@.len() implies from_keys(
                            keys@,
                            #[trigger] dk@[g]@,
                        ) by {
                            if g < dk_old.len() {
                                assert(dk@[g]@ == dk_old[g]@);
                            }
                        }
                    }
                },
            }
            k += 1;
        }
        proof {
            assert(ks@ == keys@[i as int]@);
            assert forall|ii: int, kk: int|
                #![trigger keys@[ii]@[kk]]
                0 <= ii < i + 1 && 0 <= kk < keys@[ii]@.len() implies seq_has_str(
                dk@,
                keys@[ii]@[kk]@,
            ) by {
                if ii == i {
                    assert(seq_has_str(dk@, ks@[kk]@));
                }
            }
        }
        i += 1;
    }
    dk
}

/// Collect, in record order, every record that carries the key.
#[verifier::loop_isolation(false)]
fn collect_members(keys: &Vec<Vec<String>>, t: &String) -> (m: Vec<usize>)
    ensures
        forall|j: int|
            0 <= j < m@.len() ==> m@[j] < keys@.len() && spec_has_key(
                keys@[#[trigger] m@[j] as int]@,
                t@,
            ),
        forall|i: int|
            0 <= i < keys@.len() && spec_has_key(#[trigger] keys@[i]@, t@) ==> has_member(m@, i),
        forall|j1: int, j2: int| 0 <= j1 < j2 < m@.len() ==> m@[j1] < m@[j2],
{
    let mut m: Vec<usize> = Vec::new();
    let mut i: usize = 0;
    while i < keys.len()
        invariant
            i <= keys@.len(),
            forall|j: int|
                0 <= j < m@.len() ==> m@[j] < i && spec_has_key(keys@[#[trigger] m@[j] as int]@, t@),
            forall|ii: int|
                0 <= ii < i && spec_has_key(#[trigger] keys@[ii]@, t@) ==> has_member(m@, ii),
            forall|j1: int, j2: int| 0 <= j1 < j2 < m@.len() ==> m@[j1] < m@[j2],
        decreases keys@.len() - i,
    {
        let carried = has_key(&keys[i], t);
        if carried {
            let ghost m_old = m@;
            m.push(i);
            proof {
                assert(m@ =~= m_old.push(i));
                assert(m@[m_old.len() as int] == i as int);
                assert(has_member(m@, i as int));
                assert forall|ii: int|
                    0 <= ii < i + 1 && spec_has_key(#[trigger] keys@[ii]@, t@) implies has_member(
                    m@,
                    ii,
                ) by {
                    if ii < i {
                        lemma_has_member_push(m_old, i, ii);
                    }
                }
            }
        } else {
            proof {
                assert(!spec_has_key(keys@[i as int]@, t@));
            }
        }
        i += 1;
    }
    m
}

/// Whether a group sequence is the grouping of the given key lists: group
/// keys distinct and drawn from the records, every record key present,
/// members exact and in increasing record order.
pub open spec fn spec_grouping(r: Seq<Group>, keys: Seq<Vec<String>>) -> bool {
    &&& forall|a: int, b: int| 0 <= a < b < r.len() ==> r[a].key@ != r[b].key@
    &&& forall|g: int, j: int|
        0 <= g < r.len() && 0 <= j < r[g].members@.len() ==> #[trigger] r[g].members@[j]
            < keys.len() && spec_has_key(keys[r[g].members@[j] as int]@, r[g].key@)
    &&& forall|g: int, j1: int, j2: int|
        0 <= g < r.len() && 0 <= j1 < j2 < r[g].members@.len() ==> #[trigger] r[g].members@[j1]
            < #[trigger] r[g].members@[j2]
    &&& forall|i: int, k: int|
        #![trigger keys[i]@[k]]
        0 <= i < keys.len() && 0 <= k < keys[i]@.len() ==> group_with_key(r, keys[i]@[k]@)
    &&& forall|g: int, i: int|
        0 <= g < r.len() && 0 <= i < keys.len() && spec_has_key(
            #[trigger] keys[i]@,
            #[trigger] r[g].key@,
        ) ==> has_member(r[g].members@, i)
}

/// Group the records by their keys.
#[verifier::loop_isolation(false)]
pub(crate) fn group_by_keys(keys: &Vec<Vec<String>>) -> (r: Vec<Group>)
    ensures
        spec_grouping(r@, keys@),
{
    let dk = distinct_keys(keys);
    let mut r: Vec<Group> = Vec::new();
    let mut g: usize = 0;
    while g < dk.len()
        invariant
            g <= dk@.len(),
            r@.len() == g,
            forall|gg: int| 0 <= gg < g ==> #[trigger] r@[gg].key@ == dk@[gg]@,
            forall|gg: int, j: int|
                0 <= gg < g && 0 <= j < r@[gg].members@.len() ==> #[trigger] r@[gg].members@[j]
                    < keys@.len() && spec_has_key(keys@[r@[gg].members@[j] as int]@, r@[gg].key@),
            forall|gg: int, j1: int, j2: int|
                0 <= gg < g && 0 <= j1 < j2 < r@[gg].members@.len() ==> #[trigger] r@[
                    gg
                ].members@[j1] < #[trigger] r@[gg].members@[j2],
            forall|gg: int, i: int|
                0 <= gg < g && 0 <= i < keys@.len() && spec_has_key(
                    #[trigger] keys@[i]@,
                    #[trigger] r@[gg].key@,
                ) ==> has_member(r@[gg].members@, i),
        decreases dk@.len() - g,
    {
        let key = dk[g].clone();
        let members = collect_members(keys, &key);
        r.push(Group { key, members });
        g += 1;
    }
    proof {
        assert forall|i: int, k: int|
            #![trigger keys@[i]@[k]]
            0 <= i < keys@.len() && 0 <= k < keys@[i]@.len() implies group_with_key(
            r@,
            keys@[i]@[k]@,
        ) by {
            let g0 = choose|g0: int| 0 <= g0 < dk@.len() && dk@[g0]@ == keys@[i]@[k]@;
            assert(r@[g0].key@ == keys@[i]@[k]@);
        }
    }
    r
}

} // verus!
