use vstd::prelude::*;

use vstd::multiset::Multiset;

use crate::note_text::line_views;

verus! {

broadcast use vstd::seq_lib::group_to_multiset_ensures;

/// Whether the name `a` comes no later than `b` in lexicographic order,
/// comparing characters by their code points.
pub open spec fn name_le(a: Seq<char>, b: Seq<char>) -> bool
    decreases a.len(),
{
    if a.len() == 0 {
        true
    } else if b.len() == 0 {
        false
    } else if a[0] != b[0] {
        a[0] < b[0]
    } else {
        name_le(a.drop_first(), b.drop_first())
    }
}

/// Whether the names of `s` are in lexicographic order.
pub open spec fn names_sorted(s: Seq<Seq<char>>) -> bool {
    forall|i: int, j: int| 0 <= i < j < s.len() ==> name_le(#[trigger] s[i], #[trigger] s[j])
}

/// The order of names is transitive.
pub proof fn lemma_name_le_transitive(a: Seq<char>, b: Seq<char>, c: Seq<char>)
    requires
        name_le(a, b),
        name_le(b, c),
    ensures
        name_le(a, c),
    decreases a.len(),
{
    if a.len() > 0 && b.len() > 0 && c.len() > 0 && a[0] == b[0] && b[0] == c[0] {
        lemma_name_le_transitive(a.drop_first(), b.drop_first(), c.drop_first());
    }
}

/// Any two names are ordered one way or the other.
pub proof fn lemma_name_le_total(a: Seq<char>, b: Seq<char>)
    ensures
        name_le(a, b) || name_le(b, a),
    decreases a.len(),
{
    if a.len() > 0 && b.len() > 0 && a[0] == b[0] {
        lemma_name_le_total(a.drop_first(), b.drop_first());
    }
}

/// Whether `a` comes no later than `b`; see `name_le`.
pub fn name_le_exec(a: &Vec<char>, b: &Vec<char>) -> (r: bool)
    ensures
        r == name_le(a@, b@),
{
    let mut i: usize = 0;
    proof {
        assert(a@.subrange(0, a@.len() as int) =~= a@);
        assert(b@.subrange(0, b@.len() as int) =~= b@);
    }
    while i < a.len() && i < b.len()
        invariant
            i <= a@.len(),
            i <= b@.len(),
            name_le(a@, b@) == name_le(
                a@.subrange(i as int, a@.len() as int),
                b@.subrange(i as int, b@.len() as int),
            ),
        decreases a@.len() - i,
    {
        let ghost ra = a@.subrange(i as int, a@.len() as int);
        let ghost rb = b@.subrange(i as int, b@.len() as int);
        proof {
            assert(ra[0] == a@[i as int]);
            assert(rb[0] == b@[i as int]);
        }
        if a[i] != b[i] {
            return a[i] < b[i];
        }
        proof {
            assert(ra.drop_first() =~= a@.subrange(i + 1, a@.len() as int));
            assert(rb.drop_first() =~= b@.subrange(i + 1, b@.len() as int));
        }
        i = i + 1;
    }
    proof {
        if i < a.len() {
            assert(b@.subrange(i as int, b@.len() as int).len() == 0);
        }
    }
    i == a.len()
}

/// The listing `names` sorted in lexicographic order; the same names, each
/// as often as it was given.
pub fn sort_names(names: Vec<Vec<char>>) -> (r: Vec<Vec<char>>)
    ensures
        names_sorted(line_views(r@)),
        line_views(r@).to_multiset() == line_views(names@).to_multiset(),
{
    let mut rest = names;
    let mut r: Vec<Vec<char>> = Vec::new();
    proof {
        assert(line_views(r@) =~= Seq::<Seq<char>>::empty());
    }
    while rest.len() > 0
        invariant
            names_sorted(line_views(r@)),
            line_views(r@).to_multiset().add(line_views(rest@).to_multiset()) == line_views(
                names@,
            ).to_multiset(),
        decreases rest@.len(),
    {
        let ghost before = rest@;
        let ghost sorted = line_views(r@);
        let x = rest.pop().unwrap();
        proof {
            assert(line_views(before) =~= line_views(rest@).push(x@));
        }
        let mut p: usize = 0;
        while p < r.len() && name_le_exec(&r[p], &x)
            invariant
                p <= r@.len(),
                sorted == line_views(r@),
                forall|i: int| 0 <= i < p ==> name_le(#[trigger] sorted[i], x@),
            decreases r@.len() - p,
        {
            p = p + 1;
        }
        proof {
            if p < r.len() {
                lemma_name_le_total(sorted[p as int], x@);
                assert forall|k: int| p <= k < sorted.len() implies name_le(
                    x@,
                    #[trigger] sorted[k],
                ) by {
                    if k > p {
                        assert(name_le(sorted[p as int], sorted[k]));
                        lemma_name_le_transitive(x@, sorted[p as int], sorted[k]);
                    }
                }
            }
        }
        r.insert(p, x);
        proof {
            let now = line_views(r@);
            assert(now =~= sorted.insert(p as int, x@));
            assert forall|i: int, j: int| 0 <= i < j < now.len() implies name_le(
                #[trigger] now[i],
                #[trigger] now[j],
            ) by {
                if j < p {
                    assert(now[i] == sorted[i] && now[j] == sorted[j]);
                } else if j == p {
                    assert(now[i] == sorted[i]);
                } else if i < p {
                    assert(now[i] == sorted[i] && now[j] == sorted[j - 1]);
                    assert(name_le(sorted[i], x@));
                    assert(name_le(x@, sorted[j - 1]));
                    lemma_name_le_transitive(sorted[i], x@, sorted[j - 1]);
                } else if i == p {
                    assert(now[j] == sorted[j - 1]);
                } else {
                    assert(now[i] == sorted[i - 1] && now[j] == sorted[j - 1]);
                }
            }
            assert(now.to_multiset() =~= sorted.to_multiset().insert(x@));
            assert(line_views(before).to_multiset() =~= line_views(rest@).to_multiset().insert(
                x@,
            ));
            assert(now.to_multiset().add(line_views(rest@).to_multiset()) =~= line_views(
                names@,
            ).to_multiset());
        }
    }
    proof {
        assert(line_views(rest@) =~= Seq::<Seq<char>>::empty());
        assert(line_views(r@).to_multiset().add(Multiset::empty()) =~= line_views(
            r@,
        ).to_multiset());
    }
    r
}

} // verus!
