//! A stable shape for marshalled metadata: entries are kept sorted by a
//! lexicographic order on keys (then values), so that equal metadata always
//! marshals to the same sequence of pairs.

use vstd::prelude::*;
use vstd::multiset::Multiset;
use vstd::relations::{sorted_by, total_ordering};
use vstd::seq_lib::lemma_sorted_unique;

verus! {

/// Lexicographic less-or-equal on character sequences.
pub open spec fn lex_leq(a: Seq<char>, b: Seq<char>) -> bool
    decreases a.len(),
{
    if a.len() == 0 {
        true
    } else if b.len() == 0 {
        false
    } else if a[0] != b[0] {
        a[0] < b[0]
    } else {
        lex_leq(a.drop_first(), b.drop_first())
    }
}

/// Order on metadata entries: by key, then by value.
pub open spec fn metadata_leq() -> spec_fn((Seq<char>, Seq<char>), (Seq<char>, Seq<char>)) -> bool {
    |x: (Seq<char>, Seq<char>), y: (Seq<char>, Seq<char>)|
        if x.0 != y.0 {
            lex_leq(x.0, y.0)
        } else {
            lex_leq(x.1, y.1)
        }
}

/// One metadata entry, as a pair of character sequences.
pub open spec fn entry_view(p: (String, String)) -> (Seq<char>, Seq<char>) {
    (p.0@, p.1@)
}

/// A whole metadata vector, as a sequence of pairs of character sequences.
pub open spec fn entries_view(s: Seq<(String, String)>) -> Seq<(Seq<char>, Seq<char>)> {
    s.map_values(|p: (String, String)| entry_view(p))
}

pub proof fn lemma_lex_leq_reflexive(a: Seq<char>)
    ensures
        lex_leq(a, a),
    decreases a.len(),
{
    if a.len() > 0 {
        lemma_lex_leq_reflexive(a.drop_first());
    }
}

pub proof fn lemma_lex_leq_connected(a: Seq<char>, b: Seq<char>)
    ensures
        lex_leq(a, b) || lex_leq(b, a),
    decreases a.len(),
{
    if a.len() > 0 && b.len() > 0 && a[0] == b[0] {
        lemma_lex_leq_connected(a.drop_first(), b.drop_first());
    }
}

pub proof fn lemma_lex_leq_antisymmetric(a: Seq<char>, b: Seq<char>)
    requires
        lex_leq(a, b),
        lex_leq(b, a),
    ensures
        a == b,
    decreases a.len(),
{
    if a.len() == 0 {
        assert(b.len() == 0);
        assert(a =~= b);
    } else {
        assert(b.len() > 0);
        assert(a[0] == b[0]);
        lemma_lex_leq_antisymmetric(a.drop_first(), b.drop_first());
        assert(a.drop_first().len() == b.drop_first().len());
        assert(a.len() == b.len());
        assert forall|i: int| 0 <= i < a.len() implies a[i] == b[i] by {
            if i > 0 {
                assert(a[i] == a.drop_first()[i - 1]);
                assert(b[i] == b.drop_first()[i - 1]);
            }
        }
        assert(a =~= b);
    }
}

pub proof fn lemma_lex_leq_transitive(a: Seq<char>, b: Seq<char>, c: Seq<char>)
    requires
        lex_leq(a, b),
        lex_leq(b, c),
    ensures
        lex_leq(a, c),
    decreases a.len(),
{
    if a.len() > 0 && b.len() > 0 && c.len() > 0 && a[0] == b[0] && b[0] == c[0] {
        lemma_lex_leq_transitive(a.drop_first(), b.drop_first(), c.drop_first());
    }
}

/// The entry order is a total ordering, so a sorted sequence of entries is
/// uniquely determined by what it holds.
pub proof fn lemma_metadata_leq_total_ordering()
    ensures
        total_ordering(metadata_leq()),
{
    let r = metadata_leq();
    assert forall|x: (Seq<char>, Seq<char>)| #[trigger] r(x, x) by {
        lemma_lex_leq_reflexive(x.1);
    }
    assert forall|x: (Seq<char>, Seq<char>), y: (Seq<char>, Seq<char>)|
        #[trigger] r(x, y) && #[trigger] r(y, x) implies x == y by {
        if x.0 != y.0 {
            lemma_lex_leq_antisymmetric(x.0, y.0);
        } else {
            lemma_lex_leq_antisymmetric(x.1, y.1);
        }
    }
    assert forall|x: (Seq<char>, Seq<char>), y: (Seq<char>, Seq<char>), z: (Seq<char>, Seq<char>)|
        #[trigger] r(x, y) && #[trigger] r(y, z) implies r(x, z) by {
        if x.0 != y.0 {
            if y.0 != z.0 {
                lemma_lex_leq_transitive(x.0, y.0, z.0);
                if x.0 == z.0 {
                    lemma_lex_leq_antisymmetric(x.0, y.0);
                }
            }
        } else {
            if y.0 != z.0 {
            } else {
                lemma_lex_leq_transitive(x.1, y.1, z.1);
            }
        }
    }
    assert forall|x: (Seq<char>, Seq<char>), y: (Seq<char>, Seq<char>)|
        #[trigger] r(x, y) || #[trigger] r(y, x) by {
        if x.0 != y.0 {
            lemma_lex_leq_connected(x.0, y.0);
        } else {
            lemma_lex_leq_connected(x.1, y.1);
        }
    }
}

/// Two sorted metadata shapes holding the same entries are the same.
pub proof fn lemma_sorted_metadata_unique(
    a: Seq<(Seq<char>, Seq<char>)>,
    b: Seq<(Seq<char>, Seq<char>)>,
)
    requires
        sorted_by(a, metadata_leq()),
        sorted_by(b, metadata_leq()),
        a.to_multiset() == b.to_multiset(),
    ensures
        a == b,
{
    lemma_metadata_leq_total_ordering();
    lemma_sorted_unique(a, b, metadata_leq());
}

/// Lexicographic comparison of two strings.
pub fn str_lex_leq(a: &str, b: &str) -> (r: bool)
    ensures
        r == lex_leq(a@, b@),
{
    let an = a.unicode_len();
    let bn = b.unicode_len();
    let mut i: usize = 0;
    proof {
        assert(a@.skip(0) =~= a@);
        assert(b@.skip(0) =~= b@);
    }
    loop
        invariant
            an == a@.len(),
            bn == b@.len(),
            i <= an,
            i <= bn,
            lex_leq(a@, b@) == lex_leq(a@.skip(i as int), b@.skip(i as int)),
        decreases an - i,
    {
        if i == an {
            return true;
        }
        if i == bn {
            proof {
                assert(!lex_leq(a@.skip(i as int), b@.skip(i as int)));
            }
            return false;
        }
        let ca = a.get_char(i);
        let cb = b.get_char(i);
        proof {
            assert(a@.skip(i as int)[0] == a@[i as int]);
            assert(b@.skip(i as int)[0] == b@[i as int]);
            assert(a@.skip(i as int).drop_first() =~= a@.skip(i as int + 1));
            assert(b@.skip(i as int).drop_first() =~= b@.skip(i as int + 1));
        }
        if ca != cb {
            return ca < cb;
        }
        i = i + 1;
    }
}

/// Comparison of two metadata entries: by key, then by value.
fn entry_leq(a: &(String, String), b: &(String, String)) -> (r: bool)
    ensures
        r == metadata_leq()(entry_view(*a), entry_view(*b)),
{
    if crate::text::str_eq(a.0.as_str(), b.0.as_str()) {
        str_lex_leq(a.1.as_str(), b.1.as_str())
    } else {
        str_lex_leq(a.0.as_str(), b.0.as_str())
    }
}

/// Inserts one entry into a sorted metadata vector, keeping it sorted.
fn insert_sorted(out: &mut Vec<(String, String)>, x: (String, String))
    requires
        sorted_by(entries_view(old(out)@), metadata_leq()),
    ensures
        sorted_by(entries_view(final(out)@), metadata_leq()),
        entries_view(final(out)@).to_multiset() == entries_view(old(out)@).to_multiset().insert(
            entry_view(x),
        ),
{
    broadcast use vstd::multiset::group_multiset_axioms;

    let n = out.len();
    let mut k: usize = 0;
    while k < n
        invariant
            n == out@.len(),
            k <= n,
            forall|j: int| 0 <= j < k ==> metadata_leq()(entry_view(out@[j]), entry_view(x)),
        ensures
            k <= n,
            forall|j: int| 0 <= j < k ==> metadata_leq()(entry_view(out@[j]), entry_view(x)),
            k < n ==> !metadata_leq()(entry_view(out@[k as int]), entry_view(x)),
        decreases n - k,
    {
        if !entry_leq(&out[k], &x) {
            break;
        }
        k = k + 1;
    }
    proof {
        lemma_metadata_leq_total_ordering();
    }
    let ghost old_entries = entries_view(out@);
    out.insert(k, x);
    proof {
        let new_entries = entries_view(out@);
        let ex = entry_view(x);
        assert(new_entries =~= old_entries.insert(k as int, ex));
        // sortedness of the new sequence
        assert forall|p: int, q: int| 0 <= p < q < new_entries.len() implies metadata_leq()(
            new_entries[p],
            new_entries[q],
        ) by {
            let r = metadata_leq();
            let ki = k as int;
            if p < ki && q < ki {
                assert(new_entries[p] == old_entries[p]);
                assert(new_entries[q] == old_entries[q]);
            } else if p < ki && q == ki {
                assert(new_entries[p] == old_entries[p]);
                assert(r(old_entries[p], ex));
            } else if p < ki && q > ki {
                assert(new_entries[p] == old_entries[p]);
                assert(new_entries[q] == old_entries[q - 1]);
            } else if p == ki && q > ki {
                assert(new_entries[q] == old_entries[q - 1]);
                // x goes before the first element it does not dominate
                assert(ki < old_entries.len());
                assert(!r(old_entries[ki], ex));
                assert(r(ex, old_entries[ki]));
                if q - 1 > ki {
                    assert(r(old_entries[ki], old_entries[q - 1]));
                }
                assert(r(ex, old_entries[q - 1]));
            } else {
                assert(p > ki && q > ki);
                assert(new_entries[p] == old_entries[p - 1]);
                assert(new_entries[q] == old_entries[q - 1]);
            }
        }
        // the multiset gains exactly the inserted entry
        let t = old_entries.insert(k as int, ex);
        assert(t.remove(k as int) =~= old_entries);
        assert(t[k as int] == ex);
        t.to_multiset_ensures();
        old_entries.to_multiset_ensures();
        assert(t.remove(k as int).to_multiset() =~= t.to_multiset().remove(ex));
        assert(t.to_multiset().contains(ex)) by {
            assert(t.contains(ex));
        }
        assert(t.to_multiset() =~= old_entries.to_multiset().insert(ex));
    }
}

/// Sorts a metadata vector into the stable shape: ascending by key, then by
/// value, holding exactly the entries it was given.
pub fn sort_metadata(v: Vec<(String, String)>) -> (r: Vec<(String, String)>)
    ensures
        sorted_by(entries_view(r@), metadata_leq()),
        entries_view(r@).to_multiset() == entries_view(v@).to_multiset(),
{
    broadcast use vstd::multiset::group_multiset_axioms;

    let ghost all = entries_view(v@);
    let mut out: Vec<(String, String)> = Vec::new();
    let mut rest = v;
    proof {
        let eo = entries_view(out@);
        assert(eo =~= Seq::<(Seq<char>, Seq<char>)>::empty());
        eo.to_multiset_ensures();
        assert forall|e: (Seq<char>, Seq<char>)| eo.to_multiset().count(e) == 0 by {
            assert(!eo.contains(e));
        }
        assert(eo.to_multiset() =~= Multiset::empty());
        assert(eo.to_multiset().add(entries_view(rest@).to_multiset()) =~= all.to_multiset());
    }
    while rest.len() > 0
        invariant
            sorted_by(entries_view(out@), metadata_leq()),
            entries_view(out@).to_multiset().add(entries_view(rest@).to_multiset())
                == all.to_multiset(),
        decreases rest@.len(),
    {
        let ghost pre_rest = entries_view(rest@);
        let ghost pre_out = entries_view(out@);
        let x = match rest.pop() {
            Some(x) => x,
            None => {
                return out;
            },
        };
        let ghost ex = entry_view(x);
        proof {
            assert(entries_view(rest@) =~= pre_rest.drop_last());
            assert(pre_rest =~= pre_rest.drop_last().push(ex));
            pre_rest.drop_last().to_multiset_ensures();
            assert(pre_rest.to_multiset() =~= pre_rest.drop_last().to_multiset().insert(ex));
        }
        insert_sorted(&mut out, x);
        proof {
            assert(entries_view(out@).to_multiset() == pre_out.to_multiset().insert(ex));
            assert(entries_view(out@).to_multiset().add(entries_view(rest@).to_multiset())
                =~= all.to_multiset());
        }
    }
    proof {
        let er = entries_view(rest@);
        assert(er =~= Seq::<(Seq<char>, Seq<char>)>::empty());
        er.to_multiset_ensures();
        assert forall|e: (Seq<char>, Seq<char>)| er.to_multiset().count(e) == 0 by {
            assert(!er.contains(e));
        }
        assert(er.to_multiset() =~= Multiset::empty());
        assert(entries_view(out@).to_multiset() =~= all.to_multiset());
    }
    out
}

} // verus!
