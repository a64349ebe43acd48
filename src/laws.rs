use vstd::prelude::*;

use crate::catalog::{
    build_dependency_stream, count_matching, distinct_build_dependencies, first_occurrences,
};
use crate::formula::FormulaView;
use crate::matcher::depends_on;

verus! {

/// `x` stands in `s` somewhere before position `m`.
pub open spec fn occurs_before(s: Seq<Seq<char>>, x: Seq<char>, m: int) -> bool {
    exists|k: int| 0 <= k < m && s[k] == x
}

/// The match count is the size of the part of the catalog that depends on
/// the query.
pub proof fn lemma_count_is_filter_size(catalog: Seq<FormulaView>, query: Seq<char>)
    ensures
        count_matching(catalog, query) == catalog.filter(|f: FormulaView| depends_on(f, query)).len(),
    decreases catalog.len(),
{
    reveal(Seq::filter);
    if catalog.len() > 0 {
        lemma_count_is_filter_size(catalog.drop_last(), query);
    }
}

/// Taking one formula out lowers the count by one exactly when it matched.
proof fn lemma_count_remove(catalog: Seq<FormulaView>, i: int, query: Seq<char>)
    requires
        0 <= i < catalog.len(),
    ensures
        count_matching(catalog, query) == count_matching(catalog.remove(i), query) + if depends_on(
            catalog[i],
            query,
        ) {
            1nat
        } else {
            0nat
        },
    decreases catalog.len(),
{
    if i == catalog.len() - 1 {
        assert(catalog.remove(i) =~= catalog.drop_last());
    } else {
        lemma_count_remove(catalog.drop_last(), i, query);
        assert(catalog.remove(i).drop_last() =~= catalog.drop_last().remove(i));
        assert(catalog.remove(i).last() == catalog.last());
    }
}

/// The match count does not depend on the order of the catalog: two
/// catalogs that hold the same formulae, as many times each, give the same
/// count.
pub proof fn lemma_count_ignores_order(a: Seq<FormulaView>, b: Seq<FormulaView>, query: Seq<char>)
    requires
        a.to_multiset() == b.to_multiset(),
    ensures
        count_matching(a, query) == count_matching(b, query),
    decreases a.len(),
{
    broadcast use vstd::seq_lib::group_to_multiset_ensures;

    if a.len() == 0 {
        vstd::seq_lib::to_multiset_len(a);
        vstd::seq_lib::to_multiset_len(b);
        assert(b.len() == 0);
    } else {
        let x = a.last();
        let rest = a.drop_last();
        assert(rest.push(x) =~= a);
        assert(a.to_multiset().count(x) > 0);
        assert(b.contains(x));
        let j = choose|j: int| 0 <= j < b.len() && b[j] == x;
        assert(rest.to_multiset() =~= a.to_multiset().remove(x));
        assert(b.remove(j).to_multiset() =~= b.to_multiset().remove(x));
        lemma_count_ignores_order(rest, b.remove(j), query);
        lemma_count_remove(b, j, query);
    }
}

/// Keeping first occurrences leaves no name twice, keeps every name of the
/// input, and puts a name before another exactly when it first occurs
/// earlier: every occurrence of a later name comes after some occurrence of
/// each earlier one.
pub proof fn lemma_first_occurrences(s: Seq<Seq<char>>)
    ensures
        first_occurrences(s).no_duplicates(),
        forall|x: Seq<char>| first_occurrences(s).contains(x) <==> s.contains(x),
        forall|i: int, j: int, m: int|
            #![trigger first_occurrences(s)[i], first_occurrences(s)[j], s[m]]
            0 <= i < j < first_occurrences(s).len() && 0 <= m < s.len() && s[m]
                == first_occurrences(s)[j] ==> occurs_before(s, first_occurrences(s)[i], m),
    decreases s.len(),
{
    if s.len() > 0 {
        let p = s.drop_last();
        let x = s.last();
        let rp = first_occurrences(p);
        let r = first_occurrences(s);
        lemma_first_occurrences(p);
        assert(p.push(x) =~= s);
        assert forall|y: Seq<char>| r.contains(y) <==> s.contains(y) by {
            if s.contains(y) {
                let k = choose|k: int| 0 <= k < s.len() && s[k] == y;
                if k < p.len() {
                    assert(p[k] == y);
                    assert(p.contains(y));
                    assert(rp.contains(y));
                    let t = choose|t: int| 0 <= t < rp.len() && rp[t] == y;
                    assert(r[t] == y);
                } else if !rp.contains(x) {
                    assert(r[rp.len() as int] == y);
                }
            }
            if r.contains(y) {
                let t = choose|t: int| 0 <= t < r.len() && r[t] == y;
                if t < rp.len() {
                    assert(rp[t] == y);
                    assert(p.contains(y));
                    let k = choose|k: int| 0 <= k < p.len() && p[k] == y;
                    assert(s[k] == y);
                } else {
                    assert(s[s.len() - 1] == y);
                }
            }
        }
        assert forall|i: int, j: int, m: int|
            0 <= i < j < r.len() && 0 <= m < s.len() && s[m] == r[j] implies occurs_before(
            s,
            r[i],
            m,
        ) by {
            assert(r[i] == rp[i]);
            assert(rp.contains(rp[i]));
            assert(p.contains(rp[i]));
            let k0 = choose|k: int| 0 <= k < p.len() && p[k] == rp[i];
            assert(s[k0] == rp[i]);
            if m < p.len() {
                assert(s[m] == p[m]);
                if j < rp.len() {
                    assert(r[j] == rp[j]);
                    assert(occurs_before(p, rp[i], m));
                    let k = choose|k: int| 0 <= k < m && p[k] == rp[i];
                    assert(s[k] == rp[i]);
                } else {
                    assert(r[j] == x);
                    assert(p.contains(x));
                    assert(rp.contains(x));
                }
            }
        }
        if !rp.contains(x) {
            assert forall|i: int, j: int| 0 <= i < r.len() && 0 <= j < r.len() && i != j implies r[i]
                != r[j] by {
                if i < rp.len() && j < rp.len() {
                    assert(r[i] == rp[i] && r[j] == rp[j]);
                } else if i < rp.len() {
                    assert(r[i] == rp[i]);
                    assert(rp.contains(rp[i]));
                } else {
                    assert(r[j] == rp[j]);
                    assert(rp.contains(rp[j]));
                }
            }
        }
    }
}

/// The build dependency list of a catalog holds no name twice, holds every
/// build dependency of the catalog, and orders its names by where each first
/// occurs (catalog order, then each formula's own order).
pub proof fn lemma_build_dependencies_distinct_in_first_order(catalog: Seq<FormulaView>)
    ensures
        distinct_build_dependencies(catalog).no_duplicates(),
        forall|x: Seq<char>|
            distinct_build_dependencies(catalog).contains(x) <==> build_dependency_stream(
                catalog,
            ).contains(x),
        forall|i: int, j: int, m: int|
            #![trigger distinct_build_dependencies(catalog)[i], distinct_build_dependencies(catalog)[j], build_dependency_stream(catalog)[m]]
            0 <= i < j < distinct_build_dependencies(catalog).len() && 0 <= m
                < build_dependency_stream(catalog).len() && build_dependency_stream(catalog)[m]
                == distinct_build_dependencies(catalog)[j] ==> occurs_before(
                build_dependency_stream(catalog),
                distinct_build_dependencies(catalog)[i],
                m,
            ),
{
    lemma_first_occurrences(build_dependency_stream(catalog));
}

/// An empty catalog matches nothing and has no build dependencies.
pub proof fn lemma_empty_catalog(query: Seq<char>)
    ensures
        count_matching(Seq::<FormulaView>::empty(), query) == 0,
        distinct_build_dependencies(Seq::<FormulaView>::empty()) == Seq::<Seq<char>>::empty(),
{
}

} // verus!
