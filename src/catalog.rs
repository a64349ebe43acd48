use vstd::prelude::*;

use crate::formula::{strings_view, Formula, FormulaView};
use crate::matcher::{depends_on, PreparedQuery};

verus! {

/// The model of each formula of a catalog.
pub open spec fn catalog_view(catalog: Seq<Formula>) -> Seq<FormulaView> {
    catalog.map_values(|f: Formula| f@)
}

/// How many formulae of the catalog depend on the query.
pub open spec fn count_matching(catalog: Seq<FormulaView>, query: Seq<char>) -> nat
    decreases catalog.len(),
{
    if catalog.len() == 0 {
        0
    } else {
        count_matching(catalog.drop_last(), query) + if depends_on(catalog.last(), query) {
            1nat
        } else {
            0nat
        }
    }
}

/// Every build dependency of the catalog, formula after formula, each
/// formula's in its own order.
pub open spec fn build_dependency_stream(catalog: Seq<FormulaView>) -> Seq<Seq<char>>
    decreases catalog.len(),
{
    if catalog.len() == 0 {
        Seq::empty()
    } else {
        build_dependency_stream(catalog.drop_last()) + catalog.last().build_dependencies
    }
}

/// The names of `s`, each kept where it first occurs.
pub open spec fn first_occurrences(s: Seq<Seq<char>>) -> Seq<Seq<char>>
    decreases s.len(),
{
    if s.len() == 0 {
        Seq::empty()
    } else {
        let r = first_occurrences(s.drop_last());
        if r.contains(s.last()) {
            r
        } else {
            r.push(s.last())
        }
    }
}

/// The distinct build dependencies of the catalog, in order of first occurrence.
pub open spec fn distinct_build_dependencies(catalog: Seq<FormulaView>) -> Seq<Seq<char>> {
    first_occurrences(build_dependency_stream(catalog))
}

/// The number of formulae in `catalog` that depend on `query`.
pub fn count_matches(catalog: &[Formula], query: &str) -> (r: usize)
    ensures
        r == count_matching(catalog_view(catalog@), query@),
{
    let prepared = PreparedQuery::new(query);
    let ghost cv = catalog_view(catalog@);
    let mut count: usize = 0;
    let mut i: usize = 0;
    while i < catalog.len()
        invariant
            prepared.wf(),
            prepared.query() == query@,
            cv == catalog_view(catalog@),
            0 <= i <= catalog.len(),
            count <= i,
            count == count_matching(cv.subrange(0, i as int), query@),
        decreases catalog.len() - i,
    {
        let m = prepared.matches(&catalog[i]);
        proof {
            assert(cv.subrange(0, i + 1).drop_last() =~= cv.subrange(0, i as int));
            assert(cv.subrange(0, i + 1).last() == catalog@[i as int]@);
        }
        if m {
            count = count + 1;
        }
        i = i + 1;
    }
    proof {
        assert(cv.subrange(0, i as int) =~= cv);
    }
    count
}

/// Whether `v` holds a string equal to `s`.
fn contains_string(v: &Vec<String>, s: &String) -> (r: bool)
    ensures
        r == strings_view(v@).contains(s@),
{
    let ghost names = strings_view(v@);
    let mut i: usize = 0;
    while i < v.len()
        invariant
            names == strings_view(v@),
            0 <= i <= v.len(),
            forall|k: int| 0 <= k < i ==> names[k] != s@,
        decreases v.len() - i,
    {
        if v[i] == *s {
            assert(names[i as int] == s@);
            return true;
        }
        i = i + 1;
    }
    false
}

/// The distinct build dependencies of the whole catalog, each at the place
/// of its first occurrence (catalog order, then each formula's own order).
/// The length of the result is their number.
pub fn collect_build_dependencies(catalog: &[Formula]) -> (r: Vec<String>)
    ensures
        strings_view(r@) == distinct_build_dependencies(catalog_view(catalog@)),
{
    let ghost cv = catalog_view(catalog@);
    let mut result: Vec<String> = Vec::new();
    let mut i: usize = 0;
    proof {
        assert(strings_view(result@) =~= Seq::<Seq<char>>::empty());
    }
    while i < catalog.len()
        invariant
            cv == catalog_view(catalog@),
            0 <= i <= catalog.len(),
            strings_view(result@) == first_occurrences(
                build_dependency_stream(cv.subrange(0, i as int)),
            ),
        decreases catalog.len() - i,
    {
        let deps = catalog[i].build_dependencies();
        let ghost before = build_dependency_stream(cv.subrange(0, i as int));
        let ghost names = strings_view(deps@);
        let mut j: usize = 0;
        proof {
            assert(before + names.subrange(0, 0) =~= before);
        }
        while j < deps.len()
            invariant
                names == strings_view(deps@),
                0 <= j <= deps.len(),
                strings_view(result@) == first_occurrences(before + names.subrange(0, j as int)),
            decreases deps.len() - j,
        {
            let dep = &deps[j];
            proof {
                let next = before + names.subrange(0, j + 1);
                assert(next.drop_last() =~= before + names.subrange(0, j as int));
                assert(next.last() == dep@);
            }
            if !contains_string(&result, dep) {
                let ghost old_result = result@;
                result.push(dep.clone());
                proof {
                    assert(strings_view(result@) =~= strings_view(old_result).push(dep@));
                }
            }
            j = j + 1;
        }
        proof {
            let sub = cv.subrange(0, i + 1);
            assert(sub.drop_last() =~= cv.subrange(0, i as int));
            assert(sub.last() == catalog@[i as int]@);
            assert(names.subrange(0, j as int) =~= names);
        }
        i = i + 1;
    }
    proof {
        assert(cv.subrange(0, i as int) =~= cv);
    }
    result
}

} // verus!
