use vstd::prelude::*;

use crate::formula::{strings_view, Formula, FormulaView};

verus! {

/// A dependency name matches a query when it is the query itself, or the
/// query followed by `@` and a version.
pub open spec fn name_matches(dep: Seq<char>, query: Seq<char>) -> bool {
    dep == query || query.push('@').is_prefix_of(dep)
}

/// Some name of the list matches the query.
pub open spec fn any_name_matches(deps: Seq<Seq<char>>, query: Seq<char>) -> bool {
    exists|i: int| 0 <= i < deps.len() && name_matches(#[trigger] deps[i], query)
}

/// The optional dependencies, an absent list read as an empty one.
pub open spec fn optional_or_empty(f: FormulaView) -> Seq<Seq<char>> {
    match f.optional_dependencies {
        Some(o) => o,
        None => Seq::empty(),
    }
}

/// The five categories one after another: build, runtime, test,
/// recommended, optional.
pub open spec fn all_dependencies(f: FormulaView) -> Seq<Seq<char>> {
    f.build_dependencies + f.dependencies + f.test_dependencies + f.recommended_dependencies
        + optional_or_empty(f)
}

/// The formula depends on the query, in any category.
pub open spec fn depends_on(f: FormulaView, query: Seq<char>) -> bool {
    any_name_matches(all_dependencies(f), query)
}

/// A name of a concatenation matches when a name of either part does.
proof fn lemma_any_name_matches_concat(a: Seq<Seq<char>>, b: Seq<Seq<char>>, query: Seq<char>)
    ensures
        any_name_matches(a + b, query) == (any_name_matches(a, query) || any_name_matches(b, query)),
{
    let ab = a + b;
    if any_name_matches(ab, query) {
        let i = choose|i: int| 0 <= i < ab.len() && name_matches(#[trigger] ab[i], query);
        if i < a.len() {
            assert(ab[i] == a[i]);
        } else {
            assert(ab[i] == b[i - a.len()]);
        }
    }
    if any_name_matches(a, query) {
        let i = choose|i: int| 0 <= i < a.len() && name_matches(#[trigger] a[i], query);
        assert(ab[i] == a[i]);
    }
    if any_name_matches(b, query) {
        let i = choose|i: int| 0 <= i < b.len() && name_matches(#[trigger] b[i], query);
        assert(ab[i + a.len()] == b[i]);
    }
}

/// Relies on str::starts_with: true exactly when `prefix` begins `s`.
#[verifier::external_body]
fn starts_with(s: &str, prefix: &str) -> (r: bool)
    ensures
        r == prefix@.is_prefix_of(s@),
{
    s.starts_with(prefix)
}

/// The query and the query followed by `@`, made once for many lookups.
pub struct PreparedQuery {
    exact: String,
    versioned: String,
}

impl PreparedQuery {
    /// The query that this was made from.
    pub closed spec fn query(&self) -> Seq<char> {
        self.exact@
    }

    /// The versioned form is the query followed by `@`.
    pub closed spec fn wf(&self) -> bool {
        self.versioned@ == self.exact@.push('@')
    }

    /// Prepares `query` for matching.
    pub fn new(query: &str) -> (r: PreparedQuery)
        ensures
            r.wf(),
            r.query() == query@,
    {
        let exact = query.to_owned();
        let mut versioned = query.to_owned();
        versioned.append("@");
        proof {
            reveal_strlit("@");
            assert(versioned@ =~= exact@.push('@'));
        }
        PreparedQuery { exact, versioned }
    }

    /// Whether some name of `deps` matches the query.
    pub fn any_matches(&self, deps: &[String]) -> (r: bool)
        requires
            self.wf(),
        ensures
            r == any_name_matches(strings_view(deps@), self.query()),
    {
        let ghost names = strings_view(deps@);
        let mut i: usize = 0;
        while i < deps.len()
            invariant
                self.wf(),
                names == strings_view(deps@),
                0 <= i <= deps.len(),
                forall|k: int| 0 <= k < i ==> !name_matches(#[trigger] names[k], self.query()),
            decreases deps.len() - i,
        {
            let dep = &deps[i];
            if *dep == self.exact || starts_with(dep.as_str(), self.versioned.as_str()) {
                assert(name_matches(names[i as int], self.query()));
                return true;
            }
            i = i + 1;
        }
        false
    }

    /// Whether `formula` depends on the query.
    pub fn matches(&self, formula: &Formula) -> (r: bool)
        requires
            self.wf(),
        ensures
            r == depends_on(formula@, self.query()),
    {
        let ghost f = formula@;
        let ghost q = self.query();
        let ghost opt = optional_or_empty(f);
        proof {
            lemma_any_name_matches_concat(f.build_dependencies, f.dependencies, q);
            lemma_any_name_matches_concat(f.build_dependencies + f.dependencies, f.test_dependencies, q);
            lemma_any_name_matches_concat(
                f.build_dependencies + f.dependencies + f.test_dependencies,
                f.recommended_dependencies,
                q,
            );
            lemma_any_name_matches_concat(
                f.build_dependencies + f.dependencies + f.test_dependencies
                    + f.recommended_dependencies,
                opt,
                q,
            );
        }
        if self.any_matches(formula.build_dependencies()) {
            return true;
        }
        if self.any_matches(formula.dependencies()) {
            return true;
        }
        if self.any_matches(formula.test_dependencies()) {
            return true;
        }
        if self.any_matches(formula.recommended_dependencies()) {
            return true;
        }
        match formula.optional_dependencies() {
            Some(o) => self.any_matches(o),
            None => false,
        }
    }
}

/// Whether `formula` lists `query`, or a versioned `query@...`, in any of
/// its dependency categories.
pub fn formula_matches(formula: &Formula, query: &str) -> (r: bool)
    ensures
        r == depends_on(formula@, query@),
{
    let prepared = PreparedQuery::new(query);
    prepared.matches(formula)
}

} // verus!
