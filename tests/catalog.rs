use rustbrew::args::{query_is_valid, Args, MAX_QUERY_LEN};
use rustbrew::cache::{needs_download, STALENESS_SECS};
use rustbrew::catalog::{collect_build_dependencies, count_matches};
use rustbrew::formula::Formula;
use rustbrew::matcher::formula_matches;

fn strings(items: &[&str]) -> Vec<String> {
    items.iter().map(|s| s.to_string()).collect()
}

fn formula(
    name: &str,
    build: &[&str],
    runtime: &[&str],
    test: &[&str],
    recommended: &[&str],
    optional: Option<&[&str]>,
) -> Formula {
    Formula::new(
        name.to_string(),
        strings(build),
        strings(runtime),
        strings(test),
        strings(recommended),
        optional.map(strings),
    )
}

fn sample_catalog() -> Vec<Formula> {
    vec![
        formula("foo", &["rust"], &[], &[], &[], None),
        formula("bar", &[], &["rust@1.70"], &[], &[], Some(&["python"])),
    ]
}

#[test]
fn sample_catalog_counts_rust_twice() {
    assert_eq!(count_matches(&sample_catalog(), "rust"), 2);
}

#[test]
fn sample_catalog_counts_python_once() {
    assert_eq!(count_matches(&sample_catalog(), "python"), 1);
}

#[test]
fn sample_catalog_build_dependencies() {
    let deps = collect_build_dependencies(&sample_catalog());
    assert_eq!(deps, vec!["rust".to_string()]);
    assert_eq!(deps.len(), 1);
}

#[test]
fn empty_catalog_gives_nothing() {
    let empty: Vec<Formula> = Vec::new();
    assert_eq!(count_matches(&empty, "rust"), 0);
    assert!(collect_build_dependencies(&empty).is_empty());
}

#[test]
fn query_of_thirty_characters_is_accepted() {
    let q = "a".repeat(30);
    assert!(query_is_valid(&q));
    assert_eq!(MAX_QUERY_LEN, 30);
}

#[test]
fn query_of_thirty_one_characters_is_refused() {
    let q = "a".repeat(31);
    assert!(!query_is_valid(&q));
}

#[test]
fn query_length_counts_characters_not_bytes() {
    let q = "é".repeat(30);
    assert!(query_is_valid(&q));
    assert!(!query_is_valid(&"é".repeat(31)));
    assert!(query_is_valid(""));
}

#[test]
fn match_in_each_category() {
    let q = "go";
    assert!(formula_matches(&formula("a", &["go"], &[], &[], &[], None), q));
    assert!(formula_matches(&formula("b", &[], &["go"], &[], &[], None), q));
    assert!(formula_matches(&formula("c", &[], &[], &["go"], &[], None), q));
    assert!(formula_matches(&formula("d", &[], &[], &[], &["go"], None), q));
    assert!(formula_matches(&formula("e", &[], &[], &[], &[], Some(&["go"])), q));
    assert!(!formula_matches(&formula("f", &[], &[], &[], &[], Some(&[])), q));
    assert!(!formula_matches(&formula("g", &[], &[], &[], &[], None), q));
}

#[test]
fn versioned_names_match_but_substrings_do_not() {
    let f = formula("x", &["python@3.12"], &["gopls", "cargo-go"], &[], &[], None);
    assert!(formula_matches(&f, "python"));
    assert!(!formula_matches(&f, "go"));
    assert!(!formula_matches(&f, "pyth"));
    assert!(!formula_matches(&f, "python@3"));
    assert!(formula_matches(&f, "python@3.12"));
    assert!(!formula_matches(&formula("y", &["rustc"], &[], &[], &[], None), "rust"));
}

#[test]
fn matching_is_case_sensitive() {
    let f = formula("x", &["Rust"], &[], &[], &[], None);
    assert!(!formula_matches(&f, "rust"));
    assert!(formula_matches(&f, "Rust"));
}

#[test]
fn a_formula_counts_once_however_many_matches() {
    let f = formula("x", &["go"], &["go"], &["go@1.21"], &["go"], Some(&["go"]));
    assert_eq!(count_matches(&[f], "go"), 1);
}

#[test]
fn count_is_the_same_in_any_order() {
    let mut catalog = sample_catalog();
    catalog.push(formula("baz", &[], &[], &[], &[], None));
    let forward = count_matches(&catalog, "rust");
    catalog.reverse();
    assert_eq!(count_matches(&catalog, "rust"), forward);
    assert_eq!(forward, 2);
}

#[test]
fn build_dependencies_keep_first_occurrence_order() {
    let catalog = vec![
        formula("a", &["cmake", "pkgconf", "cmake"], &[], &[], &[], None),
        formula("b", &["meson", "pkgconf"], &["cmake"], &[], &[], None),
        formula("c", &[], &[], &[], &[], None),
        formula("d", &["ninja", "meson", "cmake"], &[], &[], &[], None),
    ];
    assert_eq!(
        collect_build_dependencies(&catalog),
        strings(&["cmake", "pkgconf", "meson", "ninja"])
    );
}

#[test]
fn stale_when_missing_or_older_than_a_week() {
    let now: u64 = 1_700_000_000;
    assert_eq!(STALENESS_SECS, 604_800);
    assert!(needs_download(None, now));
    assert!(needs_download(Some(now - STALENESS_SECS - 1), now));
    assert!(!needs_download(Some(now - STALENESS_SECS), now));
    assert!(!needs_download(Some(now - 10), now));
    assert!(!needs_download(Some(0), 100));
}

#[test]
fn args_default_to_rust() {
    let a = Args::new(None, false);
    assert_eq!(a.language(), "rust");
    assert!(!a.build_dep());
    let b = Args::new(Some("python".to_string()), true);
    assert_eq!(b.language(), "python");
    assert!(b.build_dep());
}

#[test]
fn formula_getters_return_fields() {
    let f = formula("foo", &["a"], &["b"], &["c"], &["d"], Some(&["e"]));
    assert_eq!(f.name(), "foo");
    assert_eq!(f.build_dependencies(), &strings(&["a"])[..]);
    assert_eq!(f.dependencies(), &strings(&["b"])[..]);
    assert_eq!(f.test_dependencies(), &strings(&["c"])[..]);
    assert_eq!(f.recommended_dependencies(), &strings(&["d"])[..]);
    assert_eq!(f.optional_dependencies(), Some(&strings(&["e"])[..]));
    assert_eq!(formula("x", &[], &[], &[], &[], None).optional_dependencies(), None);
    assert_eq!(f.take_name(), "foo".to_string());
}
