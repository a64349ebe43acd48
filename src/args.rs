use vstd::prelude::*;

verus! {

/// The longest query accepted, in characters.
pub const MAX_QUERY_LEN: usize = 30;

/// The query used when none is given.
pub open spec fn default_language() -> Seq<char> {
    seq!['r', 'u', 's', 't']
}

/// Whether `query` is short enough to be looked up.
pub fn query_is_valid(query: &str) -> (r: bool)
    ensures
        r == (query@.len() <= MAX_QUERY_LEN),
{
    query.unicode_len() <= MAX_QUERY_LEN
}

/// What the user asked for.
pub ghost struct ArgsView {
    pub language: Seq<char>,
    pub build_dep: bool,
}

/// What the user asked for: the name to count dependents of, and whether to
/// list the build dependencies of the catalog too.
#[derive(Debug)]
pub struct Args {
    language: String,
    build_dep: bool,
}

impl View for Args {
    type V = ArgsView;

    closed spec fn view(&self) -> ArgsView {
        ArgsView { language: self.language@, build_dep: self.build_dep }
    }
}

impl Args {
    /// The arguments as given; without a language the query is `rust`.
    pub fn new(language: Option<String>, build_dep: bool) -> (r: Args)
        ensures
            r@.language == match language {
                Some(l) => l@,
                None => default_language(),
            },
            r@.build_dep == build_dep,
    {
        let language = match language {
            Some(l) => l,
            None => {
                proof {
                    reveal_strlit("rust");
                }
                let l = "rust".to_owned();
                assert(l@ =~= default_language());
                l
            },
        };
        Args { language, build_dep }
    }

    /// The requested language, build system or library.
    pub fn language(&self) -> (r: &str)
        ensures
            r@ == self@.language,
    {
        self.language.as_str()
    }

    /// Whether the build dependencies of the catalog were asked for.
    pub fn build_dep(&self) -> (r: bool)
        ensures
            r == self@.build_dep,
    {
        self.build_dep
    }
}

} // verus!
