use vstd::prelude::*;

verus! {

/// The text of each string in a list.
pub open spec fn strings_view(v: Seq<String>) -> Seq<Seq<char>> {
    v.map_values(|s: String| s@)
}

/// What a formula is, as mathematical values.
pub ghost struct FormulaView {
    pub name: Seq<char>,
    pub build_dependencies: Seq<Seq<char>>,
    pub dependencies: Seq<Seq<char>>,
    pub test_dependencies: Seq<Seq<char>>,
    pub recommended_dependencies: Seq<Seq<char>>,
    pub optional_dependencies: Option<Seq<Seq<char>>>,
}

/// One entry of the catalog: a package and the names it depends on, by category.
#[derive(Debug)]
pub struct Formula {
    name: String,
    build_dependencies: Vec<String>,
    dependencies: Vec<String>,
    test_dependencies: Vec<String>,
    recommended_dependencies: Vec<String>,
    optional_dependencies: Option<Vec<String>>,
}

impl View for Formula {
    type V = FormulaView;

    closed spec fn view(&self) -> FormulaView {
        FormulaView {
            name: self.name@,
            build_dependencies: strings_view(self.build_dependencies@),
            dependencies: strings_view(self.dependencies@),
            test_dependencies: strings_view(self.test_dependencies@),
            recommended_dependencies: strings_view(self.recommended_dependencies@),
            optional_dependencies: match self.optional_dependencies {
                Some(v) => Some(strings_view(v@)),
                None => None,
            },
        }
    }
}

impl Formula {
    /// Builds a formula from its name and its five dependency lists.
    pub fn new(
        name: String,
        build_dependencies: Vec<String>,
        dependencies: Vec<String>,
        test_dependencies: Vec<String>,
        recommended_dependencies: Vec<String>,
        optional_dependencies: Option<Vec<String>>,
    ) -> (r: Formula)
        ensures
            r@ == (FormulaView {
                name: name@,
                build_dependencies: strings_view(build_dependencies@),
                dependencies: strings_view(dependencies@),
                test_dependencies: strings_view(test_dependencies@),
                recommended_dependencies: strings_view(recommended_dependencies@),
                optional_dependencies: match optional_dependencies {
                    Some(v) => Some(strings_view(v@)),
                    None => None,
                },
            }),
    {
        Formula {
            name,
            build_dependencies,
            dependencies,
            test_dependencies,
            recommended_dependencies,
            optional_dependencies,
        }
    }

    /// Gives up the formula and keeps its name.
    pub fn take_name(self) -> (r: String)
        ensures
            r@ == self@.name,
    {
        self.name
    }

    /// The name of the formula.
    pub fn name(&self) -> (r: &str)
        ensures
            r@ == self@.name,
    {
        self.name.as_str()
    }

    /// Dependencies needed only to build the package.
    pub fn build_dependencies(&self) -> (r: &[String])
        ensures
            strings_view(r@) == self@.build_dependencies,
    {
        self.build_dependencies.as_slice()
    }

    /// Dependencies needed at run time.
    pub fn dependencies(&self) -> (r: &[String])
        ensures
            strings_view(r@) == self@.dependencies,
    {
        self.dependencies.as_slice()
    }

    /// Dependencies needed to test the package.
    pub fn test_dependencies(&self) -> (r: &[String])
        ensures
            strings_view(r@) == self@.test_dependencies,
    {
        self.test_dependencies.as_slice()
    }

    /// Dependencies that are recommended but not required.
    pub fn recommended_dependencies(&self) -> (r: &[String])
        ensures
            strings_view(r@) == self@.recommended_dependencies,
    {
        self.recommended_dependencies.as_slice()
    }

    /// Fully optional dependencies, where the catalog lists them.
    pub fn optional_dependencies(&self) -> (r: Option<&[String]>)
        ensures
            match r {
                Some(s) => self@.optional_dependencies == Some(strings_view(s@)),
                None => self@.optional_dependencies is None,
            },
    {
        match &self.optional_dependencies {
            Some(v) => Some(v.as_slice()),
            None => None,
        }
    }
}

} // verus!
