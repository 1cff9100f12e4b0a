//! The collected items, the plain syntax tree they are read from, and the
//! mathematical views that contracts speak of.

use vstd::prelude::*;

verus! {

/// The lifetime of a fixture instance. Only per-invocation fixtures exist so far.
#[derive(Debug, Clone, Copy, PartialEq, Eq, Structural)]
pub enum FixtureScope {
    Function,
}

/// A named setup routine that tests declare as a dependency by parameter name.
#[derive(Debug, Clone, PartialEq, Eq)]
pub struct Fixture {
    pub name: String,
    pub scope: FixtureScope,
}

/// One discovered test.
#[derive(Debug, Clone, PartialEq, Eq, Default)]
pub struct TestDefinition {
    pub path: String,
    pub class_name: Option<String>,
    pub name: String,
    pub fixture_names: Vec<String>,
}

/// Everything collected from one file, in declaration order.
#[derive(Debug, Clone, PartialEq, Eq, Default)]
pub struct TestFileContents {
    pub tests: Vec<TestDefinition>,
    pub fixtures: Vec<Fixture>,
}

/// What one file's visit produced: its tests and fixtures; the kinds of the
/// constructs that no rule classifies; and the definitions whose shape could
/// not be read. Each list is in the order the visit met its entries.
#[derive(Debug, Clone, PartialEq, Eq, Default)]
pub struct FileItems {
    pub contents: TestFileContents,
    pub unrecognized: Vec<String>,
    pub errors: Vec<StructuralError>,
}

/// A node of a parsed source file: its kind, its children in source order,
/// and, for a leaf, the source text it covers.
#[derive(Debug)]
pub struct SyntaxNode {
    pub kind: String,
    pub text: String,
    pub children: Vec<SyntaxNode>,
}

/// A node whose shape breaks what the visitor relies on.
#[derive(Debug, Clone, Copy, PartialEq, Eq, Structural)]
pub enum StructuralError {
    /// A class or function definition has no node where its name belongs.
    MissingName,
    /// The node where a definition's name belongs is not an identifier.
    NameNotIdentifier,
    /// A decorated definition holds neither a function nor a class.
    MissingDefinition,
}

pub ghost struct TestView {
    pub path: Seq<char>,
    pub class_name: Option<Seq<char>>,
    pub name: Seq<char>,
    pub fixture_names: Seq<Seq<char>>,
}

pub ghost struct FixtureView {
    pub name: Seq<char>,
    pub scope: FixtureScope,
}

/// The items of a file, or of a part of one, as sequences of values.
pub ghost struct Found {
    pub tests: Seq<TestView>,
    pub fixtures: Seq<FixtureView>,
    pub unrecognized: Seq<Seq<char>>,
    pub errors: Seq<StructuralError>,
}

pub open spec fn string_views(v: Seq<String>) -> Seq<Seq<char>> {
    v.map_values(|s: String| s@)
}

pub open spec fn option_view(o: Option<String>) -> Option<Seq<char>> {
    match o {
        Some(s) => Some(s@),
        None => None,
    }
}

impl View for TestDefinition {
    type V = TestView;

    open spec fn view(&self) -> TestView {
        TestView {
            path: self.path@,
            class_name: option_view(self.class_name),
            name: self.name@,
            fixture_names: string_views(self.fixture_names@),
        }
    }
}

impl View for Fixture {
    type V = FixtureView;

    open spec fn view(&self) -> FixtureView {
        FixtureView { name: self.name@, scope: self.scope }
    }
}

impl View for FileItems {
    type V = Found;

    open spec fn view(&self) -> Found {
        Found {
            tests: self.contents.tests@.map_values(|t: TestDefinition| t@),
            fixtures: self.contents.fixtures@.map_values(|f: Fixture| f@),
            unrecognized: string_views(self.unrecognized@),
            errors: self.errors@,
        }
    }
}

impl Found {
    pub open spec fn empty() -> Found {
        Found { tests: seq![], fixtures: seq![], unrecognized: seq![], errors: seq![] }
    }

    pub open spec fn test(t: TestView) -> Found {
        Found { tests: seq![t], fixtures: seq![], unrecognized: seq![], errors: seq![] }
    }

    pub open spec fn fixture(name: Seq<char>) -> Found {
        Found {
            tests: seq![],
            fixtures: seq![FixtureView { name, scope: FixtureScope::Function }],
            unrecognized: seq![],
            errors: seq![],
        }
    }

    pub open spec fn unrecognized(kind: Seq<char>) -> Found {
        Found { tests: seq![], fixtures: seq![], unrecognized: seq![kind], errors: seq![] }
    }

    pub open spec fn error(e: StructuralError) -> Found {
        Found { tests: seq![], fixtures: seq![], unrecognized: seq![], errors: seq![e] }
    }

    /// The items of `self` followed by those of `o`.
    pub open spec fn plus(self, o: Found) -> Found {
        Found {
            tests: self.tests + o.tests,
            fixtures: self.fixtures + o.fixtures,
            unrecognized: self.unrecognized + o.unrecognized,
            errors: self.errors + o.errors,
        }
    }
}

/// Appending items is associative.
pub proof fn lemma_plus_assoc(a: Found, b: Found, c: Found)
    ensures
        a.plus(b).plus(c) == a.plus(b.plus(c)),
{
    assert(a.plus(b).plus(c).tests =~= a.plus(b.plus(c)).tests);
    assert(a.plus(b).plus(c).fixtures =~= a.plus(b.plus(c)).fixtures);
    assert(a.plus(b).plus(c).unrecognized =~= a.plus(b.plus(c)).unrecognized);
    assert(a.plus(b).plus(c).errors =~= a.plus(b.plus(c)).errors);
}

/// The empty set of items is a neutral element on the right.
pub proof fn lemma_plus_empty(a: Found)
    ensures
        a.plus(Found::empty()) == a,
{
    assert(a.plus(Found::empty()).tests =~= a.tests);
    assert(a.plus(Found::empty()).fixtures =~= a.fixtures);
    assert(a.plus(Found::empty()).unrecognized =~= a.unrecognized);
    assert(a.plus(Found::empty()).errors =~= a.errors);
}

/// The empty set of items is a neutral element on the left.
pub proof fn lemma_empty_plus(a: Found)
    ensures
        Found::empty().plus(a) == a,
{
    assert(Found::empty().plus(a).tests =~= a.tests);
    assert(Found::empty().plus(a).fixtures =~= a.fixtures);
    assert(Found::empty().plus(a).unrecognized =~= a.unrecognized);
    assert(Found::empty().plus(a).errors =~= a.errors);
}

impl FileItems {
    pub fn new() -> (r: FileItems)
        ensures
            r@ == Found::empty(),
    {
        let r = FileItems {
            contents: TestFileContents { tests: Vec::new(), fixtures: Vec::new() },
            unrecognized: Vec::new(),
            errors: Vec::new(),
        };
        assert(r@.errors =~= seq![]);
        assert(r@.tests =~= seq![]);
        assert(r@.fixtures =~= seq![]);
        assert(r@.unrecognized =~= seq![]);
        r
    }

    pub fn push_test(&mut self, t: TestDefinition)
        ensures
            final(self)@ == old(self)@.plus(Found::test(t@)),
    {
        self.contents.tests.push(t);
        assert(final(self)@.tests =~= old(self)@.tests + seq![t@]);
        assert(final(self)@.fixtures =~= old(self)@.fixtures + seq![]);
        assert(final(self)@.unrecognized =~= old(self)@.unrecognized + seq![]);
        assert(final(self)@.errors =~= old(self)@.errors + seq![]);
    }

    pub fn push_fixture(&mut self, name: String)
        ensures
            final(self)@ == old(self)@.plus(Found::fixture(name@)),
    {
        self.contents.fixtures.push(Fixture { name, scope: FixtureScope::Function });
        assert(final(self)@.tests =~= old(self)@.tests + seq![]);
        assert(final(self)@.fixtures =~= old(self)@.fixtures + Found::fixture(name@).fixtures);
        assert(final(self)@.unrecognized =~= old(self)@.unrecognized + seq![]);
        assert(final(self)@.errors =~= old(self)@.errors + seq![]);
    }

    pub fn push_unrecognized(&mut self, kind: String)
        ensures
            final(self)@ == old(self)@.plus(Found::unrecognized(kind@)),
    {
        self.unrecognized.push(kind);
        assert(final(self)@.tests =~= old(self)@.tests + seq![]);
        assert(final(self)@.fixtures =~= old(self)@.fixtures + seq![]);
        assert(final(self)@.unrecognized =~= old(self)@.unrecognized + seq![kind@]);
        assert(final(self)@.errors =~= old(self)@.errors + seq![]);
    }

    pub fn push_error(&mut self, e: StructuralError)
        ensures
            final(self)@ == old(self)@.plus(Found::error(e)),
    {
        self.errors.push(e);
        assert(final(self)@.tests =~= old(self)@.tests + seq![]);
        assert(final(self)@.fixtures =~= old(self)@.fixtures + seq![]);
        assert(final(self)@.unrecognized =~= old(self)@.unrecognized + seq![]);
        assert(final(self)@.errors =~= old(self)@.errors + seq![e]);
    }
}

} // verus!
