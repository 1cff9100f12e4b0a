//! The names under which a file's imports make the fixture marker available:
//! `import pytest as pt` makes `pt.fixture` a marker, and
//! `from pytest import fixture as fx` makes `fx` one.

use vstd::prelude::*;

use crate::model::{string_views, SyntaxNode};
use crate::text::text_eq;

verus! {

/// The names bound to the `pytest` module, and those bound to its `fixture`.
pub ghost struct MarkerNames {
    pub modules: Seq<Seq<char>>,
    pub markers: Seq<Seq<char>>,
}

/// The import bindings of a file that the fixture marker can be reached by.
#[derive(Debug, Clone, PartialEq, Eq, Default)]
pub struct FixtureMarkers {
    pub modules: Vec<String>,
    pub markers: Vec<String>,
}

impl View for FixtureMarkers {
    type V = MarkerNames;

    open spec fn view(&self) -> MarkerNames {
        MarkerNames { modules: string_views(self.modules@), markers: string_views(self.markers@) }
    }
}

/// A dotted name made of the one identifier `name`.
pub open spec fn is_single_name(d: SyntaxNode, name: Seq<char>) -> bool {
    &&& d.kind@ == "dotted_name"@
    &&& d.children@.len() == 1
    &&& d.children@[0].kind@ == "identifier"@
    &&& d.children@[0].text@ == name
}

/// The name that one imported item binds for `target`: `target` itself, its
/// alias after `as`, or none when the item is something else.
pub open spec fn bound_name(x: SyntaxNode, target: Seq<char>) -> Seq<Seq<char>> {
    if is_single_name(x, target) {
        seq![target]
    } else if x.kind@ == "aliased_import"@ && x.children@.len() == 3 && is_single_name(
        x.children@[0],
        target,
    ) && x.children@[2].kind@ == "identifier"@ {
        seq![x.children@[2].text@]
    } else {
        seq![]
    }
}

pub open spec fn bound_names(xs: Seq<SyntaxNode>, target: Seq<char>) -> Seq<Seq<char>>
    decreases xs.len(),
{
    if xs.len() == 0 {
        seq![]
    } else {
        bound_names(xs.drop_last(), target) + bound_name(xs.last(), target)
    }
}

/// The names that a top-level statement binds to the `pytest` module.
pub open spec fn statement_modules(st: SyntaxNode) -> Seq<Seq<char>> {
    if st.kind@ == "import_statement"@ {
        bound_names(st.children@, "pytest"@)
    } else {
        seq![]
    }
}

/// The names that a top-level statement binds to `pytest.fixture`.
pub open spec fn statement_markers(st: SyntaxNode) -> Seq<Seq<char>> {
    if st.kind@ == "import_from_statement"@ && st.children@.len() > 1 && is_single_name(
        st.children@[1],
        "pytest"@,
    ) {
        bound_names(st.children@, "fixture"@)
    } else {
        seq![]
    }
}

pub open spec fn module_names(cs: Seq<SyntaxNode>) -> MarkerNames
    decreases cs.len(),
{
    if cs.len() == 0 {
        MarkerNames { modules: seq![], markers: seq![] }
    } else {
        let rest = module_names(cs.drop_last());
        MarkerNames {
            modules: rest.modules + statement_modules(cs.last()),
            markers: rest.markers + statement_markers(cs.last()),
        }
    }
}

/// The marker names that the top level of a file binds.
pub open spec fn file_markers(root: SyntaxNode) -> MarkerNames {
    module_names(root.children@)
}

fn is_single_name_node(d: &SyntaxNode, name: &str) -> (r: bool)
    ensures
        r == is_single_name(*d, name@),
{
    text_eq(&d.kind, "dotted_name") && d.children.len() == 1 && text_eq(
        &d.children[0].kind,
        "identifier",
    ) && text_eq(&d.children[0].text, name)
}

fn push_bound_names(xs: &Vec<SyntaxNode>, target: &str, out: &mut Vec<String>)
    ensures
        string_views(final(out)@) == string_views(old(out)@) + bound_names(xs@, target@),
{
    let ghost start = string_views(out@);
    assert(start + bound_names(xs@.take(0), target@) =~= start);
    let mut i: usize = 0;
    while i < xs.len()
        invariant
            i <= xs@.len(),
            string_views(out@) == start + bound_names(xs@.take(i as int), target@),
        decreases xs@.len() - i,
    {
        assert(xs@.take(i + 1).drop_last() =~= xs@.take(i as int));
        let x = &xs[i];
        let ghost before = string_views(out@);
        if is_single_name_node(x, target) {
            out.push(x.children[0].text.clone());
            assert(string_views(out@) =~= before + seq![target@]);
        } else if text_eq(&x.kind, "aliased_import") && x.children.len() == 3 && is_single_name_node(
            &x.children[0],
            target,
        ) && text_eq(&x.children[2].kind, "identifier") {
            out.push(x.children[2].text.clone());
            assert(string_views(out@) =~= before + seq![x.children@[2].text@]);
        } else {
            assert(string_views(out@) =~= before + seq![]);
        }
        assert(string_views(out@) =~= start + bound_names(xs@.take(i + 1), target@));
        i += 1;
    }
    assert(xs@.take(xs@.len() as int) =~= xs@);
}

/// Reads the marker names that the top level of the file rooted at `root` binds.
pub fn collect_markers(root: &SyntaxNode) -> (r: FixtureMarkers)
    ensures
        r@ == file_markers(*root),
{
    let cs = &root.children;
    let mut r = FixtureMarkers { modules: Vec::new(), markers: Vec::new() };
    assert(r@.modules =~= seq![]);
    assert(r@.markers =~= seq![]);
    let mut i: usize = 0;
    while i < cs.len()
        invariant
            i <= cs@.len(),
            r@ == module_names(cs@.take(i as int)),
        decreases cs@.len() - i,
    {
        assert(cs@.take(i + 1).drop_last() =~= cs@.take(i as int));
        let st = &cs[i];
        let ghost before = r@;
        if text_eq(&st.kind, "import_statement") {
            push_bound_names(&st.children, "pytest", &mut r.modules);
        } else {
            assert(r@.modules =~= before.modules + seq![]);
        }
        if text_eq(&st.kind, "import_from_statement") && st.children.len() > 1
            && is_single_name_node(&st.children[1], "pytest") {
            push_bound_names(&st.children, "fixture", &mut r.markers);
        } else {
            assert(r@.markers =~= before.markers + seq![]);
        }
        i += 1;
    }
    assert(cs@.take(cs@.len() as int) =~= cs@);
    r
}

/// Whether `v` holds a string equal to `s`.
pub fn contains_name(v: &Vec<String>, s: &String) -> (r: bool)
    ensures
        r == string_views(v@).contains(s@),
{
    let mut i: usize = 0;
    while i < v.len()
        invariant
            i <= v@.len(),
            forall|j: int| 0 <= j < i ==> v@[j]@ != s@,
        decreases v@.len() - i,
    {
        if text_eq(s, v[i].as_str()) {
            assert(string_views(v@)[i as int] == s@);
            return true;
        }
        i += 1;
    }
    assert forall|j: int| 0 <= j < string_views(v@).len() implies string_views(v@)[j] != s@ by {
        assert(string_views(v@)[j] == v@[j]@);
    }
    false
}

} // verus!
