//! Classification of the definitions of one parsed file.
//!
//! The rules are stated as spec functions over `SyntaxNode`; each executable
//! function below is proved to append exactly what its rule yields.

use vstd::prelude::*;

use crate::model::{
    lemma_empty_plus, lemma_plus_assoc, lemma_plus_empty, option_view, string_views, FileItems, Found,
    StructuralError, SyntaxNode, TestDefinition, TestView,
};
use crate::imports::{collect_markers, contains_name, file_markers, FixtureMarkers, MarkerNames};
use crate::text::{starts_with, text_eq};

verus! {

/// The position of a definition's name: after `def` or `class`, and after a
/// leading `async`.
pub open spec fn name_slot(n: SyntaxNode) -> int {
    if n.children@.len() > 0 && n.children@[0].kind@ == "async"@ {
        2
    } else {
        1
    }
}

/// The name of a class or function definition.
pub open spec fn definition_name(n: SyntaxNode) -> Result<Seq<char>, StructuralError> {
    let k = name_slot(n);
    if k >= n.children@.len() {
        Err(StructuralError::MissingName)
    } else if n.children@[k].kind@ != "identifier"@ {
        Err(StructuralError::NameNotIdentifier)
    } else {
        Ok(n.children@[k].text@)
    }
}

pub open spec fn name_view(r: Result<String, StructuralError>) -> Result<Seq<char>, StructuralError> {
    match r {
        Ok(s) => Ok(s@),
        Err(e) => Err(e),
    }
}

/// The identifier that a parameter declares, for a plain or annotated parameter.
pub open spec fn parameter_name(p: SyntaxNode) -> Option<Seq<char>> {
    if p.kind@ == "identifier"@ {
        Some(p.text@)
    } else if p.kind@ == "typed_parameter"@ && p.children@.len() > 0
        && p.children@[0].kind@ == "identifier"@ {
        Some(p.children@[0].text@)
    } else {
        None
    }
}

/// The fixture that a parameter asks for: its name, unless it is `self`.
pub open spec fn parameter_fixture(p: SyntaxNode) -> Seq<Seq<char>> {
    match parameter_name(p) {
        Some(s) => if s == "self"@ {
            seq![]
        } else {
            seq![s]
        },
        None => seq![],
    }
}

pub open spec fn parameters_fixtures(ps: Seq<SyntaxNode>) -> Seq<Seq<char>>
    decreases ps.len(),
{
    if ps.len() == 0 {
        seq![]
    } else {
        parameters_fixtures(ps.drop_last()) + parameter_fixture(ps.last())
    }
}

pub open spec fn child_fixtures(c: SyntaxNode) -> Seq<Seq<char>> {
    if c.kind@ == "parameters"@ {
        parameters_fixtures(c.children@)
    } else {
        seq![]
    }
}

/// The fixture names that a function definition declares, in order.
pub open spec fn declared_fixtures(cs: Seq<SyntaxNode>) -> Seq<Seq<char>>
    decreases cs.len(),
{
    if cs.len() == 0 {
        seq![]
    } else {
        declared_fixtures(cs.drop_last()) + child_fixtures(cs.last())
    }
}

fn is_kind(n: &SyntaxNode, k: &str) -> (r: bool)
    ensures
        r == (n.kind@ == k@),
{
    text_eq(&n.kind, k)
}

/// Reads the name of a class or function definition.
pub fn read_name(n: &SyntaxNode) -> (r: Result<String, StructuralError>)
    ensures
        name_view(r) == definition_name(*n),
{
    let k: usize = if n.children.len() > 0 && is_kind(&n.children[0], "async") {
        2
    } else {
        1
    };
    if k >= n.children.len() {
        Err(StructuralError::MissingName)
    } else if !is_kind(&n.children[k], "identifier") {
        Err(StructuralError::NameNotIdentifier)
    } else {
        Ok(n.children[k].text.clone())
    }
}

fn push_parameter_fixture(p: &SyntaxNode, out: &mut Vec<String>)
    ensures
        string_views(final(out)@) == string_views(old(out)@) + parameter_fixture(*p),
{
    let name: Option<&String> = if is_kind(p, "identifier") {
        Some(&p.text)
    } else if is_kind(p, "typed_parameter") && p.children.len() > 0 && is_kind(
        &p.children[0],
        "identifier",
    ) {
        Some(&p.children[0].text)
    } else {
        None
    };
    match name {
        Some(s) => {
            if !text_eq(s, "self") {
                out.push(s.clone());
                assert(string_views(final(out)@) =~= string_views(old(out)@) + seq![s@]);
            } else {
                assert(string_views(final(out)@) =~= string_views(old(out)@) + seq![]);
            }
        },
        None => {
            assert(string_views(final(out)@) =~= string_views(old(out)@) + seq![]);
        },
    }
}

/// The fixture names that the function definition `n` declares.
pub fn extract_fixtures(n: &SyntaxNode) -> (r: Vec<String>)
    ensures
        string_views(r@) == declared_fixtures(n.children@),
{
    let cs = &n.children;
    let mut out: Vec<String> = Vec::new();
    assert(string_views(out@) =~= seq![]);
    let mut i: usize = 0;
    while i < cs.len()
        invariant
            i <= cs@.len(),
            string_views(out@) == declared_fixtures(cs@.take(i as int)),
        decreases cs@.len() - i,
    {
        let c = &cs[i];
        assert(cs@.take(i + 1).drop_last() =~= cs@.take(i as int));
        if is_kind(c, "parameters") {
            let ps = &c.children;
            let ghost before = string_views(out@);
            let mut j: usize = 0;
            while j < ps.len()
                invariant
                    j <= ps@.len(),
                    string_views(out@) == before + parameters_fixtures(ps@.take(j as int)),
                decreases ps@.len() - j,
            {
                assert(ps@.take(j + 1).drop_last() =~= ps@.take(j as int));
                push_parameter_fixture(&ps[j], &mut out);
                assert(string_views(out@) =~= before + parameters_fixtures(ps@.take(j + 1)));
                j += 1;
            }
            assert(ps@.take(ps@.len() as int) =~= ps@);
        } else {
            assert(string_views(out@) =~= string_views(out@) + seq![]);
        }
        i += 1;
    }
    assert(cs@.take(cs@.len() as int) =~= cs@);
    out
}

/// What a function definition contributes: a test when its name has the test
/// prefix, with the class it stands in and the fixtures it declares.
pub open spec fn function_items(n: SyntaxNode, class_name: Option<Seq<char>>, path: Seq<char>) -> Found {
    match definition_name(n) {
        Err(e) => Found::error(e),
        Ok(name) => if "test_"@.is_prefix_of(name) {
            Found::test(
                TestView { path, class_name, name, fixture_names: declared_fixtures(n.children@) },
            )
        } else {
            Found::empty()
        },
    }
}

/// `R.fixture`, read from its parts so that spacing does not matter, where `R`
/// is `pytest` or a name the file binds to that module.
pub open spec fn is_fixture_attribute(e: SyntaxNode, m: MarkerNames) -> bool {
    &&& e.kind@ == "attribute"@
    &&& e.children@.len() == 3
    &&& e.children@[0].kind@ == "identifier"@
    &&& (e.children@[0].text@ == "pytest"@ || m.modules.contains(e.children@[0].text@))
    &&& e.children@[2].kind@ == "identifier"@
    &&& e.children@[2].text@ == "fixture"@
}

/// A name that the file binds to `pytest.fixture`.
pub open spec fn is_fixture_alias(e: SyntaxNode, m: MarkerNames) -> bool {
    e.kind@ == "identifier"@ && m.markers.contains(e.text@)
}

/// The fixture marker, bare or called with arguments.
pub open spec fn is_fixture_expression(e: SyntaxNode, m: MarkerNames) -> bool {
    ||| is_fixture_attribute(e, m)
    ||| is_fixture_alias(e, m)
    ||| (e.kind@ == "call"@ && e.children@.len() > 0 && (is_fixture_attribute(e.children@[0], m)
        || is_fixture_alias(e.children@[0], m)))
}

pub open spec fn any_fixture_expression(cs: Seq<SyntaxNode>, m: MarkerNames) -> bool
    decreases cs.len(),
{
    cs.len() > 0 && (any_fixture_expression(cs.drop_last(), m) || is_fixture_expression(cs.last(), m))
}

/// A decorator whose expression is the fixture marker.
pub open spec fn is_fixture_decorator(d: SyntaxNode, m: MarkerNames) -> bool {
    d.kind@ == "decorator"@ && any_fixture_expression(d.children@, m)
}

pub open spec fn any_fixture_decorator(cs: Seq<SyntaxNode>, m: MarkerNames) -> bool
    decreases cs.len(),
{
    cs.len() > 0 && (any_fixture_decorator(cs.drop_last(), m) || is_fixture_decorator(cs.last(), m))
}

pub open spec fn is_definition(c: SyntaxNode) -> bool {
    c.kind@ == "function_definition"@ || c.kind@ == "class_definition"@
}

/// The position of the definition that a decorated definition wraps.
pub open spec fn last_definition(cs: Seq<SyntaxNode>) -> Option<int>
    decreases cs.len(),
{
    if cs.len() == 0 {
        None
    } else if is_definition(cs.last()) {
        Some(cs.len() - 1)
    } else {
        last_definition(cs.drop_last())
    }
}

/// A definition under a fixture marker is a fixture, whatever its name.
pub open spec fn fixture_items(d: SyntaxNode) -> Found {
    match definition_name(d) {
        Err(e) => Found::error(e),
        Ok(name) => Found::fixture(name),
    }
}

/// A decorated definition inside the body of the test class `class_name`.
/// A class there is out of reach and is reported by its kind.
pub open spec fn decorated_in_class(n: SyntaxNode, class_name: Seq<char>, path: Seq<char>, m: MarkerNames) -> Found {
    match last_definition(n.children@) {
        None => Found::error(StructuralError::MissingDefinition),
        Some(k) => {
            let d = n.children@[k];
            if any_fixture_decorator(n.children@, m) {
                fixture_items(d)
            } else if d.kind@ == "function_definition"@ {
                function_items(d, Some(class_name), path)
            } else {
                Found::unrecognized(d.kind@)
            }
        },
    }
}

/// A member of the body of the test class `class_name`.
pub open spec fn class_member_items(c: SyntaxNode, class_name: Seq<char>, path: Seq<char>, m: MarkerNames) -> Found {
    if c.kind@ == "decorated_definition"@ {
        decorated_in_class(c, class_name, path, m)
    } else if c.kind@ == "function_definition"@ {
        function_items(c, Some(class_name), path)
    } else if c.kind@ == "expression_statement"@ || c.kind@ == "comment"@ {
        Found::empty()
    } else {
        Found::unrecognized(c.kind@)
    }
}

pub open spec fn block_items(cs: Seq<SyntaxNode>, class_name: Seq<char>, path: Seq<char>, m: MarkerNames) -> Found
    decreases cs.len(),
{
    if cs.len() == 0 {
        Found::empty()
    } else {
        block_items(cs.drop_last(), class_name, path, m).plus(
            class_member_items(cs.last(), class_name, path, m),
        )
    }
}

/// A part of a test class's definition after its name.
pub open spec fn class_part_items(c: SyntaxNode, class_name: Seq<char>, path: Seq<char>, m: MarkerNames) -> Found {
    if c.kind@ == "block"@ {
        block_items(c.children@, class_name, path, m)
    } else if c.kind@ == ":"@ || c.kind@ == "argument_list"@ || c.kind@ == "comment"@ {
        Found::empty()
    } else {
        Found::unrecognized(c.kind@)
    }
}

pub open spec fn class_parts_items(cs: Seq<SyntaxNode>, class_name: Seq<char>, path: Seq<char>, m: MarkerNames) -> Found
    decreases cs.len(),
{
    if cs.len() == 0 {
        Found::empty()
    } else {
        class_parts_items(cs.drop_last(), class_name, path, m).plus(
            class_part_items(cs.last(), class_name, path, m),
        )
    }
}

/// What a class definition contributes: the members of its body when its
/// name has the test-class prefix, and nothing otherwise.
pub open spec fn class_items(n: SyntaxNode, path: Seq<char>, m: MarkerNames) -> Found {
    match definition_name(n) {
        Err(e) => Found::error(e),
        Ok(name) => if "Test"@.is_prefix_of(name) {
            class_parts_items(n.children@.skip(name_slot(n) + 1), name, path, m)
        } else {
            Found::empty()
        },
    }
}

/// A decorated definition at the top level of a file.
pub open spec fn decorated_at_top(n: SyntaxNode, path: Seq<char>, m: MarkerNames) -> Found {
    match last_definition(n.children@) {
        None => Found::error(StructuralError::MissingDefinition),
        Some(k) => {
            let d = n.children@[k];
            if any_fixture_decorator(n.children@, m) {
                fixture_items(d)
            } else if d.kind@ == "function_definition"@ {
                function_items(d, None, path)
            } else {
                class_items(d, path, m)
            }
        },
    }
}

/// Statements at the top level that hold nothing to collect.
pub open spec fn is_skipped_statement(c: SyntaxNode) -> bool {
    ||| c.kind@ == "import_statement"@
    ||| c.kind@ == "import_from_statement"@
    ||| c.kind@ == "expression_statement"@
    ||| c.kind@ == "comment"@
    ||| c.kind@ == "if_statement"@
    ||| c.kind@ == "try_statement"@
    ||| c.kind@ == "assert_statement"@
}

/// A statement at the top level of a file.
pub open spec fn top_level_items(c: SyntaxNode, path: Seq<char>, m: MarkerNames) -> Found {
    if c.kind@ == "decorated_definition"@ {
        decorated_at_top(c, path, m)
    } else if c.kind@ == "class_definition"@ {
        class_items(c, path, m)
    } else if c.kind@ == "function_definition"@ {
        function_items(c, None, path)
    } else if is_skipped_statement(c) {
        Found::empty()
    } else {
        Found::unrecognized(c.kind@)
    }
}

pub open spec fn module_items(cs: Seq<SyntaxNode>, path: Seq<char>, m: MarkerNames) -> Found
    decreases cs.len(),
{
    if cs.len() == 0 {
        Found::empty()
    } else {
        module_items(cs.drop_last(), path, m).plus(top_level_items(cs.last(), path, m))
    }
}

/// What the file at `path` whose tree is rooted at `root` contributes.
pub open spec fn file_items(root: SyntaxNode, path: Seq<char>) -> Found {
    module_items(root.children@, path, file_markers(root))
}

fn clone_class_name(c: &Option<String>) -> (r: Option<String>)
    ensures
        option_view(r) == option_view(*c),
{
    match c {
        Some(s) => Some(s.clone()),
        None => None,
    }
}

fn visit_function(n: &SyntaxNode, class_name: &Option<String>, path: &String, out: &mut FileItems)
    ensures
        final(out)@ == old(out)@.plus(function_items(*n, option_view(*class_name), path@)),
{
    match read_name(n) {
        Err(e) => out.push_error(e),
        Ok(name) => {
            if starts_with(&name, "test_") {
                let fixture_names = extract_fixtures(n);
                let t = TestDefinition {
                    path: path.clone(),
                    class_name: clone_class_name(class_name),
                    name,
                    fixture_names,
                };
                out.push_test(t);
            } else {
                proof {
                    lemma_plus_empty(old(out)@);
                }
            }
        },
    }
}

fn is_fixture_attribute_node(e: &SyntaxNode, markers: &FixtureMarkers) -> (r: bool)
    ensures
        r == is_fixture_attribute(*e, markers@),
{
    is_kind(e, "attribute") && e.children.len() == 3 && is_kind(&e.children[0], "identifier")
        && (text_eq(&e.children[0].text, "pytest") || contains_name(
        &markers.modules,
        &e.children[0].text,
    )) && is_kind(&e.children[2], "identifier") && text_eq(&e.children[2].text, "fixture")
}

fn is_fixture_alias_node(e: &SyntaxNode, markers: &FixtureMarkers) -> (r: bool)
    ensures
        r == is_fixture_alias(*e, markers@),
{
    is_kind(e, "identifier") && contains_name(&markers.markers, &e.text)
}

fn is_fixture_expression_node(e: &SyntaxNode, markers: &FixtureMarkers) -> (r: bool)
    ensures
        r == is_fixture_expression(*e, markers@),
{
    is_fixture_attribute_node(e, markers) || is_fixture_alias_node(e, markers) || (is_kind(e, "call")
        && e.children.len() > 0 && (is_fixture_attribute_node(&e.children[0], markers)
        || is_fixture_alias_node(&e.children[0], markers)))
}

fn is_fixture_decorator_node(d: &SyntaxNode, markers: &FixtureMarkers) -> (r: bool)
    ensures
        r == is_fixture_decorator(*d, markers@),
{
    if !is_kind(d, "decorator") {
        return false;
    }
    let cs = &d.children;
    let mut found = false;
    let mut i: usize = 0;
    while i < cs.len()
        invariant
            i <= cs@.len(),
            found == any_fixture_expression(cs@.take(i as int), markers@),
        decreases cs@.len() - i,
    {
        assert(cs@.take(i + 1).drop_last() =~= cs@.take(i as int));
        let e = &cs[i];
        let here = is_fixture_expression_node(e, markers);
        found = found || here;
        i += 1;
    }
    assert(cs@.take(cs@.len() as int) =~= cs@);
    found
}

/// Whether any decorator among `cs` is the fixture marker, and the position
/// of the last definition among them.
fn scan_decorated(cs: &Vec<SyntaxNode>, markers: &FixtureMarkers) -> (r: (bool, Option<usize>))
    ensures
        r.0 == any_fixture_decorator(cs@, markers@),
        match r.1 {
            Some(k) => k < cs@.len() && last_definition(cs@) == Some(k as int),
            None => last_definition(cs@) is None,
        },
{
    let mut marked = false;
    let mut def: Option<usize> = None;
    let mut i: usize = 0;
    while i < cs.len()
        invariant
            i <= cs@.len(),
            marked == any_fixture_decorator(cs@.take(i as int), markers@),
            match def {
                Some(k) => k < i && last_definition(cs@.take(i as int)) == Some(k as int),
                None => last_definition(cs@.take(i as int)) is None,
            },
        decreases cs@.len() - i,
    {
        assert(cs@.take(i + 1).drop_last() =~= cs@.take(i as int));
        let c = &cs[i];
        marked = marked || is_fixture_decorator_node(c, markers);
        if is_kind(c, "function_definition") || is_kind(c, "class_definition") {
            def = Some(i);
        }
        i += 1;
    }
    assert(cs@.take(cs@.len() as int) =~= cs@);
    (marked, def)
}

fn visit_fixture(d: &SyntaxNode, out: &mut FileItems)
    ensures
        final(out)@ == old(out)@.plus(fixture_items(*d)),
{
    match read_name(d) {
        Err(e) => out.push_error(e),
        Ok(name) => out.push_fixture(name),
    }
}

fn visit_decorated_in_class(n: &SyntaxNode, class_name: &String, path: &String, markers: &FixtureMarkers, out: &mut FileItems)
    ensures
        final(out)@ == old(out)@.plus(decorated_in_class(*n, class_name@, path@, markers@)),
{
    let (marked, def) = scan_decorated(&n.children, markers);
    match def {
        None => out.push_error(StructuralError::MissingDefinition),
        Some(k) => {
            let d = &n.children[k];
            if marked {
                visit_fixture(d, out);
            } else if is_kind(d, "function_definition") {
                let c = Some(class_name.clone());
                visit_function(d, &c, path, out);
            } else {
                out.push_unrecognized(d.kind.clone());
            }
        },
    }
}

fn visit_class_member(c: &SyntaxNode, class_name: &String, path: &String, markers: &FixtureMarkers, out: &mut FileItems)
    ensures
        final(out)@ == old(out)@.plus(class_member_items(*c, class_name@, path@, markers@)),
{
    if is_kind(c, "decorated_definition") {
        visit_decorated_in_class(c, class_name, path, markers, out);
    } else if is_kind(c, "function_definition") {
        let cn = Some(class_name.clone());
        visit_function(c, &cn, path, out);
    } else if is_kind(c, "expression_statement") || is_kind(c, "comment") {
        proof {
            lemma_plus_empty(old(out)@);
        }
    } else {
        out.push_unrecognized(c.kind.clone());
    }
}

fn visit_block(b: &SyntaxNode, class_name: &String, path: &String, markers: &FixtureMarkers, out: &mut FileItems)
    ensures
        final(out)@ == old(out)@.plus(block_items(b.children@, class_name@, path@, markers@)),
{
    let cs = &b.children;
    let ghost base = out@;
    proof {
        lemma_plus_empty(base);
    }
    let mut i: usize = 0;
    while i < cs.len()
        invariant
            i <= cs@.len(),
            out@ == base.plus(block_items(cs@.take(i as int), class_name@, path@, markers@)),
        decreases cs@.len() - i,
    {
        assert(cs@.take(i + 1).drop_last() =~= cs@.take(i as int));
        visit_class_member(&cs[i], class_name, path, markers, out);
        proof {
            lemma_plus_assoc(
                base,
                block_items(cs@.take(i as int), class_name@, path@, markers@),
                class_member_items(cs@[i as int], class_name@, path@, markers@),
            );
        }
        i += 1;
    }
    assert(cs@.take(cs@.len() as int) =~= cs@);
}

fn visit_class_part(c: &SyntaxNode, class_name: &String, path: &String, markers: &FixtureMarkers, out: &mut FileItems)
    ensures
        final(out)@ == old(out)@.plus(class_part_items(*c, class_name@, path@, markers@)),
{
    if is_kind(c, "block") {
        visit_block(c, class_name, path, markers, out);
    } else if is_kind(c, ":") || is_kind(c, "argument_list") || is_kind(c, "comment") {
        proof {
            lemma_plus_empty(old(out)@);
        }
    } else {
        out.push_unrecognized(c.kind.clone());
    }
}

fn visit_class(n: &SyntaxNode, path: &String, markers: &FixtureMarkers, out: &mut FileItems)
    ensures
        final(out)@ == old(out)@.plus(class_items(*n, path@, markers@)),
{
    match read_name(n) {
        Err(e) => out.push_error(e),
        Ok(name) => {
            if !starts_with(&name, "Test") {
                proof {
                    lemma_plus_empty(old(out)@);
                }
                return;
            }
            let cs = &n.children;
            let start: usize = if is_kind(&cs[0], "async") {
                3
            } else {
                2
            };
            let ghost parts = cs@.skip(start as int);
            let ghost base = out@;
            proof {
                lemma_plus_empty(base);
                assert(parts.take(0) =~= seq![]);
            }
            let mut i: usize = start;
            while i < cs.len()
                invariant
                    start <= i <= cs@.len(),
                    parts == cs@.skip(start as int),
                    out@ == base.plus(class_parts_items(parts.take(i - start), name@, path@, markers@)),
                decreases cs@.len() - i,
            {
                assert(parts.take(i - start + 1).drop_last() =~= parts.take(i - start));
                assert(parts.take(i - start + 1).last() == cs@[i as int]);
                visit_class_part(&cs[i], &name, path, markers, out);
                proof {
                    lemma_plus_assoc(
                        base,
                        class_parts_items(parts.take(i - start), name@, path@, markers@),
                        class_part_items(cs@[i as int], name@, path@, markers@),
                    );
                }
                i += 1;
            }
            assert(parts.take(cs@.len() - start) =~= parts);
        },
    }
}

fn visit_decorated_at_top(n: &SyntaxNode, path: &String, markers: &FixtureMarkers, out: &mut FileItems)
    ensures
        final(out)@ == old(out)@.plus(decorated_at_top(*n, path@, markers@)),
{
    let (marked, def) = scan_decorated(&n.children, markers);
    match def {
        None => out.push_error(StructuralError::MissingDefinition),
        Some(k) => {
            let d = &n.children[k];
            if marked {
                visit_fixture(d, out);
            } else if is_kind(d, "function_definition") {
                visit_function(d, &None, path, out);
            } else {
                visit_class(d, path, markers, out);
            }
        },
    }
}

fn visit_top_level(c: &SyntaxNode, path: &String, markers: &FixtureMarkers, out: &mut FileItems)
    ensures
        final(out)@ == old(out)@.plus(top_level_items(*c, path@, markers@)),
{
    if is_kind(c, "decorated_definition") {
        visit_decorated_at_top(c, path, markers, out);
    } else if is_kind(c, "class_definition") {
        visit_class(c, path, markers, out);
    } else if is_kind(c, "function_definition") {
        visit_function(c, &None, path, out);
    } else if is_kind(c, "import_statement") || is_kind(c, "import_from_statement") || is_kind(
        c,
        "expression_statement",
    ) || is_kind(c, "comment") || is_kind(c, "if_statement") || is_kind(c, "try_statement")
        || is_kind(c, "assert_statement") {
        proof {
            lemma_plus_empty(old(out)@);
        }
    } else {
        out.push_unrecognized(c.kind.clone());
    }
}

/// Collects the tests and fixtures of the file at `path` from its syntax tree.
pub fn visit_module(root: &SyntaxNode, path: &String) -> (r: FileItems)
    ensures
        r@ == file_items(*root, path@),
{
    let fixture_markers = collect_markers(root);
    let markers = &fixture_markers;
    let mut out = FileItems::new();
    let cs = &root.children;
    let mut i: usize = 0;
    proof {
        lemma_plus_empty(Found::empty());
    }
    while i < cs.len()
        invariant
            i <= cs@.len(),
            out@ == Found::empty().plus(module_items(cs@.take(i as int), path@, markers@)),
        decreases cs@.len() - i,
    {
        assert(cs@.take(i + 1).drop_last() =~= cs@.take(i as int));
        visit_top_level(&cs[i], path, markers, &mut out);
        proof {
            lemma_plus_assoc(
                Found::empty(),
                module_items(cs@.take(i as int), path@, markers@),
                top_level_items(cs@[i as int], path@, markers@),
            );
        }
        i += 1;
    }
    assert(cs@.take(cs@.len() as int) =~= cs@);
    proof {
        lemma_empty_plus(module_items(cs@, path@, markers@));
    }
    out
}

} // verus!
