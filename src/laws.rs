//! Properties of collection that hold for every input, proved from the rules.

use vstd::prelude::*;

use crate::collection::{extracted, FileError, failed_files, visited_diagnostics, visited_files, FileOutcome};
use crate::congruence::lemma_same_tree_same_items;
use crate::imports::{file_markers, MarkerNames};
use crate::syntax::{python_syntax, reads_as};
use crate::model::{lemma_empty_plus, Found, SyntaxNode, TestView};
use crate::visitor::{
    any_fixture_decorator, block_items, class_items, class_member_items, class_part_items,
    class_parts_items, declared_fixtures, definition_name, file_items, last_definition,
    module_items, name_slot, top_level_items,
};

verus! {

/// A function definition at the top level with a test name and no fixture
/// parameters.
pub open spec fn is_plain_test_function(c: SyntaxNode) -> bool {
    &&& c.kind@ == "function_definition"@
    &&& definition_name(c) is Ok
    &&& "test_"@.is_prefix_of(definition_name(c)->Ok_0)
    &&& declared_fixtures(c.children@) == Seq::<Seq<char>>::empty()
}

/// The test that a plain test function of the file at `path` yields.
pub open spec fn plain_test(c: SyntaxNode, path: Seq<char>) -> TestView {
    TestView {
        path,
        class_name: None,
        name: definition_name(c)->Ok_0,
        fixture_names: seq![],
    }
}

proof fn lemma_definition_kinds_differ()
    ensures
        "function_definition"@ != "decorated_definition"@,
        "function_definition"@ != "class_definition"@,
        "class_definition"@ != "decorated_definition"@,
{
    reveal_strlit("function_definition");
    reveal_strlit("decorated_definition");
    reveal_strlit("class_definition");
    assert("function_definition"@.len() != "decorated_definition"@.len());
    assert("function_definition"@.len() != "class_definition"@.len());
    assert("class_definition"@.len() != "decorated_definition"@.len());
}

proof fn lemma_plain_module(cs: Seq<SyntaxNode>, path: Seq<char>, m: MarkerNames)
    requires
        forall|i: int| 0 <= i < cs.len() ==> is_plain_test_function(#[trigger] cs[i]),
    ensures
        module_items(cs, path, m) == (Found {
            tests: cs.map_values(|c: SyntaxNode| plain_test(c, path)),
            fixtures: seq![],
            unrecognized: seq![],
            errors: seq![],
        }),
    decreases cs.len(),
{
    if cs.len() == 0 {
        assert(cs.map_values(|c: SyntaxNode| plain_test(c, path)) =~= seq![]);
    } else {
        let init = cs.drop_last();
        assert forall|i: int| 0 <= i < init.len() implies is_plain_test_function(#[trigger] init[i]) by {
            assert(init[i] == cs[i]);
        }
        lemma_plain_module(init, path, m);
        lemma_definition_kinds_differ();
        assert(is_plain_test_function(cs[cs.len() - 1]));
        let items = module_items(cs, path, m);
        assert(items.tests =~= cs.map_values(|c: SyntaxNode| plain_test(c, path)));
        assert(items.fixtures =~= seq![]);
        assert(items.unrecognized =~= seq![]);
        assert(items.errors =~= seq![]);
    }
}

/// A file whose top level holds only test functions without fixture
/// parameters yields one test per function, in order, each with the file's
/// path, no class and no fixtures; and nothing else.
pub proof fn lemma_top_level_tests(root: SyntaxNode, path: Seq<char>)
    requires
        forall|i: int|
            0 <= i < root.children@.len() ==> is_plain_test_function(#[trigger] root.children@[i]),
    ensures
        file_items(root, path).tests.len() == root.children@.len(),
        forall|i: int|
            0 <= i < root.children@.len() ==> #[trigger] file_items(root, path).tests[i] == plain_test(
                root.children@[i],
                path,
            ),
        file_items(root, path).fixtures.len() == 0,
        file_items(root, path).unrecognized.len() == 0,
        file_items(root, path).errors.len() == 0,
{
    lemma_plain_module(root.children@, path, file_markers(root));
}

/// The tests that the plain test functions among `cs` yield, in order.
pub open spec fn plain_tests(cs: Seq<SyntaxNode>, path: Seq<char>) -> Seq<TestView>
    decreases cs.len(),
{
    if cs.len() == 0 {
        seq![]
    } else if is_plain_test_function(cs.last()) {
        plain_tests(cs.drop_last(), path).push(plain_test(cs.last(), path))
    } else {
        plain_tests(cs.drop_last(), path)
    }
}

proof fn lemma_plain_tests_among_others(cs: Seq<SyntaxNode>, path: Seq<char>, m: MarkerNames)
    requires
        forall|i: int|
            0 <= i < cs.len() ==> is_plain_test_function(#[trigger] cs[i]) || top_level_items(
                cs[i],
                path, m).tests.len() == 0,
    ensures
        module_items(cs, path, m).tests == plain_tests(cs, path),
    decreases cs.len(),
{
    if cs.len() > 0 {
        let init = cs.drop_last();
        assert forall|i: int|
            0 <= i < init.len() implies is_plain_test_function(#[trigger] init[i])
            || top_level_items(init[i], path, m).tests.len() == 0 by {
            assert(init[i] == cs[i]);
        }
        lemma_plain_tests_among_others(init, path, m);
        lemma_definition_kinds_differ();
        let last = cs[cs.len() - 1];
        assert(is_plain_test_function(last) || top_level_items(last, path, m).tests.len() == 0);
        if is_plain_test_function(last) {
            assert(module_items(cs, path, m).tests =~= plain_tests(init, path).push(plain_test(last, path)));
        } else {
            assert(module_items(cs, path, m).tests =~= plain_tests(init, path));
        }
    }
}

/// In a file whose top level holds test functions without fixture parameters
/// beside statements that yield no test (imports, other functions, classes
/// without the test prefix, fixtures), the tests collected are exactly one per
/// such test function, in order, each with the file's path, no class and no
/// fixtures.
pub proof fn lemma_top_level_tests_among_others(root: SyntaxNode, path: Seq<char>)
    requires
        forall|i: int|
            0 <= i < root.children@.len() ==> is_plain_test_function(#[trigger] root.children@[i])
            || top_level_items(root.children@[i], path, file_markers(root)).tests.len() == 0,
    ensures
        file_items(root, path).tests == plain_tests(root.children@, path),
{
    lemma_plain_tests_among_others(root.children@, path, file_markers(root));
}

/// A test-named method of a class named `class_name`, as collected.
pub open spec fn method_test(c: SyntaxNode, class_name: Seq<char>, path: Seq<char>) -> TestView {
    TestView {
        path,
        class_name: Some(class_name),
        name: definition_name(c)->Ok_0,
        fixture_names: declared_fixtures(c.children@),
    }
}

/// A function definition whose name has the test prefix.
pub open spec fn is_test_method(c: SyntaxNode) -> bool {
    &&& c.kind@ == "function_definition"@
    &&& definition_name(c) is Ok
    &&& "test_"@.is_prefix_of(definition_name(c)->Ok_0)
}

proof fn lemma_block_of_methods(cs: Seq<SyntaxNode>, class_name: Seq<char>, path: Seq<char>, m: MarkerNames)
    requires
        forall|i: int| 0 <= i < cs.len() ==> is_test_method(#[trigger] cs[i]),
    ensures
        block_items(cs, class_name, path, m) == (Found {
            tests: cs.map_values(|c: SyntaxNode| method_test(c, class_name, path)),
            fixtures: seq![],
            unrecognized: seq![],
            errors: seq![],
        }),
    decreases cs.len(),
{
    if cs.len() == 0 {
        assert(cs.map_values(|c: SyntaxNode| method_test(c, class_name, path)) =~= seq![]);
    } else {
        let init = cs.drop_last();
        assert forall|i: int| 0 <= i < init.len() implies is_test_method(#[trigger] init[i]) by {
            assert(init[i] == cs[i]);
        }
        lemma_block_of_methods(init, class_name, path, m);
        lemma_definition_kinds_differ();
        assert(is_test_method(cs[cs.len() - 1]));
        let items = block_items(cs, class_name, path, m);
        assert(items.tests =~= cs.map_values(|c: SyntaxNode| method_test(c, class_name, path)));
        assert(items.fixtures =~= seq![]);
        assert(items.unrecognized =~= seq![]);
        assert(items.errors =~= seq![]);
    }
}

/// A class with the test-class prefix, `class Name:` followed by a body of
/// test-named methods, yields one test per method, in order, each under the
/// class's name with the fixtures it declares; and nothing else.
pub proof fn lemma_test_class_methods(n: SyntaxNode, path: Seq<char>, m: MarkerNames)
    requires
        n.children@.len() == 4,
        n.children@[0].kind@ != "async"@,
        n.children@[1].kind@ == "identifier"@,
        "Test"@.is_prefix_of(n.children@[1].text@),
        n.children@[2].kind@ == ":"@,
        n.children@[3].kind@ == "block"@,
        forall|i: int|
            0 <= i < n.children@[3].children@.len() ==> is_test_method(
                #[trigger] n.children@[3].children@[i],
            ),
    ensures
        class_items(n, path, m) == (Found {
            tests: n.children@[3].children@.map_values(
                |c: SyntaxNode| method_test(c, n.children@[1].text@, path),
            ),
            fixtures: seq![],
            unrecognized: seq![],
            errors: seq![],
        }),
{
    let name = n.children@[1].text@;
    let parts = n.children@.skip(2);
    assert(parts.drop_last().drop_last() =~= seq![]);
    assert(parts.drop_last().last() == n.children@[2]);
    assert(parts.last() == n.children@[3]);
    lemma_block_of_methods(n.children@[3].children@, name, path, m);
    lemma_empty_plus(class_part_items(n.children@[2], name, path, m));
    lemma_empty_plus(class_part_items(n.children@[3], name, path, m));
    reveal_strlit(":");
    reveal_strlit("block");
    assert(":"@ != "block"@) by {
        assert(":"@.len() != "block"@.len());
    }
    assert(class_part_items(n.children@[2], name, path, m) == Found::empty());
    assert(class_parts_items(parts.drop_last().drop_last(), name, path, m) == Found::empty());
    lemma_empty_plus(Found::empty());
    assert(class_parts_items(parts.drop_last(), name, path, m) == Found::empty());
    lemma_empty_plus(block_items(n.children@[3].children@, name, path, m));
}

/// A class whose name lacks the test-class prefix contributes nothing, not
/// even the test-named functions in its body.
pub proof fn lemma_other_class_skipped(n: SyntaxNode, path: Seq<char>, m: MarkerNames)
    requires
        n.kind@ == "class_definition"@,
        definition_name(n) is Ok,
        !"Test"@.is_prefix_of(definition_name(n)->Ok_0),
    ensures
        class_items(n, path, m) == Found::empty(),
        top_level_items(n, path, m) == Found::empty(),
{
    lemma_definition_kinds_differ();
}

/// Every test in a set of items names `class_name` as its class.
pub open spec fn all_in_class(f: Found, class_name: Seq<char>) -> bool {
    forall|i: int| 0 <= i < f.tests.len() ==> (#[trigger] f.tests[i]).class_name == Some(class_name)
}

proof fn lemma_all_in_class_plus(a: Found, b: Found, class_name: Seq<char>)
    requires
        all_in_class(a, class_name),
        all_in_class(b, class_name),
    ensures
        all_in_class(a.plus(b), class_name),
{
    assert forall|i: int| 0 <= i < a.plus(b).tests.len() implies (#[trigger] a.plus(
        b,
    ).tests[i]).class_name == Some(class_name) by {
        if i >= a.tests.len() {
            assert(a.plus(b).tests[i] == b.tests[i - a.tests.len()]);
        }
    }
}

proof fn lemma_block_in_class(cs: Seq<SyntaxNode>, class_name: Seq<char>, path: Seq<char>, m: MarkerNames)
    ensures
        all_in_class(block_items(cs, class_name, path, m), class_name),
    decreases cs.len(),
{
    if cs.len() > 0 {
        lemma_block_in_class(cs.drop_last(), class_name, path, m);
        lemma_all_in_class_plus(
            block_items(cs.drop_last(), class_name, path, m),
            class_member_items(cs.last(), class_name, path, m),
            class_name,
        );
    }
}

proof fn lemma_parts_in_class(cs: Seq<SyntaxNode>, class_name: Seq<char>, path: Seq<char>, m: MarkerNames)
    ensures
        all_in_class(class_parts_items(cs, class_name, path, m), class_name),
    decreases cs.len(),
{
    if cs.len() > 0 {
        lemma_parts_in_class(cs.drop_last(), class_name, path, m);
        if cs.last().kind@ == "block"@ {
            lemma_block_in_class(cs.last().children@, class_name, path, m);
        }
        lemma_all_in_class_plus(
            class_parts_items(cs.drop_last(), class_name, path, m),
            class_part_items(cs.last(), class_name, path, m),
            class_name,
        );
    }
}

/// Every test collected from a class names that class.
pub proof fn lemma_class_tests_name_class(n: SyntaxNode, path: Seq<char>, m: MarkerNames)
    requires
        definition_name(n) is Ok,
    ensures
        all_in_class(class_items(n, path, m), definition_name(n)->Ok_0),
{
    let name = definition_name(n)->Ok_0;
    if "Test"@.is_prefix_of(name) {
        lemma_parts_in_class(n.children@.skip(name_slot(n) + 1), name, path, m);
    }
}

/// A test-named method in the body of a test class is collected under the
/// class's name.
pub proof fn lemma_method_in_test_class(c: SyntaxNode, class_name: Seq<char>, path: Seq<char>, m: MarkerNames)
    requires
        c.kind@ == "function_definition"@,
        definition_name(c) is Ok,
        "test_"@.is_prefix_of(definition_name(c)->Ok_0),
    ensures
        class_member_items(c, class_name, path, m) == Found::test(
            TestView {
                path,
                class_name: Some(class_name),
                name: definition_name(c)->Ok_0,
                fixture_names: declared_fixtures(c.children@),
            },
        ),
{
    lemma_definition_kinds_differ();
}

/// A definition under the fixture marker is a fixture and never a test,
/// whatever its name, at the top level and in the body of a test class.
pub proof fn lemma_fixture_marker_wins(n: SyntaxNode, class_name: Seq<char>, path: Seq<char>, m: MarkerNames)
    requires
        n.kind@ == "decorated_definition"@,
        any_fixture_decorator(n.children@, m),
        last_definition(n.children@) is Some,
        definition_name(n.children@[last_definition(n.children@)->Some_0]) is Ok,
    ensures
        top_level_items(n, path, m) == Found::fixture(
            definition_name(n.children@[last_definition(n.children@)->Some_0])->Ok_0,
        ),
        class_member_items(n, class_name, path, m) == Found::fixture(
            definition_name(n.children@[last_definition(n.children@)->Some_0])->Ok_0,
        ),
        top_level_items(n, path, m).tests.len() == 0,
{
}

/// With no files to visit, the result holds no files, no diagnostics and no
/// failures.
pub proof fn lemma_nothing_to_collect()
    ensures
        visited_files(Seq::<FileOutcome>::empty()).len() == 0,
        visited_diagnostics(Seq::<FileOutcome>::empty()).len() == 0,
        failed_files(Seq::<FileOutcome>::empty()).len() == 0,
{
}

/// Extracting the items of one file's source twice gives the same result, so
/// a second run over an unchanged tree hands `collect_items` the same per-file
/// outcomes, and it returns the same collected result.
pub proof fn lemma_extraction_repeatable(
    source: Seq<char>,
    path: Seq<char>,
    r1: Result<Found, FileError>,
    r2: Result<Found, FileError>,
)
    requires
        extracted(source, path, r1),
        extracted(source, path, r2),
    ensures
        r1 == r2,
{
    if r1 is Ok {
        let a = choose|root: SyntaxNode|
            #![trigger file_items(root, path)]
            reads_as(root, python_syntax(source)) && file_items(root, path) == r1->Ok_0;
        let b = choose|root: SyntaxNode|
            #![trigger file_items(root, path)]
            reads_as(root, python_syntax(source)) && file_items(root, path) == r2->Ok_0;
        lemma_same_tree_same_items(a, b, python_syntax(source), path);
    }
}

/// Collection depends on nothing but its input: the same trees give the same
/// items, and the same per-file outcomes give the same result, order included.
pub proof fn lemma_collection_repeatable(
    root1: SyntaxNode,
    root2: SyntaxNode,
    path: Seq<char>,
    os1: Seq<FileOutcome>,
    os2: Seq<FileOutcome>,
)
    requires
        root1 == root2,
        os1 == os2,
    ensures
        file_items(root1, path) == file_items(root2, path),
        visited_files(os1) == visited_files(os2),
        visited_diagnostics(os1) == visited_diagnostics(os2),
        failed_files(os1) == failed_files(os2),
{
}

} // verus!
