use rytest::collection::{
    collect_items, extract_items_from_test_file, is_test_file, items_from_tree, CollectedResult,
    FileDiagnostics, FileError, FileFailure, FileOutcome,
};
use rytest::model::{
    FileItems, Fixture, FixtureScope, StructuralError, SyntaxNode, TestDefinition,
    TestFileContents,
};
use rytest::syntax::parse_module;
use rytest::visitor::{extract_fixtures, read_name, visit_module};

fn items(path: &str, source: &str) -> FileItems {
    extract_items_from_test_file(&path.to_string(), source).expect("parsing test file")
}

fn collect_one(path: &str, source: &str) -> Vec<TestFileContents> {
    let outcome = FileOutcome {
        path: path.to_string(),
        result: extract_items_from_test_file(&path.to_string(), source),
    };
    collect_items(vec![outcome], false).expect("collecting tests").files
}

fn test_def(path: &str, class_name: Option<&str>, name: &str, fixtures: &[&str]) -> TestDefinition {
    TestDefinition {
        path: path.to_string(),
        class_name: class_name.map(|c| c.to_string()),
        name: name.to_string(),
        fixture_names: fixtures.iter().map(|f| f.to_string()).collect(),
    }
}

fn leaf(kind: &str, text: &str) -> SyntaxNode {
    SyntaxNode { kind: kind.to_string(), text: text.to_string(), children: Vec::new() }
}

fn node(kind: &str, children: Vec<SyntaxNode>) -> SyntaxNode {
    SyntaxNode { kind: kind.to_string(), text: String::new(), children }
}

#[test]
fn simple() {
    let file_contents = r#"
def test_simple():
    assert 1 == 2
    "#;
    let path = "/tmp/tests/test_simple.py";
    let tests = collect_one(path, file_contents);
    assert_eq!(
        tests,
        vec![TestFileContents {
            tests: vec![TestDefinition {
                name: "test_simple".to_string(),
                path: path.to_string(),
                ..Default::default()
            }],
            fixtures: Vec::new(),
        },]
    );
}

#[test]
fn class_method() {
    let file_contents = r#"
class TestClass:
    def test_method(self):
        assert 1 == 2
    "#;
    let path = "/tmp/tests/test_method.py";
    let tests = collect_one(path, file_contents);
    assert_eq!(
        tests,
        vec![TestFileContents {
            tests: vec![TestDefinition {
                name: "test_method".to_string(),
                path: path.to_string(),
                class_name: Some("TestClass".to_string()),
                ..Default::default()
            }],
            fixtures: Vec::new(),
        },]
    );
}

#[test]
fn fixture() {
    let file_contents = r#"
import pytest

@pytest.fixture
def my_fixture() -> int:
    return 10

def test_with_fixture(my_fixture):
    assert my_fixture == 10
    "#;
    let path = "/tmp/tests/test_with_fixture.py";
    let items = collect_one(path, file_contents);
    assert_eq!(
        items,
        vec![TestFileContents {
            tests: vec![TestDefinition {
                name: "test_with_fixture".to_string(),
                path: path.to_string(),
                class_name: None,
                fixture_names: vec!["my_fixture".to_string()],
            }],
            fixtures: vec![Fixture {
                name: "my_fixture".to_string(),
                scope: FixtureScope::Function
            }],
        },]
    );
}

#[test]
fn top_level_tests_all_collected_in_order() {
    let source = "import os\n\ndef test_a():\n    pass\n\ndef helper():\n    pass\n\ndef test_b():\n    pass\n\ndef test_c():\n    pass\n";
    let found = items("p/test_abc.py", source);
    assert_eq!(
        found.contents.tests,
        vec![
            test_def("p/test_abc.py", None, "test_a", &[]),
            test_def("p/test_abc.py", None, "test_b", &[]),
            test_def("p/test_abc.py", None, "test_c", &[]),
        ]
    );
    assert!(found.contents.fixtures.is_empty());
    assert!(found.unrecognized.is_empty());
    assert!(found.errors.is_empty());
}

#[test]
fn helper_class_is_not_collected() {
    let source = "class Helper:\n    def test_foo(self):\n        pass\n";
    let found = items("test_helper.py", source);
    assert!(found.contents.tests.is_empty());
    assert!(found.contents.fixtures.is_empty());
}

#[test]
fn test_class_method_names_class() {
    let source = "class TestFoo:\n    def test_foo(self):\n        pass\n    def other(self):\n        pass\n";
    let found = items("test_foo.py", source);
    assert_eq!(
        found.contents.tests,
        vec![test_def("test_foo.py", Some("TestFoo"), "test_foo", &[])]
    );
}

#[test]
fn fixture_marker_wins_over_test_name() {
    let source = "import pytest\n\n@pytest.fixture\ndef test_setup():\n    return 1\n";
    let found = items("test_setup.py", source);
    assert!(found.contents.tests.is_empty());
    assert_eq!(
        found.contents.fixtures,
        vec![Fixture { name: "test_setup".to_string(), scope: FixtureScope::Function }]
    );
}

#[test]
fn fixture_marker_with_arguments_and_spacing() {
    let source = "import pytest\n\n@pytest.fixture(scope=\"module\")\ndef db():\n    return 1\n\n@pytest . fixture\ndef cache():\n    return 2\n";
    let found = items("test_marker.py", source);
    let names: Vec<String> = found.contents.fixtures.iter().map(|f| f.name.clone()).collect();
    assert_eq!(names, vec!["db".to_string(), "cache".to_string()]);
}

#[test]
fn other_decorator_keeps_test() {
    let source = "import functools\n\n@functools.wraps(f)\ndef test_wrapped():\n    pass\n";
    let found = items("test_wrapped.py", source);
    assert_eq!(found.contents.tests, vec![test_def("test_wrapped.py", None, "test_wrapped", &[])]);
    assert!(found.contents.fixtures.is_empty());
}

#[test]
fn self_is_not_a_fixture() {
    let source = "class TestThing:\n    def test_it(self, my_fixture, other_fixture):\n        pass\n";
    let found = items("test_thing.py", source);
    assert_eq!(
        found.contents.tests[0].fixture_names,
        vec!["my_fixture".to_string(), "other_fixture".to_string()]
    );
}

#[test]
fn annotated_parameters_are_fixtures() {
    let source = "def test_typed(a: int, b):\n    pass\n";
    let found = items("test_typed.py", source);
    assert_eq!(found.contents.tests, vec![test_def("test_typed.py", None, "test_typed", &["a", "b"])]);
}

#[test]
fn async_test_is_collected() {
    let source = "async def test_later(client):\n    pass\n";
    let found = items("test_later.py", source);
    assert_eq!(found.contents.tests, vec![test_def("test_later.py", None, "test_later", &["client"])]);
}

#[test]
fn empty_collection() {
    let result = collect_items(Vec::new(), false).expect("no files");
    assert_eq!(
        result,
        CollectedResult { files: Vec::new(), diagnostics: Vec::new(), failures: Vec::new() }
    );
    assert!(collect_items(Vec::new(), true).is_ok());
}

#[test]
fn collection_is_repeatable() {
    let source = "import pytest\n\n@pytest.fixture\ndef f():\n    pass\n\nclass TestA:\n    def test_x(self, f):\n        pass\n\ndef test_y():\n    pass\n";
    let run = || {
        let outcomes = vec![
            FileOutcome { path: "a/test_1.py".to_string(), result: extract_items_from_test_file(&"a/test_1.py".to_string(), source) },
            FileOutcome { path: "a/test_2.py".to_string(), result: extract_items_from_test_file(&"a/test_2.py".to_string(), source) },
        ];
        collect_items(outcomes, false).expect("collecting")
    };
    let first = run();
    let second = run();
    assert_eq!(first, second);
    assert_eq!(first.files.len(), 2);
    assert_eq!(first.files[0].tests.len(), 2);
    assert_eq!(first.files[1].tests[0].path, "a/test_2.py".to_string());
}

#[test]
fn unrecognized_construct_does_not_stop_the_file() {
    let source = "while True:\n    pass\n\ndef test_after():\n    pass\n";
    let found = items("test_loop.py", source);
    assert_eq!(found.unrecognized, vec!["while_statement".to_string()]);
    assert_eq!(found.contents.tests, vec![test_def("test_loop.py", None, "test_after", &[])]);
}

#[test]
fn nested_class_is_reported() {
    let source = "class TestOuter:\n    class TestInner:\n        def test_inner(self):\n            pass\n    def test_outer(self):\n        pass\n";
    let found = items("test_nested.py", source);
    assert_eq!(found.unrecognized, vec!["class_definition".to_string()]);
    assert_eq!(found.contents.tests, vec![test_def("test_nested.py", Some("TestOuter"), "test_outer", &[])]);
}

#[test]
fn name_that_is_not_an_identifier_is_a_structural_error() {
    let f = node("function_definition", vec![leaf("def", "def"), leaf("string", "\"x\"")]);
    assert_eq!(read_name(&f), Err(StructuralError::NameNotIdentifier));
    let root = node("module", vec![f, node("function_definition", vec![leaf("def", "def"), leaf("identifier", "test_ok")])]);
    let found = visit_module(&root, &"m.py".to_string());
    assert_eq!(found.errors, vec![StructuralError::NameNotIdentifier]);
    assert_eq!(found.contents.tests, vec![test_def("m.py", None, "test_ok", &[])]);
}

#[test]
fn missing_name_and_missing_definition() {
    let root = node(
        "module",
        vec![
            node("class_definition", vec![leaf("class", "class")]),
            node("decorated_definition", vec![node("decorator", vec![leaf("@", "@")])]),
        ],
    );
    let found = visit_module(&root, &"m.py".to_string());
    assert_eq!(found.errors, vec![StructuralError::MissingName, StructuralError::MissingDefinition]);
}

#[test]
fn parameters_in_declaration_order() {
    let f = node(
        "function_definition",
        vec![
            leaf("def", "def"),
            leaf("identifier", "test_p"),
            node(
                "parameters",
                vec![
                    leaf("(", "("),
                    leaf("identifier", "self"),
                    leaf(",", ","),
                    leaf("identifier", "b"),
                    leaf(",", ","),
                    leaf("identifier", "a"),
                    leaf(")", ")"),
                ],
            ),
        ],
    );
    assert_eq!(extract_fixtures(&f), vec!["b".to_string(), "a".to_string()]);
}

#[test]
fn parse_gives_module_tree() {
    let root = parse_module("def test_x():\n    pass\n").expect("tree");
    assert_eq!(root.kind, "module".to_string());
    assert_eq!(root.children.len(), 1);
    assert_eq!(root.children[0].kind, "function_definition".to_string());
    assert_eq!(root.children[0].children[1].text, "test_x".to_string());
}

#[test]
fn no_tree_is_a_parse_error() {
    assert_eq!(items_from_tree(&"x.py".to_string(), None), Err(FileError::Parse));
}

#[test]
fn test_file_names() {
    assert!(is_test_file(&"test_simple.py".to_string()));
    assert!(!is_test_file(&"simple.py".to_string()));
    assert!(!is_test_file(&"test_simple.txt".to_string()));
    assert!(!is_test_file(&"conftest.py".to_string()));
}

#[test]
fn failures_best_effort_and_fail_fast() {
    let good = || FileOutcome {
        path: "test_ok.py".to_string(),
        result: extract_items_from_test_file(&"test_ok.py".to_string(), "def test_ok():\n    pass\n"),
    };
    let bad = || FileOutcome { path: "test_bad.py".to_string(), result: Err(FileError::Io("denied".to_string())) };
    let result = collect_items(vec![bad(), good()], false).expect("best effort");
    assert_eq!(result.files.len(), 1);
    assert_eq!(
        result.failures,
        vec![FileFailure { path: "test_bad.py".to_string(), error: FileError::Io("denied".to_string()) }]
    );
    assert_eq!(
        result.diagnostics,
        vec![FileDiagnostics { path: "test_ok.py".to_string(), unrecognized: Vec::new(), errors: Vec::new() }]
    );
    let err = collect_items(vec![good(), bad(), FileOutcome { path: "test_c.py".to_string(), result: Err(FileError::Parse) }], true)
        .expect_err("fail fast");
    assert_eq!(err, FileFailure { path: "test_bad.py".to_string(), error: FileError::Io("denied".to_string()) });
}

#[test]
fn same_test_in_two_files_is_kept_twice() {
    let src = "def test_same():\n    pass\n";
    let outcomes = vec![
        FileOutcome { path: "a/test_x.py".to_string(), result: extract_items_from_test_file(&"a/test_x.py".to_string(), src) },
        FileOutcome { path: "b/test_x.py".to_string(), result: extract_items_from_test_file(&"b/test_x.py".to_string(), src) },
    ];
    let result = collect_items(outcomes, false).expect("collecting");
    assert_eq!(result.files[0].tests, vec![test_def("a/test_x.py", None, "test_same", &[])]);
    assert_eq!(result.files[1].tests, vec![test_def("b/test_x.py", None, "test_same", &[])]);
}

#[test]
fn describe_lines() {
    assert_eq!(test_def("t.py", None, "test_a", &[]).describe(), "t.py::test_a (uses no fixtures)".to_string());
    assert_eq!(
        test_def("t.py", Some("TestK"), "test_b", &["x", "y"]).describe(),
        "t.py::TestK::test_b (uses x, y)".to_string()
    );
    assert_eq!(test_def("t.py", Some("TestK"), "test_c", &[]).describe(), "t.py::TestK::test_c (uses no fixtures)".to_string());
    assert_eq!(test_def("t.py", None, "test_d", &["z"]).describe(), "t.py::test_d (uses z)".to_string());
}

#[test]
fn fixture_marker_through_module_alias() {
    let source = "import pytest as pt\n\n@pt.fixture\ndef db():\n    return 1\n\ndef test_db(db):\n    pass\n";
    let found = items("test_alias.py", source);
    assert_eq!(found.contents.fixtures, vec![Fixture { name: "db".to_string(), scope: FixtureScope::Function }]);
    assert_eq!(found.contents.tests, vec![test_def("test_alias.py", None, "test_db", &["db"])]);
}

#[test]
fn fixture_marker_imported_by_name() {
    let source = "from pytest import fixture, raises as r\nfrom pytest import fixture as fx\n\n@fixture\ndef a():\n    return 1\n\n@fx(autouse=True)\ndef test_b():\n    return 2\n\n@r\ndef test_c():\n    pass\n";
    let found = items("test_named.py", source);
    let names: Vec<String> = found.contents.fixtures.iter().map(|f| f.name.clone()).collect();
    assert_eq!(names, vec!["a".to_string(), "test_b".to_string()]);
    assert_eq!(found.contents.tests, vec![test_def("test_named.py", None, "test_c", &[])]);
}

#[test]
fn unbound_fixture_name_is_not_a_marker() {
    let source = "@fixture\ndef test_plain():\n    pass\n";
    let found = items("test_unbound.py", source);
    assert!(found.contents.fixtures.is_empty());
    assert_eq!(found.contents.tests, vec![test_def("test_unbound.py", None, "test_plain", &[])]);
}

#[test]
fn tree_and_source_give_same_items() {
    let tree = node("module", vec![node("function_definition", vec![leaf("def", "def"), leaf("identifier", "test_a")])]);
    assert!(items_from_tree(&"t.py".to_string(), Some(tree)).is_ok());
    assert_eq!(
        extract_items_from_test_file(&"t.py".to_string(), "def test_a():\n    pass\n").map(|i| i.contents.tests.len()),
        Ok(1)
    );
}
