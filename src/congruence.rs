//! Collection reads a tree only through the values that `reads_as` fixes, so
//! two plain trees that read as the same parsed tree yield the same items.

use vstd::prelude::*;

use crate::imports::{
    bound_name, bound_names, file_markers, module_names, statement_markers, statement_modules,
    MarkerNames,
};
use crate::model::SyntaxNode;
use crate::syntax::{reads_as, SyntaxView};
use crate::visitor::{
    any_fixture_decorator, any_fixture_expression, block_items, class_items, class_member_items,
    class_part_items, class_parts_items, declared_fixtures, decorated_at_top, decorated_in_class,
    definition_name, file_items, fixture_items, function_items, is_fixture_expression,
    last_definition, module_items, name_slot, parameter_fixture, parameters_fixtures,
    top_level_items, is_fixture_decorator, child_fixtures,
};

verus! {

/// Two sequences of nodes that read, position by position, as `ms`.
pub open spec fn twins(xs: Seq<SyntaxNode>, ys: Seq<SyntaxNode>, ms: Seq<SyntaxView>) -> bool {
    &&& xs.len() == ms.len()
    &&& ys.len() == ms.len()
    &&& forall|i: int| 0 <= i < ms.len() ==> reads_as(#[trigger] xs[i], ms[i])
    &&& forall|i: int| 0 <= i < ms.len() ==> reads_as(#[trigger] ys[i], ms[i])
}

proof fn lemma_pair(x: SyntaxNode, y: SyntaxNode, m: SyntaxView)
    requires
        reads_as(x, m),
        reads_as(y, m),
    ensures
        x.kind@ == y.kind@,
        x.text@ == y.text@,
        twins(x.children@, y.children@, m.children),
{
    assert forall|i: int| 0 <= i < m.children.len() implies reads_as(#[trigger] x.children@[i], m.children[i]) by {
    }
    assert forall|i: int| 0 <= i < m.children.len() implies reads_as(#[trigger] y.children@[i], m.children[i]) by {
    }
}

proof fn lemma_twins_last(xs: Seq<SyntaxNode>, ys: Seq<SyntaxNode>, ms: Seq<SyntaxView>)
    requires
        twins(xs, ys, ms),
        xs.len() > 0,
    ensures
        twins(xs.drop_last(), ys.drop_last(), ms.drop_last()),
        reads_as(xs.last(), ms.last()),
        reads_as(ys.last(), ms.last()),
{
    assert forall|i: int| 0 <= i < ms.drop_last().len() implies reads_as(
        #[trigger] xs.drop_last()[i],
        ms.drop_last()[i],
    ) by {
        assert(reads_as(xs[i], ms[i]));
    }
    assert forall|i: int| 0 <= i < ms.drop_last().len() implies reads_as(
        #[trigger] ys.drop_last()[i],
        ms.drop_last()[i],
    ) by {
        assert(reads_as(ys[i], ms[i]));
    }
    assert(reads_as(xs[xs.len() - 1], ms[ms.len() - 1]));
    assert(reads_as(ys[ys.len() - 1], ms[ms.len() - 1]));
}

proof fn lemma_twins_at(xs: Seq<SyntaxNode>, ys: Seq<SyntaxNode>, ms: Seq<SyntaxView>, i: int)
    requires
        twins(xs, ys, ms),
        0 <= i < ms.len(),
    ensures
        xs[i].kind@ == ys[i].kind@,
        xs[i].text@ == ys[i].text@,
        twins(xs[i].children@, ys[i].children@, ms[i].children),
{
    assert(reads_as(xs[i], ms[i]));
    assert(reads_as(ys[i], ms[i]));
    lemma_pair(xs[i], ys[i], ms[i]);
}

proof fn lemma_name(x: SyntaxNode, y: SyntaxNode, m: SyntaxView)
    requires
        reads_as(x, m),
        reads_as(y, m),
    ensures
        name_slot(x) == name_slot(y),
        definition_name(x) == definition_name(y),
{
    lemma_pair(x, y, m);
    let (xs, ys, ms) = (x.children@, y.children@, m.children);
    if ms.len() > 0 {
        lemma_twins_at(xs, ys, ms, 0);
    }
    let k = name_slot(x);
    if 0 <= k < ms.len() {
        lemma_twins_at(xs, ys, ms, k);
    }
}

proof fn lemma_parameters(xs: Seq<SyntaxNode>, ys: Seq<SyntaxNode>, ms: Seq<SyntaxView>)
    requires
        twins(xs, ys, ms),
    ensures
        parameters_fixtures(xs) == parameters_fixtures(ys),
    decreases xs.len(),
{
    if xs.len() > 0 {
        lemma_twins_last(xs, ys, ms);
        lemma_parameters(xs.drop_last(), ys.drop_last(), ms.drop_last());
        lemma_pair(xs.last(), ys.last(), ms.last());
        if ms.last().children.len() > 0 {
            lemma_twins_at(xs.last().children@, ys.last().children@, ms.last().children, 0);
        }
        assert(parameter_fixture(xs.last()) == parameter_fixture(ys.last()));
    }
}

proof fn lemma_declared(xs: Seq<SyntaxNode>, ys: Seq<SyntaxNode>, ms: Seq<SyntaxView>)
    requires
        twins(xs, ys, ms),
    ensures
        declared_fixtures(xs) == declared_fixtures(ys),
    decreases xs.len(),
{
    if xs.len() > 0 {
        lemma_twins_last(xs, ys, ms);
        lemma_declared(xs.drop_last(), ys.drop_last(), ms.drop_last());
        lemma_pair(xs.last(), ys.last(), ms.last());
        lemma_parameters(xs.last().children@, ys.last().children@, ms.last().children);
        assert(child_fixtures(xs.last()) == child_fixtures(ys.last()));
    }
}

proof fn lemma_function(x: SyntaxNode, y: SyntaxNode, m: SyntaxView, c: Option<Seq<char>>, p: Seq<char>)
    requires
        reads_as(x, m),
        reads_as(y, m),
    ensures
        function_items(x, c, p) == function_items(y, c, p),
        fixture_items(x) == fixture_items(y),
{
    lemma_name(x, y, m);
    lemma_pair(x, y, m);
    lemma_declared(x.children@, y.children@, m.children);
}

proof fn lemma_expression(x: SyntaxNode, y: SyntaxNode, m: SyntaxView, names: MarkerNames)
    requires
        reads_as(x, m),
        reads_as(y, m),
    ensures
        is_fixture_expression(x, names) == is_fixture_expression(y, names),
{
    lemma_pair(x, y, m);
    let (xs, ys, ms) = (x.children@, y.children@, m.children);
    if ms.len() > 0 {
        lemma_twins_at(xs, ys, ms, 0);
        let (xs0, ys0, ms0) = (xs[0].children@, ys[0].children@, ms[0].children);
        if ms0.len() == 3 {
            lemma_twins_at(xs0, ys0, ms0, 0);
            lemma_twins_at(xs0, ys0, ms0, 2);
        }
    }
    if ms.len() == 3 {
        lemma_twins_at(xs, ys, ms, 2);
    }
}

proof fn lemma_expressions(xs: Seq<SyntaxNode>, ys: Seq<SyntaxNode>, ms: Seq<SyntaxView>, names: MarkerNames)
    requires
        twins(xs, ys, ms),
    ensures
        any_fixture_expression(xs, names) == any_fixture_expression(ys, names),
    decreases xs.len(),
{
    if xs.len() > 0 {
        lemma_twins_last(xs, ys, ms);
        lemma_expressions(xs.drop_last(), ys.drop_last(), ms.drop_last(), names);
        lemma_expression(xs.last(), ys.last(), ms.last(), names);
    }
}

proof fn lemma_decorators(xs: Seq<SyntaxNode>, ys: Seq<SyntaxNode>, ms: Seq<SyntaxView>, names: MarkerNames)
    requires
        twins(xs, ys, ms),
    ensures
        any_fixture_decorator(xs, names) == any_fixture_decorator(ys, names),
        last_definition(xs) == last_definition(ys),
    decreases xs.len(),
{
    if xs.len() > 0 {
        lemma_twins_last(xs, ys, ms);
        lemma_decorators(xs.drop_last(), ys.drop_last(), ms.drop_last(), names);
        lemma_pair(xs.last(), ys.last(), ms.last());
        lemma_expressions(xs.last().children@, ys.last().children@, ms.last().children, names);
        assert(is_fixture_decorator(xs.last(), names) == is_fixture_decorator(ys.last(), names));
    }
}

proof fn lemma_twins_skip(xs: Seq<SyntaxNode>, ys: Seq<SyntaxNode>, ms: Seq<SyntaxView>, k: int)
    requires
        twins(xs, ys, ms),
        0 <= k <= ms.len(),
    ensures
        twins(xs.skip(k), ys.skip(k), ms.skip(k)),
{
    assert forall|i: int| 0 <= i < ms.skip(k).len() implies reads_as(#[trigger] xs.skip(k)[i], ms.skip(k)[i]) by {
        assert(reads_as(xs[i + k], ms[i + k]));
    }
    assert forall|i: int| 0 <= i < ms.skip(k).len() implies reads_as(#[trigger] ys.skip(k)[i], ms.skip(k)[i]) by {
        assert(reads_as(ys[i + k], ms[i + k]));
    }
}

proof fn lemma_decorated_in_class(
    x: SyntaxNode,
    y: SyntaxNode,
    m: SyntaxView,
    c: Seq<char>,
    p: Seq<char>,
    names: MarkerNames,
)
    requires
        reads_as(x, m),
        reads_as(y, m),
    ensures
        decorated_in_class(x, c, p, names) == decorated_in_class(y, c, p, names),
{
    lemma_pair(x, y, m);
    lemma_decorators(x.children@, y.children@, m.children, names);
    if let Some(k) = last_definition(x.children@) {
        lemma_last_definition_bound(x.children@);
        lemma_twins_at(x.children@, y.children@, m.children, k);
        assert(reads_as(x.children@[k], m.children[k]));
        assert(reads_as(y.children@[k], m.children[k]));
        lemma_function(x.children@[k], y.children@[k], m.children[k], Some(c), p);
    }
}

proof fn lemma_last_definition_bound(xs: Seq<SyntaxNode>)
    ensures
        last_definition(xs) matches Some(k) ==> 0 <= k < xs.len(),
    decreases xs.len(),
{
    if xs.len() > 0 {
        lemma_last_definition_bound(xs.drop_last());
    }
}

proof fn lemma_block(xs: Seq<SyntaxNode>, ys: Seq<SyntaxNode>, ms: Seq<SyntaxView>, c: Seq<char>, p: Seq<char>, names: MarkerNames)
    requires
        twins(xs, ys, ms),
    ensures
        block_items(xs, c, p, names) == block_items(ys, c, p, names),
    decreases xs.len(),
{
    if xs.len() > 0 {
        lemma_twins_last(xs, ys, ms);
        lemma_block(xs.drop_last(), ys.drop_last(), ms.drop_last(), c, p, names);
        lemma_pair(xs.last(), ys.last(), ms.last());
        lemma_decorated_in_class(xs.last(), ys.last(), ms.last(), c, p, names);
        lemma_function(xs.last(), ys.last(), ms.last(), Some(c), p);
        assert(class_member_items(xs.last(), c, p, names) == class_member_items(ys.last(), c, p, names));
    }
}

proof fn lemma_parts(xs: Seq<SyntaxNode>, ys: Seq<SyntaxNode>, ms: Seq<SyntaxView>, c: Seq<char>, p: Seq<char>, names: MarkerNames)
    requires
        twins(xs, ys, ms),
    ensures
        class_parts_items(xs, c, p, names) == class_parts_items(ys, c, p, names),
    decreases xs.len(),
{
    if xs.len() > 0 {
        lemma_twins_last(xs, ys, ms);
        lemma_parts(xs.drop_last(), ys.drop_last(), ms.drop_last(), c, p, names);
        lemma_pair(xs.last(), ys.last(), ms.last());
        lemma_block(xs.last().children@, ys.last().children@, ms.last().children, c, p, names);
        assert(class_part_items(xs.last(), c, p, names) == class_part_items(ys.last(), c, p, names));
    }
}

proof fn lemma_class(x: SyntaxNode, y: SyntaxNode, m: SyntaxView, p: Seq<char>, names: MarkerNames)
    requires
        reads_as(x, m),
        reads_as(y, m),
    ensures
        class_items(x, p, names) == class_items(y, p, names),
{
    lemma_name(x, y, m);
    lemma_pair(x, y, m);
    if let Ok(name) = definition_name(x) {
        let k = name_slot(x) + 1;
        lemma_twins_skip(x.children@, y.children@, m.children, k);
        lemma_parts(x.children@.skip(k), y.children@.skip(k), m.children.skip(k), name, p, names);
    }
}

proof fn lemma_top_level(x: SyntaxNode, y: SyntaxNode, m: SyntaxView, p: Seq<char>, names: MarkerNames)
    requires
        reads_as(x, m),
        reads_as(y, m),
    ensures
        top_level_items(x, p, names) == top_level_items(y, p, names),
{
    lemma_pair(x, y, m);
    lemma_class(x, y, m, p, names);
    lemma_function(x, y, m, None, p);
    lemma_decorators(x.children@, y.children@, m.children, names);
    if let Some(k) = last_definition(x.children@) {
        lemma_last_definition_bound(x.children@);
        lemma_twins_at(x.children@, y.children@, m.children, k);
        assert(reads_as(x.children@[k], m.children[k]));
        assert(reads_as(y.children@[k], m.children[k]));
        lemma_function(x.children@[k], y.children@[k], m.children[k], None, p);
        lemma_class(x.children@[k], y.children@[k], m.children[k], p, names);
    }
    assert(decorated_at_top(x, p, names) == decorated_at_top(y, p, names));
}

proof fn lemma_module(xs: Seq<SyntaxNode>, ys: Seq<SyntaxNode>, ms: Seq<SyntaxView>, p: Seq<char>, names: MarkerNames)
    requires
        twins(xs, ys, ms),
    ensures
        module_items(xs, p, names) == module_items(ys, p, names),
    decreases xs.len(),
{
    if xs.len() > 0 {
        lemma_twins_last(xs, ys, ms);
        lemma_module(xs.drop_last(), ys.drop_last(), ms.drop_last(), p, names);
        lemma_top_level(xs.last(), ys.last(), ms.last(), p, names);
    }
}

proof fn lemma_single(x: SyntaxNode, y: SyntaxNode, m: SyntaxView, t: Seq<char>)
    requires
        reads_as(x, m),
        reads_as(y, m),
    ensures
        crate::imports::is_single_name(x, t) == crate::imports::is_single_name(y, t),
{
    lemma_pair(x, y, m);
    if m.children.len() == 1 {
        lemma_twins_at(x.children@, y.children@, m.children, 0);
    }
}

proof fn lemma_bound(xs: Seq<SyntaxNode>, ys: Seq<SyntaxNode>, ms: Seq<SyntaxView>, t: Seq<char>)
    requires
        twins(xs, ys, ms),
    ensures
        bound_names(xs, t) == bound_names(ys, t),
    decreases xs.len(),
{
    if xs.len() > 0 {
        lemma_twins_last(xs, ys, ms);
        lemma_bound(xs.drop_last(), ys.drop_last(), ms.drop_last(), t);
        let (x, y, m) = (xs.last(), ys.last(), ms.last());
        lemma_pair(x, y, m);
        lemma_single(x, y, m, t);
        if m.children.len() == 3 {
            lemma_twins_at(x.children@, y.children@, m.children, 0);
            lemma_twins_at(x.children@, y.children@, m.children, 2);
            assert(reads_as(x.children@[0], m.children[0]));
            assert(reads_as(y.children@[0], m.children[0]));
            lemma_single(x.children@[0], y.children@[0], m.children[0], t);
        }
        assert(bound_name(x, t) == bound_name(y, t));
    }
}

proof fn lemma_imports(xs: Seq<SyntaxNode>, ys: Seq<SyntaxNode>, ms: Seq<SyntaxView>)
    requires
        twins(xs, ys, ms),
    ensures
        module_names(xs) == module_names(ys),
    decreases xs.len(),
{
    if xs.len() > 0 {
        lemma_twins_last(xs, ys, ms);
        lemma_imports(xs.drop_last(), ys.drop_last(), ms.drop_last());
        let (x, y, m) = (xs.last(), ys.last(), ms.last());
        lemma_pair(x, y, m);
        lemma_bound(x.children@, y.children@, m.children, "pytest"@);
        lemma_bound(x.children@, y.children@, m.children, "fixture"@);
        if m.children.len() > 1 {
            lemma_twins_at(x.children@, y.children@, m.children, 1);
            assert(reads_as(x.children@[1], m.children[1]));
            assert(reads_as(y.children@[1], m.children[1]));
            lemma_single(x.children@[1], y.children@[1], m.children[1], "pytest"@);
        }
        assert(statement_modules(x) == statement_modules(y));
        assert(statement_markers(x) == statement_markers(y));
    }
}

/// Two plain trees that hold the same parsed tree yield the same items.
pub proof fn lemma_same_tree_same_items(a: SyntaxNode, b: SyntaxNode, m: SyntaxView, path: Seq<char>)
    requires
        reads_as(a, m),
        reads_as(b, m),
    ensures
        file_items(a, path) == file_items(b, path),
{
    lemma_pair(a, b, m);
    lemma_imports(a.children@, b.children@, m.children);
    assert(file_markers(a) == file_markers(b));
    lemma_module(a.children@, b.children@, m.children, path, file_markers(a));
}

} // verus!
