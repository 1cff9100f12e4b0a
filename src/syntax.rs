//! The parser front end: tree-sitter's Python grammar, read into a plain
//! `SyntaxNode` tree that the visitor classifies.

use vstd::prelude::*;

use crate::model::SyntaxNode;

verus! {

#[verifier::external_type_specification]
#[verifier::external_body]
pub struct ExTree(tree_sitter::Tree);

#[verifier::external_type_specification]
#[verifier::external_body]
pub struct ExNode<'tree>(tree_sitter::Node<'tree>);

/// A syntax tree as values: each node's kind, its children in source order,
/// and the source text it covers, when that text can be cut out of the source
/// on character boundaries.
pub ghost struct SyntaxView {
    pub kind: Seq<char>,
    pub text: Option<Seq<char>>,
    pub children: Seq<SyntaxView>,
}

/// The tree that tree-sitter's Python grammar gives for `source`. It depends
/// on the characters of the source alone.
pub uninterp spec fn python_syntax(source: Seq<char>) -> SyntaxView;

/// Every leaf of the tree has readable text.
pub open spec fn readable(m: SyntaxView) -> bool
    decreases m,
{
    &&& (m.children.len() == 0 ==> m.text is Some)
    &&& forall|i: int| 0 <= i < m.children.len() ==> readable(#[trigger] m.children[i])
}

/// `n` holds the tree `m`: the same kinds and shape, the text of each leaf,
/// and no text for an inner node.
pub open spec fn reads_as(n: SyntaxNode, m: SyntaxView) -> bool
    decreases m,
{
    &&& n.kind@ == m.kind
    &&& n.children@.len() == m.children.len()
    &&& (m.children.len() == 0 ==> m.text == Some(n.text@))
    &&& (m.children.len() > 0 ==> n.text@ == Seq::<char>::empty())
    &&& forall|i: int|
        0 <= i < m.children.len() ==> reads_as(#[trigger] n.children@[i], m.children[i])
}

/// A parsed tree, with the source it was parsed from. Only `parse_python`
/// builds one.
pub struct PythonTree {
    tree: tree_sitter::Tree,
    source: Ghost<Seq<char>>,
}

/// A node of a parsed tree, with its place in `python_syntax` of the source.
/// Only the functions of this module that read the tree build one.
pub struct PythonNode<'tree> {
    node: tree_sitter::Node<'tree>,
    source: Ghost<Seq<char>>,
    model: Ghost<SyntaxView>,
}

/// Relies on tree_sitter::Parser::new, Parser::set_language with
/// tree_sitter_python::LANGUAGE, and Parser::parse. The grammar's version is
/// one the parser reads, and with no timeout and no cancellation flag set,
/// parsing always yields a tree.
#[verifier::external_body]
fn parse_python(source: &str) -> (r: Option<PythonTree>)
    ensures
        r is Some,
        r->Some_0.source@ == source@,
{
    let mut parser = tree_sitter::Parser::new();
    parser.set_language(&tree_sitter_python::LANGUAGE.into()).ok()?;
    let tree = parser.parse(source, None)?;
    Some(PythonTree { tree, source: Ghost(source@) })
}

/// Relies on tree_sitter::Tree::root_node: the root of the parsed tree.
#[verifier::external_body]
fn root_node(tree: &PythonTree) -> (r: PythonNode<'_>)
    ensures
        r.source@ == tree.source@,
        r.model@ == python_syntax(tree.source@),
{
    PythonNode { node: tree.tree.root_node(), source: Ghost(tree.source@), model: Ghost(python_syntax(tree.source@)) }
}

/// Relies on tree_sitter::Node::kind: the grammar's name for the node.
#[verifier::external_body]
fn node_kind(node: &PythonNode) -> (r: String)
    ensures
        r@ == node.model@.kind,
{
    node.node.kind().to_string()
}

/// Relies on tree_sitter::Node::child_count.
#[verifier::external_body]
fn node_child_count(node: &PythonNode) -> (r: usize)
    ensures
        r == node.model@.children.len(),
{
    node.node.child_count()
}

/// Relies on tree_sitter::Node::child: the child at position `i`, which
/// exists below the child count.
#[verifier::external_body]
fn node_child<'tree>(node: &PythonNode<'tree>, i: usize) -> (r: Option<PythonNode<'tree>>)
    requires
        i < node.model@.children.len(),
    ensures
        r is Some,
        r->Some_0.source@ == node.source@,
        r->Some_0.model@ == node.model@.children[i as int],
{
    let child = node.node.child(i)?;
    Some(PythonNode { node: child, source: Ghost(node.source@), model: Ghost(node.model@.children[i as int]) })
}

/// Relies on tree_sitter::Node::start_byte and Node::end_byte, and on str::get:
/// the text between the node's two byte offsets, or none when they do not
/// fall on character boundaries of the source the tree was parsed from.
#[verifier::external_body]
fn node_text(node: &PythonNode, source: &str) -> (r: Option<String>)
    requires
        source@ == node.source@,
    ensures
        r is Some <==> node.model@.text is Some,
        r is Some ==> node.model@.text == Some(r->Some_0@),
{
    source.get(node.node.start_byte()..node.node.end_byte()).map(|s| s.to_string())
}

/// Reads `node` and its descendants into a plain tree; none when the text of
/// a leaf cannot be read.
fn read_node(node: &PythonNode, source: &str) -> (r: Option<SyntaxNode>)
    requires
        source@ == node.source@,
    ensures
        r is Some <==> readable(node.model@),
        r is Some ==> reads_as(r->Some_0, node.model@),
    decreases node.model@,
{
    let ghost m = node.model@;
    let kind = node_kind(node);
    let count = node_child_count(node);
    let mut children: Vec<SyntaxNode> = Vec::new();
    let mut i: usize = 0;
    while i < count
        invariant
            count == m.children.len(),
            i <= count,
            children@.len() == i,
            source@ == node.source@,
            m == node.model@,
            forall|j: int| 0 <= j < i ==> readable(#[trigger] m.children[j]),
            forall|j: int| 0 <= j < i ==> reads_as(#[trigger] children@[j], m.children[j]),
        decreases count - i,
    {
        let c = match node_child(node, i) {
            Some(c) => c,
            None => return None,
        };
        assert(decreases_to!(m => m.children[i as int]));
        match read_node(&c, source) {
            Some(n) => children.push(n),
            None => {
                assert(!readable(m.children[i as int]));
                return None;
            },
        }
        i += 1;
    }
    let text = if count == 0 {
        match node_text(node, source) {
            Some(t) => t,
            None => return None,
        }
    } else {
        String::new()
    };
    let r = SyntaxNode { kind, text, children };
    assert(reads_as(r, m));
    Some(r)
}

/// Parses Python source into a plain syntax tree: exactly the tree that the
/// grammar gives for it, or none when a leaf's text cannot be read.
pub fn parse_module(source: &str) -> (r: Option<SyntaxNode>)
    ensures
        r is Some <==> readable(python_syntax(source@)),
        r is Some ==> reads_as(r->Some_0, python_syntax(source@)),
{
    let tree = match parse_python(source) {
        Some(t) => t,
        None => return None,
    };
    let root = root_node(&tree);
    read_node(&root, source)
}

} // verus!
