//! From the text of an outline to its syntax tree, by the `actions` grammar
//! of tree-sitter.

use vstd::prelude::*;
use crate::cst::{kind_of_name, NodeKind, NodeView, SyntaxNode};
use crate::entities::ConvertError;

verus! {

/// `tree_sitter::Tree`, carried through as it is.
#[verifier::external_type_specification]
#[verifier::external_body]
pub struct ExTree(tree_sitter::Tree);

/// `tree_sitter::Node`, carried through as it is.
#[verifier::external_type_specification]
#[verifier::external_body]
pub struct ExNode<'tree>(tree_sitter::Node<'tree>);

/// The tree that tree-sitter parses from `text` with the `actions` grammar;
/// `None` where it gives none.
pub uninterp spec fn outline_tree(text: Seq<char>) -> Option<tree_sitter::Tree>;

/// The root node of a tree.
pub uninterp spec fn tree_root(tree: &tree_sitter::Tree) -> tree_sitter::Node;

/// The grammar's name for the kind of a node.
pub uninterp spec fn node_kind(node: tree_sitter::Node) -> Seq<char>;

/// The byte at which a node starts.
pub uninterp spec fn node_start(node: tree_sitter::Node) -> usize;

/// The byte before which a node ends.
pub uninterp spec fn node_end(node: tree_sitter::Node) -> usize;

/// The children of a node, in document order.
pub uninterp spec fn node_children(node: tree_sitter::Node) -> Seq<tree_sitter::Node>;

/// Parses `text` with a fresh `tree_sitter::Parser` to which the `actions`
/// grammar was given by `Parser::set_language`, by `Parser::parse` without an
/// earlier tree. Nothing is claimed of the tree: it is only given the name
/// [`outline_tree`]. `None` stands for a grammar that the parser refuses and
/// for a parse that gives no tree.
#[verifier::external_body]
fn parse_outline(text: &str) -> (tree: Option<tree_sitter::Tree>)
    ensures
        tree == outline_tree(text@),
{
    let mut parser = tree_sitter::Parser::new();
    match parser.set_language(&tree_sitter_actions::LANGUAGE.into()) {
        Ok(()) => parser.parse(text, None),
        Err(_) => None,
    }
}

/// Calls `Tree::root_node`. The contract claims only that a tree has one
/// root, whenever it is asked for: the node is given the name [`tree_root`].
#[verifier::external_body]
fn root_of<'a>(tree: &'a tree_sitter::Tree) -> (node: tree_sitter::Node<'a>)
    ensures
        node == tree_root(tree),
{
    tree.root_node()
}

/// Calls `Node::kind`, which gives the name of the node's kind in the
/// grammar. The contract claims only that a node keeps its kind: the name
/// is called [`node_kind`].
#[verifier::external_body]
fn kind_name<'a>(node: &tree_sitter::Node<'a>) -> (name: &'a str)
    ensures
        name@ == node_kind(*node),
{
    node.kind()
}

/// Calls `Node::start_byte`. The contract claims only that a node keeps its
/// start: the offset is given the name [`node_start`].
#[verifier::external_body]
fn start_of(node: &tree_sitter::Node) -> (start: usize)
    ensures
        start == node_start(*node),
{
    node.start_byte()
}

/// Calls `Node::end_byte`. The contract claims only that a node keeps its
/// end: the offset is given the name [`node_end`].
#[verifier::external_body]
fn end_of(node: &tree_sitter::Node) -> (end: usize)
    ensures
        end == node_end(*node),
{
    node.end_byte()
}

/// Calls `Node::children` over a cursor from `Node::walk`, which hands out
/// every child of the node in document order. The contract claims only that
/// a node keeps its children: the list is given the name [`node_children`].
#[verifier::external_body]
fn children_of<'a>(node: &tree_sitter::Node<'a>) -> (children: Vec<tree_sitter::Node<'a>>)
    ensures
        children@ == node_children(*node),
{
    let mut cursor = node.walk();
    node.children(&mut cursor).collect()
}

/// How many levels of a tree are read: an outline reaches no deeper.
pub const TREE_DEPTH: usize = 16;

/// What a node of tree-sitter comes to when `depth` levels below it are
/// read: its kind by the grammar's name, its byte range, and its children
/// in the same way, none where `depth` is 0.
pub open spec fn lowered(node: tree_sitter::Node, depth: nat) -> NodeView
    decreases depth,
{
    NodeView {
        kind: kind_of_name(node_kind(node)),
        start: node_start(node) as int,
        end: node_end(node) as int,
        children: if depth == 0 {
            Seq::empty()
        } else {
            Seq::new(
                node_children(node).len(),
                |i: int| lowered(node_children(node)[i], (depth - 1) as nat),
            )
        },
    }
}

/// Reads a node of tree-sitter and `depth` levels below it.
fn lower(node: &tree_sitter::Node, depth: usize) -> (out: SyntaxNode)
    ensures
        out@ == lowered(*node, depth as nat),
    decreases depth,
{
    let kind = NodeKind::from_name(kind_name(node));
    let start = start_of(node);
    let end = end_of(node);
    let mut children: Vec<SyntaxNode> = Vec::new();
    if depth > 0 {
        let nodes = children_of(node);
        let mut i: usize = 0;
        while i < nodes.len()
            invariant
                i <= nodes.len(),
                depth > 0,
                nodes@ == node_children(*node),
                children@.len() == i,
                forall|j: int|
                    0 <= j < i ==> (#[trigger] children@[j])@ == lowered(
                        nodes@[j],
                        (depth - 1) as nat,
                    ),
            decreases nodes.len() - i,
        {
            let child = lower(&nodes[i], depth - 1);
            children.push(child);
            i = i + 1;
        }
    }
    let out = SyntaxNode { kind, start, end, children };
    proof {
        out.lemma_view();
        assert(out@.children =~= lowered(*node, depth as nat).children);
    }
    out
}

/// The syntax tree of `text`, if the parser gives one that fits `text`.
pub open spec fn outline_of(text: Seq<char>) -> Option<NodeView> {
    match outline_tree(text) {
        Some(tree) => {
            let root = lowered(tree_root(&tree), TREE_DEPTH as nat);
            if root.well_formed(text) {
                Some(root)
            } else {
                None
            }
        },
        None => None,
    }
}

/// Parses the text of an outline into its syntax tree. A text that the
/// parser recovers from with error nodes still gives a tree. The error is a
/// parse failure: the parser gave no tree, or one whose nodes do not span
/// text of `actions`.
pub fn get_action_list_tree(actions: &str) -> (result: Result<SyntaxNode, ConvertError>)
    ensures
        match result {
            Ok(tree) => outline_of(actions@) == Some(tree@),
            Err(error) => error == ConvertError::ParseFailure && outline_of(actions@) is None,
        },
{
    match parse_outline(actions) {
        Some(tree) => {
            let root = lower(&root_of(&tree), TREE_DEPTH);
            if root.is_well_formed(actions) {
                Ok(root)
            } else {
                Err(ConvertError::ParseFailure)
            }
        },
        None => Err(ConvertError::ParseFailure),
    }
}

} // verus!
