//! The concrete syntax tree of an outline: nodes with a kind, a byte range
//! into the source text, and children in document order.

use vstd::prelude::*;
use vstd::string::*;
use vstd::utf8::*;
use crate::text::str_eq;

verus! {

/// The kinds of node that the conversion tells apart. The grammar has named
/// some of them in more than one way; every spelling is recognised.
#[derive(Debug, Clone, Copy, PartialEq, Eq, Structural)]
pub enum NodeKind {
    /// An action at the top of the outline.
    RootAction,
    /// The properties that every action has.
    CoreAction,
    /// The story of a root action.
    Story,
    /// The children of a root action.
    ChildActionList,
    /// An action one level below the root.
    ChildAction,
    /// The children of a child action.
    GrandChildActionList,
    /// An action two levels below the root.
    GrandChildAction,
    /// The children of a grandchild action.
    GreatGrandChildActionList,
    /// An action three levels below the root.
    GreatGrandChildAction,
    /// The children of a great-grandchild action.
    GreatGreatGrandChildActionList,
    /// An action four levels below the root.
    GreatGreatGrandChildAction,
    /// The children of a great-great-grandchild action.
    LeafActionList,
    /// An action five levels below the root, the deepest.
    LeafAction,
    /// The state of an action, between its brackets.
    State,
    /// The mark of an action that has not started.
    NotStarted,
    /// The mark of a completed action.
    Completed,
    /// The mark of an action in progress.
    InProgress,
    /// The mark of an action that is blocked or waits.
    Blocked,
    /// The mark of a cancelled action.
    Cancelled,
    /// The name of an action.
    Name,
    /// The description of an action.
    Description,
    /// The priority of an action.
    Priority,
    /// The context tags of an action.
    ContextList,
    /// The identifier of an action.
    Id,
    /// Any other node: punctuation, dates, errors, and whatever else the
    /// conversion does not read.
    Other,
}

/// The kind that the grammar's name for a node stands for.
pub open spec fn kind_of_name(name: Seq<char>) -> NodeKind {
    if name == "root_action"@ {
        NodeKind::RootAction
    } else if name == "core_action"@ {
        NodeKind::CoreAction
    } else if name == "story"@ {
        NodeKind::Story
    } else if name == "child_action_list"@ || name == "child_actions"@ {
        NodeKind::ChildActionList
    } else if name == "child_action"@ {
        NodeKind::ChildAction
    } else if name == "grandchild_action_list"@ {
        NodeKind::GrandChildActionList
    } else if name == "grandchild_action"@ || name == "grand_child_action"@ {
        NodeKind::GrandChildAction
    } else if name == "great_grandchild_action_list"@ || name == "great_grand_child_actions"@ {
        NodeKind::GreatGrandChildActionList
    } else if name == "great_grandchild_action"@ || name == "great_grand_child_action"@ {
        NodeKind::GreatGrandChildAction
    } else if name == "double_great_grandchild_action_list"@
        || name == "great_great_grand_child_actions"@
    {
        NodeKind::GreatGreatGrandChildActionList
    } else if name == "double_great_grandchild_action"@
        || name == "great_great_grand_child_action"@
    {
        NodeKind::GreatGreatGrandChildAction
    } else if name == "leaf_action_list"@ || name == "leaf_actions"@ {
        NodeKind::LeafActionList
    } else if name == "leaf_action"@ {
        NodeKind::LeafAction
    } else if name == "state"@ {
        NodeKind::State
    } else if name == "not_started"@ {
        NodeKind::NotStarted
    } else if name == "completed"@ {
        NodeKind::Completed
    } else if name == "in_progress"@ {
        NodeKind::InProgress
    } else if name == "blocked"@ {
        NodeKind::Blocked
    } else if name == "cancelled"@ {
        NodeKind::Cancelled
    } else if name == "name"@ {
        NodeKind::Name
    } else if name == "description"@ {
        NodeKind::Description
    } else if name == "priority"@ {
        NodeKind::Priority
    } else if name == "context_list"@ {
        NodeKind::ContextList
    } else if name == "id"@ || name == "action"@ {
        NodeKind::Id
    } else {
        NodeKind::Other
    }
}

impl NodeKind {
    /// Reads a kind from the grammar's name for it.
    pub fn from_name(name: &str) -> (kind: NodeKind)
        ensures
            kind == kind_of_name(name@),
    {
        if str_eq(name, "root_action") {
            NodeKind::RootAction
        } else if str_eq(name, "core_action") {
            NodeKind::CoreAction
        } else if str_eq(name, "story") {
            NodeKind::Story
        } else if str_eq(name, "child_action_list") || str_eq(name, "child_actions") {
            NodeKind::ChildActionList
        } else if str_eq(name, "child_action") {
            NodeKind::ChildAction
        } else if str_eq(name, "grandchild_action_list") {
            NodeKind::GrandChildActionList
        } else if str_eq(name, "grandchild_action") || str_eq(name, "grand_child_action") {
            NodeKind::GrandChildAction
        } else if str_eq(name, "great_grandchild_action_list")
            || str_eq(name, "great_grand_child_actions")
        {
            NodeKind::GreatGrandChildActionList
        } else if str_eq(name, "great_grandchild_action")
            || str_eq(name, "great_grand_child_action")
        {
            NodeKind::GreatGrandChildAction
        } else if str_eq(name, "double_great_grandchild_action_list")
            || str_eq(name, "great_great_grand_child_actions")
        {
            NodeKind::GreatGreatGrandChildActionList
        } else if str_eq(name, "double_great_grandchild_action")
            || str_eq(name, "great_great_grand_child_action")
        {
            NodeKind::GreatGreatGrandChildAction
        } else if str_eq(name, "leaf_action_list") || str_eq(name, "leaf_actions") {
            NodeKind::LeafActionList
        } else if str_eq(name, "leaf_action") {
            NodeKind::LeafAction
        } else if str_eq(name, "state") {
            NodeKind::State
        } else if str_eq(name, "not_started") {
            NodeKind::NotStarted
        } else if str_eq(name, "completed") {
            NodeKind::Completed
        } else if str_eq(name, "in_progress") {
            NodeKind::InProgress
        } else if str_eq(name, "blocked") {
            NodeKind::Blocked
        } else if str_eq(name, "cancelled") {
            NodeKind::Cancelled
        } else if str_eq(name, "name") {
            NodeKind::Name
        } else if str_eq(name, "description") {
            NodeKind::Description
        } else if str_eq(name, "priority") {
            NodeKind::Priority
        } else if str_eq(name, "context_list") {
            NodeKind::ContextList
        } else if str_eq(name, "id") || str_eq(name, "action") {
            NodeKind::Id
        } else {
            NodeKind::Other
        }
    }
}

/// One node of a syntax tree.
#[derive(Debug, PartialEq)]
pub struct SyntaxNode {
    /// What the node is.
    pub kind: NodeKind,
    /// The byte at which the node's text starts in the source.
    pub start: usize,
    /// The byte before which the node's text ends in the source.
    pub end: usize,
    /// The nodes directly below, in document order.
    pub children: Vec<SyntaxNode>,
}

/// Whether the bytes from `start` to `end` are a piece of text of `source`:
/// a range within its UTF-8 encoding that cuts no character in two.
pub open spec fn span_ok(source: Seq<char>, start: int, end: int) -> bool {
    let bytes = encode_utf8(source);
    &&& 0 <= start <= end <= bytes.len()
    &&& is_char_boundary(bytes, start)
    &&& is_char_boundary(bytes, end)
}

/// The text of `source` that the bytes from `start` to `end` encode.
pub open spec fn span_text(source: Seq<char>, start: int, end: int) -> Seq<char> {
    decode_utf8(encode_utf8(source).subrange(start, end))
}

/// The text of `source` between two byte offsets.
pub fn slice_text(source: &str, start: usize, end: usize) -> (text: &str)
    requires
        span_ok(source@, start as int, end as int),
    ensures
        text@ == span_text(source@, start as int, end as int),
{
    broadcast use {encode_utf8_valid_utf8, encode_utf8_decode_utf8, valid_utf8_split};

    let (head, _) = source.split_at(end);
    proof {
        let bytes = source.spec_bytes();
        let front = bytes.subrange(0, end as int);
        assert(valid_utf8(front));
        assert(head.spec_bytes() == front);
        lemma_boundary_in_prefix(bytes, start as int, end as int);
    }
    let (_, text) = head.split_at(start);
    proof {
        let bytes = source.spec_bytes();
        assert(text.spec_bytes() =~= bytes.subrange(start as int, end as int));
        assert(decode_utf8(encode_utf8(text@)) == text@);
    }
    text
}

/// A character boundary of a text is one of each of its prefixes that end
/// on a boundary at or after it.
pub proof fn lemma_boundary_in_prefix(bytes: Seq<u8>, start: int, end: int)
    requires
        valid_utf8(bytes),
        0 <= start <= end <= bytes.len(),
        is_char_boundary(bytes, start),
        is_char_boundary(bytes, end),
    ensures
        is_char_boundary(bytes.subrange(0, end), start),
    decreases bytes.len(),
{
    broadcast use valid_utf8_split;

    let front = bytes.subrange(0, end);
    assert(valid_utf8(front));
    if start == 0 {
    } else {
        let n = length_of_first_scalar(bytes);
        let rest = pop_first_scalar(bytes);
        reveal_with_fuel(is_char_boundary, 2);
        reveal_with_fuel(valid_utf8, 2);
        assert(is_char_boundary(rest, start - n));
        assert(is_char_boundary(rest, end - n));
        assert(n <= start);
        lemma_boundary_in_prefix(rest, start - n, end - n);
        assert(front[0] == bytes[0]);
        assert(length_of_first_scalar(front) == n);
        assert(pop_first_scalar(front) =~= rest.subrange(0, end - n));
    }
}

/// What a [`SyntaxNode`] holds.
pub struct NodeView {
    pub kind: NodeKind,
    pub start: int,
    pub end: int,
    pub children: Seq<NodeView>,
}

/// The view of a node: its kind, its range, and the views of its children.
pub open spec fn view_of(node: SyntaxNode) -> NodeView
    decreases node,
{
    NodeView {
        kind: node.kind,
        start: node.start as int,
        end: node.end as int,
        children: Seq::new(
            node.children@.len(),
            |i: int|
                if 0 <= i < node.children@.len() {
                    view_of(node.children@[i])
                } else {
                    arbitrary()
                },
        ),
    }
}

impl View for SyntaxNode {
    type V = NodeView;

    open spec fn view(&self) -> NodeView {
        view_of(*self)
    }
}

impl NodeView {
    /// Whether every node of the tree spans a piece of text of `source`.
    pub open spec fn well_formed(self, source: Seq<char>) -> bool
        decreases self,
    {
        &&& span_ok(source, self.start, self.end)
        &&& forall|i: int|
            0 <= i < self.children.len() ==> (#[trigger] self.children[i]).well_formed(source)
    }

    /// The text that the node spans.
    pub open spec fn text_in(self, source: Seq<char>) -> Seq<char> {
        span_text(source, self.start, self.end)
    }
}

impl SyntaxNode {
    /// The view of a node holds its kind and its range, and the views of its
    /// children.
    pub proof fn lemma_view(&self)
        ensures
            self@.kind == self.kind,
            self@.start == self.start,
            self@.end == self.end,
            self@.children.len() == self.children@.len(),
            forall|i: int|
                0 <= i < self.children@.len() ==> #[trigger] self@.children[i]
                    == self.children@[i]@,
    {
    }

    /// Tests whether the tree is well formed over `source`.
    pub fn is_well_formed(&self, source: &str) -> (ok: bool)
        ensures
            ok == self@.well_formed(source@),
        decreases self,
    {
        broadcast use encode_utf8_valid_utf8;

        proof {
            self.lemma_view();
        }
        let len = source.as_bytes().len();
        if self.start > self.end || self.end > len {
            return false;
        }
        if !source.is_char_boundary(self.start) || !source.is_char_boundary(self.end) {
            return false;
        }
        let mut i: usize = 0;
        while i < self.children.len()
            invariant
                i <= self.children.len(),
                self@.children.len() == self.children@.len(),
                span_ok(source@, self.start as int, self.end as int),
                forall|j: int|
                    0 <= j < self.children@.len() ==> #[trigger] self@.children[j]
                        == self.children@[j]@,
                forall|j: int| 0 <= j < i ==> (#[trigger] self@.children[j]).well_formed(source@),
            decreases self.children.len() - i,
        {
            if !self.children[i].is_well_formed(source) {
                assert(!self@.children[i as int].well_formed(source@));
                return false;
            }
            i = i + 1;
        }
        true
    }

    /// The text that the node spans in `source`.
    pub fn text<'a>(&self, source: &'a str) -> (text: &'a str)
        requires
            span_ok(source@, self.start as int, self.end as int),
        ensures
            text@ == self@.text_in(source@),
    {
        proof {
            self.lemma_view();
        }
        slice_text(source, self.start, self.end)
    }
}

/// A node of a syntax tree together with the source text that it points
/// into.
pub struct NodeWrapper<'a> {
    pub node: &'a SyntaxNode,
    pub source: &'a str,
}

/// Puts a node and its source text together.
pub fn create_node_wrapper<'a>(node: &'a SyntaxNode, source: &'a str) -> (wrapper: NodeWrapper<'a>)
    ensures
        wrapper.node == node,
        wrapper.source == source,
{
    NodeWrapper { node, source }
}

/// The text that a node spans, as a string of its own.
pub fn get_node_text(node: &SyntaxNode, source: &str) -> (text: String)
    requires
        node@.well_formed(source@),
    ensures
        text@ == node@.text_in(source@),
{
    proof {
        node.lemma_view();
    }
    node.text(source).to_string()
}

/// A syntax tree together with the source text that its nodes point into.
pub struct TreeWrapper {
    pub tree: SyntaxNode,
    pub source: String,
}

/// Puts a syntax tree and its source text together.
pub fn create_tree_wrapper(tree: SyntaxNode, source: String) -> (wrapper: TreeWrapper)
    ensures
        wrapper.tree == tree,
        wrapper.source == source,
{
    TreeWrapper { tree, source }
}

} // verus!
