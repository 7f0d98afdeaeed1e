//! From a syntax tree to the typed outline.

use vstd::prelude::*;
use crate::cst::{
    create_node_wrapper, get_node_text, NodeKind, NodeView, NodeWrapper, SyntaxNode, TreeWrapper,
};
use crate::entities::{
    option_views_of, tags_view, text_view, views_of, ActionState, ChildAction, ChildView,
    CommonActionProperties, CommonView, ConvertError, GrandChildAction, GrandChildView,
    GreatGrandChildAction, GreatGrandChildView, GreatGreatGrandChildAction,
    GreatGreatGrandChildView, LeafAction, LeafView, RootAction, RootView,
};
use crate::ident::{parse_uuid, uuid_of_text};
use crate::text::{
    context_tags, extract_context_tags, parse_decimal, parse_number, trim, trimmed,
};

verus! {

/// The value that `read` gives on the last node of `nodes` on which it gives
/// one.
pub open spec fn last_some<T>(nodes: Seq<NodeView>, read: spec_fn(NodeView) -> Option<T>) -> Option<
    T,
>
    decreases nodes.len(),
{
    if nodes.len() == 0 {
        None
    } else {
        match read(nodes.last()) {
            Some(value) => Some(value),
            None => last_some(nodes.drop_last(), read),
        }
    }
}

/// One node more: its value where it gives one, else the value so far.
pub proof fn lemma_last_some_step<T>(
    nodes: Seq<NodeView>,
    i: int,
    read: spec_fn(NodeView) -> Option<T>,
)
    requires
        0 <= i < nodes.len(),
    ensures
        last_some(nodes.take(i + 1), read) == match read(nodes[i]) {
            Some(value) => Some(value),
            None => last_some(nodes.take(i), read),
        },
{
    assert(nodes.take(i + 1).drop_last() =~= nodes.take(i));
    assert(nodes.take(i + 1).last() == nodes[i]);
}

/// The state that the kind of a state mark stands for.
pub open spec fn state_of_kind(kind: NodeKind) -> Option<ActionState> {
    match kind {
        NodeKind::NotStarted => Some(ActionState::NotStarted),
        NodeKind::Completed => Some(ActionState::Completed),
        NodeKind::InProgress => Some(ActionState::InProgress),
        NodeKind::Blocked => Some(ActionState::BlockedorAwaiting),
        NodeKind::Cancelled => Some(ActionState::Cancelled),
        _ => None,
    }
}

/// The state that a state node holds: that of the mark between its two
/// brackets, its second child. `None` where there is no such child or it is
/// no state mark.
pub open spec fn state_in(node: NodeView) -> Option<ActionState> {
    if node.children.len() > 1 {
        state_of_kind(node.children[1].kind)
    } else {
        None
    }
}

/// Whether `node` is a state node that holds no known state.
pub open spec fn is_bad_state(node: NodeView) -> bool {
    node.kind == NodeKind::State && state_in(node) is None
}

/// Reads the state of a state node.
pub open spec fn state_reader() -> spec_fn(NodeView) -> Option<ActionState> {
    |node: NodeView|
        if node.kind == NodeKind::State {
            state_in(node)
        } else {
            None
        }
}

/// Reads the trimmed text of a node of the given kind.
pub open spec fn text_reader(kind: NodeKind, source: Seq<char>) -> spec_fn(NodeView) -> Option<
    Seq<char>,
> {
    |node: NodeView|
        if node.kind == kind {
            Some(trimmed(node.text_in(source)))
        } else {
            None
        }
}

/// Reads the number of a priority node; nothing where its text is no number.
pub open spec fn priority_reader(source: Seq<char>) -> spec_fn(NodeView) -> Option<usize> {
    |node: NodeView|
        if node.kind == NodeKind::Priority {
            parse_number(trimmed(node.text_in(source)))
        } else {
            None
        }
}

/// Reads the tags of a context node; nothing where its text holds no tag.
pub open spec fn context_reader(source: Seq<char>) -> spec_fn(NodeView) -> Option<
    Seq<Seq<char>>,
> {
    |node: NodeView|
        if node.kind == NodeKind::ContextList && context_tags(node.text_in(source)).len() > 0 {
            Some(context_tags(node.text_in(source)))
        } else {
            None
        }
}

/// Reads the identifier of an identifier node; nothing where its text is no
/// identifier.
pub open spec fn id_reader(source: Seq<char>) -> spec_fn(NodeView) -> Option<u128> {
    |node: NodeView|
        if node.kind == NodeKind::Id {
            uuid_of_text(trimmed(node.text_in(source)))
        } else {
            None
        }
}

/// The properties that a node of common properties gives.
///
/// A state node without a known state anywhere among the children is an
/// error. Otherwise every property comes from the last child that gives it:
/// the state (not started where no child gives one), the name (empty where
/// no child gives one), and the optional ones, which stay `None` where no
/// child gives them. A priority that is no number, a context list without a
/// tag and an identifier that is none give nothing. No child gives a date.
pub open spec fn common_of(node: NodeView, source: Seq<char>) -> Result<CommonView, ConvertError> {
    let children = node.children;
    if exists|i: int| 0 <= i < children.len() && is_bad_state(#[trigger] children[i]) {
        Err(ConvertError::UnknownActionState)
    } else {
        Ok(
            CommonView {
                state: match last_some(children, state_reader()) {
                    Some(state) => state,
                    None => ActionState::NotStarted,
                },
                name: match last_some(children, text_reader(NodeKind::Name, source)) {
                    Some(name) => name,
                    None => Seq::empty(),
                },
                description: last_some(children, text_reader(NodeKind::Description, source)),
                priority: last_some(children, priority_reader(source)),
                context_list: last_some(children, context_reader(source)),
                id: last_some(children, id_reader(source)),
                do_date_time: None,
                completed_date_time: None,
            },
        )
    }
}

/// The view of the result of a conversion.
pub open spec fn result_view<T: View>(result: Result<T, ConvertError>) -> Result<
    T::V,
    ConvertError,
> {
    match result {
        Ok(value) => Ok(value@),
        Err(error) => Err(error),
    }
}

/// The view of the result of converting a list.
pub open spec fn list_result_view<T: View>(result: Result<Vec<T>, ConvertError>) -> Result<
    Seq<T::V>,
    ConvertError,
> {
    match result {
        Ok(list) => Ok(views_of(list@)),
        Err(error) => Err(error),
    }
}

/// Reads the state of a state node.
fn read_state(node: &SyntaxNode) -> (state: Option<ActionState>)
    ensures
        state == state_in(node@),
{
    proof {
        node.lemma_view();
        if node.children@.len() > 1 {
            node.children@[1].lemma_view();
        }
    }
    if node.children.len() > 1 {
        match node.children[1].kind {
            NodeKind::NotStarted => Some(ActionState::NotStarted),
            NodeKind::Completed => Some(ActionState::Completed),
            NodeKind::InProgress => Some(ActionState::InProgress),
            NodeKind::Blocked => Some(ActionState::BlockedorAwaiting),
            NodeKind::Cancelled => Some(ActionState::Cancelled),
            _ => None,
        }
    } else {
        None
    }
}

impl CommonActionProperties {
    /// Reads the properties of an action from its node of common properties.
    pub fn try_from(value: NodeWrapper<'_>) -> (result: Result<Self, ConvertError>)
        requires
            value.node@.well_formed(value.source@),
        ensures
            result_view(result) == common_of(value.node@, value.source@),
    {
        let node = value.node;
        let source = value.source;
        let mut common = CommonActionProperties::default();
        let ghost children = node@.children;
        proof {
            node.lemma_view();
        }
        let mut i: usize = 0;
        while i < node.children.len()
            invariant
                i <= node.children.len(),
                node == value.node,
                source == value.source,
                children == node@.children,
                children.len() == node.children@.len(),
                forall|j: int|
                    0 <= j < node.children@.len() ==> #[trigger] children[j] == node.children@[j]@,
                node@.well_formed(source@),
                forall|j: int| 0 <= j < i ==> !is_bad_state(#[trigger] children[j]),
                common.state == match last_some(children.take(i as int), state_reader()) {
                    Some(state) => state,
                    None => ActionState::NotStarted,
                },
                common.name@ == match last_some(
                    children.take(i as int),
                    text_reader(NodeKind::Name, source@),
                ) {
                    Some(name) => name,
                    None => Seq::empty(),
                },
                text_view(common.description) == last_some(
                    children.take(i as int),
                    text_reader(NodeKind::Description, source@),
                ),
                common.priority == last_some(children.take(i as int), priority_reader(source@)),
                tags_view(common.context_list) == last_some(
                    children.take(i as int),
                    context_reader(source@),
                ),
                common.id == last_some(children.take(i as int), id_reader(source@)),
                common.do_date_time is None,
                common.completed_date_time is None,
            decreases node.children.len() - i,
        {
            let child = &node.children[i];
            proof {
                child.lemma_view();
                assert(child@ == children[i as int]);
                assert(child@.well_formed(source@));
                lemma_last_some_step(children, i as int, state_reader());
                lemma_last_some_step(children, i as int, text_reader(NodeKind::Name, source@));
                lemma_last_some_step(
                    children,
                    i as int,
                    text_reader(NodeKind::Description, source@),
                );
                lemma_last_some_step(children, i as int, priority_reader(source@));
                lemma_last_some_step(children, i as int, context_reader(source@));
                lemma_last_some_step(children, i as int, id_reader(source@));
            }
            match child.kind {
                NodeKind::State => {
                    match read_state(child) {
                        Some(state) => {
                            common.state = state;
                        },
                        None => {
                            assert(is_bad_state(children[i as int]));
                            return Err(ConvertError::UnknownActionState);
                        },
                    }
                },
                NodeKind::Name => {
                    common.name = trim(child.text(source)).to_string();
                },
                NodeKind::Description => {
                    common.description = Some(trim(child.text(source)).to_string());
                },
                NodeKind::Priority => {
                    match parse_decimal(trim(child.text(source))) {
                        Some(priority) => {
                            common.priority = Some(priority);
                        },
                        None => {},
                    }
                },
                NodeKind::ContextList => {
                    let tags = extract_context_tags(child.text(source));
                    if tags.len() > 0 {
                        common.context_list = Some(tags);
                    }
                },
                NodeKind::Id => {
                    match parse_uuid(trim(child.text(source))) {
                        Some(id) => {
                            common.id = Some(id);
                        },
                        None => {},
                    }
                },
                _ => {},
            }
            i = i + 1;
        }
        proof {
            assert(children.take(i as int) =~= children);
        }
        Ok(common)
    }
}

/// The error of a result, if it is one.
pub open spec fn error_of<V>(result: Result<V, ConvertError>) -> Option<ConvertError> {
    match result {
        Ok(_) => None,
        Err(error) => Some(error),
    }
}

/// The value of a result, if it has one.
pub open spec fn value_of<V>(result: Result<V, ConvertError>) -> Option<V> {
    match result {
        Ok(value) => Some(value),
        Err(_) => None,
    }
}

/// The error of the first node of `nodes`, in order, on which `fails` finds
/// one.
pub open spec fn first_failure(
    nodes: Seq<NodeView>,
    fails: spec_fn(NodeView) -> Option<ConvertError>,
) -> Option<ConvertError>
    decreases nodes.len(),
{
    if nodes.len() == 0 {
        None
    } else {
        match first_failure(nodes.drop_last(), fails) {
            Some(error) => Some(error),
            None => fails(nodes.last()),
        }
    }
}

/// One node more: the error so far, else that of the node.
pub proof fn lemma_first_failure_step(
    nodes: Seq<NodeView>,
    i: int,
    fails: spec_fn(NodeView) -> Option<ConvertError>,
)
    requires
        0 <= i < nodes.len(),
    ensures
        first_failure(nodes.take(i + 1), fails) == match first_failure(nodes.take(i), fails) {
            Some(error) => Some(error),
            None => fails(nodes[i]),
        },
{
    assert(nodes.take(i + 1).drop_last() =~= nodes.take(i));
    assert(nodes.take(i + 1).last() == nodes[i]);
}

/// An error found among the first nodes is the error of the whole list.
pub proof fn lemma_first_failure_found(
    nodes: Seq<NodeView>,
    i: int,
    fails: spec_fn(NodeView) -> Option<ConvertError>,
)
    requires
        0 <= i <= nodes.len(),
        first_failure(nodes.take(i), fails) is Some,
    ensures
        first_failure(nodes, fails) == first_failure(nodes.take(i), fails),
    decreases nodes.len() - i,
{
    if i == nodes.len() {
        assert(nodes.take(i) =~= nodes);
    } else {
        lemma_first_failure_step(nodes, i, fails);
        lemma_first_failure_found(nodes, i + 1, fails);
    }
}

/// What `convert` makes of the nodes of kind `kind` among `nodes`, in order;
/// the first error where it fails on one of them.
pub open spec fn converted_items<V>(
    nodes: Seq<NodeView>,
    kind: NodeKind,
    convert: spec_fn(NodeView) -> Result<V, ConvertError>,
) -> Result<Seq<V>, ConvertError>
    decreases nodes.len(),
{
    if nodes.len() == 0 {
        Ok(Seq::empty())
    } else {
        match converted_items(nodes.drop_last(), kind, convert) {
            Err(error) => Err(error),
            Ok(items) => if nodes.last().kind != kind {
                Ok(items)
            } else {
                match convert(nodes.last()) {
                    Ok(item) => Ok(items.push(item)),
                    Err(error) => Err(error),
                }
            },
        }
    }
}

/// One node more: the items so far, and the node's where it is of the kind.
pub proof fn lemma_converted_items_step<V>(
    nodes: Seq<NodeView>,
    i: int,
    kind: NodeKind,
    convert: spec_fn(NodeView) -> Result<V, ConvertError>,
)
    requires
        0 <= i < nodes.len(),
    ensures
        converted_items(nodes.take(i + 1), kind, convert) == match converted_items(
            nodes.take(i),
            kind,
            convert,
        ) {
            Err(error) => Err(error),
            Ok(items) => if nodes[i].kind != kind {
                Ok(items)
            } else {
                match convert(nodes[i]) {
                    Ok(item) => Ok(items.push(item)),
                    Err(error) => Err(error),
                }
            },
        },
{
    assert(nodes.take(i + 1).drop_last() =~= nodes.take(i));
    assert(nodes.take(i + 1).last() == nodes[i]);
}

/// An error among the first nodes is the error of the whole list.
pub proof fn lemma_converted_items_failed<V>(
    nodes: Seq<NodeView>,
    i: int,
    kind: NodeKind,
    convert: spec_fn(NodeView) -> Result<V, ConvertError>,
)
    requires
        0 <= i <= nodes.len(),
        converted_items(nodes.take(i), kind, convert) is Err,
    ensures
        converted_items(nodes, kind, convert) == converted_items(nodes.take(i), kind, convert),
    decreases nodes.len() - i,
{
    if i == nodes.len() {
        assert(nodes.take(i) =~= nodes);
    } else {
        lemma_converted_items_step(nodes, i, kind, convert);
        lemma_converted_items_failed(nodes, i + 1, kind, convert);
    }
}

/// Reads the properties of a node of common properties; nothing from any
/// other node, nor from one that gives an error.
pub open spec fn core_reader(source: Seq<char>) -> spec_fn(NodeView) -> Option<CommonView> {
    |node: NodeView|
        if node.kind == NodeKind::CoreAction {
            value_of(common_of(node, source))
        } else {
            None
        }
}

/// A level of the outline, as far as it is read from a node: the one rule
/// of conversion that every level but the deepest follows is stated once,
/// over this trait.
pub trait FromNode: View + Sized {
    /// The kind of the nodes that hold an action of this level.
    spec fn item_kind() -> NodeKind;

    /// The action that a node gives, or the error.
    spec fn reading(node: NodeView, source: Seq<char>) -> Result<Self::V, ConvertError>;

    /// The kind of the nodes that hold an action of this level.
    fn kind() -> (kind: NodeKind)
        ensures
            kind == Self::item_kind(),
    ;

    /// Reads an action of this level from its node.
    fn read_node(value: NodeWrapper<'_>) -> (result: Result<Self, ConvertError>)
        requires
            value.node@.well_formed(value.source@),
        ensures
            result_view(result) == Self::reading(value.node@, value.source@),
    ;
}

/// Converts one node to an action of a level.
pub open spec fn reader<T: FromNode>(source: Seq<char>) -> spec_fn(NodeView) -> Result<
    T::V,
    ConvertError,
> {
    |node: NodeView| T::reading(node, source)
}

/// The actions that a group node gives: one for each child that is of the
/// level's kind, in order, or the first error among them. Other children
/// are passed over.
pub open spec fn list_of<T: FromNode>(group: NodeView, source: Seq<char>) -> Result<
    Seq<T::V>,
    ConvertError,
> {
    converted_items(group.children, T::item_kind(), reader::<T>(source))
}

/// Reads the actions of a group node of kind `group`; nothing from any other
/// node, nor from a group that gives an error.
pub open spec fn list_reader<T: FromNode>(group: NodeKind, source: Seq<char>) -> spec_fn(
    NodeView,
) -> Option<Seq<T::V>> {
    |node: NodeView|
        if node.kind == group {
            value_of(list_of::<T>(node, source))
        } else {
            None
        }
}

/// The error that a child of an action gives: that of its common
/// properties, or that of its group of actions below.
pub open spec fn part_failure<T: FromNode>(group: NodeKind, source: Seq<char>) -> spec_fn(
    NodeView,
) -> Option<ConvertError> {
    |node: NodeView|
        if node.kind == NodeKind::CoreAction {
            error_of(common_of(node, source))
        } else if node.kind == group {
            error_of(list_of::<T>(node, source))
        } else {
            None
        }
}

/// What the node of an action gives, for every level above the deepest: the
/// first error among its children; else an error where no child holds common
/// properties; else the properties of the last child that holds them, and
/// the actions of the last group below, `None` where there is no such
/// group. Other children are passed over.
pub open spec fn parts_of<T: FromNode>(
    node: NodeView,
    source: Seq<char>,
    group: NodeKind,
) -> Result<
    (CommonView, Option<Seq<T::V>>),
    ConvertError,
> {
    let children = node.children;
    match first_failure(children, part_failure::<T>(group, source)) {
        Some(error) => Err(error),
        None => match last_some(children, core_reader(source)) {
            None => Err(ConvertError::MissingCoreProperties),
            Some(common) => Ok((common, last_some(children, list_reader::<T>(group, source)))),
        },
    }
}

/// The view of optional common properties.
pub open spec fn common_option_view(common: Option<CommonActionProperties>) -> Option<CommonView> {
    match common {
        Some(c) => Some(c@),
        None => None,
    }
}

/// Reads the actions of a group node: one for each child that is of the
/// level's kind, in order. The first child that fails gives the error.
pub fn actions_from<T: FromNode>(value: NodeWrapper<'_>) -> (result: Result<Vec<T>, ConvertError>)
    requires
        value.node@.well_formed(value.source@),
    ensures
        list_result_view(result) == list_of::<T>(value.node@, value.source@),
{
    let node = value.node;
    let source = value.source;
    let ghost children = node@.children;
    proof {
        node.lemma_view();
    }
    let kind = T::kind();
    let mut list: Vec<T> = Vec::new();
    let mut i: usize = 0;
    assert(views_of(list@) =~= Seq::<T::V>::empty());
    while i < node.children.len()
        invariant
            i <= node.children.len(),
            node == value.node,
            source == value.source,
            kind == T::item_kind(),
            children == node@.children,
            children.len() == node.children@.len(),
            forall|j: int|
                0 <= j < node.children@.len() ==> #[trigger] children[j] == node.children@[j]@,
            node@.well_formed(source@),
            converted_items(children.take(i as int), kind, reader::<T>(source@)) == Ok::<
                Seq<T::V>,
                ConvertError,
            >(views_of(list@)),
        decreases node.children.len() - i,
    {
        let child = &node.children[i];
        proof {
            child.lemma_view();
            assert(child@ == children[i as int]);
            assert(child@.well_formed(source@));
            lemma_converted_items_step(children, i as int, kind, reader::<T>(source@));
        }
        if child.kind == kind {
            match T::read_node(create_node_wrapper(child, source)) {
                Ok(action) => {
                    proof {
                        assert(views_of(list@.push(action)) =~= views_of(list@).push(action@));
                    }
                    list.push(action);
                },
                Err(error) => {
                    proof {
                        lemma_converted_items_failed(
                            children,
                            i as int + 1,
                            kind,
                            reader::<T>(source@),
                        );
                    }
                    return Err(error);
                },
            }
        }
        i = i + 1;
    }
    proof {
        assert(children.take(i as int) =~= children);
    }
    Ok(list)
}

/// The view of the result of reading the parts of an action.
pub open spec fn parts_result_view<T: View>(
    result: Result<(CommonActionProperties, Option<Vec<T>>), ConvertError>,
) -> Result<(CommonView, Option<Seq<T::V>>), ConvertError> {
    match result {
        Ok(parts) => Ok((parts.0@, option_views_of(parts.1))),
        Err(error) => Err(error),
    }
}

/// Reads the parts of an action above the deepest level from its node: the
/// common properties, and the actions below from the group of kind `group`.
fn read_parts<T: FromNode>(value: NodeWrapper<'_>, group: NodeKind) -> (result: Result<
    (CommonActionProperties, Option<Vec<T>>),
    ConvertError,
>)
    requires
        value.node@.well_formed(value.source@),
        group != NodeKind::CoreAction,
    ensures
        parts_result_view(result) == parts_of::<T>(value.node@, value.source@, group),
{
    let node = value.node;
    let source = value.source;
    let ghost children = node@.children;
    proof {
        node.lemma_view();
    }
    let mut common: Option<CommonActionProperties> = None;
    let mut below: Option<Vec<T>> = None;
    let mut i: usize = 0;
    while i < node.children.len()
        invariant
            i <= node.children.len(),
            node == value.node,
            source == value.source,
            group != NodeKind::CoreAction,
            children == node@.children,
            children.len() == node.children@.len(),
            forall|j: int|
                0 <= j < node.children@.len() ==> #[trigger] children[j] == node.children@[j]@,
            node@.well_formed(source@),
            first_failure(children.take(i as int), part_failure::<T>(group, source@)) is None,
            common_option_view(common) == last_some(children.take(i as int), core_reader(source@)),
            option_views_of(below) == last_some(
                children.take(i as int),
                list_reader::<T>(group, source@),
            ),
        decreases node.children.len() - i,
    {
        let child = &node.children[i];
        proof {
            child.lemma_view();
            assert(child@ == children[i as int]);
            assert(child@.well_formed(source@));
            lemma_first_failure_step(children, i as int, part_failure::<T>(group, source@));
            lemma_last_some_step(children, i as int, core_reader(source@));
            lemma_last_some_step(children, i as int, list_reader::<T>(group, source@));
        }
        if child.kind == NodeKind::CoreAction {
            match CommonActionProperties::try_from(create_node_wrapper(child, source)) {
                Ok(properties) => {
                    common = Some(properties);
                },
                Err(error) => {
                    proof {
                        lemma_first_failure_found(
                            children,
                            i as int + 1,
                            part_failure::<T>(group, source@),
                        );
                    }
                    return Err(error);
                },
            }
        } else if child.kind == group {
            match actions_from::<T>(create_node_wrapper(child, source)) {
                Ok(list) => {
                    below = Some(list);
                },
                Err(error) => {
                    proof {
                        lemma_first_failure_found(
                            children,
                            i as int + 1,
                            part_failure::<T>(group, source@),
                        );
                    }
                    return Err(error);
                },
            }
        }
        i = i + 1;
    }
    proof {
        assert(children.take(i as int) =~= children);
    }
    match common {
        None => Err(ConvertError::MissingCoreProperties),
        Some(common) => Ok((common, below)),
    }
}

/// The error that a child of a leaf action gives: that of its common
/// properties.
pub open spec fn leaf_failure(source: Seq<char>) -> spec_fn(NodeView) -> Option<ConvertError> {
    |node: NodeView|
        if node.kind == NodeKind::CoreAction {
            error_of(common_of(node, source))
        } else {
            None
        }
}

/// The leaf action that a node gives: the first error among its children;
/// else an error where no child holds common properties; else the properties
/// of the last child that holds them. Other children are passed over, a
/// group of actions below among them: the outline ends at this level.
pub open spec fn leaf_of(node: NodeView, source: Seq<char>) -> Result<LeafView, ConvertError> {
    let children = node.children;
    match first_failure(children, leaf_failure(source)) {
        Some(error) => Err(error),
        None => match last_some(children, core_reader(source)) {
            None => Err(ConvertError::MissingCoreProperties),
            Some(common) => Ok(LeafView { common }),
        },
    }
}

impl LeafAction {
    /// Reads a leaf action from its node.
    pub fn try_from(value: NodeWrapper<'_>) -> (result: Result<Self, ConvertError>)
        requires
            value.node@.well_formed(value.source@),
        ensures
            result_view(result) == leaf_of(value.node@, value.source@),
    {
        let node = value.node;
        let source = value.source;
        let ghost children = node@.children;
        proof {
            node.lemma_view();
        }
        let mut common: Option<CommonActionProperties> = None;
        let mut i: usize = 0;
        while i < node.children.len()
            invariant
                i <= node.children.len(),
                node == value.node,
                source == value.source,
                children == node@.children,
                children.len() == node.children@.len(),
                forall|j: int|
                    0 <= j < node.children@.len() ==> #[trigger] children[j]
                        == node.children@[j]@,
                node@.well_formed(source@),
                first_failure(children.take(i as int), leaf_failure(source@)) is None,
                common_option_view(common) == last_some(
                    children.take(i as int),
                    core_reader(source@),
                ),
            decreases node.children.len() - i,
        {
            let child = &node.children[i];
            proof {
                child.lemma_view();
                assert(child@ == children[i as int]);
                assert(child@.well_formed(source@));
                lemma_first_failure_step(children, i as int, leaf_failure(source@));
                lemma_last_some_step(children, i as int, core_reader(source@));
            }
            if child.kind == NodeKind::CoreAction {
                match CommonActionProperties::try_from(create_node_wrapper(child, source)) {
                    Ok(properties) => {
                        common = Some(properties);
                    },
                    Err(error) => {
                        proof {
                            lemma_first_failure_found(
                                children,
                                i as int + 1,
                                leaf_failure(source@),
                            );
                        }
                        return Err(error);
                    },
                }
            }
            i = i + 1;
        }
        proof {
            assert(children.take(i as int) =~= children);
        }
        match common {
            None => Err(ConvertError::MissingCoreProperties),
            Some(common) => Ok(LeafAction { common }),
        }
    }
}

impl FromNode for LeafAction {
    open spec fn item_kind() -> NodeKind {
        NodeKind::LeafAction
    }

    fn kind() -> (kind: NodeKind) {
        NodeKind::LeafAction
    }

    open spec fn reading(node: NodeView, source: Seq<char>) -> Result<LeafView, ConvertError> {
        leaf_of(node, source)
    }

    fn read_node(value: NodeWrapper<'_>) -> (result: Result<Self, ConvertError>) {
        LeafAction::try_from(value)
    }
}

/// The great-great-grandchild action that a node gives: its parts, with leaf
/// actions below. See [`parts_of`].
pub open spec fn great_great_grandchild_of(node: NodeView, source: Seq<char>) -> Result<
    GreatGreatGrandChildView,
    ConvertError,
> {
    match parts_of::<LeafAction>(node, source, NodeKind::LeafActionList) {
        Ok(parts) => Ok(GreatGreatGrandChildView { common: parts.0, leaf_children: parts.1 }),
        Err(error) => Err(error),
    }
}

impl GreatGreatGrandChildAction {
    /// Reads a great-great-grandchild action from its node.
    pub fn try_from(value: NodeWrapper<'_>) -> (result: Result<Self, ConvertError>)
        requires
            value.node@.well_formed(value.source@),
        ensures
            result_view(result) == great_great_grandchild_of(value.node@, value.source@),
    {
        match read_parts::<LeafAction>(value, NodeKind::LeafActionList) {
            Ok((common, leaf_children)) => Ok(GreatGreatGrandChildAction { common, leaf_children }),
            Err(error) => Err(error),
        }
    }
}

impl FromNode for GreatGreatGrandChildAction {
    open spec fn item_kind() -> NodeKind {
        NodeKind::GreatGreatGrandChildAction
    }

    fn kind() -> (kind: NodeKind) {
        NodeKind::GreatGreatGrandChildAction
    }

    open spec fn reading(node: NodeView, source: Seq<char>) -> Result<
        GreatGreatGrandChildView,
        ConvertError,
    > {
        great_great_grandchild_of(node, source)
    }

    fn read_node(value: NodeWrapper<'_>) -> (result: Result<Self, ConvertError>) {
        GreatGreatGrandChildAction::try_from(value)
    }
}

/// The great-grandchild action that a node gives: its parts, with
/// great-great-grandchild actions below. See [`parts_of`].
pub open spec fn great_grandchild_of(node: NodeView, source: Seq<char>) -> Result<
    GreatGrandChildView,
    ConvertError,
> {
    match parts_of::<GreatGreatGrandChildAction>(
        node,
        source,
        NodeKind::GreatGreatGrandChildActionList,
    ) {
        Ok(parts) => Ok(
            GreatGrandChildView { common: parts.0, great_great_grandchildren: parts.1 },
        ),
        Err(error) => Err(error),
    }
}

impl GreatGrandChildAction {
    /// Reads a great-grandchild action from its node.
    pub fn try_from(value: NodeWrapper<'_>) -> (result: Result<Self, ConvertError>)
        requires
            value.node@.well_formed(value.source@),
        ensures
            result_view(result) == great_grandchild_of(value.node@, value.source@),
    {
        match read_parts::<GreatGreatGrandChildAction>(
            value,
            NodeKind::GreatGreatGrandChildActionList,
        ) {
            Ok((common, great_great_grandchildren)) => Ok(
                GreatGrandChildAction { common, great_great_grandchildren },
            ),
            Err(error) => Err(error),
        }
    }
}

impl FromNode for GreatGrandChildAction {
    open spec fn item_kind() -> NodeKind {
        NodeKind::GreatGrandChildAction
    }

    fn kind() -> (kind: NodeKind) {
        NodeKind::GreatGrandChildAction
    }

    open spec fn reading(node: NodeView, source: Seq<char>) -> Result<
        GreatGrandChildView,
        ConvertError,
    > {
        great_grandchild_of(node, source)
    }

    fn read_node(value: NodeWrapper<'_>) -> (result: Result<Self, ConvertError>) {
        GreatGrandChildAction::try_from(value)
    }
}

/// The grandchild action that a node gives: its parts, with great-grandchild
/// actions below. See [`parts_of`].
pub open spec fn grandchild_of(node: NodeView, source: Seq<char>) -> Result<
    GrandChildView,
    ConvertError,
> {
    match parts_of::<GreatGrandChildAction>(node, source, NodeKind::GreatGrandChildActionList) {
        Ok(parts) => Ok(GrandChildView { common: parts.0, great_grandchildren: parts.1 }),
        Err(error) => Err(error),
    }
}

impl GrandChildAction {
    /// Reads a grandchild action from its node.
    pub fn try_from(value: NodeWrapper<'_>) -> (result: Result<Self, ConvertError>)
        requires
            value.node@.well_formed(value.source@),
        ensures
            result_view(result) == grandchild_of(value.node@, value.source@),
    {
        match read_parts::<GreatGrandChildAction>(value, NodeKind::GreatGrandChildActionList) {
            Ok((common, great_grandchildren)) => Ok(
                GrandChildAction { common, great_grandchildren },
            ),
            Err(error) => Err(error),
        }
    }
}

impl FromNode for GrandChildAction {
    open spec fn item_kind() -> NodeKind {
        NodeKind::GrandChildAction
    }

    fn kind() -> (kind: NodeKind) {
        NodeKind::GrandChildAction
    }

    open spec fn reading(node: NodeView, source: Seq<char>) -> Result<
        GrandChildView,
        ConvertError,
    > {
        grandchild_of(node, source)
    }

    fn read_node(value: NodeWrapper<'_>) -> (result: Result<Self, ConvertError>) {
        GrandChildAction::try_from(value)
    }
}

/// The child action that a node gives: its parts, with grandchild actions
/// below. See [`parts_of`].
pub open spec fn child_of(node: NodeView, source: Seq<char>) -> Result<ChildView, ConvertError> {
    match parts_of::<GrandChildAction>(node, source, NodeKind::GrandChildActionList) {
        Ok(parts) => Ok(ChildView { common: parts.0, grandchildren: parts.1 }),
        Err(error) => Err(error),
    }
}

impl ChildAction {
    /// Reads a child action from its node.
    pub fn try_from(value: NodeWrapper<'_>) -> (result: Result<Self, ConvertError>)
        requires
            value.node@.well_formed(value.source@),
        ensures
            result_view(result) == child_of(value.node@, value.source@),
    {
        match read_parts::<GrandChildAction>(value, NodeKind::GrandChildActionList) {
            Ok((common, grandchildren)) => Ok(ChildAction { common, grandchildren }),
            Err(error) => Err(error),
        }
    }
}

impl FromNode for ChildAction {
    open spec fn item_kind() -> NodeKind {
        NodeKind::ChildAction
    }

    fn kind() -> (kind: NodeKind) {
        NodeKind::ChildAction
    }

    open spec fn reading(node: NodeView, source: Seq<char>) -> Result<ChildView, ConvertError> {
        child_of(node, source)
    }

    fn read_node(value: NodeWrapper<'_>) -> (result: Result<Self, ConvertError>) {
        ChildAction::try_from(value)
    }
}

/// Reads the text of a story node, as it stands.
pub open spec fn story_reader(source: Seq<char>) -> spec_fn(NodeView) -> Option<Seq<char>> {
    |node: NodeView|
        if node.kind == NodeKind::Story {
            Some(node.text_in(source))
        } else {
            None
        }
}

/// The root action that a node gives: its parts, with child actions below
/// (see [`parts_of`]), and the text of the last story among its children,
/// `None` where there is none.
pub open spec fn root_of(node: NodeView, source: Seq<char>) -> Result<RootView, ConvertError> {
    match parts_of::<ChildAction>(node, source, NodeKind::ChildActionList) {
        Ok(parts) => Ok(
            RootView {
                common: parts.0,
                story: last_some(node.children, story_reader(source)),
                children: parts.1,
            },
        ),
        Err(error) => Err(error),
    }
}

/// Reads the story of a root action: the text of the last story node among
/// the children of its node.
fn read_story(value: NodeWrapper<'_>) -> (story: Option<String>)
    requires
        value.node@.well_formed(value.source@),
    ensures
        text_view(story) == last_some(value.node@.children, story_reader(value.source@)),
{
    let node = value.node;
    let source = value.source;
    let ghost children = node@.children;
    proof {
        node.lemma_view();
    }
    let mut story: Option<String> = None;
    let mut i: usize = 0;
    while i < node.children.len()
        invariant
            i <= node.children.len(),
            node == value.node,
            source == value.source,
            children == node@.children,
            children.len() == node.children@.len(),
            forall|j: int|
                0 <= j < node.children@.len() ==> #[trigger] children[j] == node.children@[j]@,
            node@.well_formed(source@),
            text_view(story) == last_some(children.take(i as int), story_reader(source@)),
        decreases node.children.len() - i,
    {
        let child = &node.children[i];
        proof {
            child.lemma_view();
            assert(child@ == children[i as int]);
            assert(child@.well_formed(source@));
            lemma_last_some_step(children, i as int, story_reader(source@));
        }
        if child.kind == NodeKind::Story {
            story = Some(get_node_text(child, source));
        }
        i = i + 1;
    }
    proof {
        assert(children.take(i as int) =~= children);
    }
    story
}

impl RootAction {
    /// Reads a root action from its node.
    pub fn try_from(value: NodeWrapper<'_>) -> (result: Result<Self, ConvertError>)
        requires
            value.node@.well_formed(value.source@),
        ensures
            result_view(result) == root_of(value.node@, value.source@),
    {
        let story_source = create_node_wrapper(value.node, value.source);
        match read_parts::<ChildAction>(value, NodeKind::ChildActionList) {
            Ok((common, children)) => {
                let story = read_story(story_source);
                Ok(RootAction { common, story, children })
            },
            Err(error) => Err(error),
        }
    }
}

impl FromNode for RootAction {
    open spec fn item_kind() -> NodeKind {
        NodeKind::RootAction
    }

    fn kind() -> (kind: NodeKind) {
        NodeKind::RootAction
    }

    open spec fn reading(node: NodeView, source: Seq<char>) -> Result<RootView, ConvertError> {
        root_of(node, source)
    }

    fn read_node(value: NodeWrapper<'_>) -> (result: Result<Self, ConvertError>) {
        RootAction::try_from(value)
    }
}

/// The outline that a syntax tree gives: one root action for each child of
/// the tree's root that is a root action, in order, or the first error among
/// them. Other children are passed over.
pub open spec fn document_of(tree: NodeView, source: Seq<char>) -> Result<
    Seq<RootView>,
    ConvertError,
> {
    list_of::<RootAction>(tree, source)
}

/// Reads the outline of a syntax tree: one root action for each child of the
/// tree's root that is a root action, in order. The first one that fails
/// gives the error.
pub fn action_list_from(value: &TreeWrapper) -> (result: Result<Vec<RootAction>, ConvertError>)
    requires
        value.tree@.well_formed(value.source@),
    ensures
        list_result_view(result) == document_of(value.tree@, value.source@),
{
    actions_from::<RootAction>(create_node_wrapper(&value.tree, value.source.as_str()))
}

} // verus!
