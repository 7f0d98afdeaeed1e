//! What holds of every conversion and of every exported value.

use vstd::prelude::*;
use crate::convert::{
    common_of, context_reader, converted_items, core_reader, document_of, first_failure,
    id_reader, is_bad_state, last_some, list_reader, part_failure, parts_of, priority_reader,
    root_of, state_in, state_reader, story_reader, text_reader, FromNode,
};
use crate::cst::{NodeKind, NodeView};
use crate::entities::{ActionState, CommonView, ConvertError, RootView};
use crate::entities::{
    ChildAction, ChildView, GrandChildAction, GrandChildView, GreatGrandChildAction,
    GreatGrandChildView, GreatGreatGrandChildAction, GreatGreatGrandChildView, LeafAction,
    LeafView, RootAction,
};
use crate::export::{
    child_value, common_entries, common_value, document_value, grandchild_value,
    great_grandchild_value, great_great_grandchild_value, leaf_value, list_value, number_value,
    optional_entry, root_value, tags_value, text_value, text_values, values_of, ToValue,
};
use crate::text::{parse_number, trimmed};
use crate::value::{has_key, ValueView};

verus! {

/// Where `read` gives nothing on any node, the last value is nothing.
pub proof fn lemma_last_some_of_none<T>(nodes: Seq<NodeView>, read: spec_fn(NodeView) -> Option<T>)
    requires
        forall|i: int| 0 <= i < nodes.len() ==> read(#[trigger] nodes[i]) is None,
    ensures
        last_some(nodes, read) is None,
    decreases nodes.len(),
{
    if nodes.len() > 0 {
        assert(read(nodes[nodes.len() - 1]) is None);
        assert forall|i: int| 0 <= i < nodes.drop_last().len() implies read(
            #[trigger] nodes.drop_last()[i],
        ) is None by {
            assert(nodes.drop_last()[i] == nodes[i]);
        }
        lemma_last_some_of_none(nodes.drop_last(), read);
    }
}

/// The last value is what `read` gives on one of the nodes.
pub proof fn lemma_last_some_is_read<T>(nodes: Seq<NodeView>, read: spec_fn(NodeView) -> Option<T>)
    requires
        last_some(nodes, read) is Some,
    ensures
        exists|i: int| 0 <= i < nodes.len() && read(#[trigger] nodes[i]) == last_some(nodes, read),
    decreases nodes.len(),
{
    if read(nodes.last()) is Some {
        assert(read(nodes[nodes.len() - 1]) == last_some(nodes, read));
    } else {
        lemma_last_some_is_read(nodes.drop_last(), read);
        let i = choose|i: int|
            0 <= i < nodes.drop_last().len() && read(#[trigger] nodes.drop_last()[i]) == last_some(
                nodes.drop_last(),
                read,
            );
        assert(nodes.drop_last()[i] == nodes[i]);
    }
}

/// Where `read` gives a value on some node, the last value is one.
pub proof fn lemma_last_some_of_some<T>(
    nodes: Seq<NodeView>,
    read: spec_fn(NodeView) -> Option<T>,
    i: int,
)
    requires
        0 <= i < nodes.len(),
        read(nodes[i]) is Some,
    ensures
        last_some(nodes, read) is Some,
    decreases nodes.len(),
{
    if i < nodes.len() - 1 && read(nodes.last()) is None {
        assert(nodes.drop_last()[i] == nodes[i]);
        lemma_last_some_of_some(nodes.drop_last(), read, i);
    }
}

/// Where there is no first failure, no node fails.
pub proof fn lemma_no_failure_anywhere(
    nodes: Seq<NodeView>,
    fails: spec_fn(NodeView) -> Option<ConvertError>,
    i: int,
)
    requires
        first_failure(nodes, fails) is None,
        0 <= i < nodes.len(),
    ensures
        fails(nodes[i]) is None,
    decreases nodes.len(),
{
    if i < nodes.len() - 1 {
        assert(nodes.drop_last()[i] == nodes[i]);
        lemma_no_failure_anywhere(nodes.drop_last(), fails, i);
    }
}

/// Where no node fails, there is no first failure.
pub proof fn lemma_no_failure(
    nodes: Seq<NodeView>,
    fails: spec_fn(NodeView) -> Option<ConvertError>,
)
    requires
        forall|i: int| 0 <= i < nodes.len() ==> fails(#[trigger] nodes[i]) is None,
    ensures
        first_failure(nodes, fails) is None,
    decreases nodes.len(),
{
    if nodes.len() > 0 {
        assert(fails(nodes[nodes.len() - 1]) is None);
        assert forall|i: int| 0 <= i < nodes.drop_last().len() implies fails(
            #[trigger] nodes.drop_last()[i],
        ) is None by {
            assert(nodes.drop_last()[i] == nodes[i]);
        }
        lemma_no_failure(nodes.drop_last(), fails);
    }
}

/// Whether no child of `node` is of kind `kind`.
pub open spec fn lacks(node: NodeView, kind: NodeKind) -> bool {
    forall|i: int| 0 <= i < node.children.len() ==> (#[trigger] node.children[i]).kind != kind
}

/// Common properties fail on a state without a known mark and on nothing
/// else: no name, description, priority, context or identifier, whatever its
/// text, makes the conversion fail.
pub proof fn law_only_state_fails(node: NodeView, source: Seq<char>)
    ensures
        common_of(node, source) is Err <==> exists|i: int|
            0 <= i < node.children.len() && is_bad_state(#[trigger] node.children[i]),
        common_of(node, source) is Err ==> common_of(node, source) == Err::<
            CommonView,
            ConvertError,
        >(ConvertError::UnknownActionState),
{
}

/// A field that the source does not have is `None` in the model: where the
/// node of the common properties has no child of a field's kind, the field
/// is absent. An absent state is not started, an absent name is empty. The
/// two dates are absent whatever the source holds.
pub proof fn law_absent_in_source_is_none(node: NodeView, source: Seq<char>)
    requires
        common_of(node, source) is Ok,
    ensures
        lacks(node, NodeKind::State) ==> common_of(node, source)->Ok_0.state
            == ActionState::NotStarted,
        lacks(node, NodeKind::Name) ==> common_of(node, source)->Ok_0.name == Seq::<char>::empty(),
        lacks(node, NodeKind::Description) ==> common_of(node, source)->Ok_0.description is None,
        lacks(node, NodeKind::Priority) ==> common_of(node, source)->Ok_0.priority is None,
        lacks(node, NodeKind::ContextList) ==> common_of(node, source)->Ok_0.context_list is None,
        lacks(node, NodeKind::Id) ==> common_of(node, source)->Ok_0.id is None,
        common_of(node, source)->Ok_0.do_date_time is None,
        common_of(node, source)->Ok_0.completed_date_time is None,
{
    let children = node.children;
    if lacks(node, NodeKind::State) {
        lemma_last_some_of_none(children, state_reader());
    }
    if lacks(node, NodeKind::Name) {
        lemma_last_some_of_none(children, text_reader(NodeKind::Name, source));
    }
    if lacks(node, NodeKind::Description) {
        lemma_last_some_of_none(children, text_reader(NodeKind::Description, source));
    }
    if lacks(node, NodeKind::Priority) {
        lemma_last_some_of_none(children, priority_reader(source));
    }
    if lacks(node, NodeKind::ContextList) {
        lemma_last_some_of_none(children, context_reader(source));
    }
    if lacks(node, NodeKind::Id) {
        lemma_last_some_of_none(children, id_reader(source));
    }
}

/// A description that the source has is in the model: the field is there
/// exactly where the node of the common properties has a description child.
pub proof fn law_description_is_kept(node: NodeView, source: Seq<char>)
    requires
        common_of(node, source) is Ok,
    ensures
        common_of(node, source)->Ok_0.description is None <==> lacks(node, NodeKind::Description),
{
    let read = text_reader(NodeKind::Description, source);
    if lacks(node, NodeKind::Description) {
        lemma_last_some_of_none(node.children, read);
    } else {
        let i = choose|i: int|
            0 <= i < node.children.len() && (#[trigger] node.children[i]).kind
                == NodeKind::Description;
        lemma_last_some_of_some(node.children, read, i);
    }
}

/// No group, no list; a group, a list: above the deepest level the actions
/// below are `None` exactly where the node has no child that is their group.
/// A group without an action gives a list without one, not `None`.
pub proof fn law_list_is_none_without_group<T: FromNode>(
    node: NodeView,
    source: Seq<char>,
    group: NodeKind,
)
    requires
        parts_of::<T>(node, source, group) is Ok,
        group != NodeKind::CoreAction,
    ensures
        parts_of::<T>(node, source, group)->Ok_0.1 is None <==> lacks(node, group),
{
    let read = list_reader::<T>(group, source);
    if lacks(node, group) {
        lemma_last_some_of_none(node.children, read);
    } else {
        let i = choose|i: int|
            0 <= i < node.children.len() && (#[trigger] node.children[i]).kind == group;
        lemma_no_failure_anywhere(node.children, part_failure::<T>(group, source), i);
        lemma_last_some_of_some(node.children, read, i);
    }
}

/// The story of a root action is `None` exactly where its node has no story
/// child.
pub proof fn law_story_is_none_without_node(node: NodeView, source: Seq<char>)
    requires
        root_of(node, source) is Ok,
    ensures
        root_of(node, source)->Ok_0.story is None <==> lacks(node, NodeKind::Story),
{
    let read = story_reader(source);
    if lacks(node, NodeKind::Story) {
        lemma_last_some_of_none(node.children, read);
    } else {
        let i = choose|i: int|
            0 <= i < node.children.len() && (#[trigger] node.children[i]).kind == NodeKind::Story;
        lemma_last_some_of_some(node.children, read, i);
    }
}

/// A priority whose text is no number is dropped: where no priority child
/// holds a number, the priority is absent and the conversion still succeeds
/// as it would without those children.
pub proof fn law_bad_priority_is_dropped(node: NodeView, source: Seq<char>)
    requires
        common_of(node, source) is Ok,
        forall|i: int|
            0 <= i < node.children.len() && (#[trigger] node.children[i]).kind
                == NodeKind::Priority ==> parse_number(
                trimmed(node.children[i].text_in(source)),
            ) is None,
    ensures
        common_of(node, source)->Ok_0.priority is None,
{
    lemma_last_some_of_none(node.children, priority_reader(source));
}

/// A context list is never empty: a source without a tag gives no list.
pub proof fn law_context_list_is_never_empty(node: NodeView, source: Seq<char>)
    requires
        common_of(node, source) is Ok,
    ensures
        common_of(node, source)->Ok_0.context_list matches Some(tags) ==> tags.len() > 0,
{
    let found = last_some(node.children, context_reader(source));
    if found is Some {
        lemma_last_some_is_read(node.children, context_reader(source));
    }
}

/// Whether `tree` is the syntax tree of one line that holds a state and a
/// name and nothing else: one root action, whose only child holds the
/// common properties, which are a state node with the mark of `state` and a
/// name node.
pub open spec fn is_single_line(tree: NodeView, state: ActionState) -> bool {
    &&& tree.children.len() == 1
    &&& tree.children[0].kind == NodeKind::RootAction
    &&& tree.children[0].children.len() == 1
    &&& tree.children[0].children[0].kind == NodeKind::CoreAction
    &&& tree.children[0].children[0].children.len() == 2
    &&& tree.children[0].children[0].children[0].kind == NodeKind::State
    &&& state_in(tree.children[0].children[0].children[0]) == Some(state)
    &&& tree.children[0].children[0].children[1].kind == NodeKind::Name
}

/// A line with a state and a name gives one root action with that state and
/// that name, trimmed, and with every optional field absent.
pub proof fn law_single_line(tree: NodeView, source: Seq<char>, state: ActionState)
    requires
        is_single_line(tree, state),
    ensures
        document_of(tree, source) == Ok::<Seq<RootView>, ConvertError>(
            seq![
                RootView {
                    common: CommonView {
                        state,
                        name: trimmed(tree.children[0].children[0].children[1].text_in(source)),
                        description: None,
                        priority: None,
                        context_list: None,
                        id: None,
                        do_date_time: None,
                        completed_date_time: None,
                    },
                    story: None,
                    children: None,
                },
            ],
        ),
{
    let root = tree.children[0];
    let core = root.children[0];
    let fields = core.children;
    let name = trimmed(fields[1].text_in(source));
    let common = CommonView {
        state,
        name,
        description: None,
        priority: None,
        context_list: None,
        id: None,
        do_date_time: None,
        completed_date_time: None,
    };
    assert(common_of(core, source) == Ok::<CommonView, ConvertError>(common)) by {
        assert(fields.drop_last() =~= seq![fields[0]]);
        assert(fields.drop_last().drop_last() =~= Seq::<NodeView>::empty());
        assert(fields.last() == fields[1]);
        assert(fields.drop_last().last() == fields[0]);
        reveal_with_fuel(last_some, 3);
        assert(!is_bad_state(fields[0]));
        assert(!is_bad_state(fields[1]));
        law_absent_in_source_is_none(core, source);
        assert(last_some(fields, state_reader()) == Some(state));
        assert(last_some(fields, text_reader(NodeKind::Name, source)) == Some(name));
        assert(common_of(core, source)->Ok_0 == common);
    }
    let parts = root.children;
    assert(root_of(root, source) == Ok::<RootView, ConvertError>(
        RootView { common, story: None, children: None },
    )) by {
        let group = NodeKind::ChildActionList;
        assert(parts.drop_last() =~= Seq::<NodeView>::empty());
        assert(parts.last() == core);
        reveal_with_fuel(last_some, 2);
        reveal_with_fuel(first_failure, 2);
        assert(first_failure(parts, part_failure::<ChildAction>(group, source)) is None);
        assert(last_some(parts, core_reader(source)) == Some(common));
        assert(last_some(parts, story_reader(source)) is None);
        assert(last_some(parts, list_reader::<ChildAction>(group, source)) is None);
        assert(parts_of::<ChildAction>(root, source, group) == Ok::<
            (CommonView, Option<Seq<ChildView>>),
            ConvertError,
        >((common, None)));
    }
    assert(tree.children.drop_last() =~= Seq::<NodeView>::empty());
    assert(tree.children.last() == root);
    reveal_with_fuel(converted_items, 2);
    assert(Seq::<RootView>::empty().push(RootView { common, story: None, children: None })
        =~= seq![RootView { common, story: None, children: None }]);
}


/// The keys of two lists put together are the keys of the one and of the
/// other.
pub proof fn lemma_has_key_of_both(
    a: Seq<(Seq<char>, ValueView)>,
    b: Seq<(Seq<char>, ValueView)>,
    key: Seq<char>,
)
    ensures
        has_key(a + b, key) <==> has_key(a, key) || has_key(b, key),
{
    if has_key(a, key) {
        let i = choose|i: int| 0 <= i < a.len() && (#[trigger] a[i]).0 == key;
        assert((a + b)[i] == a[i]);
    }
    if has_key(b, key) {
        let i = choose|i: int| 0 <= i < b.len() && (#[trigger] b[i]).0 == key;
        assert((a + b)[a.len() + i] == b[i]);
    }
    if has_key(a + b, key) {
        let i = choose|i: int| 0 <= i < (a + b).len() && (#[trigger] (a + b)[i]).0 == key;
        if i < a.len() {
            assert(a[i] == (a + b)[i]);
        } else {
            assert(b[i - a.len()] == (a + b)[i]);
        }
    }
}

/// An optional entry holds its key where its value is there, and no other.
pub proof fn lemma_has_key_of_optional(name: Seq<char>, value: Option<ValueView>, key: Seq<char>)
    ensures
        has_key(optional_entry(name, value), key) <==> value is Some && name == key,
{
    let entries = optional_entry(name, value);
    if value is Some && name == key {
        assert(entries[0].0 == key);
    }
}

/// The keys of the common properties are eight different texts.
pub proof fn lemma_keys_differ()
    ensures
        "state"@ != "name"@,
        "description"@ != "state"@,
        "description"@ != "name"@,
        "priority"@ != "state"@,
        "priority"@ != "name"@,
        "priority"@ != "description"@,
        "context_list"@ != "state"@,
        "context_list"@ != "name"@,
        "context_list"@ != "description"@,
        "context_list"@ != "priority"@,
        "id"@ != "state"@,
        "id"@ != "name"@,
        "id"@ != "description"@,
        "id"@ != "priority"@,
        "id"@ != "context_list"@,
        "do_date_time"@ != "state"@,
        "do_date_time"@ != "name"@,
        "do_date_time"@ != "description"@,
        "do_date_time"@ != "priority"@,
        "do_date_time"@ != "context_list"@,
        "do_date_time"@ != "id"@,
        "completed_date_time"@ != "state"@,
        "completed_date_time"@ != "name"@,
        "completed_date_time"@ != "description"@,
        "completed_date_time"@ != "priority"@,
        "completed_date_time"@ != "context_list"@,
        "completed_date_time"@ != "id"@,
        "completed_date_time"@ != "do_date_time"@,
{
    reveal_strlit("state");
    reveal_strlit("name");
    reveal_strlit("description");
    reveal_strlit("priority");
    reveal_strlit("context_list");
    reveal_strlit("id");
    reveal_strlit("do_date_time");
    reveal_strlit("completed_date_time");
    assert("state"@.len() == 5);
    assert("name"@.len() == 4);
    assert("description"@.len() == 11);
    assert("priority"@.len() == 8);
    assert("context_list"@.len() == 12);
    assert("id"@.len() == 2);
    assert("do_date_time"@.len() == 12);
    assert("completed_date_time"@.len() == 19);
    assert("context_list"@[0] == 'c');
    assert("do_date_time"@[0] == 'd');
}

/// A field that the model does not have has no key in the exported object,
/// and one that it has has its key: the entries of the common properties
/// hold the key of an optional field exactly where the field is there. The
/// state and the name always have their keys.
pub proof fn law_absent_field_has_no_key(common: CommonView)
    ensures
        has_key(common_entries(common), "state"@),
        has_key(common_entries(common), "name"@),
        has_key(common_entries(common), "description"@) <==> common.description is Some,
        has_key(common_entries(common), "priority"@) <==> common.priority is Some,
        has_key(common_entries(common), "context_list"@) <==> common.context_list is Some,
        has_key(common_entries(common), "id"@) <==> common.id is Some,
        has_key(common_entries(common), "do_date_time"@) <==> common.do_date_time is Some,
        has_key(common_entries(common), "completed_date_time"@)
            <==> common.completed_date_time is Some,
{
    lemma_keys_differ();
    let e0 = seq![
        ("state"@, ValueView::String(crate::export::state_name(common.state))),
        ("name"@, ValueView::String(common.name)),
    ];
    let o1 = optional_entry("description"@, text_value(common.description));
    let o2 = optional_entry("priority"@, number_value(common.priority));
    let o3 = optional_entry("context_list"@, tags_value(common.context_list));
    let o4 = optional_entry("id"@, text_value(crate::serialize::id_digits(common.id)));
    let o5 = optional_entry(
        "do_date_time"@,
        text_value(crate::serialize::stamp_digits(common.do_date_time)),
    );
    let o6 = optional_entry(
        "completed_date_time"@,
        text_value(crate::serialize::stamp_digits(common.completed_date_time)),
    );
    assert(common_entries(common) == e0 + o1 + o2 + o3 + o4 + o5 + o6);
    assert(e0[0].0 == "state"@);
    assert(e0[1].0 == "name"@);
    assert forall|key: Seq<char>| has_key(e0, key) <==> key == "state"@ || key == "name"@ by {
        if key == "state"@ {
            assert(e0[0].0 == key);
        }
        if key == "name"@ {
            assert(e0[1].0 == key);
        }
    }
    assert forall|key: Seq<char>| #[trigger]
        has_key(common_entries(common), key) <==> (key == "state"@ || key == "name"@ || (key
            == "description"@ && common.description is Some) || (key == "priority"@
            && common.priority is Some) || (key == "context_list"@ && common.context_list is Some)
            || (key == "id"@ && common.id is Some) || (key == "do_date_time"@
            && common.do_date_time is Some) || (key == "completed_date_time"@
            && common.completed_date_time is Some)) by {
        lemma_has_key_of_optional("description"@, text_value(common.description), key);
        lemma_has_key_of_optional("priority"@, number_value(common.priority), key);
        lemma_has_key_of_optional("context_list"@, tags_value(common.context_list), key);
        lemma_has_key_of_optional("id"@, text_value(crate::serialize::id_digits(common.id)), key);
        lemma_has_key_of_optional(
            "do_date_time"@,
            text_value(crate::serialize::stamp_digits(common.do_date_time)),
            key,
        );
        lemma_has_key_of_optional(
            "completed_date_time"@,
            text_value(crate::serialize::stamp_digits(common.completed_date_time)),
            key,
        );
        lemma_has_key_of_both(e0, o1, key);
        lemma_has_key_of_both(e0 + o1, o2, key);
        lemma_has_key_of_both(e0 + o1 + o2, o3, key);
        lemma_has_key_of_both(e0 + o1 + o2 + o3, o4, key);
        lemma_has_key_of_both(e0 + o1 + o2 + o3 + o4, o5, key);
        lemma_has_key_of_both(e0 + o1 + o2 + o3 + o4 + o5, o6, key);
    }
    assert(has_key(common_entries(common), "state"@));
    assert(has_key(common_entries(common), "name"@));
    assert(has_key(common_entries(common), "description"@) <==> common.description is Some);
    assert(has_key(common_entries(common), "priority"@) <==> common.priority is Some);
    assert(has_key(common_entries(common), "context_list"@) <==> common.context_list is Some);
    assert(has_key(common_entries(common), "id"@) <==> common.id is Some);
    assert(has_key(common_entries(common), "do_date_time"@) <==> common.do_date_time is Some);
    assert(has_key(common_entries(common), "completed_date_time"@)
        <==> common.completed_date_time is Some);
}

/// Whether no null stands anywhere in `value`.
pub open spec fn null_free(value: ValueView) -> bool
    decreases value,
{
    match value {
        ValueView::Null => false,
        ValueView::Array(items) => forall|i: int|
            0 <= i < items.len() ==> null_free(#[trigger] items[i]),
        ValueView::Object(entries) => forall|i: int|
            0 <= i < entries.len() ==> null_free((#[trigger] entries[i]).1),
        _ => true,
    }
}

/// Whether no null stands anywhere in the values of `entries`.
pub open spec fn entries_null_free(entries: Seq<(Seq<char>, ValueView)>) -> bool {
    forall|i: int| 0 <= i < entries.len() ==> null_free((#[trigger] entries[i]).1)
}

/// Lists without a null, put together, hold no null.
pub proof fn lemma_null_free_of_both(
    a: Seq<(Seq<char>, ValueView)>,
    b: Seq<(Seq<char>, ValueView)>,
)
    requires
        entries_null_free(a),
        entries_null_free(b),
    ensures
        entries_null_free(a + b),
{
    assert forall|i: int| 0 <= i < (a + b).len() implies null_free((#[trigger] (a + b)[i]).1) by {
        if i < a.len() {
            assert((a + b)[i] == a[i]);
        } else {
            assert((a + b)[i] == b[i - a.len()]);
        }
    }
}

/// An optional entry without a null in its value holds no null.
pub proof fn lemma_null_free_of_optional(name: Seq<char>, value: Option<ValueView>)
    requires
        value matches Some(v) ==> null_free(v),
    ensures
        entries_null_free(optional_entry(name, value)),
{
}

/// The common properties are exported without a null.
pub proof fn law_common_value_has_no_null(common: CommonView)
    ensures
        null_free(common_value(common)),
{
    let e0 = seq![
        ("state"@, ValueView::String(crate::export::state_name(common.state))),
        ("name"@, ValueView::String(common.name)),
    ];
    let o1 = optional_entry("description"@, text_value(common.description));
    let o2 = optional_entry("priority"@, number_value(common.priority));
    let o3 = optional_entry("context_list"@, tags_value(common.context_list));
    let o4 = optional_entry("id"@, text_value(crate::serialize::id_digits(common.id)));
    let o5 = optional_entry(
        "do_date_time"@,
        text_value(crate::serialize::stamp_digits(common.do_date_time)),
    );
    let o6 = optional_entry(
        "completed_date_time"@,
        text_value(crate::serialize::stamp_digits(common.completed_date_time)),
    );
    assert(entries_null_free(e0));
    lemma_null_free_of_optional("description"@, text_value(common.description));
    lemma_null_free_of_optional("priority"@, number_value(common.priority));
    assert(entries_null_free(o3)) by {
        if common.context_list is Some {
            let items = text_values(common.context_list->Some_0);
            assert forall|i: int| 0 <= i < items.len() implies null_free(#[trigger] items[i]) by {}
            assert(null_free(ValueView::Array(items)));
        }
    }
    lemma_null_free_of_optional("id"@, text_value(crate::serialize::id_digits(common.id)));
    lemma_null_free_of_optional(
        "do_date_time"@,
        text_value(crate::serialize::stamp_digits(common.do_date_time)),
    );
    lemma_null_free_of_optional(
        "completed_date_time"@,
        text_value(crate::serialize::stamp_digits(common.completed_date_time)),
    );
    lemma_null_free_of_both(e0, o1);
    lemma_null_free_of_both(e0 + o1, o2);
    lemma_null_free_of_both(e0 + o1 + o2, o3);
    lemma_null_free_of_both(e0 + o1 + o2 + o3, o4);
    lemma_null_free_of_both(e0 + o1 + o2 + o3 + o4, o5);
    lemma_null_free_of_both(e0 + o1 + o2 + o3 + o4 + o5, o6);
    assert(common_entries(common) == e0 + o1 + o2 + o3 + o4 + o5 + o6);
}

/// Where no action of a level is exported with a null, no list of them is.
pub proof fn lemma_list_value_has_no_null<T: ToValue>(list: Option<Seq<T::V>>)
    requires
        forall|action: T::V| null_free(#[trigger] T::value_of(action)),
    ensures
        list_value::<T>(list) matches Some(value) ==> null_free(value),
{
    if list is Some {
        let items = values_of::<T>(list->Some_0);
        assert forall|i: int| 0 <= i < items.len() implies null_free(#[trigger] items[i]) by {
            assert(null_free(T::value_of(list->Some_0[i])));
        }
        assert(null_free(ValueView::Array(items)));
    }
}

/// A leaf action is exported without a null.
pub proof fn law_leaf_value_has_no_null(action: LeafView)
    ensures
        null_free(leaf_value(action)),
{
    law_common_value_has_no_null(action.common);
    let entries = seq![("common"@, common_value(action.common))];
    assert(entries_null_free(entries));
}

/// A great-great-grandchild action and all below it is exported without a null.
pub proof fn law_great_great_grandchild_value_has_no_null(action: GreatGreatGrandChildView)
    ensures
        null_free(great_great_grandchild_value(action)),
{
    law_common_value_has_no_null(action.common);
    let head = seq![("common"@, common_value(action.common))];
    let tail = optional_entry("leaf_children"@, list_value::<LeafAction>(action.leaf_children));
    assert(entries_null_free(head));
    assert forall|below: LeafView| null_free(#[trigger] LeafAction::value_of(below)) by {
        law_leaf_value_has_no_null(below);
    }
    lemma_list_value_has_no_null::<LeafAction>(action.leaf_children);
    lemma_null_free_of_optional("leaf_children"@, list_value::<LeafAction>(action.leaf_children));
    lemma_null_free_of_both(head, tail);
}

/// A great-grandchild action and all below it is exported without a null.
pub proof fn law_great_grandchild_value_has_no_null(action: GreatGrandChildView)
    ensures
        null_free(great_grandchild_value(action)),
{
    law_common_value_has_no_null(action.common);
    let head = seq![("common"@, common_value(action.common))];
    let tail = optional_entry(
        "great_great_grandchildren"@,
        list_value::<GreatGreatGrandChildAction>(action.great_great_grandchildren),
    );
    assert(entries_null_free(head));
    assert forall|below: GreatGreatGrandChildView| null_free(
        #[trigger] GreatGreatGrandChildAction::value_of(below),
    ) by {
        law_great_great_grandchild_value_has_no_null(below);
    }
    lemma_list_value_has_no_null::<GreatGreatGrandChildAction>(action.great_great_grandchildren);
    lemma_null_free_of_optional(
        "great_great_grandchildren"@,
        list_value::<GreatGreatGrandChildAction>(action.great_great_grandchildren),
    );
    lemma_null_free_of_both(head, tail);
}

/// A grandchild action and all below it is exported without a null.
pub proof fn law_grandchild_value_has_no_null(action: GrandChildView)
    ensures
        null_free(grandchild_value(action)),
{
    law_common_value_has_no_null(action.common);
    let head = seq![("common"@, common_value(action.common))];
    let tail = optional_entry(
        "great_grandchildren"@,
        list_value::<GreatGrandChildAction>(action.great_grandchildren),
    );
    assert(entries_null_free(head));
    assert forall|below: GreatGrandChildView| null_free(
        #[trigger] GreatGrandChildAction::value_of(below),
    ) by {
        law_great_grandchild_value_has_no_null(below);
    }
    lemma_list_value_has_no_null::<GreatGrandChildAction>(action.great_grandchildren);
    lemma_null_free_of_optional(
        "great_grandchildren"@,
        list_value::<GreatGrandChildAction>(action.great_grandchildren),
    );
    lemma_null_free_of_both(head, tail);
}

/// A child action and all below it is exported without a null.
pub proof fn law_child_value_has_no_null(action: ChildView)
    ensures
        null_free(child_value(action)),
{
    law_common_value_has_no_null(action.common);
    let head = seq![("common"@, common_value(action.common))];
    let tail = optional_entry(
        "grandchildren"@,
        list_value::<GrandChildAction>(action.grandchildren),
    );
    assert(entries_null_free(head));
    assert forall|below: GrandChildView| null_free(
        #[trigger] GrandChildAction::value_of(below),
    ) by {
        law_grandchild_value_has_no_null(below);
    }
    lemma_list_value_has_no_null::<GrandChildAction>(action.grandchildren);
    lemma_null_free_of_optional(
        "grandchildren"@,
        list_value::<GrandChildAction>(action.grandchildren),
    );
    lemma_null_free_of_both(head, tail);
}

/// A root action and all below it is exported without a null.
pub proof fn law_root_value_has_no_null(action: RootView)
    ensures
        null_free(root_value(action)),
{
    law_common_value_has_no_null(action.common);
    let head = seq![("common"@, common_value(action.common))];
    let story = optional_entry("story"@, text_value(action.story));
    let tail = optional_entry("children"@, list_value::<ChildAction>(action.children));
    assert(entries_null_free(head));
    lemma_null_free_of_optional("story"@, text_value(action.story));
    assert forall|below: ChildView| null_free(#[trigger] ChildAction::value_of(below)) by {
        law_child_value_has_no_null(below);
    }
    lemma_list_value_has_no_null::<ChildAction>(action.children);
    lemma_null_free_of_optional("children"@, list_value::<ChildAction>(action.children));
    lemma_null_free_of_both(head, story);
    lemma_null_free_of_both(head + story, tail);
}

/// An outline is exported without a null: what the model does not have is
/// left out, never written as a null.
pub proof fn law_document_value_has_no_null(list: Seq<RootView>)
    ensures
        null_free(document_value(list)),
{
    let items = values_of::<RootAction>(list);
    assert forall|i: int| 0 <= i < items.len() implies null_free(#[trigger] items[i]) by {
        law_root_value_has_no_null(list[i]);
    }
}

} // verus!
