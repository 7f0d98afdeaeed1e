use cliche::convert::{action_list_from, actions_from};
use cliche::cst::{
    create_node_wrapper, create_tree_wrapper, get_node_text, NodeKind, SyntaxNode,
};
use cliche::entities::{
    ActionState, ChildAction, CommonActionProperties, ConvertError, GrandChildAction,
    GreatGrandChildAction, GreatGreatGrandChildAction, LeafAction, RootAction,
};

fn node(kind: NodeKind, start: usize, end: usize, children: Vec<SyntaxNode>) -> SyntaxNode {
    SyntaxNode { kind, start, end, children }
}

fn state(at: usize, mark: NodeKind) -> SyntaxNode {
    node(
        NodeKind::State,
        at,
        at + 3,
        vec![
            node(NodeKind::Other, at, at + 1, Vec::new()),
            node(mark, at + 1, at + 2, Vec::new()),
            node(NodeKind::Other, at + 2, at + 3, Vec::new()),
        ],
    )
}

fn plain(state: ActionState, name: &str) -> CommonActionProperties {
    CommonActionProperties {
        state,
        name: name.to_string(),
        description: None,
        priority: None,
        context_list: None,
        id: None,
        do_date_time: None,
        completed_date_time: None,
    }
}

// "(x) name" with one more field behind it, from byte 9 to the end.
fn core_with(source: &str, kind: NodeKind) -> SyntaxNode {
    node(
        NodeKind::CoreAction,
        0,
        source.len(),
        vec![
            state(0, NodeKind::Completed),
            node(NodeKind::Name, 3, 9, Vec::new()),
            node(kind, 9, source.len(), Vec::new()),
        ],
    )
}

fn common_of(source: &str, kind: NodeKind) -> Result<CommonActionProperties, ConvertError> {
    let core = core_with(source, kind);
    assert!(core.is_well_formed(source));
    CommonActionProperties::try_from(create_node_wrapper(&core, source))
}

#[test]
fn context_tokens_become_tags_in_order() {
    let common = common_of("(x) name @a @b", NodeKind::ContextList).unwrap();
    assert_eq!(common.context_list, Some(vec!["a".to_string(), "b".to_string()]));
    assert_eq!(common.state, ActionState::Completed);
    assert_eq!(common.name, "name");
}

#[test]
fn context_without_marked_tokens_is_none() {
    let common = common_of("(x) name a +b", NodeKind::ContextList).unwrap();
    assert_eq!(common.context_list, None);
}

#[test]
fn unparsable_priority_is_dropped() {
    let common = common_of("(x) name !abc", NodeKind::Priority).unwrap();
    assert_eq!(common, plain(ActionState::Completed, "name"));
}

#[test]
fn priority_is_read_from_digits() {
    let common = common_of("(x) name  42 ", NodeKind::Priority).unwrap();
    assert_eq!(common.priority, Some(42));
}

#[test]
fn later_bad_priority_keeps_the_earlier_one() {
    let source = "(x) name 7 x";
    let core = node(
        NodeKind::CoreAction,
        0,
        12,
        vec![
            state(0, NodeKind::Completed),
            node(NodeKind::Name, 3, 9, Vec::new()),
            node(NodeKind::Priority, 9, 10, Vec::new()),
            node(NodeKind::Priority, 11, 12, Vec::new()),
        ],
    );
    let common = CommonActionProperties::try_from(create_node_wrapper(&core, source)).unwrap();
    assert_eq!(common.priority, Some(7));
}

#[test]
fn description_is_trimmed() {
    let common = common_of("(x) name   some text  ", NodeKind::Description).unwrap();
    assert_eq!(common.description, Some("some text".to_string()));
}

#[test]
fn identifier_is_read_with_and_without_hyphens() {
    let expected = Some(0x01951111_cfa6_718d_b303_d7107f4005b3u128);
    let common =
        common_of("(x) name 01951111-cfa6-718d-b303-d7107f4005b3 ", NodeKind::Id).unwrap();
    assert_eq!(common.id, expected);
    let common = common_of("(x) name 01951111cfa6718db303d7107f4005b3", NodeKind::Id).unwrap();
    assert_eq!(common.id, expected);
}

#[test]
fn unparsable_identifier_is_dropped() {
    let common = common_of("(x) name #01951111", NodeKind::Id).unwrap();
    assert_eq!(common, plain(ActionState::Completed, "name"));
}

#[test]
fn last_name_wins() {
    let source = "(x) one two";
    let core = node(
        NodeKind::CoreAction,
        0,
        11,
        vec![
            state(0, NodeKind::Completed),
            node(NodeKind::Name, 4, 7, Vec::new()),
            node(NodeKind::Name, 8, 11, Vec::new()),
        ],
    );
    let common = CommonActionProperties::try_from(create_node_wrapper(&core, source)).unwrap();
    assert_eq!(common.name, "two");
}

#[test]
fn missing_state_and_name_take_their_defaults() {
    let core = node(NodeKind::CoreAction, 0, 0, Vec::new());
    let common = CommonActionProperties::try_from(create_node_wrapper(&core, "")).unwrap();
    assert_eq!(common, plain(ActionState::NotStarted, ""));
    assert_eq!(common, CommonActionProperties::default());
}

#[test]
fn unknown_state_mark_is_an_error() {
    let source = "(q) name";
    let core = node(
        NodeKind::CoreAction,
        0,
        8,
        vec![state(0, NodeKind::Other), node(NodeKind::Name, 4, 8, Vec::new())],
    );
    assert_eq!(
        CommonActionProperties::try_from(create_node_wrapper(&core, source)),
        Err(ConvertError::UnknownActionState)
    );
}

#[test]
fn state_without_a_mark_is_an_error() {
    let source = "() name";
    let bare = node(NodeKind::State, 0, 2, vec![node(NodeKind::Other, 0, 1, Vec::new())]);
    let core = node(NodeKind::CoreAction, 0, 7, vec![bare]);
    assert_eq!(
        CommonActionProperties::try_from(create_node_wrapper(&core, source)),
        Err(ConvertError::UnknownActionState)
    );
}

#[test]
fn bad_state_fails_even_before_a_good_one() {
    let source = "(q)(x) name";
    let core = node(
        NodeKind::CoreAction,
        0,
        11,
        vec![state(0, NodeKind::Other), state(3, NodeKind::Completed)],
    );
    assert_eq!(
        CommonActionProperties::try_from(create_node_wrapper(&core, source)),
        Err(ConvertError::UnknownActionState)
    );
}

#[test]
fn action_without_core_properties_is_an_error() {
    let source = "(x) name";
    let bare = node(NodeKind::RootAction, 0, 8, vec![node(NodeKind::Other, 0, 8, Vec::new())]);
    assert_eq!(
        RootAction::try_from(create_node_wrapper(&bare, source)),
        Err(ConvertError::MissingCoreProperties)
    );
    let leaf = node(NodeKind::LeafAction, 0, 8, Vec::new());
    assert_eq!(
        LeafAction::try_from(create_node_wrapper(&leaf, source)),
        Err(ConvertError::MissingCoreProperties)
    );
    let child = node(NodeKind::ChildAction, 0, 8, Vec::new());
    assert_eq!(
        ChildAction::try_from(create_node_wrapper(&child, source)),
        Err(ConvertError::MissingCoreProperties)
    );
}

fn core_at(at: usize) -> SyntaxNode {
    node(
        NodeKind::CoreAction,
        at,
        at + 5,
        vec![state(at, NodeKind::NotStarted), node(NodeKind::Name, at + 3, at + 5, Vec::new())],
    )
}

#[test]
fn one_failing_item_fails_the_whole_list() {
    let source = "( ) a( ) b";
    let good = node(NodeKind::ChildAction, 0, 5, vec![core_at(0)]);
    let bad = node(NodeKind::ChildAction, 5, 10, Vec::new());
    let group = node(NodeKind::ChildActionList, 0, 10, vec![good, bad]);
    assert_eq!(
        actions_from::<ChildAction>(create_node_wrapper(&group, source)),
        Err(ConvertError::MissingCoreProperties)
    );
    let action = node(NodeKind::RootAction, 0, 10, vec![core_at(0), group]);
    assert_eq!(
        RootAction::try_from(create_node_wrapper(&action, source)),
        Err(ConvertError::MissingCoreProperties)
    );
    let tree = node(NodeKind::Other, 0, 10, vec![action]);
    let wrapper = create_tree_wrapper(tree, source.to_string());
    assert_eq!(action_list_from(&wrapper), Err(ConvertError::MissingCoreProperties));
}

#[test]
fn list_keeps_only_items_of_its_kind() {
    let source = "( ) a( ) b";
    let item = node(NodeKind::LeafAction, 0, 5, vec![core_at(0)]);
    let stranger = node(NodeKind::ChildAction, 5, 10, Vec::new());
    let other = node(NodeKind::Other, 5, 10, Vec::new());
    let group = node(NodeKind::LeafActionList, 0, 10, vec![other, item, stranger]);
    assert_eq!(
        actions_from::<LeafAction>(create_node_wrapper(&group, source)),
        Ok(vec![LeafAction { common: plain(ActionState::NotStarted, "a") }])
    );
}

#[test]
fn empty_group_is_an_empty_list_not_none() {
    let source = "( ) a";
    let group = node(NodeKind::ChildActionList, 5, 5, Vec::new());
    let action = node(NodeKind::RootAction, 0, 5, vec![core_at(0), group]);
    let converted = RootAction::try_from(create_node_wrapper(&action, source)).unwrap();
    assert_eq!(converted.children, Some(Vec::new()));
}

#[test]
fn seventh_level_is_dropped() {
    let source = "( ) f( ) g";
    let seventh = node(
        NodeKind::LeafActionList,
        5,
        10,
        vec![node(NodeKind::LeafAction, 5, 10, vec![core_at(5)])],
    );
    let leaf = node(NodeKind::LeafAction, 0, 10, vec![core_at(0), seventh]);
    assert_eq!(
        LeafAction::try_from(create_node_wrapper(&leaf, source)),
        Ok(LeafAction { common: plain(ActionState::NotStarted, "f") })
    );
}

#[test]
fn six_levels_from_a_tree() {
    let source = "( ) a( ) b( ) c( ) d( ) e( ) f";
    let leaf = node(NodeKind::LeafAction, 25, 30, vec![core_at(25)]);
    let leaves = node(NodeKind::LeafActionList, 25, 30, vec![leaf]);
    let fifth = node(NodeKind::GreatGreatGrandChildAction, 20, 30, vec![core_at(20), leaves]);
    let fifths = node(NodeKind::GreatGreatGrandChildActionList, 20, 30, vec![fifth]);
    let fourth = node(NodeKind::GreatGrandChildAction, 15, 30, vec![core_at(15), fifths]);
    let fourths = node(NodeKind::GreatGrandChildActionList, 15, 30, vec![fourth]);
    let third = node(NodeKind::GrandChildAction, 10, 30, vec![core_at(10), fourths]);
    let thirds = node(NodeKind::GrandChildActionList, 10, 30, vec![third]);
    let second = node(NodeKind::ChildAction, 5, 30, vec![core_at(5), thirds]);
    let seconds = node(NodeKind::ChildActionList, 5, 30, vec![second]);
    let first = node(NodeKind::RootAction, 0, 30, vec![core_at(0), seconds]);
    let tree = node(NodeKind::Other, 0, 30, vec![first]);
    assert!(tree.is_well_formed(source));
    let wrapper = create_tree_wrapper(tree, source.to_string());
    let expected = vec![RootAction {
        common: plain(ActionState::NotStarted, "a"),
        story: None,
        children: Some(vec![ChildAction {
            common: plain(ActionState::NotStarted, "b"),
            grandchildren: Some(vec![GrandChildAction {
                common: plain(ActionState::NotStarted, "c"),
                great_grandchildren: Some(vec![GreatGrandChildAction {
                    common: plain(ActionState::NotStarted, "d"),
                    great_great_grandchildren: Some(vec![GreatGreatGrandChildAction {
                        common: plain(ActionState::NotStarted, "e"),
                        leaf_children: Some(vec![LeafAction {
                            common: plain(ActionState::NotStarted, "f"),
                        }]),
                    }]),
                }]),
            }]),
        }]),
    }];
    assert_eq!(action_list_from(&wrapper), Ok(expected));
}

#[test]
fn story_keeps_the_text_of_its_node() {
    let source = "( ) a * s ";
    let story = node(NodeKind::Story, 5, 10, Vec::new());
    let action = node(NodeKind::RootAction, 0, 10, vec![core_at(0), story]);
    let converted = RootAction::try_from(create_node_wrapper(&action, source)).unwrap();
    assert_eq!(converted.story, Some(" * s ".to_string()));
}

#[test]
fn children_of_the_root_that_are_no_actions_are_passed_over() {
    let source = "( ) a ???";
    let action = node(NodeKind::RootAction, 0, 5, vec![core_at(0)]);
    let stray = node(NodeKind::Other, 6, 9, Vec::new());
    let tree = node(NodeKind::Other, 0, 9, vec![action, stray]);
    let wrapper = create_tree_wrapper(tree, source.to_string());
    assert_eq!(
        action_list_from(&wrapper),
        Ok(vec![RootAction {
            common: plain(ActionState::NotStarted, "a"),
            story: None,
            children: None
        }])
    );
}

#[test]
fn node_text_is_cut_at_bytes() {
    let source = "a\u{e9}\u{3042}b";
    let wide = node(NodeKind::Name, 1, 6, Vec::new());
    assert!(wide.is_well_formed(source));
    assert_eq!(get_node_text(&wide, source), "\u{e9}\u{3042}");
    assert_eq!(wide.text(source), "\u{e9}\u{3042}");
}

#[test]
fn ranges_that_are_no_text_are_refused() {
    let source = "a\u{e9}b";
    assert!(node(NodeKind::Name, 0, 4, Vec::new()).is_well_formed(source));
    assert!(node(NodeKind::Name, 4, 4, Vec::new()).is_well_formed(source));
    assert!(!node(NodeKind::Name, 0, 5, Vec::new()).is_well_formed(source));
    assert!(!node(NodeKind::Name, 2, 1, Vec::new()).is_well_formed(source));
    assert!(!node(NodeKind::Name, 0, 2, Vec::new()).is_well_formed(source));
    assert!(!node(NodeKind::Name, 2, 4, Vec::new()).is_well_formed(source));
    let inner = node(NodeKind::Name, 2, 3, Vec::new());
    assert!(!node(NodeKind::CoreAction, 0, 4, vec![inner]).is_well_formed(source));
}

#[test]
fn kinds_are_read_from_every_spelling() {
    assert_eq!(NodeKind::from_name("root_action"), NodeKind::RootAction);
    assert_eq!(NodeKind::from_name("core_action"), NodeKind::CoreAction);
    assert_eq!(NodeKind::from_name("story"), NodeKind::Story);
    assert_eq!(NodeKind::from_name("child_action_list"), NodeKind::ChildActionList);
    assert_eq!(NodeKind::from_name("child_actions"), NodeKind::ChildActionList);
    assert_eq!(NodeKind::from_name("child_action"), NodeKind::ChildAction);
    assert_eq!(NodeKind::from_name("grandchild_action_list"), NodeKind::GrandChildActionList);
    assert_eq!(NodeKind::from_name("grandchild_action"), NodeKind::GrandChildAction);
    assert_eq!(NodeKind::from_name("grand_child_action"), NodeKind::GrandChildAction);
    assert_eq!(
        NodeKind::from_name("great_grandchild_action_list"),
        NodeKind::GreatGrandChildActionList
    );
    assert_eq!(
        NodeKind::from_name("great_grand_child_actions"),
        NodeKind::GreatGrandChildActionList
    );
    assert_eq!(NodeKind::from_name("great_grandchild_action"), NodeKind::GreatGrandChildAction);
    assert_eq!(NodeKind::from_name("great_grand_child_action"), NodeKind::GreatGrandChildAction);
    assert_eq!(
        NodeKind::from_name("double_great_grandchild_action_list"),
        NodeKind::GreatGreatGrandChildActionList
    );
    assert_eq!(
        NodeKind::from_name("great_great_grand_child_actions"),
        NodeKind::GreatGreatGrandChildActionList
    );
    assert_eq!(
        NodeKind::from_name("double_great_grandchild_action"),
        NodeKind::GreatGreatGrandChildAction
    );
    assert_eq!(
        NodeKind::from_name("great_great_grand_child_action"),
        NodeKind::GreatGreatGrandChildAction
    );
    assert_eq!(NodeKind::from_name("leaf_action_list"), NodeKind::LeafActionList);
    assert_eq!(NodeKind::from_name("leaf_actions"), NodeKind::LeafActionList);
    assert_eq!(NodeKind::from_name("leaf_action"), NodeKind::LeafAction);
    assert_eq!(NodeKind::from_name("state"), NodeKind::State);
    assert_eq!(NodeKind::from_name("not_started"), NodeKind::NotStarted);
    assert_eq!(NodeKind::from_name("completed"), NodeKind::Completed);
    assert_eq!(NodeKind::from_name("in_progress"), NodeKind::InProgress);
    assert_eq!(NodeKind::from_name("blocked"), NodeKind::Blocked);
    assert_eq!(NodeKind::from_name("cancelled"), NodeKind::Cancelled);
    assert_eq!(NodeKind::from_name("name"), NodeKind::Name);
    assert_eq!(NodeKind::from_name("description"), NodeKind::Description);
    assert_eq!(NodeKind::from_name("priority"), NodeKind::Priority);
    assert_eq!(NodeKind::from_name("context_list"), NodeKind::ContextList);
    assert_eq!(NodeKind::from_name("id"), NodeKind::Id);
    assert_eq!(NodeKind::from_name("action"), NodeKind::Id);
    assert_eq!(NodeKind::from_name("ERROR"), NodeKind::Other);
    assert_eq!(NodeKind::from_name("("), NodeKind::Other);
    assert_eq!(NodeKind::from_name(""), NodeKind::Other);
    assert_eq!(NodeKind::from_name("names"), NodeKind::Other);
}
