use cliche::entities::{
    ActionState, ChildAction, CommonActionProperties, ConvertError, GrandChildAction,
    GreatGrandChildAction, GreatGreatGrandChildAction, LeafAction, RootAction,
};
use cliche::cst::NodeKind;
use cliche::serialize::action_list_to_string;
use cliche::treesitter::get_action_list_tree;
use cliche::value::Value;
use cliche::{get_action_list, get_action_list_struct};
use tree_sitter_actions::get_test_data;

fn plain(state: ActionState, name: &str) -> CommonActionProperties {
    CommonActionProperties {
        state,
        name: name.to_string(),
        description: None,
        priority: None,
        context_list: None,
        id: None,
        do_date_time: None,
        completed_date_time: None,
    }
}

fn root(state: ActionState, name: &str) -> RootAction {
    RootAction { common: plain(state, name), story: None, children: None }
}

fn read(text: &str) -> Result<Vec<RootAction>, ConvertError> {
    get_action_list_struct(&Value::Object(Vec::new()), text)
}

fn six_levels() -> Vec<RootAction> {
    let leaf = LeafAction { common: plain(ActionState::NotStarted, "f") };
    let fifth = GreatGreatGrandChildAction {
        common: plain(ActionState::Cancelled, "e"),
        leaf_children: Some(vec![leaf]),
    };
    let fourth = GreatGrandChildAction {
        common: plain(ActionState::BlockedorAwaiting, "d"),
        great_great_grandchildren: Some(vec![fifth]),
    };
    let third = GrandChildAction {
        common: plain(ActionState::InProgress, "c"),
        great_grandchildren: Some(vec![fourth]),
    };
    let second = ChildAction {
        common: plain(ActionState::Completed, "b"),
        grandchildren: Some(vec![third]),
    };
    vec![RootAction {
        common: plain(ActionState::NotStarted, "a"),
        story: None,
        children: Some(vec![second]),
    }]
}

#[test]
fn completed_line_gives_one_root_action() {
    assert_eq!(read("(x) test\n"), Ok(vec![root(ActionState::Completed, "test")]));
}

#[test]
fn each_state_character_gives_its_state() {
    assert_eq!(read("( ) name"), Ok(vec![root(ActionState::NotStarted, "name")]));
    assert_eq!(read("(x) name"), Ok(vec![root(ActionState::Completed, "name")]));
    assert_eq!(read("(-) name"), Ok(vec![root(ActionState::InProgress, "name")]));
    assert_eq!(read("(=) name"), Ok(vec![root(ActionState::BlockedorAwaiting, "name")]));
    assert_eq!(read("(_) name"), Ok(vec![root(ActionState::Cancelled, "name")]));
}

#[test]
fn name_is_trimmed() {
    assert_eq!(read("(x)    two words   \n\n"), Ok(vec![root(ActionState::Completed, "two words")]));
}

#[test]
fn bad_priority_does_not_abort() {
    let list = read("(x) name !abc").unwrap();
    assert_eq!(list, vec![root(ActionState::Completed, "name")]);
    assert_eq!(list[0].common.priority, None);
}

#[test]
fn line_without_context_tokens_has_no_context_list() {
    let list = read("(x) name").unwrap();
    assert_eq!(list[0].common.context_list, None);
}

#[test]
fn empty_text_is_an_empty_outline() {
    assert_eq!(read(""), Ok(Vec::new()));
}

#[test]
fn text_without_an_action_is_passed_over() {
    assert_eq!(read("garbage"), Ok(Vec::new()));
}

#[test]
fn roots_come_in_source_order() {
    assert_eq!(
        read("(-) a\n(=) b\n(_) c\n( ) d"),
        Ok(vec![
            root(ActionState::InProgress, "a"),
            root(ActionState::BlockedorAwaiting, "b"),
            root(ActionState::Cancelled, "c"),
            root(ActionState::NotStarted, "d"),
        ])
    );
}

#[test]
fn six_levels_are_read() {
    let text = "( ) a\n>(x) b\n>>(-) c\n>>>(=) d\n>>>>(_) e\n>>>>>( ) f\n";
    assert_eq!(read(text), Ok(six_levels()));
}

#[test]
fn six_levels_round_trip_with_their_markers() {
    let written = action_list_to_string(&six_levels());
    assert_eq!(written, "( ) a >(x) b >>(-) c >>>(=) d >>>>(_) e >>>>>( ) f\n");
    assert_eq!(read(&written), Ok(six_levels()));
}

#[test]
fn example_with_children_round_trips() {
    let text = get_test_data()["children"]["with_children"]["content"].clone();
    let list = read(&text).unwrap();
    assert_eq!(list.len(), 1);
    assert_eq!(list[0].common.name, "root test");
    let written = action_list_to_string(&list);
    assert_eq!(
        written,
        "( ) root test >( ) child action >>( ) grandchild action >>>( ) great grandchild action >>>>( ) double-great grandchild action >>>>>( ) Leaf action\n"
    );
    assert_eq!(read(&written), Ok(list));
}

#[test]
fn child_followed_by_second_root() {
    let text = get_test_data()["children"]["with_children_and_second_root"]["content"].clone();
    let expected = vec![
        RootAction {
            common: plain(ActionState::NotStarted, "test"),
            story: None,
            children: Some(vec![ChildAction {
                common: plain(ActionState::NotStarted, "Child Action"),
                grandchildren: None,
            }]),
        },
        root(ActionState::NotStarted, "Another Root"),
    ];
    assert_eq!(read(&text), Ok(expected));
}

#[test]
fn no_children_is_none_not_an_empty_list() {
    let list = read("(x) test\n").unwrap();
    assert_eq!(list[0].children, None);
    assert_ne!(list[0].children, Some(Vec::new()));
}

#[test]
fn story_is_read_as_it_stands() {
    let list = read("(x) story test *Parent Story\n").unwrap();
    assert_eq!(list.len(), 1);
    assert_eq!(list[0].common.name, "story test");
    assert_eq!(list[0].story, Some("*Parent Story\n".to_string()));
}

#[test]
fn description_is_the_trimmed_text_of_its_node() {
    let list = read("(x) long $ with description\n").unwrap();
    assert_eq!(list[0].common.name, "long");
    assert_eq!(list[0].common.description, Some("$ with description".to_string()));
}

#[test]
fn dates_are_never_read() {
    let list = read("(x) context test @2019-01-01 12:01 AM D120\n").unwrap();
    assert_eq!(list[0].common.do_date_time, None);
    let list = read("(x) context test %2019-01-01 12:01 AM\n").unwrap();
    assert_eq!(list[0].common.completed_date_time, None);
}

#[test]
fn tree_has_kinds_ranges_and_children() {
    let tree = get_action_list_tree("(x) test\n").unwrap();
    assert_eq!(tree.kind, NodeKind::Other);
    assert_eq!(tree.start, 0);
    assert_eq!(tree.children.len(), 1);
    let action = &tree.children[0];
    assert_eq!(action.kind, NodeKind::RootAction);
    assert_eq!(action.children.len(), 1);
    let core = &action.children[0];
    assert_eq!(core.kind, NodeKind::CoreAction);
    assert_eq!(core.children.len(), 2);
    let state = &core.children[0];
    assert_eq!((state.kind, state.start, state.end), (NodeKind::State, 0, 3));
    assert_eq!(state.children.len(), 3);
    assert_eq!(state.children[1].kind, NodeKind::Completed);
    assert_eq!((state.children[1].start, state.children[1].end), (1, 2));
    let name = &core.children[1];
    assert_eq!(name.kind, NodeKind::Name);
    assert_eq!(name.start, 3);
    assert!(tree.is_well_formed("(x) test\n"));
}

#[test]
fn tree_of_text_with_wide_characters_is_well_formed() {
    let text = "(x) caf\u{e9} \u{3042}\n";
    let tree = get_action_list_tree(text).unwrap();
    assert!(tree.is_well_formed(text));
    assert_eq!(read(text), Ok(vec![root(ActionState::Completed, "caf\u{e9} \u{3042}")]));
}

#[test]
fn generic_value_of_a_line() {
    let value = get_action_list(&Value::Object(Vec::new()), "(x) test\n".to_string()).unwrap();
    let expected = Value::Array(vec![Value::Object(vec![(
        "common".to_string(),
        Value::Object(vec![
            ("state".to_string(), Value::String("Completed".to_string())),
            ("name".to_string(), Value::String("test".to_string())),
        ]),
    )])]);
    assert_eq!(value, expected);
}
