use cliche::datetime::{ActionDateTime, ExtendedDateTime, Recurrance};
use cliche::entities::{
    ActionState, ChildAction, CommonActionProperties, GrandChildAction, LeafAction, RootAction,
};
use cliche::export::action_list_to_value;
use cliche::serialize::action_list_to_string;
use cliche::value::{holds_key, merge_entries, Value};
use cliche::merge_hashmaps;

fn plain(state: ActionState, name: &str) -> CommonActionProperties {
    CommonActionProperties {
        state,
        name: name.to_string(),
        description: None,
        priority: None,
        context_list: None,
        id: None,
        do_date_time: None,
        completed_date_time: None,
    }
}

fn full() -> CommonActionProperties {
    CommonActionProperties {
        state: ActionState::Completed,
        name: "name".to_string(),
        description: Some("desc".to_string()),
        priority: Some(3),
        context_list: Some(vec!["a".to_string(), "@b".to_string()]),
        id: Some(0x01951111_cfa6_718d_b303_d7107f4005b3u128),
        do_date_time: ActionDateTime::new(2019, 1, 1, 0, 1),
        completed_date_time: ActionDateTime::new(2019, 3, 1, 2, 1),
    }
}

fn text(s: &str) -> Value {
    Value::String(s.to_string())
}

fn entry(key: &str, value: Value) -> (String, Value) {
    (key.to_string(), value)
}

#[test]
fn state_characters() {
    assert_eq!(ActionState::NotStarted.to_string(), " ");
    assert_eq!(ActionState::Completed.to_string(), "x");
    assert_eq!(ActionState::InProgress.to_string(), "-");
    assert_eq!(ActionState::BlockedorAwaiting.to_string(), "=");
    assert_eq!(ActionState::Cancelled.to_string(), "_");
    assert_eq!(ActionState::default(), ActionState::NotStarted);
}

#[test]
fn state_names() {
    assert_eq!(ActionState::NotStarted.name(), "NotStarted");
    assert_eq!(ActionState::Completed.name(), "Completed");
    assert_eq!(ActionState::InProgress.name(), "InProgress");
    assert_eq!(ActionState::BlockedorAwaiting.name(), "BlockedorAwaiting");
    assert_eq!(ActionState::Cancelled.name(), "Cancelled");
}

#[test]
fn line_with_state_and_name_only() {
    assert_eq!(plain(ActionState::NotStarted, "test").to_string(), "( ) test");
    assert_eq!(plain(ActionState::Completed, "").to_string(), "(x) ");
}

#[test]
fn line_with_every_field_in_order() {
    assert_eq!(
        full().to_string(),
        "(x) name $desc !3 +a +b @2019-01-01T00:01 %2019-03-01T02:01 #01951111-cfa6-718d-b303-d7107f4005b3"
    );
}

#[test]
fn each_optional_field_alone() {
    let mut common = plain(ActionState::InProgress, "n");
    common.description = Some("d".to_string());
    assert_eq!(common.to_string(), "(-) n $d");
    let mut common = plain(ActionState::InProgress, "n");
    common.priority = Some(0);
    assert_eq!(common.to_string(), "(-) n !0");
    let mut common = plain(ActionState::InProgress, "n");
    common.context_list = Some(vec!["@@home".to_string()]);
    assert_eq!(common.to_string(), "(-) n +home");
    let mut common = plain(ActionState::InProgress, "n");
    common.do_date_time = ActionDateTime::new(7, 12, 31, 23, 59);
    assert_eq!(common.to_string(), "(-) n @0007-12-31T23:59");
    let mut common = plain(ActionState::InProgress, "n");
    common.completed_date_time = ActionDateTime::new(9999, 2, 28, 0, 0);
    assert_eq!(common.to_string(), "(-) n %9999-02-28T00:00");
    let mut common = plain(ActionState::InProgress, "n");
    common.id = Some(0xabcdef);
    assert_eq!(common.to_string(), "(-) n #00000000-0000-0000-0000-000000abcdef");
    let mut common = plain(ActionState::InProgress, "n");
    common.id = Some(u128::MAX);
    assert_eq!(common.to_string(), "(-) n #ffffffff-ffff-ffff-ffff-ffffffffffff");
}

#[test]
fn empty_context_list_writes_nothing() {
    let mut common = plain(ActionState::Completed, "n");
    common.context_list = Some(Vec::new());
    assert_eq!(common.to_string(), "(x) n");
}

#[test]
fn root_with_story_and_children() {
    let action = RootAction {
        common: plain(ActionState::NotStarted, "r"),
        story: Some("story".to_string()),
        children: Some(vec![
            ChildAction {
                common: plain(ActionState::Completed, "c1"),
                grandchildren: Some(vec![GrandChildAction {
                    common: plain(ActionState::InProgress, "g"),
                    great_grandchildren: None,
                }]),
            },
            ChildAction { common: plain(ActionState::Cancelled, "c2"), grandchildren: None },
        ]),
    };
    assert_eq!(action.to_string(), "( ) r *story >(x) c1 >>(-) g >(_) c2");
    let list = vec![action, RootAction {
        common: plain(ActionState::BlockedorAwaiting, "s"),
        story: None,
        children: Some(Vec::new()),
    }];
    assert_eq!(action_list_to_string(&list), "( ) r *story >(x) c1 >>(-) g >(_) c2\n(=) s\n");
    assert_eq!(action_list_to_string(&Vec::new()), "");
}

#[test]
fn leaf_is_its_line() {
    assert_eq!(LeafAction { common: plain(ActionState::Completed, "l") }.to_string(), "(x) l");
}

#[test]
fn timestamps_are_checked_against_the_calendar() {
    assert!(ActionDateTime::new(2020, 2, 29, 0, 0).is_some());
    assert!(ActionDateTime::new(2019, 2, 29, 0, 0).is_none());
    assert!(ActionDateTime::new(1900, 2, 29, 0, 0).is_none());
    assert!(ActionDateTime::new(2000, 2, 29, 0, 0).is_some());
    assert!(ActionDateTime::new(0, 2, 29, 0, 0).is_some());
    assert!(ActionDateTime::new(2019, 4, 31, 0, 0).is_none());
    assert!(ActionDateTime::new(2019, 4, 30, 0, 0).is_some());
    assert!(ActionDateTime::new(2019, 12, 31, 23, 59).is_some());
    assert!(ActionDateTime::new(2019, 13, 1, 0, 0).is_none());
    assert!(ActionDateTime::new(2019, 0, 1, 0, 0).is_none());
    assert!(ActionDateTime::new(2019, 1, 0, 0, 0).is_none());
    assert!(ActionDateTime::new(2019, 1, 32, 0, 0).is_none());
    assert!(ActionDateTime::new(2019, 1, 1, 24, 0).is_none());
    assert!(ActionDateTime::new(2019, 1, 1, 0, 60).is_none());
    assert!(ActionDateTime::new(10000, 1, 1, 0, 0).is_none());
}

#[test]
fn timestamp_text_and_fields() {
    let stamp = ActionDateTime::new(2024, 2, 29, 9, 5).unwrap();
    assert_eq!(stamp.to_string(), "2024-02-29T09:05");
    assert_eq!(
        (stamp.year(), stamp.month(), stamp.day(), stamp.hour(), stamp.minute()),
        (2024, 2, 29, 9, 5)
    );
    assert_eq!(ActionDateTime::new(0, 1, 1, 0, 0).unwrap().to_string(), "0000-01-01T00:00");
    let extended = ExtendedDateTime { date: stamp, recurrance: Some(Recurrance::Weekly) };
    assert_eq!(extended.date, stamp);
    assert_ne!(extended.recurrance, Some(Recurrance::Never));
}

#[test]
fn absent_fields_have_no_key() {
    let list = vec![RootAction {
        common: plain(ActionState::Completed, "test"),
        story: None,
        children: None,
    }];
    let expected = Value::Array(vec![Value::Object(vec![entry(
        "common",
        Value::Object(vec![entry("state", text("Completed")), entry("name", text("test"))]),
    )])]);
    assert_eq!(action_list_to_value(&list), expected);
}

#[test]
fn every_field_has_its_key_in_order() {
    let expected = Value::Object(vec![
        entry("state", text("Completed")),
        entry("name", text("name")),
        entry("description", text("desc")),
        entry("priority", Value::Number(3)),
        entry("context_list", Value::Array(vec![text("a"), text("@b")])),
        entry("id", text("01951111-cfa6-718d-b303-d7107f4005b3")),
        entry("do_date_time", text("2019-01-01T00:01")),
        entry("completed_date_time", text("2019-03-01T02:01")),
    ]);
    assert_eq!(full().to_value(), expected);
}

#[test]
fn children_are_nested_arrays() {
    let action = RootAction {
        common: plain(ActionState::NotStarted, "r"),
        story: Some("s".to_string()),
        children: Some(vec![ChildAction {
            common: plain(ActionState::Completed, "c"),
            grandchildren: Some(Vec::new()),
        }]),
    };
    let common = |state: &str, name: &str| {
        entry("common", Value::Object(vec![entry("state", text(state)), entry("name", text(name))]))
    };
    let expected = Value::Object(vec![
        common("NotStarted", "r"),
        entry("story", text("s")),
        entry(
            "children",
            Value::Array(vec![Value::Object(vec![
                common("Completed", "c"),
                entry("grandchildren", Value::Array(Vec::new())),
            ])]),
        ),
    ]);
    assert_eq!(action.to_value(), expected);
    assert_eq!(action_list_to_value(&Vec::new()), Value::Array(Vec::new()));
}

#[test]
fn copy_of_a_value_is_equal() {
    let value = Value::Object(vec![
        entry("a", Value::Array(vec![Value::Null, Value::Bool(true), Value::Number(7)])),
        entry("b", Value::Object(vec![entry("c", text("d"))])),
    ]);
    assert_eq!(value.clone(), value);
    assert!(Value::Null.is_null());
    assert!(!Value::Bool(false).is_null());
}

#[test]
fn right_options_win() {
    let left = vec![entry("a", Value::Number(1)), entry("b", Value::Number(2))];
    let right = vec![entry("b", Value::Number(3)), entry("c", text("x"))];
    assert_eq!(
        merge_hashmaps(&left, &right),
        Ok(Value::Object(vec![
            entry("a", Value::Number(1)),
            entry("b", Value::Number(3)),
            entry("c", text("x")),
        ]))
    );
}

#[test]
fn null_removes_a_key() {
    let left = vec![entry("a", Value::Number(1)), entry("b", Value::Number(2))];
    let right = vec![entry("a", Value::Null), entry("z", Value::Null)];
    assert_eq!(merge_entries(&left, &right), vec![entry("b", Value::Number(2))]);
}

#[test]
fn last_entry_of_a_key_settles_it() {
    let left = Vec::new();
    let right = vec![
        entry("k", Value::Number(1)),
        entry("k", Value::Number(2)),
        entry("j", Value::Number(5)),
        entry("j", Value::Null),
    ];
    assert_eq!(merge_entries(&left, &right), vec![entry("k", Value::Number(2))]);
    assert_eq!(merge_hashmaps(&Vec::new(), &Vec::new()), Ok(Value::Object(Vec::new())));
}

#[test]
fn keys_are_found_from_an_index_on() {
    let entries = vec![entry("a", Value::Null), entry("b", Value::Null)];
    assert!(holds_key(&entries, 0, &"a".to_string()));
    assert!(!holds_key(&entries, 1, &"a".to_string()));
    assert!(holds_key(&entries, 1, &"b".to_string()));
    assert!(!holds_key(&entries, 2, &"b".to_string()));
    assert!(!holds_key(&entries, 0, &"c".to_string()));
}
