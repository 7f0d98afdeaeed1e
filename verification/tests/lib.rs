use cliche::entities::{ActionState, CommonActionProperties, RootAction};
use cliche::get_action_list_struct;
use cliche::value::Value;
use tree_sitter_actions::get_test_data;

// The example files of the grammar are the fixtures here: what the grammar
// calls a minimal outline has to come out as one root action.
#[test]
fn convert_basic_action_from_examples() {
    let test_action = get_test_data()["children"]["minimal"]["content"].clone();
    let test_config_str = r#"{}"#;
    let parsed: serde_json::Value = serde_json::from_str(test_config_str).expect("unable to conver");
    assert!(parsed.as_object().expect("unable to conver").is_empty());
    let test_config = Value::Object(Vec::new());

    let derived_struct = get_action_list_struct(&test_config, &test_action).unwrap();
    let expected_struct = vec![RootAction {
        common: CommonActionProperties {
            state: ActionState::NotStarted,
            name: "test".to_string(),
            description: None,
            priority: None,
            context_list: None,
            id: None,
            do_date_time: None,
            completed_date_time: None,
        },
        story: None,
        children: None,
    }];

    assert_eq!(derived_struct, expected_struct);
}
