use cliche::command::{
    default_action_location, default_config_location, get_debug_level, process_subcommand,
};
use cliche::entities::ConvertError;
use cliche::value::Value;

fn entry(key: &str, value: Value) -> (String, Value) {
    (key.to_string(), value)
}

fn command(name: Value, all: Option<Value>) -> Value {
    let mut fields = vec![entry("name", name)];
    if let Some(flag) = all {
        fields.push(entry("all", flag));
    }
    Value::Object(vec![entry("debug", Value::Number(0)), entry("command", Value::Object(fields))])
}

#[test]
fn read_command_reports_what_it_reads() {
    let all = command(Value::String("read".to_string()), Some(Value::Bool(true)));
    assert_eq!(process_subcommand(&all), Some("Reading all actions".to_string()));
    let some = command(Value::String("read".to_string()), Some(Value::Bool(false)));
    assert_eq!(process_subcommand(&some), Some("Reading specific actions".to_string()));
    let unset = command(Value::String("read".to_string()), None);
    assert_eq!(process_subcommand(&unset), Some("Reading specific actions".to_string()));
    let odd = command(Value::String("read".to_string()), Some(Value::Number(1)));
    assert_eq!(process_subcommand(&odd), Some("Reading specific actions".to_string()));
}

#[test]
fn other_commands_are_unknown() {
    let other = command(Value::String("write".to_string()), Some(Value::Bool(true)));
    assert_eq!(process_subcommand(&other), Some("Unknown command".to_string()));
}

#[test]
fn options_without_a_named_command_report_nothing() {
    assert_eq!(process_subcommand(&Value::Object(Vec::new())), None);
    assert_eq!(process_subcommand(&Value::Null), None);
    assert_eq!(process_subcommand(&command(Value::Number(3), None)), None);
    let nameless = Value::Object(vec![entry("command", Value::Object(Vec::new()))]);
    assert_eq!(process_subcommand(&nameless), None);
}

#[test]
fn debug_level_is_the_number_under_its_key() {
    let opts = Value::Object(vec![entry("debug", Value::Number(2))]);
    assert_eq!(get_debug_level(&opts), 2);
    assert_eq!(get_debug_level(&Value::Object(Vec::new())), 0);
    let text = Value::Object(vec![entry("debug", Value::String("2".to_string()))]);
    assert_eq!(get_debug_level(&text), 0);
    assert_eq!(get_debug_level(&Value::Array(Vec::new())), 0);
}

#[test]
fn first_entry_of_a_key_is_found() {
    let object = Value::Object(vec![
        entry("a", Value::Number(1)),
        entry("b", Value::Number(2)),
        entry("a", Value::Number(3)),
    ]);
    assert_eq!(object.get("a"), Some(&Value::Number(1)));
    assert_eq!(object.get("b"), Some(&Value::Number(2)));
    assert_eq!(object.get("c"), None);
    assert_eq!(Value::Number(1).get("a"), None);
}

#[test]
fn default_locations_lie_below_the_user_directories() {
    assert_eq!(default_config_location("/home/u/.config"), "/home/u/.config/cliche/settings.toml");
    assert_eq!(default_action_location("/home/u/.local/share"), "/home/u/.local/share/clhd/active.action");
    assert_eq!(default_config_location(""), "/cliche/settings.toml");
}

#[test]
fn errors_say_what_went_wrong() {
    assert_eq!(ConvertError::ParseFailure.to_string(), "Failed to parse tree");
    assert_eq!(ConvertError::MissingCoreProperties.to_string(), "Missing core action properties");
    assert_eq!(ConvertError::UnknownActionState.to_string(), "Unknown or malformed action state");
}
