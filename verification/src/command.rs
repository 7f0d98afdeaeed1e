//! What the merged options say: the command to run, how much to report, and
//! where the files of a user lie.

use vstd::prelude::*;
use vstd::string::*;
use crate::text::str_eq;
use crate::value::{entry_views, Value, ValueView};

verus! {

/// The value of the first entry of `entries` under `key`, from index `from`
/// on.
pub open spec fn lookup_from(
    entries: Seq<(Seq<char>, ValueView)>,
    key: Seq<char>,
    from: int,
) -> Option<
    ValueView,
>
    decreases entries.len() - from,
{
    if from < 0 || from >= entries.len() {
        None
    } else if entries[from].0 == key {
        Some(entries[from].1)
    } else {
        lookup_from(entries, key, from + 1)
    }
}

/// The value that an object holds under `key`: that of its first entry with
/// the key. `None` where it has none, or where `value` is no object.
pub open spec fn field(value: ValueView, key: Seq<char>) -> Option<ValueView> {
    match value {
        ValueView::Object(entries) => lookup_from(entries, key, 0),
        _ => None,
    }
}

impl Value {
    /// The value that an object holds under `key`.
    pub fn get(&self, key: &str) -> (found: Option<&Value>)
        ensures
            match found {
                Some(v) => Some(v@),
                None => None,
            } == field(self@, key@),
    {
        proof {
            self.lemma_view();
        }
        match self {
            Value::Object(entries) => {
                let ghost views = entry_views(entries@);
                let mut i: usize = 0;
                while i < entries.len()
                    invariant
                        i <= entries.len(),
                        views == entry_views(entries@),
                        self@ == ValueView::Object(views),
                        lookup_from(views, key@, 0) == lookup_from(views, key@, i as int),
                    decreases entries.len() - i,
                {
                    if str_eq(entries[i].0.as_str(), key) {
                        return Some(&entries[i].1);
                    }
                    i = i + 1;
                }
                None
            },
            _ => None,
        }
    }
}

/// What running the command of `opts` reports. Nothing where the options
/// name no command. The command `read` reads every action where its flag
/// `all` is set, else specific ones; any other command is unknown.
pub open spec fn subcommand_message(opts: ValueView) -> Option<Seq<char>> {
    match field(opts, "command"@) {
        Some(command) => match field(command, "name"@) {
            Some(ValueView::String(name)) => if name == "read"@ {
                if field(command, "all"@) == Some(ValueView::Bool(true)) {
                    Some("Reading all actions"@)
                } else {
                    Some("Reading specific actions"@)
                }
            } else {
                Some("Unknown command"@)
            },
            _ => None,
        },
        None => None,
    }
}

/// Decides what running the command of the options reports.
pub fn process_subcommand(opts: &Value) -> (message: Option<String>)
    ensures
        match message {
            Some(m) => Some(m@),
            None => None,
        } == subcommand_message(opts@),
{
    match opts.get("command") {
        Some(command) => match command.get("name") {
            Some(Value::String(name)) => {
                if str_eq(name.as_str(), "read") {
                    let all = match command.get("all") {
                        Some(Value::Bool(flag)) => *flag,
                        _ => false,
                    };
                    if all {
                        Some(String::from_str("Reading all actions"))
                    } else {
                        Some(String::from_str("Reading specific actions"))
                    }
                } else {
                    Some(String::from_str("Unknown command"))
                }
            },
            _ => None,
        },
        None => None,
    }
}

/// How much the options ask to report: the number under `debug`, 0 where
/// there is none.
pub open spec fn debug_level(opts: ValueView) -> u64 {
    match field(opts, "debug"@) {
        Some(ValueView::Number(level)) => level,
        _ => 0,
    }
}

/// Reads how much the options ask to report.
pub fn get_debug_level(opts: &Value) -> (level: u64)
    ensures
        level == debug_level(opts@),
{
    match opts.get("debug") {
        Some(Value::Number(level)) => *level,
        _ => 0,
    }
}

/// Where the settings lie below the directory of a user's configuration.
pub fn default_config_location(config_dir: &str) -> (path: String)
    ensures
        path@ == config_dir@ + "/cliche/settings.toml"@,
{
    let mut path = String::from_str(config_dir);
    path.append("/cliche/settings.toml");
    path
}

/// Where the active actions lie below the directory of a user's data.
pub fn default_action_location(data_dir: &str) -> (path: String)
    ensures
        path@ == data_dir@ + "/clhd/active.action"@,
{
    let mut path = String::from_str(data_dir);
    path.append("/clhd/active.action");
    path
}

} // verus!
