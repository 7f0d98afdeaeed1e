//! Values of a configuration: a number, a path, or the options of a command.

use std::collections::HashMap;
use std::path::PathBuf;
use vstd::prelude::*;
use vstd::std_specs::convert::FromSpecImpl;

verus! {

/// `std::path::PathBuf`, carried through as it is.
#[verifier::external_type_specification]
#[verifier::external_body]
pub struct ExPathBuf(std::path::PathBuf);

/// Calls `PathBuf::clone`. The contract claims that the copy is the same
/// path.
#[verifier::external_body]
fn clone_path(path: &PathBuf) -> (copy: PathBuf)
    ensures
        copy == *path,
{
    path.clone()
}

/// The value of one option of a command.
#[derive(Clone)]
pub enum CommandHashValue {
    String(String),
    Bool(bool),
}

/// The value of one entry of a configuration.
pub enum ConfigHashValue {
    HashMap(HashMap<String, CommandHashValue>),
    Int(u8),
    Path(Option<PathBuf>),
}

impl ConfigHashValue {
    /// The path that the value holds; none where it holds something else.
    pub fn path(&self) -> (path: Option<PathBuf>)
        ensures
            path == match *self {
                ConfigHashValue::Path(p) => p,
                _ => None,
            },
    {
        match self {
            ConfigHashValue::Path(Some(p)) => Some(clone_path(p)),
            _ => None,
        }
    }

    /// The options that the value holds; none where it holds something else.
    pub fn options(&self) -> (options: HashMap<String, CommandHashValue>)
        ensures
            options@ == match *self {
                ConfigHashValue::HashMap(m) => m@,
                _ => Map::empty(),
            },
    {
        match self {
            ConfigHashValue::HashMap(map) => map.clone(),
            _ => HashMap::new(),
        }
    }
}

impl From<&ConfigHashValue> for u8 {
    fn from(value: &ConfigHashValue) -> (number: u8) {
        match value {
            ConfigHashValue::Int(n) => *n,
            _ => 0,
        }
    }
}

impl FromSpecImpl<&ConfigHashValue> for u8 {
    open spec fn obeys_from_spec() -> bool {
        true
    }

    /// The number that the value holds; 0 where it holds something else.
    open spec fn from_spec(value: &ConfigHashValue) -> u8 {
        match *value {
            ConfigHashValue::Int(n) => n,
            _ => 0,
        }
    }
}

impl CommandHashValue {
    /// The text that the value holds; the empty text where it holds
    /// something else.
    pub fn text(&self) -> (text: String)
        ensures
            text@ == match *self {
                CommandHashValue::String(s) => s@,
                _ => Seq::empty(),
            },
    {
        match self {
            CommandHashValue::String(s) => s.clone(),
            _ => String::new(),
        }
    }
}

impl From<&CommandHashValue> for bool {
    fn from(value: &CommandHashValue) -> (flag: bool) {
        match value {
            CommandHashValue::Bool(b) => *b,
            _ => false,
        }
    }
}

impl FromSpecImpl<&CommandHashValue> for bool {
    open spec fn obeys_from_spec() -> bool {
        true
    }

    /// The flag that the value holds; false where it holds something else.
    open spec fn from_spec(value: &CommandHashValue) -> bool {
        match *value {
            CommandHashValue::Bool(b) => b,
            _ => false,
        }
    }
}

} // verus!
