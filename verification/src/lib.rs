//! An outline of actions: from its text to a typed model of six levels, and
//! from the model back to text or to a generic value.

use vstd::prelude::*;

pub mod command;
pub mod config;
pub mod convert;
pub mod cst;
pub mod datetime;
pub mod entities;
pub mod export;
pub mod ident;
pub mod laws;
pub mod serialize;
pub mod text;
pub mod treesitter;
pub mod value;

use crate::convert::{action_list_from, document_of, list_result_view};
use crate::cst::create_tree_wrapper;
use crate::entities::{ActionList, ConvertError, RootView};
use crate::export::{action_list_to_value, document_value};
use crate::treesitter::{get_action_list_tree, outline_of};
use crate::value::{entry_views, merge_entries, merged, Value, ValueView};

verus! {

/// The outline that `text` holds: that of its syntax tree; a parse failure
/// where it has none.
pub open spec fn outline_document(text: Seq<char>) -> Result<Seq<RootView>, ConvertError> {
    match outline_of(text) {
        Some(tree) => document_of(tree, text),
        None => Err(ConvertError::ParseFailure),
    }
}

/// Reads the text of an outline into the typed model. The options are not
/// looked at.
pub fn get_action_list_struct(_opts: &Value, actions: &str) -> (result: Result<
    ActionList,
    ConvertError,
>)
    ensures
        list_result_view(result) == outline_document(actions@),
{
    match get_action_list_tree(actions) {
        Ok(tree) => {
            let wrapper = create_tree_wrapper(tree, actions.to_string());
            action_list_from(&wrapper)
        },
        Err(error) => Err(error),
    }
}

/// The view of the result of reading an outline into a generic value.
pub open spec fn value_result_view(result: Result<Value, ConvertError>) -> Result<
    ValueView,
    ConvertError,
> {
    match result {
        Ok(value) => Ok(value@),
        Err(error) => Err(error),
    }
}

/// Reads the text of an outline into a generic value: an array with one
/// object for each root action. The options are not looked at.
pub fn get_action_list(_opts: &Value, actions: String) -> (result: Result<Value, ConvertError>)
    ensures
        value_result_view(result) == match outline_document(actions@) {
            Ok(list) => Ok(document_value(list)),
            Err(error) => Err(error),
        },
{
    match get_action_list_struct(_opts, actions.as_str()) {
        Ok(list) => Ok(action_list_to_value(&list)),
        Err(error) => Err(error),
    }
}

/// Merges two sets of options into one object, the right one first: an
/// entry of `right` replaces what `left` holds under its key, and a null
/// removes the key. It always succeeds.
pub fn merge_hashmaps(left: &Vec<(String, Value)>, right: &Vec<(String, Value)>) -> (result: Result<
    Value,
    String,
>)
    ensures
        result matches Ok(value) && value@ == ValueView::Object(
            merged(entry_views(left@), entry_views(right@)),
        ),
{
    let value = Value::Object(merge_entries(left, right));
    proof {
        value.lemma_view();
    }
    Ok(value)
}

} // verus!
