//! From the typed outline to a generic value. A field that the outline does
//! not have is left out: no key stands for it.

use vstd::prelude::*;
use vstd::string::*;
use crate::entities::{
    option_views_of, tags_view, views_of, ActionState, ChildAction, ChildView,
    CommonActionProperties, CommonView, GrandChildAction, GrandChildView,
    GreatGrandChildAction, GreatGrandChildView, GreatGreatGrandChildAction,
    GreatGreatGrandChildView, LeafAction, LeafView, RootAction, RootView,
};
use crate::ident::render_uuid;
use crate::serialize::{id_digits, stamp_digits};
use crate::text::string_views;
use crate::value::{entry_views, value_views, Value, ValueView};

verus! {

/// The name of a state.
pub open spec fn state_name(state: ActionState) -> Seq<char> {
    match state {
        ActionState::NotStarted => "NotStarted"@,
        ActionState::Completed => "Completed"@,
        ActionState::InProgress => "InProgress"@,
        ActionState::BlockedorAwaiting => "BlockedorAwaiting"@,
        ActionState::Cancelled => "Cancelled"@,
    }
}

/// The entry of a field that may be absent: one entry, or none.
pub open spec fn optional_entry(key: Seq<char>, value: Option<ValueView>) -> Seq<
    (Seq<char>, ValueView),
> {
    match value {
        Some(v) => seq![(key, v)],
        None => Seq::empty(),
    }
}

/// An optional text as a value.
pub open spec fn text_value(text: Option<Seq<char>>) -> Option<ValueView> {
    match text {
        Some(t) => Some(ValueView::String(t)),
        None => None,
    }
}

/// An optional number as a value.
pub open spec fn number_value(number: Option<usize>) -> Option<ValueView> {
    match number {
        Some(n) => Some(ValueView::Number(n as u64)),
        None => None,
    }
}

/// A list of texts as a list of values.
pub open spec fn text_values(texts: Seq<Seq<char>>) -> Seq<ValueView> {
    Seq::new(texts.len(), |i: int| ValueView::String(texts[i]))
}

/// An optional list of tags as a value.
pub open spec fn tags_value(tags: Option<Seq<Seq<char>>>) -> Option<ValueView> {
    match tags {
        Some(t) => Some(ValueView::Array(text_values(t))),
        None => None,
    }
}

/// The entries of the common properties: the state by its name and the name,
/// then each optional field that is there, in the order of the model.
pub open spec fn common_entries(common: CommonView) -> Seq<(Seq<char>, ValueView)> {
    seq![
        ("state"@, ValueView::String(state_name(common.state))),
        ("name"@, ValueView::String(common.name)),
    ] + optional_entry("description"@, text_value(common.description)) + optional_entry(
        "priority"@,
        number_value(common.priority),
    ) + optional_entry("context_list"@, tags_value(common.context_list)) + optional_entry(
        "id"@,
        text_value(id_digits(common.id)),
    ) + optional_entry("do_date_time"@, text_value(stamp_digits(common.do_date_time)))
        + optional_entry(
        "completed_date_time"@,
        text_value(stamp_digits(common.completed_date_time)),
    )
}

/// The common properties as a value: an object of their entries.
pub open spec fn common_value(common: CommonView) -> ValueView {
    ValueView::Object(common_entries(common))
}

/// Appends the entry of a field, if the field is there.
fn push_entry(entries: &mut Vec<(String, Value)>, key: &str, value: Option<Value>)
    ensures
        entry_views(final(entries)@) == entry_views(old(entries)@) + optional_entry(
            key@,
            match value {
                Some(v) => Some(v@),
                None => None,
            },
        ),
{
    match value {
        Some(v) => {
            let name = String::from_str(key);
            entries.push((name, v));
            assert(entry_views(entries@) =~= entry_views(old(entries)@) + seq![(key@, v@)]);
        },
        None => {
            assert(entry_views(entries@) =~= entry_views(old(entries)@) + Seq::empty());
        },
    }
}

/// The object that holds `entries`.
fn object_of(entries: Vec<(String, Value)>) -> (value: Value)
    ensures
        value@ == ValueView::Object(entry_views(entries@)),
{
    let value = Value::Object(entries);
    proof {
        value.lemma_view();
    }
    value
}

/// The array that holds `items`.
fn array_of(items: Vec<Value>) -> (value: Value)
    ensures
        value@ == ValueView::Array(value_views(items@)),
{
    let value = Value::Array(items);
    proof {
        value.lemma_view();
    }
    value
}

/// A text as a value.
fn string_of(text: String) -> (value: Value)
    ensures
        value@ == ValueView::String(text@),
{
    Value::String(text)
}

/// The value of an optional list of tags.
fn export_tags(tags: &Option<Vec<String>>) -> (value: Option<Value>)
    ensures
        option_value_view(value) == tags_value(tags_view(*tags)),
{
    match tags {
        Some(list) => {
            let mut items: Vec<Value> = Vec::new();
            let mut i: usize = 0;
            while i < list.len()
                invariant
                    i <= list.len(),
                    items@.len() == i,
                    forall|j: int|
                        0 <= j < i ==> (#[trigger] items@[j])@ == ValueView::String(list@[j]@),
                decreases list.len() - i,
            {
                items.push(string_of(list[i].clone()));
                i = i + 1;
            }
            let value = array_of(items);
            assert(value_views(items@) =~= text_values(string_views(list@)));
            Some(value)
        },
        None => None,
    }
}

impl ActionState {
    /// The name of the state.
    pub fn name(&self) -> (name: String)
        ensures
            name@ == state_name(*self),
    {
        match self {
            ActionState::NotStarted => String::from_str("NotStarted"),
            ActionState::Completed => String::from_str("Completed"),
            ActionState::InProgress => String::from_str("InProgress"),
            ActionState::BlockedorAwaiting => String::from_str("BlockedorAwaiting"),
            ActionState::Cancelled => String::from_str("Cancelled"),
        }
    }
}

impl CommonActionProperties {
    /// The common properties as a generic value.
    pub fn to_value(&self) -> (value: Value)
        ensures
            value@ == common_value(self@),
    {
        let mut entries: Vec<(String, Value)> = Vec::new();
        assert(entry_views(entries@) =~= Seq::empty());
        push_entry(&mut entries, "state", Some(string_of(self.state.name())));
        push_entry(&mut entries, "name", Some(string_of(self.name.clone())));
        assert(entry_views(entries@) =~= seq![
            ("state"@, ValueView::String(state_name(self.state))),
            ("name"@, ValueView::String(self.name@)),
        ]);
        match &self.description {
            Some(description) => push_entry(
                &mut entries,
                "description",
                Some(string_of(description.clone())),
            ),
            None => push_entry(&mut entries, "description", None),
        }
        match self.priority {
            Some(priority) => push_entry(
                &mut entries,
                "priority",
                Some(Value::Number(priority as u64)),
            ),
            None => push_entry(&mut entries, "priority", None),
        }
        push_entry(&mut entries, "context_list", export_tags(&self.context_list));
        match self.id {
            Some(id) => push_entry(&mut entries, "id", Some(string_of(render_uuid(id)))),
            None => push_entry(&mut entries, "id", None),
        }
        match &self.do_date_time {
            Some(stamp) => push_entry(
                &mut entries,
                "do_date_time",
                Some(string_of(stamp.to_string())),
            ),
            None => push_entry(&mut entries, "do_date_time", None),
        }
        match &self.completed_date_time {
            Some(stamp) => push_entry(
                &mut entries,
                "completed_date_time",
                Some(string_of(stamp.to_string())),
            ),
            None => push_entry(&mut entries, "completed_date_time", None),
        }
        object_of(entries)
    }
}

/// A level of the outline, as far as it is exported: the one rule by which
/// an action exports the actions below it is stated once, over this trait.
pub trait ToValue: View + Sized {
    /// An action of this level as a value.
    spec fn value_of(action: Self::V) -> ValueView;

    /// The action, and the actions below it, as a generic value.
    fn export(&self) -> (value: Value)
        ensures
            value@ == Self::value_of(self@),
    ;
}

/// A list of actions as a list of values.
pub open spec fn values_of<T: ToValue>(list: Seq<T::V>) -> Seq<ValueView> {
    Seq::new(list.len(), |i: int| T::value_of(list[i]))
}

/// An optional list of actions as a value: an array, where there is a list.
pub open spec fn list_value<T: ToValue>(list: Option<Seq<T::V>>) -> Option<ValueView> {
    match list {
        Some(items) => Some(ValueView::Array(values_of::<T>(items))),
        None => None,
    }
}

/// The view of an optional value.
pub open spec fn option_value_view(value: Option<Value>) -> Option<ValueView> {
    match value {
        Some(v) => Some(v@),
        None => None,
    }
}

/// The array of a list of actions.
fn export_actions<T: ToValue>(actions: &Vec<T>) -> (value: Value)
    ensures
        value@ == ValueView::Array(values_of::<T>(views_of(actions@))),
{
    let mut items: Vec<Value> = Vec::new();
    let mut i: usize = 0;
    while i < actions.len()
        invariant
            i <= actions.len(),
            items@.len() == i,
            forall|j: int| 0 <= j < i ==> (#[trigger] items@[j])@ == T::value_of(actions@[j]@),
        decreases actions.len() - i,
    {
        items.push(actions[i].export());
        i = i + 1;
    }
    let value = array_of(items);
    assert(value_views(items@) =~= values_of::<T>(views_of(actions@)));
    value
}

/// The value of an optional list of actions.
fn export_list<T: ToValue>(list: &Option<Vec<T>>) -> (value: Option<Value>)
    ensures
        option_value_view(value) == list_value::<T>(option_views_of(*list)),
{
    match list {
        Some(actions) => Some(export_actions(actions)),
        None => None,
    }
}

/// A leaf action as a value: an object with its common properties.
pub open spec fn leaf_value(action: LeafView) -> ValueView {
    ValueView::Object(seq![("common"@, common_value(action.common))])
}

impl LeafAction {
    /// The action as a generic value.
    pub fn to_value(&self) -> (value: Value)
        ensures
            value@ == leaf_value(self@),
    {
        let mut entries: Vec<(String, Value)> = Vec::new();
        assert(entry_views(entries@) =~= Seq::empty());
        push_entry(&mut entries, "common", Some(self.common.to_value()));
        assert(entry_views(entries@) =~= seq![("common"@, common_value(self.common@))]);
        object_of(entries)
    }
}

impl ToValue for LeafAction {
    open spec fn value_of(action: LeafView) -> ValueView {
        leaf_value(action)
    }

    fn export(&self) -> (value: Value) {
        self.to_value()
    }
}

/// A great-great-grandchild action as a value: an object with its common properties and,
/// where it has a list of them, its leaf actions.
pub open spec fn great_great_grandchild_value(action: GreatGreatGrandChildView) -> ValueView {
    ValueView::Object(
        seq![("common"@, common_value(action.common))] + optional_entry(
            "leaf_children"@,
            list_value::<LeafAction>(action.leaf_children),
        ),
    )
}

impl GreatGreatGrandChildAction {
    /// The action, and the actions below it, as a generic value.
    pub fn to_value(&self) -> (value: Value)
        ensures
            value@ == great_great_grandchild_value(self@),
    {
        let mut entries: Vec<(String, Value)> = Vec::new();
        assert(entry_views(entries@) =~= Seq::empty());
        push_entry(&mut entries, "common", Some(self.common.to_value()));
        assert(entry_views(entries@) =~= seq![("common"@, common_value(self.common@))]);
        push_entry(&mut entries, "leaf_children", export_list(&self.leaf_children));
        object_of(entries)
    }
}

impl ToValue for GreatGreatGrandChildAction {
    open spec fn value_of(action: GreatGreatGrandChildView) -> ValueView {
        great_great_grandchild_value(action)
    }

    fn export(&self) -> (value: Value) {
        self.to_value()
    }
}

/// A great-grandchild action as a value: an object with its common properties and,
/// where it has a list of them, its great-great-grandchild actions.
pub open spec fn great_grandchild_value(action: GreatGrandChildView) -> ValueView {
    ValueView::Object(
        seq![("common"@, common_value(action.common))] + optional_entry(
            "great_great_grandchildren"@,
            list_value::<GreatGreatGrandChildAction>(action.great_great_grandchildren),
        ),
    )
}

impl GreatGrandChildAction {
    /// The action, and the actions below it, as a generic value.
    pub fn to_value(&self) -> (value: Value)
        ensures
            value@ == great_grandchild_value(self@),
    {
        let mut entries: Vec<(String, Value)> = Vec::new();
        assert(entry_views(entries@) =~= Seq::empty());
        push_entry(&mut entries, "common", Some(self.common.to_value()));
        assert(entry_views(entries@) =~= seq![("common"@, common_value(self.common@))]);
        push_entry(
            &mut entries,
            "great_great_grandchildren",
            export_list(&self.great_great_grandchildren),
        );
        object_of(entries)
    }
}

impl ToValue for GreatGrandChildAction {
    open spec fn value_of(action: GreatGrandChildView) -> ValueView {
        great_grandchild_value(action)
    }

    fn export(&self) -> (value: Value) {
        self.to_value()
    }
}

/// A grandchild action as a value: an object with its common properties and,
/// where it has a list of them, its great-grandchild actions.
pub open spec fn grandchild_value(action: GrandChildView) -> ValueView {
    ValueView::Object(
        seq![("common"@, common_value(action.common))] + optional_entry(
            "great_grandchildren"@,
            list_value::<GreatGrandChildAction>(action.great_grandchildren),
        ),
    )
}

impl GrandChildAction {
    /// The action, and the actions below it, as a generic value.
    pub fn to_value(&self) -> (value: Value)
        ensures
            value@ == grandchild_value(self@),
    {
        let mut entries: Vec<(String, Value)> = Vec::new();
        assert(entry_views(entries@) =~= Seq::empty());
        push_entry(&mut entries, "common", Some(self.common.to_value()));
        assert(entry_views(entries@) =~= seq![("common"@, common_value(self.common@))]);
        push_entry(&mut entries, "great_grandchildren", export_list(&self.great_grandchildren));
        object_of(entries)
    }
}

impl ToValue for GrandChildAction {
    open spec fn value_of(action: GrandChildView) -> ValueView {
        grandchild_value(action)
    }

    fn export(&self) -> (value: Value) {
        self.to_value()
    }
}

/// A child action as a value: an object with its common properties and,
/// where it has a list of them, its grandchild actions.
pub open spec fn child_value(action: ChildView) -> ValueView {
    ValueView::Object(
        seq![("common"@, common_value(action.common))] + optional_entry(
            "grandchildren"@,
            list_value::<GrandChildAction>(action.grandchildren),
        ),
    )
}

impl ChildAction {
    /// The action, and the actions below it, as a generic value.
    pub fn to_value(&self) -> (value: Value)
        ensures
            value@ == child_value(self@),
    {
        let mut entries: Vec<(String, Value)> = Vec::new();
        assert(entry_views(entries@) =~= Seq::empty());
        push_entry(&mut entries, "common", Some(self.common.to_value()));
        assert(entry_views(entries@) =~= seq![("common"@, common_value(self.common@))]);
        push_entry(&mut entries, "grandchildren", export_list(&self.grandchildren));
        object_of(entries)
    }
}

impl ToValue for ChildAction {
    open spec fn value_of(action: ChildView) -> ValueView {
        child_value(action)
    }

    fn export(&self) -> (value: Value) {
        self.to_value()
    }
}

/// A root action as a value: an object with its common properties and,
/// where it has them, its story and its child actions.
pub open spec fn root_value(action: RootView) -> ValueView {
    ValueView::Object(
        seq![("common"@, common_value(action.common))] + optional_entry(
            "story"@,
            text_value(action.story),
        ) + optional_entry("children"@, list_value::<ChildAction>(action.children)),
    )
}

impl RootAction {
    /// The action, and the actions below it, as a generic value.
    pub fn to_value(&self) -> (value: Value)
        ensures
            value@ == root_value(self@),
    {
        let mut entries: Vec<(String, Value)> = Vec::new();
        assert(entry_views(entries@) =~= Seq::empty());
        push_entry(&mut entries, "common", Some(self.common.to_value()));
        assert(entry_views(entries@) =~= seq![("common"@, common_value(self.common@))]);
        match &self.story {
            Some(story) => push_entry(&mut entries, "story", Some(string_of(story.clone()))),
            None => push_entry(&mut entries, "story", None),
        }
        push_entry(&mut entries, "children", export_list(&self.children));
        object_of(entries)
    }
}

impl ToValue for RootAction {
    open spec fn value_of(action: RootView) -> ValueView {
        root_value(action)
    }

    fn export(&self) -> (value: Value) {
        self.to_value()
    }
}

/// An outline as a value: the array of its root actions.
pub open spec fn document_value(list: Seq<RootView>) -> ValueView {
    ValueView::Array(values_of::<RootAction>(list))
}

/// The outline as a generic value: an array with one object for each root
/// action.
pub fn action_list_to_value(list: &Vec<RootAction>) -> (value: Value)
    ensures
        value@ == document_value(views_of(list@)),
{
    export_actions(list)
}

} // verus!
