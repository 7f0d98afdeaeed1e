//! From the typed outline back to its text.

use vstd::prelude::*;
use vstd::string::*;
use crate::datetime::ActionDateTime;
use crate::entities::{
    option_views_of, tags_view, views_of, ActionState, ChildAction, ChildView,
    CommonActionProperties, CommonView, GrandChildAction, GrandChildView, GreatGrandChildAction,
    GreatGrandChildView, GreatGreatGrandChildAction, GreatGreatGrandChildView, LeafAction,
    LeafView, RootAction, RootView,
};
use crate::ident::{render_uuid, uuid_text};
use crate::text::{decimal_text, render_decimal, string_views, strip_markers, without_markers};

verus! {

/// The character that stands for a state, as a text of its own.
pub open spec fn state_text(state: ActionState) -> Seq<char> {
    match state {
        ActionState::NotStarted => " "@,
        ActionState::Completed => "x"@,
        ActionState::InProgress => "-"@,
        ActionState::BlockedorAwaiting => "="@,
        ActionState::Cancelled => "_"@,
    }
}

impl ActionState {
    /// The character that stands for the state.
    pub fn to_string(&self) -> (text: String)
        ensures
            text@ == state_text(*self),
    {
        match self {
            ActionState::NotStarted => String::from_str(" "),
            ActionState::Completed => String::from_str("x"),
            ActionState::InProgress => String::from_str("-"),
            ActionState::BlockedorAwaiting => String::from_str("="),
            ActionState::Cancelled => String::from_str("_"),
        }
    }
}

/// The texts of `items`, each behind `marker`, one after the other.
pub open spec fn joined<V>(
    items: Seq<V>,
    marker: Seq<char>,
    render: spec_fn(V) -> Seq<char>,
) -> Seq<
    char,
>
    decreases items.len(),
{
    if items.len() == 0 {
        Seq::empty()
    } else {
        joined(items.drop_last(), marker, render) + marker + render(items.last())
    }
}

/// One item more: the text so far, the marker, the item's text.
pub proof fn lemma_joined_step<V>(
    items: Seq<V>,
    i: int,
    marker: Seq<char>,
    render: spec_fn(V) -> Seq<char>,
)
    requires
        0 <= i < items.len(),
    ensures
        joined(items.take(i + 1), marker, render) == joined(items.take(i), marker, render) + marker
            + render(items[i]),
{
    assert(items.take(i + 1).drop_last() =~= items.take(i));
    assert(items.take(i + 1).last() == items[i]);
}

/// Writes a context tag: the tag without the markers at its start.
pub open spec fn tag_renderer() -> spec_fn(Seq<char>) -> Seq<char> {
    |tag: Seq<char>| without_markers(tag)
}

/// The text of an optional field: the marker and the value, or nothing.
pub open spec fn field_text(marker: Seq<char>, value: Option<Seq<char>>) -> Seq<char> {
    match value {
        Some(v) => marker + v,
        None => Seq::empty(),
    }
}

/// The digits of an optional priority.
pub open spec fn priority_digits(priority: Option<usize>) -> Option<Seq<char>> {
    match priority {
        Some(p) => Some(decimal_text(p as nat)),
        None => None,
    }
}

/// The text of an optional timestamp.
pub open spec fn stamp_digits(stamp: Option<ActionDateTime>) -> Option<Seq<char>> {
    match stamp {
        Some(s) => Some(s.text()),
        None => None,
    }
}

/// The text of an optional identifier.
pub open spec fn id_digits(id: Option<u128>) -> Option<Seq<char>> {
    match id {
        Some(i) => Some(uuid_text(i)),
        None => None,
    }
}

/// The text of the context tags: ` +` and the tag, for each tag.
pub open spec fn context_text(tags: Option<Seq<Seq<char>>>) -> Seq<char> {
    match tags {
        Some(t) => joined(t, " +"@, tag_renderer()),
        None => Seq::empty(),
    }
}

/// The line of the common properties: the state between brackets and the
/// name, then each optional field that is there behind its marker, in this
/// order: description `$`, priority `!`, context tags `+`, do date `@`,
/// completion date `%`, identifier `#`.
pub open spec fn common_text(common: CommonView) -> Seq<char> {
    "("@ + state_text(common.state) + ") "@ + common.name + field_text(
        " $"@,
        common.description,
    ) + field_text(" !"@, priority_digits(common.priority)) + context_text(common.context_list)
        + field_text(" @"@, stamp_digits(common.do_date_time)) + field_text(
        " %"@,
        stamp_digits(common.completed_date_time),
    ) + field_text(" #"@, id_digits(common.id))
}

/// Appends an optional field: its marker and its value, or nothing.
fn append_field(text: &mut String, marker: &str, value: Option<&str>)
    ensures
        final(text)@ == old(text)@ + field_text(
            marker@,
            match value {
                Some(v) => Some(v@),
                None => None,
            },
        ),
{
    match value {
        Some(v) => {
            text.append(marker);
            text.append(v);
            assert(text@ =~= old(text)@ + (marker@ + v@));
        },
        None => {
            assert(text@ =~= old(text)@ + Seq::<char>::empty());
        },
    }
}

/// Appends the context tags, each behind its marker.
fn append_tags(text: &mut String, tags: &Option<Vec<String>>)
    ensures
        final(text)@ == old(text)@ + context_text(tags_view(*tags)),
{
    match tags {
        Some(list) => {
            let ghost views = string_views(list@);
            let ghost head = text@;
            let mut i: usize = 0;
            assert(text@ =~= head + joined(views.take(0), " +"@, tag_renderer()));
            while i < list.len()
                invariant
                    i <= list.len(),
                    views == string_views(list@),
                    text@ == head + joined(views.take(i as int), " +"@, tag_renderer()),
                decreases list.len() - i,
            {
                proof {
                    lemma_joined_step(views, i as int, " +"@, tag_renderer());
                }
                text.append(" +");
                text.append(strip_markers(list[i].as_str()));
                assert(text@ =~= head + (joined(views.take(i as int), " +"@, tag_renderer())
                    + " +"@ + without_markers(views[i as int])));
                i = i + 1;
            }
            assert(views.take(i as int) =~= views);
        },
        None => {
            assert(text@ =~= old(text)@ + Seq::<char>::empty());
        },
    }
}

impl CommonActionProperties {
    /// Writes the line of the common properties.
    pub fn to_string(&self) -> (text: String)
        ensures
            text@ == common_text(self@),
    {
        let mut text = String::from_str("(");
        text.append(self.state.to_string().as_str());
        text.append(") ");
        text.append(self.name.as_str());
        match &self.description {
            Some(description) => append_field(&mut text, " $", Some(description.as_str())),
            None => append_field(&mut text, " $", None),
        }
        match self.priority {
            Some(priority) => {
                let digits = render_decimal(priority);
                append_field(&mut text, " !", Some(digits.as_str()));
            },
            None => append_field(&mut text, " !", None),
        }
        append_tags(&mut text, &self.context_list);
        match &self.do_date_time {
            Some(stamp) => {
                let digits = stamp.to_string();
                append_field(&mut text, " @", Some(digits.as_str()));
            },
            None => append_field(&mut text, " @", None),
        }
        match &self.completed_date_time {
            Some(stamp) => {
                let digits = stamp.to_string();
                append_field(&mut text, " %", Some(digits.as_str()));
            },
            None => append_field(&mut text, " %", None),
        }
        match self.id {
            Some(id) => {
                let digits = render_uuid(id);
                append_field(&mut text, " #", Some(digits.as_str()));
            },
            None => append_field(&mut text, " #", None),
        }
        text
    }
}

/// A level of the outline, as far as it is written as text: the one rule by
/// which an action writes the actions below it is stated once, over this
/// trait.
pub trait ToText: View + Sized {
    /// The text of an action of this level.
    spec fn text_of(action: Self::V) -> Seq<char>;

    /// Writes the action and the actions below it.
    fn write_text(&self) -> (text: String)
        ensures
            text@ == Self::text_of(self@),
    ;
}

/// Writes one action of a level.
pub open spec fn renderer<T: ToText>() -> spec_fn(T::V) -> Seq<char> {
    |action: T::V| T::text_of(action)
}

/// The text of the actions below an action: the marker and the text of the
/// action, for each of them; nothing where there is no list.
pub open spec fn list_text<T: ToText>(list: Option<Seq<T::V>>, marker: Seq<char>) -> Seq<char> {
    match list {
        Some(items) => joined(items, marker, renderer::<T>()),
        None => Seq::empty(),
    }
}

/// Appends the actions below an action, each behind the marker.
fn append_actions<T: ToText>(text: &mut String, list: &Option<Vec<T>>, marker: &str)
    ensures
        final(text)@ == old(text)@ + list_text::<T>(option_views_of(*list), marker@),
{
    match list {
        Some(actions) => {
            let ghost views = views_of(actions@);
            let ghost head = text@;
            let mut i: usize = 0;
            assert(text@ =~= head + joined(views.take(0), marker@, renderer::<T>()));
            while i < actions.len()
                invariant
                    i <= actions.len(),
                    views == views_of(actions@),
                    text@ == head + joined(views.take(i as int), marker@, renderer::<T>()),
                decreases actions.len() - i,
            {
                proof {
                    lemma_joined_step(views, i as int, marker@, renderer::<T>());
                }
                text.append(marker);
                text.append(actions[i].write_text().as_str());
                assert(text@ =~= head + (joined(views.take(i as int), marker@, renderer::<T>())
                    + marker@ + T::text_of(views[i as int])));
                i = i + 1;
            }
            assert(views.take(i as int) =~= views);
        },
        None => {
            assert(text@ =~= old(text)@ + Seq::<char>::empty());
        },
    }
}

/// The text of a leaf action: the line of its common properties.
pub open spec fn leaf_text(action: LeafView) -> Seq<char> {
    common_text(action.common)
}

impl LeafAction {
    /// Writes the action.
    pub fn to_string(&self) -> (text: String)
        ensures
            text@ == leaf_text(self@),
    {
        self.common.to_string()
    }
}

impl ToText for LeafAction {
    open spec fn text_of(action: LeafView) -> Seq<char> {
        leaf_text(action)
    }

    fn write_text(&self) -> (text: String) {
        self.to_string()
    }
}

/// The text of a great-great-grandchild action: the line of its common properties, then
/// each of its leaf actions behind ` >>>>>`.
pub open spec fn great_great_grandchild_text(action: GreatGreatGrandChildView) -> Seq<char> {
    common_text(action.common) + list_text::<LeafAction>(action.leaf_children, " >>>>>"@)
}

impl GreatGreatGrandChildAction {
    /// Writes the action and the actions below it.
    pub fn to_string(&self) -> (text: String)
        ensures
            text@ == great_great_grandchild_text(self@),
    {
        let mut text = self.common.to_string();
        append_actions(&mut text, &self.leaf_children, " >>>>>");
        text
    }
}

impl ToText for GreatGreatGrandChildAction {
    open spec fn text_of(action: GreatGreatGrandChildView) -> Seq<char> {
        great_great_grandchild_text(action)
    }

    fn write_text(&self) -> (text: String) {
        self.to_string()
    }
}

/// The text of a great-grandchild action: the line of its common properties, then
/// each of its great-great-grandchild actions behind ` >>>>`.
pub open spec fn great_grandchild_text(action: GreatGrandChildView) -> Seq<char> {
    common_text(action.common) + list_text::<GreatGreatGrandChildAction>(
        action.great_great_grandchildren,
        " >>>>"@,
    )
}

impl GreatGrandChildAction {
    /// Writes the action and the actions below it.
    pub fn to_string(&self) -> (text: String)
        ensures
            text@ == great_grandchild_text(self@),
    {
        let mut text = self.common.to_string();
        append_actions(&mut text, &self.great_great_grandchildren, " >>>>");
        text
    }
}

impl ToText for GreatGrandChildAction {
    open spec fn text_of(action: GreatGrandChildView) -> Seq<char> {
        great_grandchild_text(action)
    }

    fn write_text(&self) -> (text: String) {
        self.to_string()
    }
}

/// The text of a grandchild action: the line of its common properties, then
/// each of its great-grandchild actions behind ` >>>`.
pub open spec fn grandchild_text(action: GrandChildView) -> Seq<char> {
    common_text(action.common) + list_text::<GreatGrandChildAction>(
        action.great_grandchildren,
        " >>>"@,
    )
}

impl GrandChildAction {
    /// Writes the action and the actions below it.
    pub fn to_string(&self) -> (text: String)
        ensures
            text@ == grandchild_text(self@),
    {
        let mut text = self.common.to_string();
        append_actions(&mut text, &self.great_grandchildren, " >>>");
        text
    }
}

impl ToText for GrandChildAction {
    open spec fn text_of(action: GrandChildView) -> Seq<char> {
        grandchild_text(action)
    }

    fn write_text(&self) -> (text: String) {
        self.to_string()
    }
}

/// The text of a child action: the line of its common properties, then
/// each of its grandchild actions behind ` >>`.
pub open spec fn child_text(action: ChildView) -> Seq<char> {
    common_text(action.common) + list_text::<GrandChildAction>(action.grandchildren, " >>"@)
}

impl ChildAction {
    /// Writes the action and the actions below it.
    pub fn to_string(&self) -> (text: String)
        ensures
            text@ == child_text(self@),
    {
        let mut text = self.common.to_string();
        append_actions(&mut text, &self.grandchildren, " >>");
        text
    }
}

impl ToText for ChildAction {
    open spec fn text_of(action: ChildView) -> Seq<char> {
        child_text(action)
    }

    fn write_text(&self) -> (text: String) {
        self.to_string()
    }
}

/// The text of a root action: the line of its common properties, then its
/// story behind ` *` where it has one, then each of its child actions behind
/// ` >`.
pub open spec fn root_text(action: RootView) -> Seq<char> {
    common_text(action.common) + field_text(" *"@, action.story) + list_text::<ChildAction>(
        action.children,
        " >"@,
    )
}

impl RootAction {
    /// Writes the action and the actions below it.
    pub fn to_string(&self) -> (text: String)
        ensures
            text@ == root_text(self@),
    {
        let mut text = self.common.to_string();
        match &self.story {
            Some(story) => append_field(&mut text, " *", Some(story.as_str())),
            None => append_field(&mut text, " *", None),
        }
        append_actions(&mut text, &self.children, " >");
        text
    }
}

impl ToText for RootAction {
    open spec fn text_of(action: RootView) -> Seq<char> {
        root_text(action)
    }

    fn write_text(&self) -> (text: String) {
        self.to_string()
    }
}

/// The text of an outline: the text of each root action and a line feed
/// behind it, in order.
pub open spec fn document_text(list: Seq<RootView>) -> Seq<char>
    decreases list.len(),
{
    if list.len() == 0 {
        Seq::empty()
    } else {
        document_text(list.drop_last()) + root_text(list.last()) + "\n"@
    }
}

/// Writes an outline, one root action to a line.
pub fn action_list_to_string(list: &Vec<RootAction>) -> (text: String)
    ensures
        text@ == document_text(views_of(list@)),
{
    let ghost views = views_of(list@);
    let mut text = String::new();
    let mut i: usize = 0;
    assert(views.take(0) =~= Seq::<RootView>::empty());
    while i < list.len()
        invariant
            i <= list.len(),
            views == views_of(list@),
            text@ == document_text(views.take(i as int)),
        decreases list.len() - i,
    {
        proof {
            assert(views.take(i + 1).drop_last() =~= views.take(i as int));
            assert(views.take(i + 1).last() == views[i as int]);
        }
        text.append(list[i].to_string().as_str());
        text.append("\n");
        i = i + 1;
    }
    assert(views.take(i as int) =~= views);
    text
}

} // verus!
