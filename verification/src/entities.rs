//! The typed outline: six levels of actions, each with the properties that
//! every action has, and the mathematical view of each.

use vstd::prelude::*;
use vstd::string::*;
use crate::datetime::ActionDateTime;
use crate::text::string_views;

verus! {

/// How far an action has come.
#[derive(Debug, Clone, Copy, PartialEq, Eq, Structural)]
pub enum ActionState {
    NotStarted,
    Completed,
    InProgress,
    BlockedorAwaiting,
    Cancelled,
}

impl Default for ActionState {
    fn default() -> (state: Self)
        ensures
            state == ActionState::NotStarted,
    {
        ActionState::NotStarted
    }
}

/// Why a syntax tree, or a text, gave no outline.
#[derive(Debug, Clone, Copy, PartialEq, Eq, Structural)]
pub enum ConvertError {
    /// The parser gave no usable tree for the text.
    ParseFailure,
    /// An action has no node that holds its properties.
    MissingCoreProperties,
    /// A state node holds no known state.
    UnknownActionState,
}

/// What an error says, in words.
pub open spec fn error_text(error: ConvertError) -> Seq<char> {
    match error {
        ConvertError::ParseFailure => "Failed to parse tree"@,
        ConvertError::MissingCoreProperties => "Missing core action properties"@,
        ConvertError::UnknownActionState => "Unknown or malformed action state"@,
    }
}

impl ConvertError {
    /// What the error says, in words.
    pub fn to_string(&self) -> (text: String)
        ensures
            text@ == error_text(*self),
    {
        match self {
            ConvertError::ParseFailure => String::from_str("Failed to parse tree"),
            ConvertError::MissingCoreProperties => String::from_str(
                "Missing core action properties",
            ),
            ConvertError::UnknownActionState => String::from_str(
                "Unknown or malformed action state",
            ),
        }
    }
}

/// The name of an action story.
pub type Story = String;

/// The identifier of an action: the 128 bits of a UUID.
pub type ActionId = u128;

/// The properties that every action has, whatever its level.
#[derive(Debug, Clone, PartialEq)]
pub struct CommonActionProperties {
    pub state: ActionState,
    pub name: String,
    pub description: Option<String>,
    pub priority: Option<usize>,
    /// The context tags, each without its marker; never an empty list.
    pub context_list: Option<Vec<String>>,
    pub id: Option<ActionId>,
    /// Not yet read from any source text.
    pub do_date_time: Option<ActionDateTime>,
    /// Not yet read from any source text.
    pub completed_date_time: Option<ActionDateTime>,
}

/// What a [`CommonActionProperties`] holds.
pub struct CommonView {
    pub state: ActionState,
    pub name: Seq<char>,
    pub description: Option<Seq<char>>,
    pub priority: Option<usize>,
    pub context_list: Option<Seq<Seq<char>>>,
    pub id: Option<ActionId>,
    pub do_date_time: Option<ActionDateTime>,
    pub completed_date_time: Option<ActionDateTime>,
}

/// The view of an optional string.
pub open spec fn text_view(text: Option<String>) -> Option<Seq<char>> {
    match text {
        Some(t) => Some(t@),
        None => None,
    }
}

/// The view of an optional list of strings.
pub open spec fn tags_view(tags: Option<Vec<String>>) -> Option<Seq<Seq<char>>> {
    match tags {
        Some(t) => Some(string_views(t@)),
        None => None,
    }
}

impl View for CommonActionProperties {
    type V = CommonView;

    open spec fn view(&self) -> CommonView {
        CommonView {
            state: self.state,
            name: self.name@,
            description: text_view(self.description),
            priority: self.priority,
            context_list: tags_view(self.context_list),
            id: self.id,
            do_date_time: self.do_date_time,
            completed_date_time: self.completed_date_time,
        }
    }
}

impl CommonView {
    /// The properties of an action of which nothing is known: not started,
    /// without a name.
    pub open spec fn empty() -> CommonView {
        CommonView {
            state: ActionState::NotStarted,
            name: Seq::empty(),
            description: None,
            priority: None,
            context_list: None,
            id: None,
            do_date_time: None,
            completed_date_time: None,
        }
    }
}

impl Default for CommonActionProperties {
    fn default() -> (common: Self)
        ensures
            common@ == CommonView::empty(),
    {
        CommonActionProperties {
            state: ActionState::NotStarted,
            name: String::new(),
            description: None,
            priority: None,
            context_list: None,
            id: None,
            do_date_time: None,
            completed_date_time: None,
        }
    }
}

/// The views of a list of values.
pub open spec fn views_of<T: View>(list: Seq<T>) -> Seq<T::V> {
    Seq::new(list.len(), |i: int| list[i]@)
}

/// The views of an optional list of values.
pub open spec fn option_views_of<T: View>(list: Option<Vec<T>>) -> Option<Seq<T::V>> {
    match list {
        Some(l) => Some(views_of(l@)),
        None => None,
    }
}

/// An action five levels below the root: it has no children.
#[derive(Debug, Clone, PartialEq)]
pub struct LeafAction {
    pub common: CommonActionProperties,
}

/// What a [`LeafAction`] holds.
pub struct LeafView {
    pub common: CommonView,
}

impl View for LeafAction {
    type V = LeafView;

    open spec fn view(&self) -> LeafView {
        LeafView { common: self.common@ }
    }
}

/// An action four levels below the root.
#[derive(Debug, Clone, PartialEq)]
pub struct GreatGreatGrandChildAction {
    pub common: CommonActionProperties,
    /// The actions below; `None` where the source has no such group.
    pub leaf_children: Option<Vec<LeafAction>>,
}

/// What a [`GreatGreatGrandChildAction`] holds.
pub struct GreatGreatGrandChildView {
    pub common: CommonView,
    pub leaf_children: Option<Seq<LeafView>>,
}

impl View for GreatGreatGrandChildAction {
    type V = GreatGreatGrandChildView;

    open spec fn view(&self) -> GreatGreatGrandChildView {
        GreatGreatGrandChildView { common: self.common@, leaf_children: option_views_of(
            self.leaf_children,
        ) }
    }
}

/// An action three levels below the root.
#[derive(Debug, Clone, PartialEq)]
pub struct GreatGrandChildAction {
    pub common: CommonActionProperties,
    /// The actions below; `None` where the source has no such group.
    pub great_great_grandchildren: Option<Vec<GreatGreatGrandChildAction>>,
}

/// What a [`GreatGrandChildAction`] holds.
pub struct GreatGrandChildView {
    pub common: CommonView,
    pub great_great_grandchildren: Option<Seq<GreatGreatGrandChildView>>,
}

impl View for GreatGrandChildAction {
    type V = GreatGrandChildView;

    open spec fn view(&self) -> GreatGrandChildView {
        GreatGrandChildView { common: self.common@, great_great_grandchildren: option_views_of(
            self.great_great_grandchildren,
        ) }
    }
}

/// An action two levels below the root.
#[derive(Debug, Clone, PartialEq)]
pub struct GrandChildAction {
    pub common: CommonActionProperties,
    /// The actions below; `None` where the source has no such group.
    pub great_grandchildren: Option<Vec<GreatGrandChildAction>>,
}

/// What a [`GrandChildAction`] holds.
pub struct GrandChildView {
    pub common: CommonView,
    pub great_grandchildren: Option<Seq<GreatGrandChildView>>,
}

impl View for GrandChildAction {
    type V = GrandChildView;

    open spec fn view(&self) -> GrandChildView {
        GrandChildView { common: self.common@, great_grandchildren: option_views_of(
            self.great_grandchildren,
        ) }
    }
}

/// An action one level below the root.
#[derive(Debug, Clone, PartialEq)]
pub struct ChildAction {
    pub common: CommonActionProperties,
    /// The actions below; `None` where the source has no such group.
    pub grandchildren: Option<Vec<GrandChildAction>>,
}

/// What a [`ChildAction`] holds.
pub struct ChildView {
    pub common: CommonView,
    pub grandchildren: Option<Seq<GrandChildView>>,
}

impl View for ChildAction {
    type V = ChildView;

    open spec fn view(&self) -> ChildView {
        ChildView { common: self.common@, grandchildren: option_views_of(self.grandchildren) }
    }
}

/// An action at the top of the outline.
#[derive(Debug, Clone, PartialEq)]
pub struct RootAction {
    pub common: CommonActionProperties,
    /// The story that the action belongs to.
    pub story: Option<Story>,
    /// The actions below; `None` where the source has no such group.
    pub children: Option<Vec<ChildAction>>,
}

/// What a [`RootAction`] holds.
pub struct RootView {
    pub common: CommonView,
    pub story: Option<Seq<char>>,
    pub children: Option<Seq<ChildView>>,
}

impl View for RootAction {
    type V = RootView;

    open spec fn view(&self) -> RootView {
        RootView {
            common: self.common@,
            story: text_view(self.story),
            children: option_views_of(self.children),
        }
    }
}

/// A whole outline: its root actions in the order of the source.
pub type ActionList = Vec<RootAction>;

/// The action four levels below the root, under its other name.
pub type DoubleGreatGrandChildAction = GreatGreatGrandChildAction;

/// The common properties, under their other name.
pub type CoreActionProperties = CommonActionProperties;

} // verus!
