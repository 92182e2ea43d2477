//! The listings of plugins, variables, actions and options that the deck
//! gives to its clients.

use vstd::prelude::*;

use crate::buttons::RenderedDeckButton;
use crate::datatype::PluginDataType;
use crate::plugin::{ActionDeclView, DeclView, VariableDeclView};

verus! {

/// An argument of a listed action; its id is `plugin.action.argument`.
#[derive(Clone, Debug)]
pub struct PluginActionArgsData {
    pub id: String,
    pub name: String,
    pub description: String,
    pub data_type: PluginDataType,
}

impl View for PluginActionArgsData {
    type V = DeclView;

    open spec fn view(&self) -> DeclView {
        DeclView {
            id: self.id@,
            name: self.name@,
            description: self.description@,
            data_type: self.data_type,
        }
    }
}

/// The views of listed arguments.
pub open spec fn listed_arg_views(v: Seq<PluginActionArgsData>) -> Seq<DeclView> {
    v.map_values(|a: PluginActionArgsData| a@)
}

/// A listed action; its id is `plugin.action`.
#[derive(Clone, Debug)]
pub struct PluginAction {
    /// Action id
    pub id: String,
    /// Action display name
    pub name: String,
    /// Action description
    pub description: String,
    /// Action arguments
    pub args: Vec<PluginActionArgsData>,
}

impl View for PluginAction {
    type V = ActionDeclView;

    open spec fn view(&self) -> ActionDeclView {
        ActionDeclView {
            id: self.id@,
            name: self.name@,
            description: self.description@,
            args: listed_arg_views(self.args@),
        }
    }
}

/// The views of listed actions.
pub open spec fn listed_action_views(v: Seq<PluginAction>) -> Seq<ActionDeclView> {
    v.map_values(|a: PluginAction| a@)
}

/// A group of listed items of one plugin.
pub struct GroupView<T> {
    pub id: Seq<char>,
    pub name: Seq<char>,
    pub items: Seq<T>,
}

/// The actions of one plugin.
#[derive(Clone, Debug)]
pub struct PluginActionGroup {
    /// Plugin id
    pub id: String,
    /// Plugin display name
    pub name: String,
    /// Actions of plugin
    pub actions: Vec<PluginAction>,
}

impl View for PluginActionGroup {
    type V = GroupView<ActionDeclView>;

    open spec fn view(&self) -> GroupView<ActionDeclView> {
        GroupView { id: self.id@, name: self.name@, items: listed_action_views(self.actions@) }
    }
}

/// A listed variable; its id is `plugin.variable`.
#[derive(Clone, Debug)]
pub struct PluginVariable {
    /// Variable ID
    pub id: String,
    /// Variable description
    pub description: String,
    /// Variable type
    pub data_type: PluginDataType,
}

impl View for PluginVariable {
    type V = VariableDeclView;

    open spec fn view(&self) -> VariableDeclView {
        VariableDeclView { id: self.id@, description: self.description@, data_type: self.data_type }
    }
}

/// The views of listed variables.
pub open spec fn listed_variable_views(v: Seq<PluginVariable>) -> Seq<VariableDeclView> {
    v.map_values(|a: PluginVariable| a@)
}

/// The variables of one plugin.
#[derive(Clone, Debug)]
pub struct PluginVariableGroup {
    /// Plugin id
    pub id: String,
    /// Plugin display name
    pub name: String,
    /// Plugin variables
    pub variables: Vec<PluginVariable>,
}

impl View for PluginVariableGroup {
    type V = GroupView<VariableDeclView>;

    open spec fn view(&self) -> GroupView<VariableDeclView> {
        GroupView { id: self.id@, name: self.name@, items: listed_variable_views(self.variables@) }
    }
}

/// What a listed plugin is.
pub struct PluginDataView {
    pub id: Seq<char>,
    pub name: Seq<char>,
    pub description: Seq<char>,
    pub variables: Seq<VariableDeclView>,
    pub actions: Seq<ActionDeclView>,
}

/// A listed plugin with its variables and actions.
#[derive(Clone, Debug)]
pub struct PluginData {
    /// Plugin id
    pub id: String,
    /// Plugin display name
    pub name: String,
    /// Plugin description
    pub description: String,
    /// Plugin variables
    pub variables: Vec<PluginVariable>,
    /// Actions of plugin
    pub actions: Vec<PluginAction>,
}

impl View for PluginData {
    type V = PluginDataView;

    open spec fn view(&self) -> PluginDataView {
        PluginDataView {
            id: self.id@,
            name: self.name@,
            description: self.description@,
            variables: listed_variable_views(self.variables@),
            actions: listed_action_views(self.actions@),
        }
    }
}

/// A listed configuration option.
#[derive(Clone, Debug)]
pub struct PluginConfigOption {
    pub id: String,
    pub name: String,
    pub description: String,
    pub data_type: PluginDataType,
}

impl View for PluginConfigOption {
    type V = DeclView;

    open spec fn view(&self) -> DeclView {
        DeclView {
            id: self.id@,
            name: self.name@,
            description: self.description@,
            data_type: self.data_type,
        }
    }
}

/// The views of listed options.
pub open spec fn listed_option_views(v: Seq<PluginConfigOption>) -> Seq<DeclView> {
    v.map_values(|a: PluginConfigOption| a@)
}

/// The configuration options of one plugin.
#[derive(Clone, Debug)]
pub struct PluginConfigOptionGroup {
    pub id: String,
    pub name: String,
    pub config_options: Vec<PluginConfigOption>,
}

impl View for PluginConfigOptionGroup {
    type V = GroupView<DeclView>;

    open spec fn view(&self) -> GroupView<DeclView> {
        GroupView { id: self.id@, name: self.name@, items: listed_option_views(self.config_options@) }
    }
}

/// A screen with its buttons rendered.
#[derive(Clone, Debug)]
pub struct RenderedDeckScreen {
    pub screen: String,
    pub buttons: Vec<RenderedDeckButton>,
}

/// The ids of the actions of one plugin.
#[derive(Clone, Debug)]
pub struct PluginActionsData {
    /// Plugin id
    pub id: String,
    /// Plugin display name
    pub name: String,
    /// Actions of plugin
    pub actions: Vec<String>,
}

} // verus!
