//! What a loaded plugin declares (its variables, actions and configuration
//! options), how that declaration is read and checked, how action arguments
//! are checked against it, and how the plugin's replies are read.

use vstd::prelude::*;

use crate::datatype::{bad_type_index_message, PluginDataType};
use crate::error::{ActionError, ActionErrorView, LoadErrorView, PluginLoadError, PtrToStrError};
use crate::text::{
    contains_char, is_split_of, owned, parse_bool, parse_i32, parse_i32_spec, split_on, str_eq,
    views,
};

verus! {

/// The first error of a sequence of results, or all their values.
pub open spec fn collect_results<V, E>(s: Seq<Result<V, E>>) -> Result<Seq<V>, E>
    decreases s.len(),
{
    if s.len() == 0 {
        Ok(Seq::empty())
    } else {
        match collect_results(s.drop_last()) {
            Err(e) => Err(e),
            Ok(vs) => match s.last() {
                Ok(v) => Ok(vs.push(v)),
                Err(e) => Err(e),
            },
        }
    }
}

proof fn lemma_collect_prefix_ok<V, E>(s: Seq<Result<V, E>>, i: int, vs: Seq<V>, v: V)
    requires
        0 <= i < s.len(),
        collect_results(s.subrange(0, i)) == Ok::<Seq<V>, E>(vs),
        s[i] == Ok::<V, E>(v),
    ensures
        collect_results(s.subrange(0, i + 1)) == Ok::<Seq<V>, E>(vs.push(v)),
{
    assert(s.subrange(0, i + 1).drop_last() =~= s.subrange(0, i));
}

proof fn lemma_collect_prefix_err<V, E>(s: Seq<Result<V, E>>, i: int, vs: Seq<V>, e: E)
    requires
        0 <= i < s.len(),
        collect_results(s.subrange(0, i)) == Ok::<Seq<V>, E>(vs),
        s[i] == Err::<V, E>(e),
    ensures
        collect_results(s) == Err::<Seq<V>, E>(e),
    decreases s.len(),
{
    if i == s.len() - 1 {
        assert(s.drop_last() =~= s.subrange(0, i));
    } else {
        assert(s.drop_last().subrange(0, i) =~= s.subrange(0, i));
        lemma_collect_prefix_err(s.drop_last(), i, vs, e);
    }
}

/// What a declared argument or configuration option is.
pub struct DeclView {
    pub id: Seq<char>,
    pub name: Seq<char>,
    pub description: Seq<char>,
    pub data_type: PluginDataType,
}

/// What a declared variable is.
pub struct VariableDeclView {
    pub id: Seq<char>,
    pub description: Seq<char>,
    pub data_type: PluginDataType,
}

/// What a declared action is.
pub struct ActionDeclView {
    pub id: Seq<char>,
    pub name: Seq<char>,
    pub description: Seq<char>,
    pub args: Seq<DeclView>,
}

/// What a loaded plugin declares.
pub struct PluginView {
    pub id: Seq<char>,
    pub name: Seq<char>,
    pub description: Seq<char>,
    pub actions: Seq<ActionDeclView>,
    pub variables: Seq<VariableDeclView>,
    pub config_options: Seq<DeclView>,
}

/// A positional argument of an action.
#[derive(Clone, Debug)]
pub struct ActionArg {
    pub id: String,
    pub name: String,
    pub description: String,
    pub data_type: PluginDataType,
}

impl View for ActionArg {
    type V = DeclView;

    open spec fn view(&self) -> DeclView {
        DeclView {
            id: self.id@,
            name: self.name@,
            description: self.description@,
            data_type: self.data_type,
        }
    }
}

/// An action a plugin offers.
#[derive(Clone, Debug)]
pub struct Action {
    pub id: String,
    pub name: String,
    pub description: String,
    pub args: Vec<ActionArg>,
}

/// The views of declared arguments.
pub open spec fn arg_views(v: Seq<ActionArg>) -> Seq<DeclView> {
    v.map_values(|a: ActionArg| a@)
}

impl View for Action {
    type V = ActionDeclView;

    open spec fn view(&self) -> ActionDeclView {
        ActionDeclView {
            id: self.id@,
            name: self.name@,
            description: self.description@,
            args: arg_views(self.args@),
        }
    }
}

/// A variable a plugin offers.
#[derive(Clone, Debug)]
pub struct Variable {
    pub id: String,
    pub description: String,
    pub data_type: PluginDataType,
}

impl View for Variable {
    type V = VariableDeclView;

    open spec fn view(&self) -> VariableDeclView {
        VariableDeclView { id: self.id@, description: self.description@, data_type: self.data_type }
    }
}

/// A configuration option a plugin offers.
#[derive(Clone, Debug)]
pub struct ConfigOption {
    pub id: String,
    pub name: String,
    pub description: String,
    pub data_type: PluginDataType,
}

impl View for ConfigOption {
    type V = DeclView;

    open spec fn view(&self) -> DeclView {
        DeclView {
            id: self.id@,
            name: self.name@,
            description: self.description@,
            data_type: self.data_type,
        }
    }
}

/// The views of declared actions, variables and options.
pub open spec fn action_views(v: Seq<Action>) -> Seq<ActionDeclView> {
    v.map_values(|a: Action| a@)
}

pub open spec fn variable_views(v: Seq<Variable>) -> Seq<VariableDeclView> {
    v.map_values(|a: Variable| a@)
}

pub open spec fn option_views(v: Seq<ConfigOption>) -> Seq<DeclView> {
    v.map_values(|a: ConfigOption| a@)
}

/// The declaration of a loaded plugin: who it is and what it offers.
#[derive(Clone, Debug)]
pub struct Plugin {
    pub name: String,
    pub description: String,
    pub id: String,
    pub actions: Vec<Action>,
    pub variables: Vec<Variable>,
    pub config_options: Vec<ConfigOption>,
}

impl View for Plugin {
    type V = PluginView;

    open spec fn view(&self) -> PluginView {
        PluginView {
            id: self.id@,
            name: self.name@,
            description: self.description@,
            actions: action_views(self.actions@),
            variables: variable_views(self.variables@),
            config_options: option_views(self.config_options@),
        }
    }
}

/// A string as read from a plugin pointer: the text, or why it could not be
/// read.
pub type ReadString = Result<String, PtrToStrError>;

/// The text of a read string.
pub open spec fn read_view(r: ReadString) -> Result<Seq<char>, PtrToStrError> {
    match r {
        Ok(s) => Ok(s@),
        Err(e) => Err(e),
    }
}

/// A declared argument or configuration option as read from a plugin.
pub struct RawDecl {
    pub id: ReadString,
    pub name: ReadString,
    pub desc: ReadString,
    pub type_index: i32,
}

/// A declared variable as read from a plugin.
pub struct RawVariable {
    pub id: ReadString,
    pub desc: ReadString,
    pub type_index: i32,
}

/// A declared action as read from a plugin.
pub struct RawAction {
    pub id: ReadString,
    pub name: ReadString,
    pub desc: ReadString,
    pub args: Vec<RawDecl>,
}

/// A plugin declaration as read from a plugin, before it is checked.
pub struct RawPlugin {
    pub id: ReadString,
    pub name: ReadString,
    pub desc: ReadString,
    pub variables: Vec<RawVariable>,
    pub actions: Vec<RawAction>,
    pub config_options: Vec<RawDecl>,
}

/// The data type a type number stands for, or the format error for it.
pub open spec fn data_type_outcome(i: i32) -> Result<PluginDataType, LoadErrorView> {
    if 0 <= i <= 4 {
        Ok(PluginDataType::of_index(i as int))
    } else {
        Err(LoadErrorView::FormatError(bad_type_index_message(i as int)))
    }
}

/// The checked form of a raw argument or option: its id, name and
/// description are read in that order, then its type number.
pub open spec fn decl_outcome(raw: RawDecl) -> Result<DeclView, LoadErrorView> {
    match read_view(raw.id) {
        Err(e) => Err(LoadErrorView::ReadError(e)),
        Ok(id) => match read_view(raw.name) {
            Err(e) => Err(LoadErrorView::ReadError(e)),
            Ok(name) => match read_view(raw.desc) {
                Err(e) => Err(LoadErrorView::ReadError(e)),
                Ok(description) => match data_type_outcome(raw.type_index) {
                    Err(e) => Err(e),
                    Ok(data_type) => Ok(DeclView { id, name, description, data_type }),
                },
            },
        },
    }
}

/// The checked form of a raw variable: id, description, type number.
pub open spec fn variable_outcome(raw: RawVariable) -> Result<VariableDeclView, LoadErrorView> {
    match read_view(raw.id) {
        Err(e) => Err(LoadErrorView::ReadError(e)),
        Ok(id) => match read_view(raw.desc) {
            Err(e) => Err(LoadErrorView::ReadError(e)),
            Ok(description) => match data_type_outcome(raw.type_index) {
                Err(e) => Err(e),
                Ok(data_type) => Ok(VariableDeclView { id, description, data_type }),
            },
        },
    }
}

/// The checked forms of raw arguments or options, up to the first error.
pub open spec fn decls_outcome(raws: Seq<RawDecl>) -> Result<Seq<DeclView>, LoadErrorView> {
    collect_results(raws.map_values(|r: RawDecl| decl_outcome(r)))
}

/// The checked form of a raw action: id, name, description, then its
/// arguments in order.
pub open spec fn action_outcome(raw: RawAction) -> Result<ActionDeclView, LoadErrorView> {
    match read_view(raw.id) {
        Err(e) => Err(LoadErrorView::ReadError(e)),
        Ok(id) => match read_view(raw.name) {
            Err(e) => Err(LoadErrorView::ReadError(e)),
            Ok(name) => match read_view(raw.desc) {
                Err(e) => Err(LoadErrorView::ReadError(e)),
                Ok(description) => match decls_outcome(raw.args@) {
                    Err(e) => Err(e),
                    Ok(args) => Ok(ActionDeclView { id, name, description, args }),
                },
            },
        },
    }
}

/// The id that is reserved for the deck's own actions.
pub open spec fn deck_id() -> Seq<char> {
    seq!['d', 'e', 'c', 'k']
}

/// The message of the error for a plugin that takes the reserved id.
pub open spec fn reserved_id_message() -> Seq<char> {
    seq!['P', 'l', 'u', 'g', 'i', 'n', ' ', 'i', 'd', ' ', 'c', 'a', 'n', ' ', 'n', 'o', 't', ' ',
        'b', 'e', ' ', '\'', 'd', 'e', 'c', 'k', '\'', ',', ' ', 'a', 's', ' ', 'i', 't', ' ', 'i',
        's', ' ', 'r', 'e', 's', 'e', 'r', 'v', 'e', 'd']
}

/// The checked form of a raw plugin: its id is read and must not be `deck`,
/// then its name and description are read, then its variables, actions and
/// configuration options are checked in that order, each up to its first
/// error.
pub open spec fn plugin_outcome(raw: RawPlugin) -> Result<PluginView, LoadErrorView> {
    match read_view(raw.id) {
        Err(e) => Err(LoadErrorView::ReadError(e)),
        Ok(id) => if id == deck_id() {
            Err(LoadErrorView::FormatError(reserved_id_message()))
        } else {
            match read_view(raw.name) {
                Err(e) => Err(LoadErrorView::ReadError(e)),
                Ok(name) => match read_view(raw.desc) {
                    Err(e) => Err(LoadErrorView::ReadError(e)),
                    Ok(description) => match collect_results(
                        raw.variables@.map_values(|r: RawVariable| variable_outcome(r)),
                    ) {
                        Err(e) => Err(e),
                        Ok(variables) => match collect_results(
                            raw.actions@.map_values(|r: RawAction| action_outcome(r)),
                        ) {
                            Err(e) => Err(e),
                            Ok(actions) => match decls_outcome(raw.config_options@) {
                                Err(e) => Err(e),
                                Ok(config_options) => Ok(
                                    PluginView {
                                        id,
                                        name,
                                        description,
                                        actions,
                                        variables,
                                        config_options,
                                    },
                                ),
                            },
                        },
                    },
                },
            }
        },
    }
}

/// The view of a checked result.
pub open spec fn result_view<T: View>(r: Result<T, PluginLoadError>) -> Result<T::V, LoadErrorView> {
    match r {
        Ok(v) => Ok(v@),
        Err(e) => Err(e@),
    }
}

/// Reads a string of a declaration; a failed read is a read error.
fn read(r: &ReadString) -> (out: Result<String, PluginLoadError>)
    ensures
        match read_view(*r) {
            Ok(s) => out matches Ok(t) && t@ == s,
            Err(e) => out matches Err(x) && x@ == LoadErrorView::ReadError(e),
        },
{
    match r {
        Ok(s) => Ok(s.clone()),
        Err(e) => Err(PluginLoadError::ReadError(*e)),
    }
}

impl ActionArg {
    /// Checks a raw argument.
    pub fn from_raw(raw: &RawDecl) -> (r: Result<ActionArg, PluginLoadError>)
        ensures
            result_view(r) == decl_outcome(*raw),
    {
        let id = read(&raw.id)?;
        let name = read(&raw.name)?;
        let description = read(&raw.desc)?;
        let data_type = PluginDataType::try_from_i32(raw.type_index)?;
        Ok(ActionArg { id, name, description, data_type })
    }
}

impl ConfigOption {
    /// Checks a raw configuration option.
    pub fn from_raw(raw: &RawDecl) -> (r: Result<ConfigOption, PluginLoadError>)
        ensures
            result_view(r) == decl_outcome(*raw),
    {
        let id = read(&raw.id)?;
        let name = read(&raw.name)?;
        let description = read(&raw.desc)?;
        let data_type = PluginDataType::try_from_i32(raw.type_index)?;
        Ok(ConfigOption { id, name, description, data_type })
    }
}

impl Variable {
    /// Checks a raw variable.
    pub fn from_raw(raw: &RawVariable) -> (r: Result<Variable, PluginLoadError>)
        ensures
            result_view(r) == variable_outcome(*raw),
    {
        let id = read(&raw.id)?;
        let description = read(&raw.desc)?;
        let data_type = PluginDataType::try_from_i32(raw.type_index)?;
        Ok(Variable { id, description, data_type })
    }
}

fn args_from_raw(raws: &Vec<RawDecl>) -> (r: Result<Vec<ActionArg>, PluginLoadError>)
    ensures
        match decls_outcome(raws@) {
            Ok(vs) => r matches Ok(v) && arg_views(v@) == vs,
            Err(e) => r matches Err(x) && x@ == e,
        },
{
    let ghost outs = raws@.map_values(|r: RawDecl| decl_outcome(r));
    let mut out: Vec<ActionArg> = Vec::new();
    let mut i: usize = 0;
    assert(outs.subrange(0, 0) =~= Seq::empty());
    assert(arg_views(out@) =~= Seq::empty());
    while i < raws.len()
        invariant
            i <= raws@.len(),
            outs == raws@.map_values(|r: RawDecl| decl_outcome(r)),
            collect_results(outs.subrange(0, i as int)) == Ok::<Seq<DeclView>, LoadErrorView>(
                arg_views(out@),
            ),
        decreases raws@.len() - i,
    {
        let a = ActionArg::from_raw(&raws[i]);
        match a {
            Ok(v) => {
                proof {
                    lemma_collect_prefix_ok(outs, i as int, arg_views(out@), v@);
                }
                let ghost prev = arg_views(out@);
                out.push(v);
                assert(arg_views(out@) =~= prev.push(v@));
            },
            Err(e) => {
                proof {
                    lemma_collect_prefix_err(outs, i as int, arg_views(out@), e@);
                }
                return Err(e);
            },
        }
        i = i + 1;
    }
    assert(outs.subrange(0, i as int) =~= outs);
    Ok(out)
}

fn options_from_raw(raws: &Vec<RawDecl>) -> (r: Result<Vec<ConfigOption>, PluginLoadError>)
    ensures
        match decls_outcome(raws@) {
            Ok(vs) => r matches Ok(v) && option_views(v@) == vs,
            Err(e) => r matches Err(x) && x@ == e,
        },
{
    let ghost outs = raws@.map_values(|r: RawDecl| decl_outcome(r));
    let mut out: Vec<ConfigOption> = Vec::new();
    let mut i: usize = 0;
    assert(outs.subrange(0, 0) =~= Seq::empty());
    assert(option_views(out@) =~= Seq::empty());
    while i < raws.len()
        invariant
            i <= raws@.len(),
            outs == raws@.map_values(|r: RawDecl| decl_outcome(r)),
            collect_results(outs.subrange(0, i as int)) == Ok::<Seq<DeclView>, LoadErrorView>(
                option_views(out@),
            ),
        decreases raws@.len() - i,
    {
        let a = ConfigOption::from_raw(&raws[i]);
        match a {
            Ok(v) => {
                proof {
                    lemma_collect_prefix_ok(outs, i as int, option_views(out@), v@);
                }
                let ghost prev = option_views(out@);
                out.push(v);
                assert(option_views(out@) =~= prev.push(v@));
            },
            Err(e) => {
                proof {
                    lemma_collect_prefix_err(outs, i as int, option_views(out@), e@);
                }
                return Err(e);
            },
        }
        i = i + 1;
    }
    assert(outs.subrange(0, i as int) =~= outs);
    Ok(out)
}

fn variables_from_raw(raws: &Vec<RawVariable>) -> (r: Result<Vec<Variable>, PluginLoadError>)
    ensures
        match collect_results(raws@.map_values(|r: RawVariable| variable_outcome(r))) {
            Ok(vs) => r matches Ok(v) && variable_views(v@) == vs,
            Err(e) => r matches Err(x) && x@ == e,
        },
{
    let ghost outs = raws@.map_values(|r: RawVariable| variable_outcome(r));
    let mut out: Vec<Variable> = Vec::new();
    let mut i: usize = 0;
    assert(outs.subrange(0, 0) =~= Seq::empty());
    assert(variable_views(out@) =~= Seq::empty());
    while i < raws.len()
        invariant
            i <= raws@.len(),
            outs == raws@.map_values(|r: RawVariable| variable_outcome(r)),
            collect_results(outs.subrange(0, i as int)) == Ok::<Seq<VariableDeclView>, LoadErrorView>(
                variable_views(out@),
            ),
        decreases raws@.len() - i,
    {
        let a = Variable::from_raw(&raws[i]);
        match a {
            Ok(v) => {
                proof {
                    lemma_collect_prefix_ok(outs, i as int, variable_views(out@), v@);
                }
                let ghost prev = variable_views(out@);
                out.push(v);
                assert(variable_views(out@) =~= prev.push(v@));
            },
            Err(e) => {
                proof {
                    lemma_collect_prefix_err(outs, i as int, variable_views(out@), e@);
                }
                return Err(e);
            },
        }
        i = i + 1;
    }
    assert(outs.subrange(0, i as int) =~= outs);
    Ok(out)
}

impl Action {
    /// Checks a raw action.
    pub fn from_raw(raw: &RawAction) -> (r: Result<Action, PluginLoadError>)
        ensures
            result_view(r) == action_outcome(*raw),
    {
        let id = read(&raw.id)?;
        let name = read(&raw.name)?;
        let description = read(&raw.desc)?;
        let args = args_from_raw(&raw.args)?;
        Ok(Action { id, name, description, args })
    }
}

fn actions_from_raw(raws: &Vec<RawAction>) -> (r: Result<Vec<Action>, PluginLoadError>)
    ensures
        match collect_results(raws@.map_values(|r: RawAction| action_outcome(r))) {
            Ok(vs) => r matches Ok(v) && action_views(v@) == vs,
            Err(e) => r matches Err(x) && x@ == e,
        },
{
    let ghost outs = raws@.map_values(|r: RawAction| action_outcome(r));
    let mut out: Vec<Action> = Vec::new();
    let mut i: usize = 0;
    assert(outs.subrange(0, 0) =~= Seq::empty());
    assert(action_views(out@) =~= Seq::empty());
    while i < raws.len()
        invariant
            i <= raws@.len(),
            outs == raws@.map_values(|r: RawAction| action_outcome(r)),
            collect_results(outs.subrange(0, i as int)) == Ok::<Seq<ActionDeclView>, LoadErrorView>(
                action_views(out@),
            ),
        decreases raws@.len() - i,
    {
        let a = Action::from_raw(&raws[i]);
        match a {
            Ok(v) => {
                proof {
                    lemma_collect_prefix_ok(outs, i as int, action_views(out@), v@);
                }
                let ghost prev = action_views(out@);
                out.push(v);
                assert(action_views(out@) =~= prev.push(v@));
            },
            Err(e) => {
                proof {
                    lemma_collect_prefix_err(outs, i as int, action_views(out@), e@);
                }
                return Err(e);
            },
        }
        i = i + 1;
    }
    assert(outs.subrange(0, i as int) =~= outs);
    Ok(out)
}

impl Plugin {
    /// Checks a plugin declaration read from a plugin library.
    pub fn try_from_raw(raw: &RawPlugin) -> (r: Result<Plugin, PluginLoadError>)
        ensures
            result_view(r) == plugin_outcome(*raw),
    {
        let id = read(&raw.id)?;
        proof {
            reveal_strlit("deck");
            reveal_strlit("Plugin id can not be 'deck', as it is reserved");
        }
        let reserved = "deck";
        assert(reserved@ =~= deck_id());
        if str_eq(id.as_str(), reserved) {
            let m = owned("Plugin id can not be 'deck', as it is reserved");
            assert(m@ =~= reserved_id_message());
            return Err(PluginLoadError::FormatError(m));
        }
        let name = read(&raw.name)?;
        let description = read(&raw.desc)?;
        let variables = variables_from_raw(&raw.variables)?;
        let actions = actions_from_raw(&raw.actions)?;
        let config_options = options_from_raw(&raw.config_options)?;
        Ok(Plugin { name, description, id, actions, variables, config_options })
    }
}

/// An action argument checked against its declared type.
#[derive(Clone, Debug)]
pub enum ParsedArg {
    Bool(bool),
    Int(i32),
    /// The text of a floating-point argument; floating point is read where
    /// the argument is passed to the plugin.
    Float(String),
    Text(String),
}

/// What a checked argument is.
pub enum ParsedArgView {
    Bool(bool),
    Int(int),
    Float(Seq<char>),
    Text(Seq<char>),
}

impl View for ParsedArg {
    type V = ParsedArgView;

    open spec fn view(&self) -> ParsedArgView {
        match self {
            ParsedArg::Bool(b) => ParsedArgView::Bool(*b),
            ParsedArg::Int(i) => ParsedArgView::Int(*i as int),
            ParsedArg::Float(s) => ParsedArgView::Float(s@),
            ParsedArg::Text(s) => ParsedArgView::Text(s@),
        }
    }
}

/// Why action arguments were refused.
#[derive(Clone, Copy, Debug, PartialEq, Eq, Structural)]
pub enum ArgParseError {
    LengthMismatch,
    InvalidBool,
    InvalidInt,
    InvalidFloat,
    InteriorNul,
}

/// The value of the text `true` or `false`.
pub open spec fn bool_text(s: Seq<char>) -> Option<bool> {
    if s == seq!['t', 'r', 'u', 'e'] {
        Some(true)
    } else if s == seq!['f', 'a', 'l', 's', 'e'] {
        Some(false)
    } else {
        None
    }
}

/// An argument text checked against a declared type: booleans and integers
/// are read, floating-point text is kept as it is (it is read where it is
/// passed to the plugin), and text must hold no NUL character (it is passed
/// on as a C string).
pub open spec fn parse_arg_spec(t: PluginDataType, s: Seq<char>) -> Result<ParsedArgView, ArgParseError> {
    match t {
        PluginDataType::Bool => match bool_text(s) {
            Some(b) => Ok(ParsedArgView::Bool(b)),
            None => Err(ArgParseError::InvalidBool),
        },
        PluginDataType::Int => match parse_i32_spec(s) {
            Some(i) => Ok(ParsedArgView::Int(i)),
            None => Err(ArgParseError::InvalidInt),
        },
        PluginDataType::Float => Ok(ParsedArgView::Float(s)),
        _ => if s.contains('\0') {
            Err(ArgParseError::InteriorNul)
        } else {
            Ok(ParsedArgView::Text(s))
        },
    }
}

/// The arguments checked against the declared ones: as many as declared,
/// each checked in order, up to the first that is refused.
pub open spec fn parse_args_spec(proto: Seq<DeclView>, args: Seq<Seq<char>>) -> Result<
    Seq<ParsedArgView>,
    ArgParseError,
> {
    if proto.len() != args.len() {
        Err(ArgParseError::LengthMismatch)
    } else {
        collect_results(
            Seq::new(proto.len(), |i: int| parse_arg_spec(proto[i].data_type, args[i])),
        )
    }
}

/// Whether a checked argument is of the declared type: text for strings
/// and enum choices.
pub open spec fn has_declared_type(t: PluginDataType, a: ParsedArgView) -> bool {
    match t {
        PluginDataType::Bool => a is Bool,
        PluginDataType::Int => a is Int,
        PluginDataType::Float => a is Float,
        _ => a is Text,
    }
}

/// All results are `Ok` when their collection is, with the collected
/// values in order.
pub proof fn lemma_collect_ok<V, E>(s: Seq<Result<V, E>>)
    requires
        collect_results(s) is Ok,
    ensures
        collect_results(s)->Ok_0.len() == s.len(),
        forall|k: int| 0 <= k < s.len() ==> s[k] == Ok::<V, E>(#[trigger] collect_results(s)->Ok_0[k]),
    decreases s.len(),
{
    if s.len() > 0 {
        lemma_collect_ok(s.drop_last());
        let vs = collect_results(s.drop_last())->Ok_0;
        assert forall|k: int| 0 <= k < s.len() implies s[k] == Ok::<V, E>(
            #[trigger] collect_results(s)->Ok_0[k],
        ) by {
            if k < s.len() - 1 {
                assert(s.drop_last()[k] == s[k]);
                assert(collect_results(s)->Ok_0[k] == vs[k]);
            }
        }
    }
}

/// Arguments that pass the check are as many as the declared ones, each of
/// its declared type: a plugin is called only with what its declaration
/// asks for.
pub proof fn law_checked_args_match_declaration(proto: Seq<DeclView>, args: Seq<Seq<char>>)
    requires
        parse_args_spec(proto, args) is Ok,
    ensures
        args.len() == proto.len(),
        parse_args_spec(proto, args)->Ok_0.len() == proto.len(),
        forall|k: int|
            0 <= k < proto.len() ==> has_declared_type(
                proto[k].data_type,
                #[trigger] parse_args_spec(proto, args)->Ok_0[k],
            ),
{
    let outs = Seq::new(proto.len(), |i: int| parse_arg_spec(proto[i].data_type, args[i]));
    lemma_collect_ok(outs);
    assert forall|k: int| 0 <= k < proto.len() implies has_declared_type(
        proto[k].data_type,
        #[trigger] parse_args_spec(proto, args)->Ok_0[k],
    ) by {
        assert(outs[k] == parse_arg_spec(proto[k].data_type, args[k]));
    }
}

/// An accepted argument is the value its text names: a boolean is `true`
/// exactly for the text `true` (and the text is `true` or `false`), an
/// integer is the number its decimal text gives, and floating-point,
/// string and enum arguments keep their text.
pub proof fn law_checked_args_are_their_texts(proto: Seq<DeclView>, args: Seq<Seq<char>>, k: int)
    requires
        parse_args_spec(proto, args) is Ok,
        0 <= k < proto.len(),
    ensures
        proto[k].data_type == PluginDataType::Bool ==> (args[k] == "true"@ || args[k] == "false"@)
            && parse_args_spec(proto, args)->Ok_0[k] == ParsedArgView::Bool(args[k] == "true"@),
        proto[k].data_type == PluginDataType::Int ==> parse_i32_spec(args[k]) is Some
            && parse_args_spec(proto, args)->Ok_0[k] == ParsedArgView::Int(
            parse_i32_spec(args[k])->0,
        ),
        proto[k].data_type == PluginDataType::Float ==> parse_args_spec(proto, args)->Ok_0[k]
            == ParsedArgView::Float(args[k]),
        (proto[k].data_type == PluginDataType::String || proto[k].data_type
            == PluginDataType::Enum) ==> parse_args_spec(proto, args)->Ok_0[k]
            == ParsedArgView::Text(args[k]),
{
    reveal_strlit("true");
    reveal_strlit("false");
    let outs = Seq::new(proto.len(), |i: int| parse_arg_spec(proto[i].data_type, args[i]));
    lemma_collect_ok(outs);
    assert(outs[k] == parse_arg_spec(proto[k].data_type, args[k]));
    assert("true"@ =~= seq!['t', 'r', 'u', 'e']);
    assert("false"@ =~= seq!['f', 'a', 'l', 's', 'e']);
    assert("true"@.len() != "false"@.len());
}

/// The views of checked arguments.
pub open spec fn parsed_views(v: Seq<ParsedArg>) -> Seq<ParsedArgView> {
    v.map_values(|a: ParsedArg| a@)
}

/// The position of the first declared action with id `act_id`.
pub open spec fn action_position(p: PluginView, act_id: Seq<char>) -> Option<int> {
    if exists|i: int| 0 <= i < p.actions.len() && p.actions[i].id == act_id {
        Some(
            choose|i: int|
                0 <= i < p.actions.len() && p.actions[i].id == act_id && forall|j: int|
                    0 <= j < i ==> p.actions[j].id != act_id,
        )
    } else {
        None
    }
}

fn parse_arg(t: PluginDataType, s: &String) -> (r: Result<ParsedArg, ArgParseError>)
    ensures
        match parse_arg_spec(t, s@) {
            Ok(v) => r matches Ok(a) && a@ == v,
            Err(e) => r == Err::<ParsedArg, ArgParseError>(e),
        },
{
    match t {
        PluginDataType::Bool => match parse_bool(s.as_str()) {
            Some(b) => Ok(ParsedArg::Bool(b)),
            None => Err(ArgParseError::InvalidBool),
        },
        PluginDataType::Int => match parse_i32(s.as_str()) {
            Some(i) => Ok(ParsedArg::Int(i)),
            None => Err(ArgParseError::InvalidInt),
        },
        PluginDataType::Float => Ok(ParsedArg::Float(s.clone())),
        _ => if contains_char(s.as_str(), '\0') {
            Err(ArgParseError::InteriorNul)
        } else {
            Ok(ParsedArg::Text(s.clone()))
        },
    }
}

impl Plugin {
    /// Checks action arguments against the declared ones.
    pub fn parse_args(proto: &Vec<ActionArg>, args: &Vec<String>) -> (r: Result<
        Vec<ParsedArg>,
        ArgParseError,
    >)
        ensures
            match parse_args_spec(arg_views(proto@), views(args@)) {
                Ok(vs) => r matches Ok(v) && parsed_views(v@) == vs,
                Err(e) => r == Err::<Vec<ParsedArg>, ArgParseError>(e),
            },
    {
        if proto.len() != args.len() {
            return Err(ArgParseError::LengthMismatch);
        }
        let ghost pv = arg_views(proto@);
        let ghost av = views(args@);
        let ghost outs = Seq::new(pv.len(), |i: int| parse_arg_spec(pv[i].data_type, av[i]));
        let mut out: Vec<ParsedArg> = Vec::new();
        let mut i: usize = 0;
        assert(outs.subrange(0, 0) =~= Seq::empty());
        assert(parsed_views(out@) =~= Seq::empty());
        while i < proto.len()
            invariant
                i <= proto@.len(),
                proto@.len() == args@.len(),
                pv == arg_views(proto@),
                av == views(args@),
                outs == Seq::new(pv.len(), |i: int| parse_arg_spec(pv[i].data_type, av[i])),
                collect_results(outs.subrange(0, i as int)) == Ok::<Seq<ParsedArgView>, ArgParseError>(
                    parsed_views(out@),
                ),
            decreases proto@.len() - i,
        {
            let a = parse_arg(proto[i].data_type, &args[i]);
            assert(outs[i as int] == parse_arg_spec(proto@[i as int].data_type, args@[i as int]@));
            match a {
                Ok(v) => {
                    proof {
                        lemma_collect_prefix_ok(outs, i as int, parsed_views(out@), v@);
                    }
                    let ghost prev = parsed_views(out@);
                    out.push(v);
                    assert(parsed_views(out@) =~= prev.push(v@));
                },
                Err(e) => {
                    proof {
                        lemma_collect_prefix_err(outs, i as int, parsed_views(out@), e);
                    }
                    return Err(e);
                },
            }
            i = i + 1;
        }
        assert(outs.subrange(0, i as int) =~= outs);
        Ok(out)
    }

    fn find_action(&self, act_id: &str) -> (r: Option<usize>)
        ensures
            match r {
                Some(i) => i < self.actions@.len() && self.actions@[i as int].id@ == act_id@
                    && forall|j: int| 0 <= j < i ==> self.actions@[j].id@ != act_id@,
                None => forall|j: int|
                    0 <= j < self.actions@.len() ==> self.actions@[j].id@ != act_id@,
            },
            r matches Some(i) ==> action_position(self@, act_id@) == Some(i as int),
            r is None ==> action_position(self@, act_id@) is None,
    {
        let mut i: usize = 0;
        while i < self.actions.len()
            invariant
                i <= self.actions@.len(),
                forall|j: int| 0 <= j < i ==> self.actions@[j].id@ != act_id@,
            decreases self.actions@.len() - i,
        {
            if str_eq(self.actions[i].id.as_str(), act_id) {
                proof {
                    let p = self@;
                    assert(p.actions[i as int].id == act_id@);
                    let k = choose|k: int|
                        0 <= k < p.actions.len() && p.actions[k].id == act_id@ && forall|j: int|
                            0 <= j < k ==> p.actions[j].id != act_id@;
                    assert(k == i) by {
                        if k < i {
                            assert(self.actions@[k].id@ == p.actions[k].id);
                        } else if k > i {
                            assert(p.actions[i as int].id == act_id@);
                        }
                    }
                }
                return Some(i);
            }
            i = i + 1;
        }
        proof {
            let p = self@;
            assert forall|j: int| 0 <= j < p.actions.len() implies p.actions[j].id != act_id@ by {
                assert(p.actions[j].id == self.actions@[j].id@);
            }
        }
        None
    }

    /// Looks up an action and checks its arguments before the plugin is
    /// called: an unknown action and refused arguments are errors; otherwise
    /// the checked arguments are given.
    pub fn prepare_action(&self, act_id: &str, args: &Vec<String>) -> (r: Result<
        Vec<ParsedArg>,
        ActionError,
    >)
        ensures
            match action_position(self@, act_id@) {
                None => r matches Err(e) && e@ == ActionErrorView::ActionNotFound {
                    action: act_id@,
                    plugin: self.id@,
                },
                Some(i) => match parse_args_spec(self@.actions[i].args, views(args@)) {
                    Ok(vs) => r matches Ok(v) && parsed_views(v@) == vs,
                    Err(_) => r matches Err(e) && e@ == ActionErrorView::InvalidArgs(act_id@),
                },
            },
    {
        match self.find_action(act_id) {
            None => Err(ActionError::ActionNotFound { plugin: self.id.clone(), action: owned(act_id) }),
            Some(i) => {
                assert(self@.actions[i as int].args == arg_views(self.actions@[i as int].args@));
                match Plugin::parse_args(&self.actions[i].args, args) {
                    Ok(v) => Ok(v),
                    Err(_) => Err(ActionError::InvalidArgs(owned(act_id))),
                }
            },
        }
    }
}

/// The text a plugin reply carries, or what stands for it when it cannot be
/// read: `<no error description>`.
pub open spec fn reply_error_text(content: Result<Seq<char>, PtrToStrError>) -> Seq<char> {
    match content {
        Ok(s) => s,
        Err(_) => seq!['<', 'n', 'o', ' ', 'e', 'r', 'r', 'o', 'r', ' ', 'd', 'e', 's', 'c', 'r', 'i',
            'p', 't', 'i', 'o', 'n', '>'],
    }
}

fn error_text(content: &ReadString) -> (r: String)
    ensures
        r@ == reply_error_text(read_view(*content)),
{
    match content {
        Ok(s) => s.clone(),
        Err(_) => {
            proof {
                reveal_strlit("<no error description>");
            }
            let t = owned("<no error description>");
            assert(t@ =~= reply_error_text(read_view(*content)));
            t
        },
    }
}

impl Plugin {
    /// The outcome of an update, from the plugin's reply: status 0 is
    /// success, otherwise the reply's text is the error.
    pub fn reply_status(status: i32, content: &ReadString) -> (r: Result<(), String>)
        ensures
            status == 0 ==> r is Ok,
            status != 0 ==> (r matches Err(m) && m@ == reply_error_text(read_view(*content))),
    {
        if status == 0 {
            Ok(())
        } else {
            Err(error_text(content))
        }
    }

    /// The outcome of running an action, from the plugin's reply.
    pub fn reply_action(status: i32, content: &ReadString) -> (r: Result<(), ActionError>)
        ensures
            status == 0 ==> r is Ok,
            status != 0 ==> (r matches Err(e) && e@ == ActionErrorView::PluginError(
                reply_error_text(read_view(*content)),
            )),
    {
        if status == 0 {
            Ok(())
        } else {
            Err(ActionError::PluginError(error_text(content)))
        }
    }

    /// The error of a failed initialization, from the plugin's reply: its
    /// text, or an empty text when it cannot be read.
    pub fn reply_init_error(content: &ReadString) -> (r: String)
        ensures
            r@ == (match read_view(*content) {
                Ok(s) => s,
                Err(_) => Seq::<char>::empty(),
            }),
    {
        match content {
            Ok(s) => s.clone(),
            Err(_) => String::new(),
        }
    }

    /// The value of a variable, from the plugin's reply. A successful reply
    /// must carry a readable text.
    pub fn reply_value(status: i32, content: &ReadString) -> (r: Result<String, String>)
        requires
            status == 0 ==> content is Ok,
        ensures
            status == 0 ==> (r matches Ok(v) && Ok::<Seq<char>, PtrToStrError>(v@) == read_view(
                *content,
            )),
            status != 0 ==> (r matches Err(m) && m@ == reply_error_text(read_view(*content))),
    {
        if status == 0 {
            match content {
                Ok(s) => Ok(s.clone()),
                Err(_) => Err(String::new()),
            }
        } else {
            Err(error_text(content))
        }
    }

    /// The variants of an enum argument, from the plugin's reply: the
    /// reply's text split at each newline. A successful reply must carry a
    /// readable text.
    pub fn reply_enum_variants(status: i32, content: &ReadString) -> (r: Result<Vec<String>, String>)
        requires
            status == 0 ==> content is Ok,
        ensures
            status == 0 ==> (r matches Ok(v) && is_split_of(views(v@), read_view(*content)->Ok_0, '\n')),
            status != 0 ==> (r matches Err(m) && m@ == reply_error_text(read_view(*content))),
    {
        if status == 0 {
            match content {
                Ok(s) => Ok(split_on(s.as_str(), '\n')),
                Err(_) => Err(String::new()),
            }
        } else {
            Err(error_text(content))
        }
    }
}

} // verus!
