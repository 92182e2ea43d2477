//! The store of loaded plugins: what each one declares, the last values of
//! their variables, and the requests that the deck hands to them.

use vstd::prelude::*;

use crate::buttons::RawDeckButtonAction;
use crate::error::{ActionError, ActionErrorView};
use crate::keyed::{
    has_key, index_of_key, insert_all, keys_unique, lemma_entry_insert, lemma_index_of_key,
    lemma_map_of_dom, lemma_map_of_from_entry, lemma_map_of_value, map_of,
};
use crate::listing::{
    action_group_views, action_lister, actions_of, dotted, groups_of, lemma_concat_step,
    lemma_groups_step, option_group_views, option_lister, options_of, plugin_data, ungrouped,
    variable_group_views, variable_lister, variables_of,
};
use crate::models::{
    listed_action_views, listed_option_views, listed_variable_views, PluginAction,
    PluginActionGroup, PluginConfigOption, PluginConfigOptionGroup, PluginData, PluginVariable,
    PluginVariableGroup,
};
use crate::plugin::{
    action_position, has_declared_type, law_checked_args_match_declaration, parse_args_spec,
    parsed_views, ParsedArg, ParsedArgView, Plugin, PluginView,
};
use crate::strmap::{pair_views, StringMap};
use crate::text::{concat, concat3, concat5, owned, split_once, split_once_spec, str_eq, views};

verus! {

/// The views of plugins.
pub open spec fn plugin_views(v: Seq<Plugin>) -> Seq<PluginView> {
    v.map_values(|p: Plugin| p@)
}

/// Plugins as entries keyed by their ids.
pub open spec fn plugin_entries(ps: Seq<PluginView>) -> Seq<(Seq<char>, PluginView)> {
    ps.map_values(|p: PluginView| (p.id, p))
}

/// The text given for a variable that has no value: `Not Found`.
pub open spec fn not_found_text() -> Seq<char> {
    "Not Found"@
}

/// What a variable renders as: its value, or `Not Found`.
pub open spec fn rendered_variable(vars: Map<Seq<char>, Seq<char>>, id: Seq<char>) -> Seq<char> {
    if vars.contains_key(id) {
        vars[id]
    } else {
        not_found_text()
    }
}

/// The values that one plugin reported for its variables, in the order it
/// declares them.
pub struct VariableValues {
    pub plugin_id: String,
    pub values: Vec<String>,
}

/// How the update of one plugin went: whether it finished without error in
/// time, and then the values of its variables, in the order it declares
/// them.
pub struct UpdateOutcome {
    pub plugin_id: String,
    pub updated: bool,
    pub values: Vec<String>,
}

/// The reports of the plugins whose update went well, in order.
pub open spec fn successful_reports(o: Seq<UpdateOutcome>) -> Seq<(Seq<char>, Seq<Seq<char>>)>
    decreases o.len(),
{
    if o.len() == 0 {
        Seq::empty()
    } else if o.last().updated {
        successful_reports(o.drop_last()).push((o.last().plugin_id@, views(o.last().values@)))
    } else {
        successful_reports(o.drop_last())
    }
}

/// The variable reports of an update round: those of the plugins whose
/// update went well, in order; the others report nothing.
pub fn reports_of_updates(outcomes: Vec<UpdateOutcome>) -> (r: Vec<VariableValues>)
    ensures
        reported_views(r@) == successful_reports(outcomes@),
{
    let ghost all = outcomes@;
    let ghost n = all.len() as int;
    let ghost mut k: int = 0;
    let mut rest = outcomes;
    let mut out: Vec<VariableValues> = Vec::new();
    assert(all.subrange(0, 0) =~= Seq::<UpdateOutcome>::empty());
    assert(reported_views(out@) =~= Seq::<(Seq<char>, Seq<Seq<char>>)>::empty());
    assert(rest@ =~= all.subrange(0, n));
    while rest.len() > 0
        invariant
            0 <= k <= n,
            n == all.len(),
            rest@ == all.subrange(k, n),
            reported_views(out@) == successful_reports(all.subrange(0, k)),
        decreases rest@.len(),
    {
        let ghost before = rest@;
        let u = rest.remove(0);
        proof {
            assert(u == all[k]);
            assert(rest@ =~= all.subrange(k + 1, n));
            assert(all.subrange(0, k + 1).drop_last() =~= all.subrange(0, k));
            assert(all.subrange(0, k + 1).last() == u);
        }
        if u.updated {
            let ghost prev = reported_views(out@);
            let ghost uv = (u.plugin_id@, views(u.values@));
            out.push(VariableValues { plugin_id: u.plugin_id, values: u.values });
            assert(reported_views(out@) =~= prev.push(uv));
        }
        proof {
            k = k + 1;
        }
    }
    assert(all.subrange(0, k) =~= all);
    out
}

/// What reported values are.
pub open spec fn reported_views(v: Seq<VariableValues>) -> Seq<(Seq<char>, Seq<Seq<char>>)> {
    v.map_values(|u: VariableValues| (u.plugin_id@, views(u.values@)))
}

/// The variable entries of one plugin's report: `plugin.variable` and its
/// value, for each declared variable that has a value.
pub open spec fn value_pairs(p: PluginView, values: Seq<Seq<char>>) -> Seq<(Seq<char>, Seq<char>)> {
    let n = if p.variables.len() < values.len() {
        p.variables.len()
    } else {
        values.len()
    };
    Seq::new(n, |k: int| (dotted(p.id, p.variables[k].id), values[k]))
}

/// The variable entries of all reports, in order; a report of a plugin that
/// is not loaded gives none.
pub open spec fn cache_pairs(
    m: Map<Seq<char>, PluginView>,
    reports: Seq<(Seq<char>, Seq<Seq<char>>)>,
) -> Seq<(Seq<char>, Seq<char>)>
    decreases reports.len(),
{
    if reports.len() == 0 {
        Seq::empty()
    } else {
        let u = reports.last();
        cache_pairs(m, reports.drop_last()) + if m.contains_key(u.0) {
            value_pairs(m[u.0], u.1)
        } else {
            Seq::empty()
        }
    }
}

/// A checked request to run an action: which plugin, which action, and the
/// checked arguments.
pub struct ActionRequest {
    pub plugin_id: String,
    pub action_id: String,
    pub args: Vec<ParsedArg>,
}

/// What an action request is.
pub struct ActionRequestView {
    pub plugin_id: Seq<char>,
    pub action_id: Seq<char>,
    pub args: Seq<ParsedArgView>,
}

impl View for ActionRequest {
    type V = ActionRequestView;

    open spec fn view(&self) -> ActionRequestView {
        ActionRequestView {
            plugin_id: self.plugin_id@,
            action_id: self.action_id@,
            args: parsed_views(self.args@),
        }
    }
}

/// What running the action `id` (`plugin.action`) with `args` comes to: a
/// malformed id, an unknown plugin or action, and refused arguments are
/// errors; otherwise the request to hand to the plugin.
pub open spec fn run_outcome(
    m: Map<Seq<char>, PluginView>,
    id: Seq<char>,
    args: Seq<Seq<char>>,
) -> Result<ActionRequestView, ActionErrorView> {
    match split_once_spec(id, '.') {
        None => Err(ActionErrorView::InvalidFormat(id)),
        Some((pid, aid)) => if pid.len() == 0 || aid.len() == 0 {
            Err(ActionErrorView::InvalidFormat(id))
        } else if !m.contains_key(pid) {
            Err(ActionErrorView::PluginNotFound(pid))
        } else {
            match action_position(m[pid], aid) {
                None => Err(ActionErrorView::ActionNotFound { action: aid, plugin: m[pid].id }),
                Some(i) => match parse_args_spec(m[pid].actions[i].args, args) {
                    Ok(vs) => Ok(ActionRequestView { plugin_id: pid, action_id: aid, args: vs }),
                    Err(_) => Err(ActionErrorView::InvalidArgs(aid)),
                },
            }
        },
    }
}

/// A request for the variants of an enum argument: which plugin, and the
/// argument's id below the plugin (`action.argument`).
pub struct EnumArgRequest {
    pub plugin_id: String,
    pub arg_id: String,
}

impl View for EnumArgRequest {
    type V = (Seq<char>, Seq<char>);

    open spec fn view(&self) -> (Seq<char>, Seq<char>) {
        (self.plugin_id@, self.arg_id@)
    }
}

/// What asking for the variants of the enum argument `id`
/// (`plugin.action.argument`) comes to: the plugin and the argument's id
/// below it, or why the id is refused.
pub open spec fn enum_arg_outcome(m: Map<Seq<char>, PluginView>, id: Seq<char>) -> Result<
    (Seq<char>, Seq<char>),
    Seq<char>,
> {
    match split_once_spec(id, '.') {
        None => Err("Invalid arg id format: "@ + id),
        Some((pid, rest)) => if m.contains_key(pid) {
            Ok((pid, rest))
        } else {
            Err("Failed to find plugin"@)
        },
    }
}

/// A checked request to set a configuration option of a plugin.
pub struct ConfigRequest {
    pub plugin_id: String,
    pub option_id: String,
    pub value: String,
}

/// Whether a plugin declares the configuration option `id`.
pub open spec fn has_option(p: PluginView, id: Seq<char>) -> bool {
    exists|k: int| 0 <= k < p.config_options.len() && p.config_options[k].id == id
}

/// The position of the plugin with id `id` among plugins with unique ids.
fn find_plugin(v: &Vec<Plugin>, id: &str) -> (r: Option<usize>)
    requires
        keys_unique(plugin_entries(plugin_views(v@))),
    ensures
        match r {
            Some(i) => i < v@.len() && v@[i as int].id@ == id@ && i == index_of_key(
                plugin_entries(plugin_views(v@)),
                id@,
            ),
            None => !has_key(plugin_entries(plugin_views(v@)), id@),
        },
{
    let ghost e = plugin_entries(plugin_views(v@));
    let mut i: usize = 0;
    while i < v.len()
        invariant
            i <= v@.len(),
            e == plugin_entries(plugin_views(v@)),
            keys_unique(e),
            forall|j: int| 0 <= j < i ==> e[j].0 != id@,
        decreases v@.len() - i,
    {
        assert(e[i as int].0 == v@[i as int].id@);
        if str_eq(v[i].id.as_str(), id) {
            proof {
                lemma_index_of_key(e, id@, i as int);
            }
            return Some(i);
        }
        i = i + 1;
    }
    None
}

/// The loaded plugins, keyed by id, and the last values of their variables.
pub struct PluginStore {
    plugins: Vec<Plugin>,
    variable_cache: StringMap,
}

impl PluginStore {
    #[verifier::type_invariant]
    closed spec fn inv(self) -> bool {
        keys_unique(plugin_entries(plugin_views(self.plugins@)))
    }

    /// The plugins, in the order they were loaded; no id occurs twice.
    pub closed spec fn plugins(self) -> Seq<PluginView> {
        plugin_views(self.plugins@)
    }

    /// The plugins by id.
    pub open spec fn plugin_map(self) -> Map<Seq<char>, PluginView> {
        map_of(plugin_entries(self.plugins()))
    }

    /// The last values of the variables, by `plugin.variable`.
    pub closed spec fn variables(self) -> Map<Seq<char>, Seq<char>> {
        self.variable_cache.map()
    }

    /// A store of the given plugins, a later plugin with an id replacing an
    /// earlier one in its place, and no variable values yet.
    pub fn new(plugins: Vec<Plugin>) -> (r: Self)
        ensures
            plugin_entries(r.plugins()) == insert_all(
                Seq::empty(),
                plugin_entries(plugin_views(plugins@)),
            ),
            r.variables() == Map::<Seq<char>, Seq<char>>::empty(),
    {
        let ghost all = plugin_entries(plugin_views(plugins@));
        let ghost n = plugins@.len();
        let mut rest = plugins;
        let total = rest.len();
        assert(n == total);
        let mut out: Vec<Plugin> = Vec::new();
        let mut k: usize = 0;
        assert(plugin_entries(plugin_views(out@)) =~= Seq::<(Seq<char>, PluginView)>::empty());
        assert(all.subrange(0, 0) =~= Seq::<(Seq<char>, PluginView)>::empty());
        assert(plugin_entries(plugin_views(rest@)) =~= all.subrange(0, n as int));
        while rest.len() > 0
            invariant
                k <= n,
                n <= usize::MAX,
                all.len() == n,
                rest@.len() == n - k,
                plugin_entries(plugin_views(rest@)) == all.subrange(k as int, n as int),
                plugin_entries(plugin_views(out@)) == insert_all(
                    Seq::empty(),
                    all.subrange(0, k as int),
                ),
                keys_unique(plugin_entries(plugin_views(out@))),
            decreases rest@.len(),
        {
            let ghost e = plugin_entries(plugin_views(out@));
            let ghost before = rest@;
            let p = rest.remove(0);
            let ghost pv = p@;
            proof {
                assert(plugin_entries(plugin_views(before))[0] == all.subrange(k as int, n as int)[0]);
                assert(all[k as int] == (pv.id, pv));
                assert forall|j: int| 0 <= j < rest@.len() implies plugin_entries(plugin_views(rest@))[j]
                    == all.subrange(k + 1, n as int)[j] by {
                    assert(rest@[j] == before[j + 1]);
                    assert(plugin_entries(plugin_views(before))[j + 1] == all.subrange(
                        k as int,
                        n as int,
                    )[j + 1]);
                }
                assert(plugin_entries(plugin_views(rest@)) =~= all.subrange(k + 1, n as int));
                assert(all.subrange(0, k + 1).drop_last() =~= all.subrange(0, k as int));
                assert(all.subrange(0, k + 1).last() == all[k as int]);
                lemma_entry_insert(e, pv.id, pv);
            }
            match find_plugin(&out, p.id.as_str()) {
                Some(i) => {
                    out.remove(i);
                    out.insert(i, p);
                    assert(plugin_entries(plugin_views(out@)) =~= e.update(i as int, (pv.id, pv)));
                },
                None => {
                    out.push(p);
                    assert(plugin_entries(plugin_views(out@)) =~= e.push((pv.id, pv)));
                },
            }
            k = k + 1;
        }
        proof {
            assert(all.subrange(0, n as int) =~= all);
        }
        PluginStore { plugins: out, variable_cache: StringMap::new() }
    }

    fn find(&self, id: &str) -> (r: Option<usize>)
        ensures
            r matches Some(i) ==> i < self.plugins().len() && self.plugins()[i as int].id == id@
                && self.plugin_map().contains_key(id@) && self.plugin_map()[id@] == self.plugins()[i as int],
            r is None ==> !self.plugin_map().contains_key(id@),
    {
        proof {
            use_type_invariant(self);
            lemma_map_of_dom(plugin_entries(self.plugins()), id@);
        }
        let r = find_plugin(&self.plugins, id);
        proof {
            if let Some(i) = r {
                lemma_map_of_value(plugin_entries(self.plugins()), i as int);
            }
        }
        r
    }

    /// The loaded plugins' declarations, in order.
    pub fn declarations(&self) -> (r: &Vec<Plugin>)
        ensures
            plugin_views(r@) == self.plugins(),
    {
        &self.plugins
    }

    /// Replaces the variable values by the ones the plugins reported after
    /// they were updated: each reported value
    /// is kept under `plugin.variable`, a later report for a name replacing
    /// an earlier one.
    pub fn update_variables(&mut self, reports: Vec<VariableValues>)
        ensures
            final(self).plugins() == old(self).plugins(),
            final(self).variables() == map_of(
                cache_pairs(old(self).plugin_map(), reported_views(reports@)),
            ),
            forall|j: int, k: int|
                round_entry(old(self).plugin_map(), reported_views(reports@), j, k)
                    && sole_value_for_key(old(self).plugin_map(), reported_views(reports@), j, k)
                    ==> final(self).variables().contains_key(
                    #[trigger] round_key(old(self).plugin_map(), reported_views(reports@), j, k),
                ) && final(self).variables()[round_key(
                    old(self).plugin_map(),
                    reported_views(reports@),
                    j,
                    k,
                )] == reports@[j].values@[k]@,
    {
        let ghost m = self.plugin_map();
        let ghost rv = reported_views(reports@);
        let mut pairs: Vec<(String, String)> = Vec::new();
        let mut i: usize = 0;
        assert(rv.subrange(0, 0) =~= Seq::<(Seq<char>, Seq<Seq<char>>)>::empty());
        assert(pair_views(pairs@) =~= Seq::<(Seq<char>, Seq<char>)>::empty());
        while i < reports.len()
            invariant
                i <= reports@.len(),
                m == self.plugin_map(),
                rv == reported_views(reports@),
                pair_views(pairs@) == cache_pairs(m, rv.subrange(0, i as int)),
            decreases reports@.len() - i,
        {
            let ghost before = pair_views(pairs@);
            let u = &reports[i];
            assert(rv[i as int] == (u.plugin_id@, views(u.values@)));
            match self.find(u.plugin_id.as_str()) {
                Some(pi) => {
                    let p = &self.plugins[pi];
                    let ghost pv = p@;
                    let mut k: usize = 0;
                    while k < p.variables.len() && k < u.values.len()
                        invariant
                            k <= p.variables@.len(),
                            k <= u.values@.len(),
                            pv == p@,
                            pair_views(pairs@) == before + value_pairs(pv, views(u.values@)).subrange(
                                0,
                                k as int,
                            ),
                        decreases p.variables@.len() - k,
                    {
                        let key = concat3(p.id.as_str(), ".", p.variables[k].id.as_str());
                        let value = u.values[k].clone();
                        let ghost mid = pair_views(pairs@);
                        proof {
                            reveal_strlit(".");
                            assert(pv.variables[k as int].id == p.variables@[k as int].id@);
                            assert(key@ == dotted(pv.id, pv.variables[k as int].id));
                        }
                        pairs.push((key, value));
                        assert(pair_views(pairs@) =~= mid.push(
                            value_pairs(pv, views(u.values@))[k as int],
                        ));
                        k = k + 1;
                        assert(value_pairs(pv, views(u.values@)).subrange(0, k as int) =~= value_pairs(
                            pv,
                            views(u.values@),
                        ).subrange(0, k - 1).push(value_pairs(pv, views(u.values@))[k - 1]));
                    }
                    assert(value_pairs(pv, views(u.values@)).subrange(0, k as int) =~= value_pairs(
                        pv,
                        views(u.values@),
                    ));
                },
                None => {
                    assert(before + Seq::<(Seq<char>, Seq<char>)>::empty() =~= before);
                },
            }
            assert(rv.subrange(0, i + 1).drop_last() =~= rv.subrange(0, i as int));
            i = i + 1;
        }
        assert(rv.subrange(0, i as int) =~= rv);
        proof {
            use_type_invariant(&*self);
        }
        self.variable_cache = StringMap::from_pairs(pairs);
        proof {
            assert forall|j: int, k: int|
                round_entry(m, rv, j, k) && sole_value_for_key(m, rv, j, k) implies self.variables().contains_key(
                #[trigger] round_key(m, rv, j, k),
            ) && self.variables()[round_key(m, rv, j, k)] == reports@[j].values@[k]@ by {
                law_update_sets_each_variable(m, rv, j, k);
                assert(rv[j].1[k] == reports@[j].values@[k]@);
            }
        }
    }

    /// The value of the variable `id` (`plugin.variable`), or the error
    /// `Not Found`.
    pub fn try_resolve_variable(&self, id: &str) -> (r: Result<String, String>)
        ensures
            self.variables().contains_key(id@) ==> r == Ok::<String, String>(r->Ok_0) && r->Ok_0@
                == self.variables()[id@],
            !self.variables().contains_key(id@) ==> r is Err && r->Err_0@ == not_found_text(),
    {
        match self.variable_cache.get(id) {
            Some(v) => Ok(v),
            None => Err(owned("Not Found")),
        }
    }

    /// What the variable `id` renders as: its value, or `Not Found`.
    pub fn render_variable(&self, id: &str) -> (r: String)
        ensures
            r@ == rendered_variable(self.variables(), id@),
    {
        match self.try_resolve_variable(id) {
            Ok(s) => s,
            Err(s) => s,
        }
    }

    /// Checks a button action (`plugin.action` with its arguments) against
    /// the loaded plugins and gives the request to hand to the plugin.
    pub fn try_run_action(&self, act: &RawDeckButtonAction) -> (r: Result<
        ActionRequest,
        ActionError,
    >)
        ensures
            match run_outcome(self.plugin_map(), act.id@, views(act.args@)) {
                Ok(v) => r matches Ok(q) && q@ == v,
                Err(e) => r matches Err(x) && x@ == e,
            },
    {
        match split_once(act.id.as_str(), '.') {
            None => Err(ActionError::InvalidFormat(act.id.clone())),
            Some((pid, aid)) => {
                if pid.as_str().is_empty() || aid.as_str().is_empty() {
                    return Err(ActionError::InvalidFormat(act.id.clone()));
                }
                match self.find(pid.as_str()) {
                    None => Err(ActionError::PluginNotFound(pid)),
                    Some(i) => {
                        match self.plugins[i].prepare_action(aid.as_str(), &act.args) {
                            Ok(args) => Ok(ActionRequest { plugin_id: pid, action_id: aid, args }),
                            Err(e) => Err(e),
                        }
                    },
                }
            },
        }
    }

    /// Checks the id of an enum argument (`plugin.action.argument`) and
    /// gives the request to hand to the plugin.
    pub fn get_enum_arg_variants(&self, id: &str) -> (r: Result<EnumArgRequest, String>)
        ensures
            match enum_arg_outcome(self.plugin_map(), id@) {
                Ok(v) => r matches Ok(q) && q@ == v,
                Err(m) => r matches Err(x) && x@ == m,
            },
    {
        match split_once(id, '.') {
            None => Err(concat("Invalid arg id format: ", id)),
            Some((pid, rest)) => match self.find(pid.as_str()) {
                None => Err(owned("Failed to find plugin")),
                Some(_) => Ok(EnumArgRequest { plugin_id: pid, arg_id: rest }),
            },
        }
    }

    /// Checks a configuration option id (`plugin.option`) and gives the
    /// request to hand to the plugin.
    pub fn set_config(&self, id: &str, value: &str) -> (r: Result<ConfigRequest, String>)
        ensures
            match split_once_spec(id@, '.') {
                None => r is Err && r->Err_0@ == "Wrong config format"@,
                Some((pid, oid)) => if !self.plugin_map().contains_key(pid) {
                    r is Err && r->Err_0@ == "Cannot find plugin: `"@ + pid + "`"@
                } else if !has_option(self.plugin_map()[pid], oid) {
                    r is Err && r->Err_0@ == "Plugin `"@ + pid + "` does not have config option `"@
                        + oid + "`"@
                } else {
                    r is Ok && r->Ok_0.plugin_id@ == pid && r->Ok_0.option_id@ == oid
                        && r->Ok_0.value@ == value@
                },
            },
    {
        match split_once(id, '.') {
            None => Err(owned("Wrong config format")),
            Some((pid, oid)) => match self.find(pid.as_str()) {
                None => Err(concat3("Cannot find plugin: `", pid.as_str(), "`")),
                Some(i) => {
                    let p = &self.plugins[i];
                    let mut k: usize = 0;
                    let mut found = false;
                    while k < p.config_options.len()
                        invariant
                            k <= p.config_options@.len(),
                            found == exists|j: int|
                                0 <= j < k && p@.config_options[j].id == oid@,
                        decreases p.config_options@.len() - k,
                    {
                        assert(p@.config_options[k as int].id == p.config_options@[k as int].id@);
                        if str_eq(p.config_options[k].id.as_str(), oid.as_str()) {
                            found = true;
                        }
                        k = k + 1;
                    }
                    if !found {
                        Err(concat5("Plugin `", pid.as_str(), "` does not have config option `", oid.as_str(), "`"))
                    } else {
                        Ok(ConfigRequest { plugin_id: pid, option_id: oid, value: owned(value) })
                    }
                },
            },
        }
    }

    /// All variables of all plugins in one list, plugin after plugin.
    pub fn get_all_variables_ungrouped(&self) -> (r: Vec<PluginVariable>)
        ensures
            listed_variable_views(r@) == ungrouped(self.plugins(), variable_lister()),
    {
        let mut out: Vec<PluginVariable> = Vec::new();
        let mut i: usize = 0;
        assert(self.plugins().subrange(0, 0).map_values(variable_lister()) =~= Seq::empty());
        assert(listed_variable_views(out@) =~= ungrouped(self.plugins().subrange(0, 0), variable_lister()));
        while i < self.plugins.len()
            invariant
                i <= self.plugins@.len(),
                listed_variable_views(out@) == ungrouped(self.plugins().subrange(0, i as int), variable_lister()),
            decreases self.plugins@.len() - i,
        {
            let mut more = variables_of(&self.plugins[i]);
            let ghost before = out@;
            let ghost added = more@;
            out.append(&mut more);
            proof {
                lemma_concat_step(self.plugins(), variable_lister(), i as int);
                assert(self.plugins()[i as int] == self.plugins@[i as int]@);
                assert(listed_variable_views(out@) =~= listed_variable_views(before) + listed_variable_views(added));
            }
            i = i + 1;
        }
        assert(self.plugins().subrange(0, i as int) =~= self.plugins());
        out
    }

    /// The variables of each plugin, grouped with the plugin's id and name; a
    /// plugin without variables has no group.
    pub fn get_all_variables_grouped(&self) -> (r: Vec<PluginVariableGroup>)
        ensures
            variable_group_views(r@) == groups_of(self.plugins(), variable_lister()),
    {
        let mut out: Vec<PluginVariableGroup> = Vec::new();
        let mut i: usize = 0;
        assert(variable_group_views(out@) =~= groups_of(self.plugins().subrange(0, 0), variable_lister()));
        while i < self.plugins.len()
            invariant
                i <= self.plugins@.len(),
                variable_group_views(out@) == groups_of(self.plugins().subrange(0, i as int), variable_lister()),
            decreases self.plugins@.len() - i,
        {
            let p = &self.plugins[i];
            let items = variables_of(p);
            proof {
                lemma_groups_step(self.plugins(), variable_lister(), i as int);
                assert(self.plugins()[i as int] == p@);
            }
            if items.len() > 0 {
                let ghost before = variable_group_views(out@);
                out.push(PluginVariableGroup { id: p.id.clone(), name: p.name.clone(), variables: items });
                assert(variable_group_views(out@) =~= before.push(out@[out@.len() - 1]@));
            }
            i = i + 1;
        }
        assert(self.plugins().subrange(0, i as int) =~= self.plugins());
        out
    }

    /// All actions of all plugins in one list, plugin after plugin.
    pub fn get_all_actions_ungrouped(&self) -> (r: Vec<PluginAction>)
        ensures
            listed_action_views(r@) == ungrouped(self.plugins(), action_lister()),
    {
        let mut out: Vec<PluginAction> = Vec::new();
        let mut i: usize = 0;
        assert(self.plugins().subrange(0, 0).map_values(action_lister()) =~= Seq::empty());
        assert(listed_action_views(out@) =~= ungrouped(self.plugins().subrange(0, 0), action_lister()));
        while i < self.plugins.len()
            invariant
                i <= self.plugins@.len(),
                listed_action_views(out@) == ungrouped(self.plugins().subrange(0, i as int), action_lister()),
            decreases self.plugins@.len() - i,
        {
            let mut more = actions_of(&self.plugins[i]);
            let ghost before = out@;
            let ghost added = more@;
            out.append(&mut more);
            proof {
                lemma_concat_step(self.plugins(), action_lister(), i as int);
                assert(self.plugins()[i as int] == self.plugins@[i as int]@);
                assert(listed_action_views(out@) =~= listed_action_views(before) + listed_action_views(added));
            }
            i = i + 1;
        }
        assert(self.plugins().subrange(0, i as int) =~= self.plugins());
        out
    }

    /// The actions of each plugin, grouped with the plugin's id and name; a
    /// plugin without actions has no group.
    pub fn get_all_actions_grouped(&self) -> (r: Vec<PluginActionGroup>)
        ensures
            action_group_views(r@) == groups_of(self.plugins(), action_lister()),
    {
        let mut out: Vec<PluginActionGroup> = Vec::new();
        let mut i: usize = 0;
        assert(action_group_views(out@) =~= groups_of(self.plugins().subrange(0, 0), action_lister()));
        while i < self.plugins.len()
            invariant
                i <= self.plugins@.len(),
                action_group_views(out@) == groups_of(self.plugins().subrange(0, i as int), action_lister()),
            decreases self.plugins@.len() - i,
        {
            let p = &self.plugins[i];
            let items = actions_of(p);
            proof {
                lemma_groups_step(self.plugins(), action_lister(), i as int);
                assert(self.plugins()[i as int] == p@);
            }
            if items.len() > 0 {
                let ghost before = action_group_views(out@);
                out.push(PluginActionGroup { id: p.id.clone(), name: p.name.clone(), actions: items });
                assert(action_group_views(out@) =~= before.push(out@[out@.len() - 1]@));
            }
            i = i + 1;
        }
        assert(self.plugins().subrange(0, i as int) =~= self.plugins());
        out
    }

    /// All configuration options of all plugins in one list, plugin after plugin.
    pub fn get_all_config_options_ungrouped(&self) -> (r: Vec<PluginConfigOption>)
        ensures
            listed_option_views(r@) == ungrouped(self.plugins(), option_lister()),
    {
        let mut out: Vec<PluginConfigOption> = Vec::new();
        let mut i: usize = 0;
        assert(self.plugins().subrange(0, 0).map_values(option_lister()) =~= Seq::empty());
        assert(listed_option_views(out@) =~= ungrouped(self.plugins().subrange(0, 0), option_lister()));
        while i < self.plugins.len()
            invariant
                i <= self.plugins@.len(),
                listed_option_views(out@) == ungrouped(self.plugins().subrange(0, i as int), option_lister()),
            decreases self.plugins@.len() - i,
        {
            let mut more = options_of(&self.plugins[i]);
            let ghost before = out@;
            let ghost added = more@;
            out.append(&mut more);
            proof {
                lemma_concat_step(self.plugins(), option_lister(), i as int);
                assert(self.plugins()[i as int] == self.plugins@[i as int]@);
                assert(listed_option_views(out@) =~= listed_option_views(before) + listed_option_views(added));
            }
            i = i + 1;
        }
        assert(self.plugins().subrange(0, i as int) =~= self.plugins());
        out
    }

    /// The configuration options of each plugin, grouped with the plugin's id and name; a
    /// plugin without configuration options has no group.
    pub fn get_all_config_options_grouped(&self) -> (r: Vec<PluginConfigOptionGroup>)
        ensures
            option_group_views(r@) == groups_of(self.plugins(), option_lister()),
    {
        let mut out: Vec<PluginConfigOptionGroup> = Vec::new();
        let mut i: usize = 0;
        assert(option_group_views(out@) =~= groups_of(self.plugins().subrange(0, 0), option_lister()));
        while i < self.plugins.len()
            invariant
                i <= self.plugins@.len(),
                option_group_views(out@) == groups_of(self.plugins().subrange(0, i as int), option_lister()),
            decreases self.plugins@.len() - i,
        {
            let p = &self.plugins[i];
            let items = options_of(p);
            proof {
                lemma_groups_step(self.plugins(), option_lister(), i as int);
                assert(self.plugins()[i as int] == p@);
            }
            if items.len() > 0 {
                let ghost before = option_group_views(out@);
                out.push(PluginConfigOptionGroup { id: p.id.clone(), name: p.name.clone(), config_options: items });
                assert(option_group_views(out@) =~= before.push(out@[out@.len() - 1]@));
            }
            i = i + 1;
        }
        assert(self.plugins().subrange(0, i as int) =~= self.plugins());
        out
    }

    /// All plugins with their listed variables and actions, in order.
    pub fn get_all_plugins(&self) -> (r: Vec<PluginData>)
        ensures
            r@.map_values(|d: PluginData| d@) == self.plugins().map_values(
                |p: PluginView| plugin_data(p),
            ),
    {
        let mut out: Vec<PluginData> = Vec::new();
        let mut i: usize = 0;
        while i < self.plugins.len()
            invariant
                i <= self.plugins@.len(),
                out@.map_values(|d: PluginData| d@) == self.plugins().subrange(0, i as int).map_values(
                    |p: PluginView| plugin_data(p),
                ),
            decreases self.plugins@.len() - i,
        {
            let p = &self.plugins[i];
            let ghost before = out@.map_values(|d: PluginData| d@);
            out.push(
                PluginData {
                    id: p.id.clone(),
                    name: p.name.clone(),
                    description: p.description.clone(),
                    variables: variables_of(p),
                    actions: actions_of(p),
                },
            );
            assert(self.plugins()[i as int] == p@);
            assert(out@.map_values(|d: PluginData| d@) =~= before.push(plugin_data(p@)));
            i = i + 1;
            assert(self.plugins().subrange(0, i as int).map_values(|p: PluginView| plugin_data(p))
                =~= before.push(plugin_data(p@)));
        }
        assert(self.plugins().subrange(0, i as int) =~= self.plugins());
        out
    }
}

/// A request to run an action names a loaded plugin and one of its
/// declared actions, with as many arguments as that action declares, each
/// of its declared type.
pub proof fn law_requests_match_declarations(
    m: Map<Seq<char>, PluginView>,
    id: Seq<char>,
    args: Seq<Seq<char>>,
)
    requires
        run_outcome(m, id, args) is Ok,
    ensures
        ({
            let q = run_outcome(m, id, args)->Ok_0;
            &&& m.contains_key(q.plugin_id)
            &&& action_position(m[q.plugin_id], q.action_id) is Some
            &&& {
                let decl = m[q.plugin_id].actions[action_position(m[q.plugin_id], q.action_id)->0];
                &&& q.args.len() == decl.args.len()
                &&& forall|k: int|
                    0 <= k < q.args.len() ==> has_declared_type(
                        decl.args[k].data_type,
                        #[trigger] q.args[k],
                    )
            }
        }),
{
    let (pid, aid) = split_once_spec(id, '.')->0;
    let i = action_position(m[pid], aid)->0;
    law_checked_args_match_declaration(m[pid].actions[i].args, args);
}

/// Whether `x` is one of the variable entries of the reports: the entry of
/// variable `k` of a loaded plugin that report `j` gives a value for.
pub open spec fn reported_pair(
    m: Map<Seq<char>, PluginView>,
    reports: Seq<(Seq<char>, Seq<Seq<char>>)>,
    x: (Seq<char>, Seq<char>),
) -> bool {
    exists|j: int, k: int|
        0 <= j < reports.len() && m.contains_key(reports[j].0) && 0 <= k < value_pairs(
            m[reports[j].0],
            reports[j].1,
        ).len() && #[trigger] value_pairs(m[reports[j].0], reports[j].1)[k] == x
}

proof fn lemma_cache_pairs_members(
    m: Map<Seq<char>, PluginView>,
    reports: Seq<(Seq<char>, Seq<Seq<char>>)>,
)
    ensures
        forall|x: (Seq<char>, Seq<char>)|
            #[trigger] cache_pairs(m, reports).contains(x) <==> reported_pair(m, reports, x),
    decreases reports.len(),
{
    if reports.len() > 0 {
        let d = reports.drop_last();
        lemma_cache_pairs_members(m, d);
        let u = reports.last();
        let extra = if m.contains_key(u.0) {
            value_pairs(m[u.0], u.1)
        } else {
            Seq::<(Seq<char>, Seq<char>)>::empty()
        };
        let prev = cache_pairs(m, d);
        let all = cache_pairs(m, reports);
        assert(all == prev + extra);
        assert forall|x: (Seq<char>, Seq<char>)| #[trigger] all.contains(x) implies reported_pair(
            m,
            reports,
            x,
        ) by {
            let i = choose|i: int| 0 <= i < all.len() && all[i] == x;
            if i < prev.len() {
                assert(prev[i] == x);
                assert(prev.contains(x));
                let (j, k) = choose|j: int, k: int|
                    0 <= j < d.len() && m.contains_key(d[j].0) && 0 <= k < value_pairs(
                        m[d[j].0],
                        d[j].1,
                    ).len() && #[trigger] value_pairs(m[d[j].0], d[j].1)[k] == x;
                assert(reports[j] == d[j]);
            } else {
                let k = i - prev.len();
                assert(extra[k] == x);
                assert(reports[reports.len() - 1] == u);
                assert(value_pairs(m[reports[reports.len() - 1].0], reports[reports.len() - 1].1)[k]
                    == x);
            }
        }
        assert forall|x: (Seq<char>, Seq<char>)| reported_pair(m, reports, x) implies #[trigger] all.contains(
            x,
        ) by {
            let (j, k) = choose|j: int, k: int|
                0 <= j < reports.len() && m.contains_key(reports[j].0) && 0 <= k < value_pairs(
                    m[reports[j].0],
                    reports[j].1,
                ).len() && #[trigger] value_pairs(m[reports[j].0], reports[j].1)[k] == x;
            if j < d.len() {
                assert(d[j] == reports[j]);
                assert(reported_pair(m, d, x));
                assert(prev.contains(x));
                let i = choose|i: int| 0 <= i < prev.len() && prev[i] == x;
                assert(all[i] == x);
            } else {
                assert(reports[j] == u);
                assert(extra[k] == x);
                assert(all[prev.len() + k] == x);
            }
        }
    } else {
        assert forall|x: (Seq<char>, Seq<char>)| !reported_pair(m, reports, x) by {}
    }
}

/// After the plugins report their variables, the store knows exactly the
/// variables that a loaded plugin reported a value for, each under
/// `plugin.variable`, and each with a value that a report gave for it: the
/// old values are gone. With a value for every variable of a plugin, every
/// variable of that plugin is known.
pub proof fn law_update_caches_reported_variables(
    m: Map<Seq<char>, PluginView>,
    reports: Seq<(Seq<char>, Seq<Seq<char>>)>,
)
    ensures
        forall|key: Seq<char>|
            #[trigger] map_of(cache_pairs(m, reports)).contains_key(key) <==> exists|v: Seq<char>|
                reported_pair(m, reports, (key, v)),
        forall|key: Seq<char>|
            #[trigger] map_of(cache_pairs(m, reports)).contains_key(key) ==> reported_pair(
                m,
                reports,
                (key, map_of(cache_pairs(m, reports))[key]),
            ),
        forall|j: int, k: int|
            0 <= j < reports.len() && m.contains_key(reports[j].0) && reports[j].1.len()
                == m[reports[j].0].variables.len() && 0 <= k < reports[j].1.len() ==> map_of(
                cache_pairs(m, reports),
            ).contains_key(dotted(m[reports[j].0].id, #[trigger] m[reports[j].0].variables[k].id)),
{
    let e = cache_pairs(m, reports);
    lemma_cache_pairs_members(m, reports);
    assert forall|key: Seq<char>| #[trigger] map_of(e).contains_key(key) implies reported_pair(
        m,
        reports,
        (key, map_of(e)[key]),
    ) by {
        lemma_map_of_from_entry(e, key);
    }
    assert forall|key: Seq<char>|
        #[trigger] map_of(e).contains_key(key) <== exists|v: Seq<char>|
            reported_pair(m, reports, (key, v)) by {
        if exists|v: Seq<char>| reported_pair(m, reports, (key, v)) {
            let v = choose|v: Seq<char>| reported_pair(m, reports, (key, v));
            assert(e.contains((key, v)));
            let i = choose|i: int| 0 <= i < e.len() && e[i] == (key, v);
            lemma_map_of_dom(e, key);
            assert(e[i].0 == key);
        }
    }
    assert forall|j: int, k: int|
        0 <= j < reports.len() && m.contains_key(reports[j].0) && reports[j].1.len()
            == m[reports[j].0].variables.len() && 0 <= k < reports[j].1.len() implies map_of(
        e,
    ).contains_key(dotted(m[reports[j].0].id, #[trigger] m[reports[j].0].variables[k].id)) by {
        let x = value_pairs(m[reports[j].0], reports[j].1)[k];
        assert(reported_pair(m, reports, x));
        assert(x == (x.0, x.1));
        assert(reported_pair(m, reports, (x.0, x.1)));
        assert(x.0 == dotted(m[reports[j].0].id, m[reports[j].0].variables[k].id));
    }
}

/// The report of an update outcome.
pub open spec fn report_of(u: UpdateOutcome) -> (Seq<char>, Seq<Seq<char>>) {
    (u.plugin_id@, views(u.values@))
}

proof fn lemma_successful_reports_members(o: Seq<UpdateOutcome>)
    ensures
        forall|y: (Seq<char>, Seq<Seq<char>>)|
            #[trigger] successful_reports(o).contains(y) <==> exists|j: int|
                0 <= j < o.len() && o[j].updated && #[trigger] report_of(o[j]) == y,
    decreases o.len(),
{
    if o.len() > 0 {
        let d = o.drop_last();
        lemma_successful_reports_members(d);
        let r = successful_reports(o);
        let rd = successful_reports(d);
        assert forall|y: (Seq<char>, Seq<Seq<char>>)| #[trigger] r.contains(y) implies exists|j: int|
            0 <= j < o.len() && o[j].updated && #[trigger] report_of(o[j]) == y by {
            let i = choose|i: int| 0 <= i < r.len() && r[i] == y;
            if o.last().updated && i == rd.len() {
                assert(report_of(o[o.len() - 1]) == y);
            } else {
                assert(rd[i] == y);
                assert(rd.contains(y));
                let j = choose|j: int| 0 <= j < d.len() && d[j].updated && #[trigger] report_of(d[j]) == y;
                assert(o[j] == d[j]);
            }
        }
        assert forall|y: (Seq<char>, Seq<Seq<char>>)|
            (exists|j: int| 0 <= j < o.len() && o[j].updated && #[trigger] report_of(o[j]) == y)
                implies #[trigger] r.contains(y) by {
            let j = choose|j: int| 0 <= j < o.len() && o[j].updated && #[trigger] report_of(o[j]) == y;
            if j == o.len() - 1 {
                assert(r[rd.len() as int] == y);
            } else {
                assert(d[j] == o[j]);
                assert(report_of(d[j]) == y);
                assert(rd.contains(y));
                let i = choose|i: int| 0 <= i < rd.len() && rd[i] == y;
                assert(r[i] == y);
            }
        }
    }
}

/// Whether `x` is one of the variable entries of an update round: the entry
/// of variable `k` of a loaded plugin whose update (outcome `j`) went well.
pub open spec fn updated_pair(
    m: Map<Seq<char>, PluginView>,
    o: Seq<UpdateOutcome>,
    x: (Seq<char>, Seq<char>),
) -> bool {
    exists|j: int, k: int|
        0 <= j < o.len() && o[j].updated && m.contains_key(o[j].plugin_id@) && 0 <= k
            < value_pairs(m[o[j].plugin_id@], views(o[j].values@)).len() && #[trigger] value_pairs(
            m[o[j].plugin_id@],
            views(o[j].values@),
        )[k] == x
}

/// After an update round the store knows exactly the variables of the
/// loaded plugins whose update went well, each under `plugin.variable` and
/// with a value that plugin gave: plugins whose update failed or took too
/// long give none, and no old value stays. With a value for every variable
/// of such a plugin, every variable of it is known.
pub proof fn law_update_round(m: Map<Seq<char>, PluginView>, o: Seq<UpdateOutcome>)
    ensures
        forall|key: Seq<char>|
            #[trigger] map_of(cache_pairs(m, successful_reports(o))).contains_key(key) <==> exists|
                v: Seq<char>,
            | updated_pair(m, o, (key, v)),
        forall|key: Seq<char>|
            #[trigger] map_of(cache_pairs(m, successful_reports(o))).contains_key(key) ==> updated_pair(
                m,
                o,
                (key, map_of(cache_pairs(m, successful_reports(o)))[key]),
            ),
        forall|j: int, k: int|
            0 <= j < o.len() && o[j].updated && m.contains_key(o[j].plugin_id@) && o[j].values@.len()
                == m[o[j].plugin_id@].variables.len() && 0 <= k < o[j].values@.len() ==> map_of(
                cache_pairs(m, successful_reports(o)),
            ).contains_key(dotted(m[o[j].plugin_id@].id, #[trigger] m[o[j].plugin_id@].variables[k].id)),
{
    let reports = successful_reports(o);
    law_update_caches_reported_variables(m, reports);
    lemma_successful_reports_members(o);
    assert forall|x: (Seq<char>, Seq<char>)| reported_pair(m, reports, x) <==> updated_pair(m, o, x) by {
        if reported_pair(m, reports, x) {
            let (j, k) = choose|j: int, k: int|
                0 <= j < reports.len() && m.contains_key(reports[j].0) && 0 <= k < value_pairs(
                    m[reports[j].0],
                    reports[j].1,
                ).len() && #[trigger] value_pairs(m[reports[j].0], reports[j].1)[k] == x;
            assert(reports.contains(reports[j]));
            let jj = choose|jj: int|
                0 <= jj < o.len() && o[jj].updated && #[trigger] report_of(o[jj]) == reports[j];
            assert(value_pairs(m[o[jj].plugin_id@], views(o[jj].values@))[k] == x);
        }
        if updated_pair(m, o, x) {
            let (j, k) = choose|j: int, k: int|
                0 <= j < o.len() && o[j].updated && m.contains_key(o[j].plugin_id@) && 0 <= k
                    < value_pairs(m[o[j].plugin_id@], views(o[j].values@)).len()
                    && #[trigger] value_pairs(m[o[j].plugin_id@], views(o[j].values@))[k] == x;
            assert(report_of(o[j]) == report_of(o[j]));
            assert(reports.contains(report_of(o[j])));
            let i = choose|i: int| 0 <= i < reports.len() && reports[i] == report_of(o[j]);
            assert(value_pairs(m[reports[i].0], reports[i].1)[k] == x);
        }
    }
    assert forall|j: int, k: int|
        0 <= j < o.len() && o[j].updated && m.contains_key(o[j].plugin_id@) && o[j].values@.len()
            == m[o[j].plugin_id@].variables.len() && 0 <= k < o[j].values@.len() implies map_of(
        cache_pairs(m, reports),
    ).contains_key(dotted(m[o[j].plugin_id@].id, #[trigger] m[o[j].plugin_id@].variables[k].id)) by {
        let x = value_pairs(m[o[j].plugin_id@], views(o[j].values@))[k];
        assert(updated_pair(m, o, x));
        assert(reported_pair(m, reports, x));
        assert(x == (x.0, x.1));
        assert(reported_pair(m, reports, (x.0, x.1)));
    }
}

/// Whether report `j` of a round names a loaded plugin and gives a value for
/// that plugin's variable `k`.
pub open spec fn round_entry(
    m: Map<Seq<char>, PluginView>,
    reports: Seq<(Seq<char>, Seq<Seq<char>>)>,
    j: int,
    k: int,
) -> bool {
    &&& 0 <= j < reports.len()
    &&& m.contains_key(reports[j].0)
    &&& 0 <= k < m[reports[j].0].variables.len()
    &&& 0 <= k < reports[j].1.len()
}

/// The name (`plugin.variable`) of variable `k` of the plugin that report
/// `j` names.
pub open spec fn round_key(
    m: Map<Seq<char>, PluginView>,
    reports: Seq<(Seq<char>, Seq<Seq<char>>)>,
    j: int,
    k: int,
) -> Seq<char> {
    dotted(m[reports[j].0].id, m[reports[j].0].variables[k].id)
}

/// Whether no other value of the round is kept under the name of variable
/// `k` of report `j`.
pub open spec fn sole_value_for_key(
    m: Map<Seq<char>, PluginView>,
    reports: Seq<(Seq<char>, Seq<Seq<char>>)>,
    j: int,
    k: int,
) -> bool {
    forall|j2: int, k2: int|
        round_entry(m, reports, j2, k2) && (j2 != j || k2 != k) ==> #[trigger] round_key(
            m,
            reports,
            j2,
            k2,
        ) != round_key(m, reports, j, k)
}

/// Each variable gets the value reported for it: where report `j` names a
/// loaded plugin and gives values `v`, the value kept under
/// `plugin.variable` for the plugin's variable `k` is `v[k]`, the value in
/// the same place as the variable among the plugin's declared ones (unless
/// another value of the round goes under the same name).
pub proof fn law_update_sets_each_variable(
    m: Map<Seq<char>, PluginView>,
    reports: Seq<(Seq<char>, Seq<Seq<char>>)>,
    j: int,
    k: int,
)
    requires
        round_entry(m, reports, j, k),
        sole_value_for_key(m, reports, j, k),
    ensures
        map_of(cache_pairs(m, reports)).contains_key(round_key(m, reports, j, k)),
        map_of(cache_pairs(m, reports))[round_key(m, reports, j, k)] == reports[j].1[k],
{
    let e = cache_pairs(m, reports);
    let key = round_key(m, reports, j, k);
    lemma_cache_pairs_members(m, reports);
    let x = value_pairs(m[reports[j].0], reports[j].1)[k];
    assert(x == (key, reports[j].1[k]));
    assert(reported_pair(m, reports, x));
    assert(e.contains(x));
    let i = choose|i: int| 0 <= i < e.len() && e[i] == x;
    lemma_map_of_dom(e, key);
    assert(e[i].0 == key);
    lemma_map_of_from_entry(e, key);
    let y = (key, map_of(e)[key]);
    assert(reported_pair(m, reports, y));
    let (j2, k2) = choose|j2: int, k2: int|
        0 <= j2 < reports.len() && m.contains_key(reports[j2].0) && 0 <= k2 < value_pairs(
            m[reports[j2].0],
            reports[j2].1,
        ).len() && #[trigger] value_pairs(m[reports[j2].0], reports[j2].1)[k2] == y;
    assert(round_entry(m, reports, j2, k2));
    assert(round_key(m, reports, j2, k2) == key);
}

} // verus!
