//! What the deck lists of its plugins: their variables, actions and options,
//! either all in one list or grouped by plugin.

use vstd::prelude::*;

use crate::models::{
    listed_action_views, listed_arg_views, listed_option_views, listed_variable_views, GroupView,
    PluginAction, PluginActionArgsData, PluginActionGroup, PluginConfigOption,
    PluginConfigOptionGroup, PluginDataView, PluginVariable, PluginVariableGroup,
};
use crate::plugin::{ActionDeclView, DeclView, Plugin, PluginView, VariableDeclView};
use crate::text::concat3;

verus! {

/// `a.b`: an id under another.
pub open spec fn dotted(a: Seq<char>, b: Seq<char>) -> Seq<char> {
    a + seq!['.'] + b
}

/// The variables of a plugin as listed: each id becomes
/// `plugin.variable`.
pub open spec fn listed_variables(p: PluginView) -> Seq<VariableDeclView> {
    p.variables.map_values(
        |v: VariableDeclView|
            VariableDeclView {
                id: dotted(p.id, v.id),
                description: v.description,
                data_type: v.data_type,
            },
    )
}

/// The arguments of an action as listed: each id becomes
/// `plugin.action.argument`.
pub open spec fn listed_args(p: PluginView, a: ActionDeclView) -> Seq<DeclView> {
    a.args.map_values(
        |x: DeclView|
            DeclView {
                id: dotted(dotted(p.id, a.id), x.id),
                name: x.name,
                description: x.description,
                data_type: x.data_type,
            },
    )
}

/// An action as listed: its id becomes `plugin.action`.
pub open spec fn listed_action(p: PluginView, a: ActionDeclView) -> ActionDeclView {
    ActionDeclView {
        id: dotted(p.id, a.id),
        name: a.name,
        description: a.description,
        args: listed_args(p, a),
    }
}

/// The actions of a plugin as listed.
pub open spec fn listed_actions(p: PluginView) -> Seq<ActionDeclView> {
    p.actions.map_values(|a: ActionDeclView| listed_action(p, a))
}

/// The configuration options of a plugin as listed: their ids are kept as
/// they are.
pub open spec fn listed_options(p: PluginView) -> Seq<DeclView> {
    p.config_options
}

/// The variables of a plugin as listed, as a function.
pub open spec fn variable_lister() -> spec_fn(PluginView) -> Seq<VariableDeclView> {
    |p: PluginView| listed_variables(p)
}

/// The actions of a plugin as listed, as a function.
pub open spec fn action_lister() -> spec_fn(PluginView) -> Seq<ActionDeclView> {
    |p: PluginView| listed_actions(p)
}

/// The options of a plugin as listed, as a function.
pub open spec fn option_lister() -> spec_fn(PluginView) -> Seq<DeclView> {
    |p: PluginView| listed_options(p)
}

/// Lists one after another.
pub open spec fn concat_lists<T>(s: Seq<Seq<T>>) -> Seq<T>
    decreases s.len(),
{
    if s.len() == 0 {
        Seq::empty()
    } else {
        concat_lists(s.drop_last()) + s.last()
    }
}

/// What each plugin lists, all in one list, plugin after plugin.
pub open spec fn ungrouped<T>(ps: Seq<PluginView>, f: spec_fn(PluginView) -> Seq<T>) -> Seq<T> {
    concat_lists(ps.map_values(f))
}

/// What each plugin lists, as one group per plugin with its id and name;
/// a plugin that lists nothing has no group.
pub open spec fn groups_of<T>(ps: Seq<PluginView>, f: spec_fn(PluginView) -> Seq<T>) -> Seq<
    GroupView<T>,
>
    decreases ps.len(),
{
    if ps.len() == 0 {
        Seq::empty()
    } else {
        let rest = groups_of(ps.drop_last(), f);
        let p = ps.last();
        if f(p).len() == 0 {
            rest
        } else {
            rest.push(GroupView { id: p.id, name: p.name, items: f(p) })
        }
    }
}

/// What a plugin is as listed with its variables and actions.
pub open spec fn plugin_data(p: PluginView) -> PluginDataView {
    PluginDataView {
        id: p.id,
        name: p.name,
        description: p.description,
        variables: listed_variables(p),
        actions: listed_actions(p),
    }
}

/// The views of listed groups.
pub open spec fn variable_group_views(v: Seq<PluginVariableGroup>) -> Seq<GroupView<VariableDeclView>> {
    v.map_values(|g: PluginVariableGroup| g@)
}

pub open spec fn action_group_views(v: Seq<PluginActionGroup>) -> Seq<GroupView<ActionDeclView>> {
    v.map_values(|g: PluginActionGroup| g@)
}

pub open spec fn option_group_views(v: Seq<PluginConfigOptionGroup>) -> Seq<GroupView<DeclView>> {
    v.map_values(|g: PluginConfigOptionGroup| g@)
}

/// The items of groups, one group after another.
pub open spec fn group_items<T>(gs: Seq<GroupView<T>>) -> Seq<T> {
    concat_lists(gs.map_values(|g: GroupView<T>| g.items))
}

pub proof fn lemma_concat_step<T>(ps: Seq<PluginView>, f: spec_fn(PluginView) -> Seq<T>, i: int)
    requires
        0 <= i < ps.len(),
    ensures
        ungrouped(ps.subrange(0, i + 1), f) == ungrouped(ps.subrange(0, i), f) + f(ps[i]),
{
    assert(ps.subrange(0, i + 1).map_values(f).drop_last() =~= ps.subrange(0, i).map_values(f));
}

pub proof fn lemma_groups_step<T>(ps: Seq<PluginView>, f: spec_fn(PluginView) -> Seq<T>, i: int)
    requires
        0 <= i < ps.len(),
    ensures
        groups_of(ps.subrange(0, i + 1), f) == if f(ps[i]).len() == 0 {
            groups_of(ps.subrange(0, i), f)
        } else {
            groups_of(ps.subrange(0, i), f).push(
                GroupView { id: ps[i].id, name: ps[i].name, items: f(ps[i]) },
            )
        },
{
    assert(ps.subrange(0, i + 1).drop_last() =~= ps.subrange(0, i));
}

/// The grouped listing holds exactly what the ungrouped one holds, in the
/// same order, and no group is empty.
pub proof fn law_grouped_listing_flattens<T>(ps: Seq<PluginView>, f: spec_fn(PluginView) -> Seq<T>)
    ensures
        group_items(groups_of(ps, f)) == ungrouped(ps, f),
        forall|j: int| 0 <= j < groups_of(ps, f).len() ==> #[trigger] groups_of(ps, f)[j].items.len() > 0,
    decreases ps.len(),
{
    if ps.len() > 0 {
        let d = ps.drop_last();
        law_grouped_listing_flattens(d, f);
        assert(ps.map_values(f).drop_last() =~= d.map_values(f));
        let gs = groups_of(d, f);
        let p = ps.last();
        if f(p).len() == 0 {
            assert(ungrouped(ps, f) =~= ungrouped(d, f));
        } else {
            let g = GroupView { id: p.id, name: p.name, items: f(p) };
            assert(gs.push(g).map_values(|g: GroupView<T>| g.items).drop_last() =~= gs.map_values(
                |g: GroupView<T>| g.items,
            ));
            assert forall|j: int| 0 <= j < gs.push(g).len() implies #[trigger] gs.push(g)[j].items.len()
                > 0 by {
                if j < gs.len() {
                    assert(gs.push(g)[j] == gs[j]);
                }
            }
        }
    }
}

/// The listed variables of a plugin.
pub fn variables_of(p: &Plugin) -> (r: Vec<PluginVariable>)
    ensures
        listed_variable_views(r@) == listed_variables(p@),
{
    let mut out: Vec<PluginVariable> = Vec::new();
    let mut k: usize = 0;
    while k < p.variables.len()
        invariant
            k <= p.variables@.len(),
            listed_variable_views(out@) == listed_variables(p@).subrange(0, k as int),
        decreases p.variables@.len() - k,
    {
        let v = &p.variables[k];
        proof {
            reveal_strlit(".");
        }
        let id = concat3(p.id.as_str(), ".", v.id.as_str());
        assert(p@.variables[k as int] == v@);
        assert(id@ =~= dotted(p@.id, v@.id));
        let ghost before = listed_variable_views(out@);
        out.push(PluginVariable { id, description: v.description.clone(), data_type: v.data_type });
        assert(p@.variables[k as int] == p.variables@[k as int]@);
        assert(listed_variable_views(out@) =~= before.push(listed_variables(p@)[k as int]));
        k = k + 1;
        assert(listed_variables(p@).subrange(0, k as int) =~= before.push(
            listed_variables(p@)[k - 1],
        ));
    }
    assert(listed_variables(p@).subrange(0, k as int) =~= listed_variables(p@));
    out
}

/// The listed arguments of the action at position `a` of a plugin.
fn args_of(p: &Plugin, a: usize) -> (r: Vec<PluginActionArgsData>)
    requires
        a < p.actions@.len(),
    ensures
        listed_arg_views(r@) == listed_args(p@, p@.actions[a as int]),
{
    let act = &p.actions[a];
    let ghost av = p@.actions[a as int];
    assert(av == act@);
    proof {
        reveal_strlit(".");
    }
    let prefix = concat3(p.id.as_str(), ".", act.id.as_str());
    assert(prefix@ =~= dotted(p@.id, av.id));
    let mut out: Vec<PluginActionArgsData> = Vec::new();
    let mut k: usize = 0;
    while k < act.args.len()
        invariant
            k <= act.args@.len(),
            av == act@,
            prefix@ == dotted(p@.id, av.id),
            listed_arg_views(out@) == listed_args(p@, av).subrange(0, k as int),
        decreases act.args@.len() - k,
    {
        let x = &act.args[k];
        proof {
            reveal_strlit(".");
        }
        let id = concat3(prefix.as_str(), ".", x.id.as_str());
        assert(av.args[k as int] == x@);
        assert(id@ =~= dotted(dotted(p@.id, av.id), x@.id));
        let ghost before = listed_arg_views(out@);
        out.push(
            PluginActionArgsData {
                id,
                name: x.name.clone(),
                description: x.description.clone(),
                data_type: x.data_type,
            },
        );
        assert(av.args[k as int] == act.args@[k as int]@);
        assert(listed_arg_views(out@) =~= before.push(listed_args(p@, av)[k as int]));
        k = k + 1;
        assert(listed_args(p@, av).subrange(0, k as int) =~= before.push(
            listed_args(p@, av)[k - 1],
        ));
    }
    assert(listed_args(p@, av).subrange(0, k as int) =~= listed_args(p@, av));
    out
}

/// The listed actions of a plugin.
pub fn actions_of(p: &Plugin) -> (r: Vec<PluginAction>)
    ensures
        listed_action_views(r@) == listed_actions(p@),
{
    let mut out: Vec<PluginAction> = Vec::new();
    let mut k: usize = 0;
    while k < p.actions.len()
        invariant
            k <= p.actions@.len(),
            listed_action_views(out@) == listed_actions(p@).subrange(0, k as int),
        decreases p.actions@.len() - k,
    {
        let a = &p.actions[k];
        proof {
            reveal_strlit(".");
        }
        let id = concat3(p.id.as_str(), ".", a.id.as_str());
        assert(p@.actions[k as int] == a@);
        assert(id@ =~= dotted(p@.id, a@.id));
        let args = args_of(p, k);
        let ghost before = listed_action_views(out@);
        out.push(
            PluginAction { id, name: a.name.clone(), description: a.description.clone(), args },
        );
        assert(p@.actions[k as int] == p.actions@[k as int]@);
        assert(listed_action_views(out@) =~= before.push(listed_actions(p@)[k as int]));
        k = k + 1;
        assert(listed_actions(p@).subrange(0, k as int) =~= before.push(
            listed_actions(p@)[k - 1],
        ));
    }
    assert(listed_actions(p@).subrange(0, k as int) =~= listed_actions(p@));
    out
}

/// The listed configuration options of a plugin.
pub fn options_of(p: &Plugin) -> (r: Vec<PluginConfigOption>)
    ensures
        listed_option_views(r@) == listed_options(p@),
{
    let mut out: Vec<PluginConfigOption> = Vec::new();
    let mut k: usize = 0;
    while k < p.config_options.len()
        invariant
            k <= p.config_options@.len(),
            listed_option_views(out@) == listed_options(p@).subrange(0, k as int),
        decreases p.config_options@.len() - k,
    {
        let o = &p.config_options[k];
        let ghost before = listed_option_views(out@);
        out.push(
            PluginConfigOption {
                id: o.id.clone(),
                name: o.name.clone(),
                description: o.description.clone(),
                data_type: o.data_type,
            },
        );
        assert(p@.config_options[k as int] == p.config_options@[k as int]@);
        assert(listed_option_views(out@) =~= before.push(listed_options(p@)[k as int]));
        k = k + 1;
        assert(listed_options(p@).subrange(0, k as int) =~= before.push(
            listed_options(p@)[k - 1],
        ));
    }
    assert(listed_options(p@).subrange(0, k as int) =~= listed_options(p@));
    out
}

} // verus!
