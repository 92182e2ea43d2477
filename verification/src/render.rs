//! Rendering of buttons: the `{plugin.variable}` references of a template are
//! replaced by the variables' values.

use vstd::prelude::*;

use crate::buttons::{opt_view, ButtonView, DeckButtonPos, RawDeckButton, RenderedDeckButton, RenderedView};
use crate::store::{rendered_variable, PluginStore};
use crate::strmap::StringMap;
use crate::text::{concat, contains_char, owned, views};

verus! {

/// The pattern of a variable reference in a button template:
/// `{plugin.variable}`, the reference itself in the group `var_id`.
pub open spec fn button_var_pattern() -> Seq<char> {
    "\\{(?<var_id>[a-zA-Z0-9_]+\\.[a-zA-Z0-9_]+)\\}"@
}

/// The name of the group that holds the variable id.
pub open spec fn var_id_group() -> Seq<char> {
    "var_id"@
}

/// The texts between the matches of a regular expression in a text and, for
/// each match, what the named group captured; `None` when the pattern does
/// not compile.
pub uninterp spec fn regex_split_captures_spec(
    pattern: Seq<char>,
    group: Seq<char>,
    text: Seq<char>,
) -> Option<(Seq<Seq<char>>, Seq<Option<Seq<char>>>)>;

/// The pieces with the values put between them: the first piece, the first
/// value, the second piece, and so on.
pub open spec fn interpolated(pieces: Seq<Seq<char>>, values: Seq<Seq<char>>) -> Seq<char>
    decreases values.len(),
{
    if values.len() == 0 {
        if pieces.len() > 0 {
            pieces[0]
        } else {
            Seq::empty()
        }
    } else {
        interpolated(pieces.drop_last(), values.drop_last()) + values.last() + pieces.last()
    }
}

/// The captured texts of captures that all captured something.
pub open spec fn captured(caps: Seq<Option<Seq<char>>>) -> Seq<Seq<char>> {
    caps.map_values(|c: Option<Seq<char>>| c->Some_0)
}

/// A variable reference as it stands in a template: `{` the id `}`.
pub open spec fn braced(id: Seq<char>) -> Seq<char> {
    seq!['{'] + id + seq!['}']
}

/// `text` is the pieces with the references `{id}` between them, one
/// captured id per reference.
pub open spec fn splits_into_references(
    text: Seq<char>,
    pieces: Seq<Seq<char>>,
    caps: Seq<Option<Seq<char>>>,
) -> bool {
    &&& pieces.len() == caps.len() + 1
    &&& forall|k: int| 0 <= k < caps.len() ==> #[trigger] caps[k] is Some
    &&& text == interpolated(pieces, captured(caps).map_values(|id: Seq<char>| braced(id)))
}

/// The texts between the matches of `pattern` in `text`, and what the group
/// `group` captured in each match: `regex::Regex::new` compiles the pattern
/// (`None` when it does not compile), `Regex::split` gives the texts between
/// the matches and `Regex::captures_iter` with `Captures::name` the groups.
/// Claimed: the result is a function of the three texts; for the button
/// pattern and its group the pattern compiles, and the text is the pieces
/// with `{id}` between them, where each id is what the group captured (each
/// match of `\{(?<var_id>...)\}` is a brace, the group, a brace, and the
/// group always takes part).
#[verifier::external_body]
fn regex_split_captures(pattern: &str, group: &str, text: &str) -> (r: Option<
    (Vec<String>, Vec<Option<String>>),
>)
    ensures
        match r {
            Some((p, c)) => regex_split_captures_spec(pattern@, group@, text@) == Some(
                (views(p@), c@.map_values(|o: Option<String>| opt_view(o))),
            ),
            None => regex_split_captures_spec(pattern@, group@, text@) is None,
        },
        pattern@ == button_var_pattern() && group@ == var_id_group() ==> r is Some
            && splits_into_references(
            text@,
            views(r->Some_0.0@),
            r->Some_0.1@.map_values(|o: Option<String>| opt_view(o)),
        ),
{
    let re = regex::Regex::new(pattern).ok()?;
    let pieces = re.split(text).map(|s| s.to_owned()).collect();
    let caps = re.captures_iter(text).map(|c| c.name(group).map(|m| m.as_str().to_owned())).collect();
    Some((pieces, caps))
}

/// What a template renders as: unchanged when it holds no `{`; otherwise
/// each reference `{plugin.variable}` is replaced by what the variable
/// renders as.
pub open spec fn rendered_content(template: Seq<char>, vars: Map<Seq<char>, Seq<char>>) -> Seq<char> {
    if !template.contains('{') {
        template
    } else {
        match regex_split_captures_spec(button_var_pattern(), var_id_group(), template) {
            Some((pieces, caps)) => interpolated(
                pieces,
                captured(caps).map_values(|id: Seq<char>| rendered_variable(vars, id)),
            ),
            None => template,
        }
    }
}

/// A configured button rendered at `pos`: its template rendered, its style
/// and icon kept.
pub open spec fn rendered_button(
    pos: (u32, u32),
    b: ButtonView,
    vars: Map<Seq<char>, Seq<char>>,
) -> RenderedView {
    RenderedView {
        position: DeckButtonPos { y: pos.0, x: pos.1 },
        content: rendered_content(b.template, vars),
        style: b.style,
        icon: b.icon,
    }
}

/// Renders variables for one screen, asking the store for each variable
/// once.
pub struct VariableRenderer<'a> {
    cache: StringMap,
    plugin_store: &'a PluginStore,
}

impl<'a> VariableRenderer<'a> {
    #[verifier::type_invariant]
    closed spec fn inv(self) -> bool {
        forall|k: Seq<char>|
            #[trigger] self.cache.map().contains_key(k) ==> self.cache.map()[k] == rendered_variable(
                self.plugin_store.variables(),
                k,
            )
    }

    /// The variable values the renderer renders from.
    pub closed spec fn variables(self) -> Map<Seq<char>, Seq<char>> {
        self.plugin_store.variables()
    }

    /// A renderer of the store's variables.
    pub fn new(plugin_store: &'a PluginStore) -> (r: Self)
        ensures
            r.variables() == plugin_store.variables(),
    {
        VariableRenderer { cache: StringMap::new(), plugin_store }
    }

    /// What the variable `id` renders as: the same as the store renders it.
    pub fn get(&mut self, id: &str) -> (r: String)
        ensures
            r@ == rendered_variable(old(self).variables(), id@),
            final(self).variables() == old(self).variables(),
    {
        proof {
            use_type_invariant(&*self);
        }
        match self.cache.get(id) {
            Some(v) => v,
            None => {
                let v = self.plugin_store.render_variable(id);
                let ghost vars = self.plugin_store.variables();
                let ghost before = self.cache.map();
                let mut cache = StringMap::new();
                std::mem::swap(&mut cache, &mut self.cache);
                cache.insert(owned(id), v.clone());
                assert forall|k: Seq<char>| #[trigger]
                    cache.map().contains_key(k) implies cache.map()[k]
                    == rendered_variable(vars, k) by {
                    if k != id@ {
                        assert(before.contains_key(k));
                    }
                }
                self.cache = cache;
                v
            },
        }
    }
}

/// Puts the renderings of the referenced variables between the pieces of a
/// template.
pub fn interpolate(pieces: &Vec<String>, ids: &Vec<Option<String>>, vars: &mut VariableRenderer) -> (r:
    String)
    requires
        pieces@.len() == ids@.len() + 1,
        forall|k: int| 0 <= k < ids@.len() ==> #[trigger] ids@[k] is Some,
    ensures
        r@ == interpolated(
            views(pieces@),
            captured(ids@.map_values(|o: Option<String>| opt_view(o))).map_values(
                |id: Seq<char>| rendered_variable(old(vars).variables(), id),
            ),
        ),
        final(vars).variables() == old(vars).variables(),
{
    let ghost vs = old(vars).variables();
    let ghost pv = views(pieces@);
    let ghost values = captured(ids@.map_values(|o: Option<String>| opt_view(o))).map_values(
        |id: Seq<char>| rendered_variable(vs, id),
    );
    let mut out = pieces[0].clone();
    let mut k: usize = 0;
    assert(pv.subrange(0, 1).len() == 1);
    while k < ids.len()
        invariant
            k <= ids@.len(),
            pieces@.len() == ids@.len() + 1,
            forall|j: int| 0 <= j < ids@.len() ==> #[trigger] ids@[j] is Some,
            vars.variables() == vs,
            pv == views(pieces@),
            values == captured(ids@.map_values(|o: Option<String>| opt_view(o))).map_values(
                |id: Seq<char>| rendered_variable(vs, id),
            ),
            out@ == interpolated(pv.subrange(0, k + 1), values.subrange(0, k as int)),
        decreases ids@.len() - k,
    {
        let id = match &ids[k] {
            Some(s) => s,
            None => {
                assert(ids@[k as int] is Some);
                return String::new();
            },
        };
        let value = vars.get(id.as_str());
        assert(values[k as int] == value@);
        let with_value = concat(out.as_str(), value.as_str());
        out = concat(with_value.as_str(), pieces[k + 1].as_str());
        proof {
            let p2 = pv.subrange(0, k + 2);
            let v2 = values.subrange(0, k + 1);
            assert(p2.drop_last() =~= pv.subrange(0, k + 1));
            assert(v2.drop_last() =~= values.subrange(0, k as int));
            assert(p2.last() == pieces@[k + 1]@);
        }
        k = k + 1;
    }
    assert(pv.subrange(0, k + 1) =~= pv);
    assert(values.subrange(0, k as int) =~= values);
    out
}

impl RawDeckButton {
    /// The template with its variable references rendered.
    pub fn render_content(&self, vars: &mut VariableRenderer) -> (r: String)
        ensures
            r@ == rendered_content(self.template@, old(vars).variables()),
            self.template@.contains('{') ==> match regex_split_captures_spec(
                button_var_pattern(),
                var_id_group(),
                self.template@,
            ) {
                Some((pieces, caps)) => r@ == interpolated(
                    pieces,
                    Seq::new(caps.len(), |k: int| reference_value(old(vars).variables(), caps, k)),
                ),
                None => r@ == self.template@,
            },
            final(vars).variables() == old(vars).variables(),
    {
        proof {
            if self.template@.contains('{') {
                if let Some((pieces, caps)) = regex_split_captures_spec(
                    button_var_pattern(),
                    var_id_group(),
                    self.template@,
                ) {
                    law_references_rendered_in_order(self.template@, old(vars).variables(), pieces, caps);
                }
            }
        }
        if !contains_char(self.template.as_str(), '{') {
            return self.template.clone();
        }
        match regex_split_captures(
            "\\{(?<var_id>[a-zA-Z0-9_]+\\.[a-zA-Z0-9_]+)\\}",
            "var_id",
            self.template.as_str(),
        ) {
            Some((pieces, ids)) => {
                assert forall|k: int| 0 <= k < ids@.len() implies #[trigger] ids@[k] is Some by {
                    assert(ids@.map_values(|o: Option<String>| opt_view(o))[k] is Some);
                }
                interpolate(&pieces, &ids, vars)
            },
            None => self.template.clone(),
        }
    }

    /// The button rendered at position `pos` (row, column).
    pub fn render(&self, pos: (u32, u32), vars: &mut VariableRenderer) -> (r: RenderedDeckButton)
        ensures
            r@ == rendered_button(pos, self@, old(vars).variables()),
            final(vars).variables() == old(vars).variables(),
    {
        let content = self.render_content(vars);
        RenderedDeckButton {
            position: DeckButtonPos::from_yx(pos),
            style: self.style,
            icon: match &self.icon {
                Some(s) => Some(s.clone()),
                None => None,
            },
            content,
        }
    }
}

/// A template without `{` holds no reference: the regular expression splits
/// it into the template alone, so rendering it through the expression would
/// give it unchanged, as rendering does.
pub proof fn law_plain_template_unchanged(
    template: Seq<char>,
    pieces: Seq<Seq<char>>,
    caps: Seq<Option<Seq<char>>>,
    values: Seq<Seq<char>>,
)
    requires
        !template.contains('{'),
        splits_into_references(template, pieces, caps),
        values.len() == caps.len(),
    ensures
        caps.len() == 0,
        interpolated(pieces, values) == template,
{
    if caps.len() > 0 {
        let ids = captured(caps).map_values(|id: Seq<char>| braced(id));
        let n = ids.len();
        let head = interpolated(pieces.drop_last(), ids.drop_last());
        assert(template == head + ids.last() + pieces.last());
        assert(ids.last()[0] == '{');
        assert(template[head.len() as int] == '{');
    }
}

/// The rendering of the variable that reference `k` of a split template
/// names.
pub open spec fn reference_value(
    vars: Map<Seq<char>, Seq<char>>,
    caps: Seq<Option<Seq<char>>>,
    k: int,
) -> Seq<char> {
    rendered_variable(vars, caps[k]->Some_0)
}

/// The first piece and the first value begin the interpolation, and the
/// last value and the last piece end it.
proof fn lemma_interpolated_ends(pieces: Seq<Seq<char>>, values: Seq<Seq<char>>)
    requires
        values.len() > 0,
        pieces.len() == values.len() + 1,
    ensures
        ({
            let r = interpolated(pieces, values);
            let head = pieces[0] + values[0];
            let tail = values.last() + pieces.last();
            &&& head.len() <= r.len()
            &&& r.subrange(0, head.len() as int) == head
            &&& tail.len() <= r.len()
            &&& r.subrange(r.len() - tail.len(), r.len() as int) == tail
        }),
    decreases values.len(),
{
    let r = interpolated(pieces, values);
    let head = pieces[0] + values[0];
    let tail = values.last() + pieces.last();
    let before = interpolated(pieces.drop_last(), values.drop_last());
    assert(r == before + values.last() + pieces.last());
    assert(r =~= before + tail);
    assert(r.subrange(r.len() - tail.len(), r.len() as int) =~= tail);
    if values.len() == 1 {
        assert(before == pieces[0]);
        assert(r.subrange(0, head.len() as int) =~= head);
    } else {
        lemma_interpolated_ends(pieces.drop_last(), values.drop_last());
        assert(pieces.drop_last()[0] == pieces[0]);
        assert(values.drop_last()[0] == values[0]);
        assert(before.subrange(0, head.len() as int) == head);
        assert(r.subrange(0, head.len() as int) =~= before.subrange(0, head.len() as int));
    }
}

/// Each reference is replaced by its own variable's value: where the
/// template holds `{` and the regular expression splits it into pieces
/// `p0 .. pn` with captured ids `id1 .. idn` between them, the rendered
/// content is `p0`, the rendering of `id1`, `p1`, and so on up to the
/// rendering of `idn` and `pn`; the value put in place `k` is that of the
/// `k`-th captured id. So the content begins with `p0` and the value of the
/// first reference, and ends with the value of the last reference and `pn`.
pub proof fn law_references_rendered_in_order(
    template: Seq<char>,
    vars: Map<Seq<char>, Seq<char>>,
    pieces: Seq<Seq<char>>,
    caps: Seq<Option<Seq<char>>>,
)
    requires
        template.contains('{'),
        regex_split_captures_spec(button_var_pattern(), var_id_group(), template) == Some(
            (pieces, caps),
        ),
    ensures
        rendered_content(template, vars) == interpolated(
            pieces,
            Seq::new(caps.len(), |k: int| reference_value(vars, caps, k)),
        ),
        caps.len() > 0 && pieces.len() == caps.len() + 1 ==> {
            let r = rendered_content(template, vars);
            let head = pieces[0] + reference_value(vars, caps, 0);
            let tail = reference_value(vars, caps, caps.len() - 1) + pieces.last();
            &&& head.len() <= r.len()
            &&& r.subrange(0, head.len() as int) == head
            &&& tail.len() <= r.len()
            &&& r.subrange(r.len() - tail.len(), r.len() as int) == tail
        },
{
    let values = Seq::new(caps.len(), |k: int| reference_value(vars, caps, k));
    assert(captured(caps).map_values(|id: Seq<char>| rendered_variable(vars, id)) =~= values);
    if caps.len() > 0 && pieces.len() == caps.len() + 1 {
        lemma_interpolated_ends(pieces, values);
        assert(values.last() == reference_value(vars, caps, caps.len() - 1));
    }
}

} // verus!
