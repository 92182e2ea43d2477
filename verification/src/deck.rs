//! The deck: its named screens of buttons, the screen being shown, its
//! plugins and icons, and what clicks and edits do to them.

use vstd::prelude::*;

use indexmap::IndexMap;

use crate::buttons::{
    button_of_update, copy_opt_action, default_button_view, law_update_stores_its_fields,
    opt_action_view, opt_view, ButtonView, DeckButtonUpdate,
    RawDeckButton, RenderedDeckButton,
};
use crate::error::action_error_message;
use crate::listing::{
    action_group_views, action_lister, groups_of, plugin_data, ungrouped, variable_group_views,
    variable_lister,
};
use crate::render::{rendered_button, VariableRenderer};
use crate::config::{screens_valid, DeckConfig, DeckDimensionConfig};
use crate::datatype::PluginDataType;
use crate::icon_store::IconStore;
use crate::keyed::{
    entry_insert, entry_remove, has_key, index_of_key, insert_all, keys_of, keys_unique,
    lemma_entry_insert, lemma_entry_remove, lemma_index_of_key, lemma_map_of_dom, map_of,
};
use crate::models::{
    listed_action_views, listed_arg_views, listed_variable_views, GroupView, PluginAction,
    PluginActionArgsData, PluginActionGroup, PluginData, PluginVariable, PluginVariableGroup,
};
use crate::plugin::{ActionDeclView, DeclView, PluginView};
use crate::screen::ButtonScreen;
use crate::screens::{
    screen_map_entries, screen_map_get_index, screen_map_get_index_of,
    screen_map_insert, screen_map_keys, screen_map_len, screen_map_new, screen_map_shift_remove,
    screen_map_swap_indices, screen_map_swap_remove, swap_remove_at, ScreensView,
};
use crate::store::{
    cache_pairs, enum_arg_outcome, reported_views, run_outcome, ActionRequest, EnumArgRequest,
    PluginStore, VariableValues,
};
use crate::text::{concat, owned, starts_with, str_eq, views};

verus! {

/// The deck's own actions: the group `deck` (`Deck`) with the action
/// `deck.switch_screen` (`Switch screen`), whose one argument
/// `deck.switch_screen.destination` (`To `) is the screen to switch to.
pub open spec fn deck_actions_view() -> GroupView<ActionDeclView> {
    GroupView {
        id: "deck"@,
        name: "Deck"@,
        items: seq![
            ActionDeclView {
                id: "deck.switch_screen"@,
                name: "Switch screen"@,
                description: Seq::empty(),
                args: seq![
                    DeclView {
                        id: "deck.switch_screen.destination"@,
                        name: "To "@,
                        description: "Screen to switch to"@,
                        data_type: PluginDataType::Enum,
                    },
                ],
            },
        ],
    }
}

/// The name of the screen shown first: `default`.
pub open spec fn first_screen_name() -> Seq<char> {
    "default"@
}

/// The entries of screens with the screen at position `i` replaced.
pub open spec fn with_screen(
    s: ScreensView,
    i: int,
    buttons: Seq<((u32, u32), ButtonView)>,
) -> ScreensView {
    s.update(i, (s[i].0, buttons))
}

/// The buttons after exchanging the buttons at `a` and `b`: each position
/// gets the other's button, or none when the other had none.
pub open spec fn swapped<V>(m: Map<(u32, u32), V>, a: (u32, u32), b: (u32, u32)) -> Map<(u32, u32), V> {
    let m1 = m.remove(a).remove(b);
    let m2 = if m.contains_key(b) {
        m1.insert(a, m[b])
    } else {
        m1
    };
    if m.contains_key(a) {
        m2.insert(b, m[a])
    } else {
        m2
    }
}

/// The entries after exchanging the buttons at `a` and `b` as
/// `Deck::swap_buttons` does it: the button at `a` is taken out and set at
/// `b`, and the button it replaces there is set at `a`; with no button at
/// `a`, the button at `b` is taken out and set at `a`.
pub open spec fn swapped_entries(
    e: Seq<((u32, u32), ButtonView)>,
    a: (u32, u32),
    b: (u32, u32),
) -> Seq<((u32, u32), ButtonView)> {
    if has_key(e, a) {
        let e1 = entry_remove(e, a);
        let e2 = entry_insert(e1, b, map_of(e)[a]);
        if has_key(e1, b) {
            entry_insert(e2, a, map_of(e1)[b])
        } else {
            e2
        }
    } else if has_key(e, b) {
        entry_insert(entry_remove(e, b), a, map_of(e)[b])
    } else {
        e
    }
}

/// The screens after `rename_screen`: the screen at position `i` gets the
/// name `name`, keeping its buttons and its place.
pub open spec fn renamed(s: ScreensView, i: int, name: Seq<char>) -> ScreensView {
    s.update(i, (name, s[i].1))
}

/// The prefix of the deck's own action ids: `deck.`.
pub open spec fn deck_prefix() -> Seq<char> {
    "deck."@
}

/// Whether `s` begins with `p`.
pub open spec fn has_prefix(s: Seq<char>, p: Seq<char>) -> bool {
    p.len() <= s.len() && s.subrange(0, p.len() as int) == p
}

/// The deck's own actions as the ungrouped listing gives them: each id gets
/// the prefix `deck.` once more.
pub open spec fn deck_listed_actions() -> Seq<ActionDeclView> {
    deck_actions_view().items.map_values(
        |a: ActionDeclView|
            ActionDeclView {
                id: deck_prefix() + a.id,
                name: a.name,
                description: a.description,
                args: a.args,
            },
    )
}

/// What a click on a button did or asks for.
pub enum ClickOutcome {
    /// Nothing is left to do.
    Done,
    /// The plugin action to run.
    Run(ActionRequest),
}

/// What asking for the variants of an enum argument gives.
pub enum EnumVariants {
    /// The variants, known to the deck.
    Listed(Vec<String>),
    /// The request to hand to the plugin that knows them.
    Ask(EnumArgRequest),
}

/// A screen with its buttons rendered.
pub struct DeckScreen {
    pub screen: String,
    pub buttons: Vec<RenderedDeckButton>,
}

fn copy_listed_args(v: &Vec<PluginActionArgsData>) -> (r: Vec<PluginActionArgsData>)
    ensures
        listed_arg_views(r@) == listed_arg_views(v@),
{
    let mut out: Vec<PluginActionArgsData> = Vec::new();
    let mut i: usize = 0;
    while i < v.len()
        invariant
            i <= v@.len(),
            listed_arg_views(out@) == listed_arg_views(v@).subrange(0, i as int),
        decreases v@.len() - i,
    {
        let a = &v[i];
        let ghost before = listed_arg_views(out@);
        out.push(
            PluginActionArgsData {
                id: a.id.clone(),
                name: a.name.clone(),
                description: a.description.clone(),
                data_type: a.data_type,
            },
        );
        assert(listed_arg_views(out@) =~= before.push(a@));
        i = i + 1;
        assert(listed_arg_views(v@).subrange(0, i as int) =~= before.push(a@));
    }
    assert(listed_arg_views(v@).subrange(0, i as int) =~= listed_arg_views(v@));
    out
}

fn deck_actions() -> (r: PluginActionGroup)
    ensures
        r@ == deck_actions_view(),
{
    let arg = PluginActionArgsData {
        id: owned("deck.switch_screen.destination"),
        name: owned("To "),
        description: owned("Screen to switch to"),
        data_type: PluginDataType::Enum,
    };
    let args = vec![arg];
    assert(listed_arg_views(args@) =~= deck_actions_view().items[0].args);
    let action = PluginAction {
        id: owned("deck.switch_screen"),
        name: owned("Switch screen"),
        description: String::new(),
        args,
    };
    assert(action@ == deck_actions_view().items[0]);
    let actions = vec![action];
    let r = PluginActionGroup { id: owned("deck"), name: owned("Deck"), actions };
    assert(r@.items =~= deck_actions_view().items);
    r
}

/// The deck: its dimensions, named screens in order, the screen shown, the
/// plugins and the icons.
pub struct Deck {
    config: DeckDimensionConfig,
    current_screen_id: String,
    screens: IndexMap<String, ButtonScreen>,
    plugin_store: PluginStore,
    icon_store: IconStore,
    deck_actions: PluginActionGroup,
}

impl Deck {
    #[verifier::type_invariant]
    closed spec fn inv(self) -> bool {
        &&& screens_valid(screen_map_entries(self.screens))
        &&& self.deck_actions@ == deck_actions_view()
    }

    /// The number of columns and rows.
    pub closed spec fn dimensions(self) -> DeckDimensionConfig {
        self.config
    }

    /// The name of the screen shown.
    pub closed spec fn current(self) -> Seq<char> {
        self.current_screen_id@
    }

    /// The screens, in order, each with its buttons in order.
    pub closed spec fn screens(self) -> ScreensView {
        screen_map_entries(self.screens)
    }

    /// The plugins.
    pub closed spec fn plugin_store(self) -> PluginStore {
        self.plugin_store
    }

    /// The icons.
    pub closed spec fn icon_store(self) -> IconStore {
        self.icon_store
    }

    /// Whether there is a screen named `name`.
    pub open spec fn has_screen(self, name: Seq<char>) -> bool {
        has_key(self.screens(), name)
    }

    /// The position of the screen named `name`.
    pub open spec fn screen_index(self, name: Seq<char>) -> int {
        index_of_key(self.screens(), name)
    }

    /// The buttons of the screen named `name`, in order.
    pub open spec fn screen_buttons(self, name: Seq<char>) -> Seq<((u32, u32), ButtonView)> {
        self.screens()[self.screen_index(name)].1
    }

    /// Whether the screen shown exists; it can be missing after the deck's
    /// switch action named a screen that does not exist.
    pub open spec fn current_valid(self) -> bool {
        self.has_screen(self.current())
    }

    /// The buttons of the screen shown, by position.
    pub open spec fn current_buttons(self) -> Map<(u32, u32), ButtonView> {
        map_of(self.screen_buttons(self.current()))
    }

    /// A deck with the configured dimensions, screens and icons (under the
    /// directory `icons_dir`), the given plugins, showing the screen
    /// `default`. A later configured screen with a name replaces an earlier
    /// one in its place.
    pub fn new(config: DeckConfig, plugin_store: PluginStore, icons_dir: String) -> (r: Self)
        ensures
            r.dimensions() == config@.deck,
            r.screens() == insert_all(Seq::empty(), config@.screens),
            screens_valid(r.screens()),
            r.current() == first_screen_name(),
            r.plugin_store() == plugin_store,
            r.icon_store().store_path() == icons_dir@,
            r.icon_store().entries() == config@.icons,
    {
        let n = screen_map_len(&config.screens);
        let ghost all = screen_map_entries(config.screens);
        let mut screens = screen_map_new();
        let mut i: usize = 0;
        assert(all.subrange(0, 0) =~= Seq::<(Seq<char>, Seq<((u32, u32), ButtonView)>)>::empty());
        while i < n
            invariant
                n == all.len(),
                all == screen_map_entries(config.screens),
                i <= n,
                screen_map_entries(screens) == insert_all(Seq::empty(), all.subrange(0, i as int)),
                screens_valid(screen_map_entries(screens)),
            decreases n - i,
        {
            let ghost e = screen_map_entries(screens);
            match screen_map_get_index(&config.screens, i) {
                Some((k, v)) => {
                    let screen = v.duplicate();
                    proof {
                        lemma_entry_insert(e, k@, screen.entries());
                        assert(all.subrange(0, i + 1).drop_last() =~= all.subrange(0, i as int));
                    }
                    screen_map_insert(&mut screens, k.clone(), screen);
                    proof {
                        let e2 = screen_map_entries(screens);
                        assert forall|j: int| 0 <= j < e2.len() implies keys_unique(#[trigger] e2[j].1) by {
                            if j < e.len() && e2[j] != e[j] {
                                assert(e2[j].1 == screen.entries());
                            }
                        }
                    }
                },
                None => {},
            }
            i = i + 1;
        }
        assert(all.subrange(0, n as int) =~= all);
        proof {
            reveal_strlit("default");
        }
        let icons = IconStore::from_config(icons_dir, config.icons);
        Deck {
            config: config.deck,
            current_screen_id: owned("default"),
            screens,
            plugin_store,
            icon_store: icons,
            deck_actions: deck_actions(),
        }
    }

    /// Whether `other` has the same dimensions, screen shown, plugins and
    /// icons as this deck.
    pub open spec fn same_but_screens(self, other: Deck) -> bool {
        &&& other.dimensions() == self.dimensions()
        &&& other.current() == self.current()
        &&& other.plugin_store() == self.plugin_store()
        &&& other.icon_store() == self.icon_store()
    }

    fn current_index(&self) -> (r: usize)
        requires
            self.current_valid(),
        ensures
            r < self.screens().len(),
            r == self.screen_index(self.current()),
            self.screens()[r as int].0 == self.current(),
    {
        proof {
            use_type_invariant(self);
        }
        match screen_map_get_index_of(&self.screens, self.current_screen_id.as_str()) {
            Some(i) => {
                proof {
                    lemma_index_of_key(self.screens(), self.current(), i as int);
                }
                i
            },
            None => 0,
        }
    }

    /// A copy of the screen at position `i`.
    fn screen_copy(&self, i: usize) -> (r: ButtonScreen)
        requires
            i < self.screens().len(),
        ensures
            r.entries() == self.screens()[i as int].1,
            keys_unique(r.entries()),
    {
        match screen_map_get_index(&self.screens, i) {
            Some((_, v)) => v.duplicate(),
            None => ButtonScreen::new(),
        }
    }

    /// Replaces the buttons of the screen at position `i`.
    fn replace_screen(&mut self, i: usize, screen: ButtonScreen)
        requires
            i < old(self).screens().len(),
            keys_unique(screen.entries()),
        ensures
            final(self).screens() == with_screen(old(self).screens(), i as int, screen.entries()),
            old(self).same_but_screens(*final(self)),
    {
        proof {
            use_type_invariant(&*self);
        }
        let ghost e = self.screens();
        let name = match screen_map_get_index(&self.screens, i) {
            Some((k, _)) => k.clone(),
            None => String::new(),
        };
        proof {
            lemma_index_of_key(e, name@, i as int);
        }
        let mut screens = screen_map_new();
        std::mem::swap(&mut screens, &mut self.screens);
        let ghost b = screen.entries();
        screen_map_insert(&mut screens, name, screen);
        proof {
            let e2 = screen_map_entries(screens);
            assert(e2 =~= with_screen(e, i as int, b));
            assert(keys_of(e2) =~= keys_of(e));
            assert forall|j: int, k: int| 0 <= j < e2.len() && 0 <= k < e2.len() && j != k implies e2[j].0
                != e2[k].0 by {
                assert(e2[j].0 == e[j].0 && e2[k].0 == e[k].0);
            }
            assert forall|j: int| 0 <= j < e2.len() implies keys_unique(#[trigger] e2[j].1) by {
                if j != i {
                    assert(e2[j] == e[j]);
                }
            }
        }
        self.screens = screens;
    }

    /// The name of the screen shown.
    pub fn current_screen_name(&self) -> (r: String)
        ensures
            r@ == self.current(),
    {
        self.current_screen_id.clone()
    }

    /// Whether the screen shown exists.
    pub fn current_screen_exists(&self) -> (r: bool)
        ensures
            r == self.current_valid(),
    {
        screen_map_get_index_of(&self.screens, self.current_screen_id.as_str()).is_some()
    }

    /// The number of columns and rows.
    pub fn get_dimensions_config(&self) -> (r: DeckDimensionConfig)
        ensures
            r == self.dimensions(),
    {
        self.config
    }

    /// Sets the number of columns and rows.
    pub fn update_config(&mut self, update: DeckDimensionConfig)
        ensures
            final(self).dimensions() == update,
            final(self).screens() == old(self).screens(),
            final(self).current() == old(self).current(),
            final(self).plugin_store() == old(self).plugin_store(),
            final(self).icon_store() == old(self).icon_store(),
    {
        proof {
            use_type_invariant(&*self);
        }
        self.config = update;
    }

    /// The names of the screens, in order.
    pub fn get_available_screens(&self) -> (r: Vec<String>)
        ensures
            r@.map_values(|s: String| s@) == keys_of(self.screens()),
    {
        screen_map_keys(&self.screens)
    }

    /// The button at `pos` (row, column) of the screen shown, or the default
    /// button when there is none. The screen shown must exist.
    pub fn get_raw_button(&self, pos: (u32, u32)) -> (r: RawDeckButton)
        requires
            self.current_valid(),
        ensures
            r@ == if self.current_buttons().contains_key(pos) {
                self.current_buttons()[pos]
            } else {
                default_button_view()
            },
    {
        let i = self.current_index();
        let screen = self.screen_copy(i);
        match screen.get(pos) {
            Some(b) => b.duplicate(),
            None => RawDeckButton::default_button(),
        }
    }

    /// Sets the template, style, icon and action of the button at `pos` of
    /// the screen shown, adding the button when there is none. The screen
    /// shown must exist.
    pub fn update_button(&mut self, pos: (u32, u32), update: DeckButtonUpdate)
        requires
            old(self).current_valid(),
        ensures
            final(self).current_valid(),
            screens_valid(final(self).screens()),
            final(self).screens() == with_screen(
                old(self).screens(),
                old(self).screen_index(old(self).current()),
                entry_insert(old(self).screen_buttons(old(self).current()), pos, button_of_update(update)),
            ),
            final(self).current_buttons() == old(self).current_buttons().insert(
                pos,
                button_of_update(update),
            ),
            final(self).current_buttons().contains_key(pos),
            final(self).current_buttons()[pos].template == update.template@,
            final(self).current_buttons()[pos].style == update.style,
            final(self).current_buttons()[pos].icon == opt_view(update.icon),
            final(self).current_buttons()[pos].on_click_action == opt_action_view(
                update.on_click_action,
            ),
            forall|q: (u32, u32)|
                q != pos ==> #[trigger] final(self).current_buttons().contains_key(q) == old(
                    self,
                ).current_buttons().contains_key(q) && final(self).current_buttons()[q] == old(
                    self,
                ).current_buttons()[q],
            old(self).same_but_screens(*final(self)),
    {
        let ghost v = button_of_update(update);
        let i = self.current_index();
        let mut screen = self.screen_copy(i);
        let button = RawDeckButton {
            template: update.template,
            style: update.style,
            icon: update.icon,
            on_click_action: update.on_click_action,
        };
        assert(button@ == v);
        proof {
            lemma_entry_insert(screen.entries(), pos, v);
        }
        screen.insert(pos, button);
        self.replace_screen(i, screen);
        proof {
            use_type_invariant(&*self);
            lemma_index_of_key(self.screens(), self.current(), i as int);
            law_update_stores_its_fields(old(self).current_buttons(), pos, update);
        }
    }

    /// Takes out the button at `pos` of the screen shown; whether there was
    /// one. The screen shown must exist.
    pub fn delete_button(&mut self, pos: (u32, u32)) -> (r: bool)
        requires
            old(self).current_valid(),
        ensures
            final(self).current_valid(),
            screens_valid(final(self).screens()),
            r == old(self).current_buttons().contains_key(pos),
            final(self).screens() == with_screen(
                old(self).screens(),
                old(self).screen_index(old(self).current()),
                entry_remove(old(self).screen_buttons(old(self).current()), pos),
            ),
            final(self).current_buttons() == old(self).current_buttons().remove(pos),
            old(self).same_but_screens(*final(self)),
    {
        let i = self.current_index();
        let mut screen = self.screen_copy(i);
        proof {
            lemma_entry_remove(screen.entries(), pos);
        }
        let removed = screen.remove(pos);
        self.replace_screen(i, screen);
        proof {
            use_type_invariant(&*self);
            lemma_index_of_key(self.screens(), self.current(), i as int);
        }
        removed.is_some()
    }

    /// Shows the screen `id`, if there is one.
    pub fn switch_screen(&mut self, id: String)
        ensures
            old(self).current_valid() ==> final(self).current_valid(),
            screens_valid(final(self).screens()),
            final(self).current() == if old(self).has_screen(id@) {
                id@
            } else {
                old(self).current()
            },
            final(self).screens() == old(self).screens(),
            final(self).dimensions() == old(self).dimensions(),
            final(self).plugin_store() == old(self).plugin_store(),
            final(self).icon_store() == old(self).icon_store(),
    {
        proof {
            use_type_invariant(&*self);
        }
        match screen_map_get_index_of(&self.screens, id.as_str()) {
            None => {},
            Some(i) => {
                if !str_eq(self.current_screen_id.as_str(), id.as_str()) {
                    self.current_screen_id = id;
                }
            },
        }
    }

    /// Adds an empty screen named `id` as the last screen; an error when
    /// there is a screen with that name.
    pub fn new_screen(&mut self, id: String) -> (r: Result<(), ()>)
        ensures
            old(self).current_valid() ==> final(self).current_valid(),
            screens_valid(final(self).screens()),
            old(self).has_screen(id@) ==> r is Err && *final(self) == *old(self),
            !old(self).has_screen(id@) ==> r is Ok && final(self).screens() == old(self).screens().push(
                (id@, Seq::empty()),
            ),
            old(self).same_but_screens(*final(self)),
    {
        proof {
            use_type_invariant(&*self);
        }
        match screen_map_get_index_of(&self.screens, id.as_str()) {
            Some(_) => Err(()),
            None => {
                let ghost e = self.screens();
                let ghost idv = id@;
                let mut screens = screen_map_new();
                std::mem::swap(&mut screens, &mut self.screens);
                screen_map_insert(&mut screens, id, ButtonScreen::new());
                proof {
                    let e2 = screen_map_entries(screens);
                    assert(e2 == e.push((idv, Seq::<((u32, u32), ButtonView)>::empty())));
                    assert forall|j: int, k: int| 0 <= j < e2.len() && 0 <= k < e2.len() && j != k implies e2[j].0
                        != e2[k].0 by {
                        if j == e.len() {
                            assert(e[k].0 == e2[k].0);
                        } else if k == e.len() {
                            assert(e[j].0 == e2[j].0);
                        }
                    }
                    assert forall|j: int| 0 <= j < e2.len() implies keys_unique(#[trigger] e2[j].1) by {
                        if j < e.len() {
                            assert(e2[j] == e[j]);
                        }
                    }
                }
                self.screens = screens;
                proof {
                    if has_key(e, self.current()) {
                        let j = choose|j: int| 0 <= j < e.len() && e[j].0 == self.current();
                        assert(self.screens()[j].0 == self.current());
                    }
                }
                Ok(())
            },
        }
    }

    /// The configuration of the deck: its dimensions, screens and icons.
    pub fn get_config(&self) -> (r: DeckConfig)
        ensures
            r@.deck == self.dimensions(),
            r@.screens == self.screens(),
            r@.icons == self.icon_store().entries(),
    {
        DeckConfig {
            deck: self.config,
            screens: crate::screens::screen_map_clone(&self.screens),
            icons: self.icon_store.to_config(),
        }
    }

    /// Gives the screen `old_id` the name `new_id`, in its place; the screen
    /// shown follows. An error when there is no screen `old_id` or there is
    /// a screen `new_id`.
    pub fn rename_screen(&mut self, old_id: &str, new_id: String) -> (r: Result<(), ()>)
        ensures
            old(self).current_valid() ==> final(self).current_valid(),
            screens_valid(final(self).screens()),
            !old(self).has_screen(old_id@) || old(self).has_screen(new_id@) ==> r is Err
                && *final(self) == *old(self),
            old(self).has_screen(old_id@) && !old(self).has_screen(new_id@) ==> r is Ok
                && final(self).screens() == renamed(
                old(self).screens(),
                old(self).screen_index(old_id@),
                new_id@,
            ) && final(self).current() == if old(self).current() == old_id@ {
                new_id@
            } else {
                old(self).current()
            },
            final(self).dimensions() == old(self).dimensions(),
            final(self).plugin_store() == old(self).plugin_store(),
            final(self).icon_store() == old(self).icon_store(),
    {
        proof {
            use_type_invariant(&*self);
        }
        let index = match screen_map_get_index_of(&self.screens, old_id) {
            None => {
                return Err(());
            },
            Some(i) => i,
        };
        if screen_map_get_index_of(&self.screens, new_id.as_str()).is_some() {
            return Err(());
        }
        let ghost e = self.screens();
        let ghost n = e.len();
        let ghost nv = new_id@;
        let ghost cur = self.current();
        proof {
            lemma_index_of_key(e, old_id@, index as int);
        }
        let mut screens = screen_map_new();
        std::mem::swap(&mut screens, &mut self.screens);
        let removed = screen_map_swap_remove(&mut screens, old_id);
        let screen = match removed {
            Some(s) => s,
            None => ButtonScreen::new(),
        };
        let ghost e1 = screen_map_entries(screens);
        proof {
            assert(e1 == swap_remove_at(e, index as int));
            assert forall|j: int| 0 <= j < e1.len() implies e1[j].0 != nv by {
                if j == index {
                    assert(e1[j] == e[n - 1]);
                } else {
                    assert(e1[j] == e[j]);
                }
            }
        }
        screen_map_insert(&mut screens, new_id.clone(), screen);
        let last = screen_map_len(&screens) - 1;
        screen_map_swap_indices(&mut screens, index, last);
        proof {
            let e3 = screen_map_entries(screens);
            assert(e3 =~= renamed(e, index as int, nv));
            assert forall|j: int, k: int| 0 <= j < e3.len() && 0 <= k < e3.len() && j != k implies e3[j].0
                != e3[k].0 by {
                if j != index && k != index {
                    assert(e3[j].0 == e[j].0 && e3[k].0 == e[k].0);
                } else if j == index {
                    assert(e3[k] == e[k]);
                } else {
                    assert(e3[j] == e[j]);
                }
            }
            assert forall|j: int| 0 <= j < e3.len() implies keys_unique(#[trigger] e3[j].1) by {
                assert(e3[j].1 == e[j].1);
            }
        }
        self.screens = screens;
        if str_eq(self.current_screen_id.as_str(), old_id) {
            self.current_screen_id = new_id;
        }
        proof {
            let e3 = self.screens();
            if has_key(e, cur) {
                if cur == old_id@ {
                    assert(e3[index as int].0 == nv);
                } else {
                    let j = choose|j: int| 0 <= j < e.len() && e[j].0 == cur;
                    assert(e3[j].0 == cur);
                }
            }
        }
        Ok(())
    }

    /// Takes out the screen `id`, the others keeping their order; when it is
    /// the screen shown, the screen before it is shown. An error when there
    /// is no screen `id`. The first screen cannot be taken out while it is
    /// shown (there is no screen before it to show), so that input is left
    /// out.
    pub fn delete_screen(&mut self, id: &str) -> (r: Result<(), ()>)
        requires
            old(self).has_screen(id@) && old(self).current() == id@ ==> old(self).screen_index(id@)
                > 0,
        ensures
            old(self).current_valid() ==> final(self).current_valid(),
            screens_valid(final(self).screens()),
            !old(self).has_screen(id@) ==> r is Err && *final(self) == *old(self),
            old(self).has_screen(id@) ==> r is Ok && final(self).screens() == old(self).screens().remove(
                old(self).screen_index(id@),
            ) && final(self).current() == if old(self).current() == id@ {
                old(self).screens()[old(self).screen_index(id@) - 1].0
            } else {
                old(self).current()
            },
            final(self).dimensions() == old(self).dimensions(),
            final(self).plugin_store() == old(self).plugin_store(),
            final(self).icon_store() == old(self).icon_store(),
    {
        proof {
            use_type_invariant(&*self);
        }
        let index = match screen_map_get_index_of(&self.screens, id) {
            None => {
                return Err(());
            },
            Some(i) => i,
        };
        let ghost e = self.screens();
        let ghost cur = self.current();
        proof {
            lemma_index_of_key(e, id@, index as int);
        }
        if str_eq(self.current_screen_id.as_str(), id) {
            let prev = match screen_map_get_index(&self.screens, index - 1) {
                Some((k, _)) => k.clone(),
                None => String::new(),
            };
            self.current_screen_id = prev;
        }
        let mut screens = screen_map_new();
        std::mem::swap(&mut screens, &mut self.screens);
        screen_map_shift_remove(&mut screens, id);
        proof {
            let e2 = screen_map_entries(screens);
            assert(e2 == e.remove(index as int));
            assert forall|j: int, k: int| 0 <= j < e2.len() && 0 <= k < e2.len() && j != k implies e2[j].0
                != e2[k].0 by {
                let jj = if j < index { j } else { j + 1 };
                let kk = if k < index { k } else { k + 1 };
                assert(e2[j] == e[jj] && e2[k] == e[kk]);
            }
            assert forall|j: int| 0 <= j < e2.len() implies keys_unique(#[trigger] e2[j].1) by {
                let jj = if j < index { j } else { j + 1 };
                assert(e2[j] == e[jj]);
            }
        }
        self.screens = screens;
        proof {
            let e2 = self.screens();
            if has_key(e, cur) {
                if cur == id@ {
                    assert(e2[index - 1] == e[index - 1]);
                } else {
                    let j = choose|j: int| 0 <= j < e.len() && e[j].0 == cur;
                    if j < index {
                        assert(e2[j] == e[j]);
                    } else {
                        assert(e2[j - 1] == e[j]);
                    }
                }
            }
        }
        Ok(())
    }

    /// Exchanges the buttons at `a` and `b` of the screen shown. The screen
    /// shown must exist.
    pub fn swap_buttons(&mut self, a: (u32, u32), b: (u32, u32))
        requires
            old(self).current_valid(),
        ensures
            final(self).current_valid(),
            screens_valid(final(self).screens()),
            final(self).screens() == with_screen(
                old(self).screens(),
                old(self).screen_index(old(self).current()),
                swapped_entries(old(self).screen_buttons(old(self).current()), a, b),
            ),
            final(self).current_buttons() == swapped(old(self).current_buttons(), a, b),
            old(self).same_but_screens(*final(self)),
    {
        let i = self.current_index();
        let mut screen = self.screen_copy(i);
        let ghost e = screen.entries();
        let ghost m = map_of(e);
        proof {
            lemma_map_of_dom(e, a);
            lemma_map_of_dom(e, b);
            lemma_entry_remove(e, a);
            lemma_entry_remove(e, b);
        }
        let button_a = screen.remove(a);
        match button_a {
            Some(button) => {
                let ghost e1 = screen.entries();
                proof {
                    lemma_map_of_dom(e1, b);
                    lemma_entry_insert(e1, b, m[a]);
                }
                let button_b = screen.insert(b, button);
                match button_b {
                    Some(other) => {
                        let ghost e2 = screen.entries();
                        proof {
                            lemma_entry_insert(e2, a, map_of(e1)[b]);
                        }
                        screen.insert(a, other);
                        assert(map_of(screen.entries()) =~= swapped(m, a, b));
                    },
                    None => {
                        assert(map_of(screen.entries()) =~= swapped(m, a, b));
                    },
                }
            },
            None => {
                proof {
                    assert(screen.entries() == e);
                }
                let button_b = screen.remove(b);
                match button_b {
                    Some(other) => {
                        let ghost e1 = screen.entries();
                        proof {
                            lemma_entry_insert(e1, a, m[b]);
                        }
                        screen.insert(a, other);
                        assert(map_of(screen.entries()) =~= swapped(m, a, b));
                    },
                    None => {
                        assert(map_of(screen.entries()) =~= swapped(m, a, b));
                    },
                }
            },
        }
        self.replace_screen(i, screen);
        proof {
            use_type_invariant(&*self);
            lemma_index_of_key(self.screens(), self.current(), i as int);
        }
    }

    /// Handles a click on the button at `pos` of the screen shown: the
    /// deck's switch action shows the screen its first argument names; a
    /// plugin action is checked and handed back to be run; a button without
    /// action does nothing. The screen shown must exist.
    pub fn handle_click_at(&mut self, pos: (u32, u32)) -> (r: Result<ClickOutcome, String>)
        requires
            old(self).current_valid(),
        ensures
            !old(self).current_buttons().contains_key(pos) ==> r is Err && r->Err_0@
                == "Failed to get button at required index"@ && *final(self) == *old(self),
            old(self).current_buttons().contains_key(pos) ==> match old(
                self,
            ).current_buttons()[pos].on_click_action {
                None => r is Ok && r->Ok_0 is Done && *final(self) == *old(self),
                Some(act) => if has_prefix(act.id, deck_prefix()) {
                    if act.id == "deck.switch_screen"@ {
                        if act.args.len() == 0 {
                            r is Err && r->Err_0@ == "Missing argument"@ && *final(self) == *old(
                                self,
                            )
                        } else {
                            r is Ok && r->Ok_0 is Done && final(self).current() == act.args[0]
                                && final(self).screens() == old(self).screens()
                                && final(self).dimensions() == old(self).dimensions()
                                && final(self).plugin_store() == old(self).plugin_store()
                                && final(self).icon_store() == old(self).icon_store()
                        }
                    } else {
                        r is Ok && r->Ok_0 is Done && *final(self) == *old(self)
                    }
                } else {
                    *final(self) == *old(self) && match run_outcome(
                        old(self).plugin_store().plugin_map(),
                        act.id,
                        act.args,
                    ) {
                        Ok(v) => r matches Ok(ClickOutcome::Run(q)) && q@ == v,
                        Err(e) => r matches Err(m) && m@ == action_error_message(e),
                    }
                },
            },
    {
        proof {
            use_type_invariant(&*self);
        }
        let i = self.current_index();
        let screen = self.screen_copy(i);
        let action = match screen.get(pos) {
            None => {
                return Err(owned("Failed to get button at required index"));
            },
            Some(b) => copy_opt_action(&b.on_click_action),
        };
        match action {
            None => Ok(ClickOutcome::Done),
            Some(act) => {
                if starts_with(act.id.as_str(), "deck.") {
                    if str_eq(act.id.as_str(), "deck.switch_screen") {
                        if act.args.len() == 0 {
                            return Err(owned("Missing argument"));
                        }
                        assert(views(act.args@)[0] == act.args@[0]@);
                        self.current_screen_id = act.args[0].clone();
                    }
                    Ok(ClickOutcome::Done)
                } else {
                    match self.plugin_store.try_run_action(&act) {
                        Ok(q) => Ok(ClickOutcome::Run(q)),
                        Err(e) => Err(e.message()),
                    }
                }
            },
        }
    }

    /// The screen shown, with each button rendered with the current
    /// variable values. The screen shown must exist.
    pub fn get_rendered_screen(&self) -> (r: DeckScreen)
        requires
            self.current_valid(),
        ensures
            r.screen@ == self.current(),
            r.buttons@.map_values(|b: RenderedDeckButton| b@) == self.screen_buttons(
                self.current(),
            ).map_values(
                |e: ((u32, u32), ButtonView)|
                    rendered_button(e.0, e.1, self.plugin_store().variables()),
            ),
    {
        let i = self.current_index();
        let screen = self.screen_copy(i);
        let ghost vars = self.plugin_store().variables();
        let ghost want = screen.entries().map_values(
            |e: ((u32, u32), ButtonView)| rendered_button(e.0, e.1, vars),
        );
        let mut renderer = VariableRenderer::new(&self.plugin_store);
        let mut buttons: Vec<RenderedDeckButton> = Vec::new();
        let mut k: usize = 0;
        while k < screen.len()
            invariant
                k <= screen.entries().len(),
                renderer.variables() == vars,
                want == screen.entries().map_values(
                    |e: ((u32, u32), ButtonView)| rendered_button(e.0, e.1, vars),
                ),
                buttons@.map_values(|b: RenderedDeckButton| b@) == want.subrange(0, k as int),
            decreases screen.entries().len() - k,
        {
            let entry = screen.entry_at(k);
            let rendered = entry.1.render(entry.0, &mut renderer);
            let ghost before = buttons@.map_values(|b: RenderedDeckButton| b@);
            buttons.push(rendered);
            assert(buttons@.map_values(|b: RenderedDeckButton| b@) =~= before.push(want[k as int]));
            k = k + 1;
            assert(want.subrange(0, k as int) =~= before.push(want[k - 1]));
        }
        assert(want.subrange(0, k as int) =~= want);
        DeckScreen { screen: self.current_screen_id.clone(), buttons }
    }

    /// The variants of an enum argument: for the deck's switch action the
    /// screen names, in order; for a plugin's argument the request to hand to
    /// the plugin. The deck's only enum argument is the switch action's
    /// destination; it is the only id under `deck.` this is defined for.
    pub fn get_enum_arg_variants(&self, id: &str) -> (r: Result<EnumVariants, String>)
        requires
            has_prefix(id@, deck_prefix()) ==> id@ == "deck.switch_screen.destination"@,
        ensures
            has_prefix(id@, deck_prefix()) ==> (r matches Ok(EnumVariants::Listed(v))
                && v@.map_values(|s: String| s@) == keys_of(self.screens())),
            !has_prefix(id@, deck_prefix()) ==> match enum_arg_outcome(
                self.plugin_store().plugin_map(),
                id@,
            ) {
                Ok(v) => r matches Ok(EnumVariants::Ask(q)) && q@ == v,
                Err(m) => r matches Err(x) && x@ == m,
            },
    {
        if starts_with(id, "deck.") {
            Ok(EnumVariants::Listed(screen_map_keys(&self.screens)))
        } else {
            match self.plugin_store.get_enum_arg_variants(id) {
                Ok(q) => Ok(EnumVariants::Ask(q)),
                Err(m) => Err(m),
            }
        }
    }

    /// All variables of all plugins in one list.
    pub fn get_all_variables_ungrouped(&self) -> (r: Vec<PluginVariable>)
        ensures
            listed_variable_views(r@) == ungrouped(self.plugin_store().plugins(), variable_lister()),
    {
        self.plugin_store.get_all_variables_ungrouped()
    }

    /// The variables of each plugin that has some, grouped by plugin.
    pub fn get_all_variables_grouped(&self) -> (r: Vec<PluginVariableGroup>)
        ensures
            variable_group_views(r@) == groups_of(self.plugin_store().plugins(), variable_lister()),
    {
        self.plugin_store.get_all_variables_grouped()
    }

    /// All actions in one list: the deck's own first (their ids prefixed
    /// with `deck.` once more), then those of the plugins.
    pub fn get_all_actions_ungrouped(&self) -> (r: Vec<PluginAction>)
        ensures
            listed_action_views(r@) == deck_listed_actions() + ungrouped(
                self.plugin_store().plugins(),
                action_lister(),
            ),
    {
        proof {
            use_type_invariant(self);
        }
        let mut out: Vec<PluginAction> = Vec::new();
        let mut i: usize = 0;
        while i < self.deck_actions.actions.len()
            invariant
                i <= self.deck_actions.actions@.len(),
                self.deck_actions@ == deck_actions_view(),
                listed_action_views(out@) == deck_listed_actions().subrange(0, i as int),
            decreases self.deck_actions.actions@.len() - i,
        {
            let a = &self.deck_actions.actions[i];
            proof {
                reveal_strlit("deck.");
            }
            let id = concat("deck.", a.id.as_str());
            let args = copy_listed_args(&a.args);
            let ghost before = listed_action_views(out@);
            out.push(PluginAction { id, name: a.name.clone(), description: a.description.clone(), args });
            assert(deck_actions_view().items[i as int] == a@);
            assert(listed_action_views(out@) =~= before.push(deck_listed_actions()[i as int]));
            i = i + 1;
            assert(deck_listed_actions().subrange(0, i as int) =~= before.push(
                deck_listed_actions()[i - 1],
            ));
        }
        assert(deck_listed_actions().subrange(0, i as int) =~= deck_listed_actions());
        let mut rest = self.plugin_store.get_all_actions_ungrouped();
        let ghost first = out@;
        let ghost added = rest@;
        out.append(&mut rest);
        assert(listed_action_views(out@) =~= listed_action_views(first) + listed_action_views(added));
        out
    }

    /// The actions grouped by plugin, the deck's own group first.
    pub fn get_all_actions_grouped(&self) -> (r: Vec<PluginActionGroup>)
        ensures
            action_group_views(r@) == seq![deck_actions_view()] + groups_of(
                self.plugin_store().plugins(),
                action_lister(),
            ),
    {
        let mut actions = self.plugin_store.get_all_actions_grouped();
        let ghost before = actions@;
        actions.insert(0, deck_actions());
        assert(action_group_views(actions@) =~= seq![deck_actions_view()] + action_group_views(
            before,
        ));
        actions
    }

    /// All plugins with their listed variables and actions.
    pub fn get_all_plugins(&self) -> (r: Vec<PluginData>)
        ensures
            r@.map_values(|d: PluginData| d@) == self.plugin_store().plugins().map_values(
                |p: PluginView| plugin_data(p),
            ),
    {
        self.plugin_store.get_all_plugins()
    }

    /// The names of all icons, in order.
    pub fn get_all_icons(&self) -> (r: Vec<String>)
        ensures
            r@.map_values(|s: String| s@) == keys_of(self.icon_store().entries()),
    {
        self.icon_store.keys()
    }

    /// The plugins of the deck.
    pub fn store(&self) -> (r: &PluginStore)
        ensures
            *r == self.plugin_store(),
    {
        &self.plugin_store
    }

    /// The icons of the deck.
    pub fn icons(&self) -> (r: &IconStore)
        ensures
            *r == self.icon_store(),
    {
        &self.icon_store
    }

    /// Takes in the values the plugins reported for their variables (see
    /// `PluginStore::update_variables`).
    pub fn update_variables(&mut self, reports: Vec<VariableValues>)
        ensures
            final(self).plugin_store().plugins() == old(self).plugin_store().plugins(),
            final(self).plugin_store().variables() == map_of(
                cache_pairs(old(self).plugin_store().plugin_map(), reported_views(reports@)),
            ),
            final(self).screens() == old(self).screens(),
            final(self).current() == old(self).current(),
            final(self).dimensions() == old(self).dimensions(),
            final(self).icon_store() == old(self).icon_store(),
    {
        proof {
            use_type_invariant(&*self);
        }
        let mut store = PluginStore::new(Vec::new());
        std::mem::swap(&mut store, &mut self.plugin_store);
        store.update_variables(reports);
        self.plugin_store = store;
    }
}

/// Exchanging the buttons at two positions twice gives back the buttons as
/// they were.
pub proof fn law_swap_twice<V>(m: Map<(u32, u32), V>, a: (u32, u32), b: (u32, u32))
    ensures
        swapped(swapped(m, a, b), a, b) == m,
{
    assert(swapped(swapped(m, a, b), a, b) =~= m);
}

/// After a button is set at a position, the position shows that button and
/// every other position shows what it showed before; after it is taken
/// out, the position shows none.
pub proof fn law_button_read_after_write(
    m: Map<(u32, u32), ButtonView>,
    pos: (u32, u32),
    other: (u32, u32),
    v: ButtonView,
)
    requires
        other != pos,
    ensures
        m.insert(pos, v).contains_key(pos) && m.insert(pos, v)[pos] == v,
        m.insert(pos, v).contains_key(other) == m.contains_key(other),
        m.contains_key(other) ==> m.insert(pos, v)[other] == m[other],
        !m.remove(pos).contains_key(pos),
        m.remove(pos).contains_key(other) == m.contains_key(other),
{
}

/// Adding a screen that is not there yet and then taking it out again gives
/// back the screens as they were.
pub proof fn law_new_then_delete_screen(s: ScreensView, id: Seq<char>)
    requires
        screens_valid(s),
        !has_key(s, id),
    ensures
        has_key(s.push((id, Seq::empty())), id),
        s.push((id, Seq::empty())).remove(index_of_key(s.push((id, Seq::empty())), id)) == s,
{
    let t = s.push((id, Seq::<((u32, u32), ButtonView)>::empty()));
    assert(keys_unique(t)) by {
        assert forall|i: int, j: int| 0 <= i < t.len() && 0 <= j < t.len() && i != j implies t[i].0
            != t[j].0 by {
            if i < s.len() && j < s.len() {
                assert(t[i] == s[i] && t[j] == s[j]);
            } else if i < s.len() {
                assert(t[i] == s[i]);
            } else {
                assert(t[j] == s[j]);
            }
        }
    }
    lemma_index_of_key(t, id, s.len() as int);
    assert(t.remove(s.len() as int) =~= s);
}

/// Renaming a screen and then renaming it back gives back the screens as
/// they were; the renamed screen keeps its place and buttons.
pub proof fn law_rename_back(s: ScreensView, a: Seq<char>, b: Seq<char>)
    requires
        screens_valid(s),
        has_key(s, a),
        !has_key(s, b),
    ensures
        has_key(renamed(s, index_of_key(s, a), b), b),
        index_of_key(renamed(s, index_of_key(s, a), b), b) == index_of_key(s, a),
        renamed(s, index_of_key(s, a), b)[index_of_key(s, a)].1 == s[index_of_key(s, a)].1,
        renamed(renamed(s, index_of_key(s, a), b), index_of_key(s, a), a) == s,
{
    let i = index_of_key(s, a);
    let t = renamed(s, i, b);
    assert(keys_unique(t)) by {
        assert forall|x: int, y: int| 0 <= x < t.len() && 0 <= y < t.len() && x != y implies t[x].0
            != t[y].0 by {
            if x != i && y != i {
                assert(t[x] == s[x] && t[y] == s[y]);
            } else if x == i {
                assert(t[y] == s[y]);
            } else {
                assert(t[x] == s[x]);
            }
        }
    }
    lemma_index_of_key(t, b, i);
    assert(renamed(t, i, a) =~= s);
}

/// Reading back the configuration of a deck builds the same screens: the
/// screens of `Deck::new` on `Deck::get_config` are the deck's screens.
pub proof fn law_reload_keeps_screens(s: ScreensView)
    requires
        screens_valid(s),
    ensures
        insert_all(Seq::empty(), s) == s,
{
    crate::keyed::lemma_insert_all_unique(s);
}

} // verus!
