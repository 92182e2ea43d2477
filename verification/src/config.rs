//! The deck configuration and its serialized form.

use vstd::prelude::*;

use indexmap::IndexMap;

use crate::buttons::{
    copy_opt_action, copy_opt_string, ButtonView, DeckButtonPos, DeckButtonStyle,
    RawDeckButton, RawDeckButtonAction, opt_action_view, opt_view,
};
use crate::keyed::{insert_all, keys_unique, lemma_insert_all_unique};
use crate::screen::{entry_views, ButtonScreen};
use crate::screens::{
    screen_map_entries, screen_map_get_index, screen_map_insert, screen_map_len, screen_map_new,
    ScreensView,
};
use crate::strmap::StringMap;
use crate::text::owned;

verus! {

/// The number of columns and rows of the deck.
#[derive(Clone, Copy, Debug, PartialEq, Eq, Structural)]
pub struct DeckDimensionConfig {
    pub cols: u32,
    pub rows: u32,
}

impl Default for DeckDimensionConfig {
    fn default() -> (r: Self)
        ensures
            r.cols == 5 && r.rows == 3,
    {
        DeckDimensionConfig { cols: 5, rows: 3 }
    }
}

/// A raw deck button with its position, as the configuration file holds it.
#[derive(Debug)]
pub struct SerializedDeckButton {
    pub position: DeckButtonPos,
    pub style: DeckButtonStyle,
    pub template: String,
    pub icon: Option<String>,
    pub on_click_action: Option<RawDeckButtonAction>,
}

impl View for SerializedDeckButton {
    type V = ((u32, u32), ButtonView);

    open spec fn view(&self) -> ((u32, u32), ButtonView) {
        (
            (self.position.y, self.position.x),
            ButtonView {
                template: self.template@,
                style: self.style,
                icon: opt_view(self.icon),
                on_click_action: opt_action_view(self.on_click_action),
            },
        )
    }
}

impl SerializedDeckButton {
    /// The position and button that this entry holds.
    pub fn into_deck_button(self) -> (r: ((u32, u32), RawDeckButton))
        ensures
            (r.0, r.1@) == self@,
    {
        (
            self.position.as_yx(),
            RawDeckButton {
                template: self.template,
                style: self.style,
                icon: self.icon,
                on_click_action: self.on_click_action,
            },
        )
    }

    /// The entry that holds a button at a position.
    pub fn from_deck_button(pos: (u32, u32), value: RawDeckButton) -> (r: Self)
        ensures
            r@ == (pos, value@),
    {
        SerializedDeckButton {
            position: DeckButtonPos::from_yx(pos),
            template: value.template,
            style: value.style,
            icon: value.icon,
            on_click_action: value.on_click_action,
        }
    }

    fn duplicate(&self) -> (r: Self)
        ensures
            r@ == self@,
    {
        SerializedDeckButton {
            position: self.position,
            style: self.style,
            template: self.template.clone(),
            icon: copy_opt_string(&self.icon),
            on_click_action: copy_opt_action(&self.on_click_action),
        }
    }
}

/// The views of serialized buttons.
pub open spec fn serialized_views(v: Seq<SerializedDeckButton>) -> Seq<((u32, u32), ButtonView)> {
    v.map_values(|b: SerializedDeckButton| b@)
}

/// A named screen with its buttons, as the configuration file holds it.
#[derive(Debug)]
pub struct SerializedDeckButtonScreen {
    pub id: String,
    pub buttons: Vec<SerializedDeckButton>,
}

impl View for SerializedDeckButtonScreen {
    type V = (Seq<char>, Seq<((u32, u32), ButtonView)>);

    open spec fn view(&self) -> (Seq<char>, Seq<((u32, u32), ButtonView)>) {
        (self.id@, serialized_views(self.buttons@))
    }
}

impl SerializedDeckButtonScreen {
    /// The name and the screen of buttons; a later button for a position
    /// replaces an earlier one.
    pub fn into_deck_button_screen(self) -> (r: (String, ButtonScreen))
        ensures
            r.0@ == self.id@,
            r.1.entries() == insert_all(Seq::empty(), serialized_views(self.buttons@)),
    {
        let mut entries: Vec<((u32, u32), RawDeckButton)> = Vec::new();
        let mut i: usize = 0;
        while i < self.buttons.len()
            invariant
                i <= self.buttons@.len(),
                entry_views(entries@) == serialized_views(self.buttons@).subrange(0, i as int),
            decreases self.buttons@.len() - i,
        {
            let b = self.buttons[i].duplicate();
            let e = b.into_deck_button();
            let ghost prev = entry_views(entries@);
            let ghost ev = (e.0, e.1@);
            entries.push(e);
            assert(entry_views(entries@) =~= prev.push(ev));
            i = i + 1;
            assert(entry_views(entries@) =~= serialized_views(self.buttons@).subrange(0, i as int));
        }
        assert(serialized_views(self.buttons@).subrange(0, i as int) =~= serialized_views(
            self.buttons@,
        ));
        (self.id, ButtonScreen::from_entries(&entries))
    }

    /// The serialized form of a named screen, its buttons in order.
    pub fn from_deck_button_screen(id: String, buttons: ButtonScreen) -> (r: Self)
        ensures
            r@ == (id@, buttons.entries()),
    {
        let entries = buttons.to_entries();
        let mut out: Vec<SerializedDeckButton> = Vec::new();
        let mut i: usize = 0;
        while i < entries.len()
            invariant
                i <= entries@.len(),
                entry_views(entries@) == buttons.entries(),
                serialized_views(out@) == buttons.entries().subrange(0, i as int),
            decreases entries@.len() - i,
        {
            let pos = entries[i].0;
            let b = entries[i].1.duplicate();
            assert(buttons.entries()[i as int] == (pos, b@));
            let s = SerializedDeckButton::from_deck_button(pos, b);
            let ghost prev = serialized_views(out@);
            out.push(s);
            assert(serialized_views(out@) =~= prev.push((pos, b@)));
            i = i + 1;
            assert(serialized_views(out@) =~= buttons.entries().subrange(0, i as int));
        }
        assert(buttons.entries().subrange(0, i as int) =~= buttons.entries());
        SerializedDeckButtonScreen { id, buttons: out }
    }
}

/// The views of serialized screens.
pub open spec fn serialized_screen_views(v: Seq<SerializedDeckButtonScreen>) -> ScreensView {
    v.map_values(|s: SerializedDeckButtonScreen| s@)
}

/// The deck configuration: dimensions, named screens in order, icons.
pub struct DeckConfig {
    pub deck: DeckDimensionConfig,
    pub screens: IndexMap<String, ButtonScreen>,
    pub icons: StringMap,
}

/// What a configuration holds: dimensions, screens in order, icons in order.
pub struct ConfigView {
    pub deck: DeckDimensionConfig,
    pub screens: ScreensView,
    pub icons: Seq<(Seq<char>, Seq<char>)>,
}

impl View for DeckConfig {
    type V = ConfigView;

    open spec fn view(&self) -> ConfigView {
        ConfigView {
            deck: self.deck,
            screens: screen_map_entries(self.screens),
            icons: self.icons.entries(),
        }
    }
}

/// The configuration file's form of the deck configuration.
pub struct SerializedDeckConfig {
    pub deck: DeckDimensionConfig,
    pub screens: Vec<SerializedDeckButtonScreen>,
    pub icons: StringMap,
}

impl View for SerializedDeckConfig {
    type V = ConfigView;

    open spec fn view(&self) -> ConfigView {
        ConfigView {
            deck: self.deck,
            screens: serialized_screen_views(self.screens@),
            icons: self.icons.entries(),
        }
    }
}

/// The screens that reading a configuration file gives: within each screen a
/// later button for a position replaces an earlier one, and a later screen
/// with a name replaces the value of an earlier one in its place.
pub open spec fn read_screens(s: ScreensView) -> ScreensView {
    insert_all(
        Seq::empty(),
        s.map_values(
            |e: (Seq<char>, Seq<((u32, u32), ButtonView)>)| (e.0, insert_all(Seq::empty(), e.1)),
        ),
    )
}

/// The name of the screen that a new configuration has.
pub open spec fn default_screen_name() -> Seq<char> {
    seq!['d', 'e', 'f', 'a', 'u', 'l', 't']
}

impl DeckConfig {
    /// A configuration with a 5 by 3 deck, one empty screen named `default`
    /// and no icons.
    pub fn default_config() -> (r: Self)
        ensures
            r@.deck == (DeckDimensionConfig { cols: 5, rows: 3 }),
            r@.screens == seq![(default_screen_name(), Seq::<((u32, u32), ButtonView)>::empty())],
            r@.icons == Seq::<(Seq<char>, Seq<char>)>::empty(),
    {
        let mut screens = screen_map_new();
        proof {
            reveal_strlit("default");
        }
        let name = owned("default");
        assert(name@ =~= default_screen_name());
        screen_map_insert(&mut screens, name, ButtonScreen::new());
        assert(screen_map_entries(screens) =~= seq![
            (default_screen_name(), Seq::<((u32, u32), ButtonView)>::empty()),
        ]);
        DeckConfig {
            deck: DeckDimensionConfig::default(),
            screens,
            icons: StringMap::new(),
        }
    }
}

impl Default for DeckConfig {
    /// Create a base `default` named screen
    fn default() -> (r: Self)
        ensures
            r@.deck == (DeckDimensionConfig { cols: 5, rows: 3 }),
            r@.screens == seq![(default_screen_name(), Seq::<((u32, u32), ButtonView)>::empty())],
            r@.icons == Seq::<(Seq<char>, Seq<char>)>::empty(),
    {
        DeckConfig::default_config()
    }
}

impl SerializedDeckConfig {
    /// The serialized form of a configuration: the same dimensions,
    /// screens in order and icons.
    pub fn from_config(value: &DeckConfig) -> (r: Self)
        ensures
            r@ == value@,
    {
        let n = screen_map_len(&value.screens);
        let mut screens: Vec<SerializedDeckButtonScreen> = Vec::new();
        let mut i: usize = 0;
        while i < n
            invariant
                n == screen_map_entries(value.screens).len(),
                i <= n,
                serialized_screen_views(screens@) == screen_map_entries(value.screens).subrange(
                    0,
                    i as int,
                ),
            decreases n - i,
        {
            match screen_map_get_index(&value.screens, i) {
                Some((k, v)) => {
                    let s = SerializedDeckButtonScreen::from_deck_button_screen(
                        k.clone(),
                        v.duplicate(),
                    );
                    let ghost prev = serialized_screen_views(screens@);
                    screens.push(s);
                    assert(serialized_screen_views(screens@) =~= prev.push(s@));
                },
                None => {},
            }
            i = i + 1;
            assert(serialized_screen_views(screens@) =~= screen_map_entries(value.screens).subrange(
                0,
                i as int,
            ));
        }
        assert(screen_map_entries(value.screens).subrange(0, i as int) =~= screen_map_entries(
            value.screens,
        ));
        let r = SerializedDeckConfig { deck: value.deck, screens, icons: value.icons.duplicate() };
        assert(r@.screens =~= value@.screens);
        r
    }

    /// The configuration that a serialized form stands for.
    pub fn into_config(self) -> (r: DeckConfig)
        ensures
            r@.deck == self@.deck,
            r@.screens == read_screens(self@.screens),
            r@.icons == self@.icons,
    {
        let mut screens = screen_map_new();
        let mut i: usize = 0;
        let ghost mapped = self@.screens.map_values(
            |e: (Seq<char>, Seq<((u32, u32), ButtonView)>)| (e.0, insert_all(Seq::empty(), e.1)),
        );
        while i < self.screens.len()
            invariant
                i <= self.screens@.len(),
                mapped == self@.screens.map_values(
                    |e: (Seq<char>, Seq<((u32, u32), ButtonView)>)|
                        (e.0, insert_all(Seq::empty(), e.1)),
                ),
                self@.screens == serialized_screen_views(self.screens@),
                screen_map_entries(screens) == insert_all(Seq::empty(), mapped.subrange(0, i as int)),
            decreases self.screens@.len() - i,
        {
            let s = SerializedDeckButtonScreen {
                id: self.screens[i].id.clone(),
                buttons: copy_serialized(&self.screens[i].buttons),
            };
            let (name, screen) = s.into_deck_button_screen();
            assert(mapped[i as int] == (name@, screen.entries()));
            screen_map_insert(&mut screens, name, screen);
            proof {
                let t = mapped.subrange(0, i as int + 1);
                assert(t.drop_last() =~= mapped.subrange(0, i as int));
            }
            i = i + 1;
        }
        assert(mapped.subrange(0, i as int) =~= mapped);
        DeckConfig { deck: self.deck, screens, icons: self.icons }
    }
}

fn copy_serialized(v: &Vec<SerializedDeckButton>) -> (r: Vec<SerializedDeckButton>)
    ensures
        serialized_views(r@) == serialized_views(v@),
{
    let mut out: Vec<SerializedDeckButton> = Vec::new();
    let mut i: usize = 0;
    while i < v.len()
        invariant
            i <= v@.len(),
            serialized_views(out@) == serialized_views(v@).subrange(0, i as int),
        decreases v@.len() - i,
    {
        let b = v[i].duplicate();
        let ghost prev = serialized_views(out@);
        out.push(b);
        assert(serialized_views(out@) =~= prev.push(b@));
        i = i + 1;
        assert(serialized_views(out@) =~= serialized_views(v@).subrange(0, i as int));
    }
    assert(serialized_views(v@).subrange(0, i as int) =~= serialized_views(v@));
    out
}

/// Whether the screen names are unique and no screen has two buttons at one
/// position, as holds of every configuration the deck builds.
pub open spec fn screens_valid(s: ScreensView) -> bool {
    &&& keys_unique(s)
    &&& forall|i: int| 0 <= i < s.len() ==> keys_unique(#[trigger] s[i].1)
}

/// Reading back the serialized form of a configuration gives the same
/// configuration: same dimensions, the same screens in the same order with
/// the same buttons in the same order, and the same icons.
pub proof fn law_config_round_trip(c: ConfigView)
    requires
        screens_valid(c.screens),
    ensures
        read_screens(c.screens) == c.screens,
{
    let mapped = c.screens.map_values(
        |e: (Seq<char>, Seq<((u32, u32), ButtonView)>)| (e.0, insert_all(Seq::empty(), e.1)),
    );
    assert forall|i: int| 0 <= i < c.screens.len() implies mapped[i] == c.screens[i] by {
        lemma_insert_all_unique(c.screens[i].1);
    }
    assert(mapped =~= c.screens);
    lemma_insert_all_unique(c.screens);
}

} // verus!
