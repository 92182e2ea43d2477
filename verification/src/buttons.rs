//! Deck buttons: their style, position, raw (template) form and rendered form.

use vstd::prelude::*;

use crate::text::views;

verus! {

/// A copy of an optional string that is equal to it.
pub fn copy_opt_string(s: &Option<String>) -> (r: Option<String>)
    ensures
        r == *s,
{
    match s {
        Some(v) => Some(v.clone()),
        None => None,
    }
}

/// A copy of a vector of strings that is equal to it.
pub fn copy_strings(v: &Vec<String>) -> (r: Vec<String>)
    ensures
        r@ == v@,
{
    let mut out: Vec<String> = Vec::new();
    let mut i: usize = 0;
    while i < v.len()
        invariant
            i <= v.len(),
            out@ == v@.subrange(0, i as int),
        decreases v.len() - i,
    {
        out.push(v[i].clone());
        i = i + 1;
        assert(out@ =~= v@.subrange(0, i as int));
    }
    assert(v@.subrange(0, v@.len() as int) =~= v@);
    out
}

/// Button content vertical align
#[derive(Clone, Copy, Debug, PartialEq, Eq, Structural)]
pub enum DeckButtonStyleTextAlign {
    Center,
    Top,
    Bottom,
}

impl Default for DeckButtonStyleTextAlign {
    fn default() -> (r: Self)
        ensures
            r == DeckButtonStyleTextAlign::Center,
    {
        DeckButtonStyleTextAlign::Center
    }
}

/// How the content of a button is laid out.
#[derive(Clone, Copy, Debug, PartialEq, Eq, Structural)]
pub struct DeckButtonStyle {
    pub text_align: DeckButtonStyleTextAlign,
    pub text_size: u32,
}

/// The style of a button that has none of its own: centered, size 24.
pub open spec fn default_style() -> DeckButtonStyle {
    DeckButtonStyle { text_align: DeckButtonStyleTextAlign::Center, text_size: 24 }
}

impl Default for DeckButtonStyle {
    fn default() -> (r: Self)
        ensures
            r == default_style(),
    {
        DeckButtonStyle { text_size: 24, text_align: DeckButtonStyleTextAlign::Center }
    }
}

/// The position of a button: row `y`, column `x`.
#[derive(Clone, Copy, Debug, PartialEq, Eq, Structural)]
pub struct DeckButtonPos {
    pub y: u32,
    pub x: u32,
}

/// The position of a `(y, x)` pair.
pub open spec fn pos_of(yx: (u32, u32)) -> DeckButtonPos {
    DeckButtonPos { y: yx.0, x: yx.1 }
}

/// The `(y, x)` pair of a position.
pub open spec fn yx_of(p: DeckButtonPos) -> (u32, u32) {
    (p.y, p.x)
}

impl DeckButtonPos {
    /// The position of a `(y, x)` pair.
    pub fn from_yx(value: (u32, u32)) -> (r: Self)
        ensures
            r == pos_of(value),
    {
        DeckButtonPos { y: value.0, x: value.1 }
    }

    /// The `(y, x)` pair of the position.
    pub fn as_yx(&self) -> (r: (u32, u32))
        ensures
            r == yx_of(*self),
    {
        (self.y, self.x)
    }
}

/// A position read back from its `(y, x)` pair is the same position, and a
/// pair read back from its position is the same pair.
pub proof fn law_pos_round_trip(p: DeckButtonPos, yx: (u32, u32))
    ensures
        pos_of(yx_of(p)) == p,
        yx_of(pos_of(yx)) == yx,
{
}

/// A deck button with its content rendered (interpolated with variables)
/// and position
#[derive(Clone, Debug)]
pub struct RenderedDeckButton {
    pub position: DeckButtonPos,
    pub content: String,
    pub style: DeckButtonStyle,
    pub icon: Option<String>,
}

/// What a rendered button is.
pub struct RenderedView {
    pub position: DeckButtonPos,
    pub content: Seq<char>,
    pub style: DeckButtonStyle,
    pub icon: Option<Seq<char>>,
}

impl View for RenderedDeckButton {
    type V = RenderedView;

    open spec fn view(&self) -> RenderedView {
        RenderedView {
            position: self.position,
            content: self.content@,
            style: self.style,
            icon: opt_view(self.icon),
        }
    }
}

/// The action a button runs when it is clicked: the action id and its
/// positional arguments.
#[derive(Clone, Debug)]
pub struct RawDeckButtonAction {
    pub id: String,
    pub args: Vec<String>,
}

/// What a click action is: its id and the text of its arguments.
pub struct ActionView {
    pub id: Seq<char>,
    pub args: Seq<Seq<char>>,
}

impl View for RawDeckButtonAction {
    type V = ActionView;

    open spec fn view(&self) -> ActionView {
        ActionView { id: self.id@, args: views(self.args@) }
    }
}

impl RawDeckButtonAction {
    /// A copy of this action.
    pub fn duplicate(&self) -> (r: Self)
        ensures
            r@ == self@,
    {
        let args = copy_strings(&self.args);
        RawDeckButtonAction { id: self.id.clone(), args }
    }
}

/// The view of an optional action.
pub open spec fn opt_action_view(a: Option<RawDeckButtonAction>) -> Option<ActionView> {
    match a {
        Some(v) => Some(v@),
        None => None,
    }
}

/// The view of an optional string.
pub open spec fn opt_view(s: Option<String>) -> Option<Seq<char>> {
    match s {
        Some(v) => Some(v@),
        None => None,
    }
}

/// A copy of an optional action.
pub fn copy_opt_action(a: &Option<RawDeckButtonAction>) -> (r: Option<RawDeckButtonAction>)
    ensures
        opt_action_view(r) == opt_action_view(*a),
{
    match a {
        Some(v) => Some(v.duplicate()),
        None => None,
    }
}

/// A button as it is configured: a template whose `{plugin.variable}`
/// references are filled in when it is shown.
#[derive(Clone, Debug)]
pub struct RawDeckButton {
    pub template: String,
    pub style: DeckButtonStyle,
    pub icon: Option<String>,
    pub on_click_action: Option<RawDeckButtonAction>,
}

/// What a configured button is: its template, style, icon and action.
pub struct ButtonView {
    pub template: Seq<char>,
    pub style: DeckButtonStyle,
    pub icon: Option<Seq<char>>,
    pub on_click_action: Option<ActionView>,
}

impl View for RawDeckButton {
    type V = ButtonView;

    open spec fn view(&self) -> ButtonView {
        ButtonView {
            template: self.template@,
            style: self.style,
            icon: opt_view(self.icon),
            on_click_action: opt_action_view(self.on_click_action),
        }
    }
}

/// The button that a position without a button shows: empty template,
/// default style, no icon, no action.
pub open spec fn default_button_view() -> ButtonView {
    ButtonView {
        template: Seq::<char>::empty(),
        style: default_style(),
        icon: None,
        on_click_action: None,
    }
}

/// Whether `b` is the button that a position without a button shows.
pub open spec fn is_default_button(b: RawDeckButton) -> bool {
    b@ == default_button_view()
}

impl RawDeckButton {
    /// The button that a position without a button shows.
    pub fn default_button() -> (r: Self)
        ensures
            is_default_button(r),
    {
        RawDeckButton {
            template: String::new(),
            style: DeckButtonStyle::default(),
            icon: None,
            on_click_action: None,
        }
    }

    /// A copy of this button.
    pub fn duplicate(&self) -> (r: Self)
        ensures
            r@ == self@,
    {
        RawDeckButton {
            template: self.template.clone(),
            style: self.style,
            icon: copy_opt_string(&self.icon),
            on_click_action: copy_opt_action(&self.on_click_action),
        }
    }
}

impl Default for RawDeckButton {
    fn default() -> (r: Self)
        ensures
            is_default_button(r),
    {
        RawDeckButton::default_button()
    }
}

/// New properties for a button.
#[derive(Clone, Debug)]
pub struct DeckButtonUpdate {
    pub template: String,
    pub style: DeckButtonStyle,
    pub icon: Option<String>,
    pub on_click_action: Option<RawDeckButtonAction>,
}

/// The button that an update sets.
pub open spec fn button_of_update(u: DeckButtonUpdate) -> ButtonView {
    ButtonView {
        template: u.template@,
        style: u.style,
        icon: opt_view(u.icon),
        on_click_action: opt_action_view(u.on_click_action),
    }
}

/// An update sets each field of the button it lands on to the same field of
/// the update: after setting the update at `pos` among `buttons`, the button
/// at `pos` has the update's template, style, icon and action, and every
/// other position keeps its button.
pub proof fn law_update_stores_its_fields(
    buttons: Map<(u32, u32), ButtonView>,
    pos: (u32, u32),
    u: DeckButtonUpdate,
)
    ensures
        buttons.insert(pos, button_of_update(u)).contains_key(pos),
        buttons.insert(pos, button_of_update(u))[pos].template == u.template@,
        buttons.insert(pos, button_of_update(u))[pos].style == u.style,
        buttons.insert(pos, button_of_update(u))[pos].icon == match u.icon {
            Some(s) => Some(s@),
            None => None::<Seq<char>>,
        },
        buttons.insert(pos, button_of_update(u))[pos].on_click_action == match u.on_click_action {
            Some(a) => Some(a@),
            None => None::<ActionView>,
        },
        forall|q: (u32, u32)|
            q != pos ==> #[trigger] buttons.insert(pos, button_of_update(u)).contains_key(q)
                == buttons.contains_key(q) && buttons.insert(pos, button_of_update(u))[q]
                == buttons[q],
{
}

} // verus!
