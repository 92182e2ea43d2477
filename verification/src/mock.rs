//! Sample deck contents for trying the deck out without a configuration.

use vstd::prelude::*;

use crate::buttons::{
    default_style, ActionView, ButtonView, DeckButtonStyle, RawDeckButton, RawDeckButtonAction,
};
use crate::config::DeckDimensionConfig;
use crate::screen::ButtonScreen;
use crate::keyed::has_key;
use crate::text::owned;

verus! {

/// A sample deck of 5 columns and 3 rows.
pub fn mock_config() -> (r: DeckDimensionConfig)
    ensures
        r == (DeckDimensionConfig { cols: 5, rows: 3 }),
{
    DeckDimensionConfig { cols: 5, rows: 3 }
}

/// The view of a sample button.
pub open spec fn sample_button(
    template: Seq<char>,
    icon: Option<Seq<char>>,
    action: Option<ActionView>,
) -> ButtonView {
    ButtonView { template, style: default_style(), icon, on_click_action: action }
}

/// The view of an action without arguments.
pub open spec fn plain_action(id: Seq<char>) -> ActionView {
    ActionView { id, args: Seq::empty() }
}

fn button(template: String, icon: Option<String>, action: Option<RawDeckButtonAction>) -> (r:
    RawDeckButton)
    ensures
        r@ == sample_button(
            template@,
            crate::buttons::opt_view(icon),
            crate::buttons::opt_action_view(action),
        ),
{
    RawDeckButton { template, style: DeckButtonStyle::default(), icon, on_click_action: action }
}

fn action(id: &str, args: Vec<String>) -> (r: RawDeckButtonAction)
    ensures
        r@ == (ActionView { id: id@, args: crate::text::views(args@) }),
{
    RawDeckButtonAction { id: owned(id), args }
}

fn plain(id: &str) -> (r: RawDeckButtonAction)
    ensures
        r@ == plain_action(id@),
{
    let r = action(id, Vec::new());
    assert(r@.args =~= Seq::<Seq<char>>::empty());
    r
}

fn switch_to(screen: &str) -> (r: RawDeckButtonAction)
    ensures
        r@ == (ActionView { id: "deck.switch_screen"@, args: seq![screen@] }),
{
    let args = vec![owned(screen)];
    let r = action("deck.switch_screen", args);
    assert(r@.args =~= seq![screen@]);
    r
}

/// A sample first screen: a counter of the sample plugin and a button that
/// clears it, an icon, a button that switches to `screen_2`, and the state of
/// the media plugin.
pub fn mock_buttons_screen_1() -> (r: ButtonScreen)
    ensures
        r.entries() == seq![
            (
                (1u32, 1u32),
                sample_button(
                    "Counter: {plugin_test.counter}"@,
                    None,
                    Some(plain_action("plugin_test.increment"@)),
                ),
            ),
            (
                (1u32, 2u32),
                sample_button("Clear counter"@, None, Some(plain_action("plugin_test.clear"@))),
            ),
            ((1u32, 3u32), sample_button(Seq::empty(), Some("test_icon"@), None)),
            (
                (1u32, 4u32),
                sample_button(
                    "Switch to screen 2"@,
                    None,
                    Some(ActionView { id: "deck.switch_screen"@, args: seq!["screen_2"@] }),
                ),
            ),
            (
                (2u32, 3u32),
                sample_button(
                    "State: {rustdeck_media.state}\\nTitle: '{rustdeck_media.title}'\\nArtist: '{rustdeck_media.artist}'"@,
                    None,
                    Some(plain_action("rustdeck_media.play_pause"@)),
                ),
            ),
        ],
{
    let mut s = ButtonScreen::new();
    let ghost e0 = s.entries();
    s.insert(
        (1, 1),
        button(owned("Counter: {plugin_test.counter}"), None, Some(plain("plugin_test.increment"))),
    );
    let ghost e1 = s.entries();
    assert(e1.len() == 1 && e1[0].0 == (1u32, 1u32));
    s.insert((1, 2), button(owned("Clear counter"), None, Some(plain("plugin_test.clear"))));
    let ghost e2 = s.entries();
    assert(!has_key(e1, (1u32, 2u32)));
    assert(e2.len() == 2 && e2[1].0 == (1u32, 2u32));
    s.insert((1, 3), button(String::new(), Some(owned("test_icon")), None));
    let ghost e3 = s.entries();
    assert(!has_key(e2, (1u32, 3u32)));
    s.insert((1, 4), button(owned("Switch to screen 2"), None, Some(switch_to("screen_2"))));
    let ghost e4 = s.entries();
    assert(!has_key(e3, (1u32, 4u32)));
    s.insert(
        (2, 3),
        button(
            owned(
                "State: {rustdeck_media.state}\\nTitle: '{rustdeck_media.title}'\\nArtist: '{rustdeck_media.artist}'",
            ),
            None,
            Some(plain("rustdeck_media.play_pause")),
        ),
    );
    assert(!has_key(e4, (2u32, 3u32)));
    assert(s.entries() =~= seq![
        (
            (1u32, 1u32),
            sample_button(
                "Counter: {plugin_test.counter}"@,
                None,
                Some(plain_action("plugin_test.increment"@)),
            ),
        ),
        (
            (1u32, 2u32),
            sample_button("Clear counter"@, None, Some(plain_action("plugin_test.clear"@))),
        ),
        ((1u32, 3u32), sample_button(Seq::empty(), Some("test_icon"@), None)),
        (
            (1u32, 4u32),
            sample_button(
                "Switch to screen 2"@,
                None,
                Some(ActionView { id: "deck.switch_screen"@, args: seq!["screen_2"@] }),
            ),
        ),
        (
            (2u32, 3u32),
            sample_button(
                "State: {rustdeck_media.state}\\nTitle: '{rustdeck_media.title}'\\nArtist: '{rustdeck_media.artist}'"@,
                None,
                Some(plain_action("rustdeck_media.play_pause"@)),
            ),
        ),
    ]);
    s
}

/// A sample second screen: one button that switches back to `default`.
pub fn mock_buttons_screen_2() -> (r: ButtonScreen)
    ensures
        r.entries() == seq![
            (
                (1u32, 1u32),
                sample_button(
                    "Switch to screen 1"@,
                    None,
                    Some(ActionView { id: "deck.switch_screen"@, args: seq!["default"@] }),
                ),
            ),
        ],
{
    let mut s = ButtonScreen::new();
    let ghost e0 = s.entries();
    assert(!has_key(e0, (1u32, 1u32)));
    s.insert((1, 1), button(owned("Switch to screen 1"), None, Some(switch_to("default"))));
    assert(s.entries() =~= seq![
        (
            (1u32, 1u32),
            sample_button(
                "Switch to screen 1"@,
                None,
                Some(ActionView { id: "deck.switch_screen"@, args: seq!["default"@] }),
            ),
        ),
    ]);
    s
}

} // verus!
