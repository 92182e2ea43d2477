use rustdeck::buttons::{
    DeckButtonPos, DeckButtonStyle, DeckButtonStyleTextAlign, DeckButtonUpdate,
    RawDeckButtonAction,
};
use rustdeck::config::{DeckConfig, DeckDimensionConfig, SerializedDeckConfig};
use rustdeck::datatype::PluginDataType;
use rustdeck::deck::{ClickOutcome, Deck, EnumVariants};
use rustdeck::icon_store::IconStore;
use rustdeck::mock::{mock_buttons_screen_1, mock_buttons_screen_2, mock_config};
use rustdeck::plugin::{Action, ActionArg, ParsedArg, Plugin};
use rustdeck::render::VariableRenderer;
use rustdeck::screen::ButtonScreen;
use rustdeck::store::{PluginStore, VariableValues};
use rustdeck::strmap::StringMap;

fn s(v: &str) -> String {
    String::from(v)
}

fn sample_plugin() -> Plugin {
    Plugin {
        name: s("Sample Plugin"),
        description: s("A sample plugin"),
        id: s("plugin_test"),
        actions: vec![
            Action { id: s("increment"), name: s("Increment"), description: s(""), args: vec![] },
            Action {
                id: s("add"),
                name: s("Add"),
                description: s(""),
                args: vec![ActionArg {
                    id: s("amount"),
                    name: s("Amount"),
                    description: s("Amount"),
                    data_type: PluginDataType::Int,
                }],
            },
        ],
        variables: vec![rustdeck::plugin::Variable {
            id: s("counter"),
            description: s("Counter"),
            data_type: PluginDataType::String,
        }],
        config_options: vec![],
    }
}

fn update(template: &str, action: Option<RawDeckButtonAction>) -> DeckButtonUpdate {
    DeckButtonUpdate {
        template: s(template),
        style: DeckButtonStyle { text_align: DeckButtonStyleTextAlign::Top, text_size: 30 },
        icon: None,
        on_click_action: action,
    }
}

fn deck() -> Deck {
    Deck::new(DeckConfig::default(), PluginStore::new(vec![sample_plugin()]), s("icons"))
}

fn screens(d: &Deck) -> Vec<String> {
    d.get_available_screens()
}

#[test]
fn new_deck_shows_default_screen() {
    let d = deck();
    assert_eq!(screens(&d), vec!["default"]);
    let dims = d.get_dimensions_config();
    assert_eq!((dims.cols, dims.rows), (5, 3));
    let shown = d.get_rendered_screen();
    assert_eq!(shown.screen, "default");
    assert!(shown.buttons.is_empty());
}

#[test]
fn update_button_then_read_it_back() {
    let mut d = deck();
    let empty = d.get_raw_button((0, 0));
    assert_eq!(empty.template, "");
    assert_eq!(empty.style.text_size, 24);
    d.update_button((0, 0), update("Hello", None));
    let b = d.get_raw_button((0, 0));
    assert_eq!(b.template, "Hello");
    assert_eq!(b.style.text_size, 30);
    d.update_button((0, 0), update("Again", None));
    assert_eq!(d.get_raw_button((0, 0)).template, "Again");
    assert!(d.delete_button((0, 0)));
    assert!(!d.delete_button((0, 0)));
    assert_eq!(d.get_raw_button((0, 0)).template, "");
}

#[test]
fn swapping_buttons_twice_restores_them() {
    let mut d = deck();
    d.update_button((0, 0), update("A", None));
    d.update_button((0, 1), update("B", None));
    d.swap_buttons((0, 0), (0, 1));
    assert_eq!(d.get_raw_button((0, 0)).template, "B");
    assert_eq!(d.get_raw_button((0, 1)).template, "A");
    d.swap_buttons((0, 0), (0, 1));
    assert_eq!(d.get_raw_button((0, 0)).template, "A");
    assert_eq!(d.get_raw_button((0, 1)).template, "B");
    d.swap_buttons((0, 0), (2, 2));
    assert_eq!(d.get_raw_button((0, 0)).template, "");
    assert_eq!(d.get_raw_button((2, 2)).template, "A");
    d.swap_buttons((0, 0), (2, 2));
    assert_eq!(d.get_raw_button((0, 0)).template, "A");
}

#[test]
fn screens_are_added_renamed_and_deleted_in_order() {
    let mut d = deck();
    assert_eq!(d.new_screen(s("second")), Ok(()));
    assert_eq!(d.new_screen(s("third")), Ok(()));
    assert_eq!(d.new_screen(s("second")), Err(()));
    assert_eq!(screens(&d), vec!["default", "second", "third"]);
    assert_eq!(d.rename_screen("default", s("first")), Ok(()));
    assert_eq!(screens(&d), vec!["first", "second", "third"]);
    assert_eq!(d.get_rendered_screen().screen, "first");
    assert_eq!(d.rename_screen("missing", s("x")), Err(()));
    assert_eq!(d.rename_screen("first", s("third")), Err(()));
    assert_eq!(d.rename_screen("second", s("middle")), Ok(()));
    assert_eq!(screens(&d), vec!["first", "middle", "third"]);
    d.switch_screen(s("third"));
    assert_eq!(d.get_rendered_screen().screen, "third");
    assert_eq!(d.delete_screen("third"), Ok(()));
    assert_eq!(d.get_rendered_screen().screen, "middle");
    assert_eq!(screens(&d), vec!["first", "middle"]);
    assert_eq!(d.delete_screen("third"), Err(()));
    d.switch_screen(s("nowhere"));
    assert_eq!(d.get_rendered_screen().screen, "middle");
}

#[test]
fn new_then_delete_screen_restores_screens() {
    let mut d = deck();
    let before = screens(&d);
    assert_eq!(d.new_screen(s("tmp")), Ok(()));
    assert_eq!(d.delete_screen("tmp"), Ok(()));
    assert_eq!(screens(&d), before);
}

#[test]
fn clicks_switch_screens_and_check_plugin_actions() {
    let mut d = deck();
    d.new_screen(s("other")).unwrap();
    let switch = RawDeckButtonAction { id: s("deck.switch_screen"), args: vec![s("other")] };
    d.update_button((0, 0), update("go", Some(switch)));
    let missing = RawDeckButtonAction { id: s("deck.switch_screen"), args: vec![] };
    d.update_button((0, 1), update("broken", Some(missing)));
    let add = RawDeckButtonAction { id: s("plugin_test.add"), args: vec![s("2")] };
    d.update_button((0, 2), update("add", Some(add)));
    let bad = RawDeckButtonAction { id: s("plugin_test.add"), args: vec![] };
    d.update_button((0, 3), update("bad", Some(bad)));

    assert_eq!(d.handle_click_at((4, 4)).err(), Some(s("Failed to get button at required index")));
    assert_eq!(d.handle_click_at((0, 1)).err(), Some(s("Missing argument")));
    match d.handle_click_at((0, 2)) {
        Ok(ClickOutcome::Run(req)) => {
            assert_eq!(req.plugin_id, "plugin_test");
            assert_eq!(req.action_id, "add");
            assert!(matches!(req.args[0], ParsedArg::Int(2)));
        }
        _ => panic!("expected a plugin action"),
    }
    assert_eq!(
        d.handle_click_at((0, 3)).err(),
        Some(s("Arguments for action `add` did not pass validation"))
    );
    assert!(matches!(d.handle_click_at((0, 0)), Ok(ClickOutcome::Done)));
    assert_eq!(d.get_rendered_screen().screen, "other");
}

#[test]
fn rendering_fills_in_variables() {
    let mut d = deck();
    d.update_button((1, 1), update("Counter: {plugin_test.counter}", None));
    d.update_button((1, 2), update("Plain {text", None));
    d.update_button((1, 3), update("{missing.var} and {nodot}", None));
    d.update_variables(vec![VariableValues { plugin_id: s("plugin_test"), values: vec![s("5")] }]);
    let shown = d.get_rendered_screen();
    let content = |pos: DeckButtonPos| {
        shown.buttons.iter().find(|b| b.position == pos).map(|b| b.content.clone()).unwrap()
    };
    assert_eq!(content(DeckButtonPos { y: 1, x: 1 }), "Counter: 5");
    assert_eq!(content(DeckButtonPos { y: 1, x: 2 }), "Plain {text");
    assert_eq!(content(DeckButtonPos { y: 1, x: 3 }), "Not Found and {nodot}");
    assert_eq!(shown.buttons[0].style.text_size, 30);
}

#[test]
fn renderer_agrees_with_store() {
    let mut st = PluginStore::new(vec![sample_plugin()]);
    st.update_variables(vec![VariableValues { plugin_id: s("plugin_test"), values: vec![s("7")] }]);
    let mut r = VariableRenderer::new(&st);
    assert_eq!(r.get("plugin_test.counter"), st.render_variable("plugin_test.counter"));
    assert_eq!(r.get("plugin_test.counter"), "7");
    assert_eq!(r.get("x.y"), "Not Found");
    let pieces = vec![s("a "), s(" b")];
    let ids = vec![Some(s("plugin_test.counter"))];
    assert_eq!(rustdeck::render::interpolate(&pieces, &ids, &mut r), "a 7 b");
}

#[test]
fn listings_include_deck_actions_first() {
    let d = deck();
    let acts = d.get_all_actions_ungrouped();
    assert_eq!(acts[0].id, "deck.deck.switch_screen");
    assert_eq!(acts[0].args[0].id, "deck.switch_screen.destination");
    assert_eq!(acts[1].id, "plugin_test.increment");
    let groups = d.get_all_actions_grouped();
    assert_eq!(groups[0].id, "deck");
    assert_eq!(groups[0].name, "Deck");
    assert_eq!(groups[0].actions[0].id, "deck.switch_screen");
    assert_eq!(groups[1].id, "plugin_test");
    assert_eq!(d.get_all_variables_ungrouped()[0].id, "plugin_test.counter");
    assert_eq!(d.get_all_plugins().len(), 1);
}

#[test]
fn enum_variants_of_switch_are_screen_names() {
    let mut d = deck();
    d.new_screen(s("b")).unwrap();
    match d.get_enum_arg_variants("deck.switch_screen.destination") {
        Ok(EnumVariants::Listed(v)) => assert_eq!(v, vec!["default", "b"]),
        _ => panic!("expected screen names"),
    }
    match d.get_enum_arg_variants("plugin_test.add.amount") {
        Ok(EnumVariants::Ask(req)) => assert_eq!(req.arg_id, "add.amount"),
        _ => panic!("expected a plugin request"),
    }
}

#[test]
fn config_survives_serialization_and_reload() {
    let mut d = deck();
    d.update_button((0, 0), update("A", None));
    d.new_screen(s("two")).unwrap();
    let cfg = d.get_config();
    let ser = SerializedDeckConfig::from_config(&cfg);
    assert_eq!(ser.screens.len(), 2);
    assert_eq!(ser.screens[0].id, "default");
    assert_eq!(ser.screens[0].buttons[0].template, "A");
    let back = ser.into_config();
    let d2 = Deck::new(back, PluginStore::new(vec![]), s("icons"));
    assert_eq!(screens(&d2), vec!["default", "two"]);
    assert_eq!(d2.get_raw_button((0, 0)).template, "A");
}

#[test]
fn icons_are_found_under_store_path() {
    let mut icons = StringMap::new();
    icons.insert(s("logo"), s("logo.png"));
    let store = IconStore::from_config(s("icons"), icons);
    assert_eq!(store.get_icon_path("logo"), Some(s("icons/logo.png")));
    assert_eq!(store.get_icon_path("none"), None);
    assert_eq!(store.keys(), vec!["logo"]);
    assert_eq!(store.to_config().get("logo"), Some(s("logo.png")));
    assert_eq!(IconStore::encode_icon_b64(&b"hello".to_vec()), "aGVsbG8=");
    assert_eq!(IconStore::encode_icon_b64(&vec![]), "");
    assert_eq!(IconStore::encode_icon_b64(&vec![0, 0, 0]), "AAAA");
}

#[test]
fn mock_screens_hold_sample_buttons() {
    let d = mock_config();
    assert_eq!((d.cols, d.rows), (5, 3));
    let one: ButtonScreen = mock_buttons_screen_1();
    assert_eq!(one.len(), 5);
    assert_eq!(one.get((1, 1)).unwrap().template, "Counter: {plugin_test.counter}");
    assert_eq!(
        one.get((1, 4)).unwrap().on_click_action.as_ref().unwrap().args,
        vec![s("screen_2")]
    );
    let two = mock_buttons_screen_2();
    assert_eq!(two.get((1, 1)).unwrap().on_click_action.as_ref().unwrap().id, "deck.switch_screen");
    let _ = DeckDimensionConfig::default();
}

#[test]
fn adding_icons_leaves_store_as_is() {
    let mut icons = StringMap::new();
    icons.insert(s("a"), s("a.png"));
    let mut store = IconStore::from_config(s("dir"), icons);
    store.add_icon();
    assert_eq!(store.keys(), vec!["a"]);
    assert_eq!(store.get_icon_path("a"), Some(s("dir/a.png")));
}

#[test]
fn renaming_back_restores_screens() {
    let mut d = deck();
    d.new_screen(s("two")).unwrap();
    d.update_button((1, 1), update("kept", None));
    assert_eq!(d.rename_screen("default", s("one")), Ok(()));
    assert_eq!(d.rename_screen("one", s("default")), Ok(()));
    assert_eq!(screens(&d), vec!["default", "two"]);
    assert_eq!(d.get_raw_button((1, 1)).template, "kept");
}

#[test]
fn positions_round_trip() {
    let p = DeckButtonPos::from_yx((3, 7));
    assert_eq!((p.y, p.x), (3, 7));
    assert_eq!(p.as_yx(), (3, 7));
    assert_eq!(DeckButtonPos::from_yx(p.as_yx()), p);
}

#[test]
fn icon_keys_are_distinct() {
    let mut icons = StringMap::new();
    icons.insert(s("a"), s("1.png"));
    icons.insert(s("b"), s("2.png"));
    icons.insert(s("a"), s("3.png"));
    let store = IconStore::from_config(s("dir"), icons);
    assert_eq!(store.keys(), vec!["a", "b"]);
    assert_eq!(store.get_icon_path("a"), Some(s("dir/3.png")));
}
