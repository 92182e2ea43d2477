use rustdeck::buttons::RawDeckButtonAction;
use rustdeck::datatype::PluginDataType;
use rustdeck::error::{ActionError, PluginLoadError, PtrToStrError};
use rustdeck::plugin::{
    Action, ActionArg, ArgParseError, ConfigOption, ParsedArg, Plugin, RawAction, RawDecl,
    RawPlugin, RawVariable, Variable,
};
use rustdeck::bundled::sample_counter_after;
use rustdeck::store::{PluginStore, VariableValues};
use rustdeck::text::i32_to_decimal;

fn s(v: &str) -> String {
    String::from(v)
}

fn arg(id: &str, t: PluginDataType) -> ActionArg {
    ActionArg { id: s(id), name: s(id), description: String::new(), data_type: t }
}

fn counter_plugin() -> Plugin {
    Plugin {
        name: s("Test Plugin"),
        description: s("Test Plugin"),
        id: s("test_plugin"),
        actions: vec![
            Action { id: s("increment"), name: s("Increment"), description: s("Increment"), args: vec![] },
            Action {
                id: s("add"),
                name: s("Add"),
                description: s("Add"),
                args: vec![arg("amount", PluginDataType::Int)],
            },
            Action {
                id: s("print"),
                name: s("Print"),
                description: s("Print"),
                args: vec![arg("string", PluginDataType::String)],
            },
        ],
        variables: vec![Variable {
            id: s("counter"),
            description: s("Counter"),
            data_type: PluginDataType::Int,
        }],
        config_options: vec![],
    }
}

fn obs_like_plugin() -> Plugin {
    Plugin {
        name: s("Rustdeck OBS"),
        description: s("OBS"),
        id: s("rustdeck_obs"),
        actions: vec![Action {
            id: s("set_scene"),
            name: s("Set scene"),
            description: s("Sets scene (program)"),
            args: vec![arg("scene", PluginDataType::Enum)],
        }],
        variables: vec![],
        config_options: vec![ConfigOption {
            id: s("host"),
            name: s("Host"),
            description: s("The host of the OBS websocket"),
            data_type: PluginDataType::String,
        }],
    }
}

fn raw_decl(id: &str, t: i32) -> RawDecl {
    RawDecl { id: Ok(s(id)), name: Ok(s(id)), desc: Ok(String::new()), type_index: t }
}

fn raw_plugin(id: &str) -> RawPlugin {
    RawPlugin {
        id: Ok(s(id)),
        name: Ok(s("Name")),
        desc: Ok(s("Desc")),
        variables: vec![RawVariable { id: Ok(s("counter")), desc: Ok(s("Counter")), type_index: 1 }],
        actions: vec![RawAction {
            id: Ok(s("add")),
            name: Ok(s("Add")),
            desc: Ok(s("Add")),
            args: vec![raw_decl("amount", 1)],
        }],
        config_options: vec![raw_decl("host", 3)],
    }
}

#[test]
fn raw_plugin_is_checked() {
    let p = Plugin::try_from_raw(&raw_plugin("sample")).ok().unwrap();
    assert_eq!(p.id, "sample");
    assert_eq!(p.variables.len(), 1);
    assert_eq!(p.variables[0].data_type, PluginDataType::Int);
    assert_eq!(p.actions[0].args[0].id, "amount");
    assert_eq!(p.config_options[0].data_type, PluginDataType::String);
}

#[test]
fn reserved_plugin_id_is_refused() {
    match Plugin::try_from_raw(&raw_plugin("deck")) {
        Err(PluginLoadError::FormatError(m)) => {
            assert_eq!(m, "Plugin id can not be 'deck', as it is reserved")
        }
        _ => panic!("expected a format error"),
    }
}

#[test]
fn unreadable_or_mistyped_declarations_are_refused() {
    let mut raw = raw_plugin("sample");
    raw.name = Err(PtrToStrError::NullPtrError);
    assert!(matches!(
        Plugin::try_from_raw(&raw),
        Err(PluginLoadError::ReadError(PtrToStrError::NullPtrError))
    ));
    let mut raw = raw_plugin("sample");
    raw.variables[0].type_index = 9;
    match Plugin::try_from_raw(&raw) {
        Err(PluginLoadError::FormatError(m)) => assert_eq!(m, "No plugin data type with index '9'"),
        _ => panic!("expected a format error"),
    }
}

#[test]
fn arguments_are_checked_against_declarations() {
    let proto = vec![
        arg("b", PluginDataType::Bool),
        arg("i", PluginDataType::Int),
        arg("f", PluginDataType::Float),
        arg("s", PluginDataType::String),
    ];
    let ok = Plugin::parse_args(&proto, &vec![s("true"), s("-5"), s("1.5"), s("hi")]).unwrap();
    assert!(matches!(ok[0], ParsedArg::Bool(true)));
    assert!(matches!(ok[1], ParsedArg::Int(-5)));
    assert!(matches!(&ok[2], ParsedArg::Float(t) if t == "1.5"));
    assert!(matches!(&ok[3], ParsedArg::Text(t) if t == "hi"));
    assert_eq!(
        Plugin::parse_args(&proto, &vec![s("true")]).err(),
        Some(ArgParseError::LengthMismatch)
    );
    assert_eq!(
        Plugin::parse_args(&proto, &vec![s("yes"), s("1"), s("1"), s("x")]).err(),
        Some(ArgParseError::InvalidBool)
    );
    assert_eq!(
        Plugin::parse_args(&proto, &vec![s("false"), s("one"), s("1"), s("x")]).err(),
        Some(ArgParseError::InvalidInt)
    );
    assert_eq!(
        Plugin::parse_args(&proto, &vec![s("false"), s("1"), s("1"), s("a\0b")]).err(),
        Some(ArgParseError::InteriorNul)
    );
}

#[test]
fn plugin_replies_are_read() {
    assert!(Plugin::reply_status(0, &Ok(s("ignored"))).is_ok());
    assert_eq!(Plugin::reply_status(1, &Ok(s("failed"))), Err(s("failed")));
    assert_eq!(
        Plugin::reply_status(1, &Err(PtrToStrError::NullPtrError)),
        Err(s("<no error description>"))
    );
    assert_eq!(Plugin::reply_value(0, &Ok(s("11"))), Ok(s("11")));
    assert_eq!(Plugin::reply_init_error(&Err(PtrToStrError::NullPtrError)), "");
    assert_eq!(
        Plugin::reply_enum_variants(0, &Ok(s("start\nstop\ntoggle"))),
        Ok(vec![s("start"), s("stop"), s("toggle")])
    );
    match Plugin::reply_action(2, &Ok(s("bad"))) {
        Err(ActionError::PluginError(m)) => assert_eq!(m, "bad"),
        _ => panic!("expected a plugin error"),
    }
}

fn store() -> PluginStore {
    PluginStore::new(vec![counter_plugin(), obs_like_plugin()])
}

fn click(id: &str, args: &[&str]) -> RawDeckButtonAction {
    RawDeckButtonAction { id: s(id), args: args.iter().map(|a| s(a)).collect() }
}

#[test]
fn actions_are_checked_before_they_run() {
    let st = store();
    let req = st.try_run_action(&click("test_plugin.add", &["10"])).ok().unwrap();
    assert_eq!(req.plugin_id, "test_plugin");
    assert_eq!(req.action_id, "add");
    assert!(matches!(req.args[0], ParsedArg::Int(10)));

    let err = |id: &str, args: &[&str]| st.try_run_action(&click(id, args)).err().unwrap().message();
    assert_eq!(err("noformat", &[]), "Wrong action format: 'noformat'");
    assert_eq!(err(".increment", &[]), "Wrong action format: '.increment'");
    assert_eq!(err("test_plugin.", &[]), "Wrong action format: 'test_plugin.'");
    assert_eq!(err("other.increment", &[]), "Plugin `other` was not found");
    assert_eq!(
        err("test_plugin.missing", &[]),
        "Action `missing` was not found for plugin `test_plugin`"
    );
    assert_eq!(
        err("test_plugin.add", &["ten"]),
        "Arguments for action `add` did not pass validation"
    );
}

#[test]
fn variables_resolve_from_last_report() {
    let mut st = store();
    assert_eq!(st.try_resolve_variable("test_plugin.counter"), Err(s("Not Found")));
    st.update_variables(vec![
        VariableValues { plugin_id: s("test_plugin"), values: vec![s("3")] },
        VariableValues { plugin_id: s("unknown"), values: vec![s("9")] },
    ]);
    assert_eq!(st.try_resolve_variable("test_plugin.counter"), Ok(s("3")));
    assert_eq!(st.render_variable("unknown.x"), "Not Found");
    st.update_variables(vec![VariableValues { plugin_id: s("test_plugin"), values: vec![s("4")] }]);
    assert_eq!(st.render_variable("test_plugin.counter"), "4");
}

#[test]
fn later_plugin_with_same_id_replaces_earlier() {
    let mut second = counter_plugin();
    second.name = s("Replacement");
    let st = PluginStore::new(vec![counter_plugin(), obs_like_plugin(), second]);
    let all = st.get_all_plugins();
    assert_eq!(all.len(), 2);
    assert_eq!(all[0].id, "test_plugin");
    assert_eq!(all[0].name, "Replacement");
    assert_eq!(all[1].id, "rustdeck_obs");
}

#[test]
fn listings_prefix_ids_and_group_by_plugin() {
    let st = store();
    let vars = st.get_all_variables_ungrouped();
    assert_eq!(vars.len(), 1);
    assert_eq!(vars[0].id, "test_plugin.counter");
    let var_groups = st.get_all_variables_grouped();
    assert_eq!(var_groups.len(), 1);
    assert_eq!(var_groups[0].id, "test_plugin");

    let acts = st.get_all_actions_ungrouped();
    let ids: Vec<&str> = acts.iter().map(|a| a.id.as_str()).collect();
    assert_eq!(
        ids,
        vec!["test_plugin.increment", "test_plugin.add", "test_plugin.print", "rustdeck_obs.set_scene"]
    );
    assert_eq!(acts[1].args[0].id, "test_plugin.add.amount");
    let groups = st.get_all_actions_grouped();
    assert_eq!(groups.len(), 2);
    let flattened: Vec<String> =
        groups.iter().flat_map(|g| g.actions.iter().map(|a| a.id.clone())).collect();
    assert_eq!(flattened, ids);

    let opts = st.get_all_config_options_ungrouped();
    assert_eq!(opts.len(), 1);
    assert_eq!(opts[0].id, "host");
    let opt_groups = st.get_all_config_options_grouped();
    assert_eq!(opt_groups.len(), 1);
    assert_eq!(opt_groups[0].id, "rustdeck_obs");
}

#[test]
fn enum_args_and_config_requests() {
    let st = store();
    let req = st.get_enum_arg_variants("rustdeck_obs.set_scene.scene").ok().unwrap();
    assert_eq!(req.plugin_id, "rustdeck_obs");
    assert_eq!(req.arg_id, "set_scene.scene");
    assert_eq!(
        st.get_enum_arg_variants("nodot").err(),
        Some(s("Invalid arg id format: nodot"))
    );
    assert_eq!(st.get_enum_arg_variants("other.a.b").err(), Some(s("Failed to find plugin")));

    let c = st.set_config("rustdeck_obs.host", "10.0.0.2").ok().unwrap();
    assert_eq!((c.plugin_id.as_str(), c.option_id.as_str(), c.value.as_str()), ("rustdeck_obs", "host", "10.0.0.2"));
    assert_eq!(st.set_config("host", "x").err(), Some(s("Wrong config format")));
    assert_eq!(st.set_config("other.host", "x").err(), Some(s("Cannot find plugin: `other`")));
    assert_eq!(
        st.set_config("rustdeck_obs.port", "x").err(),
        Some(s("Plugin `rustdeck_obs` does not have config option `port`"))
    );
}

#[test]
fn test_plugin() {
    let raw = RawPlugin {
        id: Ok(s("test_plugin")),
        name: Ok(s("Test Plugin")),
        desc: Ok(s("Test Plugin")),
        variables: vec![RawVariable { id: Ok(s("counter")), desc: Ok(s("Counter")), type_index: 1 }],
        actions: vec![
            RawAction {
                id: Ok(s("increment")),
                name: Ok(s("Increment")),
                desc: Ok(s("Increment")),
                args: vec![],
            },
            RawAction {
                id: Ok(s("add")),
                name: Ok(s("Add")),
                desc: Ok(s("Add")),
                args: vec![RawDecl {
                    id: Ok(s("amount")),
                    name: Ok(s("Amount")),
                    desc: Ok(s("Amount")),
                    type_index: 1,
                }],
            },
            RawAction {
                id: Ok(s("print")),
                name: Ok(s("Print")),
                desc: Ok(s("Print")),
                args: vec![RawDecl {
                    id: Ok(s("string")),
                    name: Ok(s("String")),
                    desc: Ok(s("String")),
                    type_index: 3,
                }],
            },
        ],
        config_options: vec![],
    };
    let plugin = Plugin::try_from_raw(&raw);
    assert!(plugin.is_ok());
    let plugin = plugin.ok().unwrap();

    let mut counter = 0;
    assert_eq!(i32_to_decimal(counter), "0");

    let args = plugin.prepare_action("increment", &vec![]);
    assert!(args.is_ok());
    counter = sample_counter_after(counter, "increment", None).unwrap();
    assert_eq!(i32_to_decimal(counter), "1");

    let args = plugin.prepare_action("add", &vec![s("10")]).ok().unwrap();
    let amount = match args[0] {
        ParsedArg::Int(a) => a,
        _ => panic!("expected an integer argument"),
    };
    counter = sample_counter_after(counter, "add", Some(amount)).unwrap();
    assert_eq!(i32_to_decimal(counter), "11");

    let args = plugin.prepare_action("print", &vec![s("Hello!")]).ok().unwrap();
    assert!(matches!(&args[0], ParsedArg::Text(t) if t == "Hello!"));
}
