use rustdeck::bundled::{
    check_required_functions, media_command, obs_enum_variants, obs_port, obs_scene_variants,
    obs_timeout_millis, parse_output_command, parse_switch, sample_counter_after, split_command,
    streaming_state_text, switched, system_action, system_variable, MediaCommand, OutputCommand,
    Switch, SystemAction,
};
use rustdeck::error::{
    report_libloading_lines, LibErrorSource, PluginLoadError, PluginLoadingError, PtrToStrError,
};
use rustdeck::bundled::{obs_action, ObsRequest};
use rustdeck::loading::select_plugin_paths;
use rustdeck::store::{reports_of_updates, UpdateOutcome};

fn s(v: &str) -> String {
    String::from(v)
}

#[test]
fn system_clock_variables() {
    // 1 day, 13 hours, 7 minutes and 5 seconds.
    let t: i64 = 86_400 + 13 * 3600 + 7 * 60 + 5;
    assert_eq!(system_variable("time_hours", t), Some(s("13")));
    assert_eq!(system_variable("time_minutes", t), Some(s("07")));
    assert_eq!(system_variable("time", t), Some(s("13:07")));
    assert_eq!(system_variable("time", 32700), Some(s("09:05")));
    assert_eq!(system_variable("time_hours", 32700), Some(s("09")));
    assert_eq!(system_variable("time", 23 * 3600 + 59 * 60), Some(s("23:59")));
    assert_eq!(system_variable("time", 0), Some(s("00:00")));
    // Before the epoch Rust's division rounds toward zero.
    assert_eq!(system_variable("time", -3661), Some(s("-1:-1")));
    assert_eq!(system_variable("date", t), None);
}

#[test]
fn system_command_lines() {
    assert_eq!(
        split_command("echo a b"),
        Ok((s("echo"), vec![s("a"), s("b")]))
    );
    assert_eq!(split_command("ls "), Ok((s("ls"), vec![s("")])));
    assert_eq!(split_command("reboot"), Err(s("Format error")));
    assert!(matches!(system_action("shutdown", &vec![]), Some(Ok(SystemAction::Shutdown))));
    assert!(matches!(system_action("reboot", &vec![]), Some(Ok(SystemAction::Reboot))));
    match system_action("execute", &vec![s("notify-send hi")]) {
        Some(Ok(SystemAction::Execute(p, a))) => {
            assert_eq!(p, "notify-send");
            assert_eq!(a, vec![s("hi")]);
        }
        _ => panic!("expected a command"),
    }
    assert!(matches!(system_action("execute", &vec![s("x")]), Some(Err(_))));
    assert!(system_action("execute", &vec![]).is_none());
    assert!(system_action("sleep", &vec![]).is_none());
}

#[test]
fn obs_switches_and_outputs() {
    assert_eq!(parse_switch("on", "on", "off"), Some(Switch::To(true)));
    assert_eq!(parse_switch("hide", "show", "hide"), Some(Switch::To(false)));
    assert_eq!(parse_switch("toggle", "show", "hide"), Some(Switch::Toggle));
    assert_eq!(parse_switch("maybe", "show", "hide"), None);
    assert!(switched(Switch::Toggle, false));
    assert!(!switched(Switch::Toggle, true));
    assert!(switched(Switch::To(true), true));
    assert_eq!(parse_output_command("start"), Some(OutputCommand::Start));
    assert_eq!(parse_output_command("stop"), Some(OutputCommand::Stop));
    assert_eq!(parse_output_command("toggle"), Some(OutputCommand::Toggle));
    assert_eq!(parse_output_command("pause"), None);
}

#[test]
fn obs_enum_lists() {
    assert_eq!(obs_enum_variants("set_filter.state"), Some(s("on\noff\ntoggle")));
    assert_eq!(obs_enum_variants("set_recording.state"), Some(s("start\nstop\ntoggle")));
    assert_eq!(obs_enum_variants("set_mute.state"), Some(s("mute\nunmute\ntoggle")));
    assert_eq!(obs_enum_variants("set_source_visibility.state"), Some(s("show\nhide\ntoggle")));
    assert_eq!(obs_enum_variants("set_scene.scene"), None);
    assert_eq!(obs_scene_variants(&vec![s("a"), s("b"), s("c")]), "c\nb\na");
    assert_eq!(obs_scene_variants(&vec![]), "");
    assert_eq!(streaming_state_text(true), "online");
    assert_eq!(streaming_state_text(false), "offline");
}

#[test]
fn obs_config_values() {
    assert_eq!(obs_port(4455), 4455);
    assert_eq!(obs_port(70000), 70000u32 as u16);
    assert_eq!(obs_port(-1), u16::MAX);
    assert_eq!(obs_timeout_millis(2500), Some(2500));
    assert_eq!(obs_timeout_millis(-1), None);
}

#[test]
fn media_and_sample_plugins() {
    assert_eq!(media_command("play_pause"), Some(MediaCommand::PlayPause));
    assert_eq!(media_command("previous"), Some(MediaCommand::Previous));
    assert_eq!(media_command("rewind"), None);
    assert_eq!(sample_counter_after(1, "add", Some(10)), Some(11));
    assert_eq!(sample_counter_after(1, "increment", None), Some(2));
    assert_eq!(sample_counter_after(7, "clear", None), Some(0));
    assert_eq!(sample_counter_after(i32::MAX, "increment", None), None);
    assert_eq!(sample_counter_after(1, "add", None), None);
    assert_eq!(sample_counter_after(1, "jump", None), None);
}

#[test]
fn plugin_kit_requires_handlers_in_order() {
    assert_eq!(check_required_functions(true, true, true, true), Ok(()));
    assert_eq!(check_required_functions(false, false, false, false), Err(s("fn_init is not set")));
    assert_eq!(check_required_functions(true, false, true, true), Err(s("fn_update is not set")));
    assert_eq!(
        check_required_functions(true, true, false, false),
        Err(s("fn_get_variable is not set"))
    );
    assert_eq!(check_required_functions(true, true, true, false), Err(s("fn_run_action is not set")));
}

#[test]
fn only_deckplugin_files_are_loaded() {
    let files = vec![s("plugins/a.deckplugin"), s("plugins/readme.txt"), s("plugins/b.deckplugin")];
    assert_eq!(select_plugin_paths(&files), vec![s("plugins/a.deckplugin"), s("plugins/b.deckplugin")]);
    assert!(select_plugin_paths(&vec![s(".deckplugin.bak")]).is_empty());
}

#[test]
fn loading_error_messages() {
    assert_eq!(PluginLoadError::BuildError.message(), "Plugin build function returned a null pointer");
    assert_eq!(PluginLoadError::FormatError(s("bad")).message(), "Plugin format error: bad");
    assert_eq!(PluginLoadError::InitError(s("no")).message(), "Initialization error: no");
    assert_eq!(
        PluginLoadError::ReadError(PtrToStrError::NullPtrError).message(),
        "Error reading from plugin: Error reading pointer: Pointer is Null"
    );
    assert_eq!(PluginLoadingError { detail: Some(s("x")) }.message(), "Plugin loading error: x");
    assert_eq!(PluginLoadingError { detail: None }.message(), "Plugin loading error");
}

#[test]
fn libloading_reports() {
    let src = LibErrorSource::LoadLibraryExW(s("Os { code: 193, kind: Uncategorized }"));
    assert_eq!(report_libloading_lines(&src, None, "e"), vec![s("Libloading error!"), s("Not a library")]);
    assert_eq!(
        report_libloading_lines(&src, Some(5), "e"),
        vec![s("Libloading error!"), s("Os { code: 193, kind: Uncategorized }")]
    );
    assert_eq!(
        report_libloading_lines(&LibErrorSource::Other, None, "DlOpen"),
        vec![s("Libloading error!"), s("DlOpen")]
    );
}

#[test]
fn read_errors_become_load_errors() {
    assert!(matches!(
        PluginLoadError::from_read_error(PtrToStrError::NullPtrError),
        PluginLoadError::ReadError(PtrToStrError::NullPtrError)
    ));
    assert_eq!(PtrToStrError::NullPtrError.message(), "Error reading pointer: Pointer is Null");
}

#[test]
fn obs_actions_become_requests() {
    let a = |v: &[&str]| v.iter().map(|x| s(x)).collect::<Vec<String>>();
    assert!(matches!(
        obs_action("set_scene", &a(&["Main"]), false),
        Some(Err(m)) if m == "Not initialized"
    ));
    match obs_action("set_filter", &a(&["Cam", "Blur", "toggle"]), true) {
        Some(Ok(ObsRequest::SetFilter { source, filter, state })) => {
            assert_eq!((source.as_str(), filter.as_str()), ("Cam", "Blur"));
            assert_eq!(state, Switch::Toggle);
        }
        _ => panic!("expected a filter request"),
    }
    assert!(matches!(
        obs_action("set_source_visibility", &a(&["S", "Src", "hide"]), true),
        Some(Ok(ObsRequest::SetSourceVisibility { state: Switch::To(false), .. }))
    ));
    assert!(matches!(obs_action("set_scene", &a(&["Main"]), true), Some(Ok(ObsRequest::SetScene(n))) if n == "Main"));
    assert!(matches!(
        obs_action("set_recording", &a(&["start"]), true),
        Some(Ok(ObsRequest::Recording(OutputCommand::Start)))
    ));
    assert!(matches!(
        obs_action("set_virtual_cam", &a(&["stop"]), true),
        Some(Ok(ObsRequest::VirtualCam(OutputCommand::Stop)))
    ));
    assert!(matches!(
        obs_action("set_streaming", &a(&["toggle"]), true),
        Some(Ok(ObsRequest::Streaming(OutputCommand::Toggle)))
    ));
    assert!(matches!(
        obs_action("set_mute", &a(&["Mic", "mute"]), true),
        Some(Ok(ObsRequest::SetMute { muted: true, .. }))
    ));
    assert!(matches!(obs_action("set_mute", &a(&["Mic", "toggle"]), true), Some(Ok(ObsRequest::ToggleMute(i))) if i == "Mic"));
    assert!(obs_action("set_filter", &a(&["Cam", "Blur", "maybe"]), true).is_none());
    assert!(matches!(obs_action("set_profile", &a(&["Streaming"]), true), Some(Ok(ObsRequest::SetProfile(p))) if p == "Streaming"));
    assert!(obs_action("set_profile", &a(&[]), true).is_none());
    assert!(obs_action("set_replay", &a(&["x"]), true).is_none());
    assert!(obs_action("set_scene", &a(&[]), true).is_none());
}

#[test]
fn only_updated_plugins_report() {
    let r = reports_of_updates(vec![
        UpdateOutcome { plugin_id: s("a"), updated: true, values: vec![s("1")] },
        UpdateOutcome { plugin_id: s("b"), updated: false, values: vec![] },
        UpdateOutcome { plugin_id: s("c"), updated: true, values: vec![s("x"), s("y")] },
    ]);
    assert_eq!(r.len(), 2);
    assert_eq!(r[0].plugin_id, "a");
    assert_eq!(r[1].values, vec![s("x"), s("y")]);
}
