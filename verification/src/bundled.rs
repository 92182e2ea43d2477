//! The decisions of the plugins that come with the deck (system, OBS, media
//! and the sample counter), apart from the calls they make to the system or
//! to OBS.

use vstd::prelude::*;

use crate::text::{
    concat, concat3, decimal_text, i32_to_decimal, is_split_of, join_on, join_with, owned, split_on,
    split_once, split_once_spec, str_eq, views,
};

verus! {

/// Rust's `/` on integers: the quotient rounded toward zero.
pub open spec fn div_toward_zero(a: int, b: int) -> int {
    if a >= 0 {
        a / b
    } else {
        -((-a) / b)
    }
}

/// Rust's `%` on integers: the remainder that goes with `div_toward_zero`.
pub open spec fn rem_toward_zero(a: int, b: int) -> int {
    a - b * div_toward_zero(a, b)
}

/// The hour of the day of a local time stamp (seconds): `(t / 3600) % 24`.
pub open spec fn clock_hours(t: int) -> int {
    rem_toward_zero(div_toward_zero(t, 3600), 24)
}

/// The minute of the hour of a local time stamp: `(t / 60) % 60`.
pub open spec fn clock_minutes(t: int) -> int {
    rem_toward_zero(div_toward_zero(t, 60), 60)
}

/// A number written with at least two characters, a `0` in front of a
/// single digit (`{:02}`).
pub open spec fn two_digits(v: int) -> Seq<char> {
    if 0 <= v < 10 {
        seq!['0'] + decimal_text(v)
    } else {
        decimal_text(v)
    }
}

/// The clock text of a local time stamp: `hh:mm`, the hours and the
/// minutes each with at least two digits.
pub open spec fn clock_text(t: int) -> Seq<char> {
    two_digits(clock_hours(t)) + seq![':'] + two_digits(clock_minutes(t))
}

/// A variable of the system plugin at a local time stamp.
pub open spec fn system_variable_spec(id: Seq<char>, t: int) -> Option<Seq<char>> {
    if id == "time_hours"@ {
        Some(two_digits(clock_hours(t)))
    } else if id == "time_minutes"@ {
        Some(two_digits(clock_minutes(t)))
    } else if id == "time"@ {
        Some(clock_text(t))
    } else {
        None
    }
}

/// A number written with at least two digits (`{:02}`).
fn two_digit_text(v: i32) -> (r: String)
    ensures
        r@ == two_digits(v as int),
{
    if 0 <= v && v < 10 {
        proof {
            reveal_strlit("0");
        }
        let r = concat("0", i32_to_decimal(v).as_str());
        assert(r@ =~= two_digits(v as int));
        r
    } else {
        i32_to_decimal(v)
    }
}

fn hours_of(t: i64) -> (r: i32)
    ensures
        r == clock_hours(t as int),
{
    let h = (t / 3600) % 24;
    h as i32
}

fn minutes_of(t: i64) -> (r: i32)
    ensures
        r == clock_minutes(t as int),
{
    let m = (t / 60) % 60;
    m as i32
}

/// The value of a variable of the system plugin at the local time stamp
/// `t` (seconds): `time_hours` (`hh`), `time_minutes` (`mm`) or `time`
/// (`hh:mm`), each number with at least two digits. Any other id is no
/// variable of the plugin and gives `None`.
pub fn system_variable(id: &str, t: i64) -> (r: Option<String>)
    ensures
        match system_variable_spec(id@, t as int) {
            Some(v) => r is Some && r->Some_0@ == v,
            None => r is None,
        },
{
    proof {
        reveal_strlit("time_hours");
        reveal_strlit("time_minutes");
        reveal_strlit("time");
        assert("time_hours"@.len() != "time_minutes"@.len());
        assert("time_hours"@.len() != "time"@.len());
        assert("time_minutes"@.len() != "time"@.len());
    }
    if str_eq(id, "time_hours") {
        Some(two_digit_text(hours_of(t)))
    } else if str_eq(id, "time_minutes") {
        Some(two_digit_text(minutes_of(t)))
    } else if str_eq(id, "time") {
        let hh = two_digit_text(hours_of(t));
        let mm = two_digit_text(minutes_of(t));
        proof {
            reveal_strlit(":");
        }
        let r = concat3(hh.as_str(), ":", mm.as_str());
        assert(r@ =~= clock_text(t as int));
        Some(r)
    } else {
        None
    }
}

/// What the system plugin is asked to do.
pub enum SystemAction {
    Shutdown,
    Reboot,
    /// A program and its arguments.
    Execute(String, Vec<String>),
}

/// The program and arguments of a command line: the text before the first
/// space, and the rest split at each space.
pub open spec fn command_parts(line: Seq<char>) -> Option<(Seq<char>, Seq<char>)> {
    split_once_spec(line, ' ')
}

/// Reads a command line of the `execute` action: the program before the
/// first space and the arguments after it, split at each space; a line
/// without a space is the error `Format error`.
pub fn split_command(line: &str) -> (r: Result<(String, Vec<String>), String>)
    ensures
        match command_parts(line@) {
            None => r is Err && r->Err_0@ == "Format error"@,
            Some((program, rest)) => r is Ok && r->Ok_0.0@ == program && is_split_of(
                views(r->Ok_0.1@),
                rest,
                ' ',
            ),
        },
{
    match split_once(line, ' ') {
        None => Err(owned("Format error")),
        Some((program, rest)) => Ok((program, split_on(rest.as_str(), ' '))),
    }
}

/// The action of the system plugin with id `id`: `shutdown`, `reboot`, or
/// `execute` with the command line as its one argument. Any other id, or
/// `execute` without an argument, is no action of the plugin and gives
/// `None`.
pub fn system_action(id: &str, args: &Vec<String>) -> (r: Option<Result<SystemAction, String>>)
    ensures
        id@ == "shutdown"@ ==> r matches Some(Ok(SystemAction::Shutdown)),
        id@ == "reboot"@ ==> r matches Some(Ok(SystemAction::Reboot)),
        id@ == "execute"@ && args@.len() > 0 ==> match command_parts(args@[0]@) {
            None => r matches Some(Err(m)) && m@ == "Format error"@,
            Some((program, rest)) => r matches Some(Ok(SystemAction::Execute(p, a))) && p@ == program
                && is_split_of(views(a@), rest, ' '),
        },
        !(id@ == "shutdown"@ || id@ == "reboot"@ || (id@ == "execute"@ && args@.len() > 0)) ==> r
            is None,
{
    proof {
        reveal_strlit("shutdown");
        reveal_strlit("reboot");
        reveal_strlit("execute");
        assert("shutdown"@.len() != "reboot"@.len());
        assert("shutdown"@.len() != "execute"@.len());
        assert("reboot"@.len() != "execute"@.len());
    }
    if str_eq(id, "shutdown") {
        Some(Ok(SystemAction::Shutdown))
    } else if str_eq(id, "reboot") {
        Some(Ok(SystemAction::Reboot))
    } else if str_eq(id, "execute") && args.len() > 0 {
        match split_command(args[0].as_str()) {
            Ok((program, rest)) => Some(Ok(SystemAction::Execute(program, rest))),
            Err(m) => Some(Err(m)),
        }
    } else {
        None
    }
}

/// A two-way setting as an action argument gives it: one state, the other,
/// or the opposite of the current one.
#[derive(Clone, Copy, Debug, PartialEq, Eq, Structural)]
pub enum Switch {
    To(bool),
    Toggle,
}

/// The two-way setting a text gives: `on_word` is on, `off_word` is off,
/// `toggle` flips it.
pub open spec fn switch_of(text: Seq<char>, on_word: Seq<char>, off_word: Seq<char>) -> Option<
    Switch,
> {
    if text == on_word {
        Some(Switch::To(true))
    } else if text == off_word {
        Some(Switch::To(false))
    } else if text == "toggle"@ {
        Some(Switch::Toggle)
    } else {
        None
    }
}

/// Reads a two-way setting: `on_word` is on, `off_word` is off, `toggle`
/// flips it; any other text is no setting and gives `None`.
pub fn parse_switch(text: &str, on_word: &str, off_word: &str) -> (r: Option<Switch>)
    ensures
        r == switch_of(text@, on_word@, off_word@),
        text@ == on_word@ ==> r == Some(Switch::To(true)),
        text@ != on_word@ && text@ == off_word@ ==> r == Some(Switch::To(false)),
        text@ != on_word@ && text@ != off_word@ && text@ == "toggle"@ ==> r == Some(Switch::Toggle),
        text@ != on_word@ && text@ != off_word@ && text@ != "toggle"@ ==> r is None,
{
    if str_eq(text, on_word) {
        Some(Switch::To(true))
    } else if str_eq(text, off_word) {
        Some(Switch::To(false))
    } else if str_eq(text, "toggle") {
        Some(Switch::Toggle)
    } else {
        None
    }
}

/// The state a setting ends in: the state set, or the opposite of the
/// current one.
pub fn switched(s: Switch, current: bool) -> (r: bool)
    ensures
        r == match s {
            Switch::To(b) => b,
            Switch::Toggle => !current,
        },
{
    match s {
        Switch::To(b) => b,
        Switch::Toggle => !current,
    }
}

/// What an output of OBS (streaming, recording, virtual camera) is asked to
/// do.
#[derive(Clone, Copy, Debug, PartialEq, Eq, Structural)]
pub enum OutputCommand {
    Toggle,
    Start,
    Stop,
}

/// The output command a text gives: `toggle`, `start` or `stop`.
pub open spec fn output_of(text: Seq<char>) -> Option<OutputCommand> {
    if text == "toggle"@ {
        Some(OutputCommand::Toggle)
    } else if text == "start"@ {
        Some(OutputCommand::Start)
    } else if text == "stop"@ {
        Some(OutputCommand::Stop)
    } else {
        None
    }
}

/// Reads an output command: `toggle`, `start` or `stop`; any other text is
/// no command and gives `None`.
pub fn parse_output_command(text: &str) -> (r: Option<OutputCommand>)
    ensures
        r == output_of(text@),
        text@ == "toggle"@ ==> r == Some(OutputCommand::Toggle),
        text@ == "start"@ ==> r == Some(OutputCommand::Start),
        text@ == "stop"@ ==> r == Some(OutputCommand::Stop),
        !(text@ == "toggle"@ || text@ == "start"@ || text@ == "stop"@) ==> r is None,
{
    proof {
        reveal_strlit("toggle");
        reveal_strlit("start");
        reveal_strlit("stop");
        assert("toggle"@.len() != "start"@.len());
        assert("toggle"@.len() != "stop"@.len());
        assert("start"@.len() != "stop"@.len());
    }
    if str_eq(text, "toggle") {
        Some(OutputCommand::Toggle)
    } else if str_eq(text, "start") {
        Some(OutputCommand::Start)
    } else if str_eq(text, "stop") {
        Some(OutputCommand::Stop)
    } else {
        None
    }
}

/// What the OBS plugin asks OBS to do for an action.
pub enum ObsRequest {
    /// Turn a filter of a source on, off, or to the opposite of its state.
    SetFilter { source: String, filter: String, state: Switch },
    /// Show or hide a source of a scene, or flip its visibility.
    SetSourceVisibility { scene: String, source: String, state: Switch },
    /// Make a scene the program scene.
    SetScene(String),
    /// Make a profile the active profile.
    SetProfile(String),
    Streaming(OutputCommand),
    Recording(OutputCommand),
    VirtualCam(OutputCommand),
    /// Flip whether an input is muted.
    ToggleMute(String),
    /// Mute or unmute an input.
    SetMute { input: String, muted: bool },
}

/// What an OBS request is.
pub enum ObsRequestView {
    SetFilter { source: Seq<char>, filter: Seq<char>, state: Switch },
    SetSourceVisibility { scene: Seq<char>, source: Seq<char>, state: Switch },
    SetScene(Seq<char>),
    SetProfile(Seq<char>),
    Streaming(OutputCommand),
    Recording(OutputCommand),
    VirtualCam(OutputCommand),
    ToggleMute(Seq<char>),
    SetMute { input: Seq<char>, muted: bool },
}

impl View for ObsRequest {
    type V = ObsRequestView;

    open spec fn view(&self) -> ObsRequestView {
        match self {
            ObsRequest::SetFilter { source, filter, state } => ObsRequestView::SetFilter {
                source: source@,
                filter: filter@,
                state: *state,
            },
            ObsRequest::SetSourceVisibility { scene, source, state } =>
                ObsRequestView::SetSourceVisibility { scene: scene@, source: source@, state: *state },
            ObsRequest::SetScene(s) => ObsRequestView::SetScene(s@),
            ObsRequest::SetProfile(s) => ObsRequestView::SetProfile(s@),
            ObsRequest::Streaming(c) => ObsRequestView::Streaming(*c),
            ObsRequest::Recording(c) => ObsRequestView::Recording(*c),
            ObsRequest::VirtualCam(c) => ObsRequestView::VirtualCam(*c),
            ObsRequest::ToggleMute(s) => ObsRequestView::ToggleMute(s@),
            ObsRequest::SetMute { input, muted } => ObsRequestView::SetMute {
                input: input@,
                muted: *muted,
            },
        }
    }
}

/// The request of an OBS plugin action with the arguments `args`: without
/// a connection to OBS the error `Not initialized`; otherwise the request
/// its id and argument words ask for. An unknown id, an unknown word or a
/// missing argument asks for nothing and gives `None`.
pub open spec fn obs_action_spec(id: Seq<char>, args: Seq<Seq<char>>, connected: bool) -> Option<
    Result<ObsRequestView, Seq<char>>,
> {
    if !connected {
        Some(Err("Not initialized"@))
    } else if id == "set_filter"@ {
        if args.len() >= 3 {
            match switch_of(args[2], "on"@, "off"@) {
                Some(st) => Some(
                    Ok(ObsRequestView::SetFilter { source: args[0], filter: args[1], state: st }),
                ),
                None => None,
            }
        } else {
            None
        }
    } else if id == "set_source_visibility"@ {
        if args.len() >= 3 {
            match switch_of(args[2], "show"@, "hide"@) {
                Some(st) => Some(
                    Ok(
                        ObsRequestView::SetSourceVisibility {
                            scene: args[0],
                            source: args[1],
                            state: st,
                        },
                    ),
                ),
                None => None,
            }
        } else {
            None
        }
    } else if id == "set_scene"@ {
        if args.len() >= 1 {
            Some(Ok(ObsRequestView::SetScene(args[0])))
        } else {
            None
        }
    } else if id == "set_profile"@ {
        if args.len() >= 1 {
            Some(Ok(ObsRequestView::SetProfile(args[0])))
        } else {
            None
        }
    } else if id == "set_streaming"@ || id == "set_recording"@ || id == "set_virtual_cam"@ {
        if args.len() >= 1 {
            match output_of(args[0]) {
                Some(c) => Some(
                    Ok(
                        if id == "set_streaming"@ {
                            ObsRequestView::Streaming(c)
                        } else if id == "set_recording"@ {
                            ObsRequestView::Recording(c)
                        } else {
                            ObsRequestView::VirtualCam(c)
                        },
                    ),
                ),
                None => None,
            }
        } else {
            None
        }
    } else if id == "set_mute"@ {
        if args.len() >= 2 {
            match switch_of(args[1], "mute"@, "unmute"@) {
                Some(Switch::Toggle) => Some(Ok(ObsRequestView::ToggleMute(args[0]))),
                Some(Switch::To(m)) => Some(Ok(ObsRequestView::SetMute { input: args[0], muted: m })),
                None => None,
            }
        } else {
            None
        }
    } else {
        None
    }
}

/// The request of an OBS plugin action (see `obs_action_spec`); `connected`
/// tells whether the plugin has a connection to OBS. A toggle is handed on
/// as such: the current state is read from OBS where the request is carried
/// out, and `switched` gives the new one.
pub fn obs_action(id: &str, args: &Vec<String>, connected: bool) -> (r: Option<
    Result<ObsRequest, String>,
>)
    ensures
        match obs_action_spec(id@, views(args@), connected) {
            None => r is None,
            Some(Err(m)) => r matches Some(Err(x)) && x@ == m,
            Some(Ok(v)) => r matches Some(Ok(q)) && q@ == v,
        },
{
    proof {
        reveal_strlit("set_filter");
        reveal_strlit("set_source_visibility");
        reveal_strlit("set_scene");
        reveal_strlit("set_profile");
        reveal_strlit("set_streaming");
        reveal_strlit("set_recording");
        reveal_strlit("set_virtual_cam");
        reveal_strlit("set_mute");
        assert("set_filter"@.len() != "set_source_visibility"@.len());
        assert("set_filter"@.len() != "set_scene"@.len());
        assert("set_filter"@.len() != "set_profile"@.len());
        assert("set_filter"@.len() != "set_streaming"@.len());
        assert("set_filter"@.len() != "set_recording"@.len());
        assert("set_filter"@.len() != "set_virtual_cam"@.len());
        assert("set_filter"@.len() != "set_mute"@.len());
        assert("set_source_visibility"@.len() != "set_scene"@.len());
        assert("set_source_visibility"@.len() != "set_profile"@.len());
        assert("set_source_visibility"@.len() != "set_streaming"@.len());
        assert("set_source_visibility"@.len() != "set_recording"@.len());
        assert("set_source_visibility"@.len() != "set_virtual_cam"@.len());
        assert("set_source_visibility"@.len() != "set_mute"@.len());
        assert("set_scene"@.len() != "set_profile"@.len());
        assert("set_scene"@.len() != "set_streaming"@.len());
        assert("set_scene"@.len() != "set_recording"@.len());
        assert("set_scene"@.len() != "set_virtual_cam"@.len());
        assert("set_scene"@.len() != "set_mute"@.len());
        assert("set_profile"@.len() != "set_streaming"@.len());
        assert("set_profile"@.len() != "set_recording"@.len());
        assert("set_profile"@.len() != "set_virtual_cam"@.len());
        assert("set_profile"@.len() != "set_mute"@.len());
        assert("set_streaming"@[4] != "set_recording"@[4]);
        assert("set_streaming"@.len() != "set_virtual_cam"@.len());
        assert("set_streaming"@.len() != "set_mute"@.len());
        assert("set_recording"@.len() != "set_virtual_cam"@.len());
        assert("set_recording"@.len() != "set_mute"@.len());
        assert("set_virtual_cam"@.len() != "set_mute"@.len());
    }
    if !connected {
        return Some(Err(owned("Not initialized")));
    }
    if str_eq(id, "set_filter") {
        if args.len() < 3 {
            return None;
        }
        match parse_switch(args[2].as_str(), "on", "off") {
            Some(st) => Some(
                Ok(ObsRequest::SetFilter { source: args[0].clone(), filter: args[1].clone(), state: st }),
            ),
            None => None,
        }
    } else if str_eq(id, "set_source_visibility") {
        if args.len() < 3 {
            return None;
        }
        match parse_switch(args[2].as_str(), "show", "hide") {
            Some(st) => Some(
                Ok(
                    ObsRequest::SetSourceVisibility {
                        scene: args[0].clone(),
                        source: args[1].clone(),
                        state: st,
                    },
                ),
            ),
            None => None,
        }
    } else if str_eq(id, "set_scene") {
        if args.len() < 1 {
            return None;
        }
        Some(Ok(ObsRequest::SetScene(args[0].clone())))
    } else if str_eq(id, "set_profile") {
        if args.len() < 1 {
            return None;
        }
        Some(Ok(ObsRequest::SetProfile(args[0].clone())))
    } else if str_eq(id, "set_streaming") || str_eq(id, "set_recording") || str_eq(
        id,
        "set_virtual_cam",
    ) {
        if args.len() < 1 {
            return None;
        }
        match parse_output_command(args[0].as_str()) {
            Some(c) => Some(
                Ok(
                    if str_eq(id, "set_streaming") {
                        ObsRequest::Streaming(c)
                    } else if str_eq(id, "set_recording") {
                        ObsRequest::Recording(c)
                    } else {
                        ObsRequest::VirtualCam(c)
                    },
                ),
            ),
            None => None,
        }
    } else if str_eq(id, "set_mute") {
        if args.len() < 2 {
            return None;
        }
        match parse_switch(args[1].as_str(), "mute", "unmute") {
            Some(Switch::Toggle) => Some(Ok(ObsRequest::ToggleMute(args[0].clone()))),
            Some(Switch::To(m)) => Some(Ok(ObsRequest::SetMute { input: args[0].clone(), muted: m })),
            None => None,
        }
    } else {
        None
    }
}

/// The OBS requests take their arguments in the order the actions declare
/// them: `set_filter` takes the source, the filter and the state word;
/// `set_source_visibility` the scene, the source and the state word;
/// `set_scene` and `set_profile` the name; the three output actions the
/// command word; `set_mute` the input and the state word. Each request comes
/// only from its own action, and with a connection, the declared number of
/// arguments and a known state word, the request is made.
pub proof fn law_obs_arguments_in_declared_order(
    id: Seq<char>,
    args: Seq<Seq<char>>,
    connected: bool,
)
    ensures
        match obs_action_spec(id, args, connected) {
            Some(Ok(ObsRequestView::SetFilter { source, filter, state })) => id == "set_filter"@
                && args.len() >= 3 && source == args[0] && filter == args[1] && Some(state)
                == switch_of(args[2], "on"@, "off"@),
            Some(Ok(ObsRequestView::SetSourceVisibility { scene, source, state })) => id
                == "set_source_visibility"@ && args.len() >= 3 && scene == args[0] && source
                == args[1] && Some(state) == switch_of(args[2], "show"@, "hide"@),
            Some(Ok(ObsRequestView::SetScene(s))) => id == "set_scene"@ && args.len() >= 1 && s
                == args[0],
            Some(Ok(ObsRequestView::SetProfile(s))) => id == "set_profile"@ && args.len() >= 1 && s
                == args[0],
            Some(Ok(ObsRequestView::Streaming(c))) => args.len() >= 1 && Some(c) == output_of(
                args[0],
            ),
            Some(Ok(ObsRequestView::Recording(c))) => args.len() >= 1 && Some(c) == output_of(
                args[0],
            ),
            Some(Ok(ObsRequestView::VirtualCam(c))) => args.len() >= 1 && Some(c) == output_of(
                args[0],
            ),
            Some(Ok(ObsRequestView::ToggleMute(s))) => id == "set_mute"@ && args.len() >= 2 && s
                == args[0] && switch_of(args[1], "mute"@, "unmute"@) == Some(Switch::Toggle),
            Some(Ok(ObsRequestView::SetMute { input, muted })) => id == "set_mute"@ && args.len()
                >= 2 && input == args[0] && switch_of(args[1], "mute"@, "unmute"@) == Some(
                Switch::To(muted),
            ),
            Some(Err(_)) => !connected,
            None => connected,
        },
        connected && id == "set_source_visibility"@ && args.len() >= 3 && switch_of(
            args[2],
            "show"@,
            "hide"@,
        ) is Some ==> obs_action_spec(id, args, connected) is Some,
        connected && id == "set_filter"@ && args.len() >= 3 && switch_of(args[2], "on"@, "off"@) is Some
            ==> obs_action_spec(id, args, connected) is Some,
{
    reveal_strlit("set_filter");
    reveal_strlit("set_source_visibility");
    assert("set_filter"@.len() != "set_source_visibility"@.len());
}

/// The variants of an enum argument of the OBS plugin that do not depend on
/// OBS; `None` for the arguments whose variants OBS is asked for.
pub open spec fn obs_fixed_variants(id: Seq<char>) -> Option<Seq<char>> {
    if id == "set_filter.state"@ {
        Some("on\noff\ntoggle"@)
    } else if id == "set_streaming.state"@ || id == "set_recording.state"@ || id
        == "set_virtual_cam.state"@ {
        Some("start\nstop\ntoggle"@)
    } else if id == "set_mute.state"@ {
        Some("mute\nunmute\ntoggle"@)
    } else if id == "set_source_visibility.state"@ {
        Some("show\nhide\ntoggle"@)
    } else {
        None
    }
}

/// The variants of an enum argument of the OBS plugin that do not depend on
/// OBS, one per line.
pub fn obs_enum_variants(id: &str) -> (r: Option<String>)
    ensures
        match obs_fixed_variants(id@) {
            Some(v) => r is Some && r->Some_0@ == v,
            None => r is None,
        },
{
    proof {
        reveal_strlit("set_filter.state");
        reveal_strlit("set_streaming.state");
        reveal_strlit("set_recording.state");
        reveal_strlit("set_virtual_cam.state");
        reveal_strlit("set_mute.state");
        reveal_strlit("set_source_visibility.state");
        assert("set_filter.state"@.len() != "set_streaming.state"@.len());
        assert("set_filter.state"@.len() != "set_recording.state"@.len());
        assert("set_filter.state"@.len() != "set_virtual_cam.state"@.len());
        assert("set_filter.state"@.len() != "set_mute.state"@.len());
        assert("set_filter.state"@.len() != "set_source_visibility.state"@.len());
        assert("set_streaming.state"@[4] != "set_recording.state"@[4]);
        assert("set_streaming.state"@.len() != "set_virtual_cam.state"@.len());
        assert("set_streaming.state"@.len() != "set_mute.state"@.len());
        assert("set_streaming.state"@.len() != "set_source_visibility.state"@.len());
        assert("set_recording.state"@.len() != "set_virtual_cam.state"@.len());
        assert("set_recording.state"@.len() != "set_mute.state"@.len());
        assert("set_recording.state"@.len() != "set_source_visibility.state"@.len());
        assert("set_virtual_cam.state"@.len() != "set_mute.state"@.len());
        assert("set_virtual_cam.state"@.len() != "set_source_visibility.state"@.len());
        assert("set_mute.state"@.len() != "set_source_visibility.state"@.len());
    }
    if str_eq(id, "set_filter.state") {
        Some(owned("on\noff\ntoggle"))
    } else if str_eq(id, "set_streaming.state") || str_eq(id, "set_recording.state") || str_eq(
        id,
        "set_virtual_cam.state",
    ) {
        Some(owned("start\nstop\ntoggle"))
    } else if str_eq(id, "set_mute.state") {
        Some(owned("mute\nunmute\ntoggle"))
    } else if str_eq(id, "set_source_visibility.state") {
        Some(owned("show\nhide\ntoggle"))
    } else {
        None
    }
}

/// The scene names as OBS lists them, last first (OBS lists its scenes from
/// the bottom up), one per line.
pub fn obs_scene_variants(names: &Vec<String>) -> (r: String)
    ensures
        r@ == join_with(views(names@).reverse(), '\n'),
{
    let mut rev: Vec<String> = Vec::new();
    let mut i: usize = names.len();
    while i > 0
        invariant
            i <= names@.len(),
            views(rev@) == views(names@).subrange(i as int, names@.len() as int).reverse(),
        decreases i,
    {
        i = i - 1;
        let ghost before = views(rev@);
        rev.push(names[i].clone());
        assert(views(names@).subrange(i as int, names@.len() as int).reverse() =~= views(names@).subrange(
            i + 1,
            names@.len() as int,
        ).reverse().push(views(names@)[i as int]));
        assert(views(rev@) =~= before.push(names@[i as int]@));
    }
    assert(views(names@).subrange(0, names@.len() as int) =~= views(names@));
    join_on(&rev, '\n')
}

/// The streaming state text of the OBS plugin: `online` or `offline`.
pub fn streaming_state_text(active: bool) -> (r: String)
    ensures
        r@ == if active {
            "online"@
        } else {
            "offline"@
        },
{
    if active {
        owned("online")
    } else {
        owned("offline")
    }
}

/// The port the OBS plugin keeps for a configured integer: the integer cut
/// to 16 bits, as `as u16` does.
pub fn obs_port(value: i32) -> (r: u16)
    ensures
        r == value as u16,
{
    value as u16
}

/// The connect timeout, in milliseconds, the OBS plugin keeps for a
/// configured integer; a negative one is no timeout and gives `None`.
pub fn obs_timeout_millis(value: i32) -> (r: Option<u64>)
    ensures
        value >= 0 ==> r == Some(value as u64),
        value < 0 ==> r is None,
{
    if value >= 0 {
        Some(value as u64)
    } else {
        None
    }
}

/// What the media plugin is asked to do.
#[derive(Clone, Copy, Debug, PartialEq, Eq, Structural)]
pub enum MediaCommand {
    PlayPause,
    Play,
    Pause,
    Stop,
    Next,
    Previous,
}

/// The command of a media plugin action; any other id is no action of the
/// plugin and gives `None`.
pub fn media_command(id: &str) -> (r: Option<MediaCommand>)
    ensures
        id@ == "play_pause"@ ==> r == Some(MediaCommand::PlayPause),
        id@ == "play"@ ==> r == Some(MediaCommand::Play),
        id@ == "pause"@ ==> r == Some(MediaCommand::Pause),
        id@ == "stop"@ ==> r == Some(MediaCommand::Stop),
        id@ == "next"@ ==> r == Some(MediaCommand::Next),
        id@ == "previous"@ ==> r == Some(MediaCommand::Previous),
        !(id@ == "play_pause"@ || id@ == "play"@ || id@ == "pause"@ || id@ == "stop"@ || id@
            == "next"@ || id@ == "previous"@) ==> r is None,
{
    proof {
        reveal_strlit("play_pause");
        reveal_strlit("play");
        reveal_strlit("pause");
        reveal_strlit("stop");
        reveal_strlit("next");
        reveal_strlit("previous");
        assert("play_pause"@.len() != "play"@.len());
        assert("play_pause"@.len() != "pause"@.len());
        assert("play_pause"@.len() != "stop"@.len());
        assert("play_pause"@.len() != "next"@.len());
        assert("play_pause"@.len() != "previous"@.len());
        assert("play"@.len() != "pause"@.len());
        assert("play"@[0] != "stop"@[0]);
        assert("play"@[0] != "next"@[0]);
        assert("play"@.len() != "previous"@.len());
        assert("pause"@.len() != "stop"@.len());
        assert("pause"@.len() != "next"@.len());
        assert("pause"@.len() != "previous"@.len());
        assert("stop"@[0] != "next"@[0]);
        assert("stop"@.len() != "previous"@.len());
        assert("next"@.len() != "previous"@.len());
    }
    if str_eq(id, "play_pause") {
        Some(MediaCommand::PlayPause)
    } else if str_eq(id, "play") {
        Some(MediaCommand::Play)
    } else if str_eq(id, "pause") {
        Some(MediaCommand::Pause)
    } else if str_eq(id, "stop") {
        Some(MediaCommand::Stop)
    } else if str_eq(id, "next") {
        Some(MediaCommand::Next)
    } else if str_eq(id, "previous") {
        Some(MediaCommand::Previous)
    } else {
        None
    }
}

/// The counter of the sample plugin after an action: `add` adds the
/// amount, `increment` adds one, `clear` sets it to zero. An unknown action,
/// `add` without an amount, or a counter that would overflow gives
/// `None`.
pub fn sample_counter_after(counter: i32, id: &str, amount: Option<i32>) -> (r: Option<i32>)
    ensures
        id@ == "add"@ ==> match amount {
            Some(a) => if i32::MIN <= counter + a <= i32::MAX {
                r == Some((counter + a) as i32)
            } else {
                r is None
            },
            None => r is None,
        },
        id@ == "increment"@ ==> if counter < i32::MAX {
            r == Some((counter + 1) as i32)
        } else {
            r is None
        },
        id@ == "clear"@ ==> r == Some(0i32),
        !(id@ == "add"@ || id@ == "increment"@ || id@ == "clear"@) ==> r is None,
{
    proof {
        reveal_strlit("add");
        reveal_strlit("increment");
        reveal_strlit("clear");
        assert("add"@.len() != "increment"@.len());
        assert("add"@.len() != "clear"@.len());
        assert("increment"@.len() != "clear"@.len());
    }
    if str_eq(id, "add") {
        match amount {
            Some(a) => counter.checked_add(a),
            None => None,
        }
    } else if str_eq(id, "increment") {
        counter.checked_add(1)
    } else if str_eq(id, "clear") {
        Some(0)
    } else {
        None
    }
}

/// The first function a plugin kit build misses, as the build names it:
/// `fn_init`, `fn_update`, `fn_get_variable` and `fn_run_action` are
/// required, in that order.
pub fn check_required_functions(
    has_init: bool,
    has_update: bool,
    has_get_variable: bool,
    has_run_action: bool,
) -> (r: Result<(), String>)
    ensures
        !has_init ==> r is Err && r->Err_0@ == "fn_init is not set"@,
        has_init && !has_update ==> r is Err && r->Err_0@ == "fn_update is not set"@,
        has_init && has_update && !has_get_variable ==> r is Err && r->Err_0@
            == "fn_get_variable is not set"@,
        has_init && has_update && has_get_variable && !has_run_action ==> r is Err && r->Err_0@
            == "fn_run_action is not set"@,
        has_init && has_update && has_get_variable && has_run_action ==> r is Ok,
{
    if !has_init {
        Err(owned("fn_init is not set"))
    } else if !has_update {
        Err(owned("fn_update is not set"))
    } else if !has_get_variable {
        Err(owned("fn_get_variable is not set"))
    } else if !has_run_action {
        Err(owned("fn_run_action is not set"))
    } else {
        Ok(())
    }
}

} // verus!
