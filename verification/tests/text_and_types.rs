use rustdeck::datatype::{PluginDataType, Type};
use rustdeck::error::{win_error_to_err_code, ActionError, InitError, PluginLoadError, TimeoutError};
use rustdeck::text::{
    concat3, contains_char, ends_with, i32_to_decimal, parse_bool, parse_i32, split_on, split_once,
    starts_with, str_eq, substring_from, to_ascii_lower,
};

#[test]
fn parse_i32_reads_signed_decimals() {
    assert_eq!(parse_i32("42"), Some(42));
    assert_eq!(parse_i32("-17"), Some(-17));
    assert_eq!(parse_i32("+8"), Some(8));
    assert_eq!(parse_i32("2147483647"), Some(i32::MAX));
    assert_eq!(parse_i32("-2147483648"), Some(i32::MIN));
    assert_eq!(parse_i32("2147483648"), None);
    assert_eq!(parse_i32(""), None);
    assert_eq!(parse_i32("-"), None);
    assert_eq!(parse_i32("1a"), None);
    assert_eq!(parse_i32(" 1"), None);
}

#[test]
fn decimal_text_reads_back() {
    for v in [0, 7, -7, 10, 123456, -98765, i32::MAX, i32::MIN] {
        let text = i32_to_decimal(v);
        assert_eq!(text, v.to_string());
        assert_eq!(parse_i32(&text), Some(v));
    }
}

#[test]
fn parse_bool_takes_only_true_and_false() {
    assert_eq!(parse_bool("true"), Some(true));
    assert_eq!(parse_bool("false"), Some(false));
    assert_eq!(parse_bool("True"), None);
    assert_eq!(parse_bool("1"), None);
}

#[test]
fn split_once_splits_at_first_separator() {
    assert_eq!(split_once("a.b.c", '.'), Some((String::from("a"), String::from("b.c"))));
    assert_eq!(split_once(".x", '.'), Some((String::new(), String::from("x"))));
    assert_eq!(split_once("abc", '.'), None);
}

#[test]
fn split_on_keeps_empty_pieces() {
    assert_eq!(split_on("on\noff\ntoggle", '\n'), vec!["on", "off", "toggle"]);
    assert_eq!(split_on("", '\n'), vec![""]);
    assert_eq!(split_on("a\n\nb\n", '\n'), vec!["a", "", "b", ""]);
}

#[test]
fn string_helpers_behave_like_std() {
    assert!(str_eq("abc", "abc"));
    assert!(!str_eq("abc", "abd"));
    assert!(starts_with("deck.switch", "deck."));
    assert!(!starts_with("dec", "deck."));
    assert!(ends_with("a.deckplugin", ".deckplugin"));
    assert!(contains_char("x{y", '{'));
    assert!(!contains_char("xy", '{'));
    assert_eq!(concat3("a", "/", "b"), "a/b");
    assert_eq!(to_ascii_lower("StRing"), "string");
    assert_eq!(substring_from("Os { code: 5", 11), "5");
}

#[test]
fn windows_error_code_is_read_from_debug_text() {
    assert_eq!(win_error_to_err_code("Os { code: 193, kind: Uncategorized }"), Ok(193));
    assert_eq!(win_error_to_err_code("Os { code: 127, kind: Other }"), Ok(127));
    assert_eq!(win_error_to_err_code("Os { code: x, kind: Other }"), Err(()));
    assert_eq!(win_error_to_err_code("Custom { kind: Other, error: 1 }"), Err(()));
    assert_eq!(win_error_to_err_code("no comma"), Err(()));
}

#[test]
fn type_numbers_round_trip() {
    for t in [Type::Bool, Type::Int, Type::Float, Type::String, Type::Enum] {
        assert_eq!(Type::try_from_i32(t.to_i32()), Ok(t));
    }
    assert_eq!(Type::Enum.to_i32(), 4);
    assert_eq!(Type::try_from_i32(4), Ok(Type::Enum));
    assert_eq!(Type::try_from_str("BOOL"), Ok(Type::Bool));
    assert_eq!(Type::try_from_str("Enum"), Ok(Type::Enum));
    assert_eq!(Type::try_from_str("string"), Ok(Type::String));
}

#[test]
fn plugin_data_type_numbers_and_names() {
    assert_eq!(PluginDataType::try_from_i32(0).unwrap(), PluginDataType::Bool);
    assert_eq!(PluginDataType::try_from_i32(4).unwrap(), PluginDataType::Enum);
    match PluginDataType::try_from_i32(7) {
        Err(PluginLoadError::FormatError(m)) => assert_eq!(m, "No plugin data type with index '7'"),
        _ => panic!("expected a format error"),
    }
    match PluginDataType::try_from_i32(-3) {
        Err(PluginLoadError::FormatError(m)) => assert_eq!(m, "No plugin data type with index '-3'"),
        _ => panic!("expected a format error"),
    }
    assert_eq!(PluginDataType::Float.display_string(), "float");
    assert_eq!(PluginDataType::Enum.display_string(), "enum");
}

#[test]
fn action_error_messages() {
    assert_eq!(
        ActionError::InvalidFormat(String::from("noformat")).message(),
        "Wrong action format: 'noformat'"
    );
    assert_eq!(
        ActionError::PluginNotFound(String::from("p")).message(),
        "Plugin `p` was not found"
    );
    assert_eq!(
        ActionError::ActionNotFound { action: String::from("a"), plugin: String::from("p") }
            .message(),
        "Action `a` was not found for plugin `p`"
    );
    assert_eq!(
        ActionError::InvalidArgs(String::from("add")).message(),
        "Arguments for action `add` did not pass validation"
    );
    assert_eq!(
        ActionError::PluginError(String::from("boom")).message(),
        "Plugin returned an error: boom"
    );
    assert_eq!(ActionError::InitError(InitError()).message(), "Plugin is not initialized");
    assert_eq!(ActionError::TimeoutError(TimeoutError()).message(), "Action timed out");
}
