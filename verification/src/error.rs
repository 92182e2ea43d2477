//! Errors of plugin loading, actions, variables and the icon store.

use vstd::prelude::*;

use crate::text::{
    concat, concat3, concat5, owned, parse_i32, parse_i32_spec, split_once, split_once_spec,
    starts_with, substring_from, views,
};

verus! {

/// The error `str::from_utf8` reports.
#[verifier::external_type_specification]
#[verifier::external_body]
pub struct ExUtf8Error(std::str::Utf8Error);

/// An input/output error of the standard library.
#[verifier::external_type_specification]
#[verifier::external_body]
pub struct ExIoError(std::io::Error);

/// An error of the dynamic library loader.
#[verifier::external_type_specification]
#[verifier::external_body]
pub struct ExLibError(libloading::Error);

/// Why a string could not be read from a plugin pointer.
#[derive(Debug, Clone, Copy)]
pub enum PtrToStrError {
    NullPtrError,
    Utf8Error(std::str::Utf8Error),
}

/// Why a plugin could not be loaded.
#[derive(Debug)]
pub enum PluginLoadError {
    /// Error loading (not a .dll/.so)
    NotALibrary(libloading::Error),
    /// Error getting function
    SymbolError(libloading::Error),
    /// Plugin build function returned a null pointer
    BuildError,
    /// Initialization error
    InitError(String),
    /// Other libloading errors
    GenericLibError(libloading::Error),
    /// Failed to read string
    ReadError(PtrToStrError),
    /// Error with id/name...
    FormatError(String),
}

/// What a loading error is, its messages taken as character sequences.
pub enum LoadErrorView {
    NotALibrary(libloading::Error),
    SymbolError(libloading::Error),
    BuildError,
    InitError(Seq<char>),
    GenericLibError(libloading::Error),
    ReadError(PtrToStrError),
    FormatError(Seq<char>),
}

impl View for PluginLoadError {
    type V = LoadErrorView;

    open spec fn view(&self) -> LoadErrorView {
        match self {
            PluginLoadError::NotALibrary(e) => LoadErrorView::NotALibrary(*e),
            PluginLoadError::SymbolError(e) => LoadErrorView::SymbolError(*e),
            PluginLoadError::BuildError => LoadErrorView::BuildError,
            PluginLoadError::InitError(m) => LoadErrorView::InitError(m@),
            PluginLoadError::GenericLibError(e) => LoadErrorView::GenericLibError(*e),
            PluginLoadError::ReadError(e) => LoadErrorView::ReadError(*e),
            PluginLoadError::FormatError(m) => LoadErrorView::FormatError(m@),
        }
    }
}

/// The plugin has not been initialized.
#[derive(Debug, Clone)]
pub struct InitError();

/// A plugin call took longer than it was allowed to.
#[derive(Debug)]
pub struct TimeoutError();

/// Why an action could not be run.
#[derive(Debug)]
pub enum ActionError {
    InvalidFormat(String),
    PluginNotFound(String),
    ActionNotFound { action: String, plugin: String },
    InvalidArgs(String),
    PluginError(String),
    InitError(InitError),
    TimeoutError(TimeoutError),
}

/// What an action error is, its texts taken as character sequences.
pub enum ActionErrorView {
    InvalidFormat(Seq<char>),
    PluginNotFound(Seq<char>),
    ActionNotFound { action: Seq<char>, plugin: Seq<char> },
    InvalidArgs(Seq<char>),
    PluginError(Seq<char>),
    InitError,
    TimeoutError,
}

impl View for ActionError {
    type V = ActionErrorView;

    open spec fn view(&self) -> ActionErrorView {
        match self {
            ActionError::InvalidFormat(s) => ActionErrorView::InvalidFormat(s@),
            ActionError::PluginNotFound(s) => ActionErrorView::PluginNotFound(s@),
            ActionError::ActionNotFound { action, plugin } => ActionErrorView::ActionNotFound {
                action: action@,
                plugin: plugin@,
            },
            ActionError::InvalidArgs(s) => ActionErrorView::InvalidArgs(s@),
            ActionError::PluginError(s) => ActionErrorView::PluginError(s@),
            ActionError::InitError(_) => ActionErrorView::InitError,
            ActionError::TimeoutError(_) => ActionErrorView::TimeoutError,
        }
    }
}

/// The message of an action error.
pub open spec fn action_error_message(e: ActionErrorView) -> Seq<char> {
    match e {
        ActionErrorView::InvalidFormat(s) => "Wrong action format: '"@ + s + "'"@,
        ActionErrorView::PluginNotFound(s) => "Plugin `"@ + s + "` was not found"@,
        ActionErrorView::ActionNotFound { action, plugin } => "Action `"@ + action
            + "` was not found for plugin `"@ + plugin + "`"@,
        ActionErrorView::InvalidArgs(s) => "Arguments for action `"@ + s
            + "` did not pass validation"@,
        ActionErrorView::PluginError(s) => "Plugin returned an error: "@ + s,
        ActionErrorView::InitError => "Plugin is not initialized"@,
        ActionErrorView::TimeoutError => "Action timed out"@,
    }
}

impl ActionError {
    /// The message of the error, as it is shown to the user.
    pub fn message(&self) -> (r: String)
        ensures
            r@ == action_error_message(self@),
    {
        match self {
            ActionError::InvalidFormat(s) => concat3("Wrong action format: '", s.as_str(), "'"),
            ActionError::PluginNotFound(s) => concat3("Plugin `", s.as_str(), "` was not found"),
            ActionError::ActionNotFound { action, plugin } => concat5(
                "Action `",
                action.as_str(),
                "` was not found for plugin `",
                plugin.as_str(),
                "`",
            ),
            ActionError::InvalidArgs(s) => concat3(
                "Arguments for action `",
                s.as_str(),
                "` did not pass validation",
            ),
            ActionError::PluginError(s) => concat("Plugin returned an error: ", s.as_str()),
            ActionError::InitError(_) => owned("Plugin is not initialized"),
            ActionError::TimeoutError(_) => owned("Action timed out"),
        }
    }
}

/// The text `Display` writes for a UTF-8 error of the standard library;
/// nothing is stated of it: the error value is opaque here.
#[verifier::external_body]
fn utf8_error_text(e: &std::str::Utf8Error) -> String {
    format!("{e}")
}

/// The text `Display` writes for a `libloading` error; nothing is stated of
/// it: the error value is opaque here.
#[verifier::external_body]
fn lib_error_text(e: &libloading::Error) -> String {
    format!("{e}")
}

impl PtrToStrError {
    /// The message of the error: `Error reading pointer: ` and what went
    /// wrong.
    pub fn message(&self) -> (r: String)
        ensures
            *self matches PtrToStrError::NullPtrError ==> r@
                == "Error reading pointer: Pointer is Null"@,
            *self matches PtrToStrError::Utf8Error(_) ==> "Error reading pointer: "@.len() <= r@.len()
                && r@.subrange(0, "Error reading pointer: "@.len() as int)
                == "Error reading pointer: "@,
    {
        match self {
            PtrToStrError::NullPtrError => owned("Error reading pointer: Pointer is Null"),
            PtrToStrError::Utf8Error(e) => {
                let t = utf8_error_text(e);
                let r = concat("Error reading pointer: ", t.as_str());
                assert(r@.subrange(0, "Error reading pointer: "@.len() as int) =~= "Error reading pointer: "@);
                r
            },
        }
    }
}

impl PluginLoadError {
    /// The message of the error, as it is reported when a plugin does not
    /// load. For a generic library error and an unreadable string only the
    /// beginning is stated: the rest is the outside error's own text.
    pub fn message(&self) -> (r: String)
        ensures
            *self matches PluginLoadError::NotALibrary(_) ==> r@ == "Not a library"@,
            *self matches PluginLoadError::SymbolError(_) ==> r@
                == "Plugin missing exported `build` function"@,
            *self matches PluginLoadError::BuildError ==> r@
                == "Plugin build function returned a null pointer"@,
            *self matches PluginLoadError::FormatError(m) ==> r@ == "Plugin format error: "@ + m@,
            *self matches PluginLoadError::InitError(m) ==> r@ == "Initialization error: "@ + m@,
            *self matches PluginLoadError::GenericLibError(_) ==> "Error loading library: "@.len()
                <= r@.len() && r@.subrange(0, "Error loading library: "@.len() as int)
                == "Error loading library: "@,
            *self matches PluginLoadError::ReadError(e) ==> "Error reading from plugin: "@.len()
                <= r@.len() && r@.subrange(0, "Error reading from plugin: "@.len() as int)
                == "Error reading from plugin: "@,
            *self matches PluginLoadError::ReadError(PtrToStrError::NullPtrError) ==> r@
                == "Error reading from plugin: "@ + "Error reading pointer: Pointer is Null"@,
    {
        match self {
            PluginLoadError::NotALibrary(_) => owned("Not a library"),
            PluginLoadError::SymbolError(_) => owned("Plugin missing exported `build` function"),
            PluginLoadError::GenericLibError(e) => {
                let t = lib_error_text(e);
                let r = concat("Error loading library: ", t.as_str());
                assert(r@.subrange(0, "Error loading library: "@.len() as int) =~= "Error loading library: "@);
                r
            },
            PluginLoadError::BuildError => owned("Plugin build function returned a null pointer"),
            PluginLoadError::ReadError(e) => {
                let t = e.message();
                let r = concat("Error reading from plugin: ", t.as_str());
                assert(r@.subrange(0, "Error reading from plugin: "@.len() as int)
                    =~= "Error reading from plugin: "@);
                r
            },
            PluginLoadError::FormatError(m) => concat("Plugin format error: ", m.as_str()),
            PluginLoadError::InitError(m) => concat("Initialization error: ", m.as_str()),
        }
    }
}

/// Why a variable could not be read.
#[derive(Debug, Clone)]
pub enum VariableError {
    InvalidFormat(String),
    PluginNotFound(String),
    VariableNotFound { variable: String, plugin: String },
    PluginError(String),
    InitError(InitError),
}

/// Why an icon could not be given.
#[derive(Debug)]
pub enum IconStoreGetError {
    NotFound,
    IoError(std::io::Error),
}

/// A plugin loading error with an optional detail.
#[derive(Debug)]
pub struct PluginLoadingError {
    pub detail: Option<String>,
}

impl PluginLoadingError {
    /// The message of the error: `Plugin loading error`, with `: ` and the
    /// detail when there is one.
    pub fn message(&self) -> (r: String)
        ensures
            match self.detail {
                Some(d) => r@ == "Plugin loading error: "@ + d@,
                None => r@ == "Plugin loading error"@,
            },
    {
        match &self.detail {
            Some(d) => concat("Plugin loading error: ", d.as_str()),
            None => owned("Plugin loading error"),
        }
    }
}

/// What the loader reports of a library error: a first line, then `Not a
/// library` for Windows error 193 on loading, otherwise the error's debug
/// text (the source's, on loading). The error code is taken from the
/// operating system's last error when it has one, else from the debug text
/// of the source, which must hold a code.
pub open spec fn report_lines_spec(
    source: LibErrorSource,
    last_os_error: Option<i32>,
    error_debug: Seq<char>,
) -> Seq<Seq<char>> {
    match source {
        LibErrorSource::LoadLibraryExW(t) => {
            let code = match last_os_error {
                Some(c) => c as int,
                None => win_error_code(t@)->0,
            };
            if code == 193 {
                seq!["Libloading error!"@, "Not a library"@]
            } else {
                seq!["Libloading error!"@, t@]
            }
        },
        _ => seq!["Libloading error!"@, error_debug],
    }
}

/// The lines the loader prints for a library error.
pub fn report_libloading_lines(
    source: &LibErrorSource,
    last_os_error: Option<i32>,
    error_debug: &str,
) -> (r: Vec<String>)
    requires
        source matches LibErrorSource::LoadLibraryExW(t) ==> win_error_code(t@) is Some,
    ensures
        views(r@) == report_lines_spec(*source, last_os_error, error_debug@),
{
    let first = owned("Libloading error!");
    let second = match source {
        LibErrorSource::LoadLibraryExW(t) => {
            let parsed = match win_error_to_err_code(t.as_str()) {
                Ok(c) => c,
                Err(()) => 0,
            };
            let code = match last_os_error {
                Some(c) => c,
                None => parsed,
            };
            if code == 193 {
                owned("Not a library")
            } else {
                t.clone()
            }
        },
        _ => owned(error_debug),
    };
    let r = vec![first, second];
    assert(views(r@) =~= report_lines_spec(*source, last_os_error, error_debug@));
    r
}

/// The text `Os { code: ` that the debug form of an operating system error
/// begins with.
pub open spec fn os_code_prefix() -> Seq<char> {
    seq!['O', 's', ' ', '{', ' ', 'c', 'o', 'd', 'e', ':', ' ']
}

/// The error code in the debug text of a Windows error: the part before the
/// first comma, after `Os { code: `, read as an `i32`.
pub open spec fn win_error_code(err: Seq<char>) -> Option<int> {
    match split_once_spec(err, ',') {
        None => None,
        Some((head, _)) => if os_code_prefix().len() <= head.len() && head.subrange(
            0,
            os_code_prefix().len() as int,
        ) == os_code_prefix() {
            parse_i32_spec(head.subrange(os_code_prefix().len() as int, head.len() as int))
        } else {
            None
        },
    }
}

/// Reads the error code out of the debug text of a Windows error.
pub fn win_error_to_err_code(err: &str) -> (r: Result<i32, ()>)
    ensures
        match r {
            Ok(code) => win_error_code(err@) == Some(code as int),
            Err(()) => win_error_code(err@) is None,
        },
{
    let parts = split_once(err, ',');
    match parts {
        None => Err(()),
        Some((head, _)) => {
            proof {
                reveal_strlit("Os { code: ");
            }
            let prefix = "Os { code: ";
            assert(prefix@ =~= os_code_prefix());
            if !starts_with(head.as_str(), prefix) {
                return Err(());
            }
            let rest = substring_from(head.as_str(), 11);
            match parse_i32(rest.as_str()) {
                Some(code) => Ok(code),
                None => Err(()),
            }
        },
    }
}

/// Which kind of library error a `libloading` error is, with the debug text
/// of its Windows source error where it has one.
pub enum LibErrorSource {
    LoadLibraryExW(String),
    GetProcAddress(String),
    Other,
}

/// Tells the variants of a `libloading::Error` apart; for `LoadLibraryExW`
/// and `GetProcAddress` it gives the debug text of the source error. Nothing
/// is stated of the result: the error value is opaque here.
#[verifier::external_body]
fn lib_error_source(e: &libloading::Error) -> LibErrorSource {
    match e {
        libloading::Error::LoadLibraryExW { source } => LibErrorSource::LoadLibraryExW(
            format!("{source:?}"),
        ),
        libloading::Error::GetProcAddress { source } => LibErrorSource::GetProcAddress(
            format!("{source:?}"),
        ),
        _ => LibErrorSource::Other,
    }
}

/// The loading error that a library error becomes, given which kind it is.
pub open spec fn classify_lib_error_spec(e: libloading::Error, source: LibErrorSource) -> PluginLoadError {
    match source {
        LibErrorSource::LoadLibraryExW(t) => if win_error_code(t@) == Some(193int) {
            PluginLoadError::NotALibrary(e)
        } else {
            PluginLoadError::GenericLibError(e)
        },
        LibErrorSource::GetProcAddress(t) => if win_error_code(t@) == Some(127int) {
            PluginLoadError::SymbolError(e)
        } else {
            PluginLoadError::GenericLibError(e)
        },
        LibErrorSource::Other => PluginLoadError::GenericLibError(e),
    }
}

impl PluginLoadError {
    /// The loading error that a library error becomes, given which kind it
    /// is: Windows error 193 on loading means "not a library", error 127 on
    /// symbol lookup means the `build` symbol is missing, anything else is a
    /// generic library error.
    pub fn classify_lib_error(e: libloading::Error, source: LibErrorSource) -> (r: PluginLoadError)
        ensures
            r == classify_lib_error_spec(e, source),
    {
        match source {
            LibErrorSource::LoadLibraryExW(t) => {
                match win_error_to_err_code(t.as_str()) {
                    Ok(193) => PluginLoadError::NotALibrary(e),
                    _ => PluginLoadError::GenericLibError(e),
                }
            },
            LibErrorSource::GetProcAddress(t) => {
                match win_error_to_err_code(t.as_str()) {
                    Ok(127) => PluginLoadError::SymbolError(e),
                    _ => PluginLoadError::GenericLibError(e),
                }
            },
            LibErrorSource::Other => PluginLoadError::GenericLibError(e),
        }
    }

    /// The loading error that a library error becomes.
    pub fn from_lib_error(e: libloading::Error) -> (r: PluginLoadError)
        ensures
            exists|s: LibErrorSource| r == classify_lib_error_spec(e, s),
    {
        let source = lib_error_source(&e);
        let ghost s = source;
        let r = PluginLoadError::classify_lib_error(e, source);
        assert(r == classify_lib_error_spec(e, s));
        r
    }

    /// The loading error that a read error becomes.
    pub fn from_read_error(e: PtrToStrError) -> (r: PluginLoadError)
        ensures
            r == PluginLoadError::ReadError(e),
    {
        PluginLoadError::ReadError(e)
    }
}

} // verus!
