use vstd::prelude::*;
use super::ErrorFormat;

verus! {

/// Why a plugin failed. Each holds the plugin's name and the error; those
/// with four strings then hold the exception; the last is the possible fix.
#[derive(Debug, Clone, PartialEq)]
pub enum PluginErrorReason {
    PluginFailure(String, String, String, String),
    PluginReturnedInvalidExitCodeFailure(String, String, String),
    CouldNotRunPlugin(String, String, String, String),
    CouldNotDecodePluginOutputToUtf8(String, String, String, String),
    CouldNotDecodePluginStdErrToUtf8(String, String, String, String),
    CouldNotDecodePluginResultToJson(String, String, String, String),
}

/// The error shown for a plugin: it names the plugin.
pub open spec fn plugin_error_reason_text(plugin_name: Seq<char>, error: Seq<char>) -> Seq<char> {
    "Plugin '"@ + plugin_name + "' returned the following error: "@ + error
}

/// How a plugin error is shown.
pub open spec fn plugin_error_format(e: PluginErrorReason) -> (Seq<char>, Option<Seq<char>>, Option<Seq<char>>) {
    match e {
        PluginErrorReason::PluginFailure(n, error, exception, fix) => (plugin_error_reason_text(n@, error@), Some(exception@), Some(fix@)),
        PluginErrorReason::PluginReturnedInvalidExitCodeFailure(n, error, fix) => (plugin_error_reason_text(n@, error@), None, Some(fix@)),
        PluginErrorReason::CouldNotRunPlugin(n, error, exception, fix) => (plugin_error_reason_text(n@, error@), Some(exception@), Some(fix@)),
        PluginErrorReason::CouldNotDecodePluginOutputToUtf8(n, error, exception, fix) => (plugin_error_reason_text(n@, error@), Some(exception@), Some(fix@)),
        PluginErrorReason::CouldNotDecodePluginStdErrToUtf8(n, error, exception, fix) => (plugin_error_reason_text(n@, error@), Some(exception@), Some(fix@)),
        PluginErrorReason::CouldNotDecodePluginResultToJson(n, error, exception, fix) => (plugin_error_reason_text(n@, error@), Some(exception@), Some(fix@)),
    }
}

impl ErrorFormat {
    pub fn from_plugin_error(error: &PluginErrorReason) -> (r: ErrorFormat)
        ensures
            r@ == plugin_error_format(*error),
    {
        let (plugin_name, error, exception, fix) = match error {
            PluginErrorReason::PluginFailure(n, error, exception, fix) => (n, error, Some(exception), fix),
            PluginErrorReason::PluginReturnedInvalidExitCodeFailure(n, error, fix) => (n, error, None, fix),
            PluginErrorReason::CouldNotRunPlugin(n, error, exception, fix) => (n, error, Some(exception), fix),
            PluginErrorReason::CouldNotDecodePluginOutputToUtf8(n, error, exception, fix) => (n, error, Some(exception), fix),
            PluginErrorReason::CouldNotDecodePluginStdErrToUtf8(n, error, exception, fix) => (n, error, Some(exception), fix),
            PluginErrorReason::CouldNotDecodePluginResultToJson(n, error, exception, fix) => (n, error, Some(exception), fix),
        };
        let mut reason = "Plugin '".to_string();
        reason.append(plugin_name.as_str());
        reason.append("' returned the following error: ");
        reason.append(error.as_str());
        ErrorFormat::new(&reason, exception, Some(fix))
    }
}

} // verus!
