//! Error type of the plugin system, its classification, and the message
//! each error is shown with.

use vstd::prelude::*;

use crate::text::{owned, push_all, push_decimal, str_chars, string_from_chars, decimal};

verus! {

/// Plugin system errors.
#[derive(Debug, Clone, PartialEq, Eq)]
pub enum PluginError {
    /// Plugin not found.
    NotFound(String),
    /// Plugin already loaded.
    AlreadyLoaded(String),
    /// Plugin initialization failed.
    InitializationFailed(String),
    /// Plugin load failed.
    LoadFailed {
        /// Path to the plugin.
        path: String,
        /// Reason for failure.
        reason: String,
    },
    /// Plugin unload failed.
    UnloadFailed {
        /// Plugin identifier.
        plugin_id: String,
        /// Reason for failure.
        reason: String,
    },
    /// Invalid plugin manifest.
    InvalidManifest(String),
    /// Missing plugin manifest.
    MissingManifest(String),
    /// Plugin dependency error.
    DependencyError {
        /// Plugin that has the dependency.
        plugin: String,
        /// The dependency that caused the error.
        dependency: String,
        /// Reason for the error.
        reason: String,
    },
    /// Version mismatch.
    VersionMismatch {
        /// Plugin identifier.
        plugin: String,
        /// Required version.
        required: String,
        /// Actual version.
        actual: String,
    },
    /// ABI incompatibility.
    AbiMismatch {
        /// Expected ABI version.
        expected: u32,
        /// Actual ABI version.
        actual: u32,
    },
    /// Symbol not found in plugin library.
    SymbolNotFound {
        /// Symbol name.
        symbol: String,
        /// Plugin identifier.
        plugin: String,
    },
    /// Plugin disabled.
    Disabled(String),
    /// Plugin error during execution.
    ExecutionError {
        /// Plugin identifier.
        plugin: String,
        /// Error message.
        message: String,
    },
    /// Permission denied.
    PermissionDenied(String),
    /// IO error.
    Io(String),
    /// JSON error.
    Json(String),
    /// Dynamic library loading error.
    LibraryLoad(String),
    /// Lock acquisition error.
    LockError(String),
    /// Invalid state transition.
    InvalidTransition {
        /// Source state.
        from: String,
        /// Target state.
        to: String,
    },
    /// Plugin capability not supported.
    CapabilityNotSupported {
        /// Plugin identifier.
        plugin: String,
        /// Capability name.
        capability: String,
    },
    /// Configuration error.
    ConfigurationError(String),
    /// Timeout error.
    Timeout(String),
    /// Channel communication error.
    ChannelError(String),
}

/// The message an error is shown with.
pub open spec fn error_text(e: PluginError) -> Seq<char> {
    match e {
        PluginError::NotFound(s) => "Plugin not found: "@ + s@,
        PluginError::AlreadyLoaded(s) => "Plugin already loaded: "@ + s@,
        PluginError::InitializationFailed(s) => "Plugin initialization failed: "@ + s@,
        PluginError::LoadFailed { path, reason } => "Failed to load plugin from '"@ + path@ + "': "@
            + reason@,
        PluginError::UnloadFailed { plugin_id, reason } => "Failed to unload plugin '"@ + plugin_id@
            + "': "@ + reason@,
        PluginError::InvalidManifest(s) => "Invalid plugin manifest: "@ + s@,
        PluginError::MissingManifest(s) => "Missing plugin manifest in: "@ + s@,
        PluginError::DependencyError { plugin, dependency, reason } => "Dependency error for plugin '"@
            + plugin@ + "': "@ + dependency@ + " "@ + reason@,
        PluginError::VersionMismatch { plugin, required, actual } => "Version mismatch: plugin '"@
            + plugin@ + "' requires "@ + required@ + ", but host has "@ + actual@,
        PluginError::AbiMismatch { expected, actual } => "ABI incompatibility: plugin expects ABI "@
            + decimal(expected as nat) + ", host provides "@ + decimal(actual as nat),
        PluginError::SymbolNotFound { symbol, plugin } => "Symbol '"@ + symbol@ + "' not found in plugin '"@
            + plugin@ + "'"@,
        PluginError::Disabled(s) => "Plugin '"@ + s@ + "' is disabled"@,
        PluginError::ExecutionError { plugin, message } => "Plugin '"@ + plugin@ + "' error: "@
            + message@,
        PluginError::PermissionDenied(s) => "Permission denied: "@ + s@,
        PluginError::Io(s) => "IO error: "@ + s@,
        PluginError::Json(s) => "JSON error: "@ + s@,
        PluginError::LibraryLoad(s) => "Dynamic library error: "@ + s@,
        PluginError::LockError(s) => "Lock acquisition error: "@ + s@,
        PluginError::InvalidTransition { from, to } => "Invalid state transition: "@ + from@ + " -> "@
            + to@,
        PluginError::CapabilityNotSupported { plugin, capability } => "Plugin '"@ + plugin@
            + "' does not support capability '"@ + capability@ + "'"@,
        PluginError::ConfigurationError(s) => "Configuration error: "@ + s@,
        PluginError::Timeout(s) => "Operation timed out: "@ + s@,
        PluginError::ChannelError(s) => "Channel error: "@ + s@,
    }
}

/// Appends the characters of a text to `out`.
pub fn append(out: &mut Vec<char>, s: &str)
    ensures
        final(out)@ == old(out)@ + s@,
{
    let c = str_chars(s);
    push_all(out, c.as_slice());
}

/// The concatenation of two texts.
pub fn text2(a: &str, b: &str) -> (r: String)
    ensures
        r@ == a@ + b@,
{
    let mut out: Vec<char> = Vec::new();
    append(&mut out, a);
    append(&mut out, b);
    assert(out@ =~= a@ + b@);
    string_from_chars(out.as_slice())
}

/// The concatenation of three texts.
pub fn text3(a: &str, b: &str, c: &str) -> (r: String)
    ensures
        r@ == a@ + b@ + c@,
{
    let mut out: Vec<char> = Vec::new();
    append(&mut out, a);
    append(&mut out, b);
    append(&mut out, c);
    assert(out@ =~= a@ + b@ + c@);
    string_from_chars(out.as_slice())
}

/// The concatenation of four texts.
pub fn text4(a: &str, b: &str, c: &str, d: &str) -> (r: String)
    ensures
        r@ == a@ + b@ + c@ + d@,
{
    let mut out: Vec<char> = Vec::new();
    append(&mut out, a);
    append(&mut out, b);
    append(&mut out, c);
    append(&mut out, d);
    assert(out@ =~= a@ + b@ + c@ + d@);
    string_from_chars(out.as_slice())
}

fn text5(a: &str, b: &str, c: &str, d: &str, e: &str) -> (r: String)
    ensures
        r@ == a@ + b@ + c@ + d@ + e@,
{
    let mut out: Vec<char> = Vec::new();
    append(&mut out, a);
    append(&mut out, b);
    append(&mut out, c);
    append(&mut out, d);
    append(&mut out, e);
    assert(out@ =~= a@ + b@ + c@ + d@ + e@);
    string_from_chars(out.as_slice())
}

fn text6(a: &str, b: &str, c: &str, d: &str, e: &str, f: &str) -> (r: String)
    ensures
        r@ == a@ + b@ + c@ + d@ + e@ + f@,
{
    let mut out: Vec<char> = Vec::new();
    append(&mut out, a);
    append(&mut out, b);
    append(&mut out, c);
    append(&mut out, d);
    append(&mut out, e);
    append(&mut out, f);
    assert(out@ =~= a@ + b@ + c@ + d@ + e@ + f@);
    string_from_chars(out.as_slice())
}

impl PluginError {
    /// A load failure for a plugin path.
    pub fn load_failed(path: &str, reason: &str) -> (r: PluginError)
        ensures
            r matches PluginError::LoadFailed { path: p, reason: q } && p@ == path@ && q@ == reason@,
    {
        PluginError::LoadFailed { path: owned(path), reason: owned(reason) }
    }

    /// An unload failure for a plugin.
    pub fn unload_failed(plugin_id: &str, reason: &str) -> (r: PluginError)
        ensures
            r matches PluginError::UnloadFailed { plugin_id: p, reason: q } && p@ == plugin_id@ && q@
                == reason@,
    {
        PluginError::UnloadFailed { plugin_id: owned(plugin_id), reason: owned(reason) }
    }

    /// A dependency error.
    pub fn dependency(plugin: &str, dependency: &str, reason: &str) -> (r: PluginError)
        ensures
            r matches PluginError::DependencyError { plugin: p, dependency: d, reason: q } && p@
                == plugin@ && d@ == dependency@ && q@ == reason@,
    {
        PluginError::DependencyError {
            plugin: owned(plugin),
            dependency: owned(dependency),
            reason: owned(reason),
        }
    }

    /// A version mismatch.
    pub fn version_mismatch(plugin: &str, required: &str, actual: &str) -> (r: PluginError)
        ensures
            r matches PluginError::VersionMismatch { plugin: p, required: q, actual: a } && p@
                == plugin@ && q@ == required@ && a@ == actual@,
    {
        PluginError::VersionMismatch {
            plugin: owned(plugin),
            required: owned(required),
            actual: owned(actual),
        }
    }

    /// An execution error.
    pub fn execution(plugin: &str, message: &str) -> (r: PluginError)
        ensures
            r matches PluginError::ExecutionError { plugin: p, message: m } && p@ == plugin@ && m@
                == message@,
    {
        PluginError::ExecutionError { plugin: owned(plugin), message: owned(message) }
    }

    /// Whether the error can be recovered from.
    pub fn is_recoverable(&self) -> (r: bool)
        ensures
            r == (self is Disabled || self is DependencyError || self is Timeout
                || self is ConfigurationError),
    {
        match self {
            PluginError::Disabled(_)
            | PluginError::DependencyError { .. }
            | PluginError::Timeout(_)
            | PluginError::ConfigurationError(_) => true,
            _ => false,
        }
    }

    /// Whether the error means the plugin should be disabled.
    pub fn should_disable(&self) -> (r: bool)
        ensures
            r == (self is InitializationFailed || self is VersionMismatch || self is AbiMismatch
                || self is SymbolNotFound),
    {
        match self {
            PluginError::InitializationFailed(_)
            | PluginError::VersionMismatch { .. }
            | PluginError::AbiMismatch { .. }
            | PluginError::SymbolNotFound { .. } => true,
            _ => false,
        }
    }

    /// The message the error is shown with.
    pub fn message(&self) -> (r: String)
        ensures
            r@ == error_text(*self),
    {
        match self {
            PluginError::NotFound(s) => text2("Plugin not found: ", s.as_str()),
            PluginError::AlreadyLoaded(s) => text2("Plugin already loaded: ", s.as_str()),
            PluginError::InitializationFailed(s) => text2("Plugin initialization failed: ", s.as_str()),
            PluginError::LoadFailed { path, reason } => text4(
                "Failed to load plugin from '",
                path.as_str(),
                "': ",
                reason.as_str(),
            ),
            PluginError::UnloadFailed { plugin_id, reason } => text4(
                "Failed to unload plugin '",
                plugin_id.as_str(),
                "': ",
                reason.as_str(),
            ),
            PluginError::InvalidManifest(s) => text2("Invalid plugin manifest: ", s.as_str()),
            PluginError::MissingManifest(s) => text2("Missing plugin manifest in: ", s.as_str()),
            PluginError::DependencyError { plugin, dependency, reason } => text6(
                "Dependency error for plugin '",
                plugin.as_str(),
                "': ",
                dependency.as_str(),
                " ",
                reason.as_str(),
            ),
            PluginError::VersionMismatch { plugin, required, actual } => text6(
                "Version mismatch: plugin '",
                plugin.as_str(),
                "' requires ",
                required.as_str(),
                ", but host has ",
                actual.as_str(),
            ),
            PluginError::AbiMismatch { expected, actual } => {
                let mut out: Vec<char> = Vec::new();
                append(&mut out, "ABI incompatibility: plugin expects ABI ");
                push_decimal(&mut out, *expected);
                append(&mut out, ", host provides ");
                push_decimal(&mut out, *actual);
                string_from_chars(out.as_slice())
            },
            PluginError::SymbolNotFound { symbol, plugin } => text5(
                "Symbol '",
                symbol.as_str(),
                "' not found in plugin '",
                plugin.as_str(),
                "'",
            ),
            PluginError::Disabled(s) => text3("Plugin '", s.as_str(), "' is disabled"),
            PluginError::ExecutionError { plugin, message } => text4(
                "Plugin '",
                plugin.as_str(),
                "' error: ",
                message.as_str(),
            ),
            PluginError::PermissionDenied(s) => text2("Permission denied: ", s.as_str()),
            PluginError::Io(s) => text2("IO error: ", s.as_str()),
            PluginError::Json(s) => text2("JSON error: ", s.as_str()),
            PluginError::LibraryLoad(s) => text2("Dynamic library error: ", s.as_str()),
            PluginError::LockError(s) => text2("Lock acquisition error: ", s.as_str()),
            PluginError::InvalidTransition { from, to } => text4(
                "Invalid state transition: ",
                from.as_str(),
                " -> ",
                to.as_str(),
            ),
            PluginError::CapabilityNotSupported { plugin, capability } => text5(
                "Plugin '",
                plugin.as_str(),
                "' does not support capability '",
                capability.as_str(),
                "'",
            ),
            PluginError::ConfigurationError(s) => text2("Configuration error: ", s.as_str()),
            PluginError::Timeout(s) => text2("Operation timed out: ", s.as_str()),
            PluginError::ChannelError(s) => text2("Channel error: ", s.as_str()),
        }
    }
}

} // verus!
