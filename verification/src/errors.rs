//! The error type shared by every fallible operation of the editor.

use vstd::prelude::*;

verus! {

/// What went wrong in an editor operation.
#[derive(Debug, Clone)]
pub enum VeloError {
    InvalidRange,
    InvalidBufferId,
    InvalidPosition,
    NoFilePath,
    NoBuffersOpen,
    UndoNotSupported,
    IoError(String),
    ParseError(String),
    PluginError(String),
    ConfigError(String),
    Other(String),
}

/// The human-readable text of an error.
pub open spec fn error_message(e: VeloError) -> Seq<char> {
    match e {
        VeloError::InvalidRange => "Invalid range"@,
        VeloError::InvalidBufferId => "Invalid buffer ID"@,
        VeloError::InvalidPosition => "Invalid position"@,
        VeloError::NoFilePath => "No file path"@,
        VeloError::NoBuffersOpen => "No buffers open"@,
        VeloError::UndoNotSupported => "Undo not supported for this command"@,
        VeloError::IoError(msg) => "I/O error: "@ + msg@,
        VeloError::ParseError(msg) => "Parse error: "@ + msg@,
        VeloError::PluginError(msg) => "Plugin error: "@ + msg@,
        VeloError::ConfigError(msg) => "Config error: "@ + msg@,
        VeloError::Other(msg) => msg@,
    }
}

fn prefixed(prefix: &str, msg: &String) -> (s: String)
    ensures
        s@ == prefix@ + msg@,
{
    let p = String::from_str(prefix);
    p.concat(msg.as_str())
}

impl VeloError {
    /// The text that the error displays as.
    pub fn message(&self) -> (s: String)
        ensures
            s@ == error_message(*self),
    {
        match self {
            VeloError::InvalidRange => String::from_str("Invalid range"),
            VeloError::InvalidBufferId => String::from_str("Invalid buffer ID"),
            VeloError::InvalidPosition => String::from_str("Invalid position"),
            VeloError::NoFilePath => String::from_str("No file path"),
            VeloError::NoBuffersOpen => String::from_str("No buffers open"),
            VeloError::UndoNotSupported => String::from_str("Undo not supported for this command"),
            VeloError::IoError(msg) => prefixed("I/O error: ", msg),
            VeloError::ParseError(msg) => prefixed("Parse error: ", msg),
            VeloError::PluginError(msg) => prefixed("Plugin error: ", msg),
            VeloError::ConfigError(msg) => prefixed("Config error: ", msg),
            VeloError::Other(msg) => msg.clone(),
        }
    }
}

} // verus!
