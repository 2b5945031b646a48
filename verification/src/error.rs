//! The fatal errors of client assembly.
//!
//! A configured plugin whose type-id is unknown is not an error: assembly
//! skips it with a warning. Everything here aborts assembly.

use global_hotkey::hotkey::HotKeyParseError;
use vstd::prelude::*;
use vstd::string::StringExecFns;

verus! {

/// A fatal error raised while assembling the client.
#[derive(Debug)]
pub enum ClientError {
    /// A required field of the named plugin's configuration table is
    /// missing or not text.
    BadPluginConfig { plugin: String, field: String },
    /// The named plugin's key-combination text was rejected by the hotkey
    /// parser.
    BadHotkeySpec { plugin: String, source: HotKeyParseError },
    /// The OS hotkey subsystem could not be started.
    HotkeyManager { source: global_hotkey::Error },
    /// The OS rejected the named plugin's binding, e.g. because the key
    /// combination is already bound system-wide.
    HotkeyRegistration { plugin: String, source: global_hotkey::Error },
    /// The named plugin's binding has the id of one already in the table.
    DuplicateHotkeyId { plugin: String, id: u32 },
}

impl ClientError {
    /// The diagnostic text of this error.
    pub open spec fn spec_message(self) -> Seq<char> {
        match self {
            ClientError::BadPluginConfig { plugin, field } => {
                "bad plugin configuration for "@ + plugin@ + ": missing or malformed field "@
                    + field@
            },
            ClientError::BadHotkeySpec { plugin, .. } => {
                "bad plugin configuration for "@ + plugin@ + ": unparsable hotkey"@
            },
            ClientError::HotkeyManager { .. } => "could not start the hotkey manager"@,
            ClientError::HotkeyRegistration { plugin, .. } => {
                "could not register the hotkey for "@ + plugin@
            },
            ClientError::DuplicateHotkeyId { plugin, .. } => {
                "hotkey id already in the table, for "@ + plugin@
            },
        }
    }

    /// Renders the diagnostic text.
    pub fn message(&self) -> (r: String)
        ensures
            r@ == self.spec_message(),
    {
        match self {
            ClientError::BadPluginConfig { plugin, field } => {
                let mut out = "bad plugin configuration for ".to_owned();
                out.append(plugin.as_str());
                out.append(": missing or malformed field ");
                out.append(field.as_str());
                out
            },
            ClientError::BadHotkeySpec { plugin, .. } => {
                let mut out = "bad plugin configuration for ".to_owned();
                out.append(plugin.as_str());
                out.append(": unparsable hotkey");
                out
            },
            ClientError::HotkeyManager { .. } => "could not start the hotkey manager".to_owned(),
            ClientError::HotkeyRegistration { plugin, .. } => {
                let mut out = "could not register the hotkey for ".to_owned();
                out.append(plugin.as_str());
                out
            },
            ClientError::DuplicateHotkeyId { plugin, .. } => {
                let mut out = "hotkey id already in the table, for ".to_owned();
                out.append(plugin.as_str());
                out
            },
        }
    }
}

} // verus!
