//! Trusted boundary to the OS global-hotkey subsystem.
//!
//! The `global_hotkey` crate parses key-combination text, registers
//! combinations system-wide and assigns each one a numeric id. The library
//! carries the parsed combination opaquely and works with the plain id.

use core::str::FromStr;
use global_hotkey::GlobalHotKeyManager;
use global_hotkey::hotkey::{HotKey, HotKeyParseError};
use vstd::prelude::*;

verus! {

#[verifier::external_type_specification]
#[verifier::external_body]
pub struct ExHotKey(HotKey);

#[verifier::external_type_specification]
#[verifier::external_body]
pub struct ExHotKeyParseError(HotKeyParseError);

#[verifier::external_type_specification]
#[verifier::external_body]
pub struct ExGlobalHotKeyManager(GlobalHotKeyManager);

#[verifier::external_type_specification]
#[verifier::external_body]
pub struct ExHotKeyError(global_hotkey::Error);

/// The numeric id under which the hotkey subsystem knows the key combination
/// written as `s`. Parsing and id assignment are functions of the text alone.
pub uninterp spec fn hotkey_id_of(s: Seq<char>) -> u32;

/// Whether the hotkey parser accepts the key combination written as `s`;
/// a function of the text alone.
pub uninterp spec fn hotkey_parses(s: Seq<char>) -> bool;

/// A successfully parsed key combination together with the numeric id the
/// hotkey subsystem knows it by.
#[derive(Clone, Copy)]
pub struct HotkeyBinding {
    pub key: HotKey,
    pub id: u32,
}

/// Relies on global_hotkey's `HotKey::from_str` and its public `id` field:
/// the parse reads the text alone, so whether it succeeds, and the id it
/// computes from the parsed modifiers and key code, are functions of the
/// text.
#[verifier::external_body]
pub(crate) fn parse_hotkey(s: &String) -> (r: Result<HotkeyBinding, HotKeyParseError>)
    ensures
        (r matches Ok(_)) <==> hotkey_parses(s@),
        r matches Ok(b) ==> b.id == hotkey_id_of(s@),
{
    match HotKey::from_str(s.as_str()) {
        Ok(key) => Ok(HotkeyBinding { key, id: key.id }),
        Err(e) => Err(e),
    }
}

/// Relies on `GlobalHotKeyManager::new`: yields a manager handle, or the
/// subsystem's refusal; the outcome depends on the running platform.
#[verifier::external_body]
pub(crate) fn new_hotkey_manager() -> Result<GlobalHotKeyManager, global_hotkey::Error> {
    GlobalHotKeyManager::new()
}

/// Relies on `GlobalHotKeyManager::register`: asks the OS to bind the key
/// combination system-wide; the outcome depends on what is already bound.
#[verifier::external_body]
pub(crate) fn register_hotkey(mgr: &GlobalHotKeyManager, key: HotKey) -> Result<
    (),
    global_hotkey::Error,
> {
    mgr.register(key)
}

} // verus!
