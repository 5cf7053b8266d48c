//! The command surface: one function per externally callable operation,
//! each the pure core of the corresponding request once the host has read
//! and decoded the namespace document and before it encodes and persists
//! the result.
//!
//! The host must serialize mutating operations on one namespace (an
//! exclusive per-namespace lock around its read-modify-write cycle), and
//! must treat the persisted document as unchanged when its save fails.
//! Store-access and persistence failures are the host's to report; nothing
//! below this line fails.

use vstd::prelude::*;

use crate::cache::{ScanCache, spec_find, spec_put};
use crate::history::{HistoryLog, spec_append, spec_limit, spec_read};
use crate::records::{AccessibilitySettings, CachedScan, VoiceCommand};
use crate::settings::SettingsSlot;

verus! {

/// Reads the settings singleton: the saved value, or `None` before any
/// save (absence is not an error).
pub fn get_accessibility_settings(slot: &SettingsSlot) -> (r: Option<AccessibilitySettings>)
    ensures
        r == slot@,
{
    slot.get()
}

/// Overwrites the settings singleton wholesale with `settings`.
pub fn save_accessibility_settings(slot: &mut SettingsSlot, settings: AccessibilitySettings)
    ensures
        final(slot)@ == Some(settings),
{
    slot.set(settings);
}

/// Reads the most recent history entries, most recent first: `limit` of
/// them (100 when absent), or all when fewer exist.
pub fn get_voice_command_history(log: &HistoryLog, limit: Option<u32>) -> (r: Vec<VoiceCommand>)
    ensures
        r@ == spec_read(log@, spec_limit(limit)),
{
    log.read(limit)
}

/// Appends `command` to the history log, evicting the oldest entries past
/// the cap.
pub fn save_voice_command(log: &mut HistoryLog, command: VoiceCommand)
    ensures
        final(log)@ == spec_append(old(log)@, command),
{
    log.append(command);
}

/// Resets the history log to empty.
pub fn clear_voice_history(log: &mut HistoryLog)
    ensures
        final(log)@ == Seq::<VoiceCommand>::empty(),
{
    log.clear();
}

/// Looks a cached scan up by identifier; `None` when absent.
pub fn get_document_scan_cache(cache: &ScanCache, scan_id: &String) -> (r: Option<CachedScan>)
    ensures
        r == spec_find(cache@, scan_id@),
{
    cache.get(scan_id)
}

/// Puts `scan` into the cache, replacing any entry with the same
/// identifier and evicting the oldest entries past the cap.
pub fn save_document_scan_cache(cache: &mut ScanCache, scan: CachedScan)
    ensures
        final(cache)@ == spec_put(old(cache)@, scan),
{
    cache.put(scan);
}

/// Resets the scan cache to empty.
pub fn clear_document_cache(cache: &mut ScanCache)
    ensures
        final(cache)@ == Seq::<CachedScan>::empty(),
{
    cache.clear();
}

} // verus!
