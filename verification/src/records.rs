//! The record types that the managed collections hold.
//!
//! Every field is a plain value, so that contracts can speak of records by
//! structural equality. Fractional quantities (text scaling, confidence) are
//! carried as scaled integers; the host application converts at its edge.

use vstd::prelude::*;

verus! {

/// The accessibility settings singleton. One instance per installation,
/// overwritten wholesale on each save.
///
/// `text_scaling`, `line_spacing` and `word_spacing` are factors in
/// hundredths (100 means 1.0); `confidence`-like fields elsewhere follow the
/// same convention.
pub struct AccessibilitySettings {
    pub high_contrast: bool,
    pub reduced_motion: bool,
    pub large_text: bool,
    /// Scaling factor in hundredths.
    pub text_scaling: u32,
    pub color_blind_mode: String,
    pub cursor_size: String,
    pub screen_reader: bool,
    pub sound_effects: bool,
    pub voice_feedback: bool,
    pub keyboard_navigation: bool,
    pub sticky_keys: bool,
    pub slow_keys: bool,
    pub slow_keys_delay: u32,
    pub focus_indicator: String,
    pub simplified_ui: bool,
    pub reading_guide: bool,
    pub dyslexia_font: bool,
    /// Spacing factor in hundredths.
    pub line_spacing: u32,
    /// Spacing factor in hundredths.
    pub word_spacing: u32,
}

impl Clone for AccessibilitySettings {
    fn clone(&self) -> (r: Self)
        ensures
            r == *self,
    {
        AccessibilitySettings {
            high_contrast: self.high_contrast,
            reduced_motion: self.reduced_motion,
            large_text: self.large_text,
            text_scaling: self.text_scaling,
            color_blind_mode: self.color_blind_mode.clone(),
            cursor_size: self.cursor_size.clone(),
            screen_reader: self.screen_reader,
            sound_effects: self.sound_effects,
            voice_feedback: self.voice_feedback,
            keyboard_navigation: self.keyboard_navigation,
            sticky_keys: self.sticky_keys,
            slow_keys: self.slow_keys,
            slow_keys_delay: self.slow_keys_delay,
            focus_indicator: self.focus_indicator.clone(),
            simplified_ui: self.simplified_ui,
            reading_guide: self.reading_guide,
            dyslexia_font: self.dyslexia_font,
            line_spacing: self.line_spacing,
            word_spacing: self.word_spacing,
        }
    }
}

/// One recognised voice command; immutable member of the append log.
/// Recency is append order, never the timestamp value.
pub struct VoiceCommand {
    pub id: String,
    pub transcript: String,
    pub command_matched: String,
    /// Recognition confidence in thousandths (0 ..= 1000 stands for 0.0 ..= 1.0).
    pub confidence: u32,
    pub timestamp: String,
}

impl Clone for VoiceCommand {
    fn clone(&self) -> (r: Self)
        ensures
            r == *self,
    {
        VoiceCommand {
            id: self.id.clone(),
            transcript: self.transcript.clone(),
            command_matched: self.command_matched.clone(),
            confidence: self.confidence,
            timestamp: self.timestamp.clone(),
        }
    }
}

/// One cached document scan; member of the deduplicated capped cache,
/// unique by `id`, replaced wholesale when its identifier is put again.
pub struct CachedScan {
    pub id: String,
    pub file_path: String,
    pub result: String,
    pub cached_at: String,
}

impl Clone for CachedScan {
    fn clone(&self) -> (r: Self)
        ensures
            r == *self,
    {
        CachedScan {
            id: self.id.clone(),
            file_path: self.file_path.clone(),
            result: self.result.clone(),
            cached_at: self.cached_at.clone(),
        }
    }
}

/// Result of a completed barcode or QR scan, as handed to the host shell.
pub struct ScanResult {
    pub scan_type: String,
    pub format: String,
    pub data: String,
    pub timestamp: String,
}

/// Description of an installed printer, as handed to the host shell.
pub struct PrinterInfo {
    pub id: String,
    pub name: String,
    pub is_default: bool,
    pub status: String,
    pub printer_type: String,
}

/// Description of an available application update, as handed to the host shell.
pub struct UpdateInfo {
    pub version: String,
    pub release_notes: String,
    pub release_date: String,
    pub mandatory: bool,
}

} // verus!
