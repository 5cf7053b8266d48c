use bounded_store::cache::ScanCache;
use bounded_store::commands::{
    clear_document_cache, clear_voice_history, get_accessibility_settings,
    get_document_scan_cache, get_voice_command_history, save_accessibility_settings,
    save_document_scan_cache, save_voice_command,
};
use bounded_store::history::HistoryLog;
use bounded_store::records::{AccessibilitySettings, CachedScan, VoiceCommand};
use bounded_store::settings::SettingsSlot;

fn cmd(id: u32) -> VoiceCommand {
    VoiceCommand {
        id: id.to_string(),
        transcript: format!("say {}", id),
        command_matched: format!("command {}", id),
        confidence: 900,
        timestamp: format!("2024-01-01T00:00:{:02}Z", id % 60),
    }
}

fn scan(id: &str, result: &str) -> CachedScan {
    CachedScan {
        id: id.to_string(),
        file_path: format!("/scans/{}.png", id),
        result: result.to_string(),
        cached_at: "2024-01-01T00:00:00Z".to_string(),
    }
}

fn settings() -> AccessibilitySettings {
    AccessibilitySettings {
        high_contrast: true,
        reduced_motion: false,
        large_text: true,
        text_scaling: 125,
        color_blind_mode: "deuteranopia".to_string(),
        cursor_size: "large".to_string(),
        screen_reader: false,
        sound_effects: true,
        voice_feedback: false,
        keyboard_navigation: true,
        sticky_keys: false,
        slow_keys: true,
        slow_keys_delay: 300,
        focus_indicator: "high".to_string(),
        simplified_ui: false,
        reading_guide: true,
        dyslexia_font: false,
        line_spacing: 150,
        word_spacing: 110,
    }
}

#[test]
fn history_append_caps_at_1000_keeps_most_recent() {
    let mut log = HistoryLog::new();
    for i in 1..=1005u32 {
        save_voice_command(&mut log, cmd(i));
    }
    let entries = log.to_entries();
    assert_eq!(entries.len(), 1000);
    for (i, e) in entries.iter().enumerate() {
        assert_eq!(e.id, (i as u32 + 6).to_string());
    }
}

#[test]
fn history_read_defaults_to_100_most_recent_first() {
    let mut log = HistoryLog::new();
    for i in 1..=150u32 {
        log.append(cmd(i));
    }
    let recent = get_voice_command_history(&log, None);
    assert_eq!(recent.len(), 100);
    assert_eq!(recent[0].id, "150");
    assert_eq!(recent[99].id, "51");
    // the read is non-destructive
    assert_eq!(log.to_entries().len(), 150);
}

#[test]
fn history_read_with_limit() {
    let mut log = HistoryLog::new();
    for i in 1..=150u32 {
        log.append(cmd(i));
    }
    let recent = log.read(Some(5));
    assert_eq!(recent.len(), 5);
    assert_eq!(recent[0].id, "150");
    assert_eq!(recent[4].id, "146");
}

#[test]
fn history_read_short_log_returns_all() {
    let mut log = HistoryLog::new();
    log.append(cmd(1));
    log.append(cmd(2));
    log.append(cmd(3));
    let recent = log.read(Some(10));
    assert_eq!(recent.len(), 3);
    assert_eq!(recent[0].id, "3");
    assert_eq!(recent[2].id, "1");
}

#[test]
fn two_appends_on_empty_log_lose_nothing() {
    let mut log = HistoryLog::new();
    save_voice_command(&mut log, cmd(1));
    save_voice_command(&mut log, cmd(2));
    let entries = log.to_entries();
    assert_eq!(entries.len(), 2);
    assert_eq!(entries[0].id, "1");
    assert_eq!(entries[1].id, "2");
}

#[test]
fn clear_history_then_read_is_empty_and_append_is_fresh() {
    let mut log = HistoryLog::new();
    for i in 1..=10u32 {
        log.append(cmd(i));
    }
    clear_voice_history(&mut log);
    assert_eq!(get_voice_command_history(&log, None).len(), 0);
    assert_eq!(get_voice_command_history(&log, Some(5)).len(), 0);
    save_voice_command(&mut log, cmd(42));
    let entries = log.to_entries();
    assert_eq!(entries.len(), 1);
    assert_eq!(entries[0].id, "42");
}

#[test]
fn cache_put_replaces_same_id_and_moves_it_to_tail() {
    let mut cache = ScanCache::new();
    save_document_scan_cache(&mut cache, scan("A", "first"));
    save_document_scan_cache(&mut cache, scan("B", "second"));
    save_document_scan_cache(&mut cache, scan("C", "third"));
    save_document_scan_cache(&mut cache, scan("A", "fresh"));
    let entries = cache.to_entries();
    assert_eq!(entries.len(), 3);
    assert_eq!(entries[0].id, "B");
    assert_eq!(entries[1].id, "C");
    assert_eq!(entries[2].id, "A");
    let got = get_document_scan_cache(&cache, &"A".to_string()).unwrap();
    assert_eq!(got.result, "fresh");
}

#[test]
fn cache_caps_at_50_and_evicts_oldest() {
    let mut cache = ScanCache::new();
    for i in 1..=60u32 {
        cache.put(scan(&i.to_string(), "r"));
    }
    let entries = cache.to_entries();
    assert_eq!(entries.len(), 50);
    for (i, e) in entries.iter().enumerate() {
        assert_eq!(e.id, (i as u32 + 11).to_string());
    }
    assert!(cache.get(&"5".to_string()).is_none());
    assert!(cache.get(&"60".to_string()).is_some());
}

#[test]
fn replaced_entry_is_exempt_from_near_term_eviction() {
    let mut cache = ScanCache::new();
    for i in 1..=50u32 {
        cache.put(scan(&i.to_string(), "old"));
    }
    // replace the oldest entry: it moves to the tail
    cache.put(scan("1", "renewed"));
    // the next overflow evicts the oldest untouched entry, not the renewed one
    cache.put(scan("51", "new"));
    let entries = cache.to_entries();
    assert_eq!(entries.len(), 50);
    assert_eq!(entries[0].id, "3");
    assert!(cache.get(&"2".to_string()).is_none());
    let renewed = cache.get(&"1".to_string()).unwrap();
    assert_eq!(renewed.result, "renewed");
}

#[test]
fn cache_get_absent_returns_none() {
    let mut cache = ScanCache::new();
    cache.put(scan("A", "r"));
    assert!(cache.get(&"Z".to_string()).is_none());
}

#[test]
fn clear_cache_resets_to_empty() {
    let mut cache = ScanCache::new();
    for i in 1..=10u32 {
        cache.put(scan(&i.to_string(), "r"));
    }
    clear_document_cache(&mut cache);
    assert_eq!(cache.to_entries().len(), 0);
    assert!(get_document_scan_cache(&cache, &"1".to_string()).is_none());
}

#[test]
fn settings_before_any_save_is_absent_not_an_error() {
    let slot = SettingsSlot::new();
    assert!(get_accessibility_settings(&slot).is_none());
}

#[test]
fn settings_saved_then_read_back_whole() {
    let mut slot = SettingsSlot::new();
    save_accessibility_settings(&mut slot, settings());
    let got = get_accessibility_settings(&slot).unwrap();
    assert!(got.high_contrast);
    assert!(!got.reduced_motion);
    assert_eq!(got.text_scaling, 125);
    assert_eq!(got.color_blind_mode, "deuteranopia");
    assert_eq!(got.slow_keys_delay, 300);
    assert_eq!(got.line_spacing, 150);
    assert_eq!(got.word_spacing, 110);
}

#[test]
fn settings_overwritten_wholesale() {
    let mut slot = SettingsSlot::new();
    save_accessibility_settings(&mut slot, settings());
    let mut second = settings();
    second.high_contrast = false;
    second.text_scaling = 200;
    save_accessibility_settings(&mut slot, second);
    let got = get_accessibility_settings(&slot).unwrap();
    assert!(!got.high_contrast);
    assert_eq!(got.text_scaling, 200);
}

#[test]
fn absent_documents_decode_as_empty() {
    let log = HistoryLog::from_doc(None);
    assert_eq!(log.to_entries().len(), 0);
    let cache = ScanCache::from_doc(None);
    assert_eq!(cache.to_entries().len(), 0);
    let slot = SettingsSlot::from_doc(None);
    assert!(slot.get().is_none());
}

#[test]
fn oversized_stored_document_is_retrenched_on_next_append() {
    let stored: Vec<VoiceCommand> = (1..=1200u32).map(cmd).collect();
    let mut log = HistoryLog::from_doc(Some(stored));
    save_voice_command(&mut log, cmd(1201));
    let entries = log.to_entries();
    assert_eq!(entries.len(), 1000);
    assert_eq!(entries[0].id, "202");
    assert_eq!(entries[999].id, "1201");
}

#[test]
fn stored_documents_decode_as_given() {
    let log = HistoryLog::from_doc(Some(vec![cmd(7), cmd(8)]));
    let entries = log.to_entries();
    assert_eq!(entries.len(), 2);
    assert_eq!(entries[0].id, "7");
    assert_eq!(entries[1].id, "8");
    let cache = ScanCache::from_doc(Some(vec![scan("X", "r")]));
    assert_eq!(cache.to_entries().len(), 1);
    let slot = SettingsSlot::from_doc(Some(settings()));
    assert_eq!(slot.to_doc().unwrap().text_scaling, 125);
}
