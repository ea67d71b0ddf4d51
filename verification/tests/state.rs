use thehand::audio::AudioEvent;
use thehand::clock::TimeOfDay;
use thehand::state::{
    key_command, AppState, AppStateContainer, HistoryEntry, KeyAction, KeyCommand, StatusColor,
    FULL_SCALE,
};

fn entry(text: &str, second: u8) -> HistoryEntry {
    HistoryEntry { timestamp: TimeOfDay { hour: 9, minute: 5, second }, text: text.to_string() }
}

fn texts(app: &AppStateContainer) -> Vec<String> {
    app.history.iter().map(|e| e.text.clone()).collect()
}

#[test]
fn display_text_of_each_state() {
    assert_eq!(AppState::Idle.display_text(), "Listening...");
    assert_eq!(AppState::Recording.display_text(), "Recording... ●");
    assert_eq!(AppState::Transcribing.display_text(), "Transcribing...");
    assert_eq!(AppState::Typing.display_text(), "Sent ✓");
    assert_eq!(AppState::Muted.display_text(), "MUTED");
}

#[test]
fn color_of_each_state() {
    assert_eq!(AppState::Idle.color(), StatusColor::Green);
    assert_eq!(AppState::Recording.color(), StatusColor::Red);
    assert_eq!(AppState::Transcribing.color(), StatusColor::Yellow);
    assert_eq!(AppState::Typing.color(), StatusColor::Green);
    assert_eq!(AppState::Muted.color(), StatusColor::DarkGray);
}

#[test]
fn new_container_is_idle_and_empty() {
    let app = AppStateContainer::new(3);
    assert_eq!(app.state, AppState::Idle);
    assert!(app.history.is_empty());
    assert_eq!(app.current_text, "");
    assert_eq!(app.audio_level, 0);
    assert_eq!(app.error_message, None);
    assert!(!app.should_quit);
    assert_eq!(app.history_limit, 3);
}

#[test]
fn history_keeps_newest_first_and_evicts_oldest() {
    let mut app = AppStateContainer::new(3);
    for (i, t) in ["zzz", "aaa", "mmm", "bbb", "yyy"].iter().enumerate() {
        app.push_entry(entry(t, i as u8));
        assert!(app.history.len() <= 3);
    }
    assert_eq!(texts(&app), vec!["yyy", "bbb", "mmm"]);
    assert_eq!(app.history[0], entry("yyy", 4));
}

#[test]
fn history_of_capacity_zero_stays_empty() {
    let mut app = AppStateContainer::new(0);
    app.push_entry(entry("a", 0));
    assert!(app.history.is_empty());
    app.add_to_history("b".to_string());
    assert!(app.history.is_empty());
}

#[test]
fn history_over_its_limit_is_cut_back() {
    let mut app = AppStateContainer::new(5);
    for t in ["a", "b", "c", "d"] {
        app.push_entry(entry(t, 0));
    }
    app.history_limit = 2;
    app.push_entry(entry("e", 0));
    assert_eq!(texts(&app), vec!["e", "d"]);
}

#[test]
fn add_to_history_stamps_the_entry() {
    let mut app = AppStateContainer::new(2);
    app.add_to_history("hello".to_string());
    assert_eq!(app.history.len(), 1);
    assert_eq!(app.history[0].text, "hello");
    let t = app.history[0].timestamp;
    assert!(t.hour < 24 && t.minute < 60 && t.second < 60);
    assert_eq!(app.history[0].format_time().len(), 5);
}

#[test]
fn leaving_idle_clears_the_error() {
    let mut app = AppStateContainer::new(1);
    app.set_error("boom".to_string());
    assert_eq!(app.state, AppState::Idle);
    assert_eq!(app.error_message, Some("boom".to_string()));
    app.set_state(AppState::Idle);
    assert_eq!(app.error_message, Some("boom".to_string()));
    app.set_state(AppState::Recording);
    assert_eq!(app.state, AppState::Recording);
    assert_eq!(app.error_message, None);
}

#[test]
fn an_error_brings_the_application_back_to_idle() {
    let mut app = AppStateContainer::new(1);
    app.set_state(AppState::Typing);
    app.set_error("no keyboard".to_string());
    assert_eq!(app.state, AppState::Idle);
    assert_eq!(app.error_message, Some("no keyboard".to_string()));
    app.clear_error();
    assert_eq!(app.error_message, None);
}

#[test]
fn toggle_mute_switches_between_muted_and_idle() {
    let mut app = AppStateContainer::new(1);
    app.set_error("old".to_string());
    app.toggle_mute();
    assert_eq!(app.state, AppState::Muted);
    assert_eq!(app.error_message, None);
    app.toggle_mute();
    assert_eq!(app.state, AppState::Idle);
    app.set_state(AppState::Recording);
    app.toggle_mute();
    assert_eq!(app.state, AppState::Muted);
}

#[test]
fn audio_level_is_capped_at_full_scale() {
    let mut app = AppStateContainer::new(1);
    app.update_audio_level(1234);
    assert_eq!(app.audio_level, 1234);
    assert_eq!(app.audio_percent(), 3);
    app.update_audio_level(32768);
    assert_eq!(app.audio_level, FULL_SCALE);
    assert_eq!(app.audio_percent(), 100);
    app.update_audio_level(16384);
    assert_eq!(app.audio_percent(), 50);
    app.update_audio_level(0);
    assert_eq!(app.audio_percent(), 0);
}

#[test]
fn current_text_is_set_and_cleared() {
    let mut app = AppStateContainer::new(1);
    app.set_current_text("abc".to_string());
    assert_eq!(app.current_text, "abc");
    app.clear_current_text();
    assert_eq!(app.current_text, "");
}

#[test]
fn keys_map_to_commands() {
    assert_eq!(key_command('q'), KeyCommand::Quit);
    assert_eq!(key_command('Q'), KeyCommand::Quit);
    assert_eq!(key_command('m'), KeyCommand::ToggleMute);
    assert_eq!(key_command('M'), KeyCommand::ToggleMute);
    assert_eq!(key_command('c'), KeyCommand::Cancel);
    assert_eq!(key_command('C'), KeyCommand::Cancel);
    assert_eq!(key_command('x'), KeyCommand::Other);
    assert_eq!(key_command('\n'), KeyCommand::Other);
}

#[test]
fn quit_key_sets_the_flag() {
    let mut app = AppStateContainer::new(1);
    assert_eq!(app.handle_key(KeyCommand::Quit, true), KeyAction::Quit);
    assert!(app.should_quit);
    assert_eq!(app.state, AppState::Idle);
}

#[test]
fn cancel_key_acts_only_while_capturing() {
    let mut app = AppStateContainer::new(1);
    app.set_state(AppState::Recording);
    app.set_current_text("partial".to_string());
    assert_eq!(app.handle_key(KeyCommand::Cancel, false), KeyAction::Continue);
    assert_eq!(app.state, AppState::Recording);
    assert_eq!(app.current_text, "partial");
    assert_eq!(app.handle_key(KeyCommand::Cancel, true), KeyAction::CancelCapture);
    assert_eq!(app.state, AppState::Idle);
    assert_eq!(app.current_text, "");
    assert_eq!(app.handle_key(KeyCommand::Other, true), KeyAction::Continue);
    assert_eq!(app.handle_key(KeyCommand::ToggleMute, true), KeyAction::Continue);
    assert_eq!(app.state, AppState::Muted);
}

#[test]
fn events_drive_the_state() {
    let mut app = AppStateContainer::new(1);
    app.set_error("old".to_string());
    assert_eq!(app.handle_audio_event(AudioEvent::Level(700)), None);
    assert_eq!(app.audio_level, 700);
    assert_eq!(app.error_message, Some("old".to_string()));
    assert_eq!(app.handle_audio_event(AudioEvent::VoiceDetected), None);
    assert_eq!(app.error_message, None);
    app.set_current_text("stale".to_string());
    assert_eq!(app.handle_audio_event(AudioEvent::RecordingStarted), None);
    assert_eq!(app.state, AppState::Recording);
    assert_eq!(app.current_text, "");
    assert_eq!(app.handle_audio_event(AudioEvent::SilenceDetected), None);
    assert_eq!(app.state, AppState::Recording);
    assert_eq!(app.handle_audio_event(AudioEvent::RecordingStopped(vec![1, 2, 3])), Some(vec![1, 2, 3]));
    assert_eq!(app.state, AppState::Transcribing);
    assert_eq!(app.handle_audio_event(AudioEvent::Error("device lost".to_string())), None);
    assert_eq!(app.state, AppState::Idle);
    assert_eq!(app.error_message, Some("device lost".to_string()));
}

#[test]
fn muted_application_ignores_the_segmenter() {
    let mut app = AppStateContainer::new(1);
    app.update_audio_level(42);
    app.toggle_mute();
    assert_eq!(app.handle_audio_event(AudioEvent::Level(700)), None);
    assert_eq!(app.audio_level, 42);
    assert_eq!(app.handle_audio_event(AudioEvent::VoiceDetected), None);
    assert_eq!(app.handle_audio_event(AudioEvent::RecordingStarted), None);
    assert_eq!(app.handle_audio_event(AudioEvent::SilenceDetected), None);
    assert_eq!(app.handle_audio_event(AudioEvent::RecordingStopped(vec![1])), None);
    assert_eq!(app.state, AppState::Muted);
    assert_eq!(app.handle_audio_event(AudioEvent::Error("x".to_string())), None);
    assert_eq!(app.state, AppState::Idle);
    assert_eq!(app.error_message, Some("x".to_string()));
}

#[test]
fn muting_does_not_stop_the_segmenter() {
    let mut app = AppStateContainer::new(1);
    let mut seg = thehand::audio::CaptureState::new(500, 100, 1000, 200, 16000);
    app.toggle_mute();
    for e in seg.process_samples(&[600, 600], 0) {
        assert_eq!(app.handle_audio_event(e), None);
    }
    assert!(seg.is_recording());
    assert_eq!(app.state, AppState::Muted);
    app.toggle_mute();
    for e in seg.process_samples(&[50], 100) {
        assert_eq!(app.handle_audio_event(e), None);
    }
    let mut pending = None;
    for e in seg.process_samples(&[50], 1100) {
        if let Some(u) = app.handle_audio_event(e) {
            pending = Some(u);
        }
    }
    assert_eq!(pending, Some(vec![600, 600, 50, 50]));
    assert_eq!(app.state, AppState::Transcribing);
}

#[test]
fn transcription_success_moves_to_typing() {
    let mut app = AppStateContainer::new(1);
    app.set_state(AppState::Transcribing);
    assert_eq!(app.finish_transcription(Ok("hello".to_string())), Some("hello".to_string()));
    assert_eq!(app.state, AppState::Typing);
    assert_eq!(app.current_text, "hello");
    assert_eq!(app.error_message, None);
}

#[test]
fn transcription_failure_shows_the_cause() {
    let mut app = AppStateContainer::new(1);
    app.set_state(AppState::Transcribing);
    assert_eq!(app.finish_transcription(Err("no model".to_string())), None);
    assert_eq!(app.state, AppState::Idle);
    assert_eq!(app.error_message, Some("Transcription failed: no model".to_string()));
}

#[test]
fn typing_success_adds_to_history() {
    let mut app = AppStateContainer::new(2);
    app.finish_transcription(Ok("hello".to_string()));
    app.finish_typing(entry("hello", 7), Ok(()));
    assert_eq!(app.state, AppState::Idle);
    assert_eq!(app.current_text, "");
    assert_eq!(app.error_message, None);
    assert_eq!(texts(&app), vec!["hello"]);
}

#[test]
fn typing_failure_keeps_history_and_shows_the_cause() {
    let mut app = AppStateContainer::new(2);
    app.finish_transcription(Ok("hello".to_string()));
    app.finish_typing(entry("hello", 7), Err("no display".to_string()));
    assert_eq!(app.state, AppState::Idle);
    assert_eq!(app.current_text, "");
    assert_eq!(app.error_message, Some("Failed to type text: no display".to_string()));
    assert!(app.history.is_empty());
}

#[test]
fn entry_formats_its_time() {
    let e = entry("said this", 7);
    assert_eq!(e.format_time(), "09:05");
    assert_eq!(e.log_line(), "[09:05:07] said this");
    let late = HistoryEntry { timestamp: TimeOfDay { hour: 23, minute: 59, second: 59 }, text: String::new() };
    assert_eq!(late.format_time(), "23:59");
    assert_eq!(late.log_line(), "[23:59:59] ");
}

#[test]
fn new_entry_carries_the_text_and_a_valid_time() {
    let e = HistoryEntry::new("abc".to_string());
    assert_eq!(e.text, "abc");
    assert!(e.timestamp.hour < 24 && e.timestamp.minute < 60 && e.timestamp.second < 60);
}

#[test]
fn events_are_handled_in_order() {
    let mut app = AppStateContainer::new(1);
    let pending = app.handle_audio_events(vec![
        AudioEvent::Level(10),
        AudioEvent::VoiceDetected,
        AudioEvent::RecordingStarted,
        AudioEvent::Level(20),
        AudioEvent::RecordingStopped(vec![1, 2]),
        AudioEvent::Level(30),
    ]);
    assert_eq!(pending, Some(vec![1, 2]));
    assert_eq!(app.state, AppState::Transcribing);
    assert_eq!(app.audio_level, 30);
}

#[test]
fn the_last_utterance_of_a_run_is_the_pending_one() {
    let mut app = AppStateContainer::new(1);
    let pending = app.handle_audio_events(vec![
        AudioEvent::RecordingStopped(vec![1]),
        AudioEvent::RecordingStarted,
        AudioEvent::RecordingStopped(vec![2, 3]),
        AudioEvent::Error("late fault".to_string()),
    ]);
    assert_eq!(pending, Some(vec![2, 3]));
    assert_eq!(app.state, AppState::Idle);
    assert_eq!(app.error_message, Some("late fault".to_string()));
    assert_eq!(app.handle_audio_events(vec![]), None);
    assert_eq!(app.handle_audio_events(vec![AudioEvent::Level(5)]), None);
    assert_eq!(app.audio_level, 5);
}

#[test]
fn status_line_shows_state_and_error() {
    let mut app = AppStateContainer::new(1);
    assert_eq!(app.status_line(), "Status: Listening...");
    app.set_state(AppState::Recording);
    assert_eq!(app.status_line(), "Status: Recording... ●");
    app.set_error("boom".to_string());
    assert_eq!(app.status_line(), "Status: Listening... | Error: boom");
}

#[test]
fn current_text_is_shown_or_an_underscore() {
    let mut app = AppStateContainer::new(1);
    assert_eq!(app.current_display(), "_");
    app.set_current_text("typing this".to_string());
    assert_eq!(app.current_display(), "typing this");
}

#[test]
fn entry_is_shown_with_hours_and_minutes() {
    assert_eq!(entry("said this", 7).display_line(), "[09:05] said this");
}
