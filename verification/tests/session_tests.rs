use nullamp::player::PlayState;
use nullamp::session::{
    context_menu_items, key_command, shuffle_index, Key, KeyCommand, LibraryViewMode, MenuItem, PlayerCommand, RepeatMode, Session, Tab, TrackAction,
    TrackSource, RECENT_FILES_CAP,
};

fn session_with_library(tracks: &[&str]) -> Session<String> {
    let mut s: Session<String> = Session::new();
    s.library_loaded(tracks.iter().map(|t| t.to_string()).collect());
    s
}

#[test]
fn repeat_mode_cycles_off_all_one() {
    assert_eq!(RepeatMode::Off.cycle(), RepeatMode::All);
    assert_eq!(RepeatMode::All.cycle(), RepeatMode::One);
    assert_eq!(RepeatMode::One.cycle(), RepeatMode::Off);
}

#[test]
fn repeat_mode_three_presses_restore() {
    for m in [RepeatMode::Off, RepeatMode::All, RepeatMode::One] {
        assert_eq!(m.cycle().cycle().cycle(), m);
    }
}

#[test]
fn new_session_is_empty() {
    let s: Session<String> = Session::new();
    assert!(s.playlist.is_empty());
    assert_eq!(s.current_index, None);
    assert!(!s.shuffle);
    assert_eq!(s.repeat, RepeatMode::Off);
    assert_eq!(s.active_tab, Tab::Library);
    assert_eq!(s.library_view_mode, LibraryViewMode::AllTracks);
}

#[test]
fn play_now_from_library_replaces_queue() {
    let mut s = session_with_library(&["a", "b", "c"]);
    s.playlist.push("x".to_string());
    let cmd = s.track_action(TrackSource::Library, 1, TrackAction::PlayNow);
    assert_eq!(cmd, PlayerCommand::PlayCurrent);
    assert_eq!(s.playlist, vec!["a", "b", "c"]);
    assert_eq!(s.current_index, Some(1));
    assert_eq!(s.current_track().map(|t| t.as_str()), Some("b"));
}

#[test]
fn play_now_from_search_replaces_queue_with_results() {
    let mut s = session_with_library(&["a", "b", "c"]);
    s.search_results_arrived(vec!["r1".to_string(), "r2".to_string()]);
    let cmd = s.track_action(TrackSource::Search, 1, TrackAction::PlayNow);
    assert_eq!(cmd, PlayerCommand::PlayCurrent);
    assert_eq!(s.playlist, vec!["r1", "r2"]);
    assert_eq!(s.current_index, Some(1));
}

#[test]
fn play_now_from_queue_jumps() {
    let mut s = session_with_library(&["a", "b", "c"]);
    s.queue_all();
    let cmd = s.track_action(TrackSource::Queue, 2, TrackAction::PlayNow);
    assert_eq!(cmd, PlayerCommand::PlayCurrent);
    assert_eq!(s.current_index, Some(2));
    assert_eq!(s.playlist.len(), 3);
}

#[test]
fn track_action_out_of_range_only_closes_menu() {
    let mut s = session_with_library(&["a"]);
    s.open_context_menu(TrackSource::Library, 5);
    let cmd = s.track_action(TrackSource::Library, 5, TrackAction::PlayNow);
    assert_eq!(cmd, PlayerCommand::Nothing);
    assert!(s.context_menu.is_none());
    assert!(s.playlist.is_empty());
}

#[test]
fn play_next_inserts_after_current() {
    let mut s = session_with_library(&["a", "b", "c"]);
    s.track_action(TrackSource::Library, 0, TrackAction::PlayNow);
    let cmd = s.track_action(TrackSource::Library, 2, TrackAction::PlayNext);
    assert_eq!(cmd, PlayerCommand::Nothing);
    assert_eq!(s.playlist, vec!["a", "c", "b", "c"]);
    assert_eq!(s.current_index, Some(0));
}

#[test]
fn play_next_without_current_inserts_at_front() {
    let mut s = session_with_library(&["a", "b"]);
    s.track_action(TrackSource::Library, 0, TrackAction::AddToQueue);
    s.track_action(TrackSource::Library, 1, TrackAction::PlayNext);
    assert_eq!(s.playlist, vec!["b", "a"]);
}

#[test]
fn add_to_queue_appends() {
    let mut s = session_with_library(&["a", "b"]);
    s.track_action(TrackSource::Library, 1, TrackAction::AddToQueue);
    s.track_action(TrackSource::Library, 0, TrackAction::AddToQueue);
    assert_eq!(s.playlist, vec!["b", "a"]);
    assert_eq!(s.current_index, None);
}

#[test]
fn remove_before_current_keeps_current_track() {
    let mut s = session_with_library(&["a", "b", "c", "d"]);
    s.track_action(TrackSource::Library, 2, TrackAction::PlayNow);
    let cmd = s.track_action(TrackSource::Queue, 0, TrackAction::RemoveFromQueue);
    assert_eq!(cmd, PlayerCommand::Nothing);
    assert_eq!(s.current_index, Some(1));
    assert_eq!(s.current_track().map(|t| t.as_str()), Some("c"));
}

#[test]
fn remove_after_current_keeps_current_track() {
    let mut s = session_with_library(&["a", "b", "c", "d"]);
    s.track_action(TrackSource::Library, 1, TrackAction::PlayNow);
    s.track_action(TrackSource::Queue, 3, TrackAction::RemoveFromQueue);
    assert_eq!(s.current_index, Some(1));
    assert_eq!(s.current_track().map(|t| t.as_str()), Some("b"));
    assert_eq!(s.playlist, vec!["a", "b", "c"]);
}

#[test]
fn remove_current_stops_player() {
    let mut s = session_with_library(&["a", "b"]);
    s.track_action(TrackSource::Library, 1, TrackAction::PlayNow);
    let cmd = s.track_action(TrackSource::Queue, 1, TrackAction::RemoveFromQueue);
    assert_eq!(cmd, PlayerCommand::Stop);
    assert_eq!(s.current_index, None);
    assert_eq!(s.playlist, vec!["a"]);
}

#[test]
fn next_at_end_with_repeat_off_stops_and_keeps_index() {
    let mut s = session_with_library(&["a", "b"]);
    s.track_action(TrackSource::Library, 1, TrackAction::PlayNow);
    assert_eq!(s.next_track(0), PlayerCommand::Stop);
    assert_eq!(s.current_index, Some(1));
}

#[test]
fn next_at_end_with_repeat_all_wraps() {
    let mut s = session_with_library(&["a", "b"]);
    s.track_action(TrackSource::Library, 1, TrackAction::PlayNow);
    s.cycle_repeat();
    assert_eq!(s.repeat, RepeatMode::All);
    assert_eq!(s.next_track(0), PlayerCommand::PlayCurrent);
    assert_eq!(s.current_index, Some(0));
}

#[test]
fn prev_at_start_with_repeat_all_wraps_to_last() {
    let mut s = session_with_library(&["a", "b", "c"]);
    s.track_action(TrackSource::Library, 0, TrackAction::PlayNow);
    s.cycle_repeat();
    assert_eq!(s.prev_track(0), PlayerCommand::PlayCurrent);
    assert_eq!(s.current_index, Some(2));
}

#[test]
fn prev_at_start_with_repeat_off_does_nothing() {
    let mut s = session_with_library(&["a", "b", "c"]);
    s.track_action(TrackSource::Library, 0, TrackAction::PlayNow);
    assert_eq!(s.prev_track(0), PlayerCommand::Nothing);
    assert_eq!(s.current_index, Some(0));
}

#[test]
fn repeat_one_replays_current() {
    let mut s = session_with_library(&["a", "b", "c"]);
    s.track_action(TrackSource::Library, 1, TrackAction::PlayNow);
    s.cycle_repeat();
    s.cycle_repeat();
    assert_eq!(s.repeat, RepeatMode::One);
    assert_eq!(s.track_ended(12345), PlayerCommand::PlayCurrent);
    assert_eq!(s.current_index, Some(1));
}

#[test]
fn next_and_prev_step_through_queue() {
    let mut s = session_with_library(&["a", "b", "c"]);
    s.track_action(TrackSource::Library, 0, TrackAction::PlayNow);
    assert_eq!(s.next_track(0), PlayerCommand::PlayCurrent);
    assert_eq!(s.current_index, Some(1));
    assert_eq!(s.prev_track(0), PlayerCommand::PlayCurrent);
    assert_eq!(s.current_index, Some(0));
}

#[test]
fn next_on_empty_queue_does_nothing() {
    let mut s: Session<String> = Session::new();
    assert_eq!(s.next_track(0), PlayerCommand::Nothing);
    assert_eq!(s.current_index, None);
}

#[test]
fn next_ignored_while_settings_open() {
    let mut s = session_with_library(&["a", "b"]);
    s.track_action(TrackSource::Library, 0, TrackAction::PlayNow);
    s.open_settings();
    assert_eq!(s.next_track(0), PlayerCommand::Nothing);
    assert_eq!(s.current_index, Some(0));
}

#[test]
fn shuffle_picks_from_random_value() {
    let mut s = session_with_library(&["a", "b", "c", "d", "e"]);
    s.track_action(TrackSource::Library, 0, TrackAction::PlayNow);
    s.toggle_shuffle();
    assert_eq!(s.next_track(13), PlayerCommand::PlayCurrent);
    assert_eq!(s.current_index, Some(3));
}

#[test]
fn shuffle_index_uses_signed_low_bits() {
    assert_eq!(shuffle_index(5, 3), 2);
    assert_eq!(shuffle_index(0xFFFF_FFFF, 7), 1);
    assert_eq!(shuffle_index(0x1_0000_0005, 3), 2);
    assert_eq!(shuffle_index(0x8000_0000, 3), (0x8000_0000u64 % 3) as usize);
    for r in [0u64, 1, 77, 0xDEAD_BEEF, u64::MAX] {
        let expected = ((r as i32) % 10).unsigned_abs() as usize;
        assert_eq!(shuffle_index(r, 10), expected);
    }
}

#[test]
fn toggle_play_pause_starts_first_track_when_stopped() {
    let mut s = session_with_library(&["a"]);
    s.queue_all();
    assert_eq!(s.toggle_play_pause(PlayState::Stopped), PlayerCommand::PlayCurrent);
    assert_eq!(s.current_index, Some(0));
    assert_eq!(s.toggle_play_pause(PlayState::Playing), PlayerCommand::TogglePause);
}

#[test]
fn toggle_play_pause_with_empty_queue_does_nothing() {
    let mut s: Session<String> = Session::new();
    assert_eq!(s.toggle_play_pause(PlayState::Stopped), PlayerCommand::Nothing);
}

#[test]
fn stop_clears_current() {
    let mut s = session_with_library(&["a"]);
    s.track_action(TrackSource::Library, 0, TrackAction::PlayNow);
    assert_eq!(s.stop(), PlayerCommand::Stop);
    assert_eq!(s.current_index, None);
    assert_eq!(s.playlist.len(), 1);
}

#[test]
fn clear_queue_empties_and_stops() {
    let mut s = session_with_library(&["a", "b"]);
    s.queue_all();
    s.jump_to_queue_track(1);
    assert_eq!(s.clear_queue(), PlayerCommand::Stop);
    assert!(s.playlist.is_empty());
    assert_eq!(s.current_index, None);
}

#[test]
fn jump_to_queue_track_checks_range() {
    let mut s = session_with_library(&["a", "b"]);
    s.queue_all();
    assert_eq!(s.jump_to_queue_track(5), PlayerCommand::Nothing);
    assert_eq!(s.current_index, None);
    assert_eq!(s.jump_to_queue_track(1), PlayerCommand::PlayCurrent);
    assert_eq!(s.current_index, Some(1));
}

#[test]
fn queue_all_search_results_appends() {
    let mut s = session_with_library(&["a"]);
    s.queue_all();
    s.search_results_arrived(vec!["r".to_string()]);
    s.queue_all_search_results();
    assert_eq!(s.playlist, vec!["a", "r"]);
}

#[test]
fn intent_tracks_play_replaces_and_queue_appends() {
    let mut s = session_with_library(&["a"]);
    s.queue_all();
    let (cmd, found) = s.apply_intent_tracks(false, vec!["q".to_string()]);
    assert!(found);
    assert_eq!(cmd, PlayerCommand::Nothing);
    assert_eq!(s.playlist, vec!["a", "q"]);
    let (cmd, found) = s.apply_intent_tracks(true, vec!["p1".to_string(), "p2".to_string()]);
    assert!(found);
    assert_eq!(cmd, PlayerCommand::PlayCurrent);
    assert_eq!(s.playlist, vec!["p1", "p2"]);
    assert_eq!(s.current_index, Some(0));
    let (cmd, found) = s.apply_intent_tracks(true, Vec::new());
    assert!(!found);
    assert_eq!(cmd, PlayerCommand::Nothing);
    assert_eq!(s.playlist.len(), 2);
}

#[test]
fn empty_search_clears_results() {
    let mut s = session_with_library(&["a"]);
    assert!(s.search_query_changed("abc".to_string()));
    s.search_results_arrived(vec!["r".to_string()]);
    assert!(!s.search_query_changed(String::new()));
    assert!(s.search_results.is_empty());
    assert_eq!(s.search_query, "");
}

#[test]
fn artist_toggle_twice_restores() {
    let mut s: Session<String> = Session::new();
    s.toggle_artist_expanded("Queen".to_string());
    assert_eq!(s.expanded_artists, vec!["Queen"]);
    s.toggle_artist_expanded("ABBA".to_string());
    s.toggle_artist_expanded("Queen".to_string());
    assert_eq!(s.expanded_artists, vec!["ABBA"]);
    s.toggle_artist_expanded("ABBA".to_string());
    assert!(s.expanded_artists.is_empty());
}

#[test]
fn close_key_closes_scan_window_first() {
    let mut s: Session<String> = Session::new();
    s.open_settings();
    s.set_scan_modal_open(true);
    assert!(!s.close_settings());
    assert!(!s.scan_modal_open);
    assert!(s.settings_open);
    assert!(s.close_settings());
    assert!(!s.settings_open);
}

#[test]
fn tab_selection_closes_context_menu() {
    let mut s: Session<String> = Session::new();
    s.open_context_menu(TrackSource::Queue, 3);
    assert!(s.context_menu.is_some());
    s.select_tab(Tab::Voice);
    assert_eq!(s.active_tab, Tab::Voice);
    assert!(s.context_menu.is_none());
}

#[test]
fn scan_start_needs_folder() {
    let mut s: Session<String> = Session::new();
    assert_eq!(s.start_scan(None), None);
    assert!(!s.is_scanning);
    s.record_scanned_file("x.mp3".to_string());
    assert_eq!(s.start_scan(Some("/music".to_string())), Some("/music".to_string()));
    assert!(s.is_scanning);
    assert!(s.scan_recent_files.is_empty());
    s.scan_finished();
    assert!(!s.is_scanning);
}

#[test]
fn recent_scanned_files_are_capped() {
    let mut s: Session<String> = Session::new();
    s.record_scanned_file(String::new());
    assert!(s.scan_recent_files.is_empty());
    for i in 0..(RECENT_FILES_CAP + 5) {
        s.record_scanned_file(format!("f{i}"));
    }
    assert_eq!(s.scan_recent_files.len(), RECENT_FILES_CAP);
    assert_eq!(s.scan_recent_files[0], "f5");
    assert_eq!(s.scan_recent_files[RECENT_FILES_CAP - 1], format!("f{}", RECENT_FILES_CAP + 4));
}

#[test]
fn view_mode_and_toggles() {
    let mut s: Session<String> = Session::new();
    s.set_library_view_mode(LibraryViewMode::ArtistTree);
    assert_eq!(s.library_view_mode, LibraryViewMode::ArtistTree);
    s.toggle_shuffle();
    assert!(s.shuffle);
    s.toggle_shuffle();
    assert!(!s.shuffle);
    s.open_context_menu(TrackSource::Library, 1);
    s.close_context_menu();
    assert!(s.context_menu.is_none());
}

#[test]
fn keyboard_shortcuts() {
    assert_eq!(key_command(&Key::Space, false), Some(KeyCommand::TogglePlayPause));
    assert_eq!(key_command(&Key::ArrowRight, false), Some(KeyCommand::SeekBy(5)));
    assert_eq!(key_command(&Key::ArrowLeft, false), Some(KeyCommand::SeekBy(-5)));
    assert_eq!(key_command(&Key::ArrowRight, true), Some(KeyCommand::NextTrack));
    assert_eq!(key_command(&Key::ArrowLeft, true), Some(KeyCommand::PrevTrack));
    assert_eq!(key_command(&Key::ArrowUp, true), Some(KeyCommand::SetVolume(90)));
    assert_eq!(key_command(&Key::ArrowDown, true), Some(KeyCommand::SetVolume(70)));
    assert_eq!(key_command(&Key::ArrowUp, false), Some(KeyCommand::VolumeUp));
    assert_eq!(key_command(&Key::ArrowDown, false), Some(KeyCommand::VolumeDown));
    assert_eq!(key_command(&Key::Character("n".to_string()), false), Some(KeyCommand::NextTrack));
    assert_eq!(key_command(&Key::Character("N".to_string()), true), Some(KeyCommand::NextTrack));
    assert_eq!(key_command(&Key::Character("p".to_string()), false), Some(KeyCommand::PrevTrack));
    assert_eq!(key_command(&Key::Character("P".to_string()), false), Some(KeyCommand::PrevTrack));
    assert_eq!(key_command(&Key::Character("x".to_string()), false), None);
    assert_eq!(key_command(&Key::Escape, false), Some(KeyCommand::CloseSettings));
    assert_eq!(key_command(&Key::Other, true), None);
}

#[test]
fn seek_keys_ignored_while_typing_or_in_settings() {
    let mut s: Session<u32> = Session::new();
    assert!(s.accepts_seek_keys());
    s.open_settings();
    assert!(!s.accepts_seek_keys());
    s.close_settings();
    assert!(s.accepts_seek_keys());
}

#[test]
fn context_menu_entries_by_list() {
    assert_eq!(
        context_menu_items(TrackSource::Library),
        vec![
            MenuItem::Action(TrackAction::PlayNow),
            MenuItem::Action(TrackAction::PlayNext),
            MenuItem::Action(TrackAction::AddToQueue),
        ]
    );
    assert_eq!(context_menu_items(TrackSource::Search), context_menu_items(TrackSource::Library));
    assert_eq!(
        context_menu_items(TrackSource::Queue),
        vec![MenuItem::JumpTo, MenuItem::Action(TrackAction::RemoveFromQueue)]
    );
}

#[test]
fn rows_of_each_list() {
    let mut s = session_with_library(&["a", "b", "c"]);
    s.search_results_arrived(vec!["b".to_string()]);
    s.queue_all();
    assert_eq!(s.track_at(TrackSource::Library, 2).map(|t| t.as_str()), Some("c"));
    assert_eq!(s.track_at(TrackSource::Search, 0).map(|t| t.as_str()), Some("b"));
    assert_eq!(s.track_at(TrackSource::Search, 1), None);
    assert_eq!(s.track_at(TrackSource::Queue, 1).map(|t| t.as_str()), Some("b"));
    assert_eq!(s.track_at(TrackSource::Queue, 3), None);
}

#[test]
fn next_then_prev_returns_to_the_same_track() {
    let mut s = session_with_library(&["a", "b", "c"]);
    s.queue_all();
    s.jump_to_queue_track(1);
    s.next_track(0);
    assert_eq!(s.current_index, Some(2));
    s.prev_track(0);
    assert_eq!(s.current_index, Some(1));
    // repeat all wraps both ways
    s.cycle_repeat();
    assert_eq!(s.repeat, RepeatMode::All);
    s.jump_to_queue_track(2);
    s.next_track(0);
    assert_eq!(s.current_index, Some(0));
    s.prev_track(0);
    assert_eq!(s.current_index, Some(2));
    s.jump_to_queue_track(0);
    s.prev_track(0);
    assert_eq!(s.current_index, Some(2));
    s.next_track(0);
    assert_eq!(s.current_index, Some(0));
}
