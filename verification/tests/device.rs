//! Tests of the playback device state machine and its event log.

use media_core::entry::LibraryEntry;
use media_core::player::PlayerEvent;
use media_core::Player;
use media_core::PlayerError;

fn track(id: i32, name: &str) -> LibraryEntry {
    LibraryEntry::new_spotify(id, name, None, 0)
}

#[test]
fn operations_append_to_one_event_log() {
    let mut player = Player::new();
    assert!(player.play(track(7, "Seven")).is_ok());
    assert!(player.pause().is_ok());
    assert!(player.resume().is_ok());
    assert!(player.seek(12_000).is_ok());
    assert!(player.set_volume(80).is_ok());
    assert!(player.stop().is_ok());

    // One consistent sequence: each operation's emission, in order; seek
    // and set_volume emit nothing.
    let events = player.events();
    assert_eq!(events.len(), 4);
    assert!(matches!(&events[0], PlayerEvent::Playing(e) if e.id == 7));
    assert!(matches!(events[1], PlayerEvent::Paused));
    assert!(matches!(events[2], PlayerEvent::Resumed));
    assert!(matches!(events[3], PlayerEvent::Stopped));
}

#[test]
fn resume_from_idle_fails_with_no_track_loaded() {
    let mut player = Player::new();
    assert_eq!(player.resume(), Err(PlayerError::NoTrackLoaded));
    assert!(player.events().is_empty());
}

#[test]
fn pause_from_idle_fails_with_invalid_state() {
    let mut player = Player::new();
    assert_eq!(player.pause(), Err(PlayerError::InvalidState));
}

#[test]
fn pause_when_paused_is_idempotent_success() {
    let mut player = Player::new();
    assert!(player.play(track(7, "Seven")).is_ok());
    assert!(player.pause().is_ok());
    assert!(player.pause().is_ok());
    assert!(!player.is_playing());
}

#[test]
fn seek_from_idle_fails_and_seek_keeps_pause_state() {
    let mut player = Player::new();
    assert_eq!(player.seek(5_000), Err(PlayerError::NoTrackLoaded));
    assert!(player.play(track(7, "Seven")).is_ok());
    assert!(player.pause().is_ok());
    assert!(player.seek(5_000).is_ok());
    assert!(!player.is_playing());
}

#[test]
fn play_rejects_container_entries() {
    let mut player = Player::new();
    let folder = LibraryEntry::new_folder(1, "A Folder", None, None, 0);
    assert_eq!(player.play(folder), Err(PlayerError::InvalidState));
    assert!(player.state_snapshot().is_none());
    assert!(player.events().is_empty());
}

#[test]
fn stop_returns_to_idle() {
    let mut player = Player::new();
    assert!(player.play(track(7, "Seven")).is_ok());
    let snapshot = player.state_snapshot().expect("a track is loaded");
    assert!(snapshot.is_playing);
    assert_eq!(snapshot.loaded_track.id, 7);
    assert!(player.stop().is_ok());
    assert!(player.state_snapshot().is_none());
    assert!(!player.is_playing());
}

#[test]
fn error_messages_name_the_failure() {
    assert_eq!(PlayerError::NoTrackLoaded.message(), "No track loaded");
    assert_eq!(PlayerError::InvalidState.message(), "Invalid state");
    assert_eq!(PlayerError::DeviceUnavailable.message(), "Device unavailable");
}
