//! End-to-end tests of the store: dispatch, FIFO processing, handlers,
//! and change notifications.

use media_core::catalog::Catalog;
use media_core::entry::LibraryEntry;
use media_core::player::Player;
use media_core::state::State;
use media_core::Action;
use media_core::Progress;

fn test_catalog() -> Catalog {
    // id=0 has children {1, 2, 3}; id=1 has children {5}.
    let entries = vec![
        LibraryEntry::new_folder(0, "Root", Some(-1), None, 0),
        LibraryEntry::new_folder(1, "Stories", Some(0), None, 0),
        LibraryEntry::new_folder(2, "Radio", Some(0), None, 1),
        LibraryEntry::new_folder(3, "Music", Some(0), None, 2),
        LibraryEntry::new_spotify(5, "Track Five", Some(1), 0),
    ];
    Catalog::new(entries)
}

fn track(id: i32, name: &str) -> LibraryEntry {
    LibraryEntry::new_spotify(id, name, Some(1), 0)
}

#[test]
fn play_then_toggle_is_fifo() {
    let mut state = State::new(Player::new(), test_catalog());
    state.dispatch(Action::PlayLibraryEntry(track(5, "Track Five")));
    state.dispatch(Action::TogglePlay(true));
    state.process_all();
    // The toggle observed the completed play: it paused the track.
    assert_eq!(state.is_playing(), false);
    let playing = state.playing_library_entry().expect("track must stay loaded");
    assert_eq!(playing.id, 5);
    assert!(state.messages().is_empty());
    assert_eq!(state.queue_len(), 0);
}

#[test]
fn load_root_resolves_direct_children() {
    let mut state = State::new(Player::new(), test_catalog());
    state.dispatch(Action::LoadLibraryEntry(0));
    let processed = state.process_next();
    assert!(processed);
    let active = state.active_library_entry().expect("root must be found");
    assert_eq!(active.id, 0);
    let children = active.children.expect("a container resolves its children");
    let ids: Vec<i32> = children.iter().map(|c| c.id).collect();
    assert_eq!(ids, vec![1, 2, 3]);
    // Direct children only: no grandchild is pulled in.
    assert!(ids.iter().all(|&id| id != 5));
}

#[test]
fn load_inner_folder_resolves_its_child() {
    let mut state = State::new(Player::new(), test_catalog());
    state.dispatch(Action::LoadLibraryEntry(1));
    state.process_all();
    let active = state.active_library_entry().expect("folder 1 must be found");
    let children = active.children.expect("a container resolves its children");
    let ids: Vec<i32> = children.iter().map(|c| c.id).collect();
    assert_eq!(ids, vec![5]);
}

#[test]
fn load_missing_id_appends_one_message() {
    let mut state = State::new(Player::new(), test_catalog());
    state.dispatch(Action::LoadLibraryEntry(999));
    state.process_all();
    assert!(state.active_library_entry().is_none());
    let messages = state.messages();
    assert_eq!(messages.len(), 1);
    assert!(messages[0].contains("999"));
    assert_eq!(messages[0], "Library entry with id 999 not found");
}

#[test]
fn load_missing_id_keeps_previous_active_entry() {
    let mut state = State::new(Player::new(), test_catalog());
    state.dispatch(Action::LoadLibraryEntry(0));
    state.process_all();
    state.dispatch(Action::LoadLibraryEntry(999));
    state.process_all();
    let active = state.active_library_entry().expect("the hit must survive the miss");
    assert_eq!(active.id, 0);
    assert_eq!(state.messages().len(), 1);
}

#[test]
fn play_pause_resume_roundtrip() {
    let mut state = State::new(Player::new(), test_catalog());
    state.dispatch(Action::PlayLibraryEntry(track(5, "Track Five")));
    state.dispatch(Action::TogglePlay(true));
    state.dispatch(Action::TogglePlay(false));
    state.process_all();
    assert_eq!(state.is_playing(), true);
    let playing = state.playing_library_entry().expect("track must stay loaded");
    assert_eq!(playing.id, 5);
    assert_eq!(playing.name, "Track Five");
    assert!(state.messages().is_empty());
}

#[test]
fn resume_without_play_appends_one_message() {
    let mut state = State::new(Player::new(), test_catalog());
    state.dispatch(Action::TogglePlay(false));
    state.process_all();
    let messages = state.messages();
    assert_eq!(messages.len(), 1);
    assert_eq!(messages[0], "Could not toggle play: No track loaded");
    assert!(state.playing_library_entry().is_none());
    assert_eq!(state.is_playing(), false);
}

#[test]
fn pause_without_play_appends_one_message() {
    let mut state = State::new(Player::new(), test_catalog());
    state.dispatch(Action::TogglePlay(true));
    state.process_all();
    let messages = state.messages();
    assert_eq!(messages.len(), 1);
    assert_eq!(messages[0], "Could not toggle play: Invalid state");
    assert_eq!(state.is_playing(), false);
}

#[test]
fn play_container_fails_with_message() {
    let mut state = State::new(Player::new(), test_catalog());
    let folder = LibraryEntry::new_folder(42, "Some Folder", Some(0), None, 0);
    state.dispatch(Action::PlayLibraryEntry(folder));
    state.process_all();
    let messages = state.messages();
    assert_eq!(messages.len(), 1);
    assert_eq!(messages[0], "Could not play track: Invalid state");
    assert!(state.playing_library_entry().is_none());
    assert_eq!(state.is_playing(), false);
}

#[test]
fn set_progress_writes_the_field() {
    let mut state = State::new(Player::new(), test_catalog());
    assert_eq!(state.progress(), Progress { position: 0, duration: 100_000 });
    state.dispatch(Action::SetProgress(Progress { position: 1_500, duration: 90_000 }));
    state.process_all();
    assert_eq!(state.progress(), Progress { position: 1_500, duration: 90_000 });
}

#[test]
fn subscribers_receive_one_notification_per_action() {
    let mut state = State::new(Player::new(), test_catalog());
    let early = state.subscribe();
    state.dispatch(Action::LoadLibraryEntry(0));
    state.process_all();
    let late = state.subscribe();

    let early_inbox = state.notifications(early);
    assert_eq!(early_inbox.len(), 1);
    assert_eq!(early_inbox[0].changed_fields, vec!["active_library_entry".to_string()]);
    // No replay: the late subscriber missed the broadcast.
    assert_eq!(state.notifications(late).len(), 0);

    state.dispatch(Action::PlayLibraryEntry(track(5, "Track Five")));
    state.process_all();
    let early_inbox = state.notifications(early);
    assert_eq!(early_inbox.len(), 2);
    assert_eq!(
        early_inbox[1].changed_fields,
        vec!["playing_library_entry".to_string(), "is_playing".to_string()]
    );
    let late_inbox = state.notifications(late);
    assert_eq!(late_inbox.len(), 1);
    assert_eq!(
        late_inbox[0].changed_fields,
        vec!["playing_library_entry".to_string(), "is_playing".to_string()]
    );
}

#[test]
fn failed_action_notifies_messages_field() {
    let mut state = State::new(Player::new(), test_catalog());
    let sub = state.subscribe();
    state.dispatch(Action::LoadLibraryEntry(999));
    state.process_all();
    let inbox = state.notifications(sub);
    assert_eq!(inbox.len(), 1);
    assert_eq!(inbox[0].changed_fields, vec!["messages".to_string()]);
}

#[test]
fn processed_actions_extend_the_device_event_log() {
    let mut state = State::new(Player::new(), test_catalog());
    state.dispatch(Action::PlayLibraryEntry(track(5, "Track Five")));
    state.dispatch(Action::TogglePlay(true));
    state.process_all();
    let events = state.player_events();
    assert_eq!(events.len(), 2);
    assert!(matches!(&events[0], media_core::player::PlayerEvent::Playing(e) if e.id == 5));
    assert!(matches!(events[1], media_core::player::PlayerEvent::Paused));
}

#[test]
fn process_next_on_empty_queue_does_nothing() {
    let mut state = State::new(Player::new(), test_catalog());
    assert!(!state.process_next());
    assert!(state.messages().is_empty());
    assert!(state.active_library_entry().is_none());
}
