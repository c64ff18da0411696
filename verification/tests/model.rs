//! Tests of the data model, the built-in catalog, the controller, and the
//! decimal text rendering behind the message log.

use media_core::catalog::get_library_entry;
use media_core::catalog::Catalog;
use media_core::entry::LibraryEntry;
use media_core::text::i32_to_string;
use media_core::text::i64_to_string;
use media_core::ContentController;
use media_core::FieldName;
use media_core::Player;
use media_core::Progress;
use media_core::State;
use media_core::StateChange;
use media_core::Variant;

#[test]
fn demo_catalog_root_lists_its_direct_children() {
    let root = get_library_entry(0).expect("the root exists");
    assert_eq!(root.id, 0);
    assert_eq!(root.name, "Root");
    assert!(matches!(root.variant, Variant::Folder));
    let ids: Vec<i32> = root.children.expect("resolved").iter().map(|c| c.id).collect();
    assert_eq!(ids, vec![1, 2, 3, 13, 14, 15, 16, 17, 18]);
}

#[test]
fn demo_catalog_misses_unknown_ids() {
    assert!(get_library_entry(999).is_none());
    assert!(get_library_entry(-7).is_none());
}

#[test]
fn demo_catalog_returns_playable_entries_as_stored() {
    let entry = get_library_entry(7).expect("track 7 exists");
    assert!(matches!(entry.variant, Variant::Spotify));
    assert!(entry.children.is_none());
    let source = entry.track_source.expect("a playable entry carries its source");
    assert_eq!(source.spotify_id.as_deref(), Some("some_id"));
    assert_eq!(source.spotify_type.as_deref(), Some("track"));
    assert_eq!(source.title, "Spotify Track 1");
}

#[test]
fn folder_constructor_builds_a_container() {
    let folder = LibraryEntry::new_folder(3, "Music", Some(0), Some(vec![1, 2, 3]), 2);
    assert!(matches!(folder.variant, Variant::Folder));
    assert_eq!(folder.children.as_ref().map(|c| c.len()), Some(0));
    assert!(folder.track_source.is_none());
    assert_eq!(folder.image.as_deref(), Some(&[1u8, 2, 3][..]));
    assert_eq!(folder.sort_key, 2);
}

#[test]
fn entry_clone_copies_children_and_image() {
    let original = get_library_entry(0).expect("the root exists");
    let copy = original.clone();
    assert_eq!(copy.id, original.id);
    assert_eq!(copy.name, original.name);
    let original_ids: Vec<i32> =
        original.children.as_ref().unwrap().iter().map(|c| c.id).collect();
    let copy_ids: Vec<i32> = copy.children.as_ref().unwrap().iter().map(|c| c.id).collect();
    assert_eq!(copy_ids, original_ids);
}

#[test]
fn decimal_rendering_is_exact() {
    assert_eq!(i32_to_string(0), "0");
    assert_eq!(i32_to_string(7), "7");
    assert_eq!(i32_to_string(999), "999");
    assert_eq!(i32_to_string(-42), "-42");
    assert_eq!(i32_to_string(i32::MIN), "-2147483648");
    assert_eq!(i32_to_string(i32::MAX), "2147483647");
    assert_eq!(i64_to_string(i64::MIN), "-9223372036854775808");
    assert_eq!(i64_to_string(1_000_000), "1000000");
}

#[test]
fn progress_default_is_zero_over_full_length() {
    let p = Progress::default();
    assert_eq!(p.position, 0);
    assert_eq!(p.duration, 100_000);
}

#[test]
fn state_change_keeps_names_in_order() {
    let change = StateChange::new(vec!["messages", "is_playing"]);
    assert_eq!(change.changed_fields, vec!["messages".to_string(), "is_playing".to_string()]);
    let copy = change.clone();
    assert_eq!(copy.changed_fields, change.changed_fields);
}

#[test]
fn field_names_match_the_state_slots() {
    assert_eq!(FieldName::Messages.name(), "messages");
    assert_eq!(FieldName::ActiveLibraryEntry.name(), "active_library_entry");
    assert_eq!(FieldName::PlayingLibraryEntry.name(), "playing_library_entry");
    assert_eq!(FieldName::IsPlaying.name(), "is_playing");
    assert_eq!(FieldName::Progress.name(), "progress");
}

#[test]
fn controller_subscribes_and_loads_the_root() {
    let entries = vec![
        LibraryEntry::new_folder(0, "Root", Some(-1), None, 0),
        LibraryEntry::new_folder(1, "Stories", Some(0), None, 0),
    ];
    let state = State::new(Player::new(), Catalog::new(entries));
    let mut controller = ContentController::new(state);
    assert_eq!(controller.subscription, 0);
    controller.init();
    controller.state.process_all();
    let active = controller.state.active_library_entry().expect("the root loads");
    assert_eq!(active.id, 0);
    // The controller's own subscription saw the change.
    let inbox = controller.state.notifications(controller.subscription);
    assert_eq!(inbox.len(), 1);
    assert_eq!(inbox[0].changed_fields, vec!["active_library_entry".to_string()]);
}

#[test]
fn controller_select_loads_the_chosen_entry() {
    let entries = vec![
        LibraryEntry::new_folder(0, "Root", Some(-1), None, 0),
        LibraryEntry::new_folder(4, "Party", Some(0), None, 0),
    ];
    let state = State::new(Player::new(), Catalog::new(entries));
    let mut controller = ContentController::new(state);
    controller.on_select(4);
    controller.state.process_all();
    let active = controller.state.active_library_entry().expect("folder 4 loads");
    assert_eq!(active.id, 4);
}
