use palingenesis::ipc::protocol::IpcCommand;
use palingenesis::monitor::watcher::{map_event, CreateKind, EventBuffer, EventKind, WatchEvent};

#[test]
fn test_command_parsing() {
    assert_eq!(IpcCommand::parse("STATUS"), Some(IpcCommand::Status));
    assert_eq!(IpcCommand::parse("status\n"), Some(IpcCommand::Status));
    assert_eq!(IpcCommand::parse("PAUSE"), Some(IpcCommand::Pause));
    assert_eq!(IpcCommand::parse("RESUME"), Some(IpcCommand::Resume));
    assert_eq!(IpcCommand::parse("NEW_SESSION"), Some(IpcCommand::NewSession));
    assert_eq!(IpcCommand::parse("NEW-SESSION"), Some(IpcCommand::NewSession));
    assert_eq!(IpcCommand::parse("RELOAD"), Some(IpcCommand::Reload));
    assert_eq!(IpcCommand::parse("UNKNOWN"), None);
}

#[test]
fn test_map_event_skips_access_events() {
    let path = "/tmp/file.txt".to_string();
    assert!(map_event(EventKind::Access, path).is_none());
}

#[test]
fn test_map_event_creates_expected_variants() {
    let created = map_event(EventKind::Create(CreateKind::File), "/tmp/file.txt".to_string());
    assert!(matches!(created, Some(WatchEvent::FileCreated(_))));

    let modified = map_event(EventKind::Modify, "/tmp/file.txt".to_string());
    assert!(matches!(modified, Some(WatchEvent::FileModified(_))));

    let removed = map_event(EventKind::Remove, "/tmp/file.txt".to_string());
    assert!(matches!(removed, Some(WatchEvent::FileDeleted(_))));
}

#[test]
fn test_buffer_event_tracks_latest_kind() {
    let mut buffer = EventBuffer::new();
    buffer.buffer_event(EventKind::Modify, &vec!["/tmp/file.txt".to_string()]);
    assert_eq!(buffer.len(), 1);
    assert!(matches!(buffer.kind_of("/tmp/file.txt"), Some(EventKind::Modify)));
}

#[test]
fn buffer_keeps_one_entry_per_path_with_latest_kind() {
    let mut buffer = EventBuffer::new();
    let paths = vec!["/a".to_string(), "/b".to_string()];
    buffer.buffer_event(EventKind::Create(CreateKind::File), &paths);
    buffer.buffer_event(EventKind::Remove, &vec!["/a".to_string()]);
    buffer.buffer_event(EventKind::Access, &vec!["/b".to_string()]);
    assert_eq!(buffer.len(), 2);
    assert_eq!(buffer.kind_of("/a"), Some(EventKind::Remove));
    assert_eq!(buffer.kind_of("/b"), Some(EventKind::Create(CreateKind::File)));
    assert_eq!(buffer.kind_of("/c"), None);
    let events = buffer.drain();
    assert_eq!(
        events,
        vec![WatchEvent::FileDeleted("/a".to_string()), WatchEvent::FileCreated("/b".to_string())]
    );
    assert_eq!(buffer.len(), 0);
}

#[test]
fn folder_creation_maps_to_directory_created() {
    assert_eq!(
        map_event(EventKind::Create(CreateKind::Folder), "/d".to_string()),
        Some(WatchEvent::DirectoryCreated("/d".to_string()))
    );
    assert_eq!(map_event(EventKind::Other, "/d".to_string()), None);
}

#[test]
fn unknown_commands_are_none_and_whitespace_is_ignored() {
    assert_eq!(IpcCommand::parse("  pause  "), Some(IpcCommand::Pause));
    assert_eq!(IpcCommand::parse("new session"), None);
    assert_eq!(IpcCommand::parse(""), None);
}
