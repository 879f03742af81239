use palangrotte::daemon::{advance_daemon, start_daemon, DaemonAction, DaemonEvent, DaemonState};
use palangrotte::settings::Settings;

fn fatal(actions: &[DaemonAction], message: &str) {
    let count = actions.len();
    assert!(count >= 3);
    match &actions[count - 3] {
        DaemonAction::Log(logged) => assert_eq!(logged, message),
        other => panic!("expected a log entry, got {:?}", other),
    }
    match &actions[count - 2] {
        DaemonAction::PrintError(printed) => assert_eq!(printed, message),
        other => panic!("expected an error message, got {:?}", other),
    }
    assert!(matches!(actions[count - 1], DaemonAction::Exit));
}

#[test]
fn daemon_starts_by_building_the_watcher() {
    let (state, actions) = start_daemon();
    assert_eq!(state, DaemonState::Init);
    assert_eq!(actions.len(), 1);
    assert!(matches!(actions[0], DaemonAction::CreateWatcher));
}

#[test]
fn watcher_that_cannot_be_built_is_fatal() {
    let settings = Settings::default();
    let event = DaemonEvent::WatcherFailed("inotify limit reached".to_string());
    let (state, actions) = advance_daemon(DaemonState::Init, event, &settings);
    assert_eq!(state, DaemonState::Fatal);
    assert_eq!(actions.len(), 3);
    fatal(&actions, "Failed to create watcher: inotify limit reached");
}

#[test]
fn folder_list_that_cannot_be_read_is_fatal() {
    let settings = Settings::default();
    let (state, actions) =
        advance_daemon(DaemonState::Init, DaemonEvent::WatcherCreated, &settings);
    assert_eq!(state, DaemonState::LoadConfig);
    assert_eq!(actions.len(), 1);
    assert!(matches!(actions[0], DaemonAction::LoadFolders));
    let event = DaemonEvent::FoldersFailed(
        "Failed to decrypt folders file. Incorrect password or corrupted data.".to_string(),
    );
    let (state, actions) = advance_daemon(state, event, &settings);
    assert_eq!(state, DaemonState::Fatal);
    assert_eq!(actions.len(), 3);
    fatal(
        &actions,
        "Failed to read canary folders: Failed to decrypt folders file. Incorrect password or corrupted data.",
    );
}

#[test]
fn two_registered_folders_lead_to_watching() {
    let settings = Settings::default();
    let (state, _) = start_daemon();
    let (state, _) = advance_daemon(state, DaemonEvent::WatcherCreated, &settings);
    let (state, actions) =
        advance_daemon(state, DaemonEvent::FoldersLoaded { count: 2 }, &settings);
    assert_eq!(state, DaemonState::RegisterFolders { remaining: 2, successes: 0 });
    assert_eq!(actions.len(), 1);
    assert!(matches!(actions[0], DaemonAction::RegisterFolders));

    let (state, actions) =
        advance_daemon(state, DaemonEvent::FolderRegistered("/tmp/c1".to_string()), &settings);
    assert_eq!(state, DaemonState::RegisterFolders { remaining: 1, successes: 1 });
    assert_eq!(actions.len(), 1);
    match &actions[0] {
        DaemonAction::Print(message) => {
            assert_eq!(message, "Registered folder for monitoring: /tmp/c1")
        }
        other => panic!("expected a message, got {:?}", other),
    }

    let (state, actions) =
        advance_daemon(state, DaemonEvent::FolderRegistered("/tmp/c2".to_string()), &settings);
    assert_eq!(state, DaemonState::Watching);
    assert_eq!(actions.len(), 2);
    match &actions[0] {
        DaemonAction::Print(message) => {
            assert_eq!(message, "Registered folder for monitoring: /tmp/c2")
        }
        other => panic!("expected a message, got {:?}", other),
    }
    assert!(matches!(actions[1], DaemonAction::Watch));
}

#[test]
fn one_registered_folder_among_failures_is_enough() {
    let settings = Settings::default();
    let mut state = DaemonState::RegisterFolders { remaining: 3, successes: 0 };
    let events = vec![
        DaemonEvent::FolderFailed("Failed to create folder /a: denied".to_string()),
        DaemonEvent::FolderRegistered("/b".to_string()),
        DaemonEvent::FolderFailed("Failed to read directory /c: denied".to_string()),
    ];
    let mut last = Vec::new();
    for event in events {
        let (next, actions) = advance_daemon(state, event, &settings);
        state = next;
        last = actions;
    }
    assert_eq!(state, DaemonState::Watching);
    assert_eq!(last.len(), 2);
    match &last[0] {
        DaemonAction::Log(message) => assert_eq!(message, "Failed to read directory /c: denied"),
        other => panic!("expected a log entry, got {:?}", other),
    }
    assert!(matches!(last[1], DaemonAction::Watch));
}

#[test]
fn every_folder_failing_is_fatal() {
    let settings = Settings::default();
    let (state, _) =
        advance_daemon(DaemonState::LoadConfig, DaemonEvent::FoldersLoaded { count: 2 }, &settings);
    let (state, actions) = advance_daemon(
        state,
        DaemonEvent::FolderFailed("Failed to create folder /a: denied".to_string()),
        &settings,
    );
    assert_eq!(state, DaemonState::RegisterFolders { remaining: 1, successes: 0 });
    assert_eq!(actions.len(), 1);
    let (state, actions) = advance_daemon(
        state,
        DaemonEvent::FolderFailed("Failed to create folder /b: denied".to_string()),
        &settings,
    );
    assert_eq!(state, DaemonState::Fatal);
    assert_eq!(actions.len(), 4);
    match &actions[0] {
        DaemonAction::Log(message) => assert_eq!(message, "Failed to create folder /b: denied"),
        other => panic!("expected a log entry, got {:?}", other),
    }
    fatal(&actions, "No canary folders could be registered. Exiting.");
    for action in &actions {
        assert!(!matches!(action, DaemonAction::Watch));
    }
}

#[test]
fn list_without_folders_is_fatal() {
    let settings = Settings::default();
    let (state, actions) =
        advance_daemon(DaemonState::LoadConfig, DaemonEvent::FoldersLoaded { count: 0 }, &settings);
    assert_eq!(state, DaemonState::Fatal);
    assert_eq!(actions.len(), 4);
    match &actions[0] {
        DaemonAction::Log(message) => assert_eq!(message, "folders.enc is empty."),
        other => panic!("expected a log entry, got {:?}", other),
    }
    fatal(&actions, "No canary folders could be registered. Exiting.");
}

#[test]
fn watching_and_fatal_are_final() {
    let settings = Settings::default();
    for state in [DaemonState::Watching, DaemonState::Fatal] {
        let (next, actions) =
            advance_daemon(state, DaemonEvent::FolderRegistered("/a".to_string()), &settings);
        assert_eq!(next, state);
        assert!(actions.is_empty());
        let (next, actions) = advance_daemon(state, DaemonEvent::WatcherCreated, &settings);
        assert_eq!(next, state);
        assert!(actions.is_empty());
    }
}

#[test]
fn daemon_report_that_is_not_waited_for_changes_nothing() {
    let settings = Settings::default();
    let (state, actions) =
        advance_daemon(DaemonState::Init, DaemonEvent::FoldersLoaded { count: 3 }, &settings);
    assert_eq!(state, DaemonState::Init);
    assert!(actions.is_empty());
    let (state, actions) =
        advance_daemon(DaemonState::LoadConfig, DaemonEvent::WatcherCreated, &settings);
    assert_eq!(state, DaemonState::LoadConfig);
    assert!(actions.is_empty());
}
