use palangrotte::response::{
    continue_response, handle_event, modification_detection, notify_service, notify_sessions,
    shutdown_system, DetectionEvent, EventKind, ResponseAction, ResponseState, StepOutcome,
};
use palangrotte::settings::Settings;

fn event(kind: EventKind, paths: &[&str]) -> DetectionEvent {
    DetectionEvent { affected_paths: paths.iter().map(|p| p.to_string()).collect(), kind }
}

fn logs(actions: &[ResponseAction]) -> Vec<String> {
    let mut found = Vec::new();
    for action in actions {
        if let ResponseAction::Log(message) = action {
            found.push(message.clone());
        }
    }
    found
}

#[test]
fn access_never_sets_a_response_off() {
    assert!(handle_event(event(EventKind::Access, &["/tmp/c3/a.txt"])).is_empty());
    assert!(handle_event(event(EventKind::Access, &["/a", "/b", "/c"])).is_empty());
    assert!(handle_event(event(EventKind::Access, &[])).is_empty());
}

#[test]
fn every_other_kind_sets_one_response_off_for_each_path() {
    for kind in
        [EventKind::Any, EventKind::Create, EventKind::Modify, EventKind::Remove, EventKind::Other]
    {
        assert_eq!(handle_event(event(kind, &["/tmp/c3/a.txt"])), vec!["/tmp/c3/a.txt"]);
        assert_eq!(handle_event(event(kind, &["/a", "/b"])), vec!["/a", "/b"]);
        assert!(handle_event(event(kind, &[])).is_empty());
    }
}

#[test]
fn paths_are_not_merged() {
    let paths = handle_event(event(EventKind::Modify, &["/a", "/a", "/b", "/a"]));
    assert_eq!(paths, vec!["/a", "/a", "/b", "/a"]);
}

#[test]
fn burst_of_events_on_one_path_sets_off_as_many_responses() {
    let mut responses = 0;
    for _ in 0..5 {
        responses += handle_event(event(EventKind::Modify, &["/tmp/c3/a.txt"])).len();
    }
    assert_eq!(responses, 5);
}

#[test]
fn response_begins_with_log_and_remote_alert() {
    let settings = Settings::default();
    let (state, actions) = modification_detection("/tmp/c3/a.txt", &settings);
    assert_eq!(state, ResponseState::NotifyingService);
    assert_eq!(actions.len(), 3);
    match &actions[0] {
        ResponseAction::Print(message) => {
            assert_eq!(message, "Modification detected in folder or file: /tmp/c3/a.txt")
        }
        other => panic!("expected a print, got {:?}", other),
    }
    assert_eq!(
        logs(&actions),
        vec!["Modification detected in folder or file: /tmp/c3/a.txt".to_string()]
    );
    match &actions[2] {
        ResponseAction::NotifyService { url, file } => {
            assert_eq!(url, "https://jerome.bousquie.fr/palangrotte/index.php");
            assert_eq!(file, "/tmp/c3/a.txt");
        }
        other => panic!("expected the remote alert, got {:?}", other),
    }
}

#[test]
fn remote_outcome_is_logged() {
    assert_eq!(
        notify_service(&StepOutcome::Succeeded, "/d/a"),
        "Successfully sent notification for file: /d/a"
    );
    assert_eq!(
        notify_service(&StepOutcome::Refused("500 Internal Server Error".to_string()), "/d/a"),
        "Failed to send notification for file: /d/a. Status: 500 Internal Server Error"
    );
    assert_eq!(
        notify_service(&StepOutcome::Failed("connection refused".to_string()), "/d/a"),
        "Failed to send notification for file: /d/a. Error: connection refused"
    );
}

#[test]
fn local_outcome_is_logged() {
    assert_eq!(notify_sessions(&StepOutcome::Succeeded), "Successfully notified user sessions.");
    assert_eq!(
        notify_sessions(&StepOutcome::Refused("exit status: 1".to_string())),
        "Failed to notify user sessions. Exit code: exit status: 1"
    );
    assert_eq!(
        notify_sessions(&StepOutcome::Failed("No such file or directory".to_string())),
        "Error executing embedded notify script: No such file or directory"
    );
}

#[test]
fn remote_alert_is_followed_by_local_notification_however_it_went() {
    let settings = Settings::default();
    let outcomes = vec![
        StepOutcome::Succeeded,
        StepOutcome::Refused("404 Not Found".to_string()),
        StepOutcome::Failed("timed out".to_string()),
    ];
    for outcome in outcomes {
        let (state, actions) =
            continue_response(ResponseState::NotifyingService, &outcome, "/d/a", &settings);
        assert_eq!(state, ResponseState::NotifyingSessions);
        assert_eq!(actions.len(), 2);
        assert_eq!(logs(&actions), vec![notify_service(&outcome, "/d/a")]);
        match &actions[1] {
            ResponseAction::NotifySessions { title, message } => {
                assert_eq!(title, "Security Alert");
                assert_eq!(
                    message,
                    "A canary file has been modified. The system is shutting down."
                );
            }
            other => panic!("expected the local notification, got {:?}", other),
        }
    }
}

#[test]
fn local_notification_is_followed_by_forced_shutdown_however_it_went() {
    let settings = Settings::default();
    let outcomes = vec![
        StepOutcome::Succeeded,
        StepOutcome::Refused("exit status: 2".to_string()),
        StepOutcome::Failed("no shell".to_string()),
    ];
    for outcome in outcomes {
        let (state, actions) =
            continue_response(ResponseState::NotifyingSessions, &outcome, "/d/a", &settings);
        assert_eq!(state, ResponseState::ForcingShutdown);
        assert_eq!(actions.len(), 3);
        assert_eq!(
            logs(&actions),
            vec![notify_sessions(&outcome), "Attempting to force system shutdown...".to_string()]
        );
        assert!(matches!(actions[2], ResponseAction::ForceShutdown));
    }
}

#[test]
fn forced_shutdown_that_succeeds_ends_the_response() {
    let (state, actions) = shutdown_system(ResponseState::ForcingShutdown, &StepOutcome::Succeeded);
    assert_eq!(state, ResponseState::Done);
    assert_eq!(actions.len(), 1);
    assert_eq!(
        logs(&actions),
        vec!["Forced system shutdown command executed successfully.".to_string()]
    );
}

#[test]
fn forced_shutdown_that_fails_falls_back_to_an_orderly_one() {
    let outcomes =
        vec![StepOutcome::Failed("denied".to_string()), StepOutcome::Refused("denied".to_string())];
    for outcome in outcomes {
        let (state, actions) = shutdown_system(ResponseState::ForcingShutdown, &outcome);
        assert_eq!(state, ResponseState::ShuttingDown);
        assert_eq!(actions.len(), 2);
        assert_eq!(
            logs(&actions),
            vec!["Forced shutdown failed: denied. Attempting graceful shutdown...".to_string()]
        );
        assert!(matches!(actions[1], ResponseAction::Shutdown));
    }
}

#[test]
fn orderly_shutdown_is_the_last_step() {
    let (state, actions) = shutdown_system(ResponseState::ShuttingDown, &StepOutcome::Succeeded);
    assert_eq!(state, ResponseState::Done);
    assert_eq!(
        logs(&actions),
        vec!["Graceful system shutdown command executed successfully.".to_string()]
    );
    let (state, actions) =
        shutdown_system(ResponseState::ShuttingDown, &StepOutcome::Failed("denied".to_string()));
    assert_eq!(state, ResponseState::Done);
    assert_eq!(actions.len(), 1);
    assert_eq!(logs(&actions), vec!["Graceful shutdown also failed: denied".to_string()]);
}

#[test]
fn shutdown_step_leaves_other_states_alone() {
    for state in
        [ResponseState::NotifyingService, ResponseState::NotifyingSessions, ResponseState::Done]
    {
        let (next, actions) = shutdown_system(state, &StepOutcome::Succeeded);
        assert_eq!(next, state);
        assert!(actions.is_empty());
    }
}

#[test]
fn finished_response_asks_for_nothing() {
    let settings = Settings::default();
    let (state, actions) =
        continue_response(ResponseState::Done, &StepOutcome::Succeeded, "/d/a", &settings);
    assert_eq!(state, ResponseState::Done);
    assert!(actions.is_empty());
}

#[test]
fn response_runs_all_four_steps_when_everything_fails() {
    let settings = Settings::default();
    let (mut state, mut actions) = modification_detection("/d/a", &settings);
    let mut asked = Vec::new();
    let mut steps = 0;
    while state != ResponseState::Done {
        for action in &actions {
            match action {
                ResponseAction::NotifyService { .. } => asked.push("remote"),
                ResponseAction::NotifySessions { .. } => asked.push("local"),
                ResponseAction::ForceShutdown => asked.push("force"),
                ResponseAction::Shutdown => asked.push("shutdown"),
                _ => {}
            }
        }
        let (next, following) =
            continue_response(state, &StepOutcome::Failed("x".to_string()), "/d/a", &settings);
        state = next;
        actions = following;
        steps += 1;
        assert!(steps <= 4);
    }
    assert_eq!(asked, vec!["remote", "local", "force", "shutdown"]);
    assert_eq!(logs(&actions), vec!["Graceful shutdown also failed: x".to_string()]);
}
