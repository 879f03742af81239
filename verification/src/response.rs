//! From a filesystem event to the response: which events count, and the
//! escalation that each affected path sets off.
//!
//! The escalation is a sequence of four steps: log, alert the remote service,
//! notify the local sessions, shut the host down. Sending, notifying and
//! shutting down are the driver's work; after each the driver reports how it
//! went and the functions here say what is logged and what comes next. No
//! failure stops the sequence.

use crate::settings::{Settings, SettingsView};
use crate::text::{join3, join4};
use vstd::prelude::*;

verus! {

/// What kind of change an event reports.
#[derive(Clone, Copy, Debug, PartialEq, Eq, Structural)]
pub enum EventKind {
    /// Something happened, no more is known.
    Any,
    /// A file was opened, read or closed, and not changed.
    Access,
    /// A file or folder was created.
    Create,
    /// A file or folder was changed or renamed.
    Modify,
    /// A file or folder was removed.
    Remove,
    /// An event of another kind.
    Other,
}

/// An event from the watcher: the paths it is about and its kind.
#[derive(Debug)]
pub struct DetectionEvent {
    pub affected_paths: Vec<String>,
    pub kind: EventKind,
}

/// The paths that an event of this kind sets a response off for: none for an
/// access, and else every path of the event, in their order and as often as
/// the event holds it.
pub open spec fn routed_paths(kind: EventKind, affected_paths: Seq<Seq<char>>) -> Seq<Seq<char>> {
    if kind is Access {
        Seq::empty()
    } else {
        affected_paths
    }
}

/// Handles a file system event.
///
/// An event that only reports access is dropped. For any other event, each of
/// its paths is handed back, and the caller starts one response for each.
pub fn handle_event(event: DetectionEvent) -> (paths: Vec<String>)
    ensures
        paths.deep_view() == routed_paths(event.kind, event.affected_paths.deep_view()),
{
    match event.kind {
        EventKind::Access => {
            let paths: Vec<String> = Vec::new();
            paths
        },
        _ => event.affected_paths,
    }
}

/// How one step of the response went.
#[derive(Debug)]
pub enum StepOutcome {
    /// The step was carried out.
    Succeeded,
    /// The other side answered, and the answer was no: the status that the
    /// service returned, or that the notifying command exited with.
    Refused(String),
    /// The step could not be carried out, for the reason given.
    Failed(String),
}

/// A `StepOutcome` with its text as a sequence of characters.
pub enum StepOutcomeView {
    Succeeded,
    Refused(Seq<char>),
    Failed(Seq<char>),
}

impl View for StepOutcome {
    type V = StepOutcomeView;

    open spec fn view(&self) -> StepOutcomeView {
        match self {
            StepOutcome::Succeeded => StepOutcomeView::Succeeded,
            StepOutcome::Refused(status) => StepOutcomeView::Refused(status@),
            StepOutcome::Failed(error) => StepOutcomeView::Failed(error@),
        }
    }
}

/// Which answer a response is waiting for.
#[derive(Clone, Copy, Debug, PartialEq, Eq, Structural)]
pub enum ResponseState {
    /// The remote service was sent the alert.
    NotifyingService,
    /// The local sessions were sent the notification.
    NotifyingSessions,
    /// An immediate shutdown was asked for.
    ForcingShutdown,
    /// An orderly shutdown was asked for, the immediate one having failed.
    ShuttingDown,
    /// Nothing is left to do.
    Done,
}

/// What the driver is asked to do, in the order given.
#[derive(Debug)]
pub enum ResponseAction {
    /// Print the message to the console.
    Print(String),
    /// Append the message to the log.
    Log(String),
    /// Post the path to the alerting service, once; report how it went.
    NotifyService { url: String, file: String },
    /// Show title and message to every active session; report how it went.
    NotifySessions { title: String, message: String },
    /// Ask for an immediate shutdown; report how it went.
    ForceShutdown,
    /// Ask for an orderly shutdown; report how it went.
    Shutdown,
}

/// A `ResponseAction` with its texts as sequences of characters.
pub enum ResponseActionView {
    Print(Seq<char>),
    Log(Seq<char>),
    NotifyService { url: Seq<char>, file: Seq<char> },
    NotifySessions { title: Seq<char>, message: Seq<char> },
    ForceShutdown,
    Shutdown,
}

impl View for ResponseAction {
    type V = ResponseActionView;

    open spec fn view(&self) -> ResponseActionView {
        match self {
            ResponseAction::Print(message) => ResponseActionView::Print(message@),
            ResponseAction::Log(message) => ResponseActionView::Log(message@),
            ResponseAction::NotifyService { url, file } => ResponseActionView::NotifyService {
                url: url@,
                file: file@,
            },
            ResponseAction::NotifySessions { title, message } => {
                ResponseActionView::NotifySessions { title: title@, message: message@ }
            },
            ResponseAction::ForceShutdown => ResponseActionView::ForceShutdown,
            ResponseAction::Shutdown => ResponseActionView::Shutdown,
        }
    }
}

impl DeepView for ResponseAction {
    type V = ResponseActionView;

    open spec fn deep_view(&self) -> ResponseActionView {
        self@
    }
}

/// The message that records a detection.
pub open spec fn detection_message(path: Seq<char>) -> Seq<char> {
    "Modification detected in folder or file: "@ + path
}

/// The log message for the outcome of the remote alert.
pub open spec fn service_message(outcome: StepOutcomeView, file: Seq<char>) -> Seq<char> {
    match outcome {
        StepOutcomeView::Succeeded => "Successfully sent notification for file: "@ + file,
        StepOutcomeView::Refused(status) => "Failed to send notification for file: "@ + file
            + ". Status: "@ + status,
        StepOutcomeView::Failed(error) => "Failed to send notification for file: "@ + file
            + ". Error: "@ + error,
    }
}

/// The log message for the outcome of the local notification.
pub open spec fn sessions_message(outcome: StepOutcomeView) -> Seq<char> {
    match outcome {
        StepOutcomeView::Succeeded => "Successfully notified user sessions."@,
        StepOutcomeView::Refused(status) => "Failed to notify user sessions. Exit code: "@ + status,
        StepOutcomeView::Failed(error) => "Error executing embedded notify script: "@ + error,
    }
}

/// The log message that precedes the first shutdown request.
pub open spec fn forcing_message() -> Seq<char> {
    "Attempting to force system shutdown..."@
}

/// The log message for an immediate shutdown that failed.
pub open spec fn forced_failed_message(error: Seq<char>) -> Seq<char> {
    "Forced shutdown failed: "@ + error + ". Attempting graceful shutdown..."@
}

/// The log message for an orderly shutdown that failed as well.
pub open spec fn graceful_failed_message(error: Seq<char>) -> Seq<char> {
    "Graceful shutdown also failed: "@ + error
}

/// How a response begins: the detection is printed and logged, and the remote
/// service is alerted.
pub open spec fn response_start(path: Seq<char>, settings: SettingsView) -> (
    ResponseState,
    Seq<ResponseActionView>,
) {
    (
        ResponseState::NotifyingService,
        seq![
            ResponseActionView::Print(detection_message(path)),
            ResponseActionView::Log(detection_message(path)),
            ResponseActionView::NotifyService { url: settings.service_url, file: path },
        ],
    )
}

/// What the two shutdown steps make of a report. An immediate shutdown that
/// fails is followed by an orderly one; after that nothing is left to try.
pub open spec fn shutdown_step(state: ResponseState, outcome: StepOutcomeView) -> (
    ResponseState,
    Seq<ResponseActionView>,
) {
    match (state, outcome) {
        (ResponseState::ForcingShutdown, StepOutcomeView::Succeeded) => (
            ResponseState::Done,
            seq![
                ResponseActionView::Log("Forced system shutdown command executed successfully."@),
            ],
        ),
        (ResponseState::ForcingShutdown, StepOutcomeView::Refused(error)) => (
            ResponseState::ShuttingDown,
            seq![
                ResponseActionView::Log(forced_failed_message(error)),
                ResponseActionView::Shutdown,
            ],
        ),
        (ResponseState::ForcingShutdown, StepOutcomeView::Failed(error)) => (
            ResponseState::ShuttingDown,
            seq![
                ResponseActionView::Log(forced_failed_message(error)),
                ResponseActionView::Shutdown,
            ],
        ),
        (ResponseState::ShuttingDown, StepOutcomeView::Succeeded) => (
            ResponseState::Done,
            seq![
                ResponseActionView::Log("Graceful system shutdown command executed successfully."@),
            ],
        ),
        (ResponseState::ShuttingDown, StepOutcomeView::Refused(error)) => (
            ResponseState::Done,
            seq![ResponseActionView::Log(graceful_failed_message(error))],
        ),
        (ResponseState::ShuttingDown, StepOutcomeView::Failed(error)) => (
            ResponseState::Done,
            seq![ResponseActionView::Log(graceful_failed_message(error))],
        ),
        _ => (state, Seq::empty()),
    }
}

/// What a report makes of a response for `path`: the state it comes to and
/// what is to be done next. Whatever the report, the response goes on to the
/// next step; only a shutdown that succeeds, or two that fail, end it.
pub open spec fn response_step(
    state: ResponseState,
    outcome: StepOutcomeView,
    path: Seq<char>,
    settings: SettingsView,
) -> (ResponseState, Seq<ResponseActionView>) {
    match state {
        ResponseState::NotifyingService => (
            ResponseState::NotifyingSessions,
            seq![
                ResponseActionView::Log(service_message(outcome, path)),
                ResponseActionView::NotifySessions {
                    title: settings.notification_title,
                    message: settings.notification_message,
                },
            ],
        ),
        ResponseState::NotifyingSessions => (
            ResponseState::ForcingShutdown,
            seq![
                ResponseActionView::Log(sessions_message(outcome)),
                ResponseActionView::Log(forcing_message()),
                ResponseActionView::ForceShutdown,
            ],
        ),
        ResponseState::ForcingShutdown => shutdown_step(state, outcome),
        ResponseState::ShuttingDown => shutdown_step(state, outcome),
        ResponseState::Done => (ResponseState::Done, Seq::empty()),
    }
}

/// No report stops a response early: the remote alert is followed by the
/// local notification and that by the immediate shutdown, however each went.
/// An orderly shutdown is asked for exactly where the immediate one did not
/// succeed, and after it nothing more is tried.
pub proof fn lemma_response_order(
    state: ResponseState,
    outcome: StepOutcomeView,
    path: Seq<char>,
    settings: SettingsView,
)
    ensures
        state is NotifyingService ==> response_step(state, outcome, path, settings).0
            == ResponseState::NotifyingSessions,
        state is NotifyingSessions ==> response_step(state, outcome, path, settings).0
            == ResponseState::ForcingShutdown,
        state is ForcingShutdown && outcome is Succeeded ==> response_step(
            state,
            outcome,
            path,
            settings,
        ).0 == ResponseState::Done,
        state is ForcingShutdown && !(outcome is Succeeded) ==> response_step(
            state,
            outcome,
            path,
            settings,
        ).0 == ResponseState::ShuttingDown,
        state is ShuttingDown ==> response_step(state, outcome, path, settings).0
            == ResponseState::Done,
        state is Done ==> response_step(state, outcome, path, settings) == (
            ResponseState::Done,
            Seq::<ResponseActionView>::empty(),
        ),
        response_step(state, outcome, path, settings).1.contains(ResponseActionView::Shutdown)
            <==> state is ForcingShutdown && !(outcome is Succeeded),
{
}

/// Called when a modification is detected in a monitored folder: begins the
/// response for the path.
pub fn modification_detection(foldername: &str, settings: &Settings) -> (res: (
    ResponseState,
    Vec<ResponseAction>,
))
    ensures
        (res.0, res.1.deep_view()) == response_start(foldername@, settings@),
{
    let mut actions: Vec<ResponseAction> = Vec::new();
    let message = detection_text(foldername);
    actions.push(ResponseAction::Print(message.clone()));
    actions.push(ResponseAction::Log(message));
    actions.push(
        ResponseAction::NotifyService {
            url: settings.service_url.clone(),
            file: foldername.to_owned(),
        },
    );
    (ResponseState::NotifyingService, actions)
}

/// The message that records a detection.
fn detection_text(path: &str) -> (message: String)
    ensures
        message@ == detection_message(path@),
{
    let mut message = "Modification detected in folder or file: ".to_owned();
    message.append(path);
    message
}

/// The log message for the outcome of the alert sent to the remote service.
pub fn notify_service(outcome: &StepOutcome, file_name: &str) -> (message: String)
    ensures
        message@ == service_message(outcome@, file_name@),
{
    match outcome {
        StepOutcome::Succeeded => {
            let mut message = "Successfully sent notification for file: ".to_owned();
            message.append(file_name);
            message
        },
        StepOutcome::Refused(status) => join4(
            "Failed to send notification for file: ",
            file_name,
            ". Status: ",
            status.as_str(),
        ),
        StepOutcome::Failed(error) => join4(
            "Failed to send notification for file: ",
            file_name,
            ". Error: ",
            error.as_str(),
        ),
    }
}

/// The log message for the outcome of the notification of the local sessions.
pub fn notify_sessions(outcome: &StepOutcome) -> (message: String)
    ensures
        message@ == sessions_message(outcome@),
{
    match outcome {
        StepOutcome::Succeeded => "Successfully notified user sessions.".to_owned(),
        StepOutcome::Refused(status) => {
            let mut message = "Failed to notify user sessions. Exit code: ".to_owned();
            message.append(status.as_str());
            message
        },
        StepOutcome::Failed(error) => {
            let mut message = "Error executing embedded notify script: ".to_owned();
            message.append(error.as_str());
            message
        },
    }
}

/// Shuts down the system: what follows each of the two shutdown requests.
pub fn shutdown_system(state: ResponseState, outcome: &StepOutcome) -> (res: (
    ResponseState,
    Vec<ResponseAction>,
))
    ensures
        (res.0, res.1.deep_view()) == shutdown_step(state, outcome@),
{
    let mut actions: Vec<ResponseAction> = Vec::new();
    match state {
        ResponseState::ForcingShutdown => match outcome {
            StepOutcome::Succeeded => {
                actions.push(
                    ResponseAction::Log(
                        "Forced system shutdown command executed successfully.".to_owned(),
                    ),
                );
                (ResponseState::Done, actions)
            },
            StepOutcome::Refused(error) | StepOutcome::Failed(error) => {
                actions.push(
                    ResponseAction::Log(
                        join3(
                            "Forced shutdown failed: ",
                            error.as_str(),
                            ". Attempting graceful shutdown...",
                        ),
                    ),
                );
                actions.push(ResponseAction::Shutdown);
                (ResponseState::ShuttingDown, actions)
            },
        },
        ResponseState::ShuttingDown => match outcome {
            StepOutcome::Succeeded => {
                actions.push(
                    ResponseAction::Log(
                        "Graceful system shutdown command executed successfully.".to_owned(),
                    ),
                );
                (ResponseState::Done, actions)
            },
            StepOutcome::Refused(error) | StepOutcome::Failed(error) => {
                let mut message = "Graceful shutdown also failed: ".to_owned();
                message.append(error.as_str());
                actions.push(ResponseAction::Log(message));
                (ResponseState::Done, actions)
            },
        },
        _ => (state, actions),
    }
}

/// Takes the response for `foldername` one report further.
pub fn continue_response(
    state: ResponseState,
    outcome: &StepOutcome,
    foldername: &str,
    settings: &Settings,
) -> (res: (ResponseState, Vec<ResponseAction>))
    ensures
        (res.0, res.1.deep_view()) == response_step(state, outcome@, foldername@, settings@),
{
    let mut actions: Vec<ResponseAction> = Vec::new();
    match state {
        ResponseState::NotifyingService => {
            actions.push(ResponseAction::Log(notify_service(outcome, foldername)));
            actions.push(
                ResponseAction::NotifySessions {
                    title: settings.notification_title.clone(),
                    message: settings.notification_message.clone(),
                },
            );
            (ResponseState::NotifyingSessions, actions)
        },
        ResponseState::NotifyingSessions => {
            actions.push(ResponseAction::Log(notify_sessions(outcome)));
            actions.push(ResponseAction::Log("Attempting to force system shutdown...".to_owned()));
            actions.push(ResponseAction::ForceShutdown);
            (ResponseState::ForcingShutdown, actions)
        },
        ResponseState::ForcingShutdown => shutdown_system(state, outcome),
        ResponseState::ShuttingDown => shutdown_system(state, outcome),
        ResponseState::Done => (ResponseState::Done, actions),
    }
}

} // verus!
