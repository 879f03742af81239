//! The daemon's way from start to the watch loop, one decision at a time.
//!
//! The daemon builds the watcher, loads the list of folders, registers each
//! folder, and then watches. It never starts watching without at least one
//! folder registered. Building, loading and registering are the driver's
//! work; the functions here say what each outcome leads to.

use crate::settings::{Settings, SettingsView};
use vstd::prelude::*;

verus! {

/// Where the daemon stands.
#[derive(Clone, Copy, Debug, PartialEq, Eq, Structural)]
pub enum DaemonState {
    /// Started; the watcher is being built.
    Init,
    /// The list of folders is being loaded.
    LoadConfig,
    /// The folders are being registered: `remaining` are still to be
    /// reported, `successes` have been registered so far.
    RegisterFolders { remaining: usize, successes: usize },
    /// The daemon answers events.
    Watching,
    /// The daemon gave up before it ever watched.
    Fatal,
}

/// What the driver reports back.
#[derive(Debug)]
pub enum DaemonEvent {
    /// The watcher was built.
    WatcherCreated,
    /// The watcher could not be built.
    WatcherFailed(String),
    /// The list of folders was read and holds this many folders.
    FoldersLoaded { count: usize },
    /// The list of folders could not be read.
    FoldersFailed(String),
    /// The folder was registered.
    FolderRegistered(String),
    /// The folder could not be registered, for the reason given.
    FolderFailed(String),
}

/// A `DaemonEvent` with its texts as sequences of characters.
pub enum DaemonEventView {
    WatcherCreated,
    WatcherFailed(Seq<char>),
    FoldersLoaded { count: usize },
    FoldersFailed(Seq<char>),
    FolderRegistered(Seq<char>),
    FolderFailed(Seq<char>),
}

impl View for DaemonEvent {
    type V = DaemonEventView;

    open spec fn view(&self) -> DaemonEventView {
        match self {
            DaemonEvent::WatcherCreated => DaemonEventView::WatcherCreated,
            DaemonEvent::WatcherFailed(error) => DaemonEventView::WatcherFailed(error@),
            DaemonEvent::FoldersLoaded { count } => DaemonEventView::FoldersLoaded {
                count: *count,
            },
            DaemonEvent::FoldersFailed(error) => DaemonEventView::FoldersFailed(error@),
            DaemonEvent::FolderRegistered(folder) => DaemonEventView::FolderRegistered(folder@),
            DaemonEvent::FolderFailed(error) => DaemonEventView::FolderFailed(error@),
        }
    }
}

/// What the driver is asked to do, in the order given.
#[derive(Debug)]
pub enum DaemonAction {
    /// Build the watcher; report `WatcherCreated` or `WatcherFailed`.
    CreateWatcher,
    /// Read and decrypt the list of folders; report `FoldersLoaded` or
    /// `FoldersFailed`.
    LoadFolders,
    /// Register each folder of the list; report `FolderRegistered` or
    /// `FolderFailed` for each.
    RegisterFolders,
    /// Append the message to the log.
    Log(String),
    /// Print the message to the console.
    Print(String),
    /// Print the message to the error stream.
    PrintError(String),
    /// Receive events and respond to them, until the process ends.
    Watch,
    /// End the process with a failure status.
    Exit,
}

/// A `DaemonAction` with its texts as sequences of characters.
pub enum DaemonActionView {
    CreateWatcher,
    LoadFolders,
    RegisterFolders,
    Log(Seq<char>),
    Print(Seq<char>),
    PrintError(Seq<char>),
    Watch,
    Exit,
}

impl View for DaemonAction {
    type V = DaemonActionView;

    open spec fn view(&self) -> DaemonActionView {
        match self {
            DaemonAction::CreateWatcher => DaemonActionView::CreateWatcher,
            DaemonAction::LoadFolders => DaemonActionView::LoadFolders,
            DaemonAction::RegisterFolders => DaemonActionView::RegisterFolders,
            DaemonAction::Log(message) => DaemonActionView::Log(message@),
            DaemonAction::Print(message) => DaemonActionView::Print(message@),
            DaemonAction::PrintError(message) => DaemonActionView::PrintError(message@),
            DaemonAction::Watch => DaemonActionView::Watch,
            DaemonAction::Exit => DaemonActionView::Exit,
        }
    }
}

impl DeepView for DaemonAction {
    type V = DaemonActionView;

    open spec fn deep_view(&self) -> DaemonActionView {
        self@
    }
}

/// The message for a watcher that could not be built.
pub open spec fn watcher_failed_message(error: Seq<char>) -> Seq<char> {
    "Failed to create watcher: "@ + error
}

/// The message for a list of folders that could not be read.
pub open spec fn folders_failed_message(error: Seq<char>) -> Seq<char> {
    "Failed to read canary folders: "@ + error
}

/// The message for a list that names no folder.
pub open spec fn folders_empty_message(folders_file: Seq<char>) -> Seq<char> {
    folders_file + " is empty."@
}

/// The message for a folder that was registered.
pub open spec fn registered_message(folder: Seq<char>) -> Seq<char> {
    "Registered folder for monitoring: "@ + folder
}

/// The message for a start at which no folder was registered.
pub open spec fn none_registered_message() -> Seq<char> {
    "No canary folders could be registered. Exiting."@
}

/// What giving up for the reason in `message` asks of the driver.
pub open spec fn fatal_actions(message: Seq<char>) -> Seq<DaemonActionView> {
    seq![
        DaemonActionView::Log(message),
        DaemonActionView::PrintError(message),
        DaemonActionView::Exit,
    ]
}

/// What follows the report on one folder, once `remaining` folders are left
/// and `successes` have been registered: more reports while folders are left,
/// and then the watch loop if any folder was registered, and the end if none
/// was.
pub open spec fn after_folder(remaining: usize, successes: usize) -> (
    DaemonState,
    Seq<DaemonActionView>,
) {
    if remaining > 0 {
        (DaemonState::RegisterFolders { remaining, successes }, Seq::empty())
    } else if successes > 0 {
        (DaemonState::Watching, seq![DaemonActionView::Watch])
    } else {
        (DaemonState::Fatal, fatal_actions(none_registered_message()))
    }
}

/// What a report makes of the daemon: the state it comes to and what is to be
/// done next. A report that the state does not wait for changes nothing.
pub open spec fn daemon_step(
    state: DaemonState,
    event: DaemonEventView,
    settings: SettingsView,
) -> (DaemonState, Seq<DaemonActionView>) {
    match (state, event) {
        (DaemonState::Init, DaemonEventView::WatcherCreated) => (
            DaemonState::LoadConfig,
            seq![DaemonActionView::LoadFolders],
        ),
        (DaemonState::Init, DaemonEventView::WatcherFailed(error)) => (
            DaemonState::Fatal,
            fatal_actions(watcher_failed_message(error)),
        ),
        (DaemonState::LoadConfig, DaemonEventView::FoldersLoaded { count }) => if count > 0 {
            (
                DaemonState::RegisterFolders { remaining: count, successes: 0 },
                seq![DaemonActionView::RegisterFolders],
            )
        } else {
            (
                DaemonState::Fatal,
                seq![DaemonActionView::Log(folders_empty_message(settings.folders_file))]
                    + fatal_actions(none_registered_message()),
            )
        },
        (DaemonState::LoadConfig, DaemonEventView::FoldersFailed(error)) => (
            DaemonState::Fatal,
            fatal_actions(folders_failed_message(error)),
        ),
        (
            DaemonState::RegisterFolders { remaining, successes },
            DaemonEventView::FolderRegistered(folder),
        ) => if remaining > 0 && successes < usize::MAX {
            (
                after_folder((remaining - 1) as usize, (successes + 1) as usize).0,
                seq![DaemonActionView::Print(registered_message(folder))] + after_folder(
                    (remaining - 1) as usize,
                    (successes + 1) as usize,
                ).1,
            )
        } else {
            (state, Seq::empty())
        },
        (
            DaemonState::RegisterFolders { remaining, successes },
            DaemonEventView::FolderFailed(error),
        ) => if remaining > 0 {
            (
                after_folder((remaining - 1) as usize, successes).0,
                seq![DaemonActionView::Log(error)] + after_folder(
                    (remaining - 1) as usize,
                    successes,
                ).1,
            )
        } else {
            (state, Seq::empty())
        },
        _ => (state, Seq::empty()),
    }
}

/// Where the daemon stands after the given reports, one after the other, and
/// everything it asked for on the way.
pub open spec fn daemon_run(
    state: DaemonState,
    reports: Seq<DaemonEventView>,
    settings: SettingsView,
) -> (DaemonState, Seq<DaemonActionView>)
    decreases reports.len(),
{
    if reports.len() == 0 {
        (state, Seq::empty())
    } else {
        let first = daemon_step(state, reports[0], settings);
        let rest = daemon_run(first.0, reports.drop_first(), settings);
        (rest.0, first.1 + rest.1)
    }
}

/// Whether each report says of one folder that it was registered or that it
/// failed.
pub open spec fn folder_reports(reports: Seq<DaemonEventView>) -> bool {
    forall|i: int|
        0 <= i < reports.len() ==> (#[trigger] reports[i]) is FolderRegistered || reports[i]
            is FolderFailed
}

/// The number of folders that the reports say were registered.
pub open spec fn count_registered(reports: Seq<DaemonEventView>) -> nat
    decreases reports.len(),
{
    if reports.len() == 0 {
        0
    } else if reports[0] is FolderRegistered {
        1 + count_registered(reports.drop_first())
    } else {
        count_registered(reports.drop_first())
    }
}

/// Once every folder of the list has been reported, the daemon watches if a
/// folder was registered, and has given up if none was. It asks for the watch
/// loop in the first case only, and for the end of the process in the second
/// only.
pub proof fn lemma_registrations_decide(
    remaining: usize,
    successes: usize,
    reports: Seq<DaemonEventView>,
    settings: SettingsView,
)
    requires
        reports.len() == remaining,
        remaining > 0,
        successes + remaining <= usize::MAX,
        folder_reports(reports),
    ensures
        daemon_run(DaemonState::RegisterFolders { remaining, successes }, reports, settings).0
            == if successes + count_registered(reports) > 0 {
            DaemonState::Watching
        } else {
            DaemonState::Fatal
        },
        daemon_run(
            DaemonState::RegisterFolders { remaining, successes },
            reports,
            settings,
        ).1.contains(DaemonActionView::Watch) <==> successes + count_registered(reports) > 0,
        daemon_run(
            DaemonState::RegisterFolders { remaining, successes },
            reports,
            settings,
        ).1.contains(DaemonActionView::Exit) <==> successes + count_registered(reports) == 0,
    decreases reports.len(),
{
    let state = DaemonState::RegisterFolders { remaining, successes };
    let first = daemon_step(state, reports[0], settings);
    let rest = reports.drop_first();
    let gained: usize = if reports[0] is FolderRegistered {
        (successes + 1) as usize
    } else {
        successes
    };
    let left = (remaining - 1) as usize;
    assert(folder_reports(rest)) by {
        assert forall|i: int| 0 <= i < rest.len() implies (#[trigger] rest[i]) is FolderRegistered
            || rest[i] is FolderFailed by {
            assert(rest[i] == reports[i + 1]);
        }
    }
    if left > 0 {
        lemma_registrations_decide(left, gained, rest, settings);
    } else if gained > 0 {
        assert(first.1[1] == DaemonActionView::Watch);
    } else {
        assert(first.1[3] == DaemonActionView::Exit);
    }
    let run = daemon_run(first.0, rest, settings);
    let all = daemon_run(state, reports, settings).1;
    assert(all == first.1 + run.1);
    lemma_contains_either(first.1, run.1, DaemonActionView::Watch);
    lemma_contains_either(first.1, run.1, DaemonActionView::Exit);
}

/// What one of two sequences holds, the two put together hold, and nothing
/// else.
proof fn lemma_contains_either(
    front: Seq<DaemonActionView>,
    back: Seq<DaemonActionView>,
    action: DaemonActionView,
)
    ensures
        (front + back).contains(action) <==> front.contains(action) || back.contains(action),
{
    let both = front + back;
    if front.contains(action) {
        let i = choose|i: int| 0 <= i < front.len() && front[i] == action;
        assert(both[i] == action);
    }
    if back.contains(action) {
        let i = choose|i: int| 0 <= i < back.len() && back[i] == action;
        assert(both[front.len() + i] == action);
    }
    if both.contains(action) {
        let i = choose|i: int| 0 <= i < both.len() && both[i] == action;
        if i < front.len() {
            assert(front[i] == action);
        } else {
            assert(back[i - front.len()] == action);
        }
    }
}

/// If every folder of the list fails registration, the daemon gives up: it
/// ends in `Fatal`, asks for the process to end, and never asks for the watch
/// loop. A list without folders is such a list.
pub proof fn lemma_all_fail_fatal(
    count: usize,
    reports: Seq<DaemonEventView>,
    settings: SettingsView,
)
    requires
        reports.len() == count,
        forall|i: int| 0 <= i < reports.len() ==> (#[trigger] reports[i]) is FolderFailed,
    ensures
        daemon_run(
            DaemonState::LoadConfig,
            seq![DaemonEventView::FoldersLoaded { count }] + reports,
            settings,
        ).0 == DaemonState::Fatal,
        !daemon_run(
            DaemonState::LoadConfig,
            seq![DaemonEventView::FoldersLoaded { count }] + reports,
            settings,
        ).1.contains(DaemonActionView::Watch),
        daemon_run(
            DaemonState::LoadConfig,
            seq![DaemonEventView::FoldersLoaded { count }] + reports,
            settings,
        ).1.contains(DaemonActionView::Exit),
{
    let loaded = DaemonEventView::FoldersLoaded { count };
    let all = seq![loaded] + reports;
    let first = daemon_step(DaemonState::LoadConfig, loaded, settings);
    assert(all.drop_first() =~= reports);
    let run = daemon_run(first.0, reports, settings);
    if count > 0 {
        lemma_none_registered(reports);
        lemma_registrations_decide(count, 0, reports, settings);
    } else {
        assert(first.1[3] == DaemonActionView::Exit);
    }
    lemma_contains_either(first.1, run.1, DaemonActionView::Watch);
    lemma_contains_either(first.1, run.1, DaemonActionView::Exit);
}

/// If any folder of the list is registered, the daemon comes to watch.
pub proof fn lemma_one_success_watches(
    count: usize,
    reports: Seq<DaemonEventView>,
    settings: SettingsView,
    k: int,
)
    requires
        reports.len() == count,
        folder_reports(reports),
        0 <= k < reports.len(),
        reports[k] is FolderRegistered,
    ensures
        daemon_run(
            DaemonState::LoadConfig,
            seq![DaemonEventView::FoldersLoaded { count }] + reports,
            settings,
        ).0 == DaemonState::Watching,
        daemon_run(
            DaemonState::LoadConfig,
            seq![DaemonEventView::FoldersLoaded { count }] + reports,
            settings,
        ).1.contains(DaemonActionView::Watch),
{
    let loaded = DaemonEventView::FoldersLoaded { count };
    let all = seq![loaded] + reports;
    let first = daemon_step(DaemonState::LoadConfig, loaded, settings);
    assert(all.drop_first() =~= reports);
    let run = daemon_run(first.0, reports, settings);
    lemma_some_registered(reports, k);
    lemma_registrations_decide(count, 0, reports, settings);
    lemma_contains_either(first.1, run.1, DaemonActionView::Watch);
}

/// Where a report is a success, a folder was registered.
proof fn lemma_some_registered(reports: Seq<DaemonEventView>, k: int)
    requires
        0 <= k < reports.len(),
        reports[k] is FolderRegistered,
    ensures
        count_registered(reports) > 0,
    decreases reports.len(),
{
    if k > 0 {
        lemma_some_registered(reports.drop_first(), k - 1);
    }
}

/// Where every report is a failure, no folder was registered.
proof fn lemma_none_registered(reports: Seq<DaemonEventView>)
    requires
        forall|i: int| 0 <= i < reports.len() ==> (#[trigger] reports[i]) is FolderFailed,
    ensures
        count_registered(reports) == 0,
        folder_reports(reports),
    decreases reports.len(),
{
    if reports.len() > 0 {
        let rest = reports.drop_first();
        assert forall|i: int| 0 <= i < rest.len() implies (#[trigger] rest[i]) is FolderFailed by {
            assert(rest[i] == reports[i + 1]);
        }
        lemma_none_registered(rest);
    }
}

/// The daemon never leaves `Watching` or `Fatal`, and asks for nothing more
/// once it is there.
pub proof fn lemma_daemon_settles(
    state: DaemonState,
    event: DaemonEventView,
    settings: SettingsView,
)
    requires
        state is Watching || state is Fatal,
    ensures
        daemon_step(state, event, settings) == (state, Seq::<DaemonActionView>::empty()),
{
}

/// What giving up for the reason in `message` asks of the driver.
fn give_up(message: String) -> (actions: Vec<DaemonAction>)
    ensures
        actions.deep_view() == fatal_actions(message@),
{
    let mut actions: Vec<DaemonAction> = Vec::new();
    actions.push(DaemonAction::Log(message.clone()));
    actions.push(DaemonAction::PrintError(message));
    actions.push(DaemonAction::Exit);
    actions
}

/// Adds to `actions` what follows the report on one folder.
fn finish_folder(actions: &mut Vec<DaemonAction>, remaining: usize, successes: usize) -> (state:
    DaemonState)
    ensures
        state == after_folder(remaining, successes).0,
        final(actions).deep_view() == old(actions).deep_view() + after_folder(
            remaining,
            successes,
        ).1,
{
    if remaining > 0 {
        DaemonState::RegisterFolders { remaining, successes }
    } else if successes > 0 {
        actions.push(DaemonAction::Watch);
        DaemonState::Watching
    } else {
        let message = "No canary folders could be registered. Exiting.".to_owned();
        actions.push(DaemonAction::Log(message.clone()));
        actions.push(DaemonAction::PrintError(message));
        actions.push(DaemonAction::Exit);
        DaemonState::Fatal
    }
}

/// How the daemon begins: in `Init`, by building the watcher.
pub fn start_daemon() -> (res: (DaemonState, Vec<DaemonAction>))
    ensures
        res.0 == DaemonState::Init,
        res.1.deep_view() == seq![DaemonActionView::CreateWatcher],
{
    let mut actions: Vec<DaemonAction> = Vec::new();
    actions.push(DaemonAction::CreateWatcher);
    (DaemonState::Init, actions)
}

/// Takes the daemon one report further.
pub fn advance_daemon(state: DaemonState, event: DaemonEvent, settings: &Settings) -> (res: (
    DaemonState,
    Vec<DaemonAction>,
))
    ensures
        (res.0, res.1.deep_view()) == daemon_step(state, event@, settings@),
{
    let mut actions: Vec<DaemonAction> = Vec::new();
    match (state, event) {
        (DaemonState::Init, DaemonEvent::WatcherCreated) => {
            actions.push(DaemonAction::LoadFolders);
            (DaemonState::LoadConfig, actions)
        },
        (DaemonState::Init, DaemonEvent::WatcherFailed(error)) => {
            let mut message = "Failed to create watcher: ".to_owned();
            message.append(error.as_str());
            (DaemonState::Fatal, give_up(message))
        },
        (DaemonState::LoadConfig, DaemonEvent::FoldersLoaded { count }) => {
            if count > 0 {
                actions.push(DaemonAction::RegisterFolders);
                (DaemonState::RegisterFolders { remaining: count, successes: 0 }, actions)
            } else {
                let mut message = settings.folders_file.clone();
                message.append(" is empty.");
                actions.push(DaemonAction::Log(message));
                let state = finish_folder(&mut actions, 0, 0);
                (state, actions)
            }
        },
        (DaemonState::LoadConfig, DaemonEvent::FoldersFailed(error)) => {
            let mut message = "Failed to read canary folders: ".to_owned();
            message.append(error.as_str());
            (DaemonState::Fatal, give_up(message))
        },
        (
            DaemonState::RegisterFolders { remaining, successes },
            DaemonEvent::FolderRegistered(folder),
        ) => {
            if remaining > 0 && successes < usize::MAX {
                let mut message = "Registered folder for monitoring: ".to_owned();
                message.append(folder.as_str());
                actions.push(DaemonAction::Print(message));
                let state = finish_folder(&mut actions, remaining - 1, successes + 1);
                (state, actions)
            } else {
                (state, actions)
            }
        },
        (
            DaemonState::RegisterFolders { remaining, successes },
            DaemonEvent::FolderFailed(error),
        ) => {
            if remaining > 0 {
                actions.push(DaemonAction::Log(error));
                let state = finish_folder(&mut actions, remaining - 1, successes);
                (state, actions)
            } else {
                (state, actions)
            }
        },
        (state, _) => (state, actions),
    }
}

} // verus!
