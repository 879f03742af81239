//! Registering a folder for monitoring, one decision at a time.
//!
//! The work on the disk and with the watcher is the driver's. After each piece
//! of it the driver reports what happened, and the functions here say what the
//! registration has come to and what is to be done next.

use crate::canary::{create_canary_files, is_canary_batch, CanaryFile, CanaryFileView};
use crate::settings::Settings;
use crate::text::{decimal, decimal_text, join3, join4, join5};
use vstd::prelude::*;

verus! {

/// One entry of a folder: its path, and whether it is a regular file.
#[derive(Debug)]
pub struct FolderEntry {
    pub path: String,
    pub is_file: bool,
}

/// A `FolderEntry` with its path as a sequence of characters.
pub struct FolderEntryView {
    pub path: Seq<char>,
    pub is_file: bool,
}

impl View for FolderEntry {
    type V = FolderEntryView;

    open spec fn view(&self) -> FolderEntryView {
        FolderEntryView { path: self.path@, is_file: self.is_file }
    }
}

impl DeepView for FolderEntry {
    type V = FolderEntryView;

    open spec fn deep_view(&self) -> FolderEntryView {
        self@
    }
}

/// What was being done to a file when it failed.
#[derive(Clone, Copy, Debug, PartialEq, Eq, Structural)]
pub enum FileStep {
    /// Refreshing the modification time.
    Touch,
    /// Creating the file.
    Create,
    /// Writing the content.
    Write,
    /// Opening the file to every user.
    Permissions,
}

/// A failure on one file. It is logged and holds nothing up.
#[derive(Debug)]
pub struct FileFailure {
    pub step: FileStep,
    pub path: String,
    pub error: String,
}

/// A `FileFailure` with its texts as sequences of characters.
pub struct FileFailureView {
    pub step: FileStep,
    pub path: Seq<char>,
    pub error: Seq<char>,
}

impl View for FileFailure {
    type V = FileFailureView;

    open spec fn view(&self) -> FileFailureView {
        FileFailureView { step: self.step, path: self.path@, error: self.error@ }
    }
}

impl DeepView for FileFailure {
    type V = FileFailureView;

    open spec fn deep_view(&self) -> FileFailureView {
        self@
    }
}

/// What the driver reports back after it has done what it was asked.
#[derive(Debug)]
pub enum FolderEvent {
    /// The folder was looked for.
    Probed { exists: bool },
    /// The folder and its parents were created.
    Created,
    /// The folder could not be created.
    CreateFailed(String),
    /// The folder's direct entries.
    Listed(Vec<FolderEntry>),
    /// The folder could not be read.
    ListFailed(String),
    /// The files were touched, but for these.
    Touched(Vec<FileFailure>),
    /// The batch was written, but for these failures.
    Seeded(Vec<FileFailure>),
    /// The watcher took the folder.
    WatchStarted,
    /// The watcher refused the folder.
    WatchFailed(String),
}

/// A `FolderEvent` with its texts as sequences of characters.
pub enum FolderEventView {
    Probed { exists: bool },
    Created,
    CreateFailed(Seq<char>),
    Listed(Seq<FolderEntryView>),
    ListFailed(Seq<char>),
    Touched(Seq<FileFailureView>),
    Seeded(Seq<FileFailureView>),
    WatchStarted,
    WatchFailed(Seq<char>),
}

impl View for FolderEvent {
    type V = FolderEventView;

    open spec fn view(&self) -> FolderEventView {
        match self {
            FolderEvent::Probed { exists } => FolderEventView::Probed { exists: *exists },
            FolderEvent::Created => FolderEventView::Created,
            FolderEvent::CreateFailed(e) => FolderEventView::CreateFailed(e@),
            FolderEvent::Listed(entries) => FolderEventView::Listed(entries.deep_view()),
            FolderEvent::ListFailed(e) => FolderEventView::ListFailed(e@),
            FolderEvent::Touched(failures) => FolderEventView::Touched(failures.deep_view()),
            FolderEvent::Seeded(failures) => FolderEventView::Seeded(failures.deep_view()),
            FolderEvent::WatchStarted => FolderEventView::WatchStarted,
            FolderEvent::WatchFailed(e) => FolderEventView::WatchFailed(e@),
        }
    }
}

/// What the driver is asked to do, in the order given.
#[derive(Debug)]
pub enum FolderAction {
    /// Find out whether the folder exists; report `Probed`.
    Probe,
    /// Create the folder and its parents; report `Created` or `CreateFailed`.
    CreateFolder,
    /// Read the folder's direct entries; report `Listed` or `ListFailed`.
    ListFolder,
    /// Set the modification time of each file to now; report `Touched`.
    Touch(Vec<String>),
    /// Write each file into the folder, open to every user; report `Seeded`.
    Seed(Vec<CanaryFile>),
    /// Watch the folder and all below it; report `WatchStarted` or `WatchFailed`.
    Watch,
    /// Append the message to the log.
    Log(String),
}

/// A `FolderAction` with its texts as sequences of characters.
pub enum FolderActionView {
    Probe,
    CreateFolder,
    ListFolder,
    Touch(Seq<Seq<char>>),
    Seed(Seq<CanaryFileView>),
    Watch,
    Log(Seq<char>),
}

impl View for FolderAction {
    type V = FolderActionView;

    open spec fn view(&self) -> FolderActionView {
        match self {
            FolderAction::Probe => FolderActionView::Probe,
            FolderAction::CreateFolder => FolderActionView::CreateFolder,
            FolderAction::ListFolder => FolderActionView::ListFolder,
            FolderAction::Touch(paths) => FolderActionView::Touch(paths.deep_view()),
            FolderAction::Seed(batch) => FolderActionView::Seed(batch.deep_view()),
            FolderAction::Watch => FolderActionView::Watch,
            FolderAction::Log(message) => FolderActionView::Log(message@),
        }
    }
}

impl DeepView for FolderAction {
    type V = FolderActionView;

    open spec fn deep_view(&self) -> FolderActionView {
        self@
    }
}

/// How far the registration of one folder has come.
#[derive(Debug)]
pub enum RegistrationState {
    /// Asked whether the folder exists.
    Probing,
    /// Asked for the missing folder to be created.
    Creating,
    /// Asked for a batch of `count` files in the folder just created.
    SeedingCreated { count: usize },
    /// Asked for the entries of the folder.
    Listing,
    /// Asked for the folder's files to be touched.
    Rearming,
    /// Asked for a batch of `count` files in the folder found without files.
    SeedingEmpty { count: usize },
    /// Asked the watcher to take the folder.
    Arming,
    /// Done: the folder was created and seeded, and is not watched yet.
    Populated,
    /// Done: the folder holds files and is watched.
    Watched,
    /// Done: the folder could not be registered, for the reason given.
    Failed(String),
}

/// A `RegistrationState` with its text as a sequence of characters.
pub enum RegistrationStateView {
    Probing,
    Creating,
    SeedingCreated { count: nat },
    Listing,
    Rearming,
    SeedingEmpty { count: nat },
    Arming,
    Populated,
    Watched,
    Failed(Seq<char>),
}

impl View for RegistrationState {
    type V = RegistrationStateView;

    open spec fn view(&self) -> RegistrationStateView {
        match self {
            RegistrationState::Probing => RegistrationStateView::Probing,
            RegistrationState::Creating => RegistrationStateView::Creating,
            RegistrationState::SeedingCreated { count } => RegistrationStateView::SeedingCreated {
                count: *count as nat,
            },
            RegistrationState::Listing => RegistrationStateView::Listing,
            RegistrationState::Rearming => RegistrationStateView::Rearming,
            RegistrationState::SeedingEmpty { count } => RegistrationStateView::SeedingEmpty {
                count: *count as nat,
            },
            RegistrationState::Arming => RegistrationStateView::Arming,
            RegistrationState::Populated => RegistrationStateView::Populated,
            RegistrationState::Watched => RegistrationStateView::Watched,
            RegistrationState::Failed(reason) => RegistrationStateView::Failed(reason@),
        }
    }
}

/// The paths of the regular files among `entries`, in their order.
pub open spec fn regular_files(entries: Seq<FolderEntryView>) -> Seq<Seq<char>>
    decreases entries.len(),
{
    if entries.len() == 0 {
        Seq::empty()
    } else if entries.last().is_file {
        regular_files(entries.drop_last()).push(entries.last().path)
    } else {
        regular_files(entries.drop_last())
    }
}

/// The log message for a folder that was created.
pub open spec fn folder_created_message(folder: Seq<char>) -> Seq<char> {
    "Folder "@ + folder + " created successfully."@
}

/// The error for a folder that could not be created.
pub open spec fn create_failed_message(folder: Seq<char>, error: Seq<char>) -> Seq<char> {
    "Failed to create folder "@ + folder + ": "@ + error
}

/// The error for a folder that could not be read.
pub open spec fn list_failed_message(folder: Seq<char>, error: Seq<char>) -> Seq<char> {
    "Failed to read directory "@ + folder + ": "@ + error
}

/// The log message for a folder that the watcher took.
pub open spec fn watching_message(folder: Seq<char>) -> Seq<char> {
    "Started monitoring folder "@ + folder + "."@
}

/// The error for a folder that the watcher refused.
pub open spec fn watch_failed_message(folder: Seq<char>, error: Seq<char>) -> Seq<char> {
    "Failed to start monitoring folder "@ + folder + ": "@ + error
}

/// The log message for a batch of `count` files in `folder`.
pub open spec fn seeded_message(count: nat, folder: Seq<char>) -> Seq<char> {
    "Created "@ + decimal(count) + " canary files in "@ + folder + "."@
}

/// How the log message for a failure on a file begins.
pub open spec fn step_phrase(step: FileStep) -> Seq<char> {
    match step {
        FileStep::Touch => "Failed to touch file "@,
        FileStep::Create => "Failed to create file "@,
        FileStep::Write => "Failed to write to file "@,
        FileStep::Permissions => "Failed to set permissions for file "@,
    }
}

/// The log message for a failure on a file.
pub open spec fn failure_message(failure: FileFailureView) -> Seq<char> {
    step_phrase(failure.step) + failure.path + ": "@ + failure.error
}

/// One log entry for each failure, in their order.
pub open spec fn failure_logs(failures: Seq<FileFailureView>) -> Seq<FolderActionView> {
    Seq::new(failures.len(), |i: int| FolderActionView::Log(failure_message(failures[i])))
}

/// Whether this report leads to a new batch of decoy files: the folder was
/// just created, or it was found without a regular file.
pub open spec fn seeds(state: RegistrationStateView, event: FolderEventView) -> bool {
    match (state, event) {
        (RegistrationStateView::Creating, FolderEventView::Created) => true,
        (RegistrationStateView::Listing, FolderEventView::Listed(entries)) => regular_files(
            entries,
        ).len() == 0,
        _ => false,
    }
}

/// The batch of the first `Seed` among `actions`, or no file where there is
/// none.
pub open spec fn seeded_batch(actions: Seq<FolderActionView>) -> Seq<CanaryFileView>
    decreases actions.len(),
{
    if actions.len() == 0 {
        Seq::empty()
    } else if let FolderActionView::Seed(batch) = actions[0] {
        batch
    } else {
        seeded_batch(actions.drop_first())
    }
}

/// What a report makes of the registration of `folder`: the state it comes to
/// and what is to be done next. `batch` is what is written where the report
/// leads to seeding. A report that the state does not wait for changes
/// nothing, and so does every report once registration is done.
pub open spec fn registration_step(
    state: RegistrationStateView,
    event: FolderEventView,
    folder: Seq<char>,
    batch: Seq<CanaryFileView>,
) -> (RegistrationStateView, Seq<FolderActionView>) {
    match (state, event) {
        (RegistrationStateView::Probing, FolderEventView::Probed { exists }) => if exists {
            (RegistrationStateView::Listing, seq![FolderActionView::ListFolder])
        } else {
            (RegistrationStateView::Creating, seq![FolderActionView::CreateFolder])
        },
        (RegistrationStateView::Creating, FolderEventView::Created) => (
            RegistrationStateView::SeedingCreated { count: batch.len() },
            seq![
                FolderActionView::Log(folder_created_message(folder)),
                FolderActionView::Seed(batch),
            ],
        ),
        (RegistrationStateView::Creating, FolderEventView::CreateFailed(error)) => (
            RegistrationStateView::Failed(create_failed_message(folder, error)),
            Seq::empty(),
        ),
        (RegistrationStateView::SeedingCreated { count }, FolderEventView::Seeded(failures)) => (
            RegistrationStateView::Populated,
            failure_logs(failures).push(FolderActionView::Log(seeded_message(count, folder))),
        ),
        (RegistrationStateView::Listing, FolderEventView::Listed(entries)) => if regular_files(
            entries,
        ).len() > 0 {
            (
                RegistrationStateView::Rearming,
                seq![FolderActionView::Touch(regular_files(entries))],
            )
        } else {
            (
                RegistrationStateView::SeedingEmpty { count: batch.len() },
                seq![FolderActionView::Seed(batch)],
            )
        },
        (RegistrationStateView::Listing, FolderEventView::ListFailed(error)) => (
            RegistrationStateView::Failed(list_failed_message(folder, error)),
            Seq::empty(),
        ),
        (RegistrationStateView::Rearming, FolderEventView::Touched(failures)) => (
            RegistrationStateView::Arming,
            failure_logs(failures).push(FolderActionView::Watch),
        ),
        (RegistrationStateView::SeedingEmpty { count }, FolderEventView::Seeded(failures)) => (
            RegistrationStateView::Arming,
            failure_logs(failures).push(FolderActionView::Log(seeded_message(count, folder))).push(
                FolderActionView::Watch,
            ),
        ),
        (RegistrationStateView::Arming, FolderEventView::WatchStarted) => (
            RegistrationStateView::Watched,
            seq![FolderActionView::Log(watching_message(folder))],
        ),
        (RegistrationStateView::Arming, FolderEventView::WatchFailed(error)) => (
            RegistrationStateView::Failed(watch_failed_message(folder, error)),
            Seq::empty(),
        ),
        _ => (state, Seq::empty()),
    }
}

impl RegistrationStateView {
    /// Whether registration is done, one way or the other.
    pub open spec fn is_final(self) -> bool {
        self is Populated || self is Watched || self is Failed
    }

    /// What registration came to: `Ok` for a folder that is seeded or watched,
    /// the error for one that failed, and nothing while it is under way.
    pub open spec fn outcome(self) -> Option<Result<(), Seq<char>>> {
        match self {
            RegistrationStateView::Populated => Some(Ok(())),
            RegistrationStateView::Watched => Some(Ok(())),
            RegistrationStateView::Failed(reason) => Some(Err(reason)),
            _ => None,
        }
    }
}

/// The paths of the regular files among `entries`, in their order.
fn regular_paths(entries: &Vec<FolderEntry>) -> (paths: Vec<String>)
    ensures
        paths.deep_view() == regular_files(entries.deep_view()),
{
    let mut paths: Vec<String> = Vec::new();
    let mut i: usize = 0;
    while i < entries.len()
        invariant
            i <= entries@.len(),
            entries.deep_view().len() == entries@.len(),
            paths.deep_view() == regular_files(entries.deep_view().take(i as int)),
        decreases entries@.len() - i,
    {
        proof {
            let next = entries.deep_view().take(i + 1);
            assert(next.drop_last() =~= entries.deep_view().take(i as int));
        }
        if entries[i].is_file {
            paths.push(entries[i].path.clone());
        }
        i += 1;
    }
    assert(entries.deep_view().take(i as int) =~= entries.deep_view());
    paths
}

/// The log message for a failure on a file.
fn failure_text(failure: &FileFailure) -> (message: String)
    ensures
        message@ == failure_message(failure@),
{
    let phrase = match failure.step {
        FileStep::Touch => "Failed to touch file ",
        FileStep::Create => "Failed to create file ",
        FileStep::Write => "Failed to write to file ",
        FileStep::Permissions => "Failed to set permissions for file ",
    };
    join4(phrase, failure.path.as_str(), ": ", failure.error.as_str())
}

/// One log entry for each failure, in their order.
fn log_failures(failures: &Vec<FileFailure>) -> (logs: Vec<FolderAction>)
    ensures
        logs.deep_view() == failure_logs(failures.deep_view()),
{
    let mut logs: Vec<FolderAction> = Vec::new();
    let mut i: usize = 0;
    while i < failures.len()
        invariant
            i <= failures@.len(),
            logs@.len() == i,
            forall|j: int|
                0 <= j < i ==> (#[trigger] logs@[j])@ == FolderActionView::Log(
                    failure_message(failures@[j]@),
                ),
        decreases failures@.len() - i,
    {
        logs.push(FolderAction::Log(failure_text(&failures[i])));
        i += 1;
    }
    logs
}

/// Whether this report leads to a new batch of decoy files.
pub fn needs_seed(state: &RegistrationState, event: &FolderEvent) -> (res: bool)
    ensures
        res == seeds(state@, event@),
{
    match (state, event) {
        (RegistrationState::Creating, FolderEvent::Created) => true,
        (RegistrationState::Listing, FolderEvent::Listed(entries)) => {
            let paths = regular_paths(entries);
            paths.len() == 0
        },
        _ => false,
    }
}

impl RegistrationState {
    /// What registration came to: `Ok` for a folder that is seeded or watched,
    /// the error for one that failed, and nothing while it is under way.
    pub fn outcome(&self) -> (res: Option<Result<(), String>>)
        ensures
            res is Some <==> self@.is_final(),
            match res {
                Some(Ok(())) => self@.outcome() == Some(Ok::<(), Seq<char>>(())),
                Some(Err(reason)) => self@.outcome() == Some(Err::<(), Seq<char>>(reason@)),
                None => self@.outcome() is None,
            },
    {
        match self {
            RegistrationState::Populated => Some(Ok(())),
            RegistrationState::Watched => Some(Ok(())),
            RegistrationState::Failed(reason) => Some(Err(reason.clone())),
            _ => None,
        }
    }
}

/// How every registration begins: by asking whether the folder exists.
pub fn start_registration() -> (res: (RegistrationState, Vec<FolderAction>))
    ensures
        res.0@ == RegistrationStateView::Probing,
        res.1.deep_view() == seq![FolderActionView::Probe],
{
    let mut actions: Vec<FolderAction> = Vec::new();
    actions.push(FolderAction::Probe);
    (RegistrationState::Probing, actions)
}

/// Takes the registration of `folder_path` one report further, with `batch`
/// as the decoy files to write where the report leads to seeding.
pub fn advance_registration(
    state: RegistrationState,
    event: FolderEvent,
    folder_path: &str,
    batch: Vec<CanaryFile>,
) -> (res: (RegistrationState, Vec<FolderAction>))
    ensures
        (res.0@, res.1.deep_view()) == registration_step(
            state@,
            event@,
            folder_path@,
            batch.deep_view(),
        ),
{
    let mut actions: Vec<FolderAction> = Vec::new();
    match (state, event) {
        (RegistrationState::Probing, FolderEvent::Probed { exists }) => {
            if exists {
                actions.push(FolderAction::ListFolder);
                (RegistrationState::Listing, actions)
            } else {
                actions.push(FolderAction::CreateFolder);
                (RegistrationState::Creating, actions)
            }
        },
        (RegistrationState::Creating, FolderEvent::Created) => {
            let count = batch.len();
            actions.push(
                FolderAction::Log(join3("Folder ", folder_path, " created successfully.")),
            );
            actions.push(FolderAction::Seed(batch));
            (RegistrationState::SeedingCreated { count }, actions)
        },
        (RegistrationState::Creating, FolderEvent::CreateFailed(error)) => {
            let reason = join4("Failed to create folder ", folder_path, ": ", error.as_str());
            (RegistrationState::Failed(reason), actions)
        },
        (RegistrationState::SeedingCreated { count }, FolderEvent::Seeded(failures)) => {
            let mut logs = log_failures(&failures);
            logs.push(FolderAction::Log(seeded_text(count, folder_path)));
            (RegistrationState::Populated, logs)
        },
        (RegistrationState::Listing, FolderEvent::Listed(entries)) => {
            let paths = regular_paths(&entries);
            if paths.len() > 0 {
                actions.push(FolderAction::Touch(paths));
                (RegistrationState::Rearming, actions)
            } else {
                let count = batch.len();
                actions.push(FolderAction::Seed(batch));
                (RegistrationState::SeedingEmpty { count }, actions)
            }
        },
        (RegistrationState::Listing, FolderEvent::ListFailed(error)) => {
            let reason = join4("Failed to read directory ", folder_path, ": ", error.as_str());
            (RegistrationState::Failed(reason), actions)
        },
        (RegistrationState::Rearming, FolderEvent::Touched(failures)) => {
            let mut logs = log_failures(&failures);
            logs.push(FolderAction::Watch);
            (RegistrationState::Arming, logs)
        },
        (RegistrationState::SeedingEmpty { count }, FolderEvent::Seeded(failures)) => {
            let mut logs = log_failures(&failures);
            logs.push(FolderAction::Log(seeded_text(count, folder_path)));
            logs.push(FolderAction::Watch);
            (RegistrationState::Arming, logs)
        },
        (RegistrationState::Arming, FolderEvent::WatchStarted) => {
            actions.push(FolderAction::Log(join3("Started monitoring folder ", folder_path, ".")));
            (RegistrationState::Watched, actions)
        },
        (RegistrationState::Arming, FolderEvent::WatchFailed(error)) => {
            let reason = join4(
                "Failed to start monitoring folder ",
                folder_path,
                ": ",
                error.as_str(),
            );
            (RegistrationState::Failed(reason), actions)
        },
        (state, _) => (state, actions),
    }
}

/// The log message for a batch of `count` files in `folder`.
fn seeded_text(count: usize, folder: &str) -> (message: String)
    ensures
        message@ == seeded_message(count as nat, folder@),
{
    let number = decimal_text(count as u64);
    join5("Created ", number.as_str(), " canary files in ", folder, ".")
}

/// Registers a canary folder for monitoring, one report at a time.
///
/// A folder that is missing is created and then seeded; it is not watched in
/// this pass. A folder that exists has each regular file touched, is seeded
/// if it holds none, and is then handed to the watcher. A failure to create,
/// to read or to watch ends the registration with the folder's error; a
/// failure on a single file is logged and holds nothing up.
pub fn register_canary_folder(
    state: RegistrationState,
    event: FolderEvent,
    folder_path: &str,
    settings: &Settings,
) -> (res: (RegistrationState, Vec<FolderAction>))
    requires
        seeds(state@, event@) ==> settings@.seedable(),
    ensures
        (res.0@, res.1.deep_view()) == registration_step(
            state@,
            event@,
            folder_path@,
            seeded_batch(res.1.deep_view()),
        ),
        seeds(state@, event@) ==> is_canary_batch(seeded_batch(res.1.deep_view()), settings@),
        !seeds(state@, event@) ==> seeded_batch(res.1.deep_view()).len() == 0,
{
    let batch = if needs_seed(&state, &event) {
        create_canary_files(settings)
    } else {
        Vec::new()
    };
    let ghost drawn = batch.deep_view();
    let res = advance_registration(state, event, folder_path, batch);
    proof {
        lemma_seeded_batch(state@, event@, folder_path@, drawn);
    }
    res
}

/// The batch that a step asks to be written is the batch it was given where
/// the report leads to seeding, and no file at all where it does not.
pub proof fn lemma_seeded_batch(
    state: RegistrationStateView,
    event: FolderEventView,
    folder: Seq<char>,
    batch: Seq<CanaryFileView>,
)
    ensures
        seeded_batch(registration_step(state, event, folder, batch).1) == if seeds(state, event) {
            batch
        } else {
            Seq::empty()
        },
{
    reveal_with_fuel(seeded_batch, 3);
    match (state, event) {
        (RegistrationStateView::SeedingCreated { count }, FolderEventView::Seeded(failures)) => {
            lemma_no_seed_in_logs(failures);
            lemma_seeded_batch_push(
                failure_logs(failures),
                FolderActionView::Log(seeded_message(count, folder)),
            );
        },
        (RegistrationStateView::Rearming, FolderEventView::Touched(failures)) => {
            lemma_no_seed_in_logs(failures);
            lemma_seeded_batch_push(failure_logs(failures), FolderActionView::Watch);
        },
        (RegistrationStateView::SeedingEmpty { count }, FolderEventView::Seeded(failures)) => {
            lemma_no_seed_in_logs(failures);
            let logged = failure_logs(failures).push(
                FolderActionView::Log(seeded_message(count, folder)),
            );
            lemma_seeded_batch_push(
                failure_logs(failures),
                FolderActionView::Log(seeded_message(count, folder)),
            );
            lemma_seeded_batch_push(logged, FolderActionView::Watch);
        },
        _ => {},
    }
}

/// Log entries for failures ask for no file to be written.
proof fn lemma_no_seed_in_logs(failures: Seq<FileFailureView>)
    ensures
        seeded_batch(failure_logs(failures)).len() == 0,
    decreases failures.len(),
{
    if failures.len() > 0 {
        lemma_no_seed_in_logs(failures.drop_first());
        assert(failure_logs(failures).drop_first() =~= failure_logs(failures.drop_first()));
    }
}

/// Appending an action other than `Seed` leaves the batch as it was.
proof fn lemma_seeded_batch_push(actions: Seq<FolderActionView>, last: FolderActionView)
    requires
        !(last is Seed),
    ensures
        seeded_batch(actions.push(last)) == seeded_batch(actions),
    decreases actions.len(),
{
    if actions.len() == 0 {
        reveal_with_fuel(seeded_batch, 2);
    } else {
        assert(actions.push(last).drop_first() =~= actions.drop_first().push(last));
        if !(actions[0] is Seed) {
            lemma_seeded_batch_push(actions.drop_first(), last);
        }
    }
}

impl RegistrationStateView {
    /// How many decisions lie behind a state.
    pub open spec fn rank(self) -> nat {
        match self {
            RegistrationStateView::Probing => 0,
            RegistrationStateView::Creating => 1,
            RegistrationStateView::Listing => 1,
            RegistrationStateView::SeedingCreated { .. } => 2,
            RegistrationStateView::Rearming => 2,
            RegistrationStateView::SeedingEmpty { .. } => 2,
            RegistrationStateView::Arming => 3,
            RegistrationStateView::Populated => 4,
            RegistrationStateView::Watched => 4,
            RegistrationStateView::Failed(_) => 4,
        }
    }
}

/// A report takes the registration forward or leaves it where it is, and a
/// registration that is done stays as it is and asks for nothing more.
pub proof fn lemma_registration_advances(
    state: RegistrationStateView,
    event: FolderEventView,
    folder: Seq<char>,
    batch: Seq<CanaryFileView>,
)
    ensures
        registration_step(state, event, folder, batch).0 == state || registration_step(
            state,
            event,
            folder,
            batch,
        ).0.rank() > state.rank(),
        state.is_final() ==> registration_step(state, event, folder, batch) == (
            state,
            Seq::<FolderActionView>::empty(),
        ),
{
}

/// A folder comes to be watched only once it holds files and the watcher has
/// taken it: `Watched` follows `Arming` on the watcher's word alone, and
/// `Arming` follows only a folder whose files were touched or one that was
/// found empty and seeded.
pub proof fn lemma_watched_after_files_and_watcher(
    state: RegistrationStateView,
    event: FolderEventView,
    folder: Seq<char>,
    batch: Seq<CanaryFileView>,
)
    ensures
        registration_step(state, event, folder, batch).0 is Watched ==> state is Watched || (state
            is Arming && event is WatchStarted),
        registration_step(state, event, folder, batch).0 is Arming ==> state is Arming || (state
            is Rearming && event is Touched) || (state is SeedingEmpty && event is Seeded),
        registration_step(state, event, folder, batch).0 is Rearming ==> state is Rearming || (
        state is Listing && event is Listed && regular_files(event->Listed_0).len() > 0),
        registration_step(state, event, folder, batch).0 is SeedingEmpty ==> state is SeedingEmpty
            || (state is Listing && seeds(state, event)),
{
}

/// A folder that is missing is seeded and left unwatched for this pass: once
/// it is created, a batch is written, and the registration ends as `Populated`
/// without the watcher having been asked.
pub proof fn lemma_missing_folder_is_seeded(
    folder: Seq<char>,
    batch: Seq<CanaryFileView>,
    failures: Seq<FileFailureView>,
)
    ensures
        registration_step(
            RegistrationStateView::Probing,
            FolderEventView::Probed { exists: false },
            folder,
            batch,
        ) == (RegistrationStateView::Creating, seq![FolderActionView::CreateFolder]),
        seeded_batch(
            registration_step(
                RegistrationStateView::Creating,
                FolderEventView::Created,
                folder,
                batch,
            ).1,
        ) == batch,
        registration_step(
            RegistrationStateView::SeedingCreated { count: batch.len() },
            FolderEventView::Seeded(failures),
            folder,
            batch,
        ).0 == RegistrationStateView::Populated,
        !registration_step(
            RegistrationStateView::SeedingCreated { count: batch.len() },
            FolderEventView::Seeded(failures),
            folder,
            batch,
        ).1.contains(FolderActionView::Watch),
{
    lemma_seeded_batch(
        RegistrationStateView::Creating,
        FolderEventView::Created,
        folder,
        batch,
    );
}

/// Whether `path` is the path of a regular file among `entries`.
pub open spec fn is_regular_path(entries: Seq<FolderEntryView>, path: Seq<char>) -> bool {
    exists|k: int|
        0 <= k < entries.len() && (#[trigger] entries[k]).is_file && entries[k].path == path
}

/// Every regular file among the entries is among `regular_files`, and
/// `regular_files` holds nothing else.
pub proof fn lemma_regular_files(entries: Seq<FolderEntryView>)
    ensures
        forall|k: int|
            0 <= k < entries.len() && (#[trigger] entries[k]).is_file ==> regular_files(
                entries,
            ).contains(entries[k].path),
        forall|j: int|
            0 <= j < regular_files(entries).len() ==> is_regular_path(
                entries,
                #[trigger] regular_files(entries)[j],
            ),
        regular_files(entries).len() <= entries.len(),
    decreases entries.len(),
{
    if entries.len() > 0 {
        let front = entries.drop_last();
        let found = regular_files(entries);
        lemma_regular_files(front);
        assert forall|k: int|
            0 <= k < entries.len() && (#[trigger] entries[k]).is_file implies found.contains(
            entries[k].path,
        ) by {
            if k < front.len() {
                assert(front[k] == entries[k]);
                let j = choose|j: int|
                    0 <= j < regular_files(front).len() && regular_files(front)[j]
                        == entries[k].path;
                assert(found[j] == entries[k].path);
            } else {
                assert(found[found.len() - 1] == entries[k].path);
            }
        }
        assert forall|j: int| 0 <= j < found.len() implies is_regular_path(
            entries,
            #[trigger] found[j],
        ) by {
            if j < regular_files(front).len() {
                let k = choose|k: int|
                    0 <= k < front.len() && (#[trigger] front[k]).is_file && front[k].path
                        == found[j];
                assert(entries[k] == front[k]);
            } else {
                assert(entries[entries.len() - 1].is_file);
            }
        }
    }
}

/// Registering a folder that holds a regular file touches every regular file
/// in it and writes none: the listing leads to one `Touch` with all of them,
/// and nothing from then on asks for a file to be written.
pub proof fn lemma_rearm_writes_no_file(
    entries: Seq<FolderEntryView>,
    folder: Seq<char>,
    batch: Seq<CanaryFileView>,
    k: int,
)
    requires
        0 <= k < entries.len(),
        entries[k].is_file,
    ensures
        registration_step(
            RegistrationStateView::Listing,
            FolderEventView::Listed(entries),
            folder,
            batch,
        ) == (
            RegistrationStateView::Rearming,
            seq![FolderActionView::Touch(regular_files(entries))],
        ),
        forall|i: int|
            0 <= i < entries.len() && (#[trigger] entries[i]).is_file ==> regular_files(
                entries,
            ).contains(entries[i].path),
        forall|state: RegistrationStateView, event: FolderEventView, other: Seq<CanaryFileView>|
            state.rank() >= RegistrationStateView::Rearming.rank() ==> seeded_batch(
                #[trigger] registration_step(state, event, folder, other).1,
            ).len() == 0,
{
    lemma_regular_files(entries);
    assert forall|state: RegistrationStateView, event: FolderEventView, other: Seq<CanaryFileView>|
        state.rank() >= RegistrationStateView::Rearming.rank() implies seeded_batch(
        #[trigger] registration_step(state, event, folder, other).1,
    ).len() == 0 by {
        lemma_seeded_batch(state, event, folder, other);
    }
}

} // verus!
