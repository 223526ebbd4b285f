//! The watch loop: what to do with each volume notification and each
//! launched process, and when to stop.
use vstd::prelude::*;
use vstd::string::*;
use crate::mount::{
    begin_mount, begin_spec, advance_spec, pending_spec, AttemptModel, AttemptState, Command,
    CommandModel, MountError, ProcessOutcome,
};

verus! {

/// Why the watch loop ended.
#[derive(Clone, Copy, Debug, PartialEq, Eq, Structural)]
pub enum WatchError {
    /// The instrumentation service could not be reached at startup.
    AdapterConnectionFailed,
    /// A notification could not be read; the stream is broken.
    AdapterStreamCorrupted,
}

/// The text that describes a mount error.
pub open spec fn mount_error_message(e: MountError) -> Seq<char> {
    match e {
        MountError::MalformedVolumeIdentifier => "Invalid drive path"@,
        MountError::SubsystemQueryFailed => "Failed to query running WSL instances"@,
        MountError::SubsystemNotRunning => "WSL is not running"@,
        MountError::MountCommandFailed => "Failed to mount drive"@,
        MountError::ProcessLaunchFailed => "Failed to launch the mount command"@,
    }
}

/// The text that describes a watch error.
pub open spec fn watch_error_message(e: WatchError) -> Seq<char> {
    match e {
        WatchError::AdapterConnectionFailed => "Failed to connect to WMI"@,
        WatchError::AdapterStreamCorrupted => "The WMI event stream is corrupted"@,
    }
}

impl MountError {
    /// Describes the error.
    pub fn message(&self) -> (r: &'static str)
        ensures
            r@ == mount_error_message(*self),
    {
        match self {
            MountError::MalformedVolumeIdentifier => "Invalid drive path",
            MountError::SubsystemQueryFailed => "Failed to query running WSL instances",
            MountError::SubsystemNotRunning => "WSL is not running",
            MountError::MountCommandFailed => "Failed to mount drive",
            MountError::ProcessLaunchFailed => "Failed to launch the mount command",
        }
    }
}

impl WatchError {
    /// Describes the error.
    pub fn message(&self) -> (r: &'static str)
        ensures
            r@ == watch_error_message(*self),
    {
        match self {
            WatchError::AdapterConnectionFailed => "Failed to connect to WMI",
            WatchError::AdapterStreamCorrupted => "The WMI event stream is corrupted",
        }
    }
}

/// The line that reports how the attempt to mount `drive` ended.
pub open spec fn report_text(drive: Seq<char>, result: Result<(), MountError>) -> Seq<char> {
    match result {
        Ok(()) => "Drive "@ + drive + " mounted"@,
        Err(e) => "Failed to mount drive "@ + drive + ": "@ + mount_error_message(e),
    }
}

/// A line for the log; error lines go to standard error.
#[derive(Debug)]
pub struct Report {
    pub line: String,
    pub is_error: bool,
}

/// The model of a [`Report`].
pub struct ReportModel {
    pub line: Seq<char>,
    pub is_error: bool,
}

impl View for Report {
    type V = ReportModel;

    open spec fn view(&self) -> ReportModel {
        ReportModel { line: self.line@, is_error: self.is_error }
    }
}

/// The report on how the attempt to mount `drive` ended.
pub open spec fn report_spec(drive: Seq<char>, result: Result<(), MountError>) -> ReportModel {
    ReportModel { line: report_text(drive, result), is_error: result is Err }
}

/// Reports how the attempt to mount `drive` ended
/// (`"Failed to mount drive G:: WSL is not running"`).
pub fn report(drive: &str, result: Result<(), MountError>) -> (r: Report)
    ensures
        r@ == report_spec(drive@, result),
{
    match result {
        Ok(()) => {
            let mut line = String::from_str("Drive ");
            line.append(drive);
            line.append(" mounted");
            Report { line, is_error: false }
        },
        Err(e) => {
            let mut line = String::from_str("Failed to mount drive ");
            line.append(drive);
            line.append(": ");
            line.append(e.message());
            Report { line, is_error: true }
        },
    }
}

/// What the instrumentation service handed over.
#[derive(Debug)]
pub enum StreamItem {
    /// A volume with this identifier was created.
    Volume(String),
    /// A notification that could not be read.
    Corrupted,
    /// The stream ended.
    Ended,
}

/// The model of a [`StreamItem`].
pub enum StreamItemModel {
    Volume(Seq<char>),
    Corrupted,
    Ended,
}

impl View for StreamItem {
    type V = StreamItemModel;

    open spec fn view(&self) -> StreamItemModel {
        match self {
            StreamItem::Volume(v) => StreamItemModel::Volume(v@),
            StreamItem::Corrupted => StreamItemModel::Corrupted,
            StreamItem::Ended => StreamItemModel::Ended,
        }
    }
}

/// Where the watch loop stands.
#[derive(Debug)]
pub enum Watcher {
    /// Waiting for the next notification.
    Waiting,
    /// Handling the notification for `drive`.
    Handling { drive: String, attempt: AttemptState },
    /// The loop is over, with this result.
    Stopped(Result<(), WatchError>),
}

/// The model of a [`Watcher`].
pub enum WatcherModel {
    Waiting,
    Handling { drive: Seq<char>, attempt: AttemptModel },
    Stopped(Result<(), WatchError>),
}

impl View for Watcher {
    type V = WatcherModel;

    open spec fn view(&self) -> WatcherModel {
        match self {
            Watcher::Waiting => WatcherModel::Waiting,
            Watcher::Handling { drive, attempt } => WatcherModel::Handling {
                drive: drive@,
                attempt: attempt@,
            },
            Watcher::Stopped(r) => WatcherModel::Stopped(*r),
        }
    }
}

/// A watcher that handles a notification always has a process pending.
pub open spec fn watcher_wf(w: WatcherModel) -> bool {
    w matches WatcherModel::Handling { attempt, .. } ==> !(attempt is Finished)
}

/// What the loop is to do next.
#[derive(Debug)]
pub enum Action {
    /// Wait for the next notification and hand it to `on_item`.
    AwaitEvent,
    /// Launch this process and hand its outcome to `on_outcome`.
    Launch(Command),
    /// End the loop with this result.
    Exit(Result<(), WatchError>),
}

/// The model of an [`Action`].
pub enum ActionModel {
    AwaitEvent,
    Launch(CommandModel),
    Exit(Result<(), WatchError>),
}

impl View for Action {
    type V = ActionModel;

    open spec fn view(&self) -> ActionModel {
        match self {
            Action::AwaitEvent => ActionModel::AwaitEvent,
            Action::Launch(c) => ActionModel::Launch(c@),
            Action::Exit(r) => ActionModel::Exit(*r),
        }
    }
}

/// What the loop does next in state `w`.
pub open spec fn action_spec(w: WatcherModel) -> ActionModel {
    match w {
        WatcherModel::Waiting => ActionModel::AwaitEvent,
        WatcherModel::Handling { attempt, .. } => ActionModel::Launch(pending_spec(attempt)->0),
        WatcherModel::Stopped(r) => ActionModel::Exit(r),
    }
}

/// The state that an attempt on `drive` leads to, with the report that its
/// end gives.
pub open spec fn settle(drive: Seq<char>, attempt: AttemptModel) -> (WatcherModel, Option<ReportModel>) {
    match attempt {
        AttemptModel::Finished(r) => (WatcherModel::Waiting, Some(report_spec(drive, r))),
        _ => (WatcherModel::Handling { drive, attempt }, None),
    }
}

/// The state and report that follow a waiting loop's receipt of `item`.
pub open spec fn on_item_spec(item: StreamItemModel) -> (WatcherModel, Option<ReportModel>) {
    match item {
        StreamItemModel::Volume(v) => settle(v, begin_spec(v)),
        StreamItemModel::Corrupted => (
            WatcherModel::Stopped(Err(WatchError::AdapterStreamCorrupted)),
            None,
        ),
        StreamItemModel::Ended => (WatcherModel::Stopped(Ok(())), None),
    }
}

/// The state and report that follow when the pending process of `w` came to
/// `outcome`.
pub open spec fn on_outcome_spec(w: WatcherModel, outcome: ProcessOutcome) -> (
    WatcherModel,
    Option<ReportModel>,
) {
    match w {
        WatcherModel::Handling { drive, attempt } => settle(drive, advance_spec(attempt, outcome)),
        _ => (w, None),
    }
}

/// The model of an optional report.
pub open spec fn report_opt(r: Option<Report>) -> Option<ReportModel> {
    match r {
        Some(rep) => Some(rep@),
        None => None,
    }
}

/// Moves to the state that `attempt` on `drive` leads to.
fn settle_exec(drive: String, attempt: AttemptState) -> (r: (Watcher, Option<Report>))
    ensures
        (r.0@, report_opt(r.1)) == settle(drive@, attempt@),
        watcher_wf(r.0@),
{
    match attempt.result() {
        Some(res) => {
            let rep = report(drive.as_str(), res);
            (Watcher::Waiting, Some(rep))
        },
        None => (Watcher::Handling { drive, attempt }, None),
    }
}

impl Watcher {
    /// A loop that waits for its first notification.
    pub fn new() -> (r: Watcher)
        ensures
            r@ == WatcherModel::Waiting,
    {
        Watcher::Waiting
    }

    /// What the loop is to do next.
    pub fn next_action(&self) -> (r: Action)
        requires
            watcher_wf(self@),
        ensures
            r@ == action_spec(self@),
    {
        match self {
            Watcher::Waiting => Action::AwaitEvent,
            Watcher::Handling { attempt, .. } => match attempt.pending_command() {
                Some(c) => Action::Launch(c),
                None => Action::Exit(Ok(())),
            },
            Watcher::Stopped(r) => Action::Exit(*r),
        }
    }

    /// Handles a notification; returns the report of an attempt that ended
    /// at once.
    pub fn on_item(&mut self, item: StreamItem) -> (r: Option<Report>)
        requires
            old(self)@ is Waiting,
        ensures
            (final(self)@, report_opt(r)) == on_item_spec(item@),
            watcher_wf(final(self)@),
    {
        match item {
            StreamItem::Volume(v) => {
                let attempt = begin_mount(v.as_str());
                let (w, rep) = settle_exec(v, attempt);
                *self = w;
                rep
            },
            StreamItem::Corrupted => {
                *self = Watcher::Stopped(Err(WatchError::AdapterStreamCorrupted));
                None
            },
            StreamItem::Ended => {
                *self = Watcher::Stopped(Ok(()));
                None
            },
        }
    }

    /// Handles the outcome of the pending process; returns the report of an
    /// attempt that it ended.
    pub fn on_outcome(&mut self, outcome: ProcessOutcome) -> (r: Option<Report>)
        requires
            old(self)@ is Handling,
            watcher_wf(old(self)@),
        ensures
            (final(self)@, report_opt(r)) == on_outcome_spec(old(self)@, outcome),
            watcher_wf(final(self)@),
    {
        let mut cur = Watcher::Waiting;
        std::mem::swap(self, &mut cur);
        match cur {
            Watcher::Handling { drive, attempt } => {
                let (w, rep) = settle_exec(drive, attempt.advance(outcome));
                *self = w;
                rep
            },
            other => {
                *self = other;
                None
            },
        }
    }
}

/// Whatever an attempt came to, once it ends the loop is back to waiting,
/// holding nothing of it, and reports the end on that attempt's drive.
pub proof fn lemma_attempt_end_resets(w: WatcherModel, outcome: ProcessOutcome)
    requires
        w is Handling,
        watcher_wf(w),
    ensures
        on_outcome_spec(w, outcome).1 is Some <==> on_outcome_spec(w, outcome).0 is Waiting,
        on_outcome_spec(w, outcome).0 is Waiting ==> action_spec(on_outcome_spec(w, outcome).0)
            == ActionModel::AwaitEvent,
        watcher_wf(on_outcome_spec(w, outcome).0),
{
}

/// A mount command that exits nonzero fails its attempt with
/// `MountCommandFailed`, and the next notification of a non-empty volume
/// starts afresh with its own check for a running instance.
pub proof fn lemma_mount_failure_isolated(
    drive: Seq<char>,
    volume: Seq<char>,
    mount_point: Seq<char>,
    next: Seq<char>,
)
    requires
        next.len() > 0,
    ensures
        ({
            let w = WatcherModel::Handling {
                drive,
                attempt: AttemptModel::Mounting { volume, mount_point },
            };
            let (w2, rep) = on_outcome_spec(w, ProcessOutcome::Exited { success: false });
            &&& w2 == WatcherModel::Waiting
            &&& rep == Some(report_spec(drive, Err(MountError::MountCommandFailed)))
        }),
        on_item_spec(StreamItemModel::Volume(next)).0 == (WatcherModel::Handling {
            drive: next,
            attempt: begin_spec(next),
        }),
        action_spec(on_item_spec(StreamItemModel::Volume(next)).0) == ActionModel::Launch(
            CommandModel::ListRunning,
        ),
{
}

/// A notification that cannot be read ends the loop with
/// `AdapterStreamCorrupted` rather than being skipped.
pub proof fn lemma_corrupt_item_stops()
    ensures
        on_item_spec(StreamItemModel::Corrupted) == (
            WatcherModel::Stopped(Err(WatchError::AdapterStreamCorrupted)),
            None::<ReportModel>,
        ),
        action_spec(on_item_spec(StreamItemModel::Corrupted).0) == ActionModel::Exit(
            Err(WatchError::AdapterStreamCorrupted),
        ),
{
}

} // verus!
