use wsl_automount::mount::{Command, MountError, ProcessOutcome};
use wsl_automount::watch::{report, Action, StreamItem, WatchError, Watcher};

/// Feeds `items` to a watcher, answering each launch from `outcomes`;
/// returns the launched argument lists, the report lines and the exit.
fn drive(
    items: Vec<StreamItem>,
    outcomes: Vec<ProcessOutcome>,
) -> (Vec<Vec<String>>, Vec<(String, bool)>, Result<(), WatchError>) {
    let mut w = Watcher::new();
    let mut items = items.into_iter();
    let mut outcomes = outcomes.into_iter();
    let mut launched = Vec::new();
    let mut lines = Vec::new();
    loop {
        match w.next_action() {
            Action::AwaitEvent => {
                let item = items.next().unwrap_or(StreamItem::Ended);
                if let Some(r) = w.on_item(item) {
                    lines.push((r.line, r.is_error));
                }
            }
            Action::Launch(c) => {
                launched.push(c.args());
                let o = outcomes.next().expect("an outcome for each launch");
                if let Some(r) = w.on_outcome(o) {
                    lines.push((r.line, r.is_error));
                }
            }
            Action::Exit(r) => return (launched, lines, r),
        }
    }
}

#[test]
fn two_events_for_same_drive_are_independent() {
    let (launched, lines, exit) = drive(
        vec![StreamItem::Volume("E:".to_string()), StreamItem::Volume("E:".to_string())],
        vec![
            ProcessOutcome::Exited { success: true },
            ProcessOutcome::Exited { success: false },
            ProcessOutcome::Exited { success: true },
            ProcessOutcome::Exited { success: true },
        ],
    );
    let mount: Vec<String> = ["-u", "root", "-e", "mount", "-t", "drvfs", "E:", "/mnt/e"]
        .iter()
        .map(|s| s.to_string())
        .collect();
    let check: Vec<String> = vec!["--list".to_string(), "--running".to_string()];
    assert_eq!(launched, vec![check.clone(), mount.clone(), check, mount]);
    assert_eq!(
        lines,
        vec![
            ("Failed to mount drive E:: Failed to mount drive".to_string(), true),
            ("Drive E: mounted".to_string(), false),
        ]
    );
    assert_eq!(exit, Ok(()));
}

#[test]
fn not_running_logs_single_failure() {
    let (launched, lines, exit) = drive(
        vec![StreamItem::Volume("G:".to_string())],
        vec![ProcessOutcome::Exited { success: false }],
    );
    assert_eq!(launched, vec![vec!["--list".to_string(), "--running".to_string()]]);
    assert_eq!(
        lines,
        vec![("Failed to mount drive G:: WSL is not running".to_string(), true)]
    );
    assert_eq!(exit, Ok(()));
}

#[test]
fn corrupt_item_ends_loop() {
    let (launched, lines, exit) = drive(
        vec![StreamItem::Corrupted, StreamItem::Volume("E:".to_string())],
        vec![],
    );
    assert!(launched.is_empty());
    assert!(lines.is_empty());
    assert_eq!(exit, Err(WatchError::AdapterStreamCorrupted));
}

#[test]
fn empty_identifier_is_reported_and_loop_goes_on() {
    let (launched, lines, exit) = drive(
        vec![StreamItem::Volume(String::new()), StreamItem::Volume("H:".to_string())],
        vec![ProcessOutcome::Exited { success: true }, ProcessOutcome::Exited { success: true }],
    );
    assert_eq!(launched.len(), 2);
    assert_eq!(
        lines,
        vec![
            ("Failed to mount drive : Invalid drive path".to_string(), true),
            ("Drive H: mounted".to_string(), false),
        ]
    );
    assert_eq!(exit, Ok(()));
}

#[test]
fn query_failure_is_reported() {
    let (_, lines, _) = drive(
        vec![StreamItem::Volume("E:".to_string())],
        vec![ProcessOutcome::LaunchFailed],
    );
    assert_eq!(
        lines,
        vec![("Failed to mount drive E:: Failed to query running WSL instances".to_string(), true)]
    );
}

#[test]
fn fresh_watcher_awaits_event() {
    let w = Watcher::new();
    assert!(matches!(w.next_action(), Action::AwaitEvent));
    let mut w = Watcher::new();
    assert!(w.on_item(StreamItem::Volume("E:".to_string())).is_none());
    assert!(matches!(w.next_action(), Action::Launch(Command::ListRunning)));
}

#[test]
fn report_lines() {
    let ok = report("E:", Ok(()));
    assert_eq!(ok.line, "Drive E: mounted");
    assert!(!ok.is_error);
    let err = report("E:", Err(MountError::ProcessLaunchFailed));
    assert_eq!(err.line, "Failed to mount drive E:: Failed to launch the mount command");
    assert!(err.is_error);
}

#[test]
fn error_messages() {
    assert_eq!(MountError::MalformedVolumeIdentifier.message(), "Invalid drive path");
    assert_eq!(MountError::SubsystemNotRunning.message(), "WSL is not running");
    assert_eq!(MountError::MountCommandFailed.message(), "Failed to mount drive");
    assert_eq!(WatchError::AdapterConnectionFailed.message(), "Failed to connect to WMI");
    assert_eq!(
        WatchError::AdapterStreamCorrupted.message(),
        "The WMI event stream is corrupted"
    );
}
