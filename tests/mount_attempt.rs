use wsl_automount::mount::{
    begin_mount, mount_path, mount_point_name, AttemptState, Command, MountError, ProcessOutcome,
};

fn args_of(c: &Command) -> Vec<String> {
    c.args()
}

#[test]
fn mount_point_of_drive_letter() {
    assert_eq!(mount_point_name("E:"), Ok("e".to_string()));
}

#[test]
fn mount_point_ignores_rest_of_identifier() {
    assert_eq!(mount_point_name("F:\\"), Ok("f".to_string()));
    assert_eq!(mount_point_name("Fxyz"), Ok("f".to_string()));
    assert_eq!(mount_point_name("f"), Ok("f".to_string()));
}

#[test]
fn mount_point_of_empty_identifier_fails() {
    assert_eq!(mount_point_name(""), Err(MountError::MalformedVolumeIdentifier));
}

#[test]
fn mount_path_prefixes_mnt() {
    assert_eq!(mount_path("e"), "/mnt/e");
}

#[test]
fn list_running_arguments() {
    let c = Command::ListRunning;
    assert_eq!(c.program(), "wsl");
    assert_eq!(args_of(&c), vec!["--list", "--running"]);
}

#[test]
fn mount_arguments() {
    let c = Command::Mount { volume: "E:".to_string(), mount_point: "e".to_string() };
    assert_eq!(c.program(), "wsl");
    assert_eq!(
        args_of(&c),
        vec!["-u", "root", "-e", "mount", "-t", "drvfs", "E:", "/mnt/e"]
    );
}

#[test]
fn empty_identifier_launches_nothing() {
    let s = begin_mount("");
    assert!(s.pending_command().is_none());
    assert_eq!(s.result(), Some(Err(MountError::MalformedVolumeIdentifier)));
}

#[test]
fn not_running_stops_after_check() {
    let s = begin_mount("G:");
    assert!(matches!(s.pending_command(), Some(Command::ListRunning)));
    assert_eq!(s.result(), None);
    let s = s.advance(ProcessOutcome::Exited { success: false });
    assert!(s.pending_command().is_none());
    assert_eq!(s.result(), Some(Err(MountError::SubsystemNotRunning)));
}

#[test]
fn running_and_mount_exits_zero_succeeds() {
    let s = begin_mount("E:");
    let s = s.advance(ProcessOutcome::Exited { success: true });
    match s.pending_command() {
        Some(Command::Mount { volume, mount_point }) => {
            assert_eq!(volume, "E:");
            assert_eq!(mount_point, "e");
        }
        other => panic!("unexpected command {:?}", other),
    }
    let s = s.advance(ProcessOutcome::Exited { success: true });
    assert!(s.pending_command().is_none());
    assert_eq!(s.result(), Some(Ok(())));
}

#[test]
fn mount_exits_nonzero_fails() {
    let s = begin_mount("E:")
        .advance(ProcessOutcome::Exited { success: true })
        .advance(ProcessOutcome::Exited { success: false });
    assert!(s.pending_command().is_none());
    assert_eq!(s.result(), Some(Err(MountError::MountCommandFailed)));
}

#[test]
fn check_launch_failure_is_query_failure() {
    let s = begin_mount("E:").advance(ProcessOutcome::LaunchFailed);
    assert_eq!(s.result(), Some(Err(MountError::SubsystemQueryFailed)));
}

#[test]
fn mount_launch_failure_is_launch_failure() {
    let s = begin_mount("E:")
        .advance(ProcessOutcome::Exited { success: true })
        .advance(ProcessOutcome::LaunchFailed);
    assert_eq!(s.result(), Some(Err(MountError::ProcessLaunchFailed)));
}

#[test]
fn finished_attempt_stays_finished() {
    let s = AttemptState::Finished(Ok(())).advance(ProcessOutcome::Exited { success: false });
    assert_eq!(s.result(), Some(Ok(())));
}
