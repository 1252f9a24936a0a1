use termux_notification::command::CommandOutcome;
use termux_notification::RemoveHandle;

fn outcome(success: bool, stdout: &str, stderr: &str) -> CommandOutcome {
    CommandOutcome { success, stdout: stdout.to_string(), stderr: stderr.to_string() }
}

#[test]
fn no_id_means_no_command_and_success() {
    let h = RemoveHandle::new(None);
    assert!(h.to_command().is_none());
    assert_eq!(h.remove(&outcome(false, "x", "y")), Ok(()));
}

#[test]
fn with_id_builds_remove_command() {
    let h = RemoveHandle::new(Some("n1".to_string()));
    let cmd = h.to_command().unwrap();
    assert_eq!(cmd.program, "termux-notification-remove");
    assert_eq!(cmd.args, vec!["n1"]);
    assert_eq!(h.id(), Some(&"n1".to_string()));
}

#[test]
fn with_id_reports_failure() {
    let h = RemoveHandle::new(Some("n1".to_string()));
    assert_eq!(h.remove(&outcome(true, "", "")), Ok(()));
    assert_eq!(h.remove(&outcome(false, "o", "e")), Err("o\ne".to_string()));
}
