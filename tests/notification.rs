use termux_notification::command::{combined_output, ensure_success, CommandOutcome};
use termux_notification::options::Flag;
use termux_notification::TermuxNotification;

fn outcome(success: bool, stdout: &str, stderr: &str) -> CommandOutcome {
    CommandOutcome { success, stdout: stdout.to_string(), stderr: stderr.to_string() }
}

#[test]
fn flag_true_then_false_is_absent() {
    let mut n = TermuxNotification::new();
    n.alert_once(true).alert_once(false).ongoing(true).ongoing(false);
    assert!(n.to_command().args.is_empty());
}

#[test]
fn flag_true_is_present_alone() {
    let mut n = TermuxNotification::new();
    n.alert_once(true).ongoing(true).title("T");
    assert_eq!(n.to_command().args, vec!["--alert-once", "--ongoing", "--title", "T"]);
    n.alert_once(true);
    assert_eq!(n.to_command().args, vec!["--ongoing", "--title", "T", "--alert-once"]);
}

#[test]
fn to_command_builds_arguments() {
    let mut n = TermuxNotification::new();
    n.id("x").title("Foo").content("Bar").icon("event_note");
    let cmd = n.to_command();
    assert_eq!(cmd.program, "termux-notification");
    assert_eq!(
        cmd.args,
        vec!["--id", "x", "--title", "Foo", "--content", "Bar", "--icon", "event_note"]
    );
}

#[test]
fn setting_again_overwrites() {
    let mut n = TermuxNotification::new();
    n.id("a").title("one").id("b");
    assert_eq!(n.id_value(), Some("b".to_string()));
    assert_eq!(n.to_command().args, vec!["--title", "one", "--id", "b"]);
}

#[test]
fn plain_actions_and_buttons() {
    let mut n = TermuxNotification::new();
    n.action("a").on_delete("d").button1("L1", "A1").button2("L2", "A2").button3("L3", "A3");
    assert_eq!(
        n.to_command().args,
        vec![
            "--action", "a", "--on-delete", "d", "--button1", "L1", "--button1-action", "A1",
            "--button2", "L2", "--button2-action", "A2", "--button3", "L3", "--button3-action",
            "A3",
        ]
    );
}

#[test]
fn show_success_carries_id() {
    let mut n = TermuxNotification::new();
    n.id("n1");
    let h = n.show(&outcome(true, "ignored", "")).unwrap();
    assert_eq!(h.id(), Some(&"n1".to_string()));
    let h = TermuxNotification::new().show(&outcome(true, "", "")).unwrap();
    assert_eq!(h.id(), None);
}

#[test]
fn show_failure_reports_output() {
    let n = TermuxNotification::new();
    assert_eq!(n.show(&outcome(false, "out", "err")), Err("out\nerr".to_string()));
    assert_eq!(n.show(&outcome(false, "", "err")), Err("err".to_string()));
    assert_eq!(n.show(&outcome(false, "out", "")), Err("out".to_string()));
    assert_eq!(n.show(&outcome(false, "", "")), Err(String::new()));
}

#[test]
fn ensure_success_and_combined_output() {
    assert_eq!(ensure_success(&outcome(true, "a", "b")), Ok(()));
    assert_eq!(ensure_success(&outcome(false, "a", "b")), Err("a\nb".to_string()));
    assert_eq!(combined_output(&outcome(true, "a", "b")), "a\nb");
}

#[test]
fn flag_names() {
    assert_eq!(Flag::Id.name(), "--id");
    assert_eq!(Flag::AlertOnce.name(), "--alert-once");
    assert_eq!(Flag::OnDelete.name(), "--on-delete");
    assert_eq!(Flag::Button2Action.name(), "--button2-action");
}

#[test]
fn default_is_empty() {
    let n = TermuxNotification::default();
    assert_eq!(n, TermuxNotification::new());
    assert!(n.to_command().args.is_empty());
}

#[test]
fn clone_keeps_options() {
    let mut n = TermuxNotification::new();
    n.id("c").alert_once(true).title("T");
    let m = n.clone();
    assert_eq!(m, n);
    assert_eq!(m.to_command().args, vec!["--id", "c", "--alert-once", "--title", "T"]);
}
