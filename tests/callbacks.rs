use std::cell::RefCell;

use termux_notification::callback_key::CallbackKey;
use termux_notification::callback_map::CallbackMap;
use termux_notification::callbacks::Callbacks;
use termux_notification::options::Flag;
use termux_notification::TermuxNotification;

fn key(id: &str, trigger: &str) -> CallbackKey {
    CallbackKey::new(id.to_string(), trigger.to_string())
}

#[test]
fn register_returns_signal_command() {
    let mut cbs: Callbacks<u32> = Callbacks::new("/tmp/t.socket".to_string());
    let cmd = cbs.register(key("n1", "--action"), 1);
    assert_eq!(cmd, r#"echo "n1@--action" | nc -UN /tmp/t.socket"#);
    assert_eq!(cbs.socket(), "/tmp/t.socket");
}

#[test]
fn replaced_action_runs_instead_of_first() {
    let mut cbs: Callbacks<u32> = Callbacks::new("/tmp/t.socket".to_string());
    cbs.register(key("n1", "--button1"), 1);
    cbs.register(key("n1", "--button1"), 2);
    let log = RefCell::new(Vec::new());
    assert!(cbs.dispatch("n1@--button1", |a: &u32| log.borrow_mut().push(*a)));
    assert_eq!(*log.borrow(), vec![2]);
}

#[test]
fn finish_trigger_removes_all_of_id() {
    let mut cbs: Callbacks<u32> = Callbacks::new("/tmp/t.socket".to_string());
    cbs.register(key("n1", "--action"), 1);
    cbs.register(key("n1", "--on-delete"), 2);
    cbs.register(key("n1", "--button1"), 3);
    cbs.register(key("n2", "--button1"), 4);
    let log = RefCell::new(Vec::new());
    let run = |a: &u32| log.borrow_mut().push(*a);
    assert!(cbs.dispatch("n1@--action", run));
    assert!(!cbs.dispatch("n1@--button1", run));
    assert!(!cbs.dispatch("n1@--on-delete", run));
    assert!(cbs.dispatch("n2@--button1", run));
    assert_eq!(*log.borrow(), vec![1, 4]);
}

#[test]
fn on_delete_also_finishes() {
    let mut cbs: Callbacks<u32> = Callbacks::new("s".to_string());
    cbs.register(key("n1", "--on-delete"), 2);
    cbs.register(key("n1", "--button2"), 3);
    let log = RefCell::new(Vec::new());
    let run = |a: &u32| log.borrow_mut().push(*a);
    assert!(cbs.dispatch("n1@--on-delete", run));
    assert!(!cbs.dispatch("n1@--button2", run));
    assert_eq!(*log.borrow(), vec![2]);
}

#[test]
fn other_trigger_keeps_entries() {
    let mut cbs: Callbacks<u32> = Callbacks::new("/tmp/t.socket".to_string());
    cbs.register(key("n1", "--action"), 1);
    cbs.register(key("n1", "--on-delete"), 2);
    cbs.register(key("n1", "--button1"), 3);
    cbs.register(key("n1", "--button2"), 5);
    let log = RefCell::new(Vec::new());
    let run = |a: &u32| log.borrow_mut().push(*a);
    assert!(cbs.dispatch("n1@--button1", run));
    assert!(cbs.dispatch("n1@--button1", run));
    assert!(cbs.dispatch("n1@--button2", run));
    assert!(cbs.dispatch("n1@--on-delete", run));
    assert_eq!(*log.borrow(), vec![3, 3, 5, 2]);
}

#[test]
fn malformed_and_unknown_signals_are_ignored() {
    let mut cbs: Callbacks<u32> = Callbacks::new("/tmp/t.socket".to_string());
    cbs.register(key("n1", "--action"), 1);
    let log = RefCell::new(Vec::new());
    let run = |a: &u32| log.borrow_mut().push(*a);
    assert!(!cbs.dispatch("garbage", run));
    assert!(!cbs.dispatch("", run));
    assert!(!cbs.dispatch("n9@--action", run));
    assert!(!cbs.dispatch("n1@--button3", run));
    assert!(log.borrow().is_empty());
    assert!(cbs.dispatch("n1@--action", run));
    assert_eq!(*log.borrow(), vec![1]);
}

#[test]
fn id_with_at_is_dispatched() {
    let mut cbs: Callbacks<u32> = Callbacks::new("s".to_string());
    cbs.register(key("a@b", "--button1"), 7);
    let log = RefCell::new(Vec::new());
    assert!(cbs.dispatch("a@b@--button1", |a: &u32| log.borrow_mut().push(*a)));
    assert_eq!(*log.borrow(), vec![7]);
}

#[test]
fn map_insert_get_remove_id() {
    let mut map: CallbackMap<u32> = CallbackMap::new();
    assert_eq!(map.insert(key("n1", "--action"), 1), None);
    assert_eq!(map.insert(key("n1", "--button1"), 2), None);
    assert_eq!(map.insert(key("n1", "--action"), 3), Some(1));
    assert_eq!(map.get(&key("n1", "--action")), Some(&3));
    assert_eq!(map.get(&key("n2", "--action")), None);
    map.remove_id("n1");
    assert_eq!(map.get(&key("n1", "--action")), None);
    assert_eq!(map.get(&key("n1", "--button1")), None);
}

#[test]
fn action_fn_registers_and_sets_option() {
    let mut cbs: Callbacks<u32> = Callbacks::new("/tmp/t.socket".to_string());
    let mut n = TermuxNotification::new();
    n.id("n1").action_fn(&mut cbs, 1).on_delete_fn(&mut cbs, 2);
    n.button1_fn(&mut cbs, "ONE", 3);
    n.button2_fn(&mut cbs, "TWO", 4);
    n.button3_fn(&mut cbs, "THREE", 5);
    let args = n.to_command().args;
    assert_eq!(
        args,
        vec![
            "--id",
            "n1",
            "--action",
            r#"echo "n1@--action" | nc -UN /tmp/t.socket"#,
            "--on-delete",
            r#"echo "n1@--on-delete" | nc -UN /tmp/t.socket"#,
            "--button1",
            "ONE",
            "--button1-action",
            r#"echo "n1@--button1" | nc -UN /tmp/t.socket"#,
            "--button2",
            "TWO",
            "--button2-action",
            r#"echo "n1@--button2" | nc -UN /tmp/t.socket"#,
            "--button3",
            "THREE",
            "--button3-action",
            r#"echo "n1@--button3" | nc -UN /tmp/t.socket"#,
        ]
    );
    let log = RefCell::new(Vec::new());
    let run = |a: &u32| log.borrow_mut().push(*a);
    assert!(cbs.dispatch("n1@--button3", run));
    assert!(cbs.dispatch("n1@--button2", run));
    assert!(cbs.dispatch("n1@--button1", run));
    assert!(cbs.dispatch("n1@--on-delete", run));
    assert_eq!(*log.borrow(), vec![5, 4, 3, 2]);
    assert_eq!(Flag::Button3.name(), "--button3");
}
