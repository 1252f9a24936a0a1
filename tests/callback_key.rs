use termux_notification::callback_key::CallbackKey;

#[test]
fn se_de() {
    let key = CallbackKey::new("complex@id".into(), "trigger".into());
    let se = key.to_string();
    let de = CallbackKey::from_str(&se).unwrap();
    assert_eq!(key, de);
}

#[test]
fn encodes_id_at_trigger() {
    let key = CallbackKey::new("complex@id".into(), "trigger".into());
    assert_eq!(key.to_string(), "complex@id@trigger");
}

#[test]
fn decodes_on_last_at() {
    let key = CallbackKey::from_str("a@b@c").unwrap();
    assert_eq!(key.id(), "a@b");
    assert_eq!(key.trigger(), "c");
}

#[test]
fn decode_without_at_fails() {
    assert_eq!(CallbackKey::from_str("no-separator"), Err("no-separator".to_string()));
    assert_eq!(CallbackKey::from_str(""), Err(String::new()));
}

#[test]
fn decode_edge_at_positions() {
    let key = CallbackKey::from_str("@").unwrap();
    assert_eq!(key.id(), "");
    assert_eq!(key.trigger(), "");
    let key = CallbackKey::from_str("é@--action").unwrap();
    assert_eq!(key.id(), "é");
    assert_eq!(key.trigger(), "--action");
}

#[test]
fn finish_triggers() {
    let tap = CallbackKey::new("n1".into(), "--action".into());
    let delete = CallbackKey::new("n1".into(), "--on-delete".into());
    let button = CallbackKey::new("n1".into(), "--button1".into());
    assert!(tap.is_finish_trigger());
    assert!(delete.is_finish_trigger());
    assert!(!button.is_finish_trigger());
}
