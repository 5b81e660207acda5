use volume_notification::{Notification, TagMap};

#[test]
fn new_notification_is_empty() {
    let n = Notification::new();
    assert_eq!(n.summary_str(), "");
    assert_eq!(n.body_str(), "");
    assert_eq!(n.replaces(), 0);
    assert_eq!(n.expire_timeout_ms(), 0);
    assert!(n.hint_list().is_empty());
}

#[test]
fn builders_chain() {
    let mut n = Notification::new();
    n.summary("volume").body("50%").replaces_id(7).timeout(2500).add_hint("value", 50);
    assert_eq!(n.summary_str(), "volume");
    assert_eq!(n.body_str(), "50%");
    assert_eq!(n.replaces(), 7);
    assert_eq!(n.expire_timeout_ms(), 2500);
    assert_eq!(n.hint_list(), &vec![("value".to_string(), 50)]);
}

#[test]
fn add_hint_overwrites_same_key() {
    let mut n = Notification::new();
    n.add_hint("value", 1).add_hint("other", 2).add_hint("value", 3);
    assert_eq!(
        n.hint_list(),
        &vec![("value".to_string(), 3), ("other".to_string(), 2)]
    );
}

#[test]
fn tag_map_insert_get() {
    let mut m: TagMap<u32> = TagMap::new();
    assert_eq!(m.get("x"), None);
    m.insert("x", 1);
    m.insert("y", 2);
    m.insert("x", 3);
    assert_eq!(m.get("x"), Some(3));
    assert_eq!(m.get("y"), Some(2));
    assert_eq!(m.as_vec().len(), 2);
    m.remove_value(3);
    assert_eq!(m.get("x"), None);
    assert_eq!(m.get("y"), Some(2));
}
