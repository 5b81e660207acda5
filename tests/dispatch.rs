use volume_notification::{DecodeError, Dispatcher, NotificationRequest, TagRegistry, NO_HANDLE};

fn encode(tag: &str, body: Option<&str>, value: Option<i32>) -> Vec<u8> {
    let record = (tag.to_string(), body.map(|b| b.to_string()), value);
    bincode::Options::serialize(bincode::DefaultOptions::new(), &record).unwrap()
}

fn request(tag: &str, body: Option<&str>, value: Option<i32>) -> NotificationRequest {
    NotificationRequest {
        tag: tag.to_string(),
        body: body.map(|b| b.to_string()),
        value,
    }
}

#[test]
fn volume_replace_then_close_scenario() {
    let mut d = Dispatcher::new(2000);
    let first = d.receive(&encode("volume", None, Some(50))).unwrap();
    assert_eq!(first.replaces(), 0);
    assert_eq!(first.summary_str(), "volume");
    assert_eq!(first.hint_list(), &vec![("value".to_string(), 50)]);
    d.shown(first.summary_str(), 7);

    let second = d.receive(&encode("volume", None, Some(60))).unwrap();
    assert_eq!(second.replaces(), 7);
    assert_eq!(second.hint_list(), &vec![("value".to_string(), 60)]);
    d.shown(second.summary_str(), 9);
    assert_eq!(d.current_handle("volume"), 9);

    d.closed(7);
    assert_eq!(d.current_handle("volume"), 9);
    d.closed(9);
    assert_eq!(d.current_handle("volume"), NO_HANDLE);
}

#[test]
fn missing_body_and_value_give_empty_body_and_no_hint() {
    let d = Dispatcher::new(2000);
    let n = d.receive(&encode("a", None, None)).unwrap();
    assert_eq!(n.summary_str(), "a");
    assert_eq!(n.body_str(), "");
    assert!(n.hint_list().is_empty());
    assert_eq!(n.replaces(), 0);
    assert_eq!(n.expire_timeout_ms(), 2000);
}

#[test]
fn body_is_passed_on() {
    let d = Dispatcher::new(3000);
    let n = d.receive(&encode("mail", Some("3 new"), None)).unwrap();
    assert_eq!(n.body_str(), "3 new");
    assert_eq!(n.expire_timeout_ms(), 3000);
    assert_eq!(n.app_name_str(), "");
    assert_eq!(n.app_icon_str(), "");
    assert!(n.action_list().is_empty());
}

#[test]
fn second_request_replaces_first_handle() {
    let mut d = Dispatcher::new(1000);
    let n = d.prepare(&request("brightness", None, Some(10)));
    assert_eq!(n.replaces(), 0);
    d.shown("brightness", 42);
    let n = d.prepare(&request("brightness", None, Some(20)));
    assert_eq!(n.replaces(), 42);
}

#[test]
fn unseen_tag_creates_new_notification() {
    let mut d = Dispatcher::new(1000);
    d.shown("volume", 5);
    d.shown("mic", 6);
    d.closed(6);
    let n = d.prepare(&request("brightness", None, None));
    assert_eq!(n.replaces(), NO_HANDLE);
}

#[test]
fn close_frees_tag() {
    let mut d = Dispatcher::new(1000);
    d.shown("volume", 11);
    d.closed(11);
    let n = d.prepare(&request("volume", None, Some(1)));
    assert_eq!(n.replaces(), 0);
}

#[test]
fn stale_close_keeps_newer_handle() {
    let mut d = Dispatcher::new(1000);
    d.shown("volume", 3);
    d.shown("volume", 4);
    d.closed(3);
    let n = d.prepare(&request("volume", None, Some(1)));
    assert_eq!(n.replaces(), 4);
}

#[test]
fn close_leaves_other_tags() {
    let mut d = Dispatcher::new(1000);
    d.shown("volume", 3);
    d.shown("mic", 8);
    d.closed(3);
    assert_eq!(d.current_handle("volume"), 0);
    assert_eq!(d.current_handle("mic"), 8);
}

#[test]
fn decode_failure_does_not_block_next_datagram() {
    let mut d = Dispatcher::new(1000);
    d.shown("volume", 12);
    let bad = d.receive(&[0xff, 0x01]);
    assert!(matches!(bad, Err(DecodeError::Malformed)));
    assert_eq!(d.current_handle("volume"), 12);
    let good = d.receive(&encode("volume", None, Some(70))).unwrap();
    assert_eq!(good.replaces(), 12);
}

#[test]
fn empty_tag_is_refused() {
    let d = Dispatcher::new(1000);
    let r = d.receive(&encode("", Some("x"), None));
    assert!(matches!(r, Err(DecodeError::EmptyTag)));
}

#[test]
fn registry_operations() {
    let mut reg = TagRegistry::new();
    assert_eq!(reg.lookup_or_default("a"), 0);
    reg.upsert("a", 1);
    reg.upsert("b", 1);
    reg.upsert("c", 2);
    assert_eq!(reg.lookup_or_default("a"), 1);
    reg.upsert("a", 5);
    assert_eq!(reg.lookup_or_default("a"), 5);
    reg.remove_by_handle(1);
    assert_eq!(reg.lookup_or_default("a"), 5);
    assert_eq!(reg.lookup_or_default("b"), 0);
    assert_eq!(reg.lookup_or_default("c"), 2);
    reg.remove_by_handle(99);
    assert_eq!(reg.lookup_or_default("c"), 2);
}
