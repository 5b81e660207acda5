use volume_notification::{decode, request_from_fields, DecodeError};

#[test]
fn decodes_hand_written_record() {
    // tag "volume" (varint length 6), body None, value Some(50) as zigzag varint 100
    let bytes = [6, b'v', b'o', b'l', b'u', b'm', b'e', 0, 1, 100];
    let r = decode(&bytes).unwrap();
    assert_eq!(r.tag, "volume");
    assert_eq!(r.body, None);
    assert_eq!(r.value, Some(50));
}

#[test]
fn decodes_body_and_negative_value() {
    let bytes = [1, b't', 1, 2, b'h', b'i', 1, 1];
    let r = decode(&bytes).unwrap();
    assert_eq!(r.tag, "t");
    assert_eq!(r.body, Some("hi".to_string()));
    assert_eq!(r.value, Some(-1));
}

#[test]
fn trailing_bytes_are_refused() {
    let bytes = [1, b't', 0, 0, 7];
    assert!(matches!(decode(&bytes), Err(DecodeError::Malformed)));
}

#[test]
fn truncated_record_is_refused() {
    let bytes = [6, b'v', b'o'];
    assert!(matches!(decode(&bytes), Err(DecodeError::Malformed)));
}

#[test]
fn empty_datagram_is_refused() {
    assert!(matches!(decode(&[]), Err(DecodeError::Malformed)));
}

#[test]
fn bad_option_tag_is_refused() {
    let bytes = [1, b't', 2, 0];
    assert!(matches!(decode(&bytes), Err(DecodeError::Malformed)));
}

#[test]
fn empty_tag_record_is_refused() {
    assert!(matches!(decode(&[0, 0, 0]), Err(DecodeError::EmptyTag)));
}

#[test]
fn fields_make_a_request() {
    let r = request_from_fields("volume".to_string(), Some("b".to_string()), Some(3)).unwrap();
    assert_eq!(r.tag, "volume");
    assert_eq!(r.body, Some("b".to_string()));
    assert_eq!(r.value, Some(3));
    assert!(matches!(
        request_from_fields(String::new(), None, None),
        Err(DecodeError::EmptyTag)
    ));
}
