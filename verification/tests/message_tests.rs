use zermia::message::{
    java_boolean, message_from_java, monitor_said_yes, new_message, payload_from_bytes, reply_or_zero, string_to_u8_32,
    JAVA_FALSE, JAVA_TRUE, PAYLOAD_LEN,
};

#[test]
fn short_string_is_zero_padded() {
    let payload = string_to_u8_32("hellow world from rust");
    let text = b"hellow world from rust";
    assert_eq!(&payload[..text.len()], &text[..]);
    assert!(payload[text.len()..].iter().all(|b| *b == 0));
}

#[test]
fn long_string_is_cut_at_payload_length() {
    let text = "0123456789abcdefghijklmnopqrstuvwxyzTAIL";
    let payload = string_to_u8_32(text);
    assert_eq!(&payload[..], &text.as_bytes()[..PAYLOAD_LEN]);
}

#[test]
fn multibyte_text_is_copied_bytewise() {
    let payload = string_to_u8_32("número");
    assert_eq!(&payload[..7], "número".as_bytes());
    assert_eq!(payload[7], 0);
}

#[test]
fn empty_bytes_give_zero_payload() {
    assert_eq!(payload_from_bytes(&[]), [0u8; 32]);
}

#[test]
fn exactly_full_payload() {
    let bytes = [7u8; 32];
    assert_eq!(payload_from_bytes(&bytes), bytes);
}

#[test]
fn new_message_is_all_zero() {
    let m = new_message();
    assert_eq!(m.code, 0);
    assert_eq!(m.ip_src, 0);
    assert_eq!(m.ip_dest, 0);
    assert_eq!(m.msg, [0u8; 32]);
    assert!(!m.return_status);
}

#[test]
fn java_fields_keep_bit_patterns() {
    let m = message_from_java(-1, 21, i32::MIN, b"hello world JAVADA", 1);
    assert_eq!(m.code, u32::MAX);
    assert_eq!(m.ip_src, 21);
    assert_eq!(m.ip_dest, 0x8000_0000);
    assert_eq!(&m.msg[..18], b"hello world JAVADA");
    assert_eq!(m.msg[18], 0);
    assert!(m.return_status);
}

#[test]
fn java_boolean_other_than_one_is_false() {
    assert!(!message_from_java(21, 21, 21, b"", 0).return_status);
    assert!(!message_from_java(21, 21, 21, b"", 2).return_status);
}

#[test]
fn java_full_payload() {
    let bytes = [9u8; 32];
    assert_eq!(message_from_java(1, 2, 3, &bytes, 0).msg, bytes);
}

#[test]
fn reply_or_zero_maps_failure_to_zero() {
    assert_eq!(reply_or_zero(Some(6)), 6);
    assert_eq!(reply_or_zero(Some(-3)), -3);
    assert_eq!(reply_or_zero(None), 0);
}

#[test]
fn my_rust_function_adds() {
    assert_eq!(zermia::my_rust_function(2, 3), 5);
    assert_eq!(zermia::my_rust_function(-7, 3), -4);
}

#[test]
fn monitor_reply_read_as_boolean() {
    assert!(monitor_said_yes(Some(1)));
    assert!(monitor_said_yes(Some(6)));
    assert!(monitor_said_yes(Some(-1)));
    assert!(!monitor_said_yes(Some(0)));
    assert!(!monitor_said_yes(None));
}

#[test]
fn java_booleans() {
    assert_eq!(java_boolean(true), JAVA_TRUE);
    assert_eq!(java_boolean(false), JAVA_FALSE);
    assert_eq!(java_boolean(monitor_said_yes(Some(6))), 1);
}
