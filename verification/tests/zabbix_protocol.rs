use zbx_np::zabbix::{
    decode_unicode_escape_sequences, interpret_reply, sender_for, validate_data, Data, Item,
    ItemValue, PayloadIssue, ReplyOutcome, ZabbixSender, ZABBIX_MAX_LEN,
};

#[test]
fn decode_replaces_escapes() {
    assert_eq!(decode_unicode_escape_sequences("\\u0041bc"), "Abc");
    assert_eq!(decode_unicode_escape_sequences("\\u043f\\u0440\\u0438"), "при");
    assert_eq!(decode_unicode_escape_sequences("plain text"), "plain text");
}

#[test]
fn decode_keeps_invalid_escapes() {
    assert_eq!(decode_unicode_escape_sequences("\\ud800x"), "\\ud800x");
    assert_eq!(decode_unicode_escape_sequences("\\uZZZZ!"), "\\uZZZZ!");
    assert_eq!(decode_unicode_escape_sequences("\\u+41"), "A");
    assert_eq!(decode_unicode_escape_sequences("\\u12"), "\u{12}");
    assert_eq!(decode_unicode_escape_sequences("\\u"), "\\u");
    assert_eq!(decode_unicode_escape_sequences("\\u+"), "\\u+");
}

#[test]
fn decode_drops_char_after_other_backslash() {
    assert_eq!(decode_unicode_escape_sequences("a\\nb"), "a\\b");
    assert_eq!(decode_unicode_escape_sequences("end\\"), "end\\");
}

#[test]
fn decode_strips_header_of_90_byte_reply() {
    let input = "ZBXD\u{1}Z\u{0}\u{0}\u{0}\u{0}\u{0}\u{0}\u{0}{\"response\":\"success\"}";
    assert_eq!(decode_unicode_escape_sequences(input), "{\"response\":\"success\"}");
    let other = "ZBXD\u{1}Y\u{0}\u{0}\u{0}\u{0}\u{0}\u{0}\u{0}x";
    assert_eq!(decode_unicode_escape_sequences(other), other);
}

#[test]
fn packet_has_header_and_json() {
    let mut s = ZabbixSender::new("127.0.0.1:10051".to_string(), "host1".to_string());
    s.add_item("temp".to_string(), "21".to_string());
    s.add_item("hum".to_string(), "40.5".to_string());
    let json = "{\"request\":\"sender data\",\"data\":[{\"host\":\"host1\",\"key\":\"temp\",\"value\":\"21\"},{\"host\":\"host1\",\"key\":\"hum\",\"value\":\"40.5\"}]}";
    assert_eq!(s.request_json(), json);
    assert!(s.fits_in_packet());
    let n = s.create_zabbix_packet();
    assert_eq!(n, 13 + json.len());
    let p = s.packet_bytes();
    assert_eq!(p.len(), ZABBIX_MAX_LEN);
    assert_eq!(&p[0..5], b"ZBXD\x01");
    let mut len_bytes = [0u8; 8];
    len_bytes.copy_from_slice(&p[5..13]);
    assert_eq!(u64::from_le_bytes(len_bytes) as usize, json.len());
    assert_eq!(&p[13..n], json.as_bytes());
    assert!(p[n..].iter().all(|b| *b == 0));
    assert_eq!(s.sending_log(), "Zabbix: Sending 2 data items to server");
    assert_eq!(s.request_log(), format!("Request JSON: {}", json));
}

#[test]
fn packet_without_items() {
    let mut s = ZabbixSender::new("a:1".to_string(), "h".to_string());
    assert_eq!(s.request_json(), "{\"request\":\"sender data\",\"data\":[]}");
    s.add_item("k".to_string(), "v".to_string());
    s.clear_item();
    let n = s.create_zabbix_packet();
    assert_eq!(n, 13 + 35);
}

#[test]
fn long_request_does_not_fit() {
    let mut s = ZabbixSender::new("a:1".to_string(), "h".repeat(100));
    s.add_item("k".repeat(100), "v".repeat(100));
    assert!(!s.fits_in_packet());
}

#[test]
fn packet_length_counts_utf8_bytes() {
    let mut s = ZabbixSender::new("a:1".to_string(), "дом".to_string());
    s.add_item("k".to_string(), "1".to_string());
    let json = s.request_json();
    let n = s.create_zabbix_packet();
    assert_eq!(n, 13 + json.len());
    assert_eq!(s.packet_bytes()[5] as usize, json.len());
}

#[test]
fn reply_interpretation() {
    match interpret_reply(b"ok") {
        ReplyOutcome::Text(t) => assert_eq!(t, "ok"),
        _ => panic!("expected text"),
    }
    assert!(matches!(interpret_reply(b""), ReplyOutcome::Empty));
    assert!(matches!(interpret_reply(&[0xff, 0xfe]), ReplyOutcome::NotUtf8));
}

fn data(server: &str, host: &str, items: Vec<Item>) -> Data {
    Data { zabbix_server: server.to_string(), item_host_name: host.to_string(), item: items }
}

#[test]
fn sender_for_formats_values() {
    let d = data("1.2.3.4:10051", "esp", vec![
        Item { key: "voltage".to_string(), value: ItemValue::Float("54.4".to_string()) },
        Item { key: "button".to_string(), value: ItemValue::Integer(-4459) },
        Item { key: "big".to_string(), value: ItemValue::Integer(i64::MIN) },
    ]);
    let s = sender_for(&d);
    assert_eq!(s.server(), "1.2.3.4:10051");
    assert_eq!(s.request_json(), "{\"request\":\"sender data\",\"data\":[{\"host\":\"esp\",\"key\":\"voltage\",\"value\":\"54.4\"},{\"host\":\"esp\",\"key\":\"button\",\"value\":\"-4459\"},{\"host\":\"esp\",\"key\":\"big\",\"value\":\"-9223372036854775808\"}]}");
}

#[test]
fn validation_order() {
    let item = || vec![Item { key: "k".to_string(), value: ItemValue::Integer(1) }];
    assert!(matches!(validate_data(&data("", "", vec![])), Err(PayloadIssue::MissingServer)));
    assert!(matches!(validate_data(&data("s", "", vec![])), Err(PayloadIssue::MissingHostName)));
    assert!(matches!(validate_data(&data("s", "h", vec![])), Err(PayloadIssue::NoItems)));
    assert!(validate_data(&data("s", "h", item())).is_ok());
}

#[test]
fn reply_is_read_for_a_second() {
    use_read_step();
}

fn use_read_step() {
    assert_eq!(zbx_np::zabbix::READ_ATTEMPTS, 100);
    assert!(matches!(zbx_np::zabbix::read_step(1, Some(42)), zbx_np::zabbix::ReadStep::Done(42)));
    assert!(matches!(zbx_np::zabbix::read_step(3, Some(0)), zbx_np::zabbix::ReadStep::Done(0)));
    assert!(matches!(zbx_np::zabbix::read_step(99, None),
        zbx_np::zabbix::ReadStep::Pause { millis: 10, retry: true }));
    assert!(matches!(zbx_np::zabbix::read_step(100, None),
        zbx_np::zabbix::ReadStep::Pause { millis: 10, retry: false }));
}
