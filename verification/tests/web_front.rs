use zbx_np::web::{routes, shown_reply, Endpoint, RequestMethod, ShownReply};
use zbx_np::web::{address_head, arrival_lines, favicon, received_log, send_error_log, zabbix_result_log};

#[test]
fn favicon_is_png() {
    let png = favicon().ok().unwrap();
    assert_eq!(&png[0..8], &[0x89, b'P', b'N', b'G', 0x0d, 0x0a, 0x1a, 0x0a]);
    assert_eq!(png.len(), 69);
}

#[test]
fn log_lines() {
    assert_eq!(address_head("192.168.0.1"), "192.168.0.1");
    assert_eq!(address_head("::1"), "");
    assert_eq!(received_log("GET", "10.0.0.2"), "Received data from HTPP via GET: 10.0.0.2");
    assert_eq!(zabbix_result_log("ok"), "Zabbix Result: ok");
    assert_eq!(send_error_log("refused"), "Error sending data to Zabbix server: refused");
}

#[test]
fn arrival_is_logged_with_the_time() {
    let lines = arrival_lines("POST", Some("10.1.2.3"));
    assert_eq!(lines.len(), 2);
    let t = &lines[0];
    assert!(t.starts_with('[') && t.ends_with(']') && t.len() == 21);
    assert_eq!(lines[1], "Received data from HTPP via POST: 10.1.2.3");
    assert_eq!(arrival_lines("GET", None).len(), 1);
}

#[test]
fn replies_shown_by_method() {
    let obj = r#"{"response":"success","info":"processed: 1"}"#;
    let expected: serde_json::Value = serde_json::from_str(obj).unwrap();
    match shown_reply(obj, RequestMethod::Get) {
        ShownReply::Json(v) => assert_eq!(v, expected),
        _ => panic!("expected JSON"),
    }
    match shown_reply(obj, RequestMethod::Post) {
        ShownReply::Json(v) => assert_eq!(v, expected),
        _ => panic!("expected JSON"),
    }
    match shown_reply("[1,2]", RequestMethod::Get) {
        ShownReply::Text(t) => assert_eq!(t, "[1,2]"),
        _ => panic!("expected text"),
    }
    match shown_reply("[1,2]", RequestMethod::Post) {
        ShownReply::Json(v) => assert_eq!(v, serde_json::from_str::<serde_json::Value>("[1, 2]").unwrap()),
        _ => panic!("expected JSON"),
    }
    assert!(matches!(shown_reply("not json", RequestMethod::Post), ShownReply::NotJson));
    assert!(matches!(shown_reply("not json", RequestMethod::Get), ShownReply::Text(_)));
}

#[test]
fn only_zabbix_routes_ask_for_basic_auth() {
    let table = routes();
    assert_eq!(table.len(), 22);
    for r in &table {
        let data = matches!(r.endpoint, Endpoint::ZabbixGet | Endpoint::ZabbixPost);
        assert_eq!(r.basic_auth, data);
        assert_eq!(r.path == "/zabbix", data);
    }
    assert_eq!(table[0].path, "/");
    assert_eq!(table[14].path, "/api/users/{id}");
}
