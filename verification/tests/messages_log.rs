use zbx_np::messages::ClientList;
use zbx_np::messages::{
    accepts_connection, add_message, backlog_for_new_client, clean_for_socket, clean_lines,
    console_reply, get_messages, is_blank_text, recent_messages, ConsoleMessage, ConsoleReply,
    MessageLog, API_LOG_LINES, BROADCAST_LIMIT,
};

#[test]
fn cleaning_removes_control_characters() {
    assert_eq!(clean_for_socket("a\u{1}b\nc\td\r\u{7f}\u{85}е", 500), Some("ab\nc\td\rе".to_string()));
    assert_eq!(clean_for_socket("   \u{0}\u{1b}  ", 500), None);
    assert_eq!(clean_for_socket("", 500), None);
    assert_eq!(clean_for_socket("\u{a0}\u{3000}", 500), None);
}

#[test]
fn cleaning_truncates() {
    let long = "x".repeat(600);
    assert_eq!(clean_for_socket(&long, BROADCAST_LIMIT).unwrap().chars().count(), 500);
    assert_eq!(clean_for_socket("\u{1}abc", 2), Some("ab".to_string()));
    assert_eq!(clean_for_socket("  abc", 2), None);
}

#[test]
fn log_is_newest_first() {
    let mut log = MessageLog::new();
    assert_eq!(add_message(&mut log, "first".to_string()), Some("first".to_string()));
    assert_eq!(add_message(&mut log, "\u{1}".to_string()), None);
    add_message(&mut log, "third".to_string());
    assert_eq!(get_messages(&log), &vec!["third".to_string(), "\u{1}".to_string(), "first".to_string()]);
    assert_eq!(recent_messages(&log, 2), vec!["third".to_string(), "\u{1}".to_string()]);
    assert_eq!(recent_messages(&log, API_LOG_LINES).len(), 3);
}

#[test]
fn backlog_is_cleaned_and_limited() {
    let mut log = MessageLog::new();
    for i in 0..25 {
        add_message(&mut log, format!("line {}", i));
    }
    add_message(&mut log, " ".to_string());
    add_message(&mut log, "y".repeat(300));
    let b = backlog_for_new_client(&log);
    assert_eq!(b.len(), 19);
    assert_eq!(b[0].len(), 200);
    assert_eq!(b[1], "line 24");
    assert_eq!(b[18], "line 7");
}

#[test]
fn console_protocol_and_replies() {
    assert!(accepts_connection(&vec!["chat".to_string(), "rust-websocket".to_string()]));
    assert!(!accepts_connection(&vec!["chat".to_string()]));
    assert!(matches!(console_reply(ConsoleMessage::Close, &vec![]), ConsoleReply::Disconnect));
    match console_reply(ConsoleMessage::Ping(vec![1, 2]), &vec![]) {
        ConsoleReply::Pong(d) => assert_eq!(d, vec![1, 2]),
        _ => panic!("expected pong"),
    }
    match console_reply(ConsoleMessage::Text("last".to_string()), &vec!["a".to_string(), "\u{1}".to_string()]) {
        ConsoleReply::Replay(lines) => assert_eq!(lines, vec!["a".to_string()]),
        _ => panic!("expected replay"),
    }
    assert!(matches!(console_reply(ConsoleMessage::Text("hi".to_string()), &vec![]), ConsoleReply::Relay));
    assert!(matches!(console_reply(ConsoleMessage::Other, &vec![]), ConsoleReply::Relay));
    assert_eq!(clean_lines(&vec!["ok".to_string(), "".to_string()], 500), vec!["ok".to_string()]);
}

#[test]
fn blank_like_trim() {
    for s in ["", "  ", "\t\n", "\u{2000}", " a ", "\u{1}"] {
        assert_eq!(is_blank_text(s), s.trim().is_empty(), "{:?}", s);
    }
}

#[test]
fn clients_are_forgotten_one_by_one() {
    let mut list: ClientList<&str> = ClientList::new();
    let a = list.register("a").unwrap();
    let b = list.register("b").unwrap();
    let c = list.register("c").unwrap();
    assert_eq!((a, b, c), (0, 1, 2));
    assert!(list.remove(b));
    assert_eq!(list.clients().clone(), vec![(0, "a"), (2, "c")]);
    assert!(!list.remove(b));
    let d = list.register("d").unwrap();
    assert_eq!(d, 3);
    assert!(list.remove(a));
    assert_eq!(list.clients().clone(), vec![(2, "c"), (3, "d")]);
}
