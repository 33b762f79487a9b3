use netdiag::service::{on_read, pong_reply, ConnectionStep};
use netdiag::{create_message, Ping, Pong};

fn is_pong(s: &str) -> bool {
    match s.strip_prefix("pong ") {
        Some(d) => !d.is_empty() && d.chars().all(|c| c.is_ascii_digit()),
        None => false,
    }
}

#[test]
fn pong_reply_text() {
    assert_eq!(pong_reply(0), "pong 0");
    assert_eq!(pong_reply(9), "pong 9");
    assert_eq!(pong_reply(10), "pong 10");
    assert_eq!(pong_reply(1700000000), "pong 1700000000");
    assert_eq!(pong_reply(u64::MAX), format!("pong {}", u64::MAX));
}

#[test]
fn ping_gets_pong_with_seconds() {
    let request = "ping 1";
    match on_read(request.len(), 1760832000) {
        ConnectionStep::Reply(s) => {
            assert_eq!(s, "pong 1760832000");
            assert!(is_pong(&s));
        }
        ConnectionStep::Close => panic!("closed on a request"),
    }
}

#[test]
fn zero_byte_read_closes() {
    assert!(matches!(on_read(0, 5), ConnectionStep::Close));
}

#[test]
fn message_holds_its_content() {
    assert_eq!(create_message("hello").content, "hello");
    assert_eq!(create_message("").content, "");
}

#[test]
fn ping_and_pong_fields() {
    let p = Ping { id: 3, timestamp: 42 };
    let q = Pong { id: p.id, timestamp: p.timestamp + 1 };
    assert_eq!(q.id, 3);
    assert_eq!(q.timestamp, 43);
}
