use video_shell::bridge::{decode_datagram, NotificationQueue};
use video_shell::shell::Shell;

#[test]
fn empty_queue_poll_is_noop() {
    let mut shell = Shell::new();
    let mut queue = NotificationQueue::new();
    let repaint = shell.poll_notifications(&mut queue);
    assert!(!repaint);
    assert_eq!(shell.label, "Hello, Egui!");
    assert_eq!(queue.len(), 0);
}

#[test]
fn datagram_reaches_label_next_frame() {
    let mut shell = Shell::new();
    let mut queue = NotificationQueue::new();
    let datagram = b"Test Message";
    queue.receive_datagram(datagram, datagram.len());
    let repaint = shell.poll_notifications(&mut queue);
    assert!(repaint);
    assert_eq!(shell.label, "Test Message");
    assert_eq!(queue.len(), 0);
}

#[test]
fn backlog_drains_one_per_frame_in_order() {
    let mut shell = Shell::new();
    let mut queue = NotificationQueue::new();
    queue.push(String::from("first"));
    queue.push(String::from("second"));
    queue.push(String::from("third"));

    assert!(shell.poll_notifications(&mut queue));
    assert_eq!(shell.label, "first");
    assert_eq!(queue.len(), 2);

    assert!(shell.poll_notifications(&mut queue));
    assert_eq!(shell.label, "second");
    assert_eq!(queue.len(), 1);

    assert!(shell.poll_notifications(&mut queue));
    assert_eq!(shell.label, "third");
    assert_eq!(queue.len(), 0);

    assert!(!shell.poll_notifications(&mut queue));
    assert_eq!(shell.label, "third");
}

#[test]
fn pop_returns_oldest_message() {
    let mut queue = NotificationQueue::new();
    assert!(queue.pop().is_none());
    queue.push(String::from("a"));
    queue.push(String::from("b"));
    assert_eq!(queue.pop(), Some(String::from("a")));
    assert_eq!(queue.pop(), Some(String::from("b")));
    assert!(queue.pop().is_none());
}

#[test]
fn lossy_decode_replaces_invalid_bytes() {
    let bytes = [0xFF, b'A', 0xC0, b'B'];
    let text = decode_datagram(&bytes, bytes.len());
    assert_eq!(text, "\u{FFFD}A\u{FFFD}B");
}

#[test]
fn decode_reads_only_the_filled_prefix() {
    let mut buf = [0u8; 1024];
    buf[0] = b'p';
    buf[1] = b'i';
    buf[2] = b'n';
    buf[3] = b'g';
    buf[4] = b'X';
    let text = decode_datagram(&buf, 4);
    assert_eq!(text, "ping");
}

#[test]
fn decode_of_empty_datagram_is_empty() {
    let buf = [0u8; 16];
    let text = decode_datagram(&buf, 0);
    assert_eq!(text, "");
}

#[test]
fn max_size_datagram_is_delivered_whole() {
    let buf = [b'x'; 1024];
    let mut queue = NotificationQueue::new();
    queue.receive_datagram(&buf, 1024);
    let mut shell = Shell::new();
    assert!(shell.poll_notifications(&mut queue));
    assert_eq!(shell.label.len(), 1024);
    assert!(shell.label.chars().all(|c| c == 'x'));
}
