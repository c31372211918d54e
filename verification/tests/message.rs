use couveuse::message::{Message, MESSAGE_CAPACITY};

#[test]
fn new_message_is_empty() {
    assert_eq!(Message::new().as_str(), "");
}

#[test]
fn pieces_are_joined() {
    let mut message = Message::new();
    assert!(message.push_str("Humidité"));
    assert!(message.push_str(": "));
    assert!(message.push_str(""));
    assert_eq!(message.as_str(), "Humidité: ");
}

#[test]
fn capacity_counts_bytes() {
    assert_eq!(MESSAGE_CAPACITY, 32);
    let mut message = Message::new();
    for _ in 0..16 {
        assert!(message.push_str("é"));
    }
    assert!(!message.push_str("e"));
    assert!(message.push_str(""));
    assert_eq!(message.as_str(), "é".repeat(16));
}

#[test]
fn piece_that_does_not_fit_is_left_out_whole() {
    let mut message = Message::new();
    assert!(message.push_str("0123456789012345678901234567890"));
    assert!(!message.push_str("ab"));
    assert_eq!(message.as_str(), "0123456789012345678901234567890");
    assert!(message.push_str("a"));
    assert!(!message.push_str("b"));
    assert_eq!(message.as_str(), "0123456789012345678901234567890a");
}
