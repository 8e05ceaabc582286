use wormhole_anchor_sdk::received::{Received, ReceivedError, MESSAGE_MAX_LENGTH};

#[test]
fn message_of_the_maximum_length_is_accepted() {
    let r = Received::new(3, [9; 32], vec![0x5A; 1024]).unwrap();
    assert_eq!(r.batch_id, 3);
    assert_eq!(r.wormhole_message_hash, [9; 32]);
    assert_eq!(r.message.len(), 1024);
}

#[test]
fn message_one_byte_too_long_is_refused() {
    let r = Received::new(3, [9; 32], vec![0x5A; 1025]);
    assert_eq!(r.unwrap_err(), ReceivedError::MessageTooLong);
}

#[test]
fn maximum_size_counts_every_field() {
    assert_eq!(MESSAGE_MAX_LENGTH, 1024);
    assert_eq!(Received::MAXIMUM_SIZE, 8 + 4 + 32 + 4 + 1024);
}

#[test]
fn default_record_is_empty() {
    let r = Received::default();
    assert_eq!(r.batch_id, 0);
    assert_eq!(r.wormhole_message_hash, [0; 32]);
    assert!(r.message.is_empty());
}
