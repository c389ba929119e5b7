use zenoh_benchmark::message::TestMessage;

#[test]
fn new_holds_zero_bytes_of_given_size() {
    for size in [0usize, 1, 3, 1000] {
        let m = TestMessage::new(size);
        assert_eq!(m.content.len(), size);
        assert!(m.content.iter().all(|b| *b == 0));
    }
}

#[test]
fn default_is_empty() {
    let m = TestMessage::default();
    assert!(m.content.is_empty());
    assert!(m.encode_to_vec().is_empty());
}

#[test]
fn empty_message_encodes_to_nothing() {
    assert_eq!(TestMessage::new(0).encode_to_vec(), Vec::<u8>::new());
    assert!(TestMessage::new(0).into_bytes().is_empty());
}

#[test]
fn small_message_has_one_byte_length() {
    assert_eq!(TestMessage::new(3).encode_to_vec(), vec![0x0a, 0x03, 0, 0, 0]);
}

#[test]
fn largest_one_byte_length() {
    let v = TestMessage::new(127).encode_to_vec();
    assert_eq!(v.len(), 129);
    assert_eq!(&v[..2], &[0x0a, 0x7f]);
    assert!(v[2..].iter().all(|b| *b == 0));
}

#[test]
fn two_byte_length_varint() {
    let v = TestMessage::new(200).encode_to_vec();
    assert_eq!(v.len(), 203);
    assert_eq!(&v[..3], &[0x0a, 0xc8, 0x01]);
    assert!(v[3..].iter().all(|b| *b == 0));
}

#[test]
fn three_byte_length_varint() {
    let v = TestMessage::new(16384).encode_to_vec();
    assert_eq!(v.len(), 16388);
    assert_eq!(&v[..4], &[0x0a, 0x80, 0x80, 0x01]);
}

#[test]
fn encoding_keeps_content_bytes() {
    let m = TestMessage { content: vec![1, 2, 0xff] };
    assert_eq!(m.encode_to_vec(), vec![0x0a, 0x03, 1, 2, 0xff]);
}

#[test]
fn into_bytes_matches_encoding() {
    for size in [1usize, 3, 200, 1000] {
        let m = TestMessage::new(size);
        let b = m.into_bytes();
        assert_eq!(b.as_ref(), m.encode_to_vec().as_slice());
    }
    let b = TestMessage::new(2).into_bytes();
    assert_eq!(b.as_ref(), &[0x0a, 0x02, 0, 0]);
}
