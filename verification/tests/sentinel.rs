use port_probe::config::READ_BUFFER_SIZE;
use port_probe::listener::take_read;
use port_probe::sentinel::{sentinel_message, starts_with_sentinel, SENTINEL_LEN, SENTINEL_TEXT};

#[test]
fn sentinel_message_is_the_text() {
    assert_eq!(sentinel_message(), b"Hello from client".to_vec());
    assert_eq!(sentinel_message(), SENTINEL_TEXT.as_bytes().to_vec());
    assert_eq!(sentinel_message().len(), SENTINEL_LEN);
    assert_eq!(SENTINEL_LEN, 17);
}

#[test]
fn exact_sentinel_is_recognised() {
    assert!(starts_with_sentinel(b"Hello from client"));
    assert!(starts_with_sentinel(&sentinel_message()));
}

#[test]
fn sentinel_with_trailing_bytes_is_recognised() {
    assert!(starts_with_sentinel(b"Hello from client, and more"));
    assert!(starts_with_sentinel(b"Hello from client\n"));
    assert!(starts_with_sentinel(b"Hello from client\0\xff\xfe"));
}

#[test]
fn sentinel_match_is_case_sensitive() {
    assert!(!starts_with_sentinel(b"hello from client"));
    assert!(!starts_with_sentinel(b"HELLO FROM CLIENT"));
    assert!(!starts_with_sentinel(b"Hello from Client"));
}

#[test]
fn cut_short_sentinel_is_not_recognised() {
    assert!(!starts_with_sentinel(b""));
    assert!(!starts_with_sentinel(b"H"));
    assert!(!starts_with_sentinel(b"Hello from clien"));
}

#[test]
fn sentinel_must_stand_at_the_front() {
    assert!(!starts_with_sentinel(b" Hello from client"));
    assert!(!starts_with_sentinel(b"ping Hello from client"));
    assert!(!starts_with_sentinel(b"\xffHello from client"));
}

#[test]
fn every_single_wrong_byte_spoils_the_sentinel() {
    for at in 0..SENTINEL_LEN {
        let mut message = sentinel_message();
        message[at] ^= 0x01;
        assert!(!starts_with_sentinel(&message), "byte {} was not compared", at);
    }
}

#[test]
fn take_read_keeps_short_reads_whole() {
    assert_eq!(take_read(vec![]), Vec::<u8>::new());
    assert_eq!(take_read(vec![1, 2, 3]), vec![1, 2, 3]);
    let full = vec![7u8; READ_BUFFER_SIZE];
    assert_eq!(take_read(full.clone()), full);
}

#[test]
fn take_read_cuts_long_reads_to_the_buffer() {
    assert_eq!(READ_BUFFER_SIZE, 1024);
    let mut long: Vec<u8> = Vec::new();
    for i in 0..3000usize {
        long.push((i % 251) as u8);
    }
    let kept = take_read(long.clone());
    assert_eq!(kept.len(), 1024);
    assert_eq!(kept[..], long[..1024]);
}
