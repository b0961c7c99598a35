use adsb_indicator::accumulator::{Accumulator, BufferFullError, MESSAGE_LEN};

#[test]
fn incomplete_below_message_len() {
    let mut acc = Accumulator::new();
    assert!(!acc.is_complete());
    for i in 0..13u8 {
        assert!(acc.push(i).is_ok());
        assert!(!acc.is_complete());
    }
    assert_eq!(acc.len(), 13);
}

#[test]
fn complete_at_message_len_and_overflow_keeps_length() {
    let mut acc = Accumulator::new();
    for i in 0..14u8 {
        assert!(acc.push(i).is_ok());
    }
    assert!(acc.is_complete());
    assert_eq!(acc.push(0xFF), Err(BufferFullError));
    assert_eq!(acc.len(), 14);
    assert!(acc.is_complete());
    assert_eq!(acc.bytes().as_slice().last(), Some(&13u8));
}

#[test]
fn clear_resets_length_whatever_the_state() {
    let mut acc = Accumulator::new();
    acc.clear();
    assert_eq!(acc.len(), 0);
    acc.push(1).unwrap();
    acc.push(2).unwrap();
    acc.clear();
    assert_eq!(acc.len(), 0);
    for i in 0..14u8 {
        acc.push(i).unwrap();
    }
    acc.clear();
    assert_eq!(acc.len(), 0);
    assert!(!acc.is_complete());
}

#[test]
fn bytes_returns_accumulated_window_in_order() {
    assert_eq!(MESSAGE_LEN, 14);
    let mut acc = Accumulator::new();
    acc.push(0xAB).unwrap();
    acc.push(0xCD).unwrap();
    assert_eq!(acc.bytes().as_slice(), &[0xAB, 0xCD]);
}
