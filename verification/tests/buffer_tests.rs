use pin_entry::buffer::PinBuffer;
use pin_entry::random::get_random_digit_position;
use pin_entry::text::MAX_PIN_LENGTH;

#[test]
fn buffer_append_delete_clear() {
    let mut b = PinBuffer::new();
    assert!(b.is_empty());
    assert_eq!(b.len(), 0);

    b.append('1');
    b.append('2');
    assert_eq!(b.len(), 2);
    assert_eq!(b.char_at(0), '1');
    assert_eq!(b.char_at(1), '2');

    b.delete_last();
    assert_eq!(b.len(), 1);
    assert_eq!(b.char_at(0), '1');

    b.delete_last();
    assert!(b.is_empty());
    b.delete_last();
    assert!(b.is_empty());

    b.append('7');
    b.clear();
    assert!(b.is_empty());
}

#[test]
fn buffer_is_full_at_capacity() {
    let mut b = PinBuffer::new();
    for _ in 0..MAX_PIN_LENGTH {
        assert!(!b.is_full());
        b.append('9');
    }
    assert!(b.is_full());
    assert_eq!(b.len(), 50);
}

#[test]
fn random_position_lands_on_digit_slots() {
    for entropy in [0u32, 1, 2, 9, 10, 11, 100, 12345, u32::MAX] {
        let p = get_random_digit_position(entropy);
        assert!((3..=12).contains(&p));
    }
    // The reduction maps the draw onto the slots in order.
    assert_eq!(get_random_digit_position(0), 3);
    assert_eq!(get_random_digit_position(9), 12);
    assert_eq!(get_random_digit_position(10), 3);
    assert_eq!(get_random_digit_position(u32::MAX), 8);
}
