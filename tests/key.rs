use lazy_storage::key::Key;
use lazy_storage::key_ptr::KeyPtr;

#[test]
fn add_carries_into_the_next_byte() {
    let mut b = [0u8; 32];
    b[0] = 1;
    let mut expected = [0u8; 32];
    expected[1] = 1;
    assert_eq!(Key::from_bytes(b).add(255), Key::from_bytes(expected));
}

#[test]
fn add_carries_into_the_next_word() {
    let mut b = [0u8; 32];
    for x in b.iter_mut().take(8) {
        *x = 0xff;
    }
    let mut expected = [0u8; 32];
    expected[8] = 1;
    assert_eq!(Key::from_bytes(b).add(1), Key::from_bytes(expected));
}

#[test]
fn add_wraps_at_the_top() {
    assert_eq!(Key::from_bytes([0xff; 32]).add(1), Key::from_bytes([0x00; 32]));
    assert_eq!(Key::from_bytes([0xff; 32]).add(3), Key::from_bytes([0x00; 32]).add(2));
}

#[test]
fn key_words_are_little_endian() {
    let mut b = [0u8; 32];
    b[0] = 0x01;
    b[1] = 0x02;
    b[31] = 0x80;
    let k = Key::from_bytes(b);
    assert_eq!(k.w0, 0x0201);
    assert_eq!(k.w1, 0);
    assert_eq!(k.w3, 0x8000_0000_0000_0000);
}

#[test]
fn next_hands_out_the_current_key_and_advances() {
    let root = Key::from_bytes([0x10; 32]);
    let mut ptr = KeyPtr::from_key(root);
    assert_eq!(ptr.next(3), root);
    assert_eq!(ptr.next(1), root.add(3));
    assert_eq!(ptr.next(2), root.add(4));
    assert_eq!(ptr.key, root.add(6));
}

#[test]
fn cursor_copies_are_independent() {
    let root = Key::from_bytes([0x10; 32]);
    let mut a = KeyPtr::from_key(root);
    let mut b = a;
    a.next(5);
    assert_eq!(b.next(1), root);
    assert_eq!(a.key, root.add(5));
}
