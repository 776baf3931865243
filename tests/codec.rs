use lazy_storage::entry::{EntryState, StorageEntry};
use lazy_storage::key::Key;
use lazy_storage::storable::Storable;
use lazy_storage::storage::Storage;

#[test]
fn u8_is_one_byte() {
    assert_eq!(7u8.encode(), vec![7]);
    assert_eq!(<u8 as Storable>::decode(&[9, 1]), Some(9));
    assert_eq!(<u8 as Storable>::decode(&[]), None);
}

#[test]
fn i32_is_four_little_endian_bytes() {
    assert_eq!(1i32.encode(), vec![1, 0, 0, 0]);
    assert_eq!((-2i32).encode(), vec![0xfe, 0xff, 0xff, 0xff]);
    assert_eq!(0x0102_0304i32.encode(), vec![4, 3, 2, 1]);
    assert_eq!(<i32 as Storable>::decode(&[0xfe, 0xff, 0xff, 0xff]), Some(-2));
    assert_eq!(<i32 as Storable>::decode(&[1, 2, 3]), None);
}

#[test]
fn option_u8_has_a_tag_byte() {
    assert_eq!(None::<u8>.encode(), vec![0]);
    assert_eq!(Some(13u8).encode(), vec![1, 13]);
    assert_eq!(<Option<u8> as Storable>::decode(&[0]), Some(None));
    assert_eq!(<Option<u8> as Storable>::decode(&[1, 13]), Some(Some(13)));
    assert_eq!(<Option<u8> as Storable>::decode(&[1]), None);
    assert_eq!(<Option<u8> as Storable>::decode(&[2, 0]), None);
}

#[test]
fn storage_counts_reads_and_writes() {
    let mut s = Storage::new();
    let k = Key::from_bytes([0x02; 32]);
    assert_eq!(s.read(&k), None);
    s.write(&k, vec![1, 2]);
    s.write(&k, vec![3]);
    assert_eq!(s.read(&k), Some(vec![3]));
    s.clear(&k);
    assert_eq!(s.read(&k), None);
    assert_eq!(s.reads(), 3);
    assert_eq!(s.writes(), 3);
}

#[test]
fn entry_accessors() {
    let mut e = StorageEntry::new(Some(5u8), EntryState::Preserved);
    assert_eq!(e.value(), Some(&5));
    *e.value_mut().unwrap() = 6;
    assert_eq!(e.state, EntryState::Preserved);
    assert_eq!(e.replace_state(EntryState::Mutated), EntryState::Preserved);
    assert!(e.state.is_mutated());
    e.put(None);
    assert_eq!(e, StorageEntry::new(None, EntryState::Mutated));
}
