use scribe_registry::checks::{ensure_root, ensure_signed, fits_bound};
use scribe_registry::table::StorageTable;
use scribe_registry::types::{DispatchError, Origin};

#[test]
fn signed_origin_gives_its_account() {
    assert_eq!(ensure_signed(Origin::Signed(42)), Ok(42));
    assert_eq!(ensure_signed(Origin::Root), Err(DispatchError::BadOrigin));
    assert_eq!(ensure_signed(Origin::Unsigned), Err(DispatchError::BadOrigin));
}

#[test]
fn only_root_passes_root_check() {
    assert_eq!(ensure_root(Origin::Root), Ok(()));
    assert_eq!(ensure_root(Origin::Signed(1)), Err(DispatchError::BadOrigin));
    assert_eq!(ensure_root(Origin::Unsigned), Err(DispatchError::BadOrigin));
}

#[test]
fn bound_is_inclusive() {
    assert!(fits_bound(&vec![1, 2, 3], 3));
    assert!(!fits_bound(&vec![1, 2, 3], 2));
    assert!(fits_bound(&Vec::new(), 0));
    assert!(!fits_bound(&vec![0], 0));
}

#[test]
fn table_reads_back_what_was_written() {
    let mut t: StorageTable<Vec<u8>, u64> = StorageTable::new();
    assert_eq!(t.get(&b"a".to_vec()), None);
    t.insert(b"a".to_vec(), 1);
    t.insert(b"b".to_vec(), 2);
    t.insert(b"a".to_vec(), 3);
    assert_eq!(t.get(&b"a".to_vec()), Some(3));
    assert_eq!(t.get(&b"b".to_vec()), Some(2));
    assert!(t.contains_key(&b"b".to_vec()));
    assert!(!t.contains_key(&b"ab".to_vec()));
}
