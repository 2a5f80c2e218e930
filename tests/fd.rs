use libcontainer::fd::{FdTable, IoError};

#[test]
fn duplicate_survives_release_of_original() {
    let mut table = FdTable::new(16);
    let original = table.open(7).unwrap();
    let duplicate = original.try_clone(&mut table).unwrap();
    assert_ne!(original.raw(), duplicate.raw());
    original.release(&mut table);
    assert_eq!(table.write(&duplicate), Ok(()));
    assert_eq!(table.file_of(&duplicate), Some(7));
    assert_eq!(table.open_count(), 1);
}

#[test]
fn duplicate_refers_to_same_file() {
    let mut table = FdTable::new(16);
    let a = table.open(1).unwrap();
    let b = table.open(2).unwrap();
    let c = b.try_clone(&mut table).unwrap();
    assert_eq!((a.raw(), b.raw(), c.raw()), (0, 1, 2));
    assert_eq!(table.file_of(&c), Some(2));
    assert_eq!(table.open_count(), 3);
}

#[test]
fn lowest_free_descriptor_is_reused() {
    let mut table = FdTable::new(16);
    let a = table.open(10).unwrap();
    let b = table.open(11).unwrap();
    let c = table.open(12).unwrap();
    b.release(&mut table);
    let d = table.open(13).unwrap();
    assert_eq!(d.raw(), 1);
    assert_eq!(table.file_of(&a), Some(10));
    assert_eq!(table.file_of(&c), Some(12));
    assert_eq!(table.file_of(&d), Some(13));
}

#[test]
fn full_table_refuses_open_and_duplicate() {
    let mut table = FdTable::new(2);
    let a = table.open(1).unwrap();
    let _b = table.open(2).unwrap();
    assert_eq!(table.open(3).unwrap_err(), IoError::TooManyOpenFiles);
    assert_eq!(a.try_clone(&mut table).unwrap_err(), IoError::TooManyOpenFiles);
    assert_eq!(table.open_count(), 2);
}

#[test]
fn empty_table_has_nothing_open() {
    let table = FdTable::new(0);
    assert_eq!(table.open_count(), 0);
}

#[test]
fn close_from_keeps_lower_descriptors() {
    let mut table = FdTable::new(8);
    let fds: Vec<_> = (0..6).map(|f| table.open(f).unwrap()).collect();
    table.close_from(3);
    assert_eq!(table.open_count(), 3);
    assert_eq!(table.write(&fds[2]), Ok(()));
    assert_eq!(table.write(&fds[3]), Err(IoError::BadDescriptor));
    assert_eq!(table.file_of(&fds[5]), None);
}
