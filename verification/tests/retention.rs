use sx126x::registers::system::{InvalidEntryCount, RetentionList};

#[test]
fn adding_the_same_address_twice_yields_one_entry() {
    let mut l = RetentionList::default();
    assert_eq!(l.add_entry(0x08AC), Ok(()));
    assert_eq!(l.add_entry(0x08AC), Ok(()));
    assert_eq!(l.get_entries(), vec![0x08AC]);
}

#[test]
fn adding_a_fifth_address_fails() {
    let mut l = RetentionList::default();
    assert_eq!(l.add_entry(0x0001), Ok(()));
    assert_eq!(l.add_entry(0x0002), Ok(()));
    assert_eq!(l.add_entry(0x0003), Ok(()));
    assert_eq!(l.add_entry(0x0004), Ok(()));
    assert_eq!(l.add_entry(0x0005), Err(()));
    assert_eq!(l.get_entries(), vec![1, 2, 3, 4]);
}

#[test]
fn adding_a_present_address_to_a_full_list_still_succeeds() {
    let mut l = RetentionList::default();
    l.add_entry(0x0001).unwrap();
    l.add_entry(0x0002).unwrap();
    l.add_entry(0x0003).unwrap();
    l.add_entry(0x0004).unwrap();
    assert_eq!(l.add_entry(0x0003), Ok(()));
    assert_eq!(l.get_entries(), vec![1, 2, 3, 4]);
}

#[test]
fn removing_a_present_address_reduces_count_by_one() {
    let mut l = RetentionList::default();
    l.add_entry(0x0001).unwrap();
    l.add_entry(0x0002).unwrap();
    l.add_entry(0x0003).unwrap();
    assert_eq!(l.remove_entry(0x0001), Ok(()));
    let entries = l.get_entries();
    assert_eq!(entries.len(), 2);
    // The last live entry is swapped into the vacated slot.
    assert_eq!(entries, vec![0x0003, 0x0002]);
}

#[test]
fn removing_an_absent_address_fails_and_leaves_the_list_unchanged() {
    let mut l = RetentionList::default();
    l.add_entry(0x0001).unwrap();
    l.add_entry(0x0002).unwrap();
    assert_eq!(l.remove_entry(0x0003), Err(()));
    assert_eq!(l.get_entries(), vec![0x0001, 0x0002]);
}

#[test]
fn removing_the_last_entry_keeps_the_others_in_place() {
    let mut l = RetentionList::default();
    l.add_entry(0x0001).unwrap();
    l.add_entry(0x0002).unwrap();
    assert_eq!(l.remove_entry(0x0002), Ok(()));
    assert_eq!(l.get_entries(), vec![0x0001]);
}

#[test]
fn retention_list_encodes_count_then_all_slots() {
    let mut l = RetentionList::default();
    l.add_entry(0x0580).unwrap();
    l.add_entry(0x06C0).unwrap();
    assert_eq!(
        l.to_bytes(),
        [0x02, 0x05, 0x80, 0x06, 0xC0, 0x00, 0x00, 0x00, 0x00]
    );
}

#[test]
fn retention_list_round_trips_through_bytes() {
    let mut l = RetentionList::default();
    l.add_entry(0x08AC).unwrap();
    l.add_entry(0x0889).unwrap();
    l.add_entry(0x0740).unwrap();
    let decoded = RetentionList::from_bytes(l.to_bytes()).unwrap();
    assert_eq!(decoded.get_entries(), l.get_entries());
    assert_eq!(decoded.to_bytes(), l.to_bytes());
}

#[test]
fn retention_list_rejects_count_beyond_capacity() {
    let bytes = [0x05, 0, 0, 0, 0, 0, 0, 0, 0];
    assert_eq!(
        RetentionList::from_bytes(bytes),
        Err(InvalidEntryCount(0x05))
    );
    let ok = [0x04, 0, 1, 0, 2, 0, 3, 0, 4];
    assert!(RetentionList::from_bytes(ok).is_ok());
}

#[test]
fn retention_list_register_address() {
    assert_eq!(RetentionList::id(), 0x02F9);
}
