use increment::counter::CounterStorage;
use increment::counter::IncrementContract;

#[test]
fn test_unset_entry_reads_as_zero() {
    let storage = CounterStorage::from_entry(None);
    assert_eq!(IncrementContract::get_current_value(&storage), 0);
}

#[test]
fn test_read_does_not_create_entry() {
    let storage = CounterStorage::new();
    assert_eq!(IncrementContract::get_current_value(&storage), 0);
    // A read is not a write: the slot is still unset afterwards.
    assert_eq!(storage.entry(), None);
}

#[test]
fn test_from_entry_resumes_stored_value() {
    let mut storage = CounterStorage::from_entry(Some(41));
    assert_eq!(IncrementContract::get_current_value(&storage), 41);
    assert_eq!(IncrementContract::increment(&mut storage), 42);
    assert_eq!(storage.entry(), Some(42));
}

#[test]
fn test_entry_round_trip() {
    let storage = CounterStorage::from_entry(Some(7));
    assert_eq!(storage.entry(), Some(7));
}

#[test]
fn test_increment_saturates_at_maximum() {
    let mut storage = CounterStorage::from_entry(Some(u32::MAX));
    assert_eq!(IncrementContract::increment(&mut storage), u32::MAX);
    assert_eq!(storage.entry(), Some(u32::MAX));
}

#[test]
fn test_decrement_on_fresh_counter_persists_zero() {
    let mut storage = CounterStorage::new();
    assert_eq!(IncrementContract::decrement(&mut storage), 0);
    // The unchanged zero is still written back.
    assert_eq!(storage.entry(), Some(0));
}

#[test]
fn test_increment_then_decrement_cycle() {
    let mut storage = CounterStorage::new();

    IncrementContract::increment(&mut storage);
    IncrementContract::increment(&mut storage);
    IncrementContract::increment(&mut storage);
    assert_eq!(IncrementContract::get_current_value(&storage), 3);

    assert_eq!(IncrementContract::decrement(&mut storage), 2);
    assert_eq!(IncrementContract::decrement(&mut storage), 1);
    assert_eq!(IncrementContract::decrement(&mut storage), 0);
    assert_eq!(IncrementContract::get_current_value(&storage), 0);

    assert_eq!(IncrementContract::decrement(&mut storage), 0);
}

#[test]
fn test_reset_after_increments_restarts_at_one() {
    let mut storage = CounterStorage::new();

    IncrementContract::increment(&mut storage);
    IncrementContract::increment(&mut storage);

    assert_eq!(IncrementContract::reset(&mut storage), 0);
    assert_eq!(IncrementContract::get_current_value(&storage), 0);
    assert_eq!(IncrementContract::increment(&mut storage), 1);
}

#[test]
fn test_long_decrement_run_stays_at_zero() {
    let mut storage = CounterStorage::from_entry(Some(2));
    let mut lowest: u32 = 2;
    for _ in 0..100 {
        let value = IncrementContract::decrement(&mut storage);
        assert!(value <= lowest);
        lowest = value;
    }
    assert_eq!(IncrementContract::get_current_value(&storage), 0);
}
