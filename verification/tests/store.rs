use reminder::ScheduleStore;

#[test]
fn new_store_has_nothing_pending() {
    let store = ScheduleStore::new();
    assert_eq!(store.peek_count(0), 0);
    assert_eq!(store.peek_count(u64::MAX), 0);
    assert_eq!(store.get(0), Vec::<Vec<u8>>::new());
}

#[test]
fn register_keeps_registration_order() {
    let mut store = ScheduleStore::new();
    store.register(9, b"first".to_vec());
    store.register(9, b"second".to_vec());
    store.register(9, b"third".to_vec());
    assert_eq!(store.peek_count(9), 3);
    assert_eq!(
        store.drain(9),
        vec![b"first".to_vec(), b"second".to_vec(), b"third".to_vec()]
    );
}

#[test]
fn register_order_survives_operations_on_other_ticks() {
    let mut store = ScheduleStore::new();
    store.register(9, b"p1".to_vec());
    store.register(4, b"other".to_vec());
    store.register(9, b"p2".to_vec());
    assert_eq!(store.drain(4), vec![b"other".to_vec()]);
    store.register(9, b"p3".to_vec());
    assert_eq!(
        store.drain(9),
        vec![b"p1".to_vec(), b"p2".to_vec(), b"p3".to_vec()]
    );
}

#[test]
fn drain_returns_the_backlog_once() {
    let mut store = ScheduleStore::new();
    store.register(2, b"only".to_vec());
    assert_eq!(store.drain(2), vec![b"only".to_vec()]);
    assert_eq!(store.drain(2), Vec::<Vec<u8>>::new());
    assert_eq!(store.peek_count(2), 0);
}

#[test]
fn drain_of_a_tick_without_backlog_is_empty() {
    let mut store = ScheduleStore::new();
    store.register(1, b"kept".to_vec());
    assert_eq!(store.drain(7), Vec::<Vec<u8>>::new());
    assert_eq!(store.peek_count(1), 1);
}

#[test]
fn backlog_starts_anew_after_a_drain() {
    let mut store = ScheduleStore::new();
    store.register(3, b"old".to_vec());
    assert_eq!(store.drain(3), vec![b"old".to_vec()]);
    store.register(3, b"new".to_vec());
    assert_eq!(store.drain(3), vec![b"new".to_vec()]);
}

#[test]
fn peek_count_leaves_the_store_as_it_is() {
    let mut store = ScheduleStore::new();
    store.register(6, b"a".to_vec());
    store.register(6, b"b".to_vec());
    assert_eq!(store.peek_count(6), 2);
    assert_eq!(store.peek_count(6), 2);
    assert_eq!(store.drain(6), vec![b"a".to_vec(), b"b".to_vec()]);
}

#[test]
fn get_copies_without_removing() {
    let mut store = ScheduleStore::new();
    store.register(6, b"a".to_vec());
    store.register(6, b"b".to_vec());
    assert_eq!(store.get(6), vec![b"a".to_vec(), b"b".to_vec()]);
    assert_eq!(store.get(5), Vec::<Vec<u8>>::new());
    assert_eq!(store.peek_count(6), 2);
}

#[test]
fn registering_for_one_tick_leaves_another_alone() {
    let mut store = ScheduleStore::new();
    store.register(1, b"one".to_vec());
    store.register(2, b"two".to_vec());
    assert_eq!(store.peek_count(1), 1);
    assert_eq!(store.get(1), vec![b"one".to_vec()]);
    assert_eq!(store.drain(1), vec![b"one".to_vec()]);
    assert_eq!(store.drain(2), vec![b"two".to_vec()]);
}

#[test]
fn payloads_are_not_inspected() {
    let mut store = ScheduleStore::new();
    store.register(0, Vec::new());
    store.register(0, vec![0u8, 255u8, 0u8]);
    store.register(0, Vec::new());
    assert_eq!(store.peek_count(0), 3);
    assert_eq!(
        store.drain(0),
        vec![Vec::new(), vec![0u8, 255u8, 0u8], Vec::new()]
    );
}

#[test]
fn the_same_payload_may_be_registered_twice() {
    let mut store = ScheduleStore::new();
    store.register(u64::MAX, b"again".to_vec());
    store.register(u64::MAX, b"again".to_vec());
    assert_eq!(
        store.drain(u64::MAX),
        vec![b"again".to_vec(), b"again".to_vec()]
    );
}
