use commandpad::store::ColorStore;

#[test]
fn new_store_is_all_zero() {
    let store = ColorStore::new();
    for position in 11..=99u8 {
        assert_eq!(store.get(position), 0);
    }
}

#[test]
fn set_overwrites_one_position() {
    let mut store = ColorStore::new();
    store.set(42, 17);
    assert_eq!(store.get(42), 17);
    assert_eq!(store.get(41), 0);
    assert_eq!(store.get(43), 0);
    store.set(42, 200);
    assert_eq!(store.get(42), 200);
}

#[test]
fn cycle_first_call_sets_one() {
    let mut store = ColorStore::new();
    let msg = store.cycle(42);
    assert_eq!(msg, vec![0x90, 42, 1]);
    assert_eq!(store.get(42), 1);
}

#[test]
fn cycle_wraps_to_one_not_128() {
    let mut store = ColorStore::new();
    let mut last = Vec::new();
    for _ in 0..127 {
        last = store.cycle(42);
        assert!(last[2] <= 127);
        assert_ne!(last[2], 128);
    }
    assert_eq!(last, vec![0x90, 42, 127]);
    assert_eq!(store.get(42), 127);
    let wrapped = store.cycle(42);
    assert_eq!(wrapped, vec![0x90, 42, 1]);
    assert_eq!(store.get(42), 1);
}

#[test]
fn cycle_treats_out_of_range_color_as_zero() {
    let mut store = ColorStore::new();
    store.set(42, 200);
    let msg = store.cycle(42);
    assert_eq!(msg, vec![0x90, 42, 1]);
    assert_eq!(store.get(42), 1);
}

#[test]
fn clear_repaints_every_position() {
    let mut store = ColorStore::new();
    store.set(42, 17);
    store.set(11, 3);
    let msgs = store.clear(0);
    assert_eq!(msgs.len(), 89);
    for (i, msg) in msgs.iter().enumerate() {
        assert_eq!(msg, &vec![0x90, 11 + i as u8, 0]);
    }
    for position in 11..=99u8 {
        assert_eq!(store.get(position), 0);
    }
}

#[test]
fn clear_with_color() {
    let mut store = ColorStore::new();
    let msgs = store.clear(9);
    assert_eq!(msgs.len(), 89);
    for (i, msg) in msgs.iter().enumerate() {
        assert_eq!(msg, &vec![0x90, 11 + i as u8, 9]);
    }
    for position in 11..=99u8 {
        assert_eq!(store.get(position), 9);
    }
}
