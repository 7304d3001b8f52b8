use raster_core::registers::RegisterBank;

#[test]
fn new_bank_holds_initial_values_and_nothing_in_use() {
    let mut bank: RegisterBank<u32, 3> = RegisterBank::new(7);
    for i in 0..3 {
        assert_eq!(*bank.get(i), 7);
        assert!(!bank.is_in_use(i));
    }
    assert_eq!(bank.used_count(), 0);
}

#[test]
fn get_writes_through_to_the_register() {
    let mut bank: RegisterBank<(i32, i32), 2> = RegisterBank::new((0, 0));
    *bank.get(1) = (3, 4);
    assert_eq!(*bank.get(1), (3, 4));
    assert_eq!(*bank.get(0), (0, 0));
}

#[test]
fn allocate_takes_lowest_free_register_until_full() {
    let mut bank: RegisterBank<u8, 2> = RegisterBank::new(0);
    assert_eq!(bank.allocate(), Some(0));
    assert_eq!(bank.allocate(), Some(1));
    assert_eq!(bank.allocate(), None);
    assert_eq!(bank.used_count(), 2);
    bank.release(0);
    assert!(!bank.is_in_use(0));
    assert!(bank.is_in_use(1));
    assert_eq!(bank.used_count(), 1);
    bank.release(0);
    assert_eq!(bank.used_count(), 1);
    assert_eq!(bank.allocate(), Some(0));
    assert_eq!(bank.used_count(), 2);
}

#[test]
fn clear_frees_registers_but_keeps_values() {
    let mut bank: RegisterBank<u16, 2> = RegisterBank::new(0);
    let i = bank.allocate().unwrap();
    *bank.get(i) = 500;
    bank.clear();
    assert_eq!(bank.used_count(), 0);
    assert!(!bank.is_in_use(i));
    assert_eq!(*bank.get(i), 500);
}

#[test]
fn zero_capacity_bank_never_allocates() {
    let mut bank: RegisterBank<u8, 0> = RegisterBank::new(0);
    assert_eq!(bank.allocate(), None);
    assert_eq!(bank.used_count(), 0);
}
