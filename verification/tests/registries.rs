use ohyper::mapper::{get_mapper, init_mapper, MapperSlot};
use ohyper::status::{init_ok, InitStatus};

#[test]
fn mapper_slot_gives_back_installed_mapper() {
    let mut slot: MapperSlot<u64> = MapperSlot::new();
    assert_eq!(get_mapper(&slot), None);
    init_mapper(&mut slot, 7);
    assert_eq!(get_mapper(&slot), Some(&7));
    init_mapper(&mut slot, 9);
    assert_eq!(get_mapper(&slot), Some(&9));
}

#[test]
fn init_flag() {
    let mut s = InitStatus::new();
    assert!(!init_ok(&s));
    s.mark_ok();
    assert!(init_ok(&s));
}
