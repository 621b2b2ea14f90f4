use ysos::unique_id::{IdCounter, UniqueId};

#[test]
fn test_unique_id() {
    let mut counter = IdCounter::new();
    let id1 = UniqueId::new(&mut counter);
    let id2 = UniqueId::new(&mut counter);
    assert_ne!(id1, id2);
}

#[test]
fn ids_count_up_from_zero() {
    let mut counter = IdCounter::new();
    assert_eq!(UniqueId::new(&mut counter), UniqueId(0));
    assert_eq!(UniqueId::new(&mut counter), UniqueId(1));
    assert_eq!(UniqueId::new(&mut counter), UniqueId(2));
}

#[test]
fn ids_wrap_after_the_last_one() {
    let mut counter = IdCounter::new();
    for _ in 0..65535u32 {
        UniqueId::new(&mut counter);
    }
    assert_eq!(UniqueId::new(&mut counter), UniqueId(65535));
    assert_eq!(UniqueId::new(&mut counter), UniqueId(0));
}
