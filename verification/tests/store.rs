use incrementer::Incrementer;

#[test]
fn default_works() {
    let incrementer = Incrementer::default();
    assert_eq!(incrementer.get(), 0);
}

#[test]
fn test_increment() {
    let mut incrementer = Incrementer::new(5);
    assert_eq!(incrementer.get(), 5);

    incrementer.increment(11);
    assert_eq!(incrementer.get(), 16);

    incrementer.increment(-2);
    assert_eq!(incrementer.get(), 14);
}

#[test]
fn test_get_mine() {
    let caller: u64 = 1;
    let new_inc = Incrementer::new(15);
    assert_eq!(new_inc.get(), 15);
    assert_eq!(new_inc.get_mine(caller), 0);
}

#[test]
fn my_value_works() {
    let caller: u64 = 1;
    let mut contract = Incrementer::new(11);
    assert_eq!(contract.get(), 11);
    assert_eq!(contract.get_mine(caller), 0);
    contract.incre_mine(caller, 5);
    assert_eq!(contract.get_mine(caller), 5);
    contract.incre_mine(caller, 10);
    assert_eq!(contract.get_mine(caller), 15);
}

#[test]
fn default_matches_new_zero() {
    let d = Incrementer::default();
    let n = Incrementer::new(0);
    assert_eq!(d.get(), n.get());
    assert_eq!(d.get_mine(1), n.get_mine(1));
    assert_eq!(d.get_mine(2), n.get_mine(2));
}

#[test]
fn fresh_store_reads_zero_for_distinct_identities() {
    let s = Incrementer::new(7);
    assert_eq!(s.get_mine(1), 0);
    assert_eq!(s.get_mine(2), 0);
    assert_eq!(s.get_mine(u64::MAX), 0);
}

#[test]
fn two_identities_are_independent() {
    let a: u64 = 1;
    let b: u64 = 2;
    let mut s = Incrementer::new(11);
    assert_eq!(s.get(), 11);
    assert_eq!(s.get_mine(a), 0);
    assert_eq!(s.get_mine(b), 0);
    s.incre_mine(a, 5);
    assert_eq!(s.get_mine(a), 5);
    assert_eq!(s.get_mine(b), 0);
    s.incre_mine(a, 10);
    assert_eq!(s.get_mine(a), 15);
    assert_eq!(s.get_mine(b), 0);
    s.incre_mine(b, -3);
    assert_eq!(s.get_mine(a), 15);
    assert_eq!(s.get_mine(b), -3);
}

#[test]
fn repeated_reads_change_nothing() {
    let a: u64 = 1;
    let b: u64 = 2;
    let mut s = Incrementer::new(0);
    s.incre_mine(a, 9);
    for _ in 0..5 {
        assert_eq!(s.get_mine(a), 9);
        assert_eq!(s.get_mine(b), 0);
    }
    assert_eq!(s.get(), 0);
}

#[test]
fn my_value_or_zero_matches_get_mine() {
    let a: u64 = 4;
    let b: u64 = 5;
    let mut s = Incrementer::new(3);
    s.incre_mine(a, -8);
    assert_eq!(s.my_value_or_zero(&a), -8);
    assert_eq!(s.my_value_or_zero(&a), s.get_mine(a));
    assert_eq!(s.my_value_or_zero(&b), 0);
    assert_eq!(s.my_value_or_zero(&b), s.get_mine(b));
}

#[test]
fn flip_toggles_zero_and_minus_one() {
    let mut s = Incrementer::new(0);
    s.flip();
    assert_eq!(s.get(), -1);
    s.flip();
    assert_eq!(s.get(), 0);
}

#[test]
fn flip_is_bitwise_complement() {
    let mut s = Incrementer::new(5);
    s.flip();
    assert_eq!(s.get(), !5);
    assert_eq!(s.get(), -6);
    let mut t = Incrementer::new(i32::MIN);
    t.flip();
    assert_eq!(t.get(), i32::MAX);
    t.flip();
    assert_eq!(t.get(), i32::MIN);
}

#[test]
fn increment_wraps_at_the_extremes() {
    let mut s = Incrementer::new(i32::MAX);
    s.increment(1);
    assert_eq!(s.get(), i32::MIN);
    let mut t = Incrementer::new(i32::MIN);
    t.increment(-1);
    assert_eq!(t.get(), i32::MAX);
}

#[test]
fn incre_mine_wraps_at_the_extremes() {
    let x: u64 = 1;
    let mut s = Incrementer::new(0);
    s.incre_mine(x, i32::MAX);
    assert_eq!(s.get_mine(x), i32::MAX);
    s.incre_mine(x, 1);
    assert_eq!(s.get_mine(x), i32::MIN);
    assert_eq!(s.get(), 0);
}
