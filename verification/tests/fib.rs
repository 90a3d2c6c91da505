use order_validation::fib::Fibonacci;

#[test]
fn starts_at_zero_one() {
    let f = Fibonacci::new();
    assert_eq!(f.current, 0);
    assert_eq!(f.next, 1);
}

#[test]
fn first_ten_values() {
    let mut f = Fibonacci::new();
    let mut got = Vec::new();
    for _ in 0..10 {
        got.push(f.next().unwrap());
    }
    assert_eq!(got, vec![1, 1, 2, 3, 5, 8, 13, 21, 34, 55]);
}

#[test]
fn stops_before_overflow() {
    let mut f = Fibonacci::new();
    let mut steps = 0u32;
    while f.next().is_some() {
        steps += 1;
        assert!(steps < 1000, "the stepper must stop before u64 overflows");
    }
    // Once the guard fails the pair stays put and keeps refusing.
    let stuck = f;
    assert_eq!(f.next(), None);
    assert_eq!(f, stuck);
}

#[test]
fn refuses_when_guard_fails() {
    let mut f = Fibonacci { current: u64::MAX / 2, next: u64::MAX / 2 };
    assert_eq!(f.next(), None);
    assert_eq!(f.current, u64::MAX / 2);
    assert_eq!(f.next, u64::MAX / 2);
}
