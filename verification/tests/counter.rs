use http_rater::counter::Counter;

#[test]
fn fresh_counter_reads_zero() {
    let counter = Counter::new();
    assert_eq!(counter.read(), 0);
}

#[test]
fn each_increment_adds_exactly_one() {
    let mut counter = Counter::new();
    let mut previous = counter.read();
    for _ in 0..100 {
        counter.increment();
        let current = counter.read();
        assert_eq!(current, previous + 1);
        assert!(current >= previous);
        previous = current;
    }
    assert_eq!(counter.read(), 100);
}
