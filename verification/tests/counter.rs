use web_counter::counter::{Counter, Operation};

#[test]
fn new_counter_is_zero() {
    let c = Counter::new();
    assert_eq!(c.read(), 0);
}

#[test]
fn with_value_holds_the_value() {
    assert_eq!(Counter::with_value(-17).read(), -17);
    assert_eq!(Counter::with_value(i32::MAX).read(), i32::MAX);
}

#[test]
fn increment_adds_one_and_returns_the_new_value() {
    let mut c = Counter::new();
    assert_eq!(c.increment(), 1);
    assert_eq!(c.read(), 1);
    assert_eq!(c.increment(), 2);
    assert_eq!(c.read(), 2);
}

#[test]
fn decrement_takes_one_and_goes_negative() {
    let mut c = Counter::new();
    assert_eq!(c.decrement(), -1);
    assert_eq!(c.decrement(), -2);
    assert_eq!(c.read(), -2);
}

#[test]
fn reset_gives_zero_from_any_value() {
    for start in [0, 1, -1, 42, -42, i32::MAX, i32::MIN] {
        let mut c = Counter::with_value(start);
        assert_eq!(c.reset(), 0);
        assert_eq!(c.read(), 0);
    }
}

#[test]
fn reset_twice_is_reset_once() {
    let mut once = Counter::with_value(99);
    once.reset();
    let mut twice = Counter::with_value(99);
    twice.reset();
    assert_eq!(twice.reset(), 0);
    assert_eq!(once, twice);
    assert_eq!(twice.read(), 0);
}

#[test]
fn increment_wraps_at_the_top() {
    let mut c = Counter::with_value(i32::MAX);
    assert_eq!(c.increment(), i32::MIN);
    assert_eq!(c.read(), i32::MIN);
}

#[test]
fn decrement_wraps_at_the_bottom() {
    let mut c = Counter::with_value(i32::MIN);
    assert_eq!(c.decrement(), i32::MAX);
    assert_eq!(c.read(), i32::MAX);
}

#[test]
fn wrapping_up_and_back_down_returns_to_the_start() {
    let mut c = Counter::with_value(i32::MAX - 1);
    c.increment();
    c.increment();
    c.increment();
    assert_eq!(c.read(), i32::MIN + 1);
    c.decrement();
    c.decrement();
    c.decrement();
    assert_eq!(c.read(), i32::MAX - 1);
}

#[test]
fn apply_does_what_the_operation_names() {
    let mut c = Counter::with_value(5);
    assert_eq!(c.apply(Operation::Increment), 6);
    assert_eq!(c.apply(Operation::Decrement), 5);
    assert_eq!(c.apply(Operation::Decrement), 4);
    assert_eq!(c.apply(Operation::Reset), 0);
    assert_eq!(c.read(), 0);
}

#[test]
fn apply_all_on_nothing_changes_nothing() {
    let mut c = Counter::with_value(7);
    assert_eq!(c.apply_all(&Vec::new()), 7);
    assert_eq!(c.read(), 7);
}

#[test]
fn steps_from_zero_give_their_net_sum() {
    let ops = vec![
        Operation::Increment,
        Operation::Increment,
        Operation::Decrement,
        Operation::Increment,
        Operation::Decrement,
        Operation::Decrement,
        Operation::Decrement,
        Operation::Increment,
        Operation::Increment,
        Operation::Increment,
    ];
    let mut c = Counter::new();
    assert_eq!(c.apply_all(&ops), 2);
    assert_eq!(c.read(), 2);

    let mut one_by_one = Counter::new();
    let mut net = 0;
    for op in &ops {
        net += match op {
            Operation::Increment => 1,
            Operation::Decrement => -1,
            Operation::Reset => 0,
        };
        assert_eq!(one_by_one.apply(*op), net);
    }
}

#[test]
fn net_sum_holds_for_many_generated_sequences() {
    let mut seed: u32 = 0x2545_f491;
    for round in 0..200 {
        let mut ops = Vec::new();
        let mut net: i32 = 0;
        for _ in 0..(round % 37) {
            seed = seed.wrapping_mul(1_664_525).wrapping_add(1_013_904_223);
            if seed & 0x8000 == 0 {
                ops.push(Operation::Increment);
                net += 1;
            } else {
                ops.push(Operation::Decrement);
                net -= 1;
            }
        }
        let mut c = Counter::new();
        assert_eq!(c.apply_all(&ops), net);
    }
}

#[test]
fn a_reset_in_a_run_forgets_what_came_before() {
    let ops = vec![
        Operation::Increment,
        Operation::Increment,
        Operation::Reset,
        Operation::Decrement,
    ];
    let mut c = Counter::with_value(1000);
    assert_eq!(c.apply_all(&ops), -1);
}

#[test]
fn a_run_ending_in_reset_ends_on_zero() {
    let ops = vec![Operation::Decrement, Operation::Decrement, Operation::Reset];
    let mut c = Counter::with_value(-8);
    assert_eq!(c.apply_all(&ops), 0);
}

#[test]
fn the_order_of_steps_does_not_matter() {
    let a = vec![
        Operation::Increment,
        Operation::Increment,
        Operation::Increment,
        Operation::Decrement,
    ];
    let b = vec![
        Operation::Decrement,
        Operation::Increment,
        Operation::Increment,
        Operation::Increment,
    ];
    let mut x = Counter::with_value(i32::MAX - 1);
    let mut y = Counter::with_value(i32::MAX - 1);
    assert_eq!(x.apply_all(&a), y.apply_all(&b));
    assert_eq!(x.read(), i32::MIN);
}

#[test]
fn n_increments_from_zero_give_n() {
    for n in [0, 1, 2, 10, 1000, 100_000] {
        let mut c = Counter::new();
        let ops = vec![Operation::Increment; n];
        assert_eq!(c.apply_all(&ops), n as i32);
    }
}
