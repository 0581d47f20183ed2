use accumulator_server::accumulator::Accumulator;

#[test]
fn fresh_accumulator_reads_zero() {
    let acc = Accumulator::new();
    assert_eq!(acc.read(), 0);
}

#[test]
fn add_then_query_then_subtract() {
    let mut acc = Accumulator::new();
    assert_eq!(acc.add(5), 5);
    assert_eq!(acc.read(), 5);
    assert_eq!(acc.add(-3), 2);
    assert_eq!(acc.read(), 2);
}

#[test]
fn add_zero_keeps_value() {
    let mut acc = Accumulator::new();
    acc.add(41);
    assert_eq!(acc.add(0), 41);
    assert_eq!(acc.read(), 41);
    let mut fresh = Accumulator::new();
    assert_eq!(fresh.add(0), 0);
}

#[test]
fn adds_in_any_order_reach_the_sum() {
    let deltas = [7, -12, 300, 0, -5, 1_000_000];
    let sum: i32 = deltas.iter().sum();
    let mut forward = Accumulator::new();
    for d in deltas.iter() {
        forward.add(*d);
    }
    let mut backward = Accumulator::new();
    for d in deltas.iter().rev() {
        backward.add(*d);
    }
    let mut shuffled = Accumulator::new();
    for i in [3, 0, 5, 1, 4, 2] {
        shuffled.add(deltas[i]);
    }
    assert_eq!(forward.read(), sum);
    assert_eq!(backward.read(), sum);
    assert_eq!(shuffled.read(), sum);
}

#[test]
fn many_callers_lose_no_update() {
    let mut acc = Accumulator::new();
    let mut expected: i64 = 0;
    for caller in 1..=100i32 {
        let d = if caller % 2 == 0 { caller * 3 } else { -caller };
        acc.add(d);
        expected += d as i64;
    }
    assert_eq!(acc.read() as i64, expected);
}

#[test]
fn reported_value_wraps_to_32_bits() {
    let mut acc = Accumulator::new();
    assert_eq!(acc.add(i32::MAX), i32::MAX);
    assert_eq!(acc.add(1), i32::MIN);
    assert_eq!(acc.add(i32::MAX), -1);
    assert_eq!(acc.add(1), 0);
}

#[test]
fn reported_value_tracks_64_bit_total() {
    let mut acc = Accumulator::new();
    acc.add(i32::MAX);
    acc.add(i32::MAX);
    assert_eq!(acc.read(), -2);
    acc.add(i32::MIN);
    acc.add(i32::MIN);
    acc.add(2);
    assert_eq!(acc.read(), 0);
}
