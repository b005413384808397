use alumet::counter_diff::{CounterDiff, CounterDiffUpdate};

#[test]
fn counter_wraps_through_its_maximum() {
    let mut c = CounterDiff::with_max_value(100);
    assert_eq!(c.update(10), CounterDiffUpdate::FirstTime);
    assert_eq!(c.update(30), CounterDiffUpdate::Difference(20));
    assert_eq!(c.update(5), CounterDiffUpdate::CorrectedDifference(76));
    assert_eq!(c.previous_value, Some(5));
    assert_eq!(c.max_value, 100);
}

#[test]
fn counter_same_value_is_a_zero_difference() {
    let mut c = CounterDiff::with_max_value(u64::MAX);
    assert_eq!(c.update(7), CounterDiffUpdate::FirstTime);
    assert_eq!(c.update(7), CounterDiffUpdate::Difference(0));
}

#[test]
fn counter_wrap_at_the_largest_value() {
    let mut c = CounterDiff::with_max_value(u64::MAX);
    assert_eq!(c.update(u64::MAX), CounterDiffUpdate::FirstTime);
    assert_eq!(c.update(0), CounterDiffUpdate::CorrectedDifference(1));
    assert_eq!(c.update(u64::MAX), CounterDiffUpdate::Difference(u64::MAX));
    assert_eq!(c.update(u64::MAX - 1), CounterDiffUpdate::CorrectedDifference(u64::MAX));
}

#[test]
fn counter_deltas_add_up_to_the_advance() {
    let max: u64 = 9;
    let samples: [u64; 8] = [3, 7, 2, 2, 9, 0, 8, 1];
    let mut c = CounterDiff::with_max_value(max);
    let mut sum: u64 = 0;
    let mut wraps: u64 = 0;
    for s in samples {
        match c.update(s) {
            CounterDiffUpdate::FirstTime => {}
            CounterDiffUpdate::Difference(d) => sum += d,
            CounterDiffUpdate::CorrectedDifference(d) => {
                sum += d;
                wraps += 1;
            }
        }
    }
    assert_eq!(wraps, 3);
    assert_eq!(sum + 3, 1 + wraps * (max + 1));
    assert_eq!(sum % (max + 1), (1 + (max + 1) - 3) % (max + 1));
}

#[test]
fn difference_of_an_update() {
    assert_eq!(CounterDiffUpdate::FirstTime.difference(), None);
    assert_eq!(CounterDiffUpdate::Difference(4).difference(), Some(4));
    assert_eq!(CounterDiffUpdate::CorrectedDifference(9).difference(), Some(9));
}
